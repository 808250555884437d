//! A single line of static text.  Inert: it never consumes a key and, as a
//! widget with no focusable sub-element, refuses focus.

use vstd::prelude::*;
use vstd::string::StrSliceExecFns;
use crate::draw::{cmd_views, CmdView, DrawCmd};
use crate::event::{EventResult, Key};
use crate::geom::{clamp_len, Vec2};
use crate::request::SizeRequest;
use crate::widget::Widget;

verus! {

pub struct TextView {
    pub text: String,
}

impl TextView {
    pub fn new(text: &str) -> (t: TextView)
        ensures
            t.text@ == text@,
    {
        TextView { text: text.to_owned() }
    }
}

impl Widget for TextView {
    open spec fn wf(&self) -> bool {
        true
    }

    /// One row high, as wide as the text.
    open spec fn min_size_spec(&self, req: SizeRequest) -> Vec2 {
        Vec2 { x: clamp_len(self.text@.len()), y: 1 }
    }

    open spec fn layout_rel(&self, size: Vec2, post: Self) -> bool {
        post == *self
    }

    open spec fn key_rel(&self, key: Key, post: Self, r: EventResult) -> bool {
        post == *self && r == EventResult::Ignored
    }

    /// Static text has nothing to focus.
    open spec fn focus_rel(&self, post: Self, accepted: bool) -> bool {
        post == *self && !accepted
    }

    open spec fn draw_spec(&self, size: Vec2, focused: bool) -> Seq<CmdView> {
        seq![CmdView::Text { pos: Vec2 { x: 0, y: 0 }, text: self.text@, emphasized: false }]
    }

    fn get_min_size(&self, req: SizeRequest) -> (s: Vec2) {
        let w = self.text.as_str().unicode_len();
        Vec2 { x: w, y: 1 }
    }

    fn layout(&mut self, size: Vec2) {
    }

    fn on_key_event(&mut self, key: Key) -> (r: EventResult) {
        EventResult::Ignored
    }

    fn take_focus(&mut self) -> (accepted: bool) {
        false
    }

    fn draw(&self, size: Vec2, focused: bool) -> (cmds: Vec<DrawCmd>) {
        let mut cmds: Vec<DrawCmd> = Vec::new();
        cmds.push(
            DrawCmd::Text { pos: Vec2 { x: 0, y: 0 }, text: self.text.clone(), emphasized: false },
        );
        proof {
            assert(cmd_views(cmds@) =~= self.draw_spec(size, focused));
        }
        cmds
    }
}

} // verus!
