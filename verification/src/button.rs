//! An action button: a label and a callback value.  The button itself is
//! inert to keys — activation is the surrounding event loop's business — so
//! every key offered to it bubbles back to its parent, which is what lets
//! the dialog reinterpret the movement keys as focus changes.

use vstd::prelude::*;
use vstd::string::StrSliceExecFns;
use crate::draw::{cmd_views, CmdView, DrawCmd};
use crate::event::{Callback, EventResult, Key};
use crate::geom::{clamp_len, Vec2};
use crate::request::SizeRequest;
use crate::widget::Widget;

verus! {

pub struct Button {
    pub label: String,
    pub callback: Callback,
}

impl Button {
    pub fn new(label: &str, callback: Callback) -> (b: Button)
        ensures
            b.label@ == label@,
            b.callback == callback,
    {
        Button { label: label.to_owned(), callback }
    }
}

impl Widget for Button {
    open spec fn wf(&self) -> bool {
        true
    }

    /// One row high, as wide as the label.
    open spec fn min_size_spec(&self, req: SizeRequest) -> Vec2 {
        Vec2 { x: clamp_len(self.label@.len()), y: 1 }
    }

    /// Layout caches nothing.
    open spec fn layout_rel(&self, size: Vec2, post: Self) -> bool {
        post == *self
    }

    /// Every key bubbles up unchanged.
    open spec fn key_rel(&self, key: Key, post: Self, r: EventResult) -> bool {
        post == *self && r == EventResult::Ignored
    }

    /// A button always accepts focus.
    open spec fn focus_rel(&self, post: Self, accepted: bool) -> bool {
        post == *self && accepted
    }

    /// The label at the origin, emphasized while focused.
    open spec fn draw_spec(&self, size: Vec2, focused: bool) -> Seq<CmdView> {
        seq![CmdView::Text { pos: Vec2 { x: 0, y: 0 }, text: self.label@, emphasized: focused }]
    }

    fn get_min_size(&self, req: SizeRequest) -> (s: Vec2) {
        let w = self.label.as_str().unicode_len();
        Vec2 { x: w, y: 1 }
    }

    fn layout(&mut self, size: Vec2) {
    }

    fn on_key_event(&mut self, key: Key) -> (r: EventResult) {
        EventResult::Ignored
    }

    fn take_focus(&mut self) -> (accepted: bool) {
        true
    }

    fn draw(&self, size: Vec2, focused: bool) -> (cmds: Vec<DrawCmd>) {
        let mut cmds: Vec<DrawCmd> = Vec::new();
        cmds.push(
            DrawCmd::Text { pos: Vec2 { x: 0, y: 0 }, text: self.label.clone(), emphasized: focused },
        );
        proof {
            assert(cmd_views(cmds@) =~= self.draw_spec(size, focused));
        }
        cmds
    }
}

} // verus!
