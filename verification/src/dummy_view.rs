//! A widget that takes no space, draws nothing, ignores every key and
//! refuses focus.  Useful as a placeholder content and as the simplest
//! possible collaborator in tests.

use vstd::prelude::*;
use crate::draw::{cmd_views, CmdView, DrawCmd};
use crate::event::{EventResult, Key};
use crate::geom::Vec2;
use crate::request::SizeRequest;
use crate::widget::Widget;

verus! {

pub struct DummyView {
}

impl DummyView {
    pub fn new() -> (d: DummyView) {
        DummyView {  }
    }
}

impl Widget for DummyView {
    open spec fn wf(&self) -> bool {
        true
    }

    open spec fn min_size_spec(&self, req: SizeRequest) -> Vec2 {
        Vec2 { x: 0, y: 0 }
    }

    open spec fn layout_rel(&self, size: Vec2, post: Self) -> bool {
        post == *self
    }

    open spec fn key_rel(&self, key: Key, post: Self, r: EventResult) -> bool {
        post == *self && r == EventResult::Ignored
    }

    open spec fn focus_rel(&self, post: Self, accepted: bool) -> bool {
        post == *self && !accepted
    }

    open spec fn draw_spec(&self, size: Vec2, focused: bool) -> Seq<CmdView> {
        Seq::empty()
    }

    fn get_min_size(&self, req: SizeRequest) -> (s: Vec2) {
        Vec2 { x: 0, y: 0 }
    }

    fn layout(&mut self, size: Vec2) {
    }

    fn on_key_event(&mut self, key: Key) -> (r: EventResult) {
        EventResult::Ignored
    }

    fn take_focus(&mut self) -> (accepted: bool) {
        false
    }

    fn draw(&self, size: Vec2, focused: bool) -> (cmds: Vec<DrawCmd>) {
        let cmds: Vec<DrawCmd> = Vec::new();
        proof {
            assert(cmd_views(cmds@) =~= self.draw_spec(size, focused));
        }
        cmds
    }
}

} // verus!
