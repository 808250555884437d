//! A wrapper that remembers the size its inner widget was last laid out
//! at, so that a parent can place the child at draw time without asking it
//! to negotiate again.

use vstd::prelude::*;
use crate::draw::{CmdView, DrawCmd};
use crate::event::{EventResult, Key};
use crate::geom::Vec2;
use crate::request::SizeRequest;
use crate::widget::Widget;

verus! {

pub struct SizedView<T: Widget> {
    pub view: T,
    pub size: Vec2,
}

impl<T: Widget> SizedView<T> {
    /// Wrap a widget; no layout has happened yet, so the cached size is
    /// zero.
    pub fn new(view: T) -> (s: SizedView<T>)
        ensures
            s.view == view,
            s.size == (Vec2 { x: 0, y: 0 }),
    {
        SizedView { view, size: Vec2 { x: 0, y: 0 } }
    }
}

impl<T: Widget> Widget for SizedView<T> {
    open spec fn wf(&self) -> bool {
        self.view.wf()
    }

    open spec fn min_size_spec(&self, req: SizeRequest) -> Vec2 {
        self.view.min_size_spec(req)
    }

    /// Layout caches the given size and passes it on.
    open spec fn layout_rel(&self, size: Vec2, post: Self) -> bool {
        self.view.layout_rel(size, post.view) && post.size == size
    }

    open spec fn key_rel(&self, key: Key, post: Self, r: EventResult) -> bool {
        self.view.key_rel(key, post.view, r) && post.size == self.size
    }

    open spec fn focus_rel(&self, post: Self, accepted: bool) -> bool {
        self.view.focus_rel(post.view, accepted) && post.size == self.size
    }

    open spec fn draw_spec(&self, size: Vec2, focused: bool) -> Seq<CmdView> {
        self.view.draw_spec(size, focused)
    }

    fn get_min_size(&self, req: SizeRequest) -> (s: Vec2) {
        self.view.get_min_size(req)
    }

    fn layout(&mut self, size: Vec2) {
        self.size = size;
        self.view.layout(size);
    }

    fn on_key_event(&mut self, key: Key) -> (r: EventResult) {
        self.view.on_key_event(key)
    }

    fn take_focus(&mut self) -> (accepted: bool) {
        self.view.take_focus()
    }

    fn draw(&self, size: Vec2, focused: bool) -> (cmds: Vec<DrawCmd>) {
        self.view.draw(size, focused)
    }
}

} // verus!
