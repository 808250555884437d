//! The contract every displayable element implements: size negotiation,
//! layout, drawing, key handling and focus acceptance.
//!
//! Each implementor publishes, beside the executable methods, a
//! well-formedness predicate, a minimum-size function and one transition
//! relation per mutating method.  The method contracts tie the executable
//! code to those specifications, so a composite widget such as the dialog
//! can reason about its children purely through them.

use vstd::prelude::*;
use crate::draw::{cmd_views, CmdView, DrawCmd};
use crate::event::{EventResult, Key};
use crate::geom::Vec2;
use crate::request::SizeRequest;

verus! {

pub trait Widget: Sized {
    /// Structural well-formedness of the widget's state.
    spec fn wf(&self) -> bool;

    /// The smallest size the widget can render acceptably under the given
    /// per-axis constraints.  A pure function of the request and the
    /// widget's state.
    spec fn min_size_spec(&self, req: SizeRequest) -> Vec2;

    /// How `layout` may change the widget when told it will be drawn at
    /// `size`.
    spec fn layout_rel(&self, size: Vec2, post: Self) -> bool;

    /// How `on_key_event` may change the widget and what it may answer.
    spec fn key_rel(&self, key: Key, post: Self, r: EventResult) -> bool;

    /// How `take_focus` may change the widget and whether it accepts focus.
    spec fn focus_rel(&self, post: Self, accepted: bool) -> bool;

    /// The drawing commands the widget issues when drawn at `size`.
    spec fn draw_spec(&self, size: Vec2, focused: bool) -> Seq<CmdView>;

    /// Compute the minimum size under `req`; must not mutate the widget.
    fn get_min_size(&self, req: SizeRequest) -> (s: Vec2)
        requires
            self.wf(),
        ensures
            s == self.min_size_spec(req),
    ;

    /// Record the exact size the widget will be drawn at.
    fn layout(&mut self, size: Vec2)
        requires
            old(self).wf(),
        ensures
            old(self).layout_rel(size, *final(self)),
            final(self).wf(),
    ;

    /// Offer a key to the widget.
    fn on_key_event(&mut self, key: Key) -> (r: EventResult)
        requires
            old(self).wf(),
        ensures
            old(self).key_rel(key, *final(self), r),
            final(self).wf(),
    ;

    /// Ask the widget to accept keyboard focus from outside.
    fn take_focus(&mut self) -> (accepted: bool)
        requires
            old(self).wf(),
        ensures
            old(self).focus_rel(*final(self), accepted),
            final(self).wf(),
    ;

    /// Describe the widget's rendering at `size` as a command list.
    fn draw(&self, size: Vec2, focused: bool) -> (cmds: Vec<DrawCmd>)
        requires
            self.wf(),
        ensures
            cmd_views(cmds@) == self.draw_spec(size, focused),
    ;
}

} // verus!
