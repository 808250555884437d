//! Drawing as data.  A widget does not touch the terminal; it returns an
//! ordered list of drawing commands in its own coordinate space.  The
//! embedder executes the list against a real surface, recursing into each
//! `Child` command through a sub-surface translated to the given offset and
//! clipped to the given size.

use vstd::prelude::*;
use crate::geom::Vec2;

verus! {

/// Which child of a composite widget a `Child` command refers to.
#[derive(Clone, Copy, PartialEq, Eq, Structural, Debug)]
pub enum ChildId {
    Content,
    Button(usize),
}

/// One drawing command, in the coordinate space of the widget that issued
/// it.
#[derive(Clone, PartialEq, Debug)]
pub enum DrawCmd {
    /// Print `text` at `pos`; `emphasized` asks for the highlighted style.
    Text { pos: Vec2, text: String, emphasized: bool },
    /// Draw a border box with its top-left corner at `pos`.
    Frame { pos: Vec2, size: Vec2 },
    /// Draw the named child inside the sub-region at `offset` of extent
    /// `size`, telling it whether it currently holds focus.
    Child { id: ChildId, offset: Vec2, size: Vec2, focused: bool },
}

/// The mathematical image of a drawing command: the same shape with the
/// text as a sequence of characters.
pub enum CmdView {
    Text { pos: Vec2, text: Seq<char>, emphasized: bool },
    Frame { pos: Vec2, size: Vec2 },
    Child { id: ChildId, offset: Vec2, size: Vec2, focused: bool },
}

impl View for DrawCmd {
    type V = CmdView;

    open spec fn view(&self) -> CmdView {
        match self {
            DrawCmd::Text { pos, text, emphasized } => CmdView::Text {
                pos: *pos,
                text: text@,
                emphasized: *emphasized,
            },
            DrawCmd::Frame { pos, size } => CmdView::Frame { pos: *pos, size: *size },
            DrawCmd::Child { id, offset, size, focused } => CmdView::Child {
                id: *id,
                offset: *offset,
                size: *size,
                focused: *focused,
            },
        }
    }
}

/// The image of a whole command list.
pub open spec fn cmd_views(cmds: Seq<DrawCmd>) -> Seq<CmdView> {
    cmds.map_values(|c: DrawCmd| c@)
}

} // verus!
