//! Keyboard input and its outcome.  A key code is opaque to the dialog
//! except for the four focus-movement classes; everything else is forwarded
//! verbatim to the focused child.  Button callbacks are modelled as plain
//! values: the surrounding event loop, not this core, performs them.

use vstd::prelude::*;

verus! {

/// A semantic key class.  The embedder decodes platform-specific raw key
/// codes into the four movement classes and wraps every other code
/// unchanged in `Other`.
#[derive(Clone, Copy, PartialEq, Eq, Structural, Debug)]
pub enum Key {
    Up,
    Down,
    Left,
    Right,
    Other(i32),
}

/// What a button asks the surrounding application to do when activated.
/// `PopLayer` dismisses the current top-level layer; `Command` carries an
/// application-defined identifier.
#[derive(Clone, Copy, PartialEq, Eq, Structural, Debug)]
pub enum Callback {
    PopLayer,
    Command(u64),
}

/// The outcome of offering a key to a widget: consumed, possibly with a
/// follow-up callback for the event loop, or ignored so that an ancestor
/// may reinterpret it.
#[derive(Clone, Copy, PartialEq, Eq, Debug)]
pub enum EventResult {
    Consumed(Option<Callback>),
    Ignored,
}

} // verus!
