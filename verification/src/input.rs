use vstd::prelude::*;

verus! {

/// A pressed key, already decoded to the actions the counter understands.
/// Every key that is none of the three recognized ones decodes to `Other`.
#[derive(Clone, Copy, Debug, PartialEq, Eq, Structural)]
pub enum Key {
    /// Move the counter up by one.
    Increment,
    /// Move the counter down by one.
    Decrement,
    /// Request that the input loop stop.
    Quit,
    /// Any key with no action attached.
    Other,
}

/// A terminal input event, reduced to what the input loop inspects: a key
/// press carries its decoded key; every other event (a key release, a
/// resize, ...) is `Other` and leaves the state alone.
#[derive(Clone, Copy, Debug, PartialEq, Eq, Structural)]
pub enum InputEvent {
    /// A key was pressed.
    KeyPress(Key),
    /// Anything else the terminal reported.
    Other,
}

} // verus!
