//! A bounded terminal counter: an 8-bit value moved up and down by key
//! presses, saturating at its bounds, with a status line derived from the
//! value. The terminal layer (event source and renderer) lives outside this
//! crate; it hands decoded input events in and reads the state back out.

/// The counter state and its transitions.
pub mod counter;
/// Decoded terminal input events.
pub mod input;
