use vstd::prelude::*;

verus! {

/// Logical level of a digital input or output line.  The debouncer hands
/// out only these two values: no "unknown" state escapes it.
#[derive(Clone, Copy, Debug, PartialEq, Eq, Structural)]
pub enum Level {
    High,
    Low,
}

/// Which transitions of a [`Level`] should produce a notification.
/// Attached to an input when it is armed and immutable thereafter.
#[derive(Clone, Copy, Debug, PartialEq, Eq, Structural)]
pub enum Edge {
    Rising,
    Falling,
    Both,
}

} // verus!
