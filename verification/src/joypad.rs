//! The buttons of the console.

use vstd::prelude::*;

verus! {

/// A button of the console.
#[derive(Debug, Copy, Clone, PartialEq, Eq, Structural)]
pub enum InputKeys {
    Start,
    Select,
    A,
    B,
    Up,
    Down,
    Left,
    Right,
    ShoulderLeft,
    ShoulderRight,
}

} // verus!
