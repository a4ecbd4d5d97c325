//! The system that the program runs on, as far as the rules differ by it.

use vstd::prelude::*;

verus! {

/// The system that the program runs on.
#[derive(Clone, Copy, PartialEq, Eq, Debug, Structural)]
pub enum Platform {
    Windows,
    MacOs,
    Other,
}

} // verus!
