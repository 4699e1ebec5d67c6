//! The host platforms that the overlay tells apart.

use vstd::prelude::*;

verus! {

/// The host platform, resolved once at start-up by the program.
#[derive(Clone, Copy, Debug, PartialEq, Eq, Structural)]
pub enum Platform {
    Windows,
    Linux,
    Other,
}

} // verus!
