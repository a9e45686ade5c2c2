//! The failures a load attempt or a frame can end in. Every public
//! operation reports failure through this type instead of panicking.

use vstd::prelude::*;

verus! {

/// Why a load attempt or a frame failed.
#[derive(PartialEq, Eq, Debug)]
pub enum Uw8Error {
    /// A module image does not fit into the linear memory, so placing it
    /// at offset 0 would be out of bounds. Detected before any engine
    /// call, so nothing is written anywhere.
    TooLarge,
    /// The loader reported a canonical image longer than the linear
    /// memory, which no well-formed loader does.
    BadLoaderResult,
    /// The execution engine failed: a module did not compile, an import
    /// did not resolve, or guest code trapped. The text is the engine's
    /// own description.
    Engine(String),
}

} // verus!
