//! The audio engine that does nothing, for scaffolding and tests.

use vstd::prelude::*;

verus! {

/// No-op engine: accepts every command and never reports an event.
pub struct NullEngine;

impl Default for NullEngine {
    fn default() -> (e: NullEngine)
        ensures
            e == NullEngine,
    {
        NullEngine
    }
}

} // verus!
