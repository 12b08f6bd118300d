//! The one way in which building a provider configuration fails.

use vstd::prelude::*;

verus! {

/// Why a provider configuration could not be built.
#[derive(Debug, Clone, Copy, PartialEq, Eq, Structural)]
pub enum Error {
    /// A candidate endpoint is not an absolute URL.
    MalformedEndpoint,
}

} // verus!
