use vstd::prelude::*;

verus! {

/// Why a resolve call failed.
///
/// The three kinds are deliberately distinct: a caller can tell a host that
/// does not exist from one that exists but is policy-disallowed, and a
/// configuration problem (retryable once the environment is fixed) from a
/// failed query.
#[derive(Debug)]
pub enum ResolveError {
    /// Resolver configuration could not be read or applied; a later call may
    /// retry once the environment changes.
    Config { detail: String },
    /// The underlying engine's query failed: transport error, malformed
    /// response, timeout, or no such domain.
    EngineLookup { detail: String },
    /// The lookup succeeded, but every returned address was rejected by the
    /// filter.
    RestrictedDestination,
}

impl ResolveError {
    pub fn is_config(&self) -> (b: bool)
        ensures
            b == (self is Config),
    {
        match self {
            ResolveError::Config { .. } => true,
            _ => false,
        }
    }

    pub fn is_engine_lookup(&self) -> (b: bool)
        ensures
            b == (self is EngineLookup),
    {
        match self {
            ResolveError::EngineLookup { .. } => true,
            _ => false,
        }
    }

    pub fn is_restricted_destination(&self) -> (b: bool)
        ensures
            b == (self is RestrictedDestination),
    {
        match self {
            ResolveError::RestrictedDestination => true,
            _ => false,
        }
    }
}

} // verus!
