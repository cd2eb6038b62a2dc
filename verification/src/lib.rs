//! A name-resolution adapter for an HTTP client's connection layer.
//!
//! The adapter sits between a connector that asks "give me addresses for this
//! host" and an underlying DNS engine that performs the actual queries.  Its
//! obligations are narrow but precise: construct the underlying engine lazily
//! and at most once per handle state, apply a caller-supplied address filter
//! to every resolved address, reject lookups whose addresses are all
//! disallowed, and hand the permitted addresses out as a forward-only
//! sequence.
//!
//! This crate verifies those obligations.  The engine itself (network
//! queries, caching, system-configuration parsing) is an external
//! collaborator: callers run it and feed its outcomes to the decision
//! functions here.

mod addr;
mod errors;
mod filter;
mod handle;
mod sequence;

pub use addr::IpAddr;
pub use addr::SocketAddr;
pub use errors::ResolveError;
pub use filter::AllowAll;
pub use filter::IpFilter;
pub use filter::RejectLoopback;
pub use filter::RejectLoopbackAndPrivate;
pub use handle::ADDR_CACHE_SIZE;
pub use handle::IpStrategy;
pub use handle::LookupOutcome;
pub use handle::ResolverHandle;
pub use handle::ResolverOptions;
pub use handle::any_allowed;
pub use handle::init_state_after;
pub use handle::init_step;
pub use handle::lemma_failure_leaves_retry;
pub use handle::lemma_ready_iff_some_success;
pub use handle::lemma_ready_is_permanent;
pub use handle::resolve_outcome;
pub use handle::system_config_outcome;
pub use sequence::FilteredAddrs;
pub use sequence::allowed_addrs;
pub use sequence::lemma_allowed_addrs_is_filtered;
pub use sequence::lemma_some_allowed_iff_nonempty;
pub use sequence::some_allowed;
