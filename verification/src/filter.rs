use vstd::prelude::*;

use crate::addr::IpAddr;

verus! {

/// A caller-supplied address filter: a pure, deterministic predicate deciding
/// whether a resolved address may be used.
///
/// The adapter applies the predicate twice per lookup — once to decide
/// whether any address is usable at all, and once more while handing
/// addresses out — so the two passes must agree.  The trait makes that
/// demand precise: `allows` must return exactly `allows_spec`, a function of
/// the address alone.
pub trait IpFilter: Sized {
    /// What the predicate permits, as a mathematical predicate.
    spec fn allows_spec(&self, ip: IpAddr) -> bool;

    /// The executable predicate; it must agree with `allows_spec` on every
    /// address.
    fn allows(&self, ip: IpAddr) -> (b: bool)
        ensures
            b == self.allows_spec(ip),
    ;
}

/// A filter that rejects loopback addresses and permits everything else.
#[derive(Clone, Copy, PartialEq, Eq, Structural, Debug)]
pub struct RejectLoopback;

impl IpFilter for RejectLoopback {
    open spec fn allows_spec(&self, ip: IpAddr) -> bool {
        !ip.is_loopback_spec()
    }

    fn allows(&self, ip: IpAddr) -> (b: bool) {
        !ip.is_loopback()
    }
}

/// A filter that rejects loopback and private-range addresses, as a client
/// hardened against requests into its own network would configure.
#[derive(Clone, Copy, PartialEq, Eq, Structural, Debug)]
pub struct RejectLoopbackAndPrivate;

impl IpFilter for RejectLoopbackAndPrivate {
    open spec fn allows_spec(&self, ip: IpAddr) -> bool {
        !ip.is_loopback_spec() && !ip.is_private_spec()
    }

    fn allows(&self, ip: IpAddr) -> (b: bool) {
        !ip.is_loopback() && !ip.is_private()
    }
}

/// A filter that permits every address, for callers that want no policy.
#[derive(Clone, Copy, PartialEq, Eq, Structural, Debug)]
pub struct AllowAll;

impl IpFilter for AllowAll {
    open spec fn allows_spec(&self, ip: IpAddr) -> bool {
        true
    }

    fn allows(&self, ip: IpAddr) -> (b: bool) {
        true
    }
}

} // verus!
