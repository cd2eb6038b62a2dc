use vstd::prelude::*;

use crate::addr::IpAddr;
use crate::errors::ResolveError;
use crate::filter::IpFilter;
use crate::sequence::FilteredAddrs;
use crate::sequence::allowed_addrs;
use crate::sequence::lemma_some_allowed_iff_nonempty;
use crate::sequence::some_allowed;

verus! {

/// Which address families a lookup asks the engine for.
#[derive(Clone, Copy, PartialEq, Eq, Structural, Debug)]
pub enum IpStrategy {
    Ipv4Only,
    Ipv6Only,
    Ipv4AndIpv6,
    Ipv4ThenIpv6,
    Ipv6ThenIpv4,
}

/// The address-cache capacity the adapter asks of a freshly constructed
/// engine: large, to amortize repeat lookups over a long-lived client.
pub const ADDR_CACHE_SIZE: usize = 500_000;

/// The engine options the adapter itself interprets.  Everything else the
/// engine is configured with passes through the adapter untouched, alongside
/// the engine configuration value.
#[derive(Clone, Copy, PartialEq, Eq, Structural, Debug)]
pub struct ResolverOptions {
    pub ip_strategy: IpStrategy,
    pub cache_size: usize,
}

impl ResolverOptions {
    /// The options used when the configuration was read from the operating
    /// system: both address families are looked up, so the caller can race
    /// IPv4 against IPv6, and the address cache is enlarged.
    pub open spec fn with_lookup_overrides_spec(self) -> ResolverOptions {
        ResolverOptions { ip_strategy: IpStrategy::Ipv4AndIpv6, cache_size: ADDR_CACHE_SIZE }
    }

    pub fn with_lookup_overrides(self) -> (r: ResolverOptions)
        ensures
            r == self.with_lookup_overrides_spec(),
    {
        ResolverOptions { ip_strategy: IpStrategy::Ipv4AndIpv6, cache_size: ADDR_CACHE_SIZE }
    }
}

/// Decide the configuration for one construction attempt from what reading
/// the operating system's resolver settings returned.  A readable
/// configuration is used with the lookup overrides applied; an unreadable
/// one fails the attempt with a configuration error, and nothing is
/// constructed.  Consulted only when no explicit configuration was injected.
pub fn system_config_outcome<C>(read: Result<(C, ResolverOptions), String>) -> (r: Result<
    (C, ResolverOptions),
    ResolveError,
>)
    ensures
        match read {
            Ok(pair) => r matches Ok(p) && p.0 == pair.0 && p.1
                == pair.1.with_lookup_overrides_spec(),
            Err(e) => r matches Err(err) && err matches ResolveError::Config { detail } && detail
                == e,
        },
{
    match read {
        Ok((config, options)) => Ok((config, options.with_lookup_overrides())),
        Err(e) => Err(ResolveError::Config { detail: e }),
    }
}

/// What the underlying engine reported for one resolve call, handed to
/// [`resolve_outcome`] by the caller that ran the engine.
pub enum LookupOutcome {
    /// Construction of the engine itself failed, before any query was made.
    ConstructionFailed { detail: String },
    /// The engine's query failed: transport error, malformed response,
    /// timeout, or no such domain.
    QueryFailed { detail: String },
    /// The query succeeded, with the raw addresses in engine order.
    Resolved { addrs: Vec<IpAddr> },
}

/// Whether at least one raw address satisfies the filter: what separates a
/// successful lookup from a restricted-destination failure.
#[verifier::loop_isolation(false)]
pub fn any_allowed<F: IpFilter>(filter: &F, addrs: &Vec<IpAddr>) -> (b: bool)
    ensures
        b == some_allowed(*filter, addrs@),
{
    let mut k: usize = 0;
    while k < addrs.len()
        invariant
            k <= addrs.len(),
            forall|j: int| 0 <= j < k ==> !filter.allows_spec(addrs@[j]),
        decreases addrs.len() - k,
    {
        if filter.allows(addrs[k]) {
            assert(0 <= k < addrs@.len() && filter.allows_spec(addrs@[k as int]));
            return true;
        }
        k = k + 1;
    }
    false
}

/// Turn what the engine reported into the resolve call's result.
///
/// A construction failure becomes a configuration error and a query failure
/// a lookup error, each carrying the engine's own account.  A successful
/// query succeeds exactly when some returned address satisfies the filter,
/// and then yields the filter-satisfying subset in engine order — never an
/// empty success; when every address is rejected, the call fails with the
/// distinct restricted-destination error.  The result is a function of the
/// filter and the report alone: the adapter caches nothing between calls.
pub fn resolve_outcome<F: IpFilter>(filter: F, outcome: LookupOutcome) -> (r: Result<
    FilteredAddrs<F>,
    ResolveError,
>)
    ensures
        match outcome {
            LookupOutcome::ConstructionFailed { detail } => r matches Err(e) && e
                matches ResolveError::Config { detail: d } && d == detail,
            LookupOutcome::QueryFailed { detail } => r matches Err(e) && e
                matches ResolveError::EngineLookup { detail: d } && d == detail,
            LookupOutcome::Resolved { addrs } => if some_allowed(filter, addrs@) {
                r matches Ok(s) && s.wf() && s.filter_spec() == filter && s.remaining()
                    == allowed_addrs(filter, addrs@, 0) && s.remaining().len() > 0
            } else {
                r matches Err(e) && e is RestrictedDestination
            },
        },
{
    match outcome {
        LookupOutcome::ConstructionFailed { detail } => Err(ResolveError::Config { detail }),
        LookupOutcome::QueryFailed { detail } => Err(ResolveError::EngineLookup { detail }),
        LookupOutcome::Resolved { addrs } => {
            if any_allowed(&filter, &addrs) {
                proof {
                    lemma_some_allowed_iff_nonempty(filter, addrs@);
                }
                Ok(FilteredAddrs::new(addrs, filter))
            } else {
                Err(ResolveError::RestrictedDestination)
            }
        },
    }
}

/// A handle to the adapter's per-client state: the engine's one-time
/// initialization state, the caller-supplied address filter, and the
/// optional explicit engine configuration used in place of the operating
/// system's settings.
///
/// The handle defers engine construction to first use, because construction
/// may need a runtime context that does not exist when the handle is made.
/// `C` is the engine's configuration type; the adapter carries it through
/// without interpreting it.
pub struct ResolverHandle<F: IpFilter, C> {
    engine_ready: bool,
    filter: F,
    explicit: Option<(C, ResolverOptions)>,
}

impl<F: IpFilter, C> ResolverHandle<F, C> {
    /// Whether the engine has been constructed.
    pub closed spec fn engine_ready_spec(self) -> bool {
        self.engine_ready
    }

    /// The filter every resolve call through this handle applies.
    pub closed spec fn filter_spec(self) -> F {
        self.filter
    }

    /// The explicit engine configuration, if one was injected.
    pub closed spec fn explicit_spec(self) -> Option<(C, ResolverOptions)> {
        self.explicit
    }

    /// A fresh handle: engine unconstructed, no explicit configuration.
    pub fn new(filter: F) -> (r: Self)
        ensures
            !r.engine_ready_spec(),
            r.filter_spec() == filter,
            r.explicit_spec() is None,
    {
        ResolverHandle { engine_ready: false, filter, explicit: None }
    }

    /// The same handle, carrying an explicit configuration to be used in
    /// place of the operating system's resolver settings.
    pub fn with_config(self, config: C, options: ResolverOptions) -> (r: Self)
        ensures
            r.engine_ready_spec() == self.engine_ready_spec(),
            r.filter_spec() == self.filter_spec(),
            r.explicit_spec() == Some((config, options)),
    {
        ResolverHandle { explicit: Some((config, options)), ..self }
    }

    /// Whether the next resolve call must construct the engine first.
    pub fn needs_init(&self) -> (b: bool)
        ensures
            b == !self.engine_ready_spec(),
    {
        !self.engine_ready
    }

    /// The injected configuration a construction attempt must use, if any;
    /// when there is none, the attempt reads the operating system's settings
    /// and puts them through [`system_config_outcome`].
    pub fn explicit_config(&self) -> (r: Option<&(C, ResolverOptions)>)
        ensures
            match r {
                Some(p) => self.explicit_spec() == Some(*p),
                None => self.explicit_spec() is None,
            },
    {
        match &self.explicit {
            Some(p) => Some(p),
            None => None,
        }
    }

    /// Record the outcome of one construction attempt: exactly
    /// [`init_step`].  Success makes the engine ready for every later call
    /// through this handle; failure leaves the handle exactly as it was, so
    /// a later call retries construction rather than finding it wedged.
    pub fn note_init_outcome(&mut self, ok: bool)
        ensures
            final(self).engine_ready_spec() == init_step(old(self).engine_ready_spec(), ok),
            final(self).filter_spec() == old(self).filter_spec(),
            final(self).explicit_spec() == old(self).explicit_spec(),
    {
        if ok {
            self.engine_ready = true;
        }
    }
}

impl<F: IpFilter + Copy, C> ResolverHandle<F, C> {
    /// Every decision of one whole resolve call, given what the engine
    /// reported.  A report other than a construction failure means the
    /// engine exists, so the handle becomes (or stays) ready; a construction
    /// failure leaves it unready for a later retry.  The call's result is
    /// exactly [`resolve_outcome`] under this handle's filter.  An engine
    /// already constructed cannot fail construction, whence the
    /// precondition.
    pub fn resolve_step(&mut self, outcome: LookupOutcome) -> (r: Result<
        FilteredAddrs<F>,
        ResolveError,
    >)
        requires
            old(self).engine_ready_spec() ==> !(outcome is ConstructionFailed),
        ensures
            final(self).engine_ready_spec() == !(outcome is ConstructionFailed),
            final(self).filter_spec() == old(self).filter_spec(),
            final(self).explicit_spec() == old(self).explicit_spec(),
            match outcome {
                LookupOutcome::ConstructionFailed { detail } => r matches Err(e) && e
                    matches ResolveError::Config { detail: d } && d == detail,
                LookupOutcome::QueryFailed { detail } => r matches Err(e) && e
                    matches ResolveError::EngineLookup { detail: d } && d == detail,
                LookupOutcome::Resolved { addrs } => if some_allowed(
                    old(self).filter_spec(),
                    addrs@,
                ) {
                    r matches Ok(s) && s.wf() && s.filter_spec() == old(self).filter_spec()
                        && s.remaining() == allowed_addrs(old(self).filter_spec(), addrs@, 0)
                        && s.remaining().len() > 0
                } else {
                    r matches Err(e) && e is RestrictedDestination
                },
            },
    {
        let constructed = match &outcome {
            LookupOutcome::ConstructionFailed { .. } => false,
            _ => true,
        };
        self.note_init_outcome(constructed);
        let filter = self.filter;
        resolve_outcome(filter, outcome)
    }
}

/// One observed construction-attempt outcome applied to the engine state:
/// success makes the engine ready, failure changes nothing.
pub open spec fn init_step(ready: bool, ok: bool) -> bool {
    ready || ok
}

/// The engine state after a sequence of observed attempt outcomes, oldest
/// first.
pub open spec fn init_state_after(ready: bool, outcomes: Seq<bool>) -> bool
    decreases outcomes.len(),
{
    if outcomes.len() == 0 {
        ready
    } else {
        init_state_after(init_step(ready, outcomes[0]), outcomes.drop_first())
    }
}

/// The engine is ready exactly when some construction attempt has
/// succeeded.  In particular a ready engine stays ready whatever outcomes
/// later calls observe — construction happens at most once per handle state
/// — and as long as every attempt has failed the engine is still
/// unconstructed, so the next call is free to retry.
pub proof fn lemma_ready_iff_some_success(ready: bool, outcomes: Seq<bool>)
    ensures
        init_state_after(ready, outcomes) <==> (ready || exists|i: int|
            0 <= i < outcomes.len() && outcomes[i]),
    decreases outcomes.len(),
{
    if outcomes.len() > 0 {
        lemma_ready_iff_some_success(init_step(ready, outcomes[0]), outcomes.drop_first());
        let rest = outcomes.drop_first();
        assert forall|i: int| 0 <= i < rest.len() && rest[i] implies exists|j: int|
            0 <= j < outcomes.len() && outcomes[j] by {
            assert(outcomes[i + 1]);
        }
        if exists|j: int| 0 <= j < outcomes.len() && outcomes[j] {
            let j = choose|j: int| 0 <= j < outcomes.len() && outcomes[j];
            if j > 0 {
                assert(rest[j - 1]);
            }
        }
    }
}

/// Once the engine is ready, no sequence of later outcomes unreadies it.
pub proof fn lemma_ready_is_permanent(outcomes: Seq<bool>)
    ensures
        init_state_after(true, outcomes),
{
    lemma_ready_iff_some_success(true, outcomes);
}

/// While every attempt has failed, the handle still wants construction.
pub proof fn lemma_failure_leaves_retry(outcomes: Seq<bool>)
    requires
        forall|i: int| 0 <= i < outcomes.len() ==> !outcomes[i],
    ensures
        !init_state_after(false, outcomes),
{
    lemma_ready_iff_some_success(false, outcomes);
}

} // verus!
