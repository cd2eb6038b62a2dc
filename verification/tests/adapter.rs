use dns_adapter::AllowAll;
use dns_adapter::IpAddr;
use dns_adapter::IpFilter;
use dns_adapter::IpStrategy;
use dns_adapter::LookupOutcome;
use dns_adapter::RejectLoopback;
use dns_adapter::RejectLoopbackAndPrivate;
use dns_adapter::ResolveError;
use dns_adapter::ResolverHandle;
use dns_adapter::ResolverOptions;
use dns_adapter::SocketAddr;
use dns_adapter::resolve_outcome;
use dns_adapter::system_config_outcome;

fn sock(ip: IpAddr) -> SocketAddr {
    SocketAddr { ip, port: 0 }
}

#[test]
fn filter_reject_loopback() {
    let f = RejectLoopback;
    assert!(!f.allows(IpAddr::v4(127, 0, 0, 1)));
    assert!(!f.allows(IpAddr::v4(127, 200, 3, 4)));
    assert!(f.allows(IpAddr::v4(128, 0, 0, 1)));
    assert!(f.allows(IpAddr::v4(93, 184, 216, 34)));
    assert!(!f.allows(IpAddr::v6(1)));
    assert!(f.allows(IpAddr::v6(2)));
}

#[test]
fn filter_reject_private_ranges() {
    let f = RejectLoopbackAndPrivate;
    assert!(!f.allows(IpAddr::v4(10, 1, 2, 3)));
    assert!(!f.allows(IpAddr::v4(172, 16, 0, 1)));
    assert!(!f.allows(IpAddr::v4(172, 31, 255, 255)));
    assert!(f.allows(IpAddr::v4(172, 15, 0, 1)));
    assert!(f.allows(IpAddr::v4(172, 32, 0, 1)));
    assert!(!f.allows(IpAddr::v4(192, 168, 9, 9)));
    assert!(f.allows(IpAddr::v4(192, 169, 9, 9)));
    assert!(!f.allows(IpAddr::v4(127, 0, 0, 1)));
    assert!(f.allows(IpAddr::v4(8, 8, 8, 8)));
    // fc00::/7 (unique local) is private; everything else here is not.
    assert!(!f.allows(IpAddr::v6(0xfc00 << 112)));
    assert!(!f.allows(IpAddr::v6(0xfdab << 112)));
    assert!(f.allows(IpAddr::v6(0x2001 << 112)));
}

#[test]
fn filter_allow_all() {
    let f = AllowAll;
    assert!(f.allows(IpAddr::v4(127, 0, 0, 1)));
    assert!(f.allows(IpAddr::v6(1)));
}

#[test]
fn resolve_yields_exactly_the_allowed_subset_in_order() {
    let lo = IpAddr::v4(127, 0, 0, 1);
    let a = IpAddr::v4(93, 184, 216, 34);
    let b = IpAddr::v4(10, 0, 0, 7);
    let c = IpAddr::v4(8, 8, 8, 8);
    let d = IpAddr::v4(1, 1, 1, 1);
    let raw = vec![lo, a, b, c, d];
    let r = resolve_outcome(RejectLoopbackAndPrivate, LookupOutcome::Resolved { addrs: raw });
    let mut s = r.expect("one address is allowed, so the lookup must succeed");
    let got = s.drain();
    assert_eq!(got, vec![sock(a), sock(c), sock(d)]);
}

#[test]
fn resolve_with_no_allowed_address_is_restricted() {
    let raw = vec![
        IpAddr::v4(127, 0, 0, 1),
        IpAddr::v4(10, 1, 1, 1),
        IpAddr::v4(192, 168, 0, 2),
    ];
    let r = resolve_outcome(RejectLoopbackAndPrivate, LookupOutcome::Resolved { addrs: raw });
    match r {
        Err(ResolveError::RestrictedDestination) => {}
        _ => panic!("expected a restricted-destination failure, not a partial success"),
    }
}

#[test]
fn resolve_with_empty_address_set_is_restricted() {
    let r = resolve_outcome(AllowAll, LookupOutcome::Resolved { addrs: vec![] });
    match r {
        Err(ResolveError::RestrictedDestination) => {}
        _ => panic!("an empty address set can never satisfy the filter"),
    }
}

#[test]
fn scenario_loopback_and_public_yields_public_only() {
    let raw = vec![IpAddr::v4(127, 0, 0, 1), IpAddr::v4(93, 184, 216, 34)];
    let r = resolve_outcome(RejectLoopbackAndPrivate, LookupOutcome::Resolved { addrs: raw });
    let mut s = r.expect("the public address passes the filter");
    let got = s.drain();
    assert_eq!(got, vec![sock(IpAddr::v4(93, 184, 216, 34))]);
    assert_eq!(got[0].port, 0);
}

#[test]
fn scenario_loopback_only_is_restricted() {
    let raw = vec![IpAddr::v4(127, 0, 0, 1)];
    let r = resolve_outcome(RejectLoopback, LookupOutcome::Resolved { addrs: raw });
    match r {
        Err(ResolveError::RestrictedDestination) => {}
        _ => panic!("a loopback-only host must be rejected by policy"),
    }
}

#[test]
fn scenario_query_failure_is_an_engine_lookup_error() {
    let r = resolve_outcome(
        RejectLoopback,
        LookupOutcome::QueryFailed { detail: String::from("no records found") },
    );
    match r {
        Err(ResolveError::EngineLookup { detail }) => assert_eq!(detail, "no records found"),
        _ => panic!("a failed query must surface as a lookup error"),
    }
}

#[test]
fn scenario_construction_failure_is_a_config_error() {
    let r = resolve_outcome(
        RejectLoopback,
        LookupOutcome::ConstructionFailed { detail: String::from("bad system conf") },
    );
    match r {
        Err(ResolveError::Config { detail }) => assert_eq!(detail, "bad system conf"),
        _ => panic!("a failed construction must surface as a configuration error"),
    }
}

#[test]
fn scenario_config_fixed_later_succeeds_on_retry() {
    // First attempt: the system configuration is unreadable.
    let mut handle: ResolverHandle<RejectLoopback, u64> = ResolverHandle::new(RejectLoopback);
    assert!(handle.needs_init());
    let first: Result<(u64, ResolverOptions), String> =
        Err(String::from("resolv.conf unreadable"));
    let planned = system_config_outcome(first);
    match planned {
        Err(ResolveError::Config { detail }) => assert_eq!(detail, "resolv.conf unreadable"),
        _ => panic!("an unreadable configuration must fail the attempt"),
    }
    handle.note_init_outcome(false);
    // The failure did not wedge the handle: the next call still constructs.
    assert!(handle.needs_init());
    // Second attempt: the configuration is readable now.
    let opts = ResolverOptions { ip_strategy: IpStrategy::Ipv4Only, cache_size: 32 };
    let second: Result<(u64, ResolverOptions), String> = Ok((7, opts));
    let planned = system_config_outcome(second).expect("a readable configuration is used");
    assert_eq!(planned.0, 7);
    handle.note_init_outcome(true);
    assert!(!handle.needs_init());
    // A later failure report cannot unready a constructed engine.
    handle.note_init_outcome(false);
    assert!(!handle.needs_init());
}

#[test]
fn system_config_overrides_strategy_and_cache() {
    let opts = ResolverOptions { ip_strategy: IpStrategy::Ipv6Only, cache_size: 1 };
    let planned = system_config_outcome::<u64>(Ok((42, opts)))
        .expect("a readable configuration is used");
    assert_eq!(planned.0, 42);
    assert_eq!(planned.1.ip_strategy, IpStrategy::Ipv4AndIpv6);
    assert_eq!(planned.1.cache_size, dns_adapter::ADDR_CACHE_SIZE);
    assert_eq!(planned.1.cache_size, 500_000);
}

#[test]
fn explicit_config_is_kept_and_handed_out_unchanged() {
    let opts = ResolverOptions { ip_strategy: IpStrategy::Ipv6ThenIpv4, cache_size: 9 };
    let handle: ResolverHandle<AllowAll, u64> =
        ResolverHandle::new(AllowAll).with_config(11, opts);
    match handle.explicit_config() {
        Some(&(config, got)) => {
            assert_eq!(config, 11);
            assert_eq!(got, opts);
        }
        None => panic!("the injected configuration must be handed out"),
    }
    // A fresh handle has none.
    let plain: ResolverHandle<AllowAll, u64> = ResolverHandle::new(AllowAll);
    assert!(plain.explicit_config().is_none());
}

#[test]
fn sequence_is_forward_only_and_exhausts() {
    let raw = vec![
        IpAddr::v4(127, 0, 0, 1),
        IpAddr::v4(8, 8, 8, 8),
        IpAddr::v4(127, 0, 0, 2),
        IpAddr::v4(9, 9, 9, 9),
    ];
    let r = resolve_outcome(RejectLoopback, LookupOutcome::Resolved { addrs: raw });
    let mut s = r.expect("two addresses are allowed");
    assert_eq!(s.next(), Some(sock(IpAddr::v4(8, 8, 8, 8))));
    assert_eq!(s.next(), Some(sock(IpAddr::v4(9, 9, 9, 9))));
    assert_eq!(s.next(), None);
    // Exhausted for good: it is single-pass, not restartable.
    assert_eq!(s.next(), None);
    assert_eq!(s.drain(), vec![]);
}

#[test]
fn two_lookups_are_independent() {
    // The adapter caches nothing between calls: the same report gives the
    // same fresh sequence each time.
    let raw = vec![IpAddr::v4(127, 0, 0, 1), IpAddr::v4(8, 8, 8, 8)];
    let mut first = resolve_outcome(
        RejectLoopback,
        LookupOutcome::Resolved { addrs: raw.clone() },
    )
    .expect("one address is allowed");
    let mut second = resolve_outcome(RejectLoopback, LookupOutcome::Resolved { addrs: raw })
        .expect("one address is allowed");
    assert_eq!(first.drain(), vec![sock(IpAddr::v4(8, 8, 8, 8))]);
    assert_eq!(second.drain(), vec![sock(IpAddr::v4(8, 8, 8, 8))]);
}

#[test]
fn two_resolves_on_one_handle_construct_once() {
    let mut handle: ResolverHandle<RejectLoopback, u64> = ResolverHandle::new(RejectLoopback);
    // First call: the engine does not exist yet, so this call constructs it.
    assert!(handle.needs_init());
    let raw = vec![IpAddr::v4(127, 0, 0, 1), IpAddr::v4(8, 8, 8, 8)];
    let mut first = handle
        .resolve_step(LookupOutcome::Resolved { addrs: raw.clone() })
        .expect("one address is allowed");
    // Second call: the engine is ready, so no construction is planned; the
    // lookup itself is issued anew, uncached.
    assert!(!handle.needs_init());
    let mut second = handle
        .resolve_step(LookupOutcome::Resolved { addrs: raw })
        .expect("one address is allowed");
    assert!(!handle.needs_init());
    assert_eq!(first.drain(), vec![sock(IpAddr::v4(8, 8, 8, 8))]);
    assert_eq!(second.drain(), vec![sock(IpAddr::v4(8, 8, 8, 8))]);
}

#[test]
fn failed_construction_then_successful_resolve() {
    let mut handle: ResolverHandle<RejectLoopback, u64> = ResolverHandle::new(RejectLoopback);
    let r = handle.resolve_step(LookupOutcome::ConstructionFailed {
        detail: String::from("bad system conf"),
    });
    match r {
        Err(ResolveError::Config { detail }) => assert_eq!(detail, "bad system conf"),
        _ => panic!("a failed construction must surface as a configuration error"),
    }
    // The failure is not cached: the next call constructs again.
    assert!(handle.needs_init());
    let raw = vec![IpAddr::v4(8, 8, 8, 8)];
    let mut s = handle
        .resolve_step(LookupOutcome::Resolved { addrs: raw })
        .expect("construction succeeded this time");
    assert_eq!(s.drain(), vec![sock(IpAddr::v4(8, 8, 8, 8))]);
    assert!(!handle.needs_init());
}

#[test]
fn error_kind_queries() {
    let config = ResolveError::Config { detail: String::from("x") };
    let lookup = ResolveError::EngineLookup { detail: String::from("y") };
    let restricted = ResolveError::RestrictedDestination;
    assert!(config.is_config() && !config.is_engine_lookup() && !config.is_restricted_destination());
    assert!(lookup.is_engine_lookup() && !lookup.is_config());
    assert!(restricted.is_restricted_destination() && !restricted.is_engine_lookup());
}

#[test]
fn v6_addresses_flow_through() {
    let raw = vec![IpAddr::v6(1), IpAddr::v6(0x2001 << 112)];
    let r = resolve_outcome(RejectLoopback, LookupOutcome::Resolved { addrs: raw });
    let mut s = r.expect("the non-loopback address is allowed");
    assert_eq!(s.drain(), vec![sock(IpAddr::v6(0x2001 << 112))]);
}
