use keylight_discovery::discovery::{
    collect_services, dedup_by_mac, normalize_record, scan_outcome, service_type, txt_lookup,
    worker_required, AddressPolicy, DiscoveredService, DiscoveryError, RecordError,
    ResolvedRecord, ScanEvent, SetupOutcome, TimedEvent, TxtProperty, SCAN_WINDOW_MS,
};

fn prop(key: &str, value: &str) -> TxtProperty {
    TxtProperty { key: key.to_string(), value: value.to_string() }
}

fn record(name: &str, host: &str, addr: &str, model: &str, mac: &str) -> ResolvedRecord {
    ResolvedRecord {
        full_name: name.to_string(),
        hostname: host.to_string(),
        port: 9123,
        addresses_v4: vec![addr.to_string()],
        txt: vec![prop("md", model), prop("id", mac)],
    }
}

fn resolved_at(at_ms: u64, r: ResolvedRecord) -> TimedEvent {
    TimedEvent { at_ms, event: ScanEvent::ServiceResolved(r) }
}

#[test]
fn complete_events_yield_one_entry_each_in_arrival_order() {
    let events = vec![
        TimedEvent { at_ms: 0, event: ScanEvent::SearchStarted },
        resolved_at(100, record("a._elg._tcp.local.", "a.local.", "192.168.0.2", "KL", "AA")),
        resolved_at(200, record("b._elg._tcp.local.", "b.local.", "192.168.0.3", "KLA", "BB")),
        TimedEvent { at_ms: 300, event: ScanEvent::SearchStopped },
    ];
    let services = collect_services(&events, 5000, AddressPolicy::Hostname);
    assert_eq!(services.len(), 2);
    assert_eq!(services[0].full_name, "a._elg._tcp.local.");
    assert_eq!(services[0].host_or_address, "a.local.");
    assert_eq!(services[0].port, 9123);
    assert_eq!(services[0].model, "KL");
    assert_eq!(services[0].mac_address, "AA");
    assert_eq!(services[1].full_name, "b._elg._tcp.local.");
    assert_eq!(services[1].mac_address, "BB");
}

#[test]
fn zero_resolve_events_return_empty_list_not_error() {
    let events = vec![
        TimedEvent { at_ms: 0, event: ScanEvent::SearchStarted },
        TimedEvent { at_ms: 900, event: ScanEvent::Other },
        TimedEvent { at_ms: 4000, event: ScanEvent::SearchStopped },
    ];
    let res = scan_outcome(SetupOutcome::Ready, &events, 5000, AddressPolicy::Hostname);
    assert_eq!(res, Ok(Vec::new()));
}

#[test]
fn failed_daemon_setup_is_unavailable_and_spawns_no_worker() {
    let events: Vec<TimedEvent> = Vec::new();
    let res = scan_outcome(SetupOutcome::DaemonFailed, &events, 5000, AddressPolicy::Hostname);
    assert_eq!(res, Err(DiscoveryError::DiscoveryUnavailable));
    assert!(!worker_required(SetupOutcome::DaemonFailed));
}

#[test]
fn failed_browse_setup_is_unavailable_and_spawns_no_worker() {
    // Even events that somehow got drained are discarded: the error is never
    // a partial list.
    let events = vec![resolved_at(10, record("a._elg._tcp.local.", "a.local.", "10.0.0.2", "KL", "AA"))];
    let res = scan_outcome(SetupOutcome::BrowseFailed, &events, 5000, AddressPolicy::Hostname);
    assert_eq!(res, Err(DiscoveryError::DiscoveryUnavailable));
    assert!(!worker_required(SetupOutcome::BrowseFailed));
}

#[test]
fn ready_setup_requires_worker() {
    assert!(worker_required(SetupOutcome::Ready));
}

#[test]
fn late_events_are_dropped_and_queued_events_are_drained() {
    let deadline = 5000;
    let events = vec![
        // Arrived within the window even though it would be processed after
        // the browse stopped: the shutdown drains the queue.
        resolved_at(4999, record("a._elg._tcp.local.", "a.local.", "10.0.0.2", "KL", "AA")),
        // Arrived after the deadline: a simulated race; never in the result.
        resolved_at(5001, record("b._elg._tcp.local.", "b.local.", "10.0.0.3", "KL", "BB")),
    ];
    let services = collect_services(&events, deadline, AddressPolicy::Hostname);
    assert_eq!(services.len(), 1);
    assert_eq!(services[0].mac_address, "AA");
}

#[test]
fn event_at_the_deadline_is_still_within_the_window() {
    let events = vec![resolved_at(5000, record("a._elg._tcp.local.", "a.local.", "10.0.0.2", "KL", "AA"))];
    let services = collect_services(&events, 5000, AddressPolicy::Hostname);
    assert_eq!(services.len(), 1);
}

#[test]
fn duplicate_resolve_events_produce_duplicate_entries() {
    // The same device reported twice, differing only in timestamp: both kept.
    let events = vec![
        resolved_at(100, record("a._elg._tcp.local.", "a.local.", "10.0.0.2", "KL", "AA:BB")),
        resolved_at(250, record("a._elg._tcp.local.", "a.local.", "10.0.0.2", "KL", "AA:BB")),
    ];
    let services = collect_services(&events, 5000, AddressPolicy::Hostname);
    assert_eq!(services.len(), 2);
    assert_eq!(services[0], services[1]);
}

#[test]
fn malformed_record_does_not_abort_a_healthy_scan() {
    let mut broken = record("m._elg._tcp.local.", "m.local.", "10.0.0.9", "KL", "MM");
    broken.txt = vec![prop("id", "MM")]; // missing the `md` property
    let events = vec![
        resolved_at(100, record("a._elg._tcp.local.", "a.local.", "10.0.0.2", "KL", "AA")),
        resolved_at(200, broken),
        resolved_at(300, record("b._elg._tcp.local.", "b.local.", "10.0.0.3", "KL", "BB")),
    ];
    let services = collect_services(&events, 5000, AddressPolicy::Hostname);
    assert_eq!(services.len(), 2);
    assert_eq!(services[0].mac_address, "AA");
    assert_eq!(services[1].mac_address, "BB");
}

#[test]
fn record_without_ipv4_is_skipped_not_fatal_under_first_ipv4_policy() {
    let mut no_addr = record("n._elg._tcp.local.", "n.local.", "10.0.0.4", "KL", "NN");
    no_addr.addresses_v4 = Vec::new();
    let events = vec![
        resolved_at(100, record("a._elg._tcp.local.", "a.local.", "10.0.0.2", "KL", "AA")),
        resolved_at(200, no_addr),
        resolved_at(300, record("b._elg._tcp.local.", "b.local.", "10.0.0.3", "KL", "BB")),
    ];
    let services = collect_services(&events, 5000, AddressPolicy::FirstIpv4);
    assert_eq!(services.len(), 2);
    assert_eq!(services[0].host_or_address, "10.0.0.2");
    assert_eq!(services[1].host_or_address, "10.0.0.3");
}

#[test]
fn healthy_scan_returns_the_collected_services() {
    let events = vec![
        TimedEvent { at_ms: 0, event: ScanEvent::SearchStarted },
        resolved_at(100, record("a._elg._tcp.local.", "a.local.", "10.0.0.2", "KL", "AA")),
    ];
    let res = scan_outcome(SetupOutcome::Ready, &events, 5000, AddressPolicy::Hostname);
    let services = res.unwrap();
    assert_eq!(services.len(), 1);
    assert_eq!(services[0].full_name, "a._elg._tcp.local.");
    assert_eq!(services[0].host_or_address, "a.local.");
    assert_eq!(services[0].model, "KL");
    assert_eq!(services[0].mac_address, "AA");
}

#[test]
fn normalize_uses_hostname_under_hostname_policy() {
    let r = record("a._elg._tcp.local.", "a.local.", "192.168.0.7", "KL", "AA");
    let s = normalize_record(&r, AddressPolicy::Hostname).unwrap();
    assert_eq!(s.host_or_address, "a.local.");
}

#[test]
fn normalize_uses_first_ipv4_under_first_ipv4_policy() {
    let mut r = record("a._elg._tcp.local.", "a.local.", "192.168.0.7", "KL", "AA");
    r.addresses_v4.push("192.168.0.8".to_string());
    let s = normalize_record(&r, AddressPolicy::FirstIpv4).unwrap();
    assert_eq!(s.host_or_address, "192.168.0.7");
}

#[test]
fn normalize_without_ipv4_is_skipped_under_first_ipv4_policy() {
    let mut r = record("a._elg._tcp.local.", "a.local.", "192.168.0.7", "KL", "AA");
    r.addresses_v4 = Vec::new();
    assert_eq!(
        normalize_record(&r, AddressPolicy::FirstIpv4),
        Err(RecordError::MissingIpv4Address)
    );
    // The hostname policy does not need an address.
    assert!(normalize_record(&r, AddressPolicy::Hostname).is_ok());
}

#[test]
fn normalize_without_model_property_is_malformed() {
    let mut r = record("a._elg._tcp.local.", "a.local.", "192.168.0.7", "KL", "AA");
    r.txt = vec![prop("id", "AA")];
    assert_eq!(normalize_record(&r, AddressPolicy::Hostname), Err(RecordError::MissingModel));
}

#[test]
fn normalize_without_mac_property_is_malformed() {
    let mut r = record("a._elg._tcp.local.", "a.local.", "192.168.0.7", "KL", "AA");
    r.txt = vec![prop("md", "KL")];
    assert_eq!(
        normalize_record(&r, AddressPolicy::Hostname),
        Err(RecordError::MissingMacAddress)
    );
}

#[test]
fn txt_lookup_returns_first_match() {
    let txt = vec![prop("md", "first"), prop("md", "second"), prop("id", "AA")];
    assert_eq!(txt_lookup(&txt, &"md".to_string()), Some("first".to_string()));
    assert_eq!(txt_lookup(&txt, &"id".to_string()), Some("AA".to_string()));
    assert_eq!(txt_lookup(&txt, &"missing".to_string()), None);
}

#[test]
fn dedup_keeps_first_occurrence_per_mac_in_order() {
    let events = vec![
        resolved_at(100, record("a._elg._tcp.local.", "a.local.", "10.0.0.2", "KL", "AA")),
        resolved_at(200, record("b._elg._tcp.local.", "b.local.", "10.0.0.3", "KL", "BB")),
        resolved_at(300, record("a2._elg._tcp.local.", "a2.local.", "10.0.0.2", "KL", "AA")),
    ];
    let services = collect_services(&events, 5000, AddressPolicy::Hostname);
    assert_eq!(services.len(), 3);
    let unique = dedup_by_mac(&services);
    assert_eq!(unique.len(), 2);
    assert_eq!(unique[0].full_name, "a._elg._tcp.local.");
    assert_eq!(unique[0].mac_address, "AA");
    assert_eq!(unique[1].mac_address, "BB");
}

#[test]
fn dedup_leaves_distinct_macs_alone() {
    let events = vec![
        resolved_at(100, record("a._elg._tcp.local.", "a.local.", "10.0.0.2", "KL", "AA")),
        resolved_at(200, record("b._elg._tcp.local.", "b.local.", "10.0.0.3", "KL", "BB")),
    ];
    let services = collect_services(&events, 5000, AddressPolicy::Hostname);
    let unique = dedup_by_mac(&services);
    assert_eq!(unique, services);
}

#[test]
fn session_constants_match_the_deployment() {
    assert_eq!(service_type(), "_elg._tcp.local.");
    assert!((3000..=5000).contains(&SCAN_WINDOW_MS));
}
