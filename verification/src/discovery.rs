//! The discovery session: a bounded-duration multicast-DNS browse that
//! collects resolve events for a fixed window and returns the normalized
//! records.
//!
//! The host owns the daemon, the browse operation, the worker that receives
//! events, and the timed wait; it stamps each event with its arrival time
//! (milliseconds since the session started) and, after stopping the browse,
//! drains whatever is already queued. The drained, timestamped events are
//! handed to this module, which decides — for every event — whether it
//! belongs to the result:
//!
//! * only events that arrived within the window count;
//! * only resolve events carry data; search lifecycle events are ignored;
//! * a resolved record missing required data is dropped by itself and never
//!   aborts the session;
//! * entries keep arrival order and duplicates are kept (deduplication, if
//!   wanted, is layered on top with [`dedup_by_mac`]).

use vstd::prelude::*;

verus! {

/// How the host-or-address field of a discovered service is chosen. On
/// platforms where multicast-DNS hostname resolution is unreliable
/// (historically Windows) the first IPv4 address literal is used instead of
/// the hostname; the strategy is selected at startup, not hardwired.
#[derive(Clone, Copy, Debug, PartialEq, Eq, Structural)]
pub enum AddressPolicy {
    /// Use the record's resolved hostname.
    Hostname,
    /// Use the first IPv4 address literal of the record; a record without
    /// one is skipped.
    FirstIpv4,
}

/// Why a single resolved record was dropped. Each of these is localized to
/// its record: the session goes on.
#[derive(Clone, Copy, Debug, PartialEq, Eq, Structural)]
pub enum RecordError {
    /// Under [`AddressPolicy::FirstIpv4`] the record carried no IPv4
    /// address. A deliberate platform-difference policy, not a fault.
    MissingIpv4Address,
    /// The vendor TXT property `md` (model) is absent.
    MissingModel,
    /// The vendor TXT property `id` (hardware identifier) is absent.
    MissingMacAddress,
}

/// A failure of the whole scan: the daemon or the browse operation could not
/// be set up. Surfaced to the caller in place of a result list, never as a
/// partial list.
#[derive(Clone, Copy, Debug, PartialEq, Eq, Structural)]
pub enum DiscoveryError {
    DiscoveryUnavailable,
}

/// What the host reports of the session setup: whether the daemon was
/// created and the browse operation started.
#[derive(Clone, Copy, Debug, PartialEq, Eq, Structural)]
pub enum SetupOutcome {
    /// Daemon created and browse started; events may flow.
    Ready,
    /// The discovery daemon could not be created.
    DaemonFailed,
    /// The browse operation could not be started.
    BrowseFailed,
}

/// One key/value pair of a record's TXT properties.
#[derive(Debug, PartialEq, Eq)]
pub struct TxtProperty {
    pub key: String,
    pub value: String,
}

/// The mathematical value of a [`TxtProperty`].
pub struct TxtPropertyView {
    pub key: Seq<char>,
    pub value: Seq<char>,
}

impl View for TxtProperty {
    type V = TxtPropertyView;

    open spec fn view(&self) -> TxtPropertyView {
        TxtPropertyView { key: self.key@, value: self.value@ }
    }
}

/// What a resolve event carries, as plain values: the resolved names and
/// addresses and the decoded TXT properties.
#[derive(Debug, PartialEq, Eq)]
pub struct ResolvedRecord {
    /// Fully qualified service instance name.
    pub full_name: String,
    /// Resolved hostname.
    pub hostname: String,
    /// TCP or UDP port.
    pub port: u16,
    /// The record's IPv4 addresses as literals, in the order the host
    /// chose to present them.
    pub addresses_v4: Vec<String>,
    /// The record's TXT properties.
    pub txt: Vec<TxtProperty>,
}

/// The mathematical value of a [`ResolvedRecord`].
pub struct RecordView {
    pub full_name: Seq<char>,
    pub hostname: Seq<char>,
    pub port: u16,
    pub addresses_v4: Seq<Seq<char>>,
    pub txt: Seq<TxtPropertyView>,
}

impl View for ResolvedRecord {
    type V = RecordView;

    open spec fn view(&self) -> RecordView {
        RecordView {
            full_name: self.full_name@,
            hostname: self.hostname@,
            port: self.port,
            addresses_v4: self.addresses_v4@.map_values(|a: String| a@),
            txt: self.txt@.map_values(|p: TxtProperty| p@),
        }
    }
}

/// One device found by a scan. Produced fresh per scan, immutable once
/// created; every entry of a result list stems from a resolve event that
/// arrived within the session window.
#[derive(Debug, PartialEq, Eq)]
pub struct DiscoveredService {
    /// Fully qualified service instance name.
    pub full_name: String,
    /// Resolved hostname, or the first IPv4 address literal under
    /// [`AddressPolicy::FirstIpv4`].
    pub host_or_address: String,
    pub port: u16,
    /// The vendor TXT property `md`.
    pub model: String,
    /// The vendor TXT property `id`.
    pub mac_address: String,
}

/// The mathematical value of a [`DiscoveredService`].
pub struct ServiceView {
    pub full_name: Seq<char>,
    pub host_or_address: Seq<char>,
    pub port: u16,
    pub model: Seq<char>,
    pub mac_address: Seq<char>,
}

impl View for DiscoveredService {
    type V = ServiceView;

    open spec fn view(&self) -> ServiceView {
        ServiceView {
            full_name: self.full_name@,
            host_or_address: self.host_or_address@,
            port: self.port,
            model: self.model@,
            mac_address: self.mac_address@,
        }
    }
}

impl Clone for DiscoveredService {
    fn clone(&self) -> (r: Self)
        ensures
            r == *self,
    {
        DiscoveredService {
            full_name: self.full_name.clone(),
            host_or_address: self.host_or_address.clone(),
            port: self.port,
            model: self.model.clone(),
            mac_address: self.mac_address.clone(),
        }
    }
}

/// One event of the browse operation, as the host received it.
#[derive(Debug)]
pub enum ScanEvent {
    /// The search for the service type started.
    SearchStarted,
    /// The search stopped.
    SearchStopped,
    /// A service instance resolved, with its record.
    ServiceResolved(ResolvedRecord),
    /// Any other event kind; carries no data relevant to the result.
    Other,
}

/// The mathematical value of a [`ScanEvent`].
pub enum EventView {
    SearchStarted,
    SearchStopped,
    ServiceResolved(RecordView),
    Other,
}

impl View for ScanEvent {
    type V = EventView;

    open spec fn view(&self) -> EventView {
        match self {
            ScanEvent::SearchStarted => EventView::SearchStarted,
            ScanEvent::SearchStopped => EventView::SearchStopped,
            ScanEvent::ServiceResolved(r) => EventView::ServiceResolved(r@),
            ScanEvent::Other => EventView::Other,
        }
    }
}

/// A [`ScanEvent`] stamped with its arrival time, in milliseconds since the
/// session started. The stamp is taken when the event is received, so an
/// event that was queued before the deadline keeps its early stamp even if
/// it is drained after the browse was stopped.
#[derive(Debug)]
pub struct TimedEvent {
    pub at_ms: u64,
    pub event: ScanEvent,
}

/// The mathematical value of a [`TimedEvent`].
pub struct TimedEventView {
    pub at_ms: u64,
    pub event: EventView,
}

impl View for TimedEvent {
    type V = TimedEventView;

    open spec fn view(&self) -> TimedEventView {
        TimedEventView { at_ms: self.at_ms, event: self.event@ }
    }
}

/// The views of a sequence of timed events.
pub open spec fn event_views(events: Seq<TimedEvent>) -> Seq<TimedEventView> {
    events.map_values(|e: TimedEvent| e@)
}

/// The views of a sequence of discovered services.
pub open spec fn service_views(services: Seq<DiscoveredService>) -> Seq<ServiceView> {
    services.map_values(|s: DiscoveredService| s@)
}

/// The value of the first TXT property named `key`, if any.
pub open spec fn txt_lookup_spec(txt: Seq<TxtPropertyView>, key: Seq<char>) -> Option<Seq<char>>
    decreases txt.len(),
{
    if txt.len() == 0 {
        None
    } else if txt.first().key == key {
        Some(txt.first().value)
    } else {
        txt_lookup_spec(txt.drop_first(), key)
    }
}

/// Looks up the first TXT property named `key` and returns its value. Keys
/// are compared exactly; a host whose discovery protocol treats keys as
/// case-insensitive normalizes their case when it builds the record.
pub fn txt_lookup(txt: &Vec<TxtProperty>, key: &String) -> (res: Option<String>)
    ensures
        match res {
            Some(v) => txt_lookup_spec(txt@.map_values(|p: TxtProperty| p@), key@) == Some(v@),
            None => txt_lookup_spec(txt@.map_values(|p: TxtProperty| p@), key@)
                == None::<Seq<char>>,
        },
{
    let ghost all: Seq<TxtPropertyView> = txt@.map_values(|p: TxtProperty| p@);
    proof {
        assert(all.skip(0) =~= all);
    }
    let mut i: usize = 0;
    while i < txt.len()
        invariant
            0 <= i <= txt@.len(),
            all == txt@.map_values(|p: TxtProperty| p@),
            txt_lookup_spec(all, key@) == txt_lookup_spec(all.skip(i as int), key@),
        decreases txt@.len() - i,
    {
        if txt[i].key == *key {
            proof {
                assert(all.skip(i as int).first() == all[i as int]);
            }
            return Some(txt[i].value.clone());
        }
        proof {
            assert(all.skip(i as int).first() == all[i as int]);
            assert(all.skip(i as int).drop_first() =~= all.skip(i as int + 1));
        }
        i = i + 1;
    }
    proof {
        assert(all.skip(i as int) =~= Seq::<TxtPropertyView>::empty());
    }
    None
}

/// How one resolved record normalizes: its discovered service, or the
/// reason it is dropped.
///
/// The host-or-address field follows the [`AddressPolicy`]; then the
/// required vendor properties `md` (model) and `id` (hardware identifier)
/// must both be present, checked in that order.
pub open spec fn normalize_spec(r: RecordView, policy: AddressPolicy) -> Result<
    ServiceView,
    RecordError,
> {
    let host = if policy == AddressPolicy::FirstIpv4 {
        if r.addresses_v4.len() == 0 {
            Err(RecordError::MissingIpv4Address)
        } else {
            Ok(r.addresses_v4.first())
        }
    } else {
        Ok(r.hostname)
    };
    match host {
        Err(e) => Err(e),
        Ok(h) => match txt_lookup_spec(r.txt, "md"@) {
            None => Err(RecordError::MissingModel),
            Some(model) => match txt_lookup_spec(r.txt, "id"@) {
                None => Err(RecordError::MissingMacAddress),
                Some(mac) => Ok(
                    ServiceView {
                        full_name: r.full_name,
                        host_or_address: h,
                        port: r.port,
                        model,
                        mac_address: mac,
                    },
                ),
            },
        },
    }
}

/// The view of a normalization result.
pub open spec fn normalize_result_view(res: Result<DiscoveredService, RecordError>) -> Result<
    ServiceView,
    RecordError,
> {
    match res {
        Ok(s) => Ok(s@),
        Err(e) => Err(e),
    }
}

/// Normalizes one resolved record into a [`DiscoveredService`], or says why
/// the record is dropped. Exactly [`normalize_spec`] of the record's value.
pub fn normalize_record(r: &ResolvedRecord, policy: AddressPolicy) -> (res: Result<
    DiscoveredService,
    RecordError,
>)
    ensures
        normalize_result_view(res) == normalize_spec(r@, policy),
{
    let host_or_address: String = match policy {
        AddressPolicy::FirstIpv4 => {
            if r.addresses_v4.len() == 0 {
                return Err(RecordError::MissingIpv4Address);
            }
            r.addresses_v4[0].clone()
        },
        AddressPolicy::Hostname => r.hostname.clone(),
    };
    let key_model: String = "md".to_owned();
    let key_mac: String = "id".to_owned();
    let model: String = match txt_lookup(&r.txt, &key_model) {
        Some(v) => v,
        None => {
            return Err(RecordError::MissingModel);
        },
    };
    let mac_address: String = match txt_lookup(&r.txt, &key_mac) {
        Some(v) => v,
        None => {
            return Err(RecordError::MissingMacAddress);
        },
    };
    Ok(
        DiscoveredService {
            full_name: r.full_name.clone(),
            host_or_address,
            port: r.port,
            model,
            mac_address,
        },
    )
}

/// Whether an event arrived within the collection window that ends at
/// `deadline_ms`.
pub open spec fn in_window(e: TimedEventView, deadline_ms: u64) -> bool {
    e.at_ms <= deadline_ms
}

/// The service contributed by one event: an event yields an entry exactly
/// when it arrived within the window, is a resolve event, and its record
/// normalizes. Lifecycle and unknown events, late events, and malformed
/// records yield nothing.
pub open spec fn admit_spec(e: TimedEventView, deadline_ms: u64, policy: AddressPolicy) -> Option<
    ServiceView,
> {
    if in_window(e, deadline_ms) {
        match e.event {
            EventView::ServiceResolved(r) => match normalize_spec(r, policy) {
                Ok(s) => Some(s),
                Err(_) => None,
            },
            _ => None,
        }
    } else {
        None
    }
}

/// The result of a session that observed `events`: one entry per admitted
/// event, in arrival order — no reordering, no merging, no deduplication.
pub open spec fn session_results(
    events: Seq<TimedEventView>,
    deadline_ms: u64,
    policy: AddressPolicy,
) -> Seq<ServiceView>
    decreases events.len(),
{
    if events.len() == 0 {
        Seq::empty()
    } else {
        let rest = session_results(events.drop_last(), deadline_ms, policy);
        match admit_spec(events.last(), deadline_ms, policy) {
            Some(s) => rest.push(s),
            None => rest,
        }
    }
}

/// Collects the discovered services out of the drained, timestamped events
/// of one session: exactly [`session_results`] of the events' values.
pub fn collect_services(events: &Vec<TimedEvent>, deadline_ms: u64, policy: AddressPolicy) -> (
    services: Vec<DiscoveredService>)
    ensures
        service_views(services@) == session_results(event_views(events@), deadline_ms, policy),
{
    let ghost all: Seq<TimedEventView> = event_views(events@);
    let mut services: Vec<DiscoveredService> = Vec::new();
    let mut i: usize = 0;
    while i < events.len()
        invariant
            0 <= i <= events@.len(),
            all == event_views(events@),
            service_views(services@) == session_results(all.take(i as int), deadline_ms, policy),
        decreases events@.len() - i,
    {
        let ghost before: Seq<ServiceView> = service_views(services@);
        let e = &events[i];
        if e.at_ms <= deadline_ms {
            match &e.event {
                ScanEvent::ServiceResolved(record) => {
                    match normalize_record(record, policy) {
                        Ok(s) => {
                            services.push(s);
                        },
                        Err(_) => {},
                    }
                },
                _ => {},
            }
        }
        proof {
            assert(all.take(i as int + 1).drop_last() =~= all.take(i as int));
            assert(all.take(i as int + 1).last() == all[i as int]);
            assert(all[i as int] == events@[i as int]@);
            assert(service_views(services@) =~= match admit_spec(
                all[i as int],
                deadline_ms,
                policy,
            ) {
                Some(s) => before.push(s),
                None => before,
            });
        }
        i = i + 1;
    }
    proof {
        assert(all.take(i as int) =~= all);
    }
    services
}

/// Whether the setup outcome calls for a collection worker: only a session
/// whose daemon and browse are up receives events, so only then is a worker
/// spawned. A failed setup spawns nothing.
pub open spec fn worker_required_spec(setup: SetupOutcome) -> bool {
    setup == SetupOutcome::Ready
}

/// Decides whether the host must spawn the collection worker for this
/// session.
pub fn worker_required(setup: SetupOutcome) -> (b: bool)
    ensures
        b == worker_required_spec(setup),
{
    setup == SetupOutcome::Ready
}

/// What a whole scan returns: the collected services when the setup held,
/// and `DiscoveryUnavailable` — never a partial list — when the daemon or
/// the browse could not be set up.
pub open spec fn scan_spec(
    setup: SetupOutcome,
    events: Seq<TimedEventView>,
    deadline_ms: u64,
    policy: AddressPolicy,
) -> Result<Seq<ServiceView>, DiscoveryError> {
    if setup == SetupOutcome::Ready {
        Ok(session_results(events, deadline_ms, policy))
    } else {
        Err(DiscoveryError::DiscoveryUnavailable)
    }
}

/// The view of a scan result.
pub open spec fn scan_result_view(res: Result<Vec<DiscoveredService>, DiscoveryError>) -> Result<
    Seq<ServiceView>,
    DiscoveryError,
> {
    match res {
        Ok(services) => Ok(service_views(services@)),
        Err(e) => Err(e),
    }
}

/// The final step of a scan: combines the setup outcome with the drained
/// events. Exactly [`scan_spec`]: a failed setup yields
/// `DiscoveryUnavailable` and no entries; a sound setup yields the session's
/// collected services, which may well be empty — an empty result is not an
/// error.
pub fn scan_outcome(
    setup: SetupOutcome,
    events: &Vec<TimedEvent>,
    deadline_ms: u64,
    policy: AddressPolicy,
) -> (res: Result<Vec<DiscoveredService>, DiscoveryError>)
    ensures
        scan_result_view(res) == scan_spec(setup, event_views(events@), deadline_ms, policy),
{
    if setup == SetupOutcome::Ready {
        Ok(collect_services(events, deadline_ms, policy))
    } else {
        Err(DiscoveryError::DiscoveryUnavailable)
    }
}

/// How many of the events are admitted: arrived within the window, resolve
/// events, and normalizing.
pub open spec fn admitted_count(
    events: Seq<TimedEventView>,
    deadline_ms: u64,
    policy: AddressPolicy,
) -> nat
    decreases events.len(),
{
    if events.len() == 0 {
        0
    } else {
        admitted_count(events.drop_last(), deadline_ms, policy) + if admit_spec(
            events.last(),
            deadline_ms,
            policy,
        ) is Some {
            1nat
        } else {
            0nat
        }
    }
}

/// Each event extends the result by exactly its own contribution: an
/// admitted event appends its one normalized entry at the end, any other
/// event leaves the result unchanged. So entries stand in arrival order and
/// nothing is reordered or merged.
pub proof fn lemma_one_entry_per_admitted_event(
    events: Seq<TimedEventView>,
    e: TimedEventView,
    deadline_ms: u64,
    policy: AddressPolicy,
)
    ensures
        session_results(events.push(e), deadline_ms, policy) == match admit_spec(
            e,
            deadline_ms,
            policy,
        ) {
            Some(s) => session_results(events, deadline_ms, policy).push(s),
            None => session_results(events, deadline_ms, policy),
        },
{
    assert(events.push(e).drop_last() =~= events);
    assert(events.push(e).last() == e);
}

/// The result holds exactly one entry per admitted event: in particular,
/// duplicate resolve events for the same device are all kept — nothing is
/// deduplicated or merged inside the session.
pub proof fn lemma_result_counts_every_admitted_event(
    events: Seq<TimedEventView>,
    deadline_ms: u64,
    policy: AddressPolicy,
)
    ensures
        session_results(events, deadline_ms, policy).len() == admitted_count(
            events,
            deadline_ms,
            policy,
        ),
    decreases events.len(),
{
    if events.len() > 0 {
        lemma_result_counts_every_admitted_event(events.drop_last(), deadline_ms, policy);
    }
}

/// Admitted events appear at their own positions: when every event of the
/// stream is admitted — arrived within the window, resolved, complete — the
/// result holds exactly one entry per event, and the entry at position `i`
/// is the normalization of the event at position `i`. Arrival order is kept;
/// nothing is reordered or silently merged.
pub proof fn lemma_admitted_events_appear_in_order(
    events: Seq<TimedEventView>,
    deadline_ms: u64,
    policy: AddressPolicy,
)
    requires
        forall|i: int|
            0 <= i < events.len() ==> #[trigger] admit_spec(events[i], deadline_ms, policy)
                is Some,
    ensures
        session_results(events, deadline_ms, policy).len() == events.len(),
        forall|i: int|
            0 <= i < events.len() ==> session_results(events, deadline_ms, policy)[i]
                == admit_spec(events[i], deadline_ms, policy)->Some_0,
    decreases events.len(),
{
    if events.len() > 0 {
        let rest = events.drop_last();
        assert forall|i: int| 0 <= i < rest.len() implies #[trigger] admit_spec(
            rest[i],
            deadline_ms,
            policy,
        ) is Some by {
            assert(rest[i] == events[i]);
        }
        lemma_admitted_events_appear_in_order(rest, deadline_ms, policy);
        assert(admit_spec(events[events.len() - 1], deadline_ms, policy) is Some);
        let results = session_results(events, deadline_ms, policy);
        let rest_results = session_results(rest, deadline_ms, policy);
        assert forall|i: int| 0 <= i < events.len() implies results[i] == admit_spec(
            events[i],
            deadline_ms,
            policy,
        )->Some_0 by {
            if i < events.len() - 1 {
                assert(results[i] == rest_results[i]);
                assert(rest[i] == events[i]);
            }
        }
    }
}

/// A session that saw no resolve events at all returns the empty list — an
/// outcome, not an error.
pub proof fn lemma_no_resolve_events_yield_empty(
    events: Seq<TimedEventView>,
    deadline_ms: u64,
    policy: AddressPolicy,
)
    requires
        forall|i: int| 0 <= i < events.len() ==> !(events[i].event is ServiceResolved),
    ensures
        session_results(events, deadline_ms, policy) =~= Seq::<ServiceView>::empty(),
    decreases events.len(),
{
    if events.len() > 0 {
        assert(events.last() == events[events.len() - 1]);
        lemma_no_resolve_events_yield_empty(events.drop_last(), deadline_ms, policy);
    }
}

/// A quiet but healthy scan — setup held, no resolve event arrived — returns
/// `Ok` with the empty list, never an error.
pub proof fn lemma_quiet_scan_is_ok_and_empty(
    events: Seq<TimedEventView>,
    deadline_ms: u64,
    policy: AddressPolicy,
)
    requires
        forall|i: int| 0 <= i < events.len() ==> !(events[i].event is ServiceResolved),
    ensures
        scan_spec(SetupOutcome::Ready, events, deadline_ms, policy) == Ok::<_, DiscoveryError>(
            Seq::<ServiceView>::empty(),
        ),
{
    lemma_no_resolve_events_yield_empty(events, deadline_ms, policy);
}

/// A scan whose setup failed yields `DiscoveryUnavailable` — whatever events
/// may have been drained, no entry is returned — and requires no collection
/// worker in the first place.
pub proof fn lemma_failed_setup_is_unavailable(
    setup: SetupOutcome,
    events: Seq<TimedEventView>,
    deadline_ms: u64,
    policy: AddressPolicy,
)
    requires
        setup != SetupOutcome::Ready,
    ensures
        scan_spec(setup, events, deadline_ms, policy) == Err::<Seq<ServiceView>, _>(
            DiscoveryError::DiscoveryUnavailable,
        ),
        !worker_required_spec(setup),
{
}

/// The events of a sequence that arrived within the window, in order.
pub open spec fn in_window_only(events: Seq<TimedEventView>, deadline_ms: u64) -> Seq<
    TimedEventView,
>
    decreases events.len(),
{
    if events.len() == 0 {
        Seq::empty()
    } else {
        let rest = in_window_only(events.drop_last(), deadline_ms);
        if in_window(events.last(), deadline_ms) {
            rest.push(events.last())
        } else {
            rest
        }
    }
}

/// The deadline is what counts, not the drain: events stamped after the
/// deadline never appear in the result, wherever in the stream they stand,
/// while events stamped within the window contribute even when they were
/// drained after the browse had been stopped.
pub proof fn lemma_late_events_never_appear(
    events: Seq<TimedEventView>,
    deadline_ms: u64,
    policy: AddressPolicy,
)
    ensures
        session_results(events, deadline_ms, policy) == session_results(
            in_window_only(events, deadline_ms),
            deadline_ms,
            policy,
        ),
    decreases events.len(),
{
    if events.len() > 0 {
        lemma_late_events_never_appear(events.drop_last(), deadline_ms, policy);
        if in_window(events.last(), deadline_ms) {
            let kept = in_window_only(events, deadline_ms);
            assert(kept.drop_last() =~= in_window_only(events.drop_last(), deadline_ms));
            assert(kept.last() == events.last());
        }
    }
}

/// Whether some entry of the sequence carries this hardware identifier.
pub open spec fn mac_seen(services: Seq<ServiceView>, mac: Seq<char>) -> bool {
    exists|i: int| 0 <= i < services.len() && services[i].mac_address == mac
}

/// The sequence with every entry dropped whose hardware identifier appeared
/// earlier: the first entry per `mac_address` survives, in order.
pub open spec fn dedup_spec(services: Seq<ServiceView>) -> Seq<ServiceView>
    decreases services.len(),
{
    if services.len() == 0 {
        Seq::empty()
    } else {
        let rest = dedup_spec(services.drop_last());
        if mac_seen(services.drop_last(), services.last().mac_address) {
            rest
        } else {
            rest.push(services.last())
        }
    }
}

/// Appending one entry extends the set of seen hardware identifiers by
/// exactly that entry's.
proof fn lemma_mac_seen_push(services: Seq<ServiceView>, s: ServiceView, mac: Seq<char>)
    ensures
        mac_seen(services.push(s), mac) == (mac_seen(services, mac) || s.mac_address == mac),
{
    if mac_seen(services, mac) {
        let i = choose|i: int| 0 <= i < services.len() && services[i].mac_address == mac;
        assert(services.push(s)[i] == services[i]);
    }
    if s.mac_address == mac {
        assert(services.push(s)[services.len() as int] == s);
    }
    if mac_seen(services.push(s), mac) {
        let i = choose|i: int|
            0 <= i < services.push(s).len() && services.push(s)[i].mac_address == mac;
        if i < services.len() {
            assert(services[i] == services.push(s)[i]);
        }
    }
}

/// Deduplication keeps exactly the hardware identifiers that were there: a
/// `mac_address` occurs in the deduplicated sequence if and only if it
/// occurs in the input.
pub proof fn lemma_dedup_keeps_every_mac(services: Seq<ServiceView>, mac: Seq<char>)
    ensures
        mac_seen(dedup_spec(services), mac) == mac_seen(services, mac),
    decreases services.len(),
{
    if services.len() > 0 {
        let rest = services.drop_last();
        let last = services.last();
        lemma_dedup_keeps_every_mac(rest, mac);
        assert(services =~= rest.push(last));
        lemma_mac_seen_push(rest, last, mac);
        if !mac_seen(rest, last.mac_address) {
            lemma_mac_seen_push(dedup_spec(rest), last, mac);
        }
    }
}

/// Whether any already-collected entry carries this hardware identifier.
pub fn contains_mac(services: &Vec<DiscoveredService>, mac: &String) -> (b: bool)
    ensures
        b == mac_seen(service_views(services@), mac@),
{
    let ghost all: Seq<ServiceView> = service_views(services@);
    let mut i: usize = 0;
    while i < services.len()
        invariant
            0 <= i <= services@.len(),
            all == service_views(services@),
            forall|j: int| 0 <= j < i ==> all[j].mac_address != mac@,
        decreases services@.len() - i,
    {
        if services[i].mac_address == *mac {
            assert(all[i as int].mac_address == mac@);
            return true;
        }
        i = i + 1;
    }
    false
}

/// The optional layer above a scan: drops every entry whose `mac_address`
/// appeared earlier in the list, keeping the first occurrence and the order
/// of the rest. The session itself never deduplicates; callers that want
/// unique devices apply this afterwards.
pub fn dedup_by_mac(services: &Vec<DiscoveredService>) -> (unique: Vec<DiscoveredService>)
    ensures
        service_views(unique@) == dedup_spec(service_views(services@)),
{
    let ghost all: Seq<ServiceView> = service_views(services@);
    let mut unique: Vec<DiscoveredService> = Vec::new();
    let mut i: usize = 0;
    while i < services.len()
        invariant
            0 <= i <= services@.len(),
            all == service_views(services@),
            service_views(unique@) == dedup_spec(all.take(i as int)),
        decreases services@.len() - i,
    {
        let ghost before: Seq<ServiceView> = service_views(unique@);
        proof {
            lemma_dedup_keeps_every_mac(all.take(i as int), all[i as int].mac_address);
        }
        if !contains_mac(&unique, &services[i].mac_address) {
            let entry = services[i].clone();
            unique.push(entry);
        }
        proof {
            assert(all.take(i as int + 1).drop_last() =~= all.take(i as int));
            assert(all.take(i as int + 1).last() == all[i as int]);
            assert(service_views(unique@) =~= if mac_seen(
                all.take(i as int),
                all[i as int].mac_address,
            ) {
                before
            } else {
                before.push(all[i as int])
            });
        }
        i = i + 1;
    }
    proof {
        assert(all.take(i as int) =~= all);
    }
    unique
}

/// The multicast service type this utility browses for.
pub fn service_type() -> (s: &'static str)
    ensures
        s@ == "_elg._tcp.local."@,
{
    "_elg._tcp.local."
}

/// The collection window, in milliseconds: how long a session accepts
/// resolve events before the browse is stopped.
pub const SCAN_WINDOW_MS: u64 = 5000;

} // verus!
