//! The process-side wireless service: handler completion logic and the
//! change-notification loop.
//!
//! Each bus handler is a one-shot: validate what the remote caller sent,
//! let the backend act, and translate the backend's outcome into the reply,
//! wrapping failures into a remote fault with a fixed human-readable
//! message.  The notification loop polls the backend on a fixed interval
//! and emits an event only when the observed triple — enabled, connected,
//! signal strength — differs from the one last emitted; a failing
//! association query while enabled is absorbed as "not connected" so the
//! loop never stops over a transient failure.

use vstd::prelude::*;

use crate::control_client::WirelessControlClient;
use crate::wireless_types::{ControlError, KnownNetworkListResponse,
    KnownNetworkResponse, NotificationView, TransportFault,
    WirelessInfoResponse, WirelessNotificationEvent, WirelessScanListResponse,
    info_views, known_views};

verus! {

/// The bus-facing wireless service object; `path` names the backend's
/// control socket.
#[derive(Clone)]
pub struct WirelessBusInterface {
    pub path: String,
}

impl WirelessBusInterface {
    pub fn new(path: String) -> (r: Self)
        ensures
            r.path@ == path@,
    {
        WirelessBusInterface { path }
    }

    /// Validation stage of the disconnect handler: the identifier must
    /// parse as a non-negative integer before the backend is asked
    /// anything; otherwise the handler fails at once with the parse fault.
    pub fn disconnect_request(&self, network_id: &str) -> (r: Result<usize, ControlError>)
        ensures
            r is Ok <==> crate::text::is_unsigned_numeral(network_id@)
                && crate::text::unsigned_value(network_id@) <= usize::MAX,
            r is Ok ==> r->Ok_0 == crate::text::unsigned_value(network_id@),
            r is Err ==> r->Err_0 is RemoteFault
                && r->Err_0->RemoteFault_0@ == "Failed to parse network_id"@,
    {
        match WirelessControlClient::parse_network_id(network_id) {
            Ok(id) => Ok(id),
            Err(_) => Err(ControlError::RemoteFault("Failed to parse network_id".to_owned())),
        }
    }

    /// Completion stage of the disconnect handler.
    pub fn disconnect_complete(outcome: Result<(), TransportFault>) -> (r: Result<
        (),
        ControlError,
    >)
        ensures
            outcome is Ok ==> r is Ok,
            outcome is Err ==> r is Err && r->Err_0 is RemoteFault
                && r->Err_0->RemoteFault_0@ == "Failed to disconnect Wifi"@,
    {
        match outcome {
            Ok(unit) => Ok(unit),
            Err(_) => Err(ControlError::RemoteFault("Failed to disconnect Wifi".to_owned())),
        }
    }

    /// Validation stage of the select-network handler; same fail-fast parse
    /// as disconnect.
    pub fn select_network_request(&self, network_id: &str) -> (r: Result<
        usize,
        ControlError,
    >)
        ensures
            r is Ok <==> crate::text::is_unsigned_numeral(network_id@)
                && crate::text::unsigned_value(network_id@) <= usize::MAX,
            r is Ok ==> r->Ok_0 == crate::text::unsigned_value(network_id@),
            r is Err ==> r->Err_0 is RemoteFault
                && r->Err_0->RemoteFault_0@ == "Failed to parse network_id"@,
    {
        match WirelessControlClient::parse_network_id(network_id) {
            Ok(id) => Ok(id),
            Err(_) => Err(ControlError::RemoteFault("Failed to parse network_id".to_owned())),
        }
    }

    /// Completion stage of the select-network handler.
    pub fn select_network_complete(outcome: Result<(), TransportFault>) -> (r: Result<
        (),
        ControlError,
    >)
        ensures
            outcome is Ok ==> r is Ok,
            outcome is Err ==> r is Err && r->Err_0 is RemoteFault
                && r->Err_0->RemoteFault_0@ == "Failed to select network"@,
    {
        match outcome {
            Ok(unit) => Ok(unit),
            Err(_) => Err(ControlError::RemoteFault("Failed to select network".to_owned())),
        }
    }

    /// Completion stage of the connect handler.
    pub fn connect_complete(outcome: Result<(), TransportFault>) -> (r: Result<
        (),
        ControlError,
    >)
        ensures
            outcome is Ok ==> r is Ok,
            outcome is Err ==> r is Err && r->Err_0 is RemoteFault
                && r->Err_0->RemoteFault_0@ == "Failed to connect Wifi"@,
    {
        match outcome {
            Ok(unit) => Ok(unit),
            Err(_) => Err(ControlError::RemoteFault("Failed to connect Wifi".to_owned())),
        }
    }

    /// Completion stage of the info handler: the associated network is
    /// passed through unchanged; any backend failure is one fault.
    pub fn info_complete(outcome: Result<WirelessInfoResponse, TransportFault>) -> (r:
        Result<WirelessInfoResponse, ControlError>)
        ensures
            outcome is Ok ==> r is Ok && r->Ok_0@ == outcome->Ok_0@,
            outcome is Err ==> r is Err && r->Err_0 is RemoteFault
                && r->Err_0->RemoteFault_0@ == "Failed to get Wifi info"@,
    {
        match outcome {
            Ok(info) => Ok(info),
            Err(_) => Err(ControlError::RemoteFault("Failed to get Wifi info".to_owned())),
        }
    }

    /// Completion stage of the scan handler: entries and their order are
    /// kept exactly as reported.
    pub fn scan_complete(
        outcome: Result<Vec<WirelessInfoResponse>, TransportFault>,
    ) -> (r: Result<WirelessScanListResponse, ControlError>)
        ensures
            outcome is Ok ==> r is Ok && r->Ok_0@ == info_views(outcome->Ok_0@),
            outcome is Err ==> r is Err && r->Err_0 is RemoteFault
                && r->Err_0->RemoteFault_0@ == "Failed to scan Wifi"@,
    {
        match outcome {
            Ok(entries) => Ok(WirelessScanListResponse { wireless_network: entries }),
            Err(_) => Err(ControlError::RemoteFault("Failed to scan Wifi".to_owned())),
        }
    }

    /// Completion stage of the known-networks handler.
    pub fn known_networks_complete(
        outcome: Result<Vec<KnownNetworkResponse>, TransportFault>,
    ) -> (r: Result<KnownNetworkListResponse, ControlError>)
        ensures
            outcome is Ok ==> r is Ok && r->Ok_0@ == known_views(outcome->Ok_0@),
            outcome is Err ==> r is Err && r->Err_0 is RemoteFault
                && r->Err_0->RemoteFault_0@ == "Failed to get known networks"@,
    {
        match outcome {
            Ok(profiles) => Ok(KnownNetworkListResponse { known_network: profiles }),
            Err(_) => Err(ControlError::RemoteFault("Failed to get known networks".to_owned())),
        }
    }

    /// Completion stage of the enable handler: any backend success reports
    /// `true`, so enabling an already enabled radio succeeds rather than
    /// erring.
    pub fn enable_complete(outcome: Result<(), TransportFault>) -> (r: Result<
        bool,
        ControlError,
    >)
        ensures
            outcome is Ok ==> r is Ok && r->Ok_0 == true,
            outcome is Err ==> r is Err && r->Err_0 is RemoteFault
                && r->Err_0->RemoteFault_0@ == "Failed to enable Wifi"@,
    {
        match outcome {
            Ok(_) => Ok(true),
            Err(_) => Err(ControlError::RemoteFault("Failed to enable Wifi".to_owned())),
        }
    }

    /// Completion stage of the disable handler; reports `true` on any
    /// backend success — disabling a radio that is already off succeeds —
    /// and on failure the fault describes the disable.
    pub fn disable_complete(outcome: Result<(), TransportFault>) -> (r: Result<
        bool,
        ControlError,
    >)
        ensures
            outcome is Ok ==> r is Ok && r->Ok_0 == true,
            outcome is Err ==> r is Err && r->Err_0 is RemoteFault
                && r->Err_0->RemoteFault_0@ == "Failed to disable Wifi"@,
    {
        match outcome {
            Ok(_) => Ok(true),
            Err(_) => Err(ControlError::RemoteFault("Failed to disable Wifi".to_owned())),
        }
    }
}

/// The triple a poll produces: enabled as reported, connected exactly when
/// the radio is on and an association was confirmed, and that association's
/// signal strength — the empty string otherwise.  A failed association
/// query is handed in as `None` and so reads as "not connected".
pub open spec fn poll_snapshot(is_enabled: bool, signal: Option<Seq<char>>) -> NotificationView {
    NotificationView {
        is_enabled: is_enabled,
        is_connected: is_enabled && signal is Some,
        signal_strength: if is_enabled && signal is Some {
            signal->0
        } else {
            Seq::empty()
        },
    }
}

/// The signal strength of an association answer, when there is one.
pub open spec fn signal_of(info: Option<&WirelessInfoResponse>) -> Option<Seq<char>> {
    match info {
        Option::Some(i) => Option::Some(i.signal@),
        Option::None => Option::None,
    }
}

/// State of the notification loop: the triple last emitted, if any.
pub struct NotifierState {
    pub previous: Option<WirelessNotificationEvent>,
}

impl NotifierState {
    /// A fresh loop has emitted nothing, so the first poll always emits.
    pub fn new() -> (r: Self)
        ensures
            r.previous is None,
    {
        NotifierState { previous: Option::None }
    }

    /// One tick of the notification loop.  `is_enabled` is the enablement
    /// answer; `info` is the association answer when the radio was on and
    /// the query succeeded, `None` otherwise.  Emits the current triple
    /// exactly when it differs from the previously emitted one — never a
    /// flood of identical notifications — and then remembers it.
    pub fn observe(&mut self, is_enabled: bool, info: Option<&WirelessInfoResponse>) -> (r:
        Option<WirelessNotificationEvent>)
        ensures
            ({
                let cur = poll_snapshot(is_enabled, signal_of(info));
                &&& final(self).previous is Some && final(self).previous->0@ == cur
                &&& r is Some <==> !(old(self).previous is Some && old(
                    self,
                ).previous->0@ == cur)
                &&& r is Some ==> r->0@ == cur
            }),
    {
        let is_connected: bool;
        let signal_strength: String;
        match info {
            Option::Some(i) => {
                if is_enabled {
                    is_connected = true;
                    signal_strength = i.signal.clone();
                } else {
                    is_connected = false;
                    signal_strength = String::new();
                }
            },
            Option::None => {
                is_connected = false;
                signal_strength = String::new();
            },
        }
        proof {
            assert(signal_strength@ == poll_snapshot(
                is_enabled,
                signal_of(info),
            ).signal_strength);
        }
        let same = match &self.previous {
            Option::Some(prev) => prev.is_enabled == is_enabled && prev.is_connected
                == is_connected && prev.signal_strength == signal_strength,
            Option::None => false,
        };
        let event = WirelessNotificationEvent {
            signal_strength: signal_strength.clone(),
            is_connected: is_connected,
            is_enabled: is_enabled,
        };
        if same {
            self.previous = Option::Some(event);
            Option::None
        } else {
            let emitted = WirelessNotificationEvent {
                signal_strength: signal_strength,
                is_connected: is_connected,
                is_enabled: is_enabled,
            };
            self.previous = Option::Some(event);
            Option::Some(emitted)
        }
    }
}

/// The events a notification loop emits, starting from a previously
/// emitted triple (`None` for a fresh loop) over a sequence of observed
/// triples, as [`NotifierState::observe`] produces them.
pub open spec fn run_emissions(prev: Option<NotificationView>, polls: Seq<NotificationView>) -> Seq<
    NotificationView,
>
    decreases polls.len(),
{
    if polls.len() == 0 {
        Seq::empty()
    } else if prev is Some && prev->0 == polls[0] {
        run_emissions(prev, polls.drop_first())
    } else {
        seq![polls[0]] + run_emissions(Option::Some(polls[0]), polls.drop_first())
    }
}

/// The triple a poll pair — enablement and association answer — reads as.
pub open spec fn snapshot_of(poll: (bool, Option<WirelessInfoResponse>)) -> NotificationView {
    poll_snapshot(
        poll.0,
        match poll.1 {
            Option::Some(i) => Option::Some(i.signal@),
            Option::None => Option::None,
        },
    )
}

/// The triples a sequence of poll pairs reads as.
pub open spec fn snapshots_of(polls: Seq<(bool, Option<WirelessInfoResponse>)>) -> Seq<
    NotificationView,
> {
    polls.map_values(|p: (bool, Option<WirelessInfoResponse>)| snapshot_of(p))
}

/// The previously emitted triple of [`NotifierState`], as a view.
pub open spec fn previous_view(s: NotifierState) -> Option<NotificationView> {
    match s.previous {
        Option::Some(e) => Option::Some(e@),
        Option::None => Option::None,
    }
}

/// What a loop remembers after a run: the last polled triple, or the
/// starting one where nothing was polled.
pub open spec fn run_previous(
    prev: Option<NotificationView>,
    polls: Seq<NotificationView>,
) -> Option<NotificationView> {
    if polls.len() == 0 {
        prev
    } else {
        Option::Some(polls.last())
    }
}

/// One more poll at the end of a run emits exactly when its triple differs
/// from what the run remembers.
proof fn lemma_run_emissions_push(
    prev: Option<NotificationView>,
    polls: Seq<NotificationView>,
    t: NotificationView,
)
    ensures
        run_emissions(prev, polls.push(t)) == run_emissions(prev, polls) + (if (
        run_previous(prev, polls) is Some && run_previous(prev, polls)->0 == t) {
            Seq::<NotificationView>::empty()
        } else {
            seq![t]
        }),
    decreases polls.len(),
{
    if polls.len() == 0 {
        reveal_with_fuel(run_emissions, 3);
        let one = polls.push(t);
        assert(one[0] == t);
        assert(one.drop_first() =~= Seq::<NotificationView>::empty());
        if prev is Some && prev->0 == t {
            assert(run_emissions(prev, one) =~= run_emissions(prev, polls));
        } else {
            assert(run_emissions(prev, one) =~= run_emissions(prev, polls) + seq![t]);
        }
    } else {
        let ext = polls.push(t);
        assert(ext[0] == polls[0]);
        assert(ext.drop_first() =~= polls.drop_first().push(t));
        assert(run_previous(prev, polls) == run_previous(
            Option::Some(polls[0]),
            polls.drop_first(),
        ));
        if prev is Some && prev->0 == polls[0] {
            lemma_run_emissions_push(prev, polls.drop_first(), t);
            assert(run_previous(prev, polls.drop_first()) == run_previous(prev, polls)) by {
                if polls.drop_first().len() == 0 {
                    assert(polls.last() == polls[0]);
                }
            }
        } else {
            lemma_run_emissions_push(Option::Some(polls[0]), polls.drop_first(), t);
        }
    }
}

impl NotifierState {
    /// Runs the loop body over a whole sequence of polls and collects what
    /// it emits: exactly [`run_emissions`] of the observed triples, so one
    /// notification per state transition and none for a repeated state,
    /// however long the run.
    pub fn observe_all(&mut self, polls: &Vec<(bool, Option<WirelessInfoResponse>)>) -> (r:
        Vec<WirelessNotificationEvent>)
        ensures
            r@.map_values(|e: WirelessNotificationEvent| e@) == run_emissions(
                previous_view(*old(self)),
                snapshots_of(polls@),
            ),
            previous_view(*final(self)) == run_previous(
                previous_view(*old(self)),
                snapshots_of(polls@),
            ),
    {
        let ghost init = previous_view(*self);
        let mut out: Vec<WirelessNotificationEvent> = Vec::new();
        let n = polls.len();
        let mut i: usize = 0;
        proof {
            assert(snapshots_of(polls@.subrange(0, 0)) =~= Seq::empty());
            assert(out@.map_values(|e: WirelessNotificationEvent| e@) =~= Seq::empty());
        }
        while i < n
            invariant
                n == polls@.len(),
                0 <= i <= n,
                out@.map_values(|e: WirelessNotificationEvent| e@) == run_emissions(
                    init,
                    snapshots_of(polls@.subrange(0, i as int)),
                ),
                previous_view(*self) == run_previous(
                    init,
                    snapshots_of(polls@.subrange(0, i as int)),
                ),
            decreases n - i,
        {
            let poll = &polls[i];
            let info = match &poll.1 {
                Option::Some(network) => Option::Some(network),
                Option::None => Option::None,
            };
            let ghost pre = snapshots_of(polls@.subrange(0, i as int));
            let ghost out_pre = out@.map_values(|e: WirelessNotificationEvent| e@);
            let emitted = self.observe(poll.0, info);
            proof {
                let ext = snapshots_of(polls@.subrange(0, i + 1));
                assert(ext =~= pre.push(snapshot_of(polls@[i as int])));
                lemma_run_emissions_push(init, pre, snapshot_of(polls@[i as int]));
            }
            match emitted {
                Option::Some(event) => {
                    out.push(event);
                    proof {
                        assert(out@.map_values(|e: WirelessNotificationEvent| e@)
                            =~= out_pre.push(out@.last()@));
                    }
                },
                Option::None => {},
            }
            i = i + 1;
        }
        proof {
            assert(polls@.subrange(0, n as int) =~= polls@);
        }
        out
    }
}

/// Deduplication law of the notification loop: over any run, each emitted
/// event differs from the one emitted before it (and the first emitted
/// event differs from whatever had been emitted before the run), so at
/// most one notification fires per distinct state, however often a state
/// repeats.
pub proof fn lemma_run_emissions_no_stutter(
    prev: Option<NotificationView>,
    polls: Seq<NotificationView>,
)
    ensures
        ({
            let out = run_emissions(prev, polls);
            &&& forall|i: int| 0 <= i < out.len() - 1 ==> #[trigger] out[i] != out[i + 1]
            &&& (prev is Some && out.len() > 0) ==> out[0] != prev->0
            &&& out.len() <= polls.len()
        }),
    decreases polls.len(),
{
    if polls.len() == 0 {
    } else if prev is Some && prev->0 == polls[0] {
        lemma_run_emissions_no_stutter(prev, polls.drop_first());
    } else {
        lemma_run_emissions_no_stutter(Option::Some(polls[0]), polls.drop_first());
        let tail = run_emissions(Option::Some(polls[0]), polls.drop_first());
        let out = run_emissions(prev, polls);
        assert(out == seq![polls[0]] + tail);
        assert(forall|i: int| 0 <= i < tail.len() ==> #[trigger] out[i + 1] == tail[i]);
        assert(out.len() > 1 ==> out[0] != out[1]);
    }
}

} // verus!
