//! The client-side reactive model: a per-process cache of the wireless
//! state, refreshed by explicit triggers.
//!
//! The cache holds enablement, the connected network, the last scan and the
//! saved profiles.  Refresh outcomes are applied through the functions
//! here: a failed refresh leaves the prior cached values in place — last
//! known good, never cleared to an empty state on a transient failure —
//! while a confirmed answer replaces them.  Saved-profile operations that
//! need an identifier resolve it against the cached profile list first; an
//! unknown name resolves to nothing, and the operation is then a silent
//! no-op with no remote call.

use vstd::prelude::*;

use crate::text::{has_substring, str_contains, str_eq};
use crate::wireless_types::{ControlError, KnownNetworkResponse, KnownNetworkView,
    WirelessInfoResponse, WirelessInfoView, WirelessScanListResponse, info_views,
    known_views};

verus! {

/// What a toggle of the radio should do, judged from the cached
/// enablement.
#[derive(Debug, Clone, Copy, PartialEq, Eq, Structural)]
pub enum ToggleIntent {
    Enable,
    Disable,
}

/// The identifier of the first cached profile carrying `ssid`, if any.
pub open spec fn first_match(known: Seq<KnownNetworkView>, ssid: Seq<char>) -> Option<
    Seq<char>,
>
    decreases known.len(),
{
    if known.len() == 0 {
        Option::None
    } else if known[0].ssid == ssid {
        Option::Some(known[0].network_id)
    } else {
        first_match(known.drop_first(), ssid)
    }
}

/// The capability-flag marker of the entry a scan reports as the current
/// association.
pub open spec fn current_marker() -> Seq<char> {
    "[CURRENT]"@
}

/// `k` names the network a scan reports as currently connected: some scan
/// entry carries the current marker in its flags and `k`'s name.
pub open spec fn matches_current(k: KnownNetworkView, scan: Seq<WirelessInfoView>) -> bool {
    exists|i: int|
        0 <= i < scan.len() && has_substring(#[trigger] scan[i].flags, current_marker())
            && scan[i].name == k.ssid
}

/// Some cached profile carries the scan entry's name.
pub open spec fn matches_known(name: Seq<char>, known: Seq<KnownNetworkView>) -> bool {
    exists|j: int| 0 <= j < known.len() && #[trigger] known[j].ssid == name
}

/// The per-process cache of the wireless state.
#[derive(Debug, Clone)]
pub struct WirelessModel {
    pub is_enabled: bool,
    pub connected_network: Option<WirelessInfoResponse>,
    pub scan_result: Vec<WirelessInfoResponse>,
    pub known_networks: Vec<KnownNetworkResponse>,
}

impl WirelessModel {
    /// The cache's invariant: a connected network is only ever cached while
    /// the radio is cached as enabled.
    pub open spec fn wf(self) -> bool {
        self.connected_network is Some ==> self.is_enabled
    }

    /// A fresh cache: radio off, nothing connected, nothing scanned, no
    /// profiles.
    pub fn new() -> (r: Self)
        ensures
            r.is_enabled == false,
            r.connected_network is None,
            r.scan_result@.len() == 0,
            r.known_networks@.len() == 0,
            r.wf(),
    {
        WirelessModel {
            is_enabled: false,
            connected_network: Option::None,
            scan_result: Vec::new(),
            known_networks: Vec::new(),
        }
    }

    /// Applies the outcome of one coordinated refresh pass.
    ///
    /// `status` is the enablement answer; when it failed, nothing at all
    /// changes (last known good).  On success the enablement is taken over;
    /// a radio reported off clears the connected network, for that is a
    /// confirmed state, not a failure.  `info` is the association answer,
    /// queried only while the radio is on: a network replaces the cached
    /// one, a confirmed "not connected" clears it, and a transport failure
    /// or an unqueried association leaves it as it was.  `known` replaces
    /// the cached profiles only on success, order kept.  The scan cache is
    /// not touched by an update pass.
    pub fn apply_update(
        &mut self,
        status: Result<bool, ControlError>,
        info: Option<Result<WirelessInfoResponse, ControlError>>,
        known: Option<Result<Vec<KnownNetworkResponse>, ControlError>>,
    )
        requires
            old(self).wf(),
        ensures
            final(self).scan_result == old(self).scan_result,
            status is Err ==> *final(self) == *old(self),
            status is Ok ==> final(self).is_enabled == status->Ok_0,
            (status is Ok && !status->Ok_0) ==> final(self).connected_network is None,
            (status is Ok && status->Ok_0) ==> {
                &&& info is None ==> final(self).connected_network == old(
                    self,
                ).connected_network
                &&& (info is Some && info->0 is Ok) ==> final(self).connected_network
                    is Some && final(self).connected_network->0@ == info->0->Ok_0@
                &&& (info is Some && info->0 is Err && info->0->Err_0 is NotConnectedError)
                    ==> final(self).connected_network is None
                &&& (info is Some && info->0 is Err && !(info->0->Err_0
                    is NotConnectedError)) ==> final(self).connected_network == old(
                    self,
                ).connected_network
            },
            status is Ok ==> {
                &&& (known is Some && known->0 is Ok) ==> final(self).known_networks
                    == known->0->Ok_0
                &&& !(known is Some && known->0 is Ok) ==> final(self).known_networks
                    == old(self).known_networks
            },
            final(self).wf(),
    {
        match status {
            Err(_) => {},
            Ok(enabled) => {
                self.is_enabled = enabled;
                if !enabled {
                    self.connected_network = Option::None;
                } else {
                    match info {
                        Option::None => {},
                        Option::Some(Ok(network)) => {
                            self.connected_network = Option::Some(network);
                        },
                        Option::Some(Err(e)) => {
                            match e {
                                ControlError::NotConnectedError => {
                                    self.connected_network = Option::None;
                                },
                                _ => {},
                            }
                        },
                    }
                }
                match known {
                    Option::Some(Ok(profiles)) => {
                        self.known_networks = profiles;
                    },
                    _ => {},
                }
            },
        }
    }

    /// Applies the outcome of a scan refresh: a successful scan replaces
    /// the cached listing, order kept; a failure leaves the prior listing
    /// in place and touches nothing else.
    pub fn apply_scan(&mut self, outcome: Result<WirelessScanListResponse, ControlError>)
        requires
            old(self).wf(),
        ensures
            outcome is Ok ==> final(self).scan_result
                == outcome->Ok_0.wireless_network,
            outcome is Err ==> final(self).scan_result == old(self).scan_result,
            final(self).is_enabled == old(self).is_enabled,
            final(self).connected_network == old(self).connected_network,
            final(self).known_networks == old(self).known_networks,
            final(self).wf(),
    {
        match outcome {
            Ok(listing) => {
                self.scan_result = listing.wireless_network;
            },
            Err(_) => {},
        }
    }

    /// What toggling the radio should do, judged from the cached
    /// enablement: disable an enabled radio, enable a disabled one.  The
    /// caller follows up with an update pass to reconcile the cache with
    /// the truth.
    pub fn toggle_intent(&self) -> (r: ToggleIntent)
        ensures
            r == (if self.is_enabled {
                ToggleIntent::Disable
            } else {
                ToggleIntent::Enable
            }),
    {
        if self.is_enabled {
            ToggleIntent::Disable
        } else {
            ToggleIntent::Enable
        }
    }

    /// Resolves a network name against the cached profiles, returning the
    /// identifier of the first profile with that name.
    ///
    /// Remote forget and disconnect want an identifier, not a name, so the
    /// saved-network operations resolve through this first.  A name no
    /// cached profile carries resolves to `None`, and the caller then
    /// performs no remote call at all and changes nothing: the operation is
    /// a silent no-op.
    pub fn resolve_network_id(&self, ssid: &str) -> (r: Option<String>)
        ensures
            ({
                let m = first_match(known_views(self.known_networks@), ssid@);
                &&& r is Some <==> m is Some
                &&& r is Some ==> r->0@ == m->0
            }),
    {
        let ghost views = known_views(self.known_networks@);
        proof {
            assert(views.skip(0) =~= views);
        }
        let n = self.known_networks.len();
        let mut i: usize = 0;
        while i < n
            invariant
                n == self.known_networks@.len(),
                views == known_views(self.known_networks@),
                0 <= i <= n,
                first_match(views, ssid@) == first_match(views.skip(i as int), ssid@),
            decreases n - i,
        {
            proof {
                assert(views.skip(i as int)[0] == views[i as int]);
            }
            let k = &self.known_networks[i];
            if str_eq(k.ssid.as_str(), ssid) {
                assert(first_match(views.skip(i as int), ssid@) is Some);
                return Option::Some(clone_string(&k.network_id));
            }
            proof {
                assert(views.skip(i as int).drop_first() =~= views.skip(i + 1));
            }
            i = i + 1;
        }
        proof {
            assert(views.skip(n as int) =~= Seq::empty());
        }
        Option::None
    }

    /// Begins forgetting a saved network by name: the identifier to hand
    /// to the remote forget call, or `None` when no cached profile carries
    /// the name — the operation then ends here, with zero remote calls and
    /// the cache untouched.
    pub fn forget_saved_network(&self, ssid: &str) -> (r: Option<String>)
        ensures
            ({
                let m = first_match(known_views(self.known_networks@), ssid@);
                &&& r is Some <==> m is Some
                &&& r is Some ==> r->0@ == m->0
            }),
    {
        self.resolve_network_id(ssid)
    }

    /// Splits what the cache knows into the two "available networks"
    /// listings the shells show: the saved profiles without the currently
    /// connected one, and the scan entries that no saved profile names —
    /// the current association appears in neither.  Order is kept in both.
    pub fn partition_networks(&self) -> (r: (Vec<KnownNetworkResponse>, Vec<
        WirelessInfoResponse,
    >))
        ensures
            known_views(r.0@) == known_views(self.known_networks@).filter(
                |k: KnownNetworkView| !matches_current(k, info_views(self.scan_result@)),
            ),
            info_views(r.1@) == info_views(self.scan_result@).filter(
                |w: WirelessInfoView| !matches_known(
                    w.name,
                    known_views(self.known_networks@),
                ),
            ),
    {
        let ghost kviews = known_views(self.known_networks@);
        let ghost sviews = info_views(self.scan_result@);
        let ghost saved_pred = |k: KnownNetworkView| !matches_current(k, sviews);
        let ghost unsaved_pred = |w: WirelessInfoView| !matches_known(w.name, kviews);

        let mut saved: Vec<KnownNetworkResponse> = Vec::new();
        let nk = self.known_networks.len();
        let mut i: usize = 0;
        while i < nk
            invariant
                nk == self.known_networks@.len(),
                kviews == known_views(self.known_networks@),
                sviews == info_views(self.scan_result@),
                saved_pred == (|k: KnownNetworkView| !matches_current(k, sviews)),
                0 <= i <= nk,
                known_views(saved@) == kviews.subrange(0, i as int).filter(saved_pred),
            decreases nk - i,
        {
            let k = &self.known_networks[i];
            let cur = self.is_current_for(k);
            if !cur {
                saved.push(clone_known(k));
            }
            proof {
                reveal(Seq::filter);
                let pre = kviews.subrange(0, i as int);
                let ext = kviews.subrange(0, i + 1);
                assert(ext.drop_last() =~= pre);
                assert(ext.last() == kviews[i as int]);
                assert(kviews[i as int] == self.known_networks@[i as int]@);
                assert(saved_pred(ext.last()) == !cur);
                if !cur {
                    assert(ext.filter(saved_pred) == pre.filter(saved_pred).push(
                        ext.last(),
                    ));
                    assert(known_views(saved@) =~= pre.filter(saved_pred).push(
                        kviews[i as int],
                    ));
                } else {
                    assert(ext.filter(saved_pred) == pre.filter(saved_pred));
                }
            }
            i = i + 1;
        }
        proof {
            assert(kviews.subrange(0, nk as int) =~= kviews);
        }

        let mut unsaved: Vec<WirelessInfoResponse> = Vec::new();
        let ns = self.scan_result.len();
        let mut j: usize = 0;
        while j < ns
            invariant
                ns == self.scan_result@.len(),
                kviews == known_views(self.known_networks@),
                sviews == info_views(self.scan_result@),
                unsaved_pred == (|w: WirelessInfoView| !matches_known(w.name, kviews)),
                0 <= j <= ns,
                info_views(unsaved@) == sviews.subrange(0, j as int).filter(unsaved_pred),
            decreases ns - j,
        {
            let w = &self.scan_result[j];
            let saved_name = self.is_known_name(w);
            if !saved_name {
                unsaved.push(clone_info(w));
            }
            proof {
                reveal(Seq::filter);
                let pre = sviews.subrange(0, j as int);
                let ext = sviews.subrange(0, j + 1);
                assert(ext.drop_last() =~= pre);
                assert(ext.last() == sviews[j as int]);
                assert(sviews[j as int] == self.scan_result@[j as int]@);
                assert(unsaved_pred(ext.last()) == !saved_name);
                if !saved_name {
                    assert(ext.filter(unsaved_pred) == pre.filter(unsaved_pred).push(
                        ext.last(),
                    ));
                    assert(info_views(unsaved@) =~= pre.filter(unsaved_pred).push(
                        sviews[j as int],
                    ));
                } else {
                    assert(ext.filter(unsaved_pred) == pre.filter(unsaved_pred));
                }
            }
            j = j + 1;
        }
        proof {
            assert(sviews.subrange(0, ns as int) =~= sviews);
        }
        (saved, unsaved)
    }

    /// Whether some cached scan entry marks `k`'s network as the current
    /// association.
    fn is_current_for(&self, k: &KnownNetworkResponse) -> (r: bool)
        ensures
            r == matches_current(k@, info_views(self.scan_result@)),
    {
        let ghost sviews = info_views(self.scan_result@);
        let ns = self.scan_result.len();
        let mut i: usize = 0;
        while i < ns
            invariant
                ns == self.scan_result@.len(),
                sviews == info_views(self.scan_result@),
                0 <= i <= ns,
                forall|t: int|
                    0 <= t < i ==> !(has_substring(#[trigger] sviews[t].flags, current_marker())
                        && sviews[t].name == k@.ssid),
            decreases ns - i,
        {
            let w = &self.scan_result[i];
            proof {
                reveal_strlit("[CURRENT]");
            }
            if str_contains(w.flags.as_str(), "[CURRENT]") && str_eq(
                w.name.as_str(),
                k.ssid.as_str(),
            ) {
                proof {
                    assert(sviews[i as int] == self.scan_result@[i as int]@);
                    assert(has_substring(sviews[i as int].flags, current_marker())
                        && sviews[i as int].name == k@.ssid);
                }
                return true;
            }
            i = i + 1;
        }
        false
    }

    /// Whether some cached profile names this scan entry's network.
    fn is_known_name(&self, w: &WirelessInfoResponse) -> (r: bool)
        ensures
            r == matches_known(w@.name, known_views(self.known_networks@)),
    {
        let ghost kviews = known_views(self.known_networks@);
        let nk = self.known_networks.len();
        let mut i: usize = 0;
        while i < nk
            invariant
                nk == self.known_networks@.len(),
                kviews == known_views(self.known_networks@),
                0 <= i <= nk,
                forall|t: int| 0 <= t < i ==> #[trigger] kviews[t].ssid != w@.name,
            decreases nk - i,
        {
            let k = &self.known_networks[i];
            if str_eq(k.ssid.as_str(), w.name.as_str()) {
                proof {
                    assert(kviews[i as int] == self.known_networks@[i as int]@);
                    assert(kviews[i as int].ssid == w@.name);
                }
                return true;
            }
            i = i + 1;
        }
        false
    }
}

/// A sequence splits into what passes a predicate and what fails it.
proof fn lemma_filter_complement<A>(s: Seq<A>, p: spec_fn(A) -> bool, q: spec_fn(A) -> bool)
    requires
        forall|x: A| #[trigger] q(x) == !p(x),
    ensures
        s.filter(p).len() + s.filter(q).len() == s.len(),
    decreases s.len(),
{
    reveal(Seq::filter);
    if s.len() > 0 {
        lemma_filter_complement(s.drop_last(), p, q);
    }
}

/// Counting law of the availability partition.  Where exactly one saved
/// profile is the one the scan marks current, the saved listing holds one
/// profile fewer than the cache; and — whatever the profiles — the unsaved
/// listing holds the scan entries less exactly those some profile names.
pub proof fn lemma_partition_counts(known: Seq<KnownNetworkView>, scan: Seq<WirelessInfoView>)
    requires
        known.filter(|k: KnownNetworkView| matches_current(k, scan)).len() == 1,
    ensures
        known.filter(|k: KnownNetworkView| !matches_current(k, scan)).len() == known.len()
            - 1,
        scan.filter(|w: WirelessInfoView| !matches_known(w.name, known)).len() == scan.len()
            - scan.filter(|w: WirelessInfoView| matches_known(w.name, known)).len(),
{
    lemma_filter_complement(
        known,
        |k: KnownNetworkView| matches_current(k, scan),
        |k: KnownNetworkView| !matches_current(k, scan),
    );
    lemma_filter_complement(
        scan,
        |w: WirelessInfoView| matches_known(w.name, known),
        |w: WirelessInfoView| !matches_known(w.name, known),
    );
}

/// A verified copy of a string value.
fn clone_string(s: &String) -> (r: String)
    ensures
        r@ == s@,
{
    s.clone()
}

/// A verified field-by-field copy of a saved profile.
fn clone_known(k: &KnownNetworkResponse) -> (r: KnownNetworkResponse)
    ensures
        r@ == k@,
{
    KnownNetworkResponse {
        network_id: k.network_id.clone(),
        ssid: k.ssid.clone(),
        flags: k.flags.clone(),
    }
}

/// A verified field-by-field copy of a scan entry.
fn clone_info(w: &WirelessInfoResponse) -> (r: WirelessInfoResponse)
    ensures
        r@ == w@,
{
    WirelessInfoResponse {
        mac: w.mac.clone(),
        frequency: w.frequency.clone(),
        signal: w.signal.clone(),
        flags: w.flags.clone(),
        name: w.name.clone(),
    }
}

} // verus!
