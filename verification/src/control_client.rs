//! The wireless control client: a stateless façade that turns domain
//! intents into bus requests and bus outcomes into domain results.
//!
//! Every operation is a one-shot request/response over the bus, and no
//! operation retries — retry policy belongs to callers.  The bus call
//! itself happens outside the library: a caller validates or prepares the
//! request here, performs the call, and hands the outcome back to the
//! matching `interpret` function, which translates transport faults into
//! the domain error taxonomy.

use vstd::prelude::*;

use crate::text::{is_signed_numeral, is_unsigned_numeral, parse_i32_str,
    parse_unsigned_str, signed_value, unsigned_value};
use crate::wireless_types::{ControlError, KnownNetworkListResponse,
    KnownNetworkResponse, TransportFault, WirelessConnectedState,
    WirelessInfoResponse, WirelessScanListResponse, WirelessStatus, known_views,
    info_views};

verus! {

/// Stateless façade over the bus transport for wireless control.
pub struct WirelessControlClient {}

impl WirelessControlClient {
    /// Validates a network identifier before any bus call is attempted.
    ///
    /// Returns the parsed identifier exactly when the string reads as a
    /// non-negative integer fitting `usize` — an optional leading plus,
    /// then digits, as the unsigned parsers accept it; otherwise fails
    /// fast with [`ControlError::InvalidIdError`] and no round-trip is
    /// spent.
    pub fn parse_network_id(network_id: &str) -> (r: Result<usize, ControlError>)
        ensures
            r is Ok <==> is_unsigned_numeral(network_id@) && unsigned_value(network_id@)
                <= usize::MAX,
            r is Ok ==> r->Ok_0 == unsigned_value(network_id@),
            r is Err ==> r->Err_0 is InvalidIdError,
    {
        match parse_unsigned_str(network_id) {
            Option::Some(v) => Ok(v),
            Option::None => Err(ControlError::InvalidIdError),
        }
    }

    /// Reads the outcome of an enablement query.  A transport failure is
    /// surfaced as [`ControlError::TransportError`]; a radio that is simply
    /// off is no error.
    pub fn interpret_status(outcome: Result<bool, TransportFault>) -> (r: Result<
        bool,
        ControlError,
    >)
        ensures
            outcome is Ok ==> r is Ok && r->Ok_0 == outcome->Ok_0,
            outcome is Err ==> r is Err && r->Err_0 is TransportError
                && r->Err_0->TransportError_0@ == outcome->Err_0.message@,
    {
        match outcome {
            Ok(enabled) => Ok(enabled),
            Err(fault) => Err(ControlError::TransportError(fault.message)),
        }
    }

    /// Whether a refresh pass must go on to query the association: only
    /// after the enablement answer confirmed an enabled radio.  A disabled
    /// radio or a failed query short-circuits the pass and the association
    /// is not asked for.
    pub fn info_needed(status: &Result<bool, ControlError>) -> (r: bool)
        ensures
            r == (status is Ok && status->Ok_0),
    {
        match status {
            Ok(enabled) => *enabled,
            Err(_) => false,
        }
    }

    /// Whether a refresh pass must go on to list the saved profiles: only
    /// a failed enablement query cuts the pass short; a radio that is
    /// merely off still has its profiles refreshed.
    pub fn profiles_needed(status: &Result<bool, ControlError>) -> (r: bool)
        ensures
            r == (status is Ok),
    {
        match status {
            Ok(_) => true,
            Err(_) => false,
        }
    }

    /// Reads the outcome of a current-association query.  The service
    /// answering with no association is
    /// [`ControlError::NotConnectedError`], kept distinct from an
    /// unreachable service so that callers can choose their wording.
    pub fn interpret_info(
        outcome: Result<Option<WirelessInfoResponse>, TransportFault>,
    ) -> (r: Result<WirelessInfoResponse, ControlError>)
        ensures
            (outcome is Ok && outcome->Ok_0 is Some) ==> r is Ok
                && r->Ok_0@ == outcome->Ok_0->0@,
            (outcome is Ok && outcome->Ok_0 is None) ==> r is Err
                && r->Err_0 is NotConnectedError,
            outcome is Err ==> r is Err && r->Err_0 is TransportError
                && r->Err_0->TransportError_0@ == outcome->Err_0.message@,
    {
        match outcome {
            Ok(Option::Some(info)) => Ok(info),
            Ok(Option::None) => Err(ControlError::NotConnectedError),
            Err(fault) => Err(ControlError::TransportError(fault.message)),
        }
    }

    /// Reads the outcome of a scan.  The entries and their order are kept
    /// exactly as the service reported them.
    pub fn interpret_scan(
        outcome: Result<Vec<WirelessInfoResponse>, TransportFault>,
    ) -> (r: Result<WirelessScanListResponse, ControlError>)
        ensures
            outcome is Ok ==> r is Ok
                && r->Ok_0@ == info_views(outcome->Ok_0@),
            outcome is Err ==> r is Err && r->Err_0 is TransportError
                && r->Err_0->TransportError_0@ == outcome->Err_0.message@,
    {
        match outcome {
            Ok(entries) => Ok(WirelessScanListResponse { wireless_network: entries }),
            Err(fault) => Err(ControlError::TransportError(fault.message)),
        }
    }

    /// Reads the outcome of a saved-profiles query, keeping every profile
    /// and their order.
    pub fn interpret_known_networks(
        outcome: Result<Vec<KnownNetworkResponse>, TransportFault>,
    ) -> (r: Result<KnownNetworkListResponse, ControlError>)
        ensures
            outcome is Ok ==> r is Ok
                && r->Ok_0@ == known_views(outcome->Ok_0@),
            outcome is Err ==> r is Err && r->Err_0 is TransportError
                && r->Err_0->TransportError_0@ == outcome->Err_0.message@,
    {
        match outcome {
            Ok(profiles) => Ok(KnownNetworkListResponse { known_network: profiles }),
            Err(fault) => Err(ControlError::TransportError(fault.message)),
        }
    }

    /// Reads the outcome of a connection attempt.  A rejection becomes
    /// [`ControlError::ConnectError`] wrapping the underlying reason, which
    /// is never swallowed.
    pub fn interpret_connect(outcome: Result<(), TransportFault>) -> (r: Result<
        (),
        ControlError,
    >)
        ensures
            outcome is Ok ==> r is Ok,
            outcome is Err ==> r is Err && r->Err_0 is ConnectError
                && r->Err_0->ConnectError_0@ == outcome->Err_0.message@,
    {
        match outcome {
            Ok(unit) => Ok(unit),
            Err(fault) => Err(ControlError::ConnectError(fault.message)),
        }
    }

    /// Reads the outcome of a disconnect or select request that already
    /// passed identifier validation.
    pub fn interpret_network_op(outcome: Result<(), TransportFault>) -> (r: Result<
        (),
        ControlError,
    >)
        ensures
            outcome is Ok ==> r is Ok,
            outcome is Err ==> r is Err && r->Err_0 is TransportError
                && r->Err_0->TransportError_0@ == outcome->Err_0.message@,
    {
        match outcome {
            Ok(unit) => Ok(unit),
            Err(fault) => Err(ControlError::TransportError(fault.message)),
        }
    }

    /// Reads the outcome of an enable request.  Any backend success —
    /// including enabling a radio that was already on — reports `true`;
    /// enabling twice is no error.
    pub fn interpret_enable(outcome: Result<(), TransportFault>) -> (r: Result<
        bool,
        ControlError,
    >)
        ensures
            outcome is Ok ==> r is Ok && r->Ok_0 == true,
            outcome is Err ==> r is Err && r->Err_0 is TransportError
                && r->Err_0->TransportError_0@ == outcome->Err_0.message@,
    {
        match outcome {
            Ok(_) => Ok(true),
            Err(fault) => Err(ControlError::TransportError(fault.message)),
        }
    }

    /// Reads the outcome of a disable request; any backend success reports
    /// `true`, also for a radio that was already off.
    pub fn interpret_disable(outcome: Result<(), TransportFault>) -> (r: Result<
        bool,
        ControlError,
    >)
        ensures
            outcome is Ok ==> r is Ok && r->Ok_0 == true,
            outcome is Err ==> r is Err && r->Err_0 is TransportError
                && r->Err_0->TransportError_0@ == outcome->Err_0.message@,
    {
        match outcome {
            Ok(_) => Ok(true),
            Err(fault) => Err(ControlError::TransportError(fault.message)),
        }
    }
}

/// Status classification used by shells that show the wireless state as an
/// icon: off, or connected within a signal quality band.
pub struct WirelessService {}

impl WirelessService {
    /// Places a signal strength in dBm into its quality band: at or below
    /// −80 dBm is low, above that up to −60 dBm weak, above that up to
    /// −40 dBm good, anything stronger strong.
    pub fn classify_signal(signal: i32) -> (r: WirelessConnectedState)
        ensures
            signal <= -80 ==> r == WirelessConnectedState::Low,
            -80 < signal <= -60 ==> r == WirelessConnectedState::Weak,
            -60 < signal <= -40 ==> r == WirelessConnectedState::Good,
            -40 < signal ==> r == WirelessConnectedState::Strong,
    {
        if signal <= -80 {
            WirelessConnectedState::Low
        } else if signal <= -60 {
            WirelessConnectedState::Weak
        } else if signal <= -40 {
            WirelessConnectedState::Good
        } else {
            WirelessConnectedState::Strong
        }
    }

    /// Reconciles an enablement answer and an association answer into the
    /// displayed status.  A disabled radio is `Off` whatever the
    /// association says; an enabled one is `Connected` in the band of the
    /// reported signal.  The caller queries the association only when the
    /// radio is on and must hand over a numeric signal, as the underlying
    /// reports provide.
    pub fn get_wireless_status(wireless_on: bool, info: &WirelessInfoResponse) -> (r:
        WirelessStatus)
        requires
            wireless_on ==> is_signed_numeral(info.signal@)
                && i32::MIN <= signed_value(info.signal@) <= i32::MAX,
        ensures
            !wireless_on ==> r == WirelessStatus::Off,
            wireless_on ==> r is Connected,
            wireless_on ==> {
                let s = signed_value(info.signal@);
                &&& s <= -80 ==> r == WirelessStatus::Connected(WirelessConnectedState::Low)
                &&& -80 < s <= -60 ==> r == WirelessStatus::Connected(
                    WirelessConnectedState::Weak,
                )
                &&& -60 < s <= -40 ==> r == WirelessStatus::Connected(
                    WirelessConnectedState::Good,
                )
                &&& -40 < s ==> r == WirelessStatus::Connected(WirelessConnectedState::Strong)
            },
    {
        if !wireless_on {
            return WirelessStatus::Off;
        }
        let parsed = parse_i32_str(info.signal.as_str());
        match parsed {
            Option::Some(signal) => WirelessStatus::Connected(
                Self::classify_signal(signal),
            ),
            Option::None => {
                proof {
                    assert(false);
                }
                WirelessStatus::Off
            },
        }
    }
}

} // verus!
