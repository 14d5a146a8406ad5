//! Data model of the wireless subsystem.
//!
//! The response types mirror what travels over the process-to-process bus:
//! the currently associated network, scan listings, saved network profiles
//! and the change-notification event.  Each carries a mathematical view so
//! that contracts can speak about its contents.  The error taxonomy keeps
//! transport failures, absence of an association, connection rejections and
//! malformed identifiers apart.

use vstd::prelude::*;

verus! {

/// Mathematical view of [`WirelessInfoResponse`].
pub ghost struct WirelessInfoView {
    pub mac: Seq<char>,
    pub frequency: Seq<char>,
    pub signal: Seq<char>,
    pub flags: Seq<char>,
    pub name: Seq<char>,
}

/// The currently associated network, or one visible entry of a scan:
/// hardware address, radio frequency, signal strength in dBm (serialized as
/// a string), capability flags and the network name.
#[derive(Debug, Clone)]
pub struct WirelessInfoResponse {
    pub mac: String,
    pub frequency: String,
    pub signal: String,
    pub flags: String,
    pub name: String,
}

impl View for WirelessInfoResponse {
    type V = WirelessInfoView;

    open spec fn view(&self) -> WirelessInfoView {
        WirelessInfoView {
            mac: self.mac@,
            frequency: self.frequency@,
            signal: self.signal@,
            flags: self.flags@,
            name: self.name@,
        }
    }
}

impl Default for WirelessInfoResponse {
    /// Empty strings in every field.
    fn default() -> (r: Self)
        ensures
            r@.mac.len() == 0,
            r@.frequency.len() == 0,
            r@.signal.len() == 0,
            r@.flags.len() == 0,
            r@.name.len() == 0,
    {
        WirelessInfoResponse {
            mac: String::new(),
            frequency: String::new(),
            signal: String::new(),
            flags: String::new(),
            name: String::new(),
        }
    }
}

/// The views of a sequence of scan entries.
pub open spec fn info_views(v: Seq<WirelessInfoResponse>) -> Seq<WirelessInfoView> {
    v.map_values(|w: WirelessInfoResponse| w@)
}

/// Networks currently visible over the air.  The order is the order the
/// scan reported; duplicates by name are possible (several base stations
/// may serve one network).
#[derive(Debug, Clone)]
pub struct WirelessScanListResponse {
    pub wireless_network: Vec<WirelessInfoResponse>,
}

impl View for WirelessScanListResponse {
    type V = Seq<WirelessInfoView>;

    open spec fn view(&self) -> Seq<WirelessInfoView> {
        info_views(self.wireless_network@)
    }
}

/// Mathematical view of [`KnownNetworkResponse`].
pub ghost struct KnownNetworkView {
    pub network_id: Seq<char>,
    pub ssid: Seq<char>,
    pub flags: Seq<char>,
}

/// A saved network profile held by the underlying network service.  The
/// identifier is only valid against the service's current configuration
/// store and must be re-fetched before each use.
#[derive(Debug, Clone)]
pub struct KnownNetworkResponse {
    pub network_id: String,
    pub ssid: String,
    pub flags: String,
}

impl View for KnownNetworkResponse {
    type V = KnownNetworkView;

    open spec fn view(&self) -> KnownNetworkView {
        KnownNetworkView {
            network_id: self.network_id@,
            ssid: self.ssid@,
            flags: self.flags@,
        }
    }
}

/// The views of a sequence of saved profiles.
pub open spec fn known_views(v: Seq<KnownNetworkResponse>) -> Seq<KnownNetworkView> {
    v.map_values(|k: KnownNetworkResponse| k@)
}

/// The saved network profiles, as listed by the underlying service.
#[derive(Debug, Clone)]
pub struct KnownNetworkListResponse {
    pub known_network: Vec<KnownNetworkResponse>,
}

impl View for KnownNetworkListResponse {
    type V = Seq<KnownNetworkView>;

    open spec fn view(&self) -> Seq<KnownNetworkView> {
        known_views(self.known_network@)
    }
}

/// Mathematical view of [`WirelessNotificationEvent`].
pub ghost struct NotificationView {
    pub signal_strength: Seq<char>,
    pub is_connected: bool,
    pub is_enabled: bool,
}

/// A diff-triggered snapshot of the wireless state, emitted on the bus only
/// when some field differs from the previously emitted event.
#[derive(Debug, Clone)]
pub struct WirelessNotificationEvent {
    pub signal_strength: String,
    pub is_connected: bool,
    pub is_enabled: bool,
}

impl View for WirelessNotificationEvent {
    type V = NotificationView;

    open spec fn view(&self) -> NotificationView {
        NotificationView {
            signal_strength: self.signal_strength@,
            is_connected: self.is_connected,
            is_enabled: self.is_enabled,
        }
    }
}

/// A failure of the bus transport itself: the remote service could not be
/// reached or did not answer.  Carries the transport's own description.
#[derive(Debug, Clone)]
pub struct TransportFault {
    pub message: String,
}

/// Domain errors of the wireless control client.
#[derive(Debug, Clone)]
pub enum ControlError {
    /// The bus or the service behind it is unreachable.
    TransportError(String),
    /// Information about the current association was asked for while no
    /// association exists.
    NotConnectedError,
    /// A connection attempt was rejected; the underlying reason is kept for
    /// logs.
    ConnectError(String),
    /// A network identifier did not parse as a non-negative integer; no bus
    /// call was attempted.
    InvalidIdError,
    /// A service-side error surfaced across the process boundary, carrying a
    /// human-readable message only.
    RemoteFault(String),
}

/// Signal quality bands of a connected network.
#[derive(Debug, Clone, Copy, PartialEq, Eq, Structural)]
pub enum WirelessConnectedState {
    Low,
    Weak,
    Good,
    Strong,
}

/// The radio's condition as shown by status surfaces: off, or connected
/// with a signal quality band.
#[derive(Debug, Clone, Copy, PartialEq, Eq, Structural)]
pub enum WirelessStatus {
    Off,
    Connected(WirelessConnectedState),
}

} // verus!
