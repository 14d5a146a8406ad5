//! The client-side reactive model: refresh application, last-known-good on
//! failure, name resolution and the availability partition.

use mechanix_wireless::control_client::WirelessControlClient;
use mechanix_wireless::wireless_model::{ToggleIntent, WirelessModel};
use mechanix_wireless::wireless_types::{
    ControlError, KnownNetworkResponse, WirelessInfoResponse, WirelessScanListResponse,
};

fn info(name: &str, signal: &str, flags: &str) -> WirelessInfoResponse {
    WirelessInfoResponse {
        mac: "aa:bb:cc:dd:ee:ff".to_string(),
        frequency: "2437".to_string(),
        signal: signal.to_string(),
        flags: flags.to_string(),
        name: name.to_string(),
    }
}

fn known(id: &str, ssid: &str) -> KnownNetworkResponse {
    KnownNetworkResponse {
        network_id: id.to_string(),
        ssid: ssid.to_string(),
        flags: "[WPA2-PSK-CCMP]".to_string(),
    }
}

/// A mock remote side that counts forget/select calls.
struct MockRemote {
    calls: u32,
}

#[test]
fn update_applies_a_confirmed_snapshot() {
    // The mock service reports enabled with an association at -55 dBm.
    let mut model = WirelessModel::new();
    model.apply_update(
        Ok(true),
        Some(Ok(info("HomeNet", "-55", "[WPA2-PSK-CCMP][ESS]"))),
        Some(Ok(vec![known("0", "HomeNet")])),
    );
    assert!(model.is_enabled);
    let connected = model.connected_network.as_ref().unwrap();
    assert_eq!(connected.name, "HomeNet");
    assert_eq!(connected.signal, "-55");
    assert_eq!(model.known_networks.len(), 1);
}

#[test]
fn update_with_radio_off_clears_the_connection() {
    // The mock service reports disabled; the association is never queried.
    let mut model = WirelessModel::new();
    model.apply_update(
        Ok(true),
        Some(Ok(info("HomeNet", "-55", ""))),
        None,
    );
    assert!(model.connected_network.is_some());

    let mut info_queries = 0;
    let enabled_outcome: Result<bool, ControlError> = Ok(false);
    let info_outcome = if WirelessControlClient::info_needed(&enabled_outcome) {
        info_queries += 1;
        Some(Ok(info("HomeNet", "-55", "")))
    } else {
        None
    };
    model.apply_update(enabled_outcome, info_outcome, None);
    assert_eq!(info_queries, 0);
    assert!(!model.is_enabled);
    assert!(model.connected_network.is_none());
}

#[test]
fn update_failure_keeps_the_last_known_good_state() {
    let mut model = WirelessModel::new();
    model.apply_update(
        Ok(true),
        Some(Ok(info("HomeNet", "-55", ""))),
        Some(Ok(vec![known("0", "HomeNet")])),
    );

    model.apply_update(
        Err(ControlError::TransportError("bus down".to_string())),
        None,
        None,
    );
    assert!(model.is_enabled);
    let connected = model.connected_network.as_ref().unwrap();
    assert_eq!(connected.name, "HomeNet");
    assert_eq!(connected.signal, "-55");
    assert_eq!(model.known_networks.len(), 1);
    assert_eq!(model.known_networks[0].ssid, "HomeNet");
}

#[test]
fn update_confirmed_not_connected_clears_while_transport_failure_keeps() {
    let mut model = WirelessModel::new();
    model.apply_update(Ok(true), Some(Ok(info("HomeNet", "-55", ""))), None);

    // A transport failure on the association query keeps the cached value.
    model.apply_update(
        Ok(true),
        Some(Err(ControlError::TransportError("no reply".to_string()))),
        None,
    );
    assert!(model.connected_network.is_some());

    // A confirmed "not connected" clears it.
    model.apply_update(Ok(true), Some(Err(ControlError::NotConnectedError)), None);
    assert!(model.connected_network.is_none());
}

#[test]
fn scan_failure_keeps_the_previous_listing() {
    let mut model = WirelessModel::new();
    model.apply_scan(Ok(WirelessScanListResponse {
        wireless_network: vec![info("HomeNet", "-55", ""), info("GuestNet", "-70", "")],
    }));
    assert_eq!(model.scan_result.len(), 2);

    model.apply_scan(Err(ControlError::TransportError("bus down".to_string())));
    assert_eq!(model.scan_result.len(), 2);
    assert_eq!(model.scan_result[0].name, "HomeNet");
    assert_eq!(model.scan_result[1].name, "GuestNet");
}

#[test]
fn toggle_follows_the_cached_enablement() {
    let mut model = WirelessModel::new();
    assert_eq!(model.toggle_intent(), ToggleIntent::Enable);
    model.apply_update(Ok(true), None, None);
    assert_eq!(model.toggle_intent(), ToggleIntent::Disable);
}

#[test]
fn forget_unknown_ssid_is_a_silent_no_op() {
    let mut model = WirelessModel::new();
    model.apply_update(
        Ok(true),
        None,
        Some(Ok(vec![known("0", "HomeNet"), known("1", "OfficeNet")])),
    );

    let mut remote = MockRemote { calls: 0 };
    let before_known: Vec<String> = model
        .known_networks
        .iter()
        .map(|k| k.ssid.clone())
        .collect();

    // The forget flow: resolve the name first, reach the remote side only
    // with an identifier.
    if let Some(_id) = model.forget_saved_network("nonexistent-ssid") {
        remote.calls += 1;
    }
    assert_eq!(remote.calls, 0);
    let after_known: Vec<String> = model
        .known_networks
        .iter()
        .map(|k| k.ssid.clone())
        .collect();
    assert_eq!(before_known, after_known);
    assert!(model.is_enabled);
}

#[test]
fn forget_known_ssid_resolves_the_first_matching_profile() {
    let mut model = WirelessModel::new();
    model.apply_update(
        Ok(true),
        None,
        Some(Ok(vec![
            known("0", "HomeNet"),
            known("1", "OfficeNet"),
            known("2", "OfficeNet"),
        ])),
    );
    assert_eq!(model.forget_saved_network("OfficeNet").unwrap(), "1");
    assert_eq!(model.resolve_network_id("HomeNet").unwrap(), "0");
    assert!(model.resolve_network_id("CafeNet").is_none());
}

#[test]
fn partition_excludes_the_current_association_from_both_listings() {
    // Three networks visible, one of them a saved profile marked current:
    // it lands in neither listing; saved keeps the other profiles, unsaved
    // keeps the scan entries no profile names.
    let mut model = WirelessModel::new();
    model.apply_update(
        Ok(true),
        None,
        Some(Ok(vec![
            known("0", "HomeNet"),
            known("1", "OfficeNet"),
            known("2", "CafeNet"),
        ])),
    );
    model.apply_scan(Ok(WirelessScanListResponse {
        wireless_network: vec![
            info("HomeNet", "-55", "[WPA2-PSK-CCMP][CURRENT]"),
            info("GuestNet", "-70", "[WPA2-PSK-CCMP]"),
            info("OtherNet", "-80", "[ESS]"),
        ],
    }));

    let (saved, unsaved) = model.partition_networks();
    assert_eq!(saved.len(), 2);
    assert_eq!(saved[0].ssid, "OfficeNet");
    assert_eq!(saved[1].ssid, "CafeNet");
    assert_eq!(unsaved.len(), 2);
    assert_eq!(unsaved[0].name, "GuestNet");
    assert_eq!(unsaved[1].name, "OtherNet");
}

#[test]
fn partition_drops_every_profile_naming_the_current_network() {
    // Two saved profiles share the current network's name: the partition
    // excludes both from the saved listing, so the usual one-profile
    // count arithmetic does not apply here.
    let mut model = WirelessModel::new();
    model.apply_update(
        Ok(true),
        None,
        Some(Ok(vec![
            known("0", "HomeNet"),
            known("1", "HomeNet"),
            known("2", "OfficeNet"),
        ])),
    );
    model.apply_scan(Ok(WirelessScanListResponse {
        wireless_network: vec![info("HomeNet", "-55", "[WPA2-PSK-CCMP][CURRENT]")],
    }));

    let (saved, unsaved) = model.partition_networks();
    assert_eq!(saved.len(), 1);
    assert_eq!(saved[0].ssid, "OfficeNet");
    assert!(unsaved.is_empty());
}

#[test]
fn partition_without_a_current_entry_keeps_all_profiles() {
    let mut model = WirelessModel::new();
    model.apply_update(
        Ok(true),
        None,
        Some(Ok(vec![known("0", "HomeNet"), known("1", "OfficeNet")])),
    );
    model.apply_scan(Ok(WirelessScanListResponse {
        wireless_network: vec![info("HomeNet", "-55", "[WPA2-PSK-CCMP]")],
    }));

    let (saved, unsaved) = model.partition_networks();
    assert_eq!(saved.len(), 2);
    assert_eq!(unsaved.len(), 0);
}
