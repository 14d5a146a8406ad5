//! The control client, the service handlers and the notification loop,
//! driven against a mock backend.

use mechanix_wireless::control_client::{WirelessControlClient, WirelessService};
use mechanix_wireless::wireless_service::{NotifierState, WirelessBusInterface};
use mechanix_wireless::wireless_types::{
    ControlError, TransportFault, WirelessConnectedState, WirelessInfoResponse,
    WirelessStatus,
};

/// A mock bus backend that counts how often it was reached.
struct MockTransport {
    enabled: bool,
    info: Option<WirelessInfoResponse>,
    calls: u32,
}

impl MockTransport {
    fn new(enabled: bool, info: Option<WirelessInfoResponse>) -> Self {
        MockTransport {
            enabled,
            info,
            calls: 0,
        }
    }

    fn status(&mut self) -> Result<bool, TransportFault> {
        self.calls += 1;
        Ok(self.enabled)
    }

    fn info(&mut self) -> Result<Option<WirelessInfoResponse>, TransportFault> {
        self.calls += 1;
        Ok(self.info.clone())
    }

    fn enable(&mut self) -> Result<(), TransportFault> {
        self.calls += 1;
        self.enabled = true;
        Ok(())
    }

    fn disable(&mut self) -> Result<(), TransportFault> {
        self.calls += 1;
        self.enabled = false;
        Ok(())
    }

    fn disconnect(&mut self, _network_id: usize) -> Result<(), TransportFault> {
        self.calls += 1;
        Ok(())
    }
}

fn sample_info(signal: &str) -> WirelessInfoResponse {
    WirelessInfoResponse {
        mac: "aa:bb:cc:dd:ee:ff".to_string(),
        frequency: "2437".to_string(),
        signal: signal.to_string(),
        flags: "[WPA2-PSK-CCMP][ESS]".to_string(),
        name: "HomeNet".to_string(),
    }
}

#[test]
fn parse_network_id_accepts_digits() {
    let r = WirelessControlClient::parse_network_id("42");
    assert_eq!(r.unwrap(), 42);
    let r = WirelessControlClient::parse_network_id("0");
    assert_eq!(r.unwrap(), 0);
    // A leading plus reads as the unsigned parsers read it.
    let r = WirelessControlClient::parse_network_id("+7");
    assert_eq!(r.unwrap(), 7);
}

#[test]
fn parse_network_id_rejects_garbage() {
    assert!(matches!(
        WirelessControlClient::parse_network_id("not-a-number"),
        Err(ControlError::InvalidIdError)
    ));
    assert!(matches!(
        WirelessControlClient::parse_network_id(""),
        Err(ControlError::InvalidIdError)
    ));
    assert!(matches!(
        WirelessControlClient::parse_network_id("-3"),
        Err(ControlError::InvalidIdError)
    ));
    assert!(matches!(
        WirelessControlClient::parse_network_id("+"),
        Err(ControlError::InvalidIdError)
    ));
    assert!(matches!(
        WirelessControlClient::parse_network_id("99999999999999999999999"),
        Err(ControlError::InvalidIdError)
    ));
}

#[test]
fn disconnect_invalid_id_fails_before_any_bus_call() {
    let mut bus = MockTransport::new(true, None);
    // The disconnect flow: validate first, reach the bus only with a parsed id.
    let outcome = match WirelessControlClient::parse_network_id("not-a-number") {
        Ok(id) => WirelessControlClient::interpret_network_op(bus.disconnect(id)),
        Err(e) => Err(e),
    };
    assert!(matches!(outcome, Err(ControlError::InvalidIdError)));
    assert_eq!(bus.calls, 0);
}

#[test]
fn disconnect_valid_id_reaches_the_bus_once() {
    let mut bus = MockTransport::new(true, None);
    let outcome = match WirelessControlClient::parse_network_id("3") {
        Ok(id) => WirelessControlClient::interpret_network_op(bus.disconnect(id)),
        Err(e) => Err(e),
    };
    assert!(outcome.is_ok());
    assert_eq!(bus.calls, 1);
}

#[test]
fn enable_when_already_enabled_reports_true() {
    let mut bus = MockTransport::new(true, None);
    let r = WirelessControlClient::interpret_enable(bus.enable());
    assert_eq!(r.unwrap(), true);
    let status = WirelessControlClient::interpret_status(bus.status());
    assert_eq!(status.unwrap(), true);
}

#[test]
fn disable_reports_true_and_status_follows() {
    let mut bus = MockTransport::new(true, None);
    let r = WirelessControlClient::interpret_disable(bus.disable());
    assert_eq!(r.unwrap(), true);
    let status = WirelessControlClient::interpret_status(bus.status());
    assert_eq!(status.unwrap(), false);
}

#[test]
fn status_transport_failure_is_transport_error() {
    let r = WirelessControlClient::interpret_status(Err(TransportFault {
        message: "bus down".to_string(),
    }));
    match r {
        Err(ControlError::TransportError(msg)) => assert_eq!(msg, "bus down"),
        other => panic!("unexpected: {:?}", other),
    }
}

#[test]
fn info_distinguishes_not_connected_from_unreachable() {
    let connected = WirelessControlClient::interpret_info(Ok(Some(sample_info("-55"))));
    assert_eq!(connected.unwrap().signal, "-55");

    let idle = WirelessControlClient::interpret_info(Ok(None));
    assert!(matches!(idle, Err(ControlError::NotConnectedError)));

    let down = WirelessControlClient::interpret_info(Err(TransportFault {
        message: "no reply".to_string(),
    }));
    assert!(matches!(down, Err(ControlError::TransportError(_))));
}

#[test]
fn connect_rejection_preserves_the_reason() {
    let r = WirelessControlClient::interpret_connect(Err(TransportFault {
        message: "auth failure".to_string(),
    }));
    match r {
        Err(ControlError::ConnectError(msg)) => assert_eq!(msg, "auth failure"),
        other => panic!("unexpected: {:?}", other),
    }
}

#[test]
fn scan_keeps_entries_and_order() {
    let entries = vec![sample_info("-55"), sample_info("-71")];
    let r = WirelessControlClient::interpret_scan(Ok(entries)).unwrap();
    assert_eq!(r.wireless_network.len(), 2);
    assert_eq!(r.wireless_network[0].signal, "-55");
    assert_eq!(r.wireless_network[1].signal, "-71");
}

#[test]
fn classify_signal_bands() {
    assert_eq!(
        WirelessService::classify_signal(-90),
        WirelessConnectedState::Low
    );
    assert_eq!(
        WirelessService::classify_signal(-80),
        WirelessConnectedState::Low
    );
    assert_eq!(
        WirelessService::classify_signal(-79),
        WirelessConnectedState::Weak
    );
    assert_eq!(
        WirelessService::classify_signal(-60),
        WirelessConnectedState::Weak
    );
    assert_eq!(
        WirelessService::classify_signal(-59),
        WirelessConnectedState::Good
    );
    assert_eq!(
        WirelessService::classify_signal(-40),
        WirelessConnectedState::Good
    );
    assert_eq!(
        WirelessService::classify_signal(-39),
        WirelessConnectedState::Strong
    );
}

#[test]
fn wireless_status_off_short_circuits() {
    let status = WirelessService::get_wireless_status(false, &sample_info("-55"));
    assert_eq!(status, WirelessStatus::Off);
}

#[test]
fn wireless_status_connected_uses_the_signal_band() {
    let status = WirelessService::get_wireless_status(true, &sample_info("-55"));
    assert_eq!(
        status,
        WirelessStatus::Connected(WirelessConnectedState::Good)
    );
}

#[test]
fn service_handler_fault_messages() {
    let fault = || TransportFault {
        message: "backend gone".to_string(),
    };
    let iface = WirelessBusInterface::new("/var/run/wpa".to_string());
    assert_eq!(iface.path, "/var/run/wpa");

    match iface.disconnect_request("seven") {
        Err(ControlError::RemoteFault(m)) => assert_eq!(m, "Failed to parse network_id"),
        other => panic!("unexpected: {:?}", other),
    }
    assert_eq!(iface.disconnect_request("7").unwrap(), 7);
    match WirelessBusInterface::disconnect_complete(Err(fault())) {
        Err(ControlError::RemoteFault(m)) => assert_eq!(m, "Failed to disconnect Wifi"),
        other => panic!("unexpected: {:?}", other),
    }
    match iface.select_network_request("x") {
        Err(ControlError::RemoteFault(m)) => assert_eq!(m, "Failed to parse network_id"),
        other => panic!("unexpected: {:?}", other),
    }
    match WirelessBusInterface::select_network_complete(Err(fault())) {
        Err(ControlError::RemoteFault(m)) => assert_eq!(m, "Failed to select network"),
        other => panic!("unexpected: {:?}", other),
    }
    match WirelessBusInterface::connect_complete(Err(fault())) {
        Err(ControlError::RemoteFault(m)) => assert_eq!(m, "Failed to connect Wifi"),
        other => panic!("unexpected: {:?}", other),
    }
    match WirelessBusInterface::info_complete(Err(fault())) {
        Err(ControlError::RemoteFault(m)) => assert_eq!(m, "Failed to get Wifi info"),
        other => panic!("unexpected: {:?}", other),
    }
    match WirelessBusInterface::scan_complete(Err(fault())) {
        Err(ControlError::RemoteFault(m)) => assert_eq!(m, "Failed to scan Wifi"),
        other => panic!("unexpected: {:?}", other),
    }
    match WirelessBusInterface::known_networks_complete(Err(fault())) {
        Err(ControlError::RemoteFault(m)) => assert_eq!(m, "Failed to get known networks"),
        other => panic!("unexpected: {:?}", other),
    }
    match WirelessBusInterface::enable_complete(Err(fault())) {
        Err(ControlError::RemoteFault(m)) => assert_eq!(m, "Failed to enable Wifi"),
        other => panic!("unexpected: {:?}", other),
    }
    match WirelessBusInterface::disable_complete(Err(fault())) {
        Err(ControlError::RemoteFault(m)) => assert_eq!(m, "Failed to disable Wifi"),
        other => panic!("unexpected: {:?}", other),
    }
    assert_eq!(WirelessBusInterface::enable_complete(Ok(())).unwrap(), true);
    assert_eq!(WirelessBusInterface::disable_complete(Ok(())).unwrap(), true);
}

#[test]
fn notification_loop_emits_once_per_distinct_state() {
    // Poll sequence A, A, A, B, B, A: exactly three notifications fire —
    // the initial A, the change to B, the change back to A.
    let mut notifier = NotifierState::new();
    let info_a = sample_info("-50");

    let mut emitted = 0;
    let polls: [Option<&WirelessInfoResponse>; 6] = [
        Some(&info_a),
        Some(&info_a),
        Some(&info_a),
        None,
        None,
        Some(&info_a),
    ];
    for info in polls {
        if notifier.observe(true, info).is_some() {
            emitted += 1;
        }
    }
    assert_eq!(emitted, 3);
}

#[test]
fn observe_all_collects_one_event_per_transition() {
    let mut notifier = NotifierState::new();
    let a = || Some(sample_info("-50"));
    let polls = vec![
        (true, a()),
        (true, a()),
        (true, a()),
        (true, None),
        (true, None),
        (true, a()),
    ];
    let emitted = notifier.observe_all(&polls);
    assert_eq!(emitted.len(), 3);
    assert!(emitted[0].is_connected);
    assert_eq!(emitted[0].signal_strength, "-50");
    assert!(!emitted[1].is_connected);
    assert_eq!(emitted[1].signal_strength, "");
    assert!(emitted[2].is_connected);

    // A second run over an unchanged state emits nothing at all.
    let emitted = notifier.observe_all(&vec![(true, a()), (true, a())]);
    assert!(emitted.is_empty());
}

#[test]
fn notification_event_carries_the_observed_triple() {
    let mut notifier = NotifierState::new();
    let info = sample_info("-62");

    let event = notifier.observe(true, Some(&info)).unwrap();
    assert!(event.is_enabled);
    assert!(event.is_connected);
    assert_eq!(event.signal_strength, "-62");

    // Absorbed association failure while enabled: connected goes false and
    // the signal reads empty, and the change is emitted once.
    let event = notifier.observe(true, None).unwrap();
    assert!(event.is_enabled);
    assert!(!event.is_connected);
    assert_eq!(event.signal_strength, "");
    assert!(notifier.observe(true, None).is_none());

    // Radio off: one more transition.
    let event = notifier.observe(false, None).unwrap();
    assert!(!event.is_enabled);
    assert!(!event.is_connected);
    assert_eq!(event.signal_strength, "");
}

#[test]
fn notification_loop_driven_from_a_mock_backend() {
    let mut bus = MockTransport::new(true, Some(sample_info("-55")));
    let mut notifier = NotifierState::new();

    // One tick of the loop as the service runs it: status, then info only
    // while enabled, then the dedup decision.
    let mut tick = |bus: &mut MockTransport, notifier: &mut NotifierState| {
        let enabled = bus.status().unwrap_or(false);
        let info = if enabled {
            bus.info().unwrap_or(None)
        } else {
            None
        };
        notifier.observe(enabled, info.as_ref())
    };

    assert!(tick(&mut bus, &mut notifier).is_some());
    assert!(tick(&mut bus, &mut notifier).is_none());
    bus.info = None;
    assert!(tick(&mut bus, &mut notifier).is_some());
    bus.enabled = false;
    assert!(tick(&mut bus, &mut notifier).is_some());
    assert!(tick(&mut bus, &mut notifier).is_none());
}
