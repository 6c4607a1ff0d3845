use blebridge::bridge::{BleEvent, Device};
use blebridge::commands::{NativeCommand, command_response, connect_device, disconnect_device,
    echo_request, echo_response, initialize, read_rssi, set_passive_mode, start_scanning,
    stop_scanning};
use blebridge::dispatch::{bluetooth_power_warn, extract_device, on_device_new, on_device_removed,
    on_device_update, on_rssi_updated, presence_update};
use blebridge::marshal::{EncodeError, InboundStr};
use blebridge::models::EchoReq;
use blebridge::registry::{DelegateSlot, RecordingDelegate};

fn bytes(s: &str) -> InboundStr {
    InboundStr::Bytes(s.as_bytes().to_vec())
}

fn sample_device(uuid: &str) -> Device {
    extract_device(
        bytes(uuid),
        InboundStr::Null,
        InboundStr::Null,
        0,
        0,
        InboundStr::Null,
        InboundStr::Null,
        InboundStr::Null,
        InboundStr::Null,
    )
}

#[test]
fn extract_device_normalizes_fields() {
    let d = extract_device(
        bytes("UUID-1"),
        bytes("acme"),
        InboundStr::Bytes(Vec::new()),
        42,
        -60,
        InboundStr::Null,
        bytes("bl"),
        InboundStr::Bytes(Vec::new()),
        bytes("connected"),
    );
    assert_eq!(d.uuid, "UUID-1");
    assert_eq!(d.manufacture, Some("acme".to_string()));
    assert_eq!(d.model, None);
    assert_eq!(d.adv_data, 42);
    assert_eq!(d.rssi, -60);
    assert_eq!(d.mac_addr, None);
    assert_eq!(d.bl_name, Some("bl".to_string()));
    assert_eq!(d.name, None);
    assert_eq!(d.state, Some("connected".to_string()));
}

#[test]
fn extract_device_optional_fields_never_empty() {
    let d = extract_device(
        InboundStr::Null,
        InboundStr::Bytes(Vec::new()),
        bytes("m"),
        0,
        0,
        InboundStr::Bytes(Vec::new()),
        InboundStr::Null,
        bytes(""),
        InboundStr::Null,
    );
    // The uuid is carried through undecoded and unvalidated, even when empty.
    assert_eq!(d.uuid, "");
    for field in [&d.manufacture, &d.mac_addr, &d.name, &d.bl_name, &d.state] {
        if let Some(s) = field {
            assert!(!s.is_empty());
        }
    }
    assert_eq!(d.model, Some("m".to_string()));
}

#[test]
fn dispatch_before_register_drops_silently() {
    let mut slot: DelegateSlot<RecordingDelegate> = DelegateSlot::new();
    let delivered = on_device_new(
        &mut slot,
        bytes("A"),
        InboundStr::Null,
        InboundStr::Null,
        0,
        0,
        InboundStr::Null,
        InboundStr::Null,
        InboundStr::Null,
        InboundStr::Null,
    );
    assert!(!delivered);
    assert!(slot.current().is_none());
}

#[test]
fn register_replaces_previous_delegate() {
    let mut slot: DelegateSlot<RecordingDelegate> = DelegateSlot::new();
    assert_eq!(slot.register(RecordingDelegate::new()).map(|d| d.events.len()), None);
    let prev = slot.register(RecordingDelegate::new());
    // The first delegate leaves the slot untouched: nothing was delivered to it.
    let d1 = prev.expect("first delegate must be handed back");
    assert!(d1.events.is_empty());

    let delivered = bluetooth_power_warn(&mut slot);
    assert!(delivered);
    // Only the second delegate receives the event; the first recorded nothing.
    let d2 = slot.current().expect("second delegate registered");
    assert_eq!(d2.events(), &vec![BleEvent::PowerWarning]);
    assert!(d1.events.is_empty());
}

#[test]
fn dispatch_all_delivers_every_event() {
    let mut slot: DelegateSlot<RecordingDelegate> = DelegateSlot::new();
    slot.register(RecordingDelegate::new());
    let n: usize = 8;
    let mut events = Vec::new();
    for i in 0..n {
        events.push(BleEvent::NewDevice { device: sample_device(&format!("D{}", i)) });
    }
    let delivered = slot.dispatch_all(events);
    assert_eq!(delivered, n);
    let recorded = &slot.current().unwrap().events;
    assert_eq!(recorded.len(), n);
    for (i, ev) in recorded.iter().enumerate() {
        // Every delivery is fully formed: the whole record arrived intact.
        match ev {
            BleEvent::NewDevice { device } => {
                assert_eq!(device.uuid, format!("D{}", i));
                assert_eq!(device.manufacture, None);
            }
            other => panic!("unexpected event {:?}", other),
        }
    }
}

#[test]
fn dispatch_all_unregistered_drops_all() {
    let mut slot: DelegateSlot<RecordingDelegate> = DelegateSlot::new();
    let events = vec![BleEvent::PowerWarning, BleEvent::PowerWarning];
    assert_eq!(slot.dispatch_all(events), 0);
    assert!(slot.current().is_none());
}

#[test]
fn scan_scenario_duplicate_uuids_not_deduplicated() {
    // startScanning is accepted by the native layer.
    assert_eq!(start_scanning(), NativeCommand::StartScanning);
    assert!(command_response(true).success);

    let mut slot: DelegateSlot<RecordingDelegate> = DelegateSlot::new();
    slot.register(RecordingDelegate::new());
    for uuid in ["A", "B", "A"] {
        let delivered = on_device_new(
            &mut slot,
            bytes(uuid),
            InboundStr::Null,
            InboundStr::Null,
            7,
            -40,
            InboundStr::Null,
            InboundStr::Null,
            InboundStr::Null,
            InboundStr::Null,
        );
        assert!(delivered);
    }
    let recorded = &slot.current().unwrap().events;
    assert_eq!(recorded.len(), 3);
    let uuids: Vec<&str> = recorded
        .iter()
        .map(|ev| match ev {
            BleEvent::NewDevice { device } => device.uuid.as_str(),
            other => panic!("unexpected event {:?}", other),
        })
        .collect();
    assert_eq!(uuids, vec!["A", "B", "A"]);
}

#[test]
fn update_and_remove_entry_points() {
    let mut slot: DelegateSlot<RecordingDelegate> = DelegateSlot::new();
    slot.register(RecordingDelegate::new());
    assert!(on_device_update(
        &mut slot,
        bytes("X"),
        InboundStr::Null,
        InboundStr::Null,
        1,
        2,
        InboundStr::Null,
        InboundStr::Null,
        InboundStr::Null,
        bytes("connected"),
    ));
    assert!(on_device_removed(
        &mut slot,
        bytes("X"),
        InboundStr::Null,
        InboundStr::Null,
        1,
        2,
        InboundStr::Null,
        InboundStr::Null,
        InboundStr::Null,
        InboundStr::Null,
    ));
    let recorded = &slot.current().unwrap().events;
    assert_eq!(recorded.len(), 2);
    assert!(matches!(&recorded[0], BleEvent::UpdatedDevice { device } if device.uuid == "X"));
    assert!(matches!(&recorded[1], BleEvent::RemovedDevice { device } if device.uuid == "X"));
}

#[test]
fn rssi_update_forwards_primitives() {
    let mut slot: DelegateSlot<RecordingDelegate> = DelegateSlot::new();
    slot.register(RecordingDelegate::new());
    assert!(on_rssi_updated(&mut slot, -55, -50, true));
    assert_eq!(
        slot.current().unwrap().events(),
        &vec![BleEvent::RssiUpdated { rssi: -55, estimated_rssi: -50, active: true }]
    );
}

#[test]
fn presence_null_reason_drops_event() {
    let mut slot: DelegateSlot<RecordingDelegate> = DelegateSlot::new();
    slot.register(RecordingDelegate::new());
    let delivered = presence_update(&mut slot, true, InboundStr::Null);
    assert!(!delivered);
    assert!(slot.current().unwrap().events.is_empty());
}

#[test]
fn presence_with_reason_is_delivered() {
    let mut slot: DelegateSlot<RecordingDelegate> = DelegateSlot::new();
    slot.register(RecordingDelegate::new());
    assert!(presence_update(&mut slot, false, bytes("radio off")));
    assert_eq!(
        slot.current().unwrap().events(),
        &vec![BleEvent::PresenceUpdated { presence: false, reason: "radio off".to_string() }]
    );
}

#[test]
fn presence_empty_reason_is_delivered_unnormalized() {
    // A non-null empty reason is delivered as the empty string: the reason is
    // not an optional record field.
    let mut slot: DelegateSlot<RecordingDelegate> = DelegateSlot::new();
    slot.register(RecordingDelegate::new());
    assert!(presence_update(&mut slot, true, InboundStr::Bytes(Vec::new())));
    assert_eq!(
        slot.current().unwrap().events(),
        &vec![BleEvent::PresenceUpdated { presence: true, reason: String::new() }]
    );
}

#[test]
fn connect_rejected_is_data_not_error() {
    let cmd = connect_device("X").expect("plain identifier must encode");
    match &cmd {
        NativeCommand::ConnectDevice { identifier } => {
            assert_eq!(identifier.bytes().as_slice(), b"X");
        }
        other => panic!("unexpected command {:?}", other),
    }
    // The native layer rejects the request; no event follows and the
    // caller-visible result is plain data.
    let mut slot: DelegateSlot<RecordingDelegate> = DelegateSlot::new();
    slot.register(RecordingDelegate::new());
    let resp = command_response(false);
    assert!(!resp.success);
    assert!(slot.current().unwrap().events.is_empty());
}

#[test]
fn command_identifiers_with_nul_are_rejected() {
    assert_eq!(connect_device("a\0b"), Err(EncodeError::InteriorNul));
    assert_eq!(disconnect_device("a\0b"), Err(EncodeError::InteriorNul));
    assert_eq!(read_rssi("a\0b"), Err(EncodeError::InteriorNul));
}

#[test]
fn command_builders() {
    assert_eq!(initialize(), NativeCommand::Initialize);
    assert_eq!(stop_scanning(), NativeCommand::StopScanning);
    assert_eq!(set_passive_mode(true), NativeCommand::SetPassiveMode { mode: true });
    match disconnect_device("dev-7").unwrap() {
        NativeCommand::DisconnectDevice { identifier } => {
            assert_eq!(identifier.bytes().as_slice(), b"dev-7");
        }
        other => panic!("unexpected command {:?}", other),
    }
    match read_rssi("dev-7").unwrap() {
        NativeCommand::ReadRssi { identifier } => {
            assert_eq!(identifier.bytes().as_slice(), b"dev-7");
        }
        other => panic!("unexpected command {:?}", other),
    }
}

#[test]
fn echo_round_trip() {
    let cmd = echo_request(EchoReq { value: Some("ping!".to_string()) }).unwrap();
    match &cmd {
        NativeCommand::Echo { value } => assert_eq!(value.bytes().as_slice(), b"ping!"),
        other => panic!("unexpected command {:?}", other),
    }
    let resp = echo_response(InboundStr::Bytes(b"ping!".to_vec()));
    assert_eq!(resp.value, Some("ping!".to_string()));
}

#[test]
fn echo_absent_value_echoes_empty() {
    let cmd = echo_request(EchoReq { value: None }).unwrap();
    match &cmd {
        NativeCommand::Echo { value } => assert_eq!(value.bytes().len(), 0),
        other => panic!("unexpected command {:?}", other),
    }
    let resp = echo_response(InboundStr::Null);
    assert_eq!(resp.value, Some(String::new()));
}
