use grapple_hook::HookError;
use grapple_hook::correlation::Domain;
use grapple_hook::correlation::begin_request;
use grapple_hook::correlation::on_timeout;
use grapple_hook::device_manager::DeviceId;
use grapple_hook::device_manager::DeviceManager;
use grapple_hook::msg::BroadcastMessage;
use grapple_hook::msg::BusId;
use grapple_hook::msg::DEVICE_ID_BROADCAST;
use grapple_hook::msg::DeviceInfoMessage;
use grapple_hook::msg::DeviceMessage;
use grapple_hook::msg::DistanceSensorMessage;
use grapple_hook::msg::Measurement;
use grapple_hook::msg::ModelId;
use grapple_hook::msg::RangingMode;
use grapple_hook::msg::Roi;
use grapple_hook::msg::TaggedMessage;
use grapple_hook::msg::complement_id_of;
use grapple_hook::node::NodeCallOutcome;
use grapple_hook::node::NodeRequest;
use grapple_hook::node::OldVersionDeviceRequest;
use grapple_hook::node::NodeResponse;
use grapple_hook::node::OldVersionDeviceResponse;
use grapple_hook::lasercan::LaserCanPendingCall;
use grapple_hook::lasercan::LaserCanRequest;
use grapple_hook::lasercan::LaserCanResponse;
use grapple_hook::lasercan::finish_call;
use grapple_hook::devices::DeviceInfo;
use grapple_hook::devices::GrappleDeviceRequest;
use grapple_hook::devices::grapple_rpc;

fn set_range_msg(device_id: u8) -> TaggedMessage {
    TaggedMessage::new(
        device_id,
        DeviceMessage::DistanceSensor(DistanceSensorMessage::SetRange(RangingMode::Long)),
    )
}

#[test]
fn complement_id_sets_ack_marker() {
    let msg = set_range_msg(5);
    let id = grapple_hook::msg::message_id_of(5, &msg.msg);
    assert!(!id.ack_flag);
    let complement = id.complement();
    assert!(complement.ack_flag);
    // The acknowledgement marker is one bit of the packed form.
    assert_eq!(complement.as_u32(), id.as_u32() | (1 << 14));
    assert_eq!(complement_id_of(5, &msg.msg), complement.as_u32());
}

#[test]
fn bus_id_packs_fields() {
    let id = BusId {
        device_type: 6,
        fragment_flag: false,
        ack_flag: false,
        api_class: 1,
        api_index: 0,
        device_id: 5,
    };
    // device_id | api_index << 6 | api_class << 10 | manufacturer << 16
    // | device_type << 24.
    assert_eq!(id.as_u32(), 5 | (1 << 10) | (6 << 16) | (6 << 24));
}

#[test]
fn send_validates_before_queueing() {
    let mut dom = Domain::new("CAN".to_string());
    let bad_roi = Roi { x: 0, y: 0, w: 16, h: 16 };
    let msg = TaggedMessage::new(
        5, DeviceMessage::DistanceSensor(DistanceSensorMessage::SetRoi(bad_roi)));
    match dom.send(msg) {
        Err(HookError::InvalidMessage) => {},
        _ => panic!("invalid region accepted"),
    }
    assert_eq!(dom.outbound.len(), 0);

    let good = set_range_msg(5);
    assert!(dom.send(good).is_ok());
    assert_eq!(dom.outbound.len(), 1);
}

#[test]
fn pop_outbound_is_fifo() {
    let mut dom = Domain::new("CAN".to_string());
    dom.send(set_range_msg(1)).unwrap();
    dom.send(set_range_msg(2)).unwrap();
    let first = dom.pop_outbound().unwrap();
    let second = dom.pop_outbound().unwrap();
    assert_eq!(first.device_id, 1);
    assert_eq!(second.device_id, 2);
    assert!(dom.pop_outbound().is_none());
}

#[test]
fn retry_makes_exactly_one_more_send_each_timeout() {
    let mut dom = Domain::new("CAN".to_string());
    let retries: u32 = 3;
    let mut ticket = begin_request(&mut dom, set_range_msg(5), 300, retries)
        .expect("valid request");
    assert_eq!(ticket.attempts, 1);
    assert_eq!(dom.outbound.len(), 1);
    assert_eq!(dom.pending.len(), 1);

    let mut failures = 0;
    loop {
        match on_timeout(&mut dom, ticket, set_range_msg(5)) {
            Ok(next) => {
                ticket = next;
            },
            Err(HookError::Timeout) => {
                failures += 1;
                break;
            },
            Err(_) => panic!("unexpected failure"),
        }
    }
    assert_eq!(failures, 1);
    // A request with three retries makes exactly four send attempts.
    assert_eq!(dom.outbound.len(), (retries + 1) as usize);
    // Nothing is left registered after the final failure.
    assert_eq!(dom.pending.len(), 0);
}

#[test]
fn zero_retries_fails_after_one_attempt() {
    let mut dom = Domain::new("CAN".to_string());
    let ticket = begin_request(&mut dom, set_range_msg(5), 300, 0).expect("valid request");
    assert_eq!(ticket.attempts, 1);
    match on_timeout(&mut dom, ticket, set_range_msg(5)) {
        Err(HookError::Timeout) => {},
        _ => panic!("request with no retries did not time out"),
    }
    assert_eq!(dom.outbound.len(), 1);
}

#[test]
fn reply_reaches_every_waiter_under_its_id() {
    let mut dom = Domain::new("CAN".to_string());
    let t1 = begin_request(&mut dom, set_range_msg(5), 300, 0).unwrap();
    let t2 = begin_request(&mut dom, set_range_msg(5), 300, 0).unwrap();
    assert_eq!(t1.complement, t2.complement);
    let tokens = dom.take_waiters(t1.complement);
    assert_eq!(tokens, vec![t1.token, t2.token]);
    assert_eq!(dom.pending.len(), 0);
}

fn enumerate_reply(device_id: u8, model: ModelId, serial: u32, version: &str) -> TaggedMessage {
    TaggedMessage::new(
        device_id,
        DeviceMessage::Broadcast(BroadcastMessage::DeviceInfo(
            DeviceInfoMessage::EnumerateResponse {
                model_id: model,
                serial,
                is_dfu: false,
                is_dfu_in_progress: false,
                version: version.to_string(),
                name: "bench".to_string(),
            })),
    )
}

#[test]
fn enumeration_creates_and_refreshes_entries() {
    let mut dm = DeviceManager::new(vec!["CAN".to_string()]);
    let domain = "CAN".to_string();
    dm.on_message(&domain, 0, enumerate_reply(7, ModelId::LaserCan, 101, "2024.2.5"), 100)
        .unwrap();
    let listing = dm.devices();
    assert_eq!(listing.len(), 1);
    assert_eq!(listing[0].devices.len(), 1);
    assert_eq!(listing[0].devices[0].id, DeviceId::Serial(101));
    assert_eq!(listing[0].devices[0].class, "LaserCAN");
    assert_eq!(listing[0].devices[0].info.device_id, Some(7));

    // A later reply for the same serial refreshes, it does not duplicate.
    dm.on_message(&domain, 0, enumerate_reply(7, ModelId::LaserCan, 101, "2024.2.6"), 200)
        .unwrap();
    let listing = dm.devices();
    assert_eq!(listing[0].devices.len(), 1);
    assert_eq!(
        listing[0].devices[0].info.firmware_version,
        Some("2024.2.6".to_string())
    );
}

#[test]
fn registry_aging_keeps_fresh_and_evicts_stale() {
    let mut dm = DeviceManager::new(vec!["CAN".to_string()]);
    let domain = "CAN".to_string();
    // One device refreshed at 3999, one last seen at time zero.
    dm.on_message(&domain, 0, enumerate_reply(7, ModelId::LaserCan, 101, "2024.2.5"), 0)
        .unwrap();
    dm.on_message(&domain, 0, enumerate_reply(8, ModelId::LaserCan, 102, "2024.2.5"), 3999)
        .unwrap();

    // At 4000ms, the device refreshed at 3999 remains; the one aged
    // exactly 4000ms also remains (eviction needs age beyond the limit).
    dm.on_tick(4000);
    assert_eq!(dm.devices()[0].devices.len(), 2);

    // At 4001ms the first device's age exceeds 4000ms: it is gone from
    // the next listing; the fresh one stays.
    dm.on_tick(4001);
    let listing = dm.devices();
    assert_eq!(listing[0].devices.len(), 1);
    assert_eq!(listing[0].devices[0].id, DeviceId::Serial(102));
}

#[test]
fn tick_broadcasts_enumeration_request() {
    let mut dm = DeviceManager::new(vec!["CAN".to_string()]);
    dm.on_tick(1000);
    let msg = dm.domains[0].channel.pop_outbound().unwrap();
    assert_eq!(msg.device_id, DEVICE_ID_BROADCAST);
    assert!(matches!(
        msg.msg,
        DeviceMessage::Broadcast(BroadcastMessage::DeviceInfo(
            DeviceInfoMessage::EnumerateRequest))
    ));
}

#[test]
fn version_gate_rejects_and_reports() {
    let mut dm = DeviceManager::new(vec!["CAN".to_string()]);
    let domain = "CAN".to_string();
    dm.on_message(&domain, 0, enumerate_reply(7, ModelId::LaserCan, 101, "2023.1.0"), 0)
        .unwrap();
    let listing = dm.devices();
    assert_eq!(listing[0].devices[0].class, "OldVersionDevice");

    match dm.call(&domain, DeviceId::Serial(101),
        NodeRequest::OldVersion(OldVersionDeviceRequest::GetError)) {
        Ok(NodeCallOutcome::Done(NodeResponse::OldVersion(
            OldVersionDeviceResponse::GetError(e)))) => {
            assert_eq!(e, "Invalid version: 2023.1.0, expected: >= 2024.2.0, < 2024.3.0");
        },
        _ => panic!("stand-in did not answer for its error"),
    }
    match dm.call(&domain, DeviceId::Serial(101),
        NodeRequest::OldVersion(OldVersionDeviceRequest::GetFirmwareUrl)) {
        Ok(NodeCallOutcome::Done(NodeResponse::OldVersion(
            OldVersionDeviceResponse::GetFirmwareUrl(u)))) => {
            assert_eq!(
                u,
                Some("https://api.github.com/repos/GrappleRobotics/LaserCAN/releases"
                    .to_string())
            );
        },
        _ => panic!("stand-in did not answer for its firmware location"),
    }
}

#[test]
fn version_gate_admits_supported_version() {
    let mut dm = DeviceManager::new(vec!["CAN".to_string()]);
    let domain = "CAN".to_string();
    dm.on_message(&domain, 0, enumerate_reply(7, ModelId::LaserCan, 101, "2024.2.5"), 0)
        .unwrap();
    assert_eq!(dm.devices()[0].devices[0].class, "LaserCAN");
    // The full device answers its own requests; the diagnostic surface
    // does not exist on it.
    match dm.call(&domain, DeviceId::Serial(101),
        NodeRequest::OldVersion(OldVersionDeviceRequest::GetError)) {
        Err(HookError::NoSuchDevice) => {},
        _ => panic!("full device answered the stand-in's surface"),
    }
}

#[test]
fn measurement_updates_device_status() {
    let mut dm = DeviceManager::new(vec!["CAN".to_string()]);
    let domain = "CAN".to_string();
    dm.on_message(&domain, 0, enumerate_reply(7, ModelId::LaserCan, 101, "2024.2.5"), 0)
        .unwrap();
    let m = Measurement { status: 0, distance_mm: 1234, ambient: 9, mode: RangingMode::Long };
    dm.on_message(&domain, 1,
        TaggedMessage::new(7, DeviceMessage::DistanceSensor(
            DistanceSensorMessage::Measurement(m))), 10)
        .unwrap();
    match dm.call(&domain, DeviceId::Serial(101),
        NodeRequest::LaserCan(LaserCanRequest::Status)) {
        Ok(NodeCallOutcome::Done(NodeResponse::LaserCan(LaserCanResponse::Status(st)))) => {
            assert_eq!(st.last_update, Some(m));
        },
        _ => panic!("status not answered"),
    }
}

#[test]
fn call_fails_for_unknown_device() {
    let mut dm = DeviceManager::new(vec!["CAN".to_string()]);
    match dm.call(&"CAN".to_string(), DeviceId::Serial(1),
        NodeRequest::LaserCan(LaserCanRequest::Status)) {
        Err(HookError::NoSuchDevice) => {},
        _ => panic!("unknown device answered"),
    }
    match dm.call(&"NOPE".to_string(), DeviceId::Serial(1),
        NodeRequest::LaserCan(LaserCanRequest::Status)) {
        Err(HookError::NoSuchDevice) => {},
        _ => panic!("unknown domain answered"),
    }
}

#[test]
fn identity_operations_need_a_serial() {
    let mut dom = Domain::new("CAN".to_string());
    let info = DeviceInfo {
        device_type: grapple_hook::devices::DeviceType::Grapple(ModelId::LaserCan),
        firmware_version: None,
        serial: None,
        is_dfu: false,
        is_dfu_in_progress: false,
        name: None,
        device_id: None,
    };
    match grapple_rpc(&mut dom, &info, GrappleDeviceRequest::Blink) {
        Err(HookError::NoSerial) => {},
        _ => panic!("identity operation ran without a serial"),
    }
    assert_eq!(dom.outbound.len(), 0);
}

#[test]
fn identity_operation_broadcasts_under_serial() {
    let mut dom = Domain::new("CAN".to_string());
    let info = DeviceInfo {
        device_type: grapple_hook::devices::DeviceType::Grapple(ModelId::LaserCan),
        firmware_version: None,
        serial: Some(101),
        is_dfu: false,
        is_dfu_in_progress: false,
        name: None,
        device_id: Some(7),
    };
    grapple_rpc(&mut dom, &info, GrappleDeviceRequest::SetId { id: 9 }).unwrap();
    let sent = dom.pop_outbound().unwrap();
    assert_eq!(sent.device_id, DEVICE_ID_BROADCAST);
    match sent.msg {
        DeviceMessage::Broadcast(BroadcastMessage::DeviceInfo(
            DeviceInfoMessage::SetId { serial, new_id })) => {
            assert_eq!(serial, 101);
            assert_eq!(new_id, 9);
        },
        _ => panic!("wrong identity broadcast queued"),
    }
}

#[test]
fn update_check_needs_a_reported_version() {
    let info = DeviceInfo {
        device_type: grapple_hook::devices::DeviceType::Grapple(ModelId::LaserCan),
        firmware_version: None,
        serial: Some(101),
        is_dfu: false,
        is_dfu_in_progress: false,
        name: None,
        device_id: Some(7),
    };
    match grapple_hook::updates::current_version_for_update_check(&info) {
        Err(HookError::NoVersion) => {},
        _ => panic!("update check ran without a version"),
    }
}

#[test]
fn correlated_configuration_resolves_through_registry() {
    let mut dm = DeviceManager::new(vec!["CAN".to_string()]);
    let domain = "CAN".to_string();
    dm.on_message(&domain, 0, enumerate_reply(7, ModelId::LaserCan, 101, "2024.2.5"), 0)
        .unwrap();

    // Route a ranging-mode change: it hands off into a correlated wait.
    let (ticket, call) = match dm.call(&domain, DeviceId::Serial(101),
        NodeRequest::LaserCan(LaserCanRequest::SetRange(RangingMode::Long))) {
        Ok(NodeCallOutcome::AwaitLaserCan(t, c)) => (t, c),
        _ => panic!("configuration request did not hand off"),
    };
    assert_eq!(call, LaserCanPendingCall::SetRange);
    // The request itself was queued behind the enumeration traffic.
    let queued = dm.domains[0].channel.outbound.last().unwrap();
    assert_eq!(queued.device_id, 7);

    // The reply arrives bearing the complementary identifier: the
    // registered waiter is handed the message.
    let reply = TaggedMessage::new(
        7, DeviceMessage::DistanceSensor(DistanceSensorMessage::SetRangeAck));
    let waiters = dm.on_message(&domain, ticket.complement, reply.clone(), 5).unwrap();
    assert_eq!(waiters, vec![ticket.token]);
    assert!(matches!(finish_call(call, &reply), Ok(LaserCanResponse::SetRange)));

    // A mismatched reply is a protocol error for the caller.
    let wrong = TaggedMessage::new(
        7, DeviceMessage::DistanceSensor(DistanceSensorMessage::SetRoiAck));
    assert!(matches!(finish_call(call, &wrong), Err(HookError::Protocol)));
}

#[test]
fn engine_needs_a_bus_address() {
    let mut dom = Domain::new("CAN".to_string());
    let info = DeviceInfo {
        device_type: grapple_hook::devices::DeviceType::Grapple(ModelId::LaserCan),
        firmware_version: Some("2024.2.5".to_string()),
        serial: Some(101),
        is_dfu: false,
        is_dfu_in_progress: false,
        name: None,
        device_id: None,
    };
    let mut engine = grapple_hook::firmware::FirmwareUpgradeDevice::new(8);
    match engine.start(&mut dom, &info, vec![1, 2, 3]) {
        Err(HookError::NoDeviceId) => {},
        _ => panic!("transfer started without a bus address"),
    }
    assert_eq!(engine.progress(), None);
}
