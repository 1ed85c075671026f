use std::io::Write;

use grapple_hook::HookError;
use grapple_hook::correlation::Domain;
use grapple_hook::devices::DeviceInfo;
use grapple_hook::devices::DeviceType;
use grapple_hook::firmware::FirmwareUpgradeDevice;
use grapple_hook::firmware::UpgradeStep;
use grapple_hook::firmware::maybe_unpack_firmware;
use grapple_hook::firmware::prepare_upgrade_image;
use grapple_hook::firmware::validate_firmware;
use grapple_hook::msg::DeviceMessage;
use grapple_hook::msg::FirmwareMessage;
use grapple_hook::msg::ModelId;

fn info_with_device_id(id: u8) -> DeviceInfo {
    DeviceInfo {
        device_type: DeviceType::Grapple(ModelId::LaserCan),
        firmware_version: Some("2024.2.5".to_string()),
        serial: Some(101),
        is_dfu: false,
        is_dfu_in_progress: false,
        name: Some("bench".to_string()),
        device_id: Some(id),
    }
}

fn sent_part_len(dom: &mut Domain) -> usize {
    match dom.pop_outbound() {
        Some(m) => match m.msg {
            DeviceMessage::FirmwareUpdate(FirmwareMessage::UpdatePart(d)) => d.len(),
            _ => panic!("queued message is not an update part"),
        },
        None => panic!("no message queued"),
    }
}

#[test]
fn twenty_byte_image_in_three_parts() {
    let mut dom = Domain::new("CAN".to_string());
    let info = info_with_device_id(7);
    let mut engine = FirmwareUpgradeDevice::new(8);
    assert_eq!(engine.progress(), None);

    let image: Vec<u8> = (0..20).collect();
    engine.start(&mut dom, &info, image).unwrap();
    assert_eq!(engine.progress(), Some(0));
    assert_eq!(sent_part_len(&mut dom), 8);

    assert_eq!(engine.on_ack(&mut dom, &info).unwrap(), UpgradeStep::Continuing);
    assert_eq!(engine.progress(), Some(33));
    assert_eq!(sent_part_len(&mut dom), 8);

    assert_eq!(engine.on_ack(&mut dom, &info).unwrap(), UpgradeStep::Continuing);
    assert_eq!(engine.progress(), Some(66));
    assert_eq!(sent_part_len(&mut dom), 4);

    // The final chunk's acknowledgement: progress stands at exactly one
    // hundred before the closing marker goes out.
    assert_eq!(engine.on_ack(&mut dom, &info).unwrap(), UpgradeStep::ChunksDone);
    assert_eq!(engine.progress(), Some(100));
    assert!(dom.pop_outbound().is_none());

    engine.finish(&mut dom, &info).unwrap();
    assert_eq!(engine.progress(), None);
    match dom.pop_outbound() {
        Some(m) => assert!(matches!(
            m.msg, DeviceMessage::FirmwareUpdate(FirmwareMessage::UpdateDone))),
        None => panic!("no closing marker queued"),
    }
}

#[test]
fn missed_ack_aborts_without_clearing_progress() {
    let mut dom = Domain::new("CAN".to_string());
    let info = info_with_device_id(7);
    let mut engine = FirmwareUpgradeDevice::new(8);
    engine.start(&mut dom, &info, (0..20).collect()).unwrap();
    engine.on_ack(&mut dom, &info).unwrap();
    assert_eq!(engine.progress(), Some(33));

    engine.on_ack_timeout();
    // The transfer is over, but the progress stays at its last value.
    assert_eq!(engine.progress(), Some(33));
    match engine.on_ack(&mut dom, &info) {
        Err(HookError::Protocol) => {},
        _ => panic!("aborted transfer still accepted an acknowledgement"),
    }
}

#[test]
fn only_one_transfer_at_a_time() {
    let mut dom = Domain::new("CAN".to_string());
    let info = info_with_device_id(7);
    let mut engine = FirmwareUpgradeDevice::new(8);
    engine.start(&mut dom, &info, vec![1, 2, 3]).unwrap();
    match engine.start(&mut dom, &info, vec![4, 5, 6]) {
        Err(HookError::UpgradeBusy) => {},
        _ => panic!("second transfer started"),
    }
}

fn valid_lasercan_image() -> Vec<u8> {
    let mut image = vec![0u8; 0x200];
    image[0x150] = 0xbe;
    image[0x151] = 0xba;
    image[0x152] = 0xfe;
    image[0x153] = 0xca;
    image[0x15c] = 0x10;
    image
}

#[test]
fn firmware_markers_checked_per_model() {
    let info = info_with_device_id(7);
    let image = valid_lasercan_image();
    assert!(validate_firmware(ModelId::LaserCan, &info, &image).is_ok());
    // The same bytes are not a power-module image: its markers sit at
    // other offsets.
    match validate_firmware(ModelId::MitoCandria, &info, &image) {
        Err(HookError::FirmwareValidation) => {},
        _ => panic!("wrong model's image accepted"),
    }
    let mut broken = image.clone();
    broken[0x15c] = 0x40;
    match validate_firmware(ModelId::LaserCan, &info, &broken) {
        Err(HookError::FirmwareValidation) => {},
        _ => panic!("wrong model byte accepted"),
    }
}

fn packaged_image(binary: &[u8]) -> Vec<u8> {
    let cursor = std::io::Cursor::new(Vec::new());
    let mut writer = zip::ZipWriter::new(cursor);
    let options = zip::write::SimpleFileOptions::default();
    writer.start_file("index", options).unwrap();
    writer
        .write_all(br#"{"firmware_update_bin": "firmware.bin"}"#)
        .unwrap();
    writer.start_file("firmware.bin", options).unwrap();
    writer.write_all(binary).unwrap();
    writer.finish().unwrap().into_inner()
}

#[test]
fn packaged_image_is_unpacked() {
    let binary = valid_lasercan_image();
    let packed = packaged_image(&binary);
    assert_ne!(packed, binary);
    assert_eq!(maybe_unpack_firmware(&packed), Some(binary.clone()));
    let info = info_with_device_id(7);
    // The archive path takes the named entry, and the unpacked binary
    // itself must carry the model's markers.
    match prepare_upgrade_image(ModelId::LaserCan, &info, packed) {
        Ok(v) => assert_eq!(v, binary),
        Err(_) => panic!("packaged image rejected"),
    }
}

#[test]
fn packaged_image_is_still_validated() {
    // An archive whose firmware entry lacks the model's markers is
    // rejected before any bytes would be transferred.
    let packed = packaged_image(&[0xde, 0xad, 0xbe, 0xef]);
    let info = info_with_device_id(7);
    match prepare_upgrade_image(ModelId::LaserCan, &info, packed) {
        Err(HookError::FirmwareValidation) => {},
        _ => panic!("unmarked packaged binary accepted"),
    }
}

#[test]
fn raw_image_is_validated() {
    let info = info_with_device_id(7);
    let image = valid_lasercan_image();
    match prepare_upgrade_image(ModelId::LaserCan, &info, image.clone()) {
        Ok(v) => assert_eq!(v, image),
        Err(_) => panic!("marked raw image rejected"),
    }
    match prepare_upgrade_image(ModelId::LaserCan, &info, vec![1, 2, 3]) {
        Err(HookError::FirmwareValidation) => {},
        _ => panic!("unmarked raw bytes accepted"),
    }
}

#[test]
fn archive_without_index_is_treated_as_raw() {
    let cursor = std::io::Cursor::new(Vec::new());
    let mut writer = zip::ZipWriter::new(cursor);
    let options = zip::write::SimpleFileOptions::default();
    writer.start_file("something_else", options).unwrap();
    writer.write_all(b"not an index").unwrap();
    let bytes = writer.finish().unwrap().into_inner();
    assert_eq!(maybe_unpack_firmware(&bytes), None);
}
