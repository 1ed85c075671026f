use grapple_hook::HookError;
use grapple_hook::msg::ModelId;
use grapple_hook::node::DeviceNode;
use grapple_hook::node::maybe_gate;
use grapple_hook::provider::ProviderKind;
use grapple_hook::provider::ProviderSession;
use grapple_hook::provider::WrappedDeviceProvider;
use grapple_hook::provider_manager::ProviderManager;
use grapple_hook::roborio::RoboRioDaemon;
use grapple_hook::generic_usb::GenericUsb;
use grapple_hook::ssh::CommandResult;
use grapple_hook::updates::LightReleaseResponse;
use grapple_hook::updates::ReleaseFilter;
use grapple_hook::updates::most_recent_update_available;
use grapple_hook::updates::release_acceptable;
use grapple_hook::device_manager::DeviceManagerRequest;
use grapple_hook::device_manager::DeviceManagerResponse;

fn release(tag: &str, published: &str) -> LightReleaseResponse {
    LightReleaseResponse {
        name: tag.to_string(),
        tag_name: tag.to_string(),
        published_at: published.to_string(),
        html_url: format!("https://example.invalid/{}", tag),
    }
}

#[test]
fn publication_instants_decide_recency() {
    // The later timestamp wins regardless of listing order.
    let f = ReleaseFilter::Any;
    let forward = vec![
        release("older", "2024-03-01T10:00:00Z"),
        release("newer", "2024-03-02T10:00:00Z"),
    ];
    let backward = vec![
        release("newer", "2024-03-02T10:00:00Z"),
        release("older", "2024-03-01T10:00:00Z"),
    ];
    assert_eq!(most_recent_update_available(&forward, &f).unwrap().tag_name, "newer");
    assert_eq!(most_recent_update_available(&backward, &f).unwrap().tag_name, "newer");
}

#[test]
fn lasercan_filter_requires_newer_supported_version() {
    let f = ReleaseFilter::LaserCan { current: "2024.2.1".to_string() };
    assert!(release_acceptable(&f, &"v2024.2.5".to_string()));
    // Not newer than the current version.
    assert!(!release_acceptable(&f, &"v2024.2.0".to_string()));
    // Newer, but outside the supported range.
    assert!(!release_acceptable(&f, &"v2024.3.0".to_string()));
    // No version part at all.
    assert!(!release_acceptable(&f, &"".to_string()));
}

#[test]
fn mitocandria_filter_reads_tag_version_part() {
    let f = ReleaseFilter::Mitocandria { current: "2025.0.1".to_string() };
    assert!(release_acceptable(&f, &"mitocandria-v2025.0.2".to_string()));
    assert!(release_acceptable(&f, &"mitocandria-2025.0.3".to_string()));
    // Another product's tag.
    assert!(!release_acceptable(&f, &"lasercan-v2025.0.2".to_string()));
    // Not newer.
    assert!(!release_acceptable(&f, &"mitocandria-v2025.0.1".to_string()));
}

#[test]
fn most_recent_picks_latest_acceptable() {
    let f = ReleaseFilter::LaserCan { current: "2024.2.1".to_string() };
    let releases = vec![
        release("v2024.2.3", "2024-03-01T10:00:00Z"),
        release("v2024.2.9", "2024-02-01T10:00:00Z"),
        release("v2024.3.1", "2024-06-01T10:00:00Z"),
        release("v2024.2.5", "2024-04-01T10:00:00Z"),
    ];
    let best = most_recent_update_available(&releases, &f).unwrap();
    // The newest published acceptable entry wins, not the highest
    // version and not the unsupported one.
    assert_eq!(best.tag_name, "v2024.2.5");
}

#[test]
fn most_recent_none_when_nothing_acceptable() {
    let f = ReleaseFilter::LaserCan { current: "2024.2.9".to_string() };
    let releases = vec![release("v2024.2.3", "2024-03-01T10:00:00Z")];
    assert!(most_recent_update_available(&releases, &f).is_none());
}

#[test]
fn most_recent_skips_unparseable_dates() {
    let f = ReleaseFilter::Any;
    let releases = vec![
        release("a", "not a date"),
        release("b", "2024-03-01T10:00:00Z"),
    ];
    let best = most_recent_update_available(&releases, &f).unwrap();
    assert_eq!(best.tag_name, "b");
}

#[test]
fn command_result_success_means_exit_zero() {
    let ok = CommandResult::new("done\n".to_string(), Some(0));
    assert!(ok.success());
    assert_eq!(ok.code(), Some(0));
    assert_eq!(ok.output(), "done\n");
    let failed = CommandResult::new(String::new(), Some(2));
    assert!(!failed.success());
    let unknown = CommandResult::new(String::new(), None);
    assert!(!unknown.success());
}

#[test]
fn gate_factory_constructs_by_version() {
    match maybe_gate(ModelId::LaserCan, &Some("2024.2.5".to_string())) {
        DeviceNode::LaserCan(_) => {},
        _ => panic!("supported version did not get the real device"),
    }
    match maybe_gate(ModelId::LaserCan, &Some("2020.1.0".to_string())) {
        DeviceNode::OldVersion(o) => {
            assert!(!o.get_error().is_empty());
        },
        _ => panic!("unsupported version got the real device"),
    }
    // The bridge variant's gate is permissive.
    match maybe_gate(ModelId::FlexiCan, &Some("0.0.1".to_string())) {
        DeviceNode::FlexiCan(_) => {},
        _ => panic!("permissive gate rejected"),
    }
    // A device that reports no version at all passes by default and is
    // owed the full variant.
    match maybe_gate(ModelId::LaserCan, &None) {
        DeviceNode::LaserCan(_) => {},
        _ => panic!("missing version did not get the real device"),
    }
}

#[test]
fn session_loop_hold_is_exclusive() {
    let mut session = ProviderSession::new("USB".to_string(), 1000, 1024);
    assert!(session.try_start().is_ok());
    match session.try_start() {
        Err(HookError::AlreadyRunning) => {},
        _ => panic!("second loop start did not fail loudly"),
    }
    session.on_loop_exit();
    assert!(!session.running);
    assert!(session.try_start().is_ok());
}

#[test]
fn loop_exit_resets_registry() {
    let mut usb = GenericUsb::new("/dev/ttyACM0".to_string());
    usb.session.try_start().unwrap();
    let reply = grapple_hook::msg::TaggedMessage::new(
        7,
        grapple_hook::msg::DeviceMessage::Broadcast(
            grapple_hook::msg::BroadcastMessage::DeviceInfo(
                grapple_hook::msg::DeviceInfoMessage::EnumerateResponse {
                    model_id: ModelId::LaserCan,
                    serial: 101,
                    is_dfu: false,
                    is_dfu_in_progress: false,
                    version: "2024.2.5".to_string(),
                    name: "bench".to_string(),
                })),
    );
    usb.session.deliver(0, reply, 10).unwrap();
    assert_eq!(usb.session.devices()[0].devices.len(), 1);
    usb.session.on_loop_exit();
    assert_eq!(usb.session.devices()[0].devices.len(), 0);
}

#[test]
fn provider_infos_report_identity() {
    let usb = WrappedDeviceProvider::new(ProviderKind::Usb(
        GenericUsb::new("/dev/ttyACM1".to_string())));
    let info = usb.info();
    assert_eq!(info.description, "Grapple USB Device");
    assert_eq!(info.address, "/dev/ttyACM1");
    assert!(!info.connected);

    let rr = WrappedDeviceProvider::new(ProviderKind::RoboRio(RoboRioDaemon::new()));
    let info = rr.info();
    assert_eq!(info.description, "RoboRIO");
    assert_eq!(info.address, "172.22.11.2");
}

#[test]
fn autodetection_creates_refreshes_and_ages_off() {
    let mut pm = ProviderManager::new(0);
    assert_eq!(pm.providers.len(), 1);

    // A matching port appears.
    pm.apply_detected_port("/dev/ttyACM0".to_string(), 0x16c0, 0x27dd, 100);
    assert_eq!(pm.providers.len(), 2);

    // A non-matching port changes nothing.
    pm.apply_detected_port("/dev/ttyUSB9".to_string(), 0x1234, 0x5678, 100);
    assert_eq!(pm.providers.len(), 2);

    // Re-confirmation keeps the detection alive across aging.
    pm.apply_detected_port("/dev/ttyACM0".to_string(), 0x16c0, 0x27dd, 1500);
    pm.age_off(3000);
    assert_eq!(pm.providers.len(), 2);

    // Unconfirmed past the limit: the detection is dropped; the
    // manually configured relay provider never ages off.
    pm.age_off(4000);
    assert_eq!(pm.providers.len(), 1);
    assert_eq!(pm.providers[0].address, "172.22.11.2");
}

#[test]
fn provider_table_delete_and_list() {
    let mut pm = ProviderManager::new(0);
    pm.apply_detected_port("/dev/ttyACM0".to_string(), 0x16c0, 0x27dd, 10);
    let listing = pm.providers();
    assert_eq!(listing.len(), 2);
    assert_eq!(listing[0].0, "172.22.11.2");
    assert_eq!(listing[1].0, "/dev/ttyACM0");

    // Removing a disconnected provider reports that it was not running.
    assert_eq!(pm.delete(&"/dev/ttyACM0".to_string()), Some(false));
    assert_eq!(pm.providers().len(), 1);
    assert_eq!(pm.delete(&"/dev/ttyACM0".to_string()), None);
}

#[test]
fn provider_routing_lists_its_domain() {
    let mut pm = ProviderManager::new(0);
    pm.apply_detected_port("/dev/ttyACM0".to_string(), 0x16c0, 0x27dd, 10);
    match pm.provider(&"/dev/ttyACM0".to_string(), DeviceManagerRequest::Devices) {
        Ok(DeviceManagerResponse::Devices(listing)) => {
            assert_eq!(listing.len(), 1);
            assert_eq!(listing[0].domain, "USB");
            assert_eq!(listing[0].devices.len(), 0);
        },
        _ => panic!("provider did not list its domain"),
    }
    match pm.provider(&"/dev/nowhere".to_string(), DeviceManagerRequest::Devices) {
        Err(HookError::NoSuchDevice) => {},
        _ => panic!("unknown address answered"),
    }
}
