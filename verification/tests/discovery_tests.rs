use local_sent_bridge::command::command_result;
use local_sent_bridge::discovery::build_local_address_set;
use local_sent_bridge::discovery::canonical_discovery_address;
use local_sent_bridge::discovery::filter_discovered_devices;
use local_sent_bridge::discovery::is_local_discovered_device;
use local_sent_bridge::discovery::local_address_set;
use local_sent_bridge::discovery::parse_devices;
use local_sent_bridge::discovery::process_discovery_output;
use local_sent_bridge::discovery::DiscoverDevice;
use local_sent_bridge::errors::BridgeError;

fn device(name: &str, host: &str, port: u16, addresses: &[&str]) -> DiscoverDevice {
    DiscoverDevice {
        name: name.as_bytes().to_vec(),
        host: host.as_bytes().to_vec(),
        port,
        addresses: addresses.iter().map(|a| a.as_bytes().to_vec()).collect(),
    }
}

#[test]
fn canonical_address_strips_mapped_prefix() {
    assert_eq!(canonical_discovery_address(b"::ffff:192.168.1.5"), b"192.168.1.5".to_vec());
    assert_eq!(canonical_discovery_address(b" 10.0.0.1 "), b"10.0.0.1".to_vec());
    assert_eq!(canonical_discovery_address(b"::1"), b"::1".to_vec());
    assert_eq!(canonical_discovery_address(b"fe80::1"), b"fe80::1".to_vec());
}

#[test]
fn loopback_host_is_local() {
    let set = build_local_address_set(&vec![b"192.168.1.5".to_vec()]);
    let dev = device("self", "127.0.0.1", 7777, &[]);
    assert!(is_local_discovered_device(&dev, &set));
}

#[test]
fn mapped_host_matching_interface_is_local() {
    let set = build_local_address_set(&vec![b"192.168.1.5".to_vec()]);
    let dev = device("self", "::ffff:192.168.1.5", 7777, &[]);
    assert!(is_local_discovered_device(&dev, &set));
}

#[test]
fn auxiliary_address_can_mark_a_device_local() {
    let set = build_local_address_set(&vec![b"192.168.1.5".to_vec()]);
    let dev = device("self", "peer.lan", 7777, &["10.0.0.8", "::ffff:192.168.1.5"]);
    assert!(is_local_discovered_device(&dev, &set));
}

#[test]
fn remote_device_is_not_local() {
    let set = build_local_address_set(&vec![b"192.168.1.5".to_vec()]);
    let dev = device("peer", "192.168.1.9", 7777, &["192.168.1.9"]);
    assert!(!is_local_discovered_device(&dev, &set));
}

#[test]
fn filter_keeps_order_and_drops_self() {
    let set = build_local_address_set(&vec![b"192.168.1.5".to_vec()]);
    let devices = vec![
        device("a", "192.168.1.9", 1, &[]),
        device("me", "127.0.0.1", 2, &[]),
        device("b", "192.168.1.10", 3, &[]),
    ];
    let kept = filter_discovered_devices(devices, &set);
    let names: Vec<Vec<u8>> = kept.iter().map(|d| d.name.clone()).collect();
    assert_eq!(names, vec![b"a".to_vec(), b"b".to_vec()]);
}

#[test]
fn machine_local_set_contains_loopbacks() {
    let set = local_address_set();
    assert!(set.contains_addr(b"127.0.0.1"));
    assert!(set.contains_addr(b"::1"));
    assert!(set.contains_addr(b"localhost"));
}

#[test]
fn parses_a_device_array() {
    let doc = br#" [
        {"name":"deck","host":"192.168.1.9","port":7777,"addresses":["192.168.1.9","fe80::1"]},
        {"port":8000,"addresses":[],"name":"vm","host":"10.0.0.2"}
    ] "#;
    let devices = parse_devices(doc).expect("should decode");
    assert_eq!(devices.len(), 2);
    assert_eq!(devices[0].name, b"deck".to_vec());
    assert_eq!(devices[0].host, b"192.168.1.9".to_vec());
    assert_eq!(devices[0].port, 7777);
    assert_eq!(devices[0].addresses.len(), 2);
    assert_eq!(devices[0].addresses[1], b"fe80::1".to_vec());
    assert_eq!(devices[1].name, b"vm".to_vec());
    assert_eq!(devices[1].port, 8000);
    assert!(devices[1].addresses.is_empty());
}

#[test]
fn empty_array_means_no_devices() {
    let devices = parse_devices(b"[]").expect("should decode");
    assert!(devices.is_empty());
}

#[test]
fn port_out_of_range_is_refused() {
    let doc = br#"[{"name":"x","host":"h","port":65536,"addresses":[]}]"#;
    assert!(parse_devices(doc).is_none());
}

#[test]
fn missing_field_is_refused() {
    let doc = br#"[{"name":"x","host":"h","port":1}]"#;
    assert!(parse_devices(doc).is_none());
}

#[test]
fn discovery_failure_is_rendered() {
    let set = build_local_address_set(&Vec::new());
    let output = command_result(false, Some(2), Vec::new(), b"bad arg".to_vec());
    match process_discovery_output(&output, &set) {
        Err(BridgeError::NonZeroExit(message)) => {
            let text = String::from_utf8(message).unwrap();
            assert_eq!(text, "discover failed (exit code 2)\nbad arg");
        }
        other => panic!("expected NonZeroExit, got {other:?}"),
    }
}

#[test]
fn blank_discovery_output_means_no_devices() {
    let set = build_local_address_set(&Vec::new());
    let output = command_result(true, Some(0), b"  \n ".to_vec(), Vec::new());
    let devices = process_discovery_output(&output, &set).expect("blank output is fine");
    assert!(devices.is_empty());
}

#[test]
fn malformed_discovery_output_is_a_decode_failure() {
    let set = build_local_address_set(&Vec::new());
    let output = command_result(true, Some(0), b"not json".to_vec(), Vec::new());
    assert_eq!(process_discovery_output(&output, &set), Err(BridgeError::DecodeFailed));
}

#[test]
fn discovery_output_is_parsed_and_filtered() {
    let set = build_local_address_set(&vec![b"192.168.1.5".to_vec()]);
    let doc = br#"[
        {"name":"me","host":"::ffff:192.168.1.5","port":7777,"addresses":[]},
        {"name":"peer","host":"192.168.1.9","port":7777,"addresses":["192.168.1.9"]}
    ]"#;
    let output = command_result(true, Some(0), doc.to_vec(), Vec::new());
    let devices = process_discovery_output(&output, &set).expect("should decode");
    assert_eq!(devices.len(), 1);
    assert_eq!(devices[0].name, b"peer".to_vec());
}
