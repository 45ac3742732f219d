use settings_subscriptions::identity::IdentityTable;
use settings_subscriptions::pipewire::{
    handle_node_event, Device, DeviceEvent, DeviceState, DeviceVariant, MediaClass, NodeEvent,
    NodeInfo,
};
use settings_subscriptions::props::{parse_u32, Property, PropertyBag};
use settings_subscriptions::text::replace_phrase;

fn bag(pairs: &[(&str, &str)]) -> PropertyBag {
    PropertyBag {
        props: pairs
            .iter()
            .map(|(k, v)| Property { key: k.to_string(), value: v.to_string() })
            .collect(),
    }
}

fn alsa_node(state: DeviceState) -> NodeInfo {
    NodeInfo {
        props: Some(bag(&[
            ("object.id", "42"),
            ("alsa.card", "1"),
            ("alsa.card_name", "HDA Intel PCH"),
            ("card.profile.device", "3"),
            ("device.profile.description", "Speaker"),
            ("media.class", "Audio/Sink"),
            ("node.description", "High Definition Audio Controller"),
            ("node.name", "alsa_output.pci"),
        ])),
        state,
    }
}

#[test]
fn parse_u32_accepts_plain_decimals() {
    assert_eq!(parse_u32(&"0".to_string()), Some(0));
    assert_eq!(parse_u32(&"123".to_string()), Some(123));
    assert_eq!(parse_u32(&"0042".to_string()), Some(42));
    assert_eq!(parse_u32(&"4294967295".to_string()), Some(u32::MAX));
}

#[test]
fn parse_u32_rejects_everything_else() {
    assert_eq!(parse_u32(&"".to_string()), None);
    assert_eq!(parse_u32(&"12a".to_string()), None);
    assert_eq!(parse_u32(&"-1".to_string()), None);
    assert_eq!(parse_u32(&" 7".to_string()), None);
    assert_eq!(parse_u32(&"4294967296".to_string()), None);
    assert_eq!(parse_u32(&"99999999999999999999".to_string()), None);
}

#[test]
fn property_lookup_takes_the_first_binding() {
    let b = bag(&[("k", "first"), ("k", "second"), ("other", "x")]);
    assert_eq!(b.get(&"k".to_string()), Some(&"first".to_string()));
    assert_eq!(b.get(&"other".to_string()), Some(&"x".to_string()));
    assert_eq!(b.get(&"missing".to_string()), None);
}

#[test]
fn phrase_replacement_rewrites_every_occurrence() {
    assert_eq!(
        replace_phrase("High Definition Audio Controller", "High Definition Audio", "HD Audio"),
        "HD Audio Controller"
    );
    assert_eq!(replace_phrase("aXbXc", "X", "--"), "a--b--c");
    assert_eq!(replace_phrase("untouched", "X", "-"), "untouched");
    assert_eq!(replace_phrase("", "X", "-"), "");
    assert_eq!(replace_phrase("xyz", "", "-"), "xyz");
    assert_eq!(replace_phrase("aaa", "aa", "b"), "ba");
    // positions are counted in characters, not bytes
    assert_eq!(replace_phrase("h\u{e9}llo X w\u{f6}rld", "X", "Y"), "h\u{e9}llo Y w\u{f6}rld");
}

#[test]
fn from_node_normalizes_an_alsa_sink() {
    let device = Device::from_node(&alsa_node(DeviceState::Running)).unwrap();
    assert_eq!(device.object_id, 42);
    assert_eq!(
        device.variant,
        DeviceVariant::Alsa {
            alsa_card: 1,
            alsa_card_name: "HDA Intel PCH".to_string(),
            card_profile_device: 3,
            device_profile_description: "Speaker".to_string(),
        }
    );
    assert_eq!(device.media_class, MediaClass::Sink);
    assert_eq!(device.node_description, "HD Audio Controller");
    assert_eq!(device.node_name, "alsa_output.pci");
    assert_eq!(device.state, DeviceState::Running);
}

#[test]
fn from_node_normalizes_a_bluetooth_source() {
    let info = NodeInfo {
        props: Some(bag(&[
            ("object.id", "9"),
            ("api.bluez5.address", "00:11:22:33:44:55"),
            ("api.bluez5.codec", "sbc"),
            ("api.bluez5.profile", "a2dp"),
            ("media.class", "Audio/Source"),
            ("node.description", "Headset"),
            ("node.name", "bluez_input.00"),
        ])),
        state: DeviceState::Idle,
    };
    let device = Device::from_node(&info).unwrap();
    assert_eq!(device.object_id, 9);
    assert_eq!(
        device.variant,
        DeviceVariant::Bluez5 {
            address: "00:11:22:33:44:55".to_string(),
            codec: "sbc".to_string(),
            profile: "a2dp".to_string(),
        }
    );
    assert_eq!(device.media_class, MediaClass::Source);
}

#[test]
fn from_node_suppresses_missing_required_fields() {
    // no property bag at all
    assert!(Device::from_node(&NodeInfo { props: None, state: DeviceState::Idle }).is_none());

    // a required field of the selected variant is missing
    let mut incomplete = alsa_node(DeviceState::Idle);
    if let Some(b) = &mut incomplete.props {
        b.props.retain(|p| p.key != "device.profile.description");
    }
    assert!(Device::from_node(&incomplete).is_none());

    // the object identifier does not parse
    let bad_id = NodeInfo {
        props: Some(bag(&[
            ("object.id", "4x"),
            ("api.bluez5.address", "a"),
            ("api.bluez5.codec", "c"),
            ("api.bluez5.profile", "p"),
            ("media.class", "Audio/Sink"),
            ("node.description", "d"),
            ("node.name", "n"),
        ])),
        state: DeviceState::Idle,
    };
    assert!(Device::from_node(&bad_id).is_none());

    // an untracked media class is not a device of this bridge
    let mut video = alsa_node(DeviceState::Idle);
    if let Some(b) = &mut video.props {
        for p in &mut b.props {
            if p.key == "media.class" {
                p.value = "Video/Source".to_string();
            }
        }
    }
    assert!(Device::from_node(&video).is_none());
}

#[test]
fn malformed_alsa_card_falls_back_to_bluetooth_shape() {
    // an unparseable alsa.card does not select the ALSA shape, and with
    // no Bluetooth address either the announcement is suppressed
    let info = NodeInfo {
        props: Some(bag(&[
            ("object.id", "1"),
            ("alsa.card", "not-a-number"),
            ("media.class", "Audio/Sink"),
            ("node.description", "d"),
            ("node.name", "n"),
        ])),
        state: DeviceState::Idle,
    };
    assert!(Device::from_node(&info).is_none());
}

#[test]
fn fresh_announcement_emits_add_and_repeat_is_silent() {
    let mut table: IdentityTable<Device> = IdentityTable::new();
    let first = handle_node_event(&mut table, NodeEvent::NodeInfo(77, alsa_node(DeviceState::Idle)));
    match first {
        Some(DeviceEvent::Add(d)) => assert_eq!(d.object_id, 42),
        other => panic!("expected an addition, got {:?}", other),
    }
    assert_eq!(table.len(), 1);

    // the same announcement again: same domain id, updated in place,
    // no spurious event of any kind
    let second =
        handle_node_event(&mut table, NodeEvent::NodeInfo(77, alsa_node(DeviceState::Idle)));
    assert!(second.is_none());
    assert_eq!(table.len(), 1);
    assert_eq!(table.get(77).unwrap().domain_id, 42);
}

#[test]
fn suppressed_announcement_leaves_stored_record_untouched() {
    let mut table: IdentityTable<Device> = IdentityTable::new();
    handle_node_event(&mut table, NodeEvent::NodeInfo(77, alsa_node(DeviceState::Running)));

    let out = handle_node_event(
        &mut table,
        NodeEvent::NodeInfo(77, NodeInfo { props: None, state: DeviceState::Idle }),
    );
    assert!(out.is_none());
    assert_eq!(table.len(), 1);
    // the previously stored record is exactly as it was
    let stored = table.get(77).unwrap();
    assert_eq!(stored.record.state, DeviceState::Running);
    assert_eq!(stored.record.object_id, 42);
}

#[test]
fn removal_emits_the_stable_domain_id() {
    let mut table: IdentityTable<Device> = IdentityTable::new();
    handle_node_event(&mut table, NodeEvent::NodeInfo(77, alsa_node(DeviceState::Idle)));
    let out = handle_node_event(&mut table, NodeEvent::Remove(77));
    match out {
        Some(DeviceEvent::Remove(domain_id)) => assert_eq!(domain_id, 42),
        other => panic!("expected a removal, got {:?}", other),
    }
    assert_eq!(table.len(), 0);
    // removing an untracked native id is silent
    assert!(handle_node_event(&mut table, NodeEvent::Remove(77)).is_none());
}
