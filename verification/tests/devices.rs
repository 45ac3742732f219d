use settings_subscriptions::airplane_mode::{is_airplane_mode, DeviceState as RfkillState};
use settings_subscriptions::bluetooth::Active;
use settings_subscriptions::identity::IdentityTable;
use settings_subscriptions::network_manager::{
    strongest_access_points, AccessPoint, DeviceState as NmState,
};
use settings_subscriptions::props::{Property, PropertyBag};
use settings_subscriptions::pulse::{
    card_from_raw, max_channel_volume, server_update, sink_update, source_update,
    subscribe_action, Direction, Event, Facility, PortType, Query, RawCard, RawCardPort,
    RawCardProfile, RawDeviceInfo, RawServerInfo, ServerState,
    DeviceVariant as PulseVariant,
};
use settings_subscriptions::settings_daemon::{apply_request, Request};
use settings_subscriptions::upower::{
    has_battery, kbd_step, BatteryKind, KbdStep, KbdStimulus, KeyboardBacklightRequest,
    PowerDevice,
};

fn bag(pairs: &[(&str, &str)]) -> PropertyBag {
    PropertyBag {
        props: pairs
            .iter()
            .map(|(k, v)| Property { key: k.to_string(), value: v.to_string() })
            .collect(),
    }
}

fn profile(name: &str, available: bool) -> RawCardProfile {
    RawCardProfile {
        name: Some(name.to_string()),
        description: None,
        available,
        n_sinks: 1,
        n_sources: 0,
    }
}

#[test]
fn card_normalization_with_derived_defaults() {
    let raw = RawCard {
        name: None,
        props: bag(&[
            ("object.id", "31"),
            ("alsa.card", "2"),
            ("card.profile.device", "oops"),
        ]),
        ports: vec![
            RawCardPort {
                name: Some("hdmi".to_string()),
                description: None,
                direction_bits: 1,
                props: bag(&[("port.type", "digital"), ("card.profile.port", "7")]),
                priority: 9,
                profiles: vec![profile("p0", true)],
            },
            RawCardPort {
                name: None,
                description: Some("Mic".to_string()),
                direction_bits: 2,
                props: bag(&[("port.type", "weird")]),
                priority: 1,
                profiles: vec![],
            },
            RawCardPort {
                name: None,
                description: None,
                direction_bits: 3,
                props: bag(&[]),
                priority: 0,
                profiles: vec![],
            },
        ],
        profiles: vec![profile("off", false), profile("stereo", true)],
        active_profile: Some(profile("stereo", true)),
    };

    let card = card_from_raw(&raw).unwrap();
    assert_eq!(card.object_id, 31);
    // the card name is derived: absent reads as empty
    assert_eq!(card.name, "");
    // alsa.card selected the shape; the unparseable profile device
    // degrades to zero, the missing card name to empty
    assert_eq!(
        card.variant,
        PulseVariant::Alsa {
            alsa_card: 2,
            alsa_card_name: "".to_string(),
            card_profile_device: 0,
        }
    );
    assert_eq!(card.ports.len(), 3);
    assert_eq!(card.ports[0].direction, Direction::Output);
    assert_eq!(card.ports[0].port_type, PortType::Digital);
    assert_eq!(card.ports[0].profile_port, 7);
    assert_eq!(card.ports[0].profiles.len(), 1);
    assert_eq!(card.ports[1].direction, Direction::Input);
    assert_eq!(card.ports[1].port_type, PortType::Unknown);
    assert_eq!(card.ports[1].profile_port, 0);
    assert_eq!(card.ports[1].description, "Mic");
    assert_eq!(card.ports[2].direction, Direction::Both);
    assert_eq!(card.profiles.len(), 2);
    assert_eq!(card.profiles[1].name, "stereo");
    assert_eq!(card.active_profile.unwrap().name, "stereo");
}

#[test]
fn card_without_required_fields_is_suppressed() {
    // no object id
    let no_id = RawCard {
        name: Some("c".to_string()),
        props: bag(&[("alsa.card", "2")]),
        ports: vec![],
        profiles: vec![],
        active_profile: None,
    };
    assert!(card_from_raw(&no_id).is_none());

    // neither an ALSA number nor a Bluetooth address
    let no_variant = RawCard {
        name: Some("c".to_string()),
        props: bag(&[("object.id", "3")]),
        ports: vec![],
        profiles: vec![],
        active_profile: None,
    };
    assert!(card_from_raw(&no_variant).is_none());
}

#[test]
fn bluetooth_card_requires_only_the_address() {
    let raw = RawCard {
        name: Some("headset".to_string()),
        props: bag(&[("object.id", "4"), ("api.bluez5.address", "AA:BB")]),
        ports: vec![],
        profiles: vec![],
        active_profile: None,
    };
    let card = card_from_raw(&raw).unwrap();
    assert_eq!(
        card.variant,
        PulseVariant::Bluez5 {
            address: "AA:BB".to_string(),
            codec: "".to_string(),
            profile: "".to_string(),
        }
    );
}

#[test]
fn loudest_channel_sets_the_displayed_volume() {
    assert_eq!(max_channel_volume(&vec![100, 200, 50]), 200);
    assert_eq!(max_channel_volume(&vec![]), 0);

    let mut st = ServerState::new();
    st.default_sink_name = Some("sink0".to_string());
    let info = RawDeviceInfo {
        name: Some("sink0".to_string()),
        index: 1,
        // the nominal native volume reads as exactly 100
        channel_volumes: vec![0x10000, 0x8000],
        mute: false,
    };
    let events = sink_update(&mut st, &info);
    assert_eq!(events.len(), 2);
    assert!(matches!(events[0], Event::SinkMute(false)));
    assert!(matches!(events[1], Event::SinkVolume(100)));
}

#[test]
fn sink_update_reports_only_changes() {
    let mut st = ServerState::new();
    st.default_sink_name = Some("sink0".to_string());
    let info = RawDeviceInfo {
        name: Some("sink0".to_string()),
        index: 1,
        channel_volumes: vec![0x8000],
        mute: true,
    };
    let first = sink_update(&mut st, &info);
    assert_eq!(first.len(), 2);
    // the same description again changes nothing
    let second = sink_update(&mut st, &info);
    assert_eq!(second.len(), 0);
    // a description of a non-default sink is ignored outright
    let other = RawDeviceInfo {
        name: Some("sink1".to_string()),
        index: 2,
        channel_volumes: vec![0x10000],
        mute: false,
    };
    assert_eq!(sink_update(&mut st, &other).len(), 0);
}

#[test]
fn source_update_mirrors_the_sink_side() {
    let mut st = ServerState::new();
    st.default_source_name = Some("mic".to_string());
    let info = RawDeviceInfo {
        name: Some("mic".to_string()),
        index: 3,
        channel_volumes: vec![655 * 50],
        mute: false,
    };
    let events = source_update(&mut st, &info);
    assert_eq!(events.len(), 2);
    assert!(matches!(events[0], Event::SourceMute(false)));
    assert!(matches!(events[1], Event::SourceVolume(50)));
    assert_eq!(source_update(&mut st, &info).len(), 0);
}

#[test]
fn server_update_announces_new_defaults_and_chases_them() {
    let mut st = ServerState::new();
    let info = RawServerInfo {
        default_sink_name: Some("s1".to_string()),
        default_source_name: None,
    };
    let (events, queries) = server_update(&mut st, &info);
    assert_eq!(events.len(), 1);
    assert!(matches!(&events[0], Event::DefaultSink(n) if n == "s1"));
    assert_eq!(queries, vec![Query::SinkInfoByName("s1".to_string())]);

    // unchanged defaults are quiet
    let (events, queries) = server_update(&mut st, &info);
    assert!(events.is_empty() && queries.is_empty());

    // both defaults changing announce sink first, then source
    let both = RawServerInfo {
        default_sink_name: Some("s2".to_string()),
        default_source_name: Some("m1".to_string()),
    };
    let (events, queries) = server_update(&mut st, &both);
    assert_eq!(events.len(), 2);
    assert!(matches!(&events[0], Event::DefaultSink(n) if n == "s2"));
    assert!(matches!(&events[1], Event::DefaultSource(n) if n == "m1"));
    assert_eq!(
        queries,
        vec![
            Query::SinkInfoByName("s2".to_string()),
            Query::SourceInfoByName("m1".to_string()),
        ]
    );
}

#[test]
fn subscription_callback_dispatch() {
    assert_eq!(subscribe_action(Facility::Server, 0), Some(Query::ServerInfo));
    assert_eq!(subscribe_action(Facility::Sink, 4), Some(Query::SinkInfoByIndex(4)));
    assert_eq!(subscribe_action(Facility::Source, 5), Some(Query::SourceInfoByIndex(5)));
    assert_eq!(subscribe_action(Facility::Card, 6), Some(Query::CardInfoByIndex(6)));
    assert_eq!(subscribe_action(Facility::Other, 7), None);
}

fn rfkill_table(states: &[(u32, bool, bool)]) -> IdentityTable<RfkillState> {
    let mut table = IdentityTable::new();
    for (id, hard, soft) in states {
        table.upsert(*id, *id, RfkillState { hard: *hard, soft: *soft });
    }
    table
}

#[test]
fn airplane_mode_aggregate_scenarios() {
    // empty table: no radios, not airplane mode
    assert!(!is_airplane_mode(&rfkill_table(&[])));
    // one blocked and one unblocked
    assert!(!is_airplane_mode(&rfkill_table(&[(1, true, false), (2, false, false)])));
    // all blocked
    assert!(is_airplane_mode(&rfkill_table(&[(1, true, false), (2, false, true)])));
    // a single blocked device
    assert!(is_airplane_mode(&rfkill_table(&[(1, false, true)])));
}

#[test]
fn aggregate_recomputes_on_update() {
    let mut table = rfkill_table(&[(1, true, false), (2, true, true)]);
    assert!(is_airplane_mode(&table));
    // an in-place update flips the aggregate, not just add or remove
    table.upsert(2, 2, RfkillState { hard: false, soft: false });
    assert!(!is_airplane_mode(&table));
    table.remove(2);
    assert!(is_airplane_mode(&table));
}

#[test]
fn battery_detection_needs_a_supply_battery() {
    assert!(!has_battery(&vec![]));
    assert!(!has_battery(&vec![PowerDevice { kind: BatteryKind::LinePower, power_supply: true }]));
    assert!(!has_battery(&vec![PowerDevice { kind: BatteryKind::Battery, power_supply: false }]));
    assert!(has_battery(&vec![
        PowerDevice { kind: BatteryKind::Mouse, power_supply: false },
        PowerDevice { kind: BatteryKind::Battery, power_supply: true },
    ]));
}

#[test]
fn keyboard_backlight_dispatch() {
    assert_eq!(kbd_step(KbdStimulus::BrightnessChanged(Some(30))), KbdStep::EmitBrightness(30));
    assert_eq!(kbd_step(KbdStimulus::BrightnessChanged(None)), KbdStep::Nothing);
    assert_eq!(
        kbd_step(KbdStimulus::Request(KeyboardBacklightRequest::Get)),
        KbdStep::QueryBrightness
    );
    assert_eq!(
        kbd_step(KbdStimulus::Request(KeyboardBacklightRequest::SetBrightness(5))),
        KbdStep::SetBrightness(5)
    );
}

#[test]
fn display_brightness_request_passes_through() {
    assert_eq!(apply_request(Request::SetDisplayBrightness(70)), 70);
}

#[test]
fn adapter_activation_defaults_to_disabled() {
    assert_eq!(Active::default(), Active::Disabled);
    assert_ne!(Active::Enabled, Active::Disabled);
}

fn ap(ssid: &str, strength: u8, path: &str) -> AccessPoint {
    AccessPoint {
        ssid: ssid.to_string(),
        strength,
        state: NmState::Activated,
        working: false,
        path: path.to_string(),
    }
}

#[test]
fn scan_results_deduplicate_and_sort_by_strength() {
    let scanned = vec![
        ap("attic", 10, "/ap/1"),
        ap("basement", 80, "/ap/2"),
        ap("attic", 50, "/ap/3"),
        ap("cellar", 50, "/ap/4"),
        ap("attic", 50, "/ap/5"),
    ];
    let result = strongest_access_points(scanned);
    assert_eq!(result.len(), 3);
    // ordered by descending strength — the raw scan was not
    assert_eq!(result[0].ssid, "basement");
    assert_eq!(result[0].strength, 80);
    assert!(result[1].strength >= result[2].strength);
    // each name once, with its maximal strength; among equally strong
    // sightings of "attic" the later one wins
    let attic = result.iter().find(|p| p.ssid == "attic").unwrap();
    assert_eq!(attic.strength, 50);
    assert_eq!(attic.path, "/ap/5");
    assert!(result.iter().any(|p| p.ssid == "cellar" && p.strength == 50));
}

#[test]
fn scan_with_unique_names_only_sorts() {
    let scanned = vec![ap("a", 1, "/1"), ap("b", 3, "/2"), ap("c", 2, "/3")];
    let result = strongest_access_points(scanned);
    let strengths: Vec<u8> = result.iter().map(|p| p.strength).collect();
    assert_eq!(strengths, vec![3, 2, 1]);
}
