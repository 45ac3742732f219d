//! Audio server instantiation of the bridge: normalizes raw card, sink,
//! source and server descriptions into semantic events.
//!
//! The two-tier field policy of the normalizers: a required field that is
//! missing or malformed suppresses the whole event; a derived field — a
//! human-readable name or description — falls back to an empty default
//! and the event still goes out, degraded but present.

use vstd::prelude::*;
use crate::props::{
    lookup, num_prop, opt_text, opt_text_eq, opt_view, spec_num_prop, text_or_empty, Property,
    PropertyBag,
};

verus! {

/// The raw volume the native API reports for a nominal 100%.
pub const VOLUME_NORM: u32 = 0x10000;

/// The native wire value of an input-only port direction.
pub const DIRECTION_INPUT_BITS: u32 = 2;

/// The native wire value of an output-only port direction.
pub const DIRECTION_OUTPUT_BITS: u32 = 1;

#[derive(Clone, Debug, Hash, Eq, PartialEq)]
pub struct Card {
    pub object_id: u32,
    pub name: String,
    pub variant: DeviceVariant,
    pub ports: Vec<CardPort>,
    pub profiles: Vec<CardProfile>,
    pub active_profile: Option<CardProfile>,
}

#[derive(Clone, Debug, Hash, Eq, PartialEq)]
pub struct CardPort {
    pub name: String,
    pub description: String,
    pub direction: Direction,
    pub port_type: PortType,
    pub profile_port: u32,
    pub priority: u32,
    pub profiles: Vec<CardProfile>,
}

#[derive(Clone, Debug, Hash, Eq, PartialEq)]
pub struct CardProfile {
    pub name: String,
    pub description: String,
    pub available: bool,
    pub n_sinks: u32,
    pub n_sources: u32,
}

#[derive(Clone, Debug, Hash, Eq, PartialEq)]
pub enum DeviceVariant {
    Alsa { alsa_card: u32, alsa_card_name: String, card_profile_device: u32 },
    Bluez5 { address: String, codec: String, profile: String },
}

#[derive(Clone, Copy, Debug, Hash, Eq, PartialEq, Structural)]
pub enum Direction {
    Input,
    Output,
    Both,
}

#[derive(Clone, Copy, Debug, Hash, Eq, PartialEq, Structural)]
pub enum PortType {
    Analog,
    Digital,
    Unknown,
}

/// A semantic audio event for the consumer.
#[derive(Clone, Debug)]
pub enum Event {
    CardInfo(Card),
    DefaultSink(String),
    DefaultSource(String),
    SinkVolume(u32),
    SinkMute(bool),
    SourceVolume(u32),
    SourceMute(bool),
}

/// A follow-up introspection the loop thread must issue natively.
#[derive(Clone, Debug, PartialEq, Eq)]
pub enum Query {
    ServerInfo,
    CardInfoByIndex(u32),
    SinkInfoByIndex(u32),
    SinkInfoByName(String),
    SourceInfoByIndex(u32),
    SourceInfoByName(String),
}

/// Which class of native object a change notification concerns.
#[derive(Clone, Copy, Debug, PartialEq, Eq, Structural)]
pub enum Facility {
    Server,
    Sink,
    Source,
    Card,
    Other,
}

/// A raw card profile description.
pub struct RawCardProfile {
    pub name: Option<String>,
    pub description: Option<String>,
    pub available: bool,
    pub n_sinks: u32,
    pub n_sources: u32,
}

/// A raw card port description.
pub struct RawCardPort {
    pub name: Option<String>,
    pub description: Option<String>,
    pub direction_bits: u32,
    pub props: PropertyBag,
    pub priority: u32,
    pub profiles: Vec<RawCardProfile>,
}

/// A raw card description.
pub struct RawCard {
    pub name: Option<String>,
    pub props: PropertyBag,
    pub ports: Vec<RawCardPort>,
    pub profiles: Vec<RawCardProfile>,
    pub active_profile: Option<RawCardProfile>,
}

/// A raw sink or source description, as far as the bridge reads it.
pub struct RawDeviceInfo {
    pub name: Option<String>,
    pub index: u32,
    pub channel_volumes: Vec<u32>,
    pub mute: bool,
}

/// A raw server description.
pub struct RawServerInfo {
    pub default_sink_name: Option<String>,
    pub default_source_name: Option<String>,
}

/// The per-session context the loop thread alone mutates: the current
/// defaults and the last states it reported, for change detection.
pub struct ServerState {
    pub default_sink_name: Option<String>,
    pub default_source_name: Option<String>,
    pub sink_volume: Option<u32>,
    pub sink_mute: Option<bool>,
    pub source_volume: Option<u32>,
    pub source_mute: Option<bool>,
}

impl ServerState {
    /// The context at the start of a session: nothing reported yet.
    pub fn new() -> (s: Self)
        ensures
            s.default_sink_name is None,
            s.default_source_name is None,
            s.sink_volume is None,
            s.sink_mute is None,
            s.source_volume is None,
            s.source_mute is None,
    {
        ServerState {
            default_sink_name: None,
            default_source_name: None,
            sink_volume: None,
            sink_mute: None,
            source_volume: None,
            source_mute: None,
        }
    }
}

/// Does `p` normalize `raw`?  Derived name and description fall back to
/// empty; the counts and the availability flag carry over.
pub open spec fn profile_matches(p: CardProfile, raw: RawCardProfile) -> bool {
    &&& p.name@ == opt_text(raw.name)
    &&& p.description@ == opt_text(raw.description)
    &&& p.available == raw.available
    &&& p.n_sinks == raw.n_sinks
    &&& p.n_sources == raw.n_sources
}

/// The port direction the native wire value denotes.
pub open spec fn spec_direction(bits: u32) -> Direction {
    if bits == DIRECTION_INPUT_BITS {
        Direction::Input
    } else if bits == DIRECTION_OUTPUT_BITS {
        Direction::Output
    } else {
        Direction::Both
    }
}

/// The port type its `port.type` property denotes; anything absent or
/// unrecognized reads as unknown.
pub open spec fn spec_port_type(props: Seq<Property>) -> PortType {
    match lookup(props, "port.type"@) {
        Option::Some(v) => if v == "analog"@ {
            PortType::Analog
        } else if v == "digital"@ {
            PortType::Digital
        } else {
            PortType::Unknown
        },
        Option::None => PortType::Unknown,
    }
}

/// The profile-port number, zero when absent or malformed: a derived
/// field with a numeric default.
pub open spec fn spec_profile_port(props: Seq<Property>) -> u32 {
    match spec_num_prop(props, "card.profile.port"@) {
        Option::Some(v) => v,
        Option::None => 0,
    }
}

/// Does `p` normalize `raw`?
pub open spec fn port_matches(p: CardPort, raw: RawCardPort) -> bool {
    &&& p.name@ == opt_text(raw.name)
    &&& p.description@ == opt_text(raw.description)
    &&& p.direction == spec_direction(raw.direction_bits)
    &&& p.port_type == spec_port_type(raw.props.props@)
    &&& p.profile_port == spec_profile_port(raw.props.props@)
    &&& p.priority == raw.priority
    &&& p.profiles@.len() == raw.profiles@.len()
    &&& forall|i: int| 0 <= i < raw.profiles@.len() ==> profile_matches(
        #[trigger] p.profiles@[i],
        raw.profiles@[i],
    )
}

/// Is the card recognizably an ALSA card?  Its `alsa.card` number is the
/// required variant selector.
pub open spec fn spec_has_alsa(props: Seq<Property>) -> bool {
    spec_num_prop(props, "alsa.card"@) is Some
}

/// Is the card recognizably a Bluetooth card?  Its address is required.
pub open spec fn spec_has_bluez(props: Seq<Property>) -> bool {
    lookup(props, "api.bluez5.address"@) is Some
}

/// Does `v` normalize the variant properties of `props`?  The selector
/// fields are required; the remaining fields are derived, with empty or
/// zero defaults.
pub open spec fn variant_matches(v: DeviceVariant, props: Seq<Property>) -> bool {
    if spec_has_alsa(props) {
        match v {
            DeviceVariant::Alsa { alsa_card, alsa_card_name, card_profile_device } => {
                &&& Option::Some(alsa_card) == spec_num_prop(props, "alsa.card"@)
                &&& alsa_card_name@ == (match lookup(props, "alsa.card_name"@) {
                    Option::Some(t) => t,
                    Option::None => Seq::<char>::empty(),
                })
                &&& card_profile_device == (match spec_num_prop(props, "card.profile.device"@) {
                    Option::Some(n) => n,
                    Option::None => 0u32,
                })
            },
            DeviceVariant::Bluez5 { .. } => false,
        }
    } else if spec_has_bluez(props) {
        match v {
            DeviceVariant::Bluez5 { address, codec, profile } => {
                &&& Option::Some(address@) == lookup(props, "api.bluez5.address"@)
                &&& codec@ == (match lookup(props, "api.bluez5.codec"@) {
                    Option::Some(t) => t,
                    Option::None => Seq::<char>::empty(),
                })
                &&& profile@ == (match lookup(props, "api.bluez5.profile"@) {
                    Option::Some(t) => t,
                    Option::None => Seq::<char>::empty(),
                })
            },
            DeviceVariant::Alsa { .. } => false,
        }
    } else {
        false
    }
}

/// Is the card description complete enough to report at all?  The object
/// identifier and a recognizable variant are required; everything else
/// degrades.
pub open spec fn spec_card_accepted(props: Seq<Property>) -> bool {
    &&& spec_num_prop(props, "object.id"@) is Some
    &&& (spec_has_alsa(props) || spec_has_bluez(props))
}

/// Does `c` normalize `raw`?
pub open spec fn card_matches(c: Card, raw: RawCard) -> bool {
    &&& Option::Some(c.object_id) == spec_num_prop(raw.props.props@, "object.id"@)
    &&& c.name@ == opt_text(raw.name)
    &&& variant_matches(c.variant, raw.props.props@)
    &&& c.ports@.len() == raw.ports@.len()
    &&& forall|i: int| 0 <= i < raw.ports@.len() ==> port_matches(
        #[trigger] c.ports@[i],
        raw.ports@[i],
    )
    &&& c.profiles@.len() == raw.profiles@.len()
    &&& forall|i: int| 0 <= i < raw.profiles@.len() ==> profile_matches(
        #[trigger] c.profiles@[i],
        raw.profiles@[i],
    )
    &&& (match raw.active_profile {
        Option::Some(rp) => c.active_profile matches Option::Some(p) && profile_matches(p, rp),
        Option::None => c.active_profile is None,
    })
}

impl CardProfile {
    /// Normalize one raw profile; every field is derived.
    pub fn from_raw(raw: &RawCardProfile) -> (p: Self)
        ensures
            profile_matches(p, *raw),
    {
        CardProfile {
            name: text_or_empty(&raw.name),
            description: text_or_empty(&raw.description),
            available: raw.available,
            n_sinks: raw.n_sinks,
            n_sources: raw.n_sources,
        }
    }
}

/// Normalize a whole list of raw profiles, in order.
pub fn collect_profiles(raws: &Vec<RawCardProfile>) -> (out: Vec<CardProfile>)
    ensures
        out@.len() == raws@.len(),
        forall|i: int| 0 <= i < raws@.len() ==> profile_matches(#[trigger] out@[i], raws@[i]),
{
    let mut out: Vec<CardProfile> = Vec::new();
    let n = raws.len();
    let mut i: usize = 0;
    while i < n
        invariant
            i <= n == raws@.len(),
            out@.len() == i,
            forall|j: int| 0 <= j < i ==> profile_matches(#[trigger] out@[j], raws@[j]),
        decreases n - i,
    {
        out.push(CardProfile::from_raw(&raws[i]));
        i = i + 1;
    }
    out
}

/// The port direction the native wire value denotes.
pub fn direction_from_bits(bits: u32) -> (d: Direction)
    ensures
        d == spec_direction(bits),
{
    if bits == DIRECTION_INPUT_BITS {
        Direction::Input
    } else if bits == DIRECTION_OUTPUT_BITS {
        Direction::Output
    } else {
        Direction::Both
    }
}

/// Normalize one raw port; every field is derived.
pub fn port_from_raw(raw: &RawCardPort) -> (p: CardPort)
    ensures
        port_matches(p, *raw),
{
    let port_type = match raw.props.get(&"port.type".to_owned()) {
        Option::Some(v) => {
            if *v == "analog".to_owned() {
                PortType::Analog
            } else if *v == "digital".to_owned() {
                PortType::Digital
            } else {
                PortType::Unknown
            }
        },
        Option::None => PortType::Unknown,
    };
    let profile_port = match num_prop(&raw.props, "card.profile.port") {
        Option::Some(v) => v,
        Option::None => 0,
    };
    CardPort {
        name: text_or_empty(&raw.name),
        description: text_or_empty(&raw.description),
        direction: direction_from_bits(raw.direction_bits),
        port_type,
        profile_port,
        priority: raw.priority,
        profiles: collect_profiles(&raw.profiles),
    }
}

/// Normalize a raw card description.
///
/// Required: a parseable `object.id` and a recognizable variant — an
/// `alsa.card` number or a Bluetooth address.  Missing either suppresses
/// the card entirely.  Every other field is derived and degrades to an
/// empty or zero default.
pub fn card_from_raw(raw: &RawCard) -> (r: Option<Card>)
    ensures
        match r {
            Option::Some(c) => spec_card_accepted(raw.props.props@) && card_matches(c, *raw),
            Option::None => !spec_card_accepted(raw.props.props@),
        },
{
    let object_id = match num_prop(&raw.props, "object.id") {
        Option::Some(v) => v,
        Option::None => {
            return Option::None;
        },
    };

    let variant = match num_prop(&raw.props, "alsa.card") {
        Option::Some(alsa_card) => {
            let alsa_card_name = match raw.props.get(&"alsa.card_name".to_owned()) {
                Option::Some(v) => v.clone(),
                Option::None => String::new(),
            };
            let card_profile_device = match num_prop(&raw.props, "card.profile.device") {
                Option::Some(v) => v,
                Option::None => 0,
            };
            DeviceVariant::Alsa { alsa_card, alsa_card_name, card_profile_device }
        },
        Option::None => {
            let address = match raw.props.get(&"api.bluez5.address".to_owned()) {
                Option::Some(v) => v.clone(),
                Option::None => {
                    return Option::None;
                },
            };
            let codec = match raw.props.get(&"api.bluez5.codec".to_owned()) {
                Option::Some(v) => v.clone(),
                Option::None => String::new(),
            };
            let profile = match raw.props.get(&"api.bluez5.profile".to_owned()) {
                Option::Some(v) => v.clone(),
                Option::None => String::new(),
            };
            DeviceVariant::Bluez5 { address, codec, profile }
        },
    };

    let mut ports: Vec<CardPort> = Vec::new();
    let n_ports = raw.ports.len();
    let mut i: usize = 0;
    while i < n_ports
        invariant
            i <= n_ports == raw.ports@.len(),
            ports@.len() == i,
            forall|j: int| 0 <= j < i ==> port_matches(#[trigger] ports@[j], raw.ports@[j]),
        decreases n_ports - i,
    {
        ports.push(port_from_raw(&raw.ports[i]));
        i = i + 1;
    }

    let active_profile = match &raw.active_profile {
        Option::Some(rp) => Option::Some(CardProfile::from_raw(rp)),
        Option::None => Option::None,
    };

    Option::Some(Card {
        object_id,
        name: text_or_empty(&raw.name),
        variant,
        ports,
        profiles: collect_profiles(&raw.profiles),
        active_profile,
    })
}

/// The largest raw channel volume, zero when there are no channels.
pub open spec fn seq_max(s: Seq<u32>) -> u32
    decreases s.len(),
{
    if s.len() == 0 {
        0u32
    } else if s.last() > seq_max(s.drop_last()) {
        s.last()
    } else {
        seq_max(s.drop_last())
    }
}

/// The volume shown to the consumer: the loudest channel, scaled so the
/// nominal native volume reads as 100.
pub open spec fn spec_display_volume(s: Seq<u32>) -> u32 {
    (seq_max(s) / (VOLUME_NORM / 100)) as u32
}

/// The largest raw channel volume.
pub fn max_channel_volume(vols: &Vec<u32>) -> (m: u32)
    ensures
        m == seq_max(vols@),
{
    let mut m: u32 = 0;
    let n = vols.len();
    let mut i: usize = 0;
    while i < n
        invariant
            i <= n == vols@.len(),
            m == seq_max(vols@.take(i as int)),
        decreases n - i,
    {
        proof {
            assert(vols@.take(i as int + 1).drop_last() =~= vols@.take(i as int));
            assert(vols@.take(i as int + 1).last() == vols@[i as int]);
        }
        if vols[i] > m {
            m = vols[i];
        }
        i = i + 1;
    }
    proof {
        assert(vols@.take(n as int) =~= vols@);
    }
    m
}

/// The events one raw sink description produces against the context:
/// mute first if it changed, then volume if it changed.
pub open spec fn spec_sink_events(st: ServerState, info: RawDeviceInfo) -> Seq<Event> {
    let vol = spec_display_volume(info.channel_volumes@);
    let mute_events: Seq<Event> = if st.sink_mute != Option::Some(info.mute) {
        seq![Event::SinkMute(info.mute)]
    } else {
        Seq::empty()
    };
    let volume_events: Seq<Event> = if st.sink_volume != Option::Some(vol) {
        seq![Event::SinkVolume(vol)]
    } else {
        Seq::empty()
    };
    mute_events + volume_events
}

/// Fold one raw sink description through the context.  A description of
/// anything but the current default sink is ignored outright.
pub fn sink_update(st: &mut ServerState, info: &RawDeviceInfo) -> (out: Vec<Event>)
    ensures
        final(st).default_sink_name == old(st).default_sink_name,
        final(st).default_source_name == old(st).default_source_name,
        final(st).source_volume == old(st).source_volume,
        final(st).source_mute == old(st).source_mute,
        opt_view(info.name) != opt_view(old(st).default_sink_name) ==> *final(st) == *old(st)
            && out@ == Seq::<Event>::empty(),
        opt_view(info.name) == opt_view(old(st).default_sink_name) ==> {
            &&& final(st).sink_mute == Option::Some(info.mute)
            &&& final(st).sink_volume == Option::Some(spec_display_volume(info.channel_volumes@))
            &&& out@ == spec_sink_events(*old(st), *info)
        },
{
    let mut out: Vec<Event> = Vec::new();
    if !opt_text_eq(&info.name, &st.default_sink_name) {
        return out;
    }
    let volume = max_channel_volume(&info.channel_volumes) / (VOLUME_NORM / 100);
    let mute_changed = match st.sink_mute {
        Option::Some(m) => m != info.mute,
        Option::None => true,
    };
    if mute_changed {
        st.sink_mute = Option::Some(info.mute);
        out.push(Event::SinkMute(info.mute));
    }
    let volume_changed = match st.sink_volume {
        Option::Some(v) => v != volume,
        Option::None => true,
    };
    if volume_changed {
        st.sink_volume = Option::Some(volume);
        out.push(Event::SinkVolume(volume));
    }
    proof {
        assert(out@ =~= spec_sink_events(*old(st), *info));
    }
    out
}

/// The events one raw source description produces against the context.
pub open spec fn spec_source_events(st: ServerState, info: RawDeviceInfo) -> Seq<Event> {
    let vol = spec_display_volume(info.channel_volumes@);
    let mute_events: Seq<Event> = if st.source_mute != Option::Some(info.mute) {
        seq![Event::SourceMute(info.mute)]
    } else {
        Seq::empty()
    };
    let volume_events: Seq<Event> = if st.source_volume != Option::Some(vol) {
        seq![Event::SourceVolume(vol)]
    } else {
        Seq::empty()
    };
    mute_events + volume_events
}

/// Fold one raw source description through the context.  A description
/// of anything but the current default source is ignored outright.
pub fn source_update(st: &mut ServerState, info: &RawDeviceInfo) -> (out: Vec<Event>)
    ensures
        final(st).default_sink_name == old(st).default_sink_name,
        final(st).default_source_name == old(st).default_source_name,
        final(st).sink_volume == old(st).sink_volume,
        final(st).sink_mute == old(st).sink_mute,
        opt_view(info.name) != opt_view(old(st).default_source_name) ==> *final(st) == *old(st)
            && out@ == Seq::<Event>::empty(),
        opt_view(info.name) == opt_view(old(st).default_source_name) ==> {
            &&& final(st).source_mute == Option::Some(info.mute)
            &&& final(st).source_volume == Option::Some(
                spec_display_volume(info.channel_volumes@),
            )
            &&& out@ == spec_source_events(*old(st), *info)
        },
{
    let mut out: Vec<Event> = Vec::new();
    if !opt_text_eq(&info.name, &st.default_source_name) {
        return out;
    }
    let volume = max_channel_volume(&info.channel_volumes) / (VOLUME_NORM / 100);
    let mute_changed = match st.source_mute {
        Option::Some(m) => m != info.mute,
        Option::None => true,
    };
    if mute_changed {
        st.source_mute = Option::Some(info.mute);
        out.push(Event::SourceMute(info.mute));
    }
    let volume_changed = match st.source_volume {
        Option::Some(v) => v != volume,
        Option::None => true,
    };
    if volume_changed {
        st.source_volume = Option::Some(volume);
        out.push(Event::SourceVolume(volume));
    }
    proof {
        assert(out@ =~= spec_source_events(*old(st), *info));
    }
    out
}

/// Does this event announce `name` as the new default sink?
pub open spec fn announces_default_sink(e: Event, name: Option<String>) -> bool {
    match e {
        Event::DefaultSink(n) => Option::Some(n@) == opt_view(name),
        _ => false,
    }
}

/// Does this event announce `name` as the new default source?
pub open spec fn announces_default_source(e: Event, name: Option<String>) -> bool {
    match e {
        Event::DefaultSource(n) => Option::Some(n@) == opt_view(name),
        _ => false,
    }
}

/// Does this query ask for the sink called `name`?
pub open spec fn queries_sink_by_name(q: Query, name: Option<String>) -> bool {
    match q {
        Query::SinkInfoByName(n) => Option::Some(n@) == opt_view(name),
        _ => false,
    }
}

/// Does this query ask for the source called `name`?
pub open spec fn queries_source_by_name(q: Query, name: Option<String>) -> bool {
    match q {
        Query::SourceInfoByName(n) => Option::Some(n@) == opt_view(name),
        _ => false,
    }
}

/// Did the default sink change to a present name, so that a change event
/// and a follow-up query are due?
pub open spec fn spec_sink_announced(st: ServerState, info: RawServerInfo) -> bool {
    opt_view(info.default_sink_name) != opt_view(st.default_sink_name)
        && info.default_sink_name is Some
}

/// Did the default source change to a present name?
pub open spec fn spec_source_announced(st: ServerState, info: RawServerInfo) -> bool {
    opt_view(info.default_source_name) != opt_view(st.default_source_name)
        && info.default_source_name is Some
}

/// Fold one raw server description through the context.  A changed
/// default sink or source is stored, announced when present, and chased
/// with a by-name introspection so the new device's state follows.
pub fn server_update(st: &mut ServerState, info: &RawServerInfo) -> (out: (Vec<Event>, Vec<
    Query,
>))
    ensures
        final(st).sink_volume == old(st).sink_volume,
        final(st).sink_mute == old(st).sink_mute,
        final(st).source_volume == old(st).source_volume,
        final(st).source_mute == old(st).source_mute,
        opt_view(final(st).default_sink_name) == opt_view(info.default_sink_name),
        opt_view(final(st).default_source_name) == opt_view(info.default_source_name),
        out.0@.len() == out.1@.len(),
        out.0@.len() == (if spec_sink_announced(*old(st), *info) {
            1int
        } else {
            0int
        }) + (if spec_source_announced(*old(st), *info) {
            1int
        } else {
            0int
        }),
        spec_sink_announced(*old(st), *info) ==> announces_default_sink(
            out.0@[0],
            info.default_sink_name,
        ) && queries_sink_by_name(out.1@[0], info.default_sink_name),
        spec_source_announced(*old(st), *info) ==> {
            let at = if spec_sink_announced(*old(st), *info) {
                1int
            } else {
                0int
            };
            announces_default_source(out.0@[at], info.default_source_name)
                && queries_source_by_name(out.1@[at], info.default_source_name)
        },
{
    let mut events: Vec<Event> = Vec::new();
    let mut queries: Vec<Query> = Vec::new();

    if !opt_text_eq(&info.default_sink_name, &st.default_sink_name) {
        match &info.default_sink_name {
            Option::Some(name) => {
                events.push(Event::DefaultSink(name.clone()));
                queries.push(Query::SinkInfoByName(name.clone()));
            },
            Option::None => {},
        }
        st.default_sink_name = crate::props::clone_opt_string(&info.default_sink_name);
    }

    if !opt_text_eq(&info.default_source_name, &st.default_source_name) {
        match &info.default_source_name {
            Option::Some(name) => {
                events.push(Event::DefaultSource(name.clone()));
                queries.push(Query::SourceInfoByName(name.clone()));
            },
            Option::None => {},
        }
        st.default_source_name = crate::props::clone_opt_string(&info.default_source_name);
    }

    (events, queries)
}

/// Which follow-up introspection one native change notification calls
/// for, exactly as the loop's subscription callback dispatches it.
pub fn subscribe_action(facility: Facility, index: u32) -> (r: Option<Query>)
    ensures
        r == (match facility {
            Facility::Server => Option::Some(Query::ServerInfo),
            Facility::Sink => Option::Some(Query::SinkInfoByIndex(index)),
            Facility::Source => Option::Some(Query::SourceInfoByIndex(index)),
            Facility::Card => Option::Some(Query::CardInfoByIndex(index)),
            Facility::Other => Option::None::<Query>,
        }),
{
    match facility {
        Facility::Server => Option::Some(Query::ServerInfo),
        Facility::Sink => Option::Some(Query::SinkInfoByIndex(index)),
        Facility::Source => Option::Some(Query::SourceInfoByIndex(index)),
        Facility::Card => Option::Some(Query::CardInfoByIndex(index)),
        Facility::Other => Option::None,
    }
}

} // verus!
