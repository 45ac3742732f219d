//! Audio registry instantiation of the bridge: normalizes raw node
//! announcements into device records and folds them through the identity
//! table, emitting add and remove events for the consumer.

use vstd::prelude::*;
use crate::identity::{IdentityTable, TrackedObject};
use crate::props::{lookup, num_prop, spec_num_prop, Property, PropertyBag};
use crate::text::{replace_phrase, replace_seq};

verus! {

/// Device information.
#[must_use]
#[derive(Clone, Debug)]
pub struct Device {
    pub object_id: u32,
    pub variant: DeviceVariant,
    pub media_class: MediaClass,
    pub node_description: String,
    pub node_name: String,
    pub state: DeviceState,
}

#[derive(Clone, Debug, Hash, Eq, PartialEq)]
pub enum DeviceVariant {
    Alsa {
        alsa_card: u32,
        alsa_card_name: String,
        card_profile_device: u32,
        device_profile_description: String,
    },
    Bluez5 { address: String, codec: String, profile: String },
}

#[derive(Clone, Debug, PartialEq, Eq)]
pub enum DeviceState {
    Idle,
    Running,
    Creating,
    Suspended,
    Error(String),
}

#[derive(Clone, Copy, Debug, PartialEq, Eq, Structural)]
pub enum MediaClass {
    Source,
    Sink,
}

/// Mathematical image of a [`Device`]: every string read as its character
/// sequence.
pub struct DeviceView {
    pub object_id: u32,
    pub variant: DeviceVariantView,
    pub media_class: MediaClass,
    pub node_description: Seq<char>,
    pub node_name: Seq<char>,
    pub state: DeviceStateView,
}

pub enum DeviceVariantView {
    Alsa {
        alsa_card: u32,
        alsa_card_name: Seq<char>,
        card_profile_device: u32,
        device_profile_description: Seq<char>,
    },
    Bluez5 { address: Seq<char>, codec: Seq<char>, profile: Seq<char> },
}

pub enum DeviceStateView {
    Idle,
    Running,
    Creating,
    Suspended,
    Error(Seq<char>),
}

impl View for DeviceState {
    type V = DeviceStateView;

    open spec fn view(&self) -> DeviceStateView {
        match self {
            DeviceState::Idle => DeviceStateView::Idle,
            DeviceState::Running => DeviceStateView::Running,
            DeviceState::Creating => DeviceStateView::Creating,
            DeviceState::Suspended => DeviceStateView::Suspended,
            DeviceState::Error(why) => DeviceStateView::Error(why@),
        }
    }
}

impl View for DeviceVariant {
    type V = DeviceVariantView;

    open spec fn view(&self) -> DeviceVariantView {
        match self {
            DeviceVariant::Alsa {
                alsa_card,
                alsa_card_name,
                card_profile_device,
                device_profile_description,
            } => DeviceVariantView::Alsa {
                alsa_card: *alsa_card,
                alsa_card_name: alsa_card_name@,
                card_profile_device: *card_profile_device,
                device_profile_description: device_profile_description@,
            },
            DeviceVariant::Bluez5 { address, codec, profile } => DeviceVariantView::Bluez5 {
                address: address@,
                codec: codec@,
                profile: profile@,
            },
        }
    }
}

impl View for Device {
    type V = DeviceView;

    open spec fn view(&self) -> DeviceView {
        DeviceView {
            object_id: self.object_id,
            variant: self.variant@,
            media_class: self.media_class,
            node_description: self.node_description@,
            node_name: self.node_name@,
            state: self.state@,
        }
    }
}

/// A raw node announcement: the node's property bag, if it carries one,
/// and its run state.
pub struct NodeInfo {
    pub props: Option<PropertyBag>,
    pub state: DeviceState,
}

/// Node event.
pub enum NodeEvent {
    /// Node info.
    NodeInfo(u32, NodeInfo),
    /// Node removal.
    Remove(u32),
}

/// Device event.
#[derive(Clone, Debug)]
pub enum DeviceEvent {
    /// A new device was detected.
    Add(Device),
    /// A device with the given object_id was removed.
    Remove(u32),
}

/// Mathematical image of a [`DeviceEvent`].
pub enum DeviceEventView {
    Add(DeviceView),
    Remove(u32),
}

impl View for DeviceEvent {
    type V = DeviceEventView;

    open spec fn view(&self) -> DeviceEventView {
        match self {
            DeviceEvent::Add(d) => DeviceEventView::Add(d@),
            DeviceEvent::Remove(id) => DeviceEventView::Remove(*id),
        }
    }
}

/// Which device shape a property bag describes.  A parseable `alsa.card`
/// property selects the ALSA shape; everything else is read as a
/// Bluetooth device.  Every remaining field of the selected shape is
/// required: if one is missing the whole announcement is suppressed.
pub open spec fn spec_variant(props: Seq<Property>) -> Option<DeviceVariantView> {
    match spec_num_prop(props, "alsa.card"@) {
        Option::Some(alsa_card) => match lookup(props, "alsa.card_name"@) {
            Option::None => Option::None,
            Option::Some(alsa_card_name) => match spec_num_prop(props, "card.profile.device"@) {
                Option::None => Option::None,
                Option::Some(card_profile_device) => match lookup(
                    props,
                    "device.profile.description"@,
                ) {
                    Option::None => Option::None,
                    Option::Some(descr) => Option::Some(DeviceVariantView::Alsa {
                        alsa_card,
                        alsa_card_name,
                        card_profile_device,
                        device_profile_description: descr,
                    }),
                },
            },
        },
        Option::None => match lookup(props, "api.bluez5.address"@) {
            Option::None => Option::None,
            Option::Some(address) => match lookup(props, "api.bluez5.codec"@) {
                Option::None => Option::None,
                Option::Some(codec) => match lookup(props, "api.bluez5.profile"@) {
                    Option::None => Option::None,
                    Option::Some(profile) => Option::Some(DeviceVariantView::Bluez5 {
                        address,
                        codec,
                        profile,
                    }),
                },
            },
        },
    }
}

/// The media class a property value denotes, if it is one the bridge
/// tracks.
pub open spec fn spec_media_class(raw: Seq<char>) -> Option<MediaClass> {
    if raw == "Audio/Sink"@ {
        Option::Some(MediaClass::Sink)
    } else if raw == "Audio/Source"@ {
        Option::Some(MediaClass::Source)
    } else {
        Option::None
    }
}

/// What a raw node announcement normalizes to.  `None` suppresses the
/// announcement: a missing property bag, a missing or malformed required
/// field, or an untracked media class yields no event and touches no
/// state.
pub open spec fn spec_from_node(info: NodeInfo) -> Option<DeviceView> {
    match info.props {
        Option::None => Option::None,
        Option::Some(bag) => {
            let props = bag.props@;
            match spec_variant(props) {
                Option::None => Option::None,
                Option::Some(variant) => match spec_num_prop(props, "object.id"@) {
                    Option::None => Option::None,
                    Option::Some(object_id) => match lookup(props, "media.class"@) {
                        Option::None => Option::None,
                        Option::Some(mc_raw) => match spec_media_class(mc_raw) {
                            Option::None => Option::None,
                            Option::Some(media_class) => match lookup(
                                props,
                                "node.description"@,
                            ) {
                                Option::None => Option::None,
                                Option::Some(descr) => match lookup(props, "node.name"@) {
                                    Option::None => Option::None,
                                    Option::Some(name) => Option::Some(DeviceView {
                                        object_id,
                                        variant,
                                        media_class,
                                        node_description: replace_seq(
                                            descr,
                                            "High Definition Audio"@,
                                            "HD Audio"@,
                                        ),
                                        node_name: name,
                                        state: info.state@,
                                    }),
                                },
                            },
                        },
                    },
                },
            }
        },
    }
}

impl DeviceState {
    /// A structurally equal copy.
    pub fn duplicate(&self) -> (r: Self)
        ensures
            r == *self,
    {
        match self {
            DeviceState::Idle => DeviceState::Idle,
            DeviceState::Running => DeviceState::Running,
            DeviceState::Creating => DeviceState::Creating,
            DeviceState::Suspended => DeviceState::Suspended,
            DeviceState::Error(why) => DeviceState::Error(why.clone()),
        }
    }
}

impl DeviceVariant {
    /// A structurally equal copy.
    pub fn duplicate(&self) -> (r: Self)
        ensures
            r == *self,
    {
        match self {
            DeviceVariant::Alsa {
                alsa_card,
                alsa_card_name,
                card_profile_device,
                device_profile_description,
            } => DeviceVariant::Alsa {
                alsa_card: *alsa_card,
                alsa_card_name: alsa_card_name.clone(),
                card_profile_device: *card_profile_device,
                device_profile_description: device_profile_description.clone(),
            },
            DeviceVariant::Bluez5 { address, codec, profile } => DeviceVariant::Bluez5 {
                address: address.clone(),
                codec: codec.clone(),
                profile: profile.clone(),
            },
        }
    }
}

impl Device {
    /// A structurally equal copy.
    pub fn duplicate(&self) -> (r: Self)
        ensures
            r == *self,
    {
        Device {
            object_id: self.object_id,
            variant: self.variant.duplicate(),
            media_class: self.media_class,
            node_description: self.node_description.clone(),
            node_name: self.node_name.clone(),
            state: self.state.duplicate(),
        }
    }

    /// Attains device info from a raw node announcement.  Any missing or
    /// malformed required field suppresses the announcement; a previously
    /// stored record for the same object is left untouched by the caller.
    pub fn from_node(info: &NodeInfo) -> (r: Option<Self>)
        ensures
            match r {
                Option::Some(d) => Option::Some(d@) == spec_from_node(*info),
                Option::None => spec_from_node(*info) is None,
            },
    {
        let bag = match &info.props {
            Option::Some(bag) => bag,
            Option::None => {
                return Option::None;
            },
        };

        let alsa_card_prop = num_prop(bag, "alsa.card");
        let variant = match alsa_card_prop {
            Option::Some(alsa_card) => {
                let alsa_card_name = match bag.get(&"alsa.card_name".to_owned()) {
                    Option::Some(v) => v.clone(),
                    Option::None => {
                        return Option::None;
                    },
                };
                let card_profile_device = match num_prop(bag, "card.profile.device") {
                    Option::Some(v) => v,
                    Option::None => {
                        return Option::None;
                    },
                };
                let device_profile_description = match bag.get(
                    &"device.profile.description".to_owned(),
                ) {
                    Option::Some(v) => v.clone(),
                    Option::None => {
                        return Option::None;
                    },
                };
                DeviceVariant::Alsa {
                    alsa_card,
                    alsa_card_name,
                    card_profile_device,
                    device_profile_description,
                }
            },
            Option::None => {
                let address = match bag.get(&"api.bluez5.address".to_owned()) {
                    Option::Some(v) => v.clone(),
                    Option::None => {
                        return Option::None;
                    },
                };
                let codec = match bag.get(&"api.bluez5.codec".to_owned()) {
                    Option::Some(v) => v.clone(),
                    Option::None => {
                        return Option::None;
                    },
                };
                let profile = match bag.get(&"api.bluez5.profile".to_owned()) {
                    Option::Some(v) => v.clone(),
                    Option::None => {
                        return Option::None;
                    },
                };
                DeviceVariant::Bluez5 { address, codec, profile }
            },
        };

        let object_id = match num_prop(bag, "object.id") {
            Option::Some(v) => v,
            Option::None => {
                return Option::None;
            },
        };

        let media_class = match bag.get(&"media.class".to_owned()) {
            Option::Some(mc) => {
                if *mc == "Audio/Sink".to_owned() {
                    MediaClass::Sink
                } else if *mc == "Audio/Source".to_owned() {
                    MediaClass::Source
                } else {
                    return Option::None;
                }
            },
            Option::None => {
                return Option::None;
            },
        };

        let node_description = match bag.get(&"node.description".to_owned()) {
            Option::Some(v) => replace_phrase(v.as_str(), "High Definition Audio", "HD Audio"),
            Option::None => {
                return Option::None;
            },
        };

        let node_name = match bag.get(&"node.name".to_owned()) {
            Option::Some(v) => v.clone(),
            Option::None => {
                return Option::None;
            },
        };

        Option::Some(Device {
            object_id,
            variant,
            media_class,
            node_description,
            node_name,
            state: info.state.duplicate(),
        })
    }
}

/// The identity table contents as the specification reads them: native
/// identifier to domain identifier and normalized record.
pub open spec fn table_view(m: Map<u32, TrackedObject<Device>>) -> Map<u32, (u32, DeviceView)> {
    m.map_values(|t: TrackedObject<Device>| (t.domain_id, t.record@))
}

/// One native registry signal folded through the table: the new table
/// contents and the event forwarded to the consumer, if any.
///
/// A fresh announcement adds the device and emits it; a repeated
/// announcement updates the record in place and is silent; a suppressed
/// announcement changes nothing; a removal of a tracked identifier emits
/// the stable domain identifier; a removal of an unknown identifier is a
/// silent no-op.
pub open spec fn spec_handle(m: Map<u32, (u32, DeviceView)>, ev: NodeEvent) -> (
    Map<u32, (u32, DeviceView)>,
    Option<DeviceEventView>,
) {
    match ev {
        NodeEvent::NodeInfo(pw_id, info) => match spec_from_node(info) {
            Option::None => (m, Option::None),
            Option::Some(dv) => (
                m.insert(pw_id, (dv.object_id, dv)),
                if m.contains_key(pw_id) {
                    Option::None
                } else {
                    Option::Some(DeviceEventView::Add(dv))
                },
            ),
        },
        NodeEvent::Remove(pw_id) => if m.contains_key(pw_id) {
            (m.remove(pw_id), Option::Some(DeviceEventView::Remove(m[pw_id].0)))
        } else {
            (m, Option::None)
        },
    }
}

/// Fold one native registry signal through the identity table.
pub fn handle_node_event(table: &mut IdentityTable<Device>, ev: NodeEvent) -> (out: Option<
    DeviceEvent,
>)
    requires
        old(table).well_formed(),
    ensures
        final(table).well_formed(),
        table_view(final(table)@) == spec_handle(table_view(old(table)@), ev).0,
        (match out {
            Option::Some(e) => Option::Some(e@),
            Option::None => Option::None::<DeviceEventView>,
        }) == spec_handle(table_view(old(table)@), ev).1,
{
    match ev {
        NodeEvent::NodeInfo(pw_id, info) => {
            match Device::from_node(&info) {
                Option::Some(device) => {
                    let record = device.duplicate();
                    let prev = table.upsert(pw_id, device.object_id, record);
                    proof {
                        assert(table_view(final(table)@) =~= table_view(old(table)@).insert(
                            pw_id,
                            (device@.object_id, device@),
                        ));
                    }
                    match prev {
                        Option::Some(_) => Option::None,
                        Option::None => Option::Some(DeviceEvent::Add(device)),
                    }
                },
                Option::None => Option::None,
            }
        },
        NodeEvent::Remove(pw_id) => {
            let removed = table.remove(pw_id);
            proof {
                if old(table)@.contains_key(pw_id) {
                    assert(table_view(final(table)@) =~= table_view(old(table)@).remove(pw_id));
                } else {
                    assert(table_view(final(table)@) =~= table_view(old(table)@));
                }
            }
            match removed {
                Option::Some(domain_id) => Option::Some(DeviceEvent::Remove(domain_id)),
                Option::None => Option::None,
            }
        },
    }
}

/// A repeated announcement of an unchanged native object is silent: the
/// second signal emits no event at all — in particular never a removal —
/// and leaves the table exactly as the first one left it.
pub proof fn lemma_duplicate_announcement_is_silent(
    m: Map<u32, (u32, DeviceView)>,
    pw_id: u32,
    info: NodeInfo,
)
    ensures
        ({
            let first = spec_handle(m, NodeEvent::NodeInfo(pw_id, info));
            let second = spec_handle(first.0, NodeEvent::NodeInfo(pw_id, info));
            second.0 == first.0 && second.1 is None
        }),
{
    match spec_from_node(info) {
        Option::None => {
        }
        Option::Some(dv) => {
            let first = spec_handle(m, NodeEvent::NodeInfo(pw_id, info));
            assert(first.0.insert(pw_id, (dv.object_id, dv)) =~= first.0);
        }
    }
}

} // verus!
