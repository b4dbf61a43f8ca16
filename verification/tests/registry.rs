use lightyear::channel::builder::{
    Channel, ChannelBuilder, ChannelContainer, ChannelDirection, ChannelMode, ChannelSettings,
    Float32, ReliableSettings,
};
use lightyear::channel::builtin::{
    DefaultUnorderedUnreliableChannel, EntityActionsChannel, EntityUpdatesChannel, InputChannel,
    PingChannel, TickBufferChannel,
};
use lightyear::protocol::channel::{AppChannelExt, ChannelKind, ChannelRegistry};
use std::any::TypeId;

pub struct MyChannel;

impl Channel for MyChannel {
    fn name() -> &'static str {
        "MyChannel"
    }

    fn get_builder(settings: ChannelSettings) -> ChannelBuilder {
        ChannelBuilder { settings }
    }
}

pub struct OtherChannel;

impl Channel for OtherChannel {
    fn name() -> &'static str {
        "OtherChannel"
    }

    fn get_builder(settings: ChannelSettings) -> ChannelBuilder {
        ChannelBuilder { settings }
    }
}

fn settings(mode: ChannelMode, direction: ChannelDirection, priority: f32) -> ChannelSettings {
    ChannelSettings { mode, direction, priority: Float32 { bits: priority.to_bits() } }
}

#[test]
fn test_channel_registry() {
    let mut registry = ChannelRegistry::new();

    let settings = ChannelSettings {
        mode: ChannelMode::UnorderedUnreliable,
        ..Default::default()
    };
    registry.add_channel::<MyChannel>(settings.clone());
    assert_eq!(registry.len(), 1);

    let builder = registry.get_builder_from_net_id(0).unwrap();
    let channel_container: ChannelContainer = builder.build();
    assert_eq!(
        channel_container.setting.mode,
        ChannelMode::UnorderedUnreliable
    );
}

#[test]
fn default_settings() {
    let settings = ChannelSettings::default();
    assert_eq!(settings.mode, ChannelMode::UnorderedUnreliable);
    assert_eq!(settings.direction, ChannelDirection::Bidirectional);
    assert_eq!(f32::from_bits(settings.priority.bits), 1.0);
    let reliable = ReliableSettings::default();
    assert_eq!(f32::from_bits(reliable.rtt_resend_factor.bits), 1.5);
    assert_eq!(reliable.rtt_resend_min_delay, 0);
}

#[test]
fn empty_registry_finds_nothing() {
    let registry = ChannelRegistry::new();
    assert_eq!(registry.len(), 0);
    assert!(registry.get_kind_from_net_id(0).is_none());
    assert!(registry.get_builder_from_net_id(0).is_none());
    assert!(registry.get_net_from_kind(&ChannelKind::of::<MyChannel>()).is_none());
    assert!(registry.get_builder_from_kind(&ChannelKind::of::<MyChannel>()).is_none());
    assert!(registry.name(&ChannelKind::of::<MyChannel>()).is_none());
    assert_eq!(registry.channels().len(), 0);
}

#[test]
fn default_registry_holds_the_builtin_channels() {
    let registry = ChannelRegistry::default();
    let both = ChannelDirection::Bidirectional;
    let up = ChannelDirection::ClientToServer;
    let expected = vec![
        (
            ChannelKind::of::<EntityActionsChannel>(),
            "EntityActionsChannel",
            settings(ChannelMode::UnorderedReliable(ReliableSettings::default()), both, 10.0),
        ),
        (
            ChannelKind::of::<EntityUpdatesChannel>(),
            "EntityUpdatesChannel",
            settings(ChannelMode::UnorderedUnreliableWithAcks, both, 1.0),
        ),
        (
            ChannelKind::of::<PingChannel>(),
            "PingChannel",
            settings(ChannelMode::SequencedUnreliable, both, 1000.0),
        ),
        (
            ChannelKind::of::<InputChannel>(),
            "InputChannel",
            settings(ChannelMode::UnorderedUnreliable, up, 3.0),
        ),
        (
            ChannelKind::of::<DefaultUnorderedUnreliableChannel>(),
            "DefaultUnorderedUnreliableChannel",
            settings(ChannelMode::UnorderedUnreliable, both, 1.0),
        ),
        (
            ChannelKind::of::<TickBufferChannel>(),
            "TickBufferChannel",
            settings(ChannelMode::TickBuffered, up, 1.0),
        ),
    ];
    assert_eq!(registry.len(), 6);
    let channels = registry.channels();
    assert_eq!(channels.len(), 6);
    for (id, (kind, name, settings)) in expected.iter().enumerate() {
        assert_eq!(registry.get_net_from_kind(kind), Some(&(id as u16)));
        assert_eq!(registry.get_kind_from_net_id(id as u16), Some(kind));
        assert_eq!(registry.name(kind), Some(*name));
        assert_eq!(registry.get_builder_from_kind(kind).unwrap().settings, *settings);
        assert_eq!(registry.get_builder_from_net_id(id as u16).unwrap().settings, *settings);
        assert_eq!(channels.get(kind).unwrap().setting, *settings);
    }
    assert!(registry.get_kind_from_net_id(6).is_none());
}

#[test]
fn added_channels_follow_the_builtin_ones() {
    let mut registry = ChannelRegistry::default();
    registry.add_channel::<MyChannel>(ChannelSettings::default());
    registry.add_channel::<OtherChannel>(ChannelSettings::default());
    assert_eq!(registry.get_net_from_kind(&ChannelKind::of::<MyChannel>()), Some(&6));
    assert_eq!(registry.get_net_from_kind(&ChannelKind::of::<OtherChannel>()), Some(&7));
    assert_eq!(registry.get_net_from_kind(&ChannelKind::of::<EntityActionsChannel>()), Some(&0));
}

#[test]
fn adding_again_keeps_the_id_and_replaces_the_builder() {
    let mut registry = ChannelRegistry::new();
    registry.add_channel::<MyChannel>(ChannelSettings::default());
    registry.add_channel::<OtherChannel>(ChannelSettings::default());
    let again = settings(ChannelMode::TickBuffered, ChannelDirection::ServerToClient, 2.5);
    registry.add_channel::<MyChannel>(again);
    assert_eq!(registry.len(), 2);
    assert_eq!(registry.get_net_from_kind(&ChannelKind::of::<MyChannel>()), Some(&0));
    assert_eq!(registry.get_builder_from_net_id(0).unwrap().settings, again);
    assert_eq!(
        registry.get_builder_from_net_id(1).unwrap().settings,
        ChannelSettings::default()
    );
}

#[test]
fn two_registries_agree() {
    let mut a = ChannelRegistry::new();
    let mut b = ChannelRegistry::new();
    a.add_channel::<MyChannel>(ChannelSettings::default());
    a.add_channel::<OtherChannel>(ChannelSettings::default());
    b.add_channel::<MyChannel>(ChannelSettings::default());
    b.add_channel::<OtherChannel>(ChannelSettings::default());
    assert_eq!(a.kind_map(), b.kind_map());
    assert_eq!(a, b);
    assert_eq!(a.clone(), b);
}

#[test]
fn kind_map_maps_both_ways() {
    let mut registry = ChannelRegistry::new();
    registry.add_channel::<OtherChannel>(ChannelSettings::default());
    registry.add_channel::<MyChannel>(ChannelSettings::default());
    let map = registry.kind_map();
    assert_eq!(map.len(), 2);
    assert_eq!(map.kind(1), Some(&ChannelKind::of::<MyChannel>()));
    assert_eq!(map.net_id(&ChannelKind::of::<OtherChannel>()), Some(&0));
    assert_eq!(map.kind(2), None);
}

#[test]
fn kinds_tell_types_apart() {
    assert_eq!(ChannelKind::of::<MyChannel>(), ChannelKind::of::<MyChannel>());
    assert_ne!(ChannelKind::of::<MyChannel>(), ChannelKind::of::<OtherChannel>());
    assert_eq!(ChannelKind::from(TypeId::of::<MyChannel>()), ChannelKind::of::<MyChannel>());
}

#[test]
fn channels_can_be_added_through_the_extension_trait() {
    fn add<A: AppChannelExt>(app: &mut A) {
        app.add_channel::<MyChannel>(ChannelSettings::default());
    }
    let mut registry = ChannelRegistry::new();
    add(&mut registry);
    assert_eq!(registry.name(&ChannelKind::of::<MyChannel>()), Some("MyChannel"));
}

#[test]
fn numbers_are_compared_as_numbers() {
    let number = |x: f32| Float32 { bits: x.to_bits() };
    let values = [
        0.0,
        -0.0,
        1.0,
        -1.0,
        f32::MIN_POSITIVE,
        f32::MAX,
        f32::INFINITY,
        f32::NEG_INFINITY,
        f32::NAN,
        -f32::NAN,
        f32::from_bits(0x7f80_0001),
        f32::from_bits(0xff80_0001),
        f32::from_bits(1),
    ];
    for a in values {
        assert_eq!(number(a).is_nan(), a.is_nan());
        assert_eq!(number(a).is_zero(), a == 0.0);
        for b in values {
            assert_eq!(number(a) == number(b), a == b);
        }
    }
}

#[test]
fn registries_are_compared_by_the_numbers_in_them() {
    let registry = |priority: f32| {
        let mut registry = ChannelRegistry::new();
        registry.add_channel::<MyChannel>(settings(
            ChannelMode::TickBuffered,
            ChannelDirection::Bidirectional,
            priority,
        ));
        registry
    };
    assert_eq!(registry(0.0), registry(-0.0));
    assert_ne!(registry(1.0), registry(2.0));
    let odd = registry(f32::NAN);
    assert_ne!(odd.clone(), odd);
}

#[test]
fn last_registration_counts_among_many() {
    let mut registry = ChannelRegistry::default();
    let with = |priority| {
        settings(ChannelMode::TickBuffered, ChannelDirection::ServerToClient, priority)
    };
    registry.add_channel::<MyChannel>(with(1.0));
    registry.add_channel::<PingChannel>(with(2.0));
    registry.add_channel::<MyChannel>(with(3.0));
    registry.add_channel::<PingChannel>(with(4.0));
    assert_eq!(registry.len(), 7);
    let settings_of =
        |kind: ChannelKind| registry.get_builder_from_kind(&kind).unwrap().settings;
    assert_eq!(settings_of(ChannelKind::of::<MyChannel>()), with(3.0));
    assert_eq!(settings_of(ChannelKind::of::<PingChannel>()), with(4.0));
    assert_eq!(
        settings_of(ChannelKind::of::<InputChannel>()),
        settings(ChannelMode::UnorderedUnreliable, ChannelDirection::ClientToServer, 3.0)
    );
    assert_eq!(registry.name(&ChannelKind::of::<PingChannel>()), Some("PingChannel"));
    assert!(registry.get_builder_from_kind(&ChannelKind::of::<OtherChannel>()).is_none());
}
