//! The registry of channels.
use std::any::TypeId;
use vstd::prelude::*;
use vstd::std_specs::convert::FromSpec;
use crate::channel::builder::{
    Channel, ChannelBuilder, ChannelContainer, ChannelDirection, ChannelMode, ChannelSettings,
    Float32, ReliableSettings,
};
use crate::channel::builtin::{
    DefaultUnorderedUnreliableChannel, EntityActionsChannel, EntityUpdatesChannel, InputChannel,
    PingChannel, TickBufferChannel,
};
use crate::protocol::registry::{with_kind, NetId, TypeKind, TypeMapper};
use crate::vec_map::{has_key, position_of, Key, VecMap};

verus! {

/// `std::any::TypeId`, the identity of a type. Its contents are not looked into.
#[verifier::external_type_specification]
#[verifier::external_body]
pub struct ExTypeId(std::any::TypeId);

/// `std::any::TypeId::of`. Nothing is claimed of it here but that verified code may speak of its
/// outcomes, as [`type_id_of`] does; see [`channel_type_id`] for what is claimed of the result.
pub assume_specification<T: ?Sized + 'static>[ std::any::TypeId::of::<T> ]() -> (id: TypeId)
;

/// The id that `TypeId::of` gives for the type `T`.
pub open spec fn type_id_of<T: ?Sized + 'static>() -> TypeId {
    choose|id: TypeId| call_ensures(TypeId::of::<T>, (), id)
}

/// The name of the channel type that an id belongs to.
///
/// An id belongs to one type only, so what the type fixes is fixed by the id.
pub uninterp spec fn channel_name_of(id: TypeId) -> Seq<char>;

/// `std::any::TypeId::of`, for a channel type.
///
/// Claimed of it: all calls for one type return the same id; and ids are unique to a type, so
/// that two channel types with different names have different ids.
#[verifier::external_body]
fn channel_type_id<C: Channel>() -> (id: TypeId)
    ensures
        id == type_id_of::<C>(),
        channel_name_of(id) == C::spec_name(),
{
    TypeId::of::<C>()
}

/// `==` on `std::any::TypeId`.
///
/// Claimed of it: it tells exactly whether the two ids are the same value.
#[verifier::external_body]
fn same_type_id(a: &TypeId, b: &TypeId) -> (same: bool)
    ensures
        same == (*a == *b),
{
    a == b
}

/// The identity of a channel's type.
#[derive(Debug, Eq, Hash, Copy, Clone, PartialEq)]
pub struct ChannelKind(TypeId);

/// The id under which a channel goes over the network.
pub type ChannelId = NetId;

impl ChannelKind {
    /// The id of the type.
    pub closed spec fn type_id(self) -> TypeId {
        self.0
    }

    /// The name of the channel type.
    pub open spec fn channel_name(self) -> Seq<char> {
        channel_name_of(self.type_id())
    }

    /// The kind of the channel type `C`.
    pub closed spec fn spec_of<C: Channel>() -> ChannelKind {
        ChannelKind(type_id_of::<C>())
    }

    /// The kind of the channel type `C`.
    pub fn of<C: Channel>() -> (kind: Self)
        ensures
            kind == Self::spec_of::<C>(),
            kind == Self::from_spec(type_id_of::<C>()),
            kind.type_id() == type_id_of::<C>(),
            kind.channel_name() == C::spec_name(),
    {
        ChannelKind(channel_type_id::<C>())
    }
}

impl Key for ChannelKind {
    fn same(&self, other: &Self) -> (same: bool) {
        same_type_id(&self.0, &other.0)
    }
}

impl TypeKind for ChannelKind {

}

impl From<TypeId> for ChannelKind {
    fn from(type_id: TypeId) -> (kind: Self) {
        ChannelKind(type_id)
    }
}

impl vstd::std_specs::convert::FromSpecImpl<TypeId> for ChannelKind {
    open spec fn obeys_from_spec() -> bool {
        true
    }

    closed spec fn from_spec(type_id: TypeId) -> ChannelKind {
        ChannelKind(type_id)
    }
}

/// What a [`ChannelRegistry`] holds.
#[verifier::ext_equal]
pub struct Registrations {
    /// The registered kinds; the one at position `i` has the network id `i`.
    pub kinds: Seq<ChannelKind>,
    /// The builder of each registered kind.
    pub builders: Map<ChannelKind, ChannelBuilder>,
    /// The name of each registered kind.
    pub names: Map<ChannelKind, Seq<char>>,
}

impl Registrations {
    /// No channel at all.
    pub open spec fn empty() -> Registrations {
        Registrations { kinds: Seq::empty(), builders: Map::empty(), names: Map::empty() }
    }

    /// With a channel added. One that is there already keeps its network id and gets the new
    /// builder and name.
    pub open spec fn with(
        self,
        kind: ChannelKind,
        builder: ChannelBuilder,
        name: Seq<char>,
    ) -> Registrations {
        Registrations {
            kinds: with_kind(self.kinds, kind),
            builders: self.builders.insert(kind, builder),
            names: self.names.insert(kind, name),
        }
    }

    /// With the channel type `C` added under the given settings.
    pub open spec fn with_channel<C: Channel>(self, settings: ChannelSettings) -> Registrations {
        self.with(ChannelKind::spec_of::<C>(), C::spec_builder(settings), C::spec_name())
    }

    /// One built channel for every registered kind.
    pub open spec fn containers(self) -> Map<ChannelKind, ChannelContainer> {
        self.builders.map_values(|builder: ChannelBuilder| builder.spec_build())
    }

    /// Whether there is a network id left for the kind.
    pub open spec fn has_room_for(self, kind: ChannelKind) -> bool {
        self.kinds.contains(kind) || self.kinds.len() < NetId::MAX
    }

    /// No kind has two network ids, and every registered kind has a builder and is kept under
    /// the name of its type.
    pub open spec fn valid(self) -> bool {
        &&& self.kinds.no_duplicates()
        &&& forall|kind: ChannelKind| #[trigger]
            self.builders.contains_key(kind) <==> self.kinds.contains(kind)
        &&& forall|kind: ChannelKind| #[trigger]
            self.names.contains_key(kind) <==> self.kinds.contains(kind)
        &&& forall|kind: ChannelKind| #[trigger]
            self.names.contains_key(kind) ==> self.names[kind] == kind.channel_name()
    }
}

/// Registry of the channels, with their builders, names and network ids.
#[derive(Debug, PartialEq)]
pub struct ChannelRegistry {
    // The builders are kept, and not the channels, because one channel can have many instances.
    builder_map: VecMap<ChannelKind, ChannelBuilder>,
    kind_map: TypeMapper<ChannelKind>,
    name_map: VecMap<ChannelKind, String>,
    built: bool,
}

impl View for ChannelRegistry {
    type V = Registrations;

    closed spec fn view(&self) -> Registrations {
        Registrations {
            kinds: self.kind_map@,
            builders: self.builder_map@,
            names: self.name_map@.map_values(|name: String| name@),
        }
    }
}

impl ChannelRegistry {
    /// The registry's parts are well formed and speak of the same kinds.
    pub closed spec fn wf(&self) -> bool {
        &&& self.builder_map.wf()
        &&& self.kind_map.wf()
        &&& self.name_map.wf()
        &&& self@.valid()
    }

    /// A registry without any channel.
    pub fn new() -> (registry: Self)
        ensures
            registry.wf(),
            registry@ == Registrations::empty(),
    {
        let registry = ChannelRegistry {
            builder_map: VecMap::new(),
            kind_map: TypeMapper::new(),
            name_map: VecMap::new(),
            built: false,
        };
        assert(registry@ =~= Registrations::empty());
        registry
    }

    /// Registers the channel type `C` under the given settings.
    pub fn add_channel<C: Channel>(&mut self, settings: ChannelSettings)
        requires
            old(self).wf(),
            old(self)@.has_room_for(ChannelKind::spec_of::<C>()),
        ensures
            final(self).wf(),
            final(self)@ == old(self)@.with_channel::<C>(settings),
    {
        let kind = ChannelKind::of::<C>();
        self.kind_map.add(kind);
        self.builder_map.insert(kind, C::get_builder(settings));
        let name = C::name();
        self.name_map.insert(kind, name.to_string());
        proof {
            broadcast use vstd::string::to_string_from_display_ensures_for_str;
            assert(self@ =~= old(self)@.with_channel::<C>(settings));
            law_adding_keeps_registrations_valid(
                old(self)@,
                kind,
                C::spec_builder(settings),
                C::spec_name(),
            );
        }
    }

    /// Builds every registered channel.
    pub fn channels(&self) -> (channels: VecMap<ChannelKind, ChannelContainer>)
        requires
            self.wf(),
        ensures
            channels.wf(),
            channels@ == self@.containers(),
    {
        let mut channels: VecMap<ChannelKind, ChannelContainer> = VecMap::new();
        let len = self.builder_map.len();
        let mut i: usize = 0;
        proof {
            self.builder_map.lemma_entries();
        }
        while i < len
            invariant
                self.wf(),
                len == self.builder_map.entries().len(),
                i <= len,
                channels.wf(),
                forall|kind: ChannelKind| #[trigger]
                    channels@.contains_key(kind) <==> has_key(
                        self.builder_map.entries().take(i as int),
                        kind,
                    ),
                forall|kind: ChannelKind| #[trigger]
                    channels@.contains_key(kind) ==> channels@[kind]
                        == self.builder_map@[kind].spec_build(),
            decreases len - i,
        {
            let (kind, builder) = self.builder_map.entry(i);
            let ghost before = channels@;
            channels.insert(*kind, builder.build());
            proof {
                self.builder_map.lemma_entries();
                let entries = self.builder_map.entries();
                assert forall|k: ChannelKind| #[trigger]
                    channels@.contains_key(k) <==> has_key(entries.take(i + 1), k) by {
                    assert(entries.take(i + 1)[i as int].0 == *kind);
                    if before.contains_key(k) {
                        let j = position_of(entries.take(i as int), k);
                        assert(entries.take(i + 1)[j].0 == k);
                    }
                    if has_key(entries.take(i + 1), k) && k != *kind {
                        let j = position_of(entries.take(i + 1), k);
                        assert(entries.take(i as int)[j].0 == k);
                    }
                }
            }
            i += 1;
        }
        proof {
            self.builder_map.lemma_entries();
            assert(self.builder_map.entries().take(len as int) =~= self.builder_map.entries());
            let entries = self.builder_map.entries();
            assert forall|k: ChannelKind| has_key(entries, k) implies #[trigger]
                self.builder_map@.contains_key(k) by {
                assert(self.builder_map@.contains_key(entries[position_of(entries, k)].0));
            }
            assert(channels@ =~= self@.containers());
        }
        channels
    }

    /// The assignment of network ids to channels.
    pub fn kind_map(&self) -> (kind_map: TypeMapper<ChannelKind>)
        requires
            self.wf(),
        ensures
            kind_map.wf(),
            kind_map@ == self@.kinds,
    {
        self.kind_map.clone()
    }

    /// The builder of a channel.
    pub fn get_builder_from_kind(&self, channel_kind: &ChannelKind) -> (builder: Option<
        &ChannelBuilder,
    >)
        requires
            self.wf(),
        ensures
            match builder {
                Some(b) => self@.kinds.contains(*channel_kind) && *b
                    == self@.builders[*channel_kind],
                None => !self@.kinds.contains(*channel_kind),
            },
    {
        self.builder_map.get(channel_kind)
    }

    /// The channel that has the network id.
    pub fn get_kind_from_net_id(&self, channel_id: ChannelId) -> (kind: Option<&ChannelKind>)
        requires
            self.wf(),
        ensures
            match kind {
                Some(k) => channel_id < self@.kinds.len() && *k == self@.kinds[channel_id as int],
                None => channel_id >= self@.kinds.len(),
            },
    {
        self.kind_map.kind(channel_id)
    }

    /// The network id of a channel.
    pub fn get_net_from_kind(&self, kind: &ChannelKind) -> (net_id: Option<&NetId>)
        requires
            self.wf(),
        ensures
            match net_id {
                Some(id) => *id < self@.kinds.len() && self@.kinds[*id as int] == *kind,
                None => !self@.kinds.contains(*kind),
            },
    {
        self.kind_map.net_id(kind)
    }

    /// The name of a channel.
    pub fn name(&self, kind: &ChannelKind) -> (name: Option<&str>)
        requires
            self.wf(),
        ensures
            match name {
                Some(n) => self@.kinds.contains(*kind) && n@ == self@.names[*kind],
                None => !self@.kinds.contains(*kind),
            },
    {
        assert(self@.names.contains_key(*kind) == self.name_map@.contains_key(*kind));
        match self.name_map.get(kind) {
            Some(name) => Some(name.as_str()),
            None => None,
        }
    }

    /// The builder of the channel that has the network id.
    pub fn get_builder_from_net_id(&self, channel_id: ChannelId) -> (builder: Option<
        &ChannelBuilder,
    >)
        requires
            self.wf(),
        ensures
            match builder {
                Some(b) => channel_id < self@.kinds.len() && *b
                    == self@.builders[self@.kinds[channel_id as int]],
                None => channel_id >= self@.kinds.len(),
            },
    {
        let channel_kind = self.get_kind_from_net_id(channel_id)?;
        self.get_builder_from_kind(channel_kind)
    }

    /// The number of registered channels.
    pub fn len(&self) -> (len: usize)
        requires
            self.wf(),
        ensures
            len == self@.kinds.len(),
    {
        self.kind_map.len()
    }
}

impl Clone for ChannelRegistry {
    fn clone(&self) -> (registry: Self)
        ensures
            self.wf() ==> registry.wf() && registry@ == self@,
    {
        let registry = ChannelRegistry {
            builder_map: self.builder_map.clone(),
            kind_map: self.kind_map.clone(),
            name_map: self.name_map.clone(),
            built: self.built,
        };
        assert(self.wf() ==> registry@ =~= self@);
        registry
    }
}

/// Settings with the given mode, direction and priority.
pub open spec fn settings_of(
    mode: ChannelMode,
    direction: ChannelDirection,
    priority: u32,
) -> ChannelSettings {
    ChannelSettings { mode, direction, priority: Float32 { bits: priority } }
}

impl Registrations {
    /// The channels that every application has: entity actions (priority 10), entity updates
    /// (1), pings (1000), inputs (3), messages without a channel of their own (1) and
    /// tick-buffered messages (1).
    pub open spec fn builtin() -> Registrations {
        Registrations::empty().with_channel::<EntityActionsChannel>(
            settings_of(
                ChannelMode::UnorderedReliable(ReliableSettings::spec_default()),
                ChannelDirection::Bidirectional,
                0x4120_0000,
            ),
        ).with_channel::<EntityUpdatesChannel>(
            settings_of(
                ChannelMode::UnorderedUnreliableWithAcks,
                ChannelDirection::Bidirectional,
                0x3f80_0000,
            ),
        ).with_channel::<PingChannel>(
            settings_of(
                ChannelMode::SequencedUnreliable,
                ChannelDirection::Bidirectional,
                0x447a_0000,
            ),
        ).with_channel::<InputChannel>(
            settings_of(
                ChannelMode::UnorderedUnreliable,
                ChannelDirection::ClientToServer,
                0x4040_0000,
            ),
        ).with_channel::<DefaultUnorderedUnreliableChannel>(
            settings_of(
                ChannelMode::UnorderedUnreliable,
                ChannelDirection::Bidirectional,
                0x3f80_0000,
            ),
        ).with_channel::<TickBufferChannel>(
            settings_of(
                ChannelMode::TickBuffered,
                ChannelDirection::ClientToServer,
                0x3f80_0000,
            ),
        )
    }

    /// The kinds of the channels that every application has, in the order of their network ids.
    pub open spec fn builtin_kinds() -> Seq<ChannelKind> {
        seq![
            ChannelKind::spec_of::<EntityActionsChannel>(),
            ChannelKind::spec_of::<EntityUpdatesChannel>(),
            ChannelKind::spec_of::<PingChannel>(),
            ChannelKind::spec_of::<InputChannel>(),
            ChannelKind::spec_of::<DefaultUnorderedUnreliableChannel>(),
            ChannelKind::spec_of::<TickBufferChannel>(),
        ]
    }
}

impl Default for ChannelRegistry {
    /// A registry with the channels that every application has.
    fn default() -> (registry: Self)
        ensures
            registry.wf(),
            registry@ == Registrations::builtin(),
            registry@.kinds == Registrations::builtin_kinds(),
    {
        let mut registry = ChannelRegistry::new();
        registry.add_channel::<EntityActionsChannel>(
            ChannelSettings {
                mode: ChannelMode::UnorderedReliable(ReliableSettings::default()),
                direction: ChannelDirection::Bidirectional,
                // entity actions are sent as soon as possible: 10.0
                priority: Float32 { bits: 0x4120_0000 },
            },
        );
        assert(registry@.names.contains_key(ChannelKind::spec_of::<EntityActionsChannel>()));
        registry.add_channel::<EntityUpdatesChannel>(
            ChannelSettings {
                mode: ChannelMode::UnorderedUnreliableWithAcks,
                direction: ChannelDirection::Bidirectional,
                // 1.0
                priority: Float32 { bits: 0x3f80_0000 },
            },
        );
        assert(registry@.names.contains_key(ChannelKind::spec_of::<EntityUpdatesChannel>()));
        registry.add_channel::<PingChannel>(
            ChannelSettings {
                mode: ChannelMode::SequencedUnreliable,
                direction: ChannelDirection::Bidirectional,
                // a ping always goes into the packet: 1000.0
                priority: Float32 { bits: 0x447a_0000 },
            },
        );
        assert(registry@.names.contains_key(ChannelKind::spec_of::<PingChannel>()));
        registry.add_channel::<InputChannel>(
            ChannelSettings {
                mode: ChannelMode::UnorderedUnreliable,
                direction: ChannelDirection::ClientToServer,
                // 3.0
                priority: Float32 { bits: 0x4040_0000 },
            },
        );
        assert(registry@.names.contains_key(ChannelKind::spec_of::<InputChannel>()));
        registry.add_channel::<DefaultUnorderedUnreliableChannel>(
            ChannelSettings {
                mode: ChannelMode::UnorderedUnreliable,
                direction: ChannelDirection::Bidirectional,
                // 1.0
                priority: Float32 { bits: 0x3f80_0000 },
            },
        );
        assert(registry@.names.contains_key(
            ChannelKind::spec_of::<DefaultUnorderedUnreliableChannel>(),
        ));
        registry.add_channel::<TickBufferChannel>(
            ChannelSettings {
                mode: ChannelMode::TickBuffered,
                direction: ChannelDirection::ClientToServer,
                // 1.0
                priority: Float32 { bits: 0x3f80_0000 },
            },
        );
        assert(registry@.names.contains_key(ChannelKind::spec_of::<TickBufferChannel>()));
        proof {
            lemma_builtin_kinds();
        }
        registry
    }
}

/// The kind of the channel type `C` has the name of that type.
spec fn named<C: Channel>() -> bool {
    ChannelKind::spec_of::<C>().channel_name() == C::spec_name()
}

/// The built-in channels have different names, so each gets a network id of its own.
proof fn lemma_builtin_kinds()
    requires
        named::<EntityActionsChannel>(),
        named::<EntityUpdatesChannel>(),
        named::<PingChannel>(),
        named::<InputChannel>(),
        named::<DefaultUnorderedUnreliableChannel>(),
        named::<TickBufferChannel>(),
    ensures
        Registrations::builtin().kinds == Registrations::builtin_kinds(),
{
    reveal_strlit("EntityActionsChannel");
    reveal_strlit("EntityUpdatesChannel");
    reveal_strlit("PingChannel");
    reveal_strlit("InputChannel");
    reveal_strlit("DefaultUnorderedUnreliableChannel");
    reveal_strlit("TickBufferChannel");
    assert("EntityActionsChannel"@[6] != "EntityUpdatesChannel"@[6]);
    let kinds = Registrations::builtin_kinds();
    assert("EntityActionsChannel"@.len() == 20);
    assert("EntityUpdatesChannel"@.len() == 20);
    assert("PingChannel"@.len() == 11);
    assert("InputChannel"@.len() == 12);
    assert("DefaultUnorderedUnreliableChannel"@.len() == 33);
    assert("TickBufferChannel"@.len() == 17);
    assert forall|i: int, j: int| 0 <= i < j < 6 implies kinds[i] != kinds[j] by {
        assert(i == 0 || i == 1 || i == 2 || i == 3 || i == 4);
        assert(j == 1 || j == 2 || j == 3 || j == 4 || j == 5);
        assert(kinds[i].channel_name() != kinds[j].channel_name());
    }
    lemma_registered_in_order(kinds, 0);
    lemma_registered_in_order(kinds, 1);
    lemma_registered_in_order(kinds, 2);
    lemma_registered_in_order(kinds, 3);
    lemma_registered_in_order(kinds, 4);
    lemma_registered_in_order(kinds, 5);
    assert(kinds.take(0) =~= Seq::empty());
    assert(kinds.take(6) =~= kinds);
}

/// Adding the next of several different kinds gives it the next place.
proof fn lemma_registered_in_order(kinds: Seq<ChannelKind>, i: int)
    requires
        0 <= i < kinds.len(),
        kinds.no_duplicates(),
    ensures
        with_kind(kinds.take(i), kinds[i]) == kinds.take(i + 1),
{
    assert(!kinds.take(i).contains(kinds[i]));
    assert(kinds.take(i + 1) =~= kinds.take(i).push(kinds[i]));
}

/// Adding a channel keeps registrations valid.
pub proof fn law_adding_keeps_registrations_valid(
    before: Registrations,
    kind: ChannelKind,
    builder: ChannelBuilder,
    name: Seq<char>,
)
    requires
        before.valid(),
        name == kind.channel_name(),
    ensures
        before.with(kind, builder, name).valid(),
{
    let after = before.with(kind, builder, name);
    assert forall|k: ChannelKind| #[trigger]
        after.kinds.contains(k) <==> (k == kind || before.kinds.contains(k)) by {
        if before.kinds.contains(k) {
            let i = choose|i: int| 0 <= i < before.kinds.len() && before.kinds[i] == k;
            assert(after.kinds[i] == k);
        }
        if !before.kinds.contains(kind) {
            assert(after.kinds[before.kinds.len() as int] == kind);
        }
    }
}

/// Something that channels can be added to, such as an application.
pub trait AppChannelExt {
    /// The channels added so far.
    open spec fn registrations(&self) -> Registrations {
        Registrations::empty()
    }

    /// Whether there is a well-formed registry to add to. Unless the implementation says when
    /// there is one, verified code cannot add to it.
    open spec fn has_registry(&self) -> bool {
        false
    }

    /// Registers the channel type `C` under the given settings.
    fn add_channel<C: Channel>(&mut self, settings: ChannelSettings)
        requires
            old(self).has_registry(),
            old(self).registrations().has_room_for(ChannelKind::spec_of::<C>()),
        ensures
            final(self).has_registry(),
            final(self).registrations() == old(self).registrations().with_channel::<C>(settings),
    ;
}

impl AppChannelExt for ChannelRegistry {
    open spec fn registrations(&self) -> Registrations {
        self@
    }

    open spec fn has_registry(&self) -> bool {
        self.wf()
    }

    fn add_channel<C: Channel>(&mut self, settings: ChannelSettings) {
        ChannelRegistry::add_channel::<C>(self, settings)
    }
}

impl Registrations {
    /// With several channels added, one after the other.
    pub open spec fn with_all(
        self,
        channels: Seq<(ChannelKind, ChannelBuilder, Seq<char>)>,
    ) -> Registrations
        decreases channels.len(),
    {
        if channels.len() == 0 {
            self
        } else {
            let (kind, builder, name) = channels.last();
            self.with_all(channels.drop_last()).with(kind, builder, name)
        }
    }
}

/// A kind holds the id of its type and nothing else: it can be made from that id, and kinds of
/// the same type are equal.
pub proof fn law_a_kind_is_a_type_id<C: Channel>(id: TypeId, kind: ChannelKind)
    ensures
        ChannelKind::from_spec(id).type_id() == id,
        kind.type_id() == id ==> kind == ChannelKind::from_spec(id),
        ChannelKind::from_spec(type_id_of::<C>()) == ChannelKind::spec_of::<C>(),
{
}

/// Calls of [`ChannelKind::of`] for one channel type all give the same kind, which is the one made
/// from the id of the type; and calls for channel types with different names give different
/// kinds.
pub proof fn law_kinds_follow_types<A: Channel, B: Channel>(
    a: ChannelKind,
    again: ChannelKind,
    b: ChannelKind,
)
    requires
        call_ensures(ChannelKind::of::<A>, (), a),
        call_ensures(ChannelKind::of::<A>, (), again),
        call_ensures(ChannelKind::of::<B>, (), b),
    ensures
        a == again,
        a == ChannelKind::from_spec(type_id_of::<A>()),
        a == b <==> type_id_of::<A>() == type_id_of::<B>(),
        a == b ==> A::spec_name() == B::spec_name(),
{
}

/// In every registry no two network ids belong to one channel, and exactly the channels with a
/// network id have a builder and a name.
pub proof fn law_registry_is_valid(registry: ChannelRegistry)
    requires
        registry.wf(),
    ensures
        registry@.valid(),
{
}

/// The network id of a channel leads back to that channel, and to no other; and the channel of
/// a network id leads back to that id.
pub proof fn law_net_ids_and_kinds_are_one_to_one(registrations: Registrations, i: int, j: int)
    requires
        registrations.valid(),
        0 <= i < registrations.kinds.len(),
        0 <= j < registrations.kinds.len(),
    ensures
        registrations.kinds.contains(registrations.kinds[i]),
        registrations.kinds[i] == registrations.kinds[j] <==> i == j,
{
}

/// A channel that was added is found under its kind, with the builder and the name that its type
/// gives it, and it has a network id.
pub proof fn law_added_channel_is_found<C: Channel>(
    before: Registrations,
    settings: ChannelSettings,
)
    ensures
        ({
            let kind = ChannelKind::spec_of::<C>();
            let after = before.with_channel::<C>(settings);
            &&& after.kinds.contains(kind)
            &&& after.builders.contains_key(kind)
            &&& after.builders[kind] == C::spec_builder(settings)
            &&& after.names.contains_key(kind)
            &&& after.names[kind] == C::spec_name()
        }),
{
    let kind = ChannelKind::spec_of::<C>();
    if !before.kinds.contains(kind) {
        assert(before.kinds.push(kind)[before.kinds.len() as int] == kind);
    }
}

/// A new channel gets the lowest free network id. Adding a channel changes no network id that
/// was given before, and no builder and no name of another channel.
pub proof fn law_adding_keeps_the_others(
    before: Registrations,
    kind: ChannelKind,
    builder: ChannelBuilder,
    name: Seq<char>,
    other: ChannelKind,
    id: int,
)
    requires
        before.valid(),
        other != kind,
        0 <= id < before.kinds.len(),
    ensures
        ({
            let after = before.with(kind, builder, name);
            &&& after.kinds[id] == before.kinds[id]
            &&& after.kinds.contains(other) == before.kinds.contains(other)
            &&& after.builders.contains_key(other) == before.builders.contains_key(other)
            &&& after.builders[other] == before.builders[other]
            &&& after.names.contains_key(other) == before.names.contains_key(other)
            &&& after.names[other] == before.names[other]
            &&& !before.kinds.contains(kind) ==> after.kinds.len() == before.kinds.len() + 1
                && after.kinds[before.kinds.len() as int] == kind
            &&& before.kinds.contains(kind) ==> after.kinds == before.kinds
        }),
{
    let after = before.with(kind, builder, name);
    if before.kinds.contains(other) {
        let i = choose|i: int| 0 <= i < before.kinds.len() && before.kinds[i] == other;
        assert(after.kinds[i] == other);
    }
}

/// Adding a channel again is the same as having added it the second way only, at the first time.
pub proof fn law_last_registration_wins(
    before: Registrations,
    kind: ChannelKind,
    first: ChannelBuilder,
    first_name: Seq<char>,
    second: ChannelBuilder,
    second_name: Seq<char>,
)
    ensures
        before.with(kind, first, first_name).with(kind, second, second_name) == before.with(
            kind,
            second,
            second_name,
        ),
{
    let once = before.with(kind, first, first_name);
    if !before.kinds.contains(kind) {
        assert(once.kinds[before.kinds.len() as int] == kind);
    }
    assert(once.with(kind, second, second_name) =~= before.with(kind, second, second_name));
}

/// Different channels that are added to an empty registry get the network ids 0, 1, 2, ... in
/// the order in which they are added, so that two peers that add the same channels in the same
/// order agree on the ids.
pub proof fn law_net_ids_follow_the_order_of_registration(
    channels: Seq<(ChannelKind, ChannelBuilder, Seq<char>)>,
)
    requires
        forall|i: int, j: int|
            0 <= i < channels.len() && 0 <= j < channels.len() && i != j ==> (
            #[trigger] channels[i]).0 != (#[trigger] channels[j]).0,
    ensures
        Registrations::empty().with_all(channels).kinds.len() == channels.len(),
        forall|i: int|
            0 <= i < channels.len() ==> Registrations::empty().with_all(channels).kinds[i]
                == (#[trigger] channels[i]).0,
    decreases channels.len(),
{
    if channels.len() > 0 {
        let earlier = channels.drop_last();
        assert(forall|i: int| 0 <= i < earlier.len() ==> #[trigger] earlier[i] == channels[i]);
        law_net_ids_follow_the_order_of_registration(earlier);
        let before = Registrations::empty().with_all(earlier);
        let kind = channels.last().0;
        if before.kinds.contains(kind) {
            let i = choose|i: int| 0 <= i < before.kinds.len() && before.kinds[i] == kind;
            assert(earlier[i].0 == channels[channels.len() - 1].0);
        }
        let after = Registrations::empty().with_all(channels);
        assert forall|i: int| 0 <= i < channels.len() implies after.kinds[i] == (
        #[trigger] channels[i]).0 by {
            if i < earlier.len() {
                assert(earlier[i] == channels[i]);
            }
        }
    }
}

/// After any number of channels were added, a kind is registered exactly if it was before or was
/// among them; one that was among them has the builder and the name of its last registration, and
/// one that was not has what it had before.
pub proof fn law_registered_as_added_last(
    before: Registrations,
    channels: Seq<(ChannelKind, ChannelBuilder, Seq<char>)>,
    kind: ChannelKind,
)
    requires
        before.valid(),
    ensures
        ({
            let after = before.with_all(channels);
            &&& after.kinds.contains(kind) <==> before.kinds.contains(kind) || was_added(
                channels,
                kind,
            )
            &&& after.builders.contains_key(kind) <==> after.kinds.contains(kind)
            &&& after.names.contains_key(kind) <==> after.kinds.contains(kind)
            &&& forall|last: int| #[trigger]
                is_last_of(channels, kind, last) ==> after.builders[kind] == channels[last].1
                    && after.names[kind] == channels[last].2
            &&& !was_added(channels, kind) ==> after.builders[kind] == before.builders[kind]
                && after.names[kind] == before.names[kind]
        }),
    decreases channels.len(),
{
    let after = before.with_all(channels);
    if channels.len() > 0 {
        let earlier = channels.drop_last();
        let last = channels.len() - 1;
        let middle = before.with_all(earlier);
        law_registered_as_added_last(before, earlier, kind);
        assert(channels[last] == channels.last());
        if was_added(earlier, kind) {
            let i = choose|i: int| 0 <= i < earlier.len() && (#[trigger] earlier[i]).0 == kind;
            assert(channels[i].0 == kind);
        }
        if was_added(channels, kind) && channels[last].0 != kind {
            let i = choose|i: int| 0 <= i < channels.len() && (#[trigger] channels[i]).0 == kind;
            assert(earlier[i].0 == kind);
        }
        if middle.kinds.contains(kind) {
            let i = choose|i: int| 0 <= i < middle.kinds.len() && middle.kinds[i] == kind;
            assert(after.kinds[i] == kind);
        }
        if channels[last].0 == kind && !middle.kinds.contains(kind) {
            assert(after.kinds[middle.kinds.len() as int] == kind);
        }
        assert forall|i: int| #[trigger] is_last_of(channels, kind, i) implies after.builders[kind]
            == channels[i].1 && after.names[kind] == channels[i].2 by {
            if i < last {
                assert(channels[last].0 != kind);
                assert(is_last_of(earlier, kind, i)) by {
                    assert(forall|j: int|
                        0 <= j < earlier.len() ==> #[trigger] earlier[j] == channels[j]);
                }
            }
        }
    }
}

/// Whether a kind is among some channels.
pub open spec fn was_added(
    channels: Seq<(ChannelKind, ChannelBuilder, Seq<char>)>,
    kind: ChannelKind,
) -> bool {
    exists|i: int| 0 <= i < channels.len() && (#[trigger] channels[i]).0 == kind
}

/// Whether the last place of a kind among some channels is `last`.
pub open spec fn is_last_of(
    channels: Seq<(ChannelKind, ChannelBuilder, Seq<char>)>,
    kind: ChannelKind,
    last: int,
) -> bool {
    &&& 0 <= last < channels.len()
    &&& channels[last].0 == kind
    &&& forall|j: int| last < j < channels.len() ==> (#[trigger] channels[j]).0 != kind
}

/// Building all channels gives one for each registered kind and none besides, with the settings
/// that its builder holds.
pub proof fn law_every_channel_is_built(registrations: Registrations, kind: ChannelKind)
    requires
        registrations.valid(),
    ensures
        registrations.containers().contains_key(kind) <==> registrations.kinds.contains(kind),
        registrations.kinds.contains(kind) ==> registrations.containers()[kind].setting
            == registrations.builders[kind].settings,
{
}

}
