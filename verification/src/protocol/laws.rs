//! What the registry is for: how calls of its functions hang together.
//!
//! Each law speaks of calls: `call_ensures(f, arguments, result)` says that a call of `f` with
//! these arguments has given this result. Of an argument that a call changes, `old` is the value
//! before the call, and `final` the value after it.
use std::any::TypeId;
use vstd::prelude::*;
use crate::channel::builder::{Channel, ChannelBuilder, ChannelContainer, ChannelSettings};
use crate::protocol::channel::{
    law_a_kind_is_a_type_id, law_added_channel_is_found, law_registry_is_valid, type_id_of,
    AppChannelExt, ChannelKind, ChannelRegistry,
};
use crate::protocol::registry::{NetId, TypeKind, TypeMapper};
use crate::vec_map::VecMap;

verus! {

/// A channel can be added whenever it is there already or one of the 65535 network ids is free.
pub proof fn law_a_channel_can_be_added<C: Channel>(
    registry: &mut ChannelRegistry,
    settings: ChannelSettings,
    kind: ChannelKind,
    len: usize,
    net_id: Option<&NetId>,
)
    requires
        old(registry).wf(),
        call_ensures(ChannelKind::of::<C>, (), kind),
        call_ensures(ChannelRegistry::len, (&*old(registry),), len),
        call_ensures(ChannelRegistry::get_net_from_kind, (&*old(registry), &kind), net_id),
        net_id is Some || len < 65535,
    ensures
        call_requires(ChannelRegistry::add_channel::<C>, (registry, settings)),
        call_requires(
            <ChannelRegistry as AppChannelExt>::add_channel::<C>,
            (registry, settings),
        ),
{
    let kinds = old(registry)@.kinds;
    if let Some(id) = net_id {
        assert(kinds.contains(kinds[*id as int]));
    }
}

/// A channel that was added is found by its kind: the builder is the one that its type makes of
/// the settings, and the name is that of the type.
pub proof fn law_an_added_channel_is_found_by_kind<C: Channel>(
    registry: &mut ChannelRegistry,
    settings: ChannelSettings,
    after: ChannelRegistry,
    kind: ChannelKind,
    builder: Option<&ChannelBuilder>,
    name: Option<&str>,
)
    requires
        call_ensures(ChannelRegistry::add_channel::<C>, (registry, settings), ()),
        *final(registry) == after,
        call_ensures(ChannelKind::of::<C>, (), kind),
        call_ensures(ChannelRegistry::get_builder_from_kind, (&after, &kind), builder),
        call_ensures(ChannelRegistry::name, (&after, &kind), name),
    ensures
        builder matches Some(b) && *b == C::spec_builder(settings),
        name matches Some(n) && n@ == C::spec_name(),
{
    lemma_added_kind_is_there::<C>(registry, settings);
}

/// A channel that was added is found by its network id, which is the one it had, or else the
/// lowest that was free; and there is one channel more exactly if it had none.
pub proof fn law_an_added_channel_is_found_by_net_id<C: Channel>(
    registry: &mut ChannelRegistry,
    settings: ChannelSettings,
    after: ChannelRegistry,
    kind: ChannelKind,
    id_before: Option<&NetId>,
    len_before: usize,
    id_after: Option<&NetId>,
    len_after: usize,
)
    requires
        call_ensures(ChannelRegistry::add_channel::<C>, (registry, settings), ()),
        *final(registry) == after,
        call_ensures(ChannelKind::of::<C>, (), kind),
        call_ensures(ChannelRegistry::get_net_from_kind, (&*old(registry), &kind), id_before),
        call_ensures(ChannelRegistry::len, (&*old(registry),), len_before),
        call_ensures(ChannelRegistry::get_net_from_kind, (&after, &kind), id_after),
        call_ensures(ChannelRegistry::len, (&after,), len_after),
    ensures
        match id_before {
            Some(id) => id_after == Some(id) && len_after == len_before,
            None => {
                &&& id_after matches Some(id) && *id == len_before
                &&& len_after == len_before + 1
            },
        },
        forall|builder: Option<&ChannelBuilder>|
            id_after is Some && #[trigger] call_ensures(
                ChannelRegistry::get_builder_from_net_id,
                (&after, *id_after->Some_0),
                builder,
            ) ==> (builder matches Some(b) && *b == C::spec_builder(settings)),
{
    lemma_added_kind_is_there::<C>(registry, settings);
    let before = old(registry)@.kinds;
    let kinds = after@.kinds;
    assert(after.wf());
    law_registries_are_consistent(after);
    match id_before {
        Some(id) => {
            assert(before.contains(before[*id as int]));
            assert(kinds == before);
        },
        None => {
            assert(kinds == before.push(kind));
            assert(kinds[before.len() as int] == kind);
        },
    }
}

/// Adding a channel changes nothing for another one: what is found for it by its kind is what was
/// found before.
pub proof fn law_adding_changes_no_other_kind<C: Channel>(
    registry: &mut ChannelRegistry,
    settings: ChannelSettings,
    after: ChannelRegistry,
    kind: ChannelKind,
    other: ChannelKind,
    builders: (Option<&ChannelBuilder>, Option<&ChannelBuilder>),
    names: (Option<&str>, Option<&str>),
    net_ids: (Option<&NetId>, Option<&NetId>),
)
    requires
        old(registry).wf(),
        call_ensures(ChannelRegistry::add_channel::<C>, (registry, settings), ()),
        *final(registry) == after,
        call_ensures(ChannelKind::of::<C>, (), kind),
        other != kind,
        call_ensures(
            ChannelRegistry::get_builder_from_kind,
            (&*old(registry), &other),
            builders.0,
        ),
        call_ensures(ChannelRegistry::get_builder_from_kind, (&after, &other), builders.1),
        call_ensures(ChannelRegistry::name, (&*old(registry), &other), names.0),
        call_ensures(ChannelRegistry::name, (&after, &other), names.1),
        call_ensures(ChannelRegistry::get_net_from_kind, (&*old(registry), &other), net_ids.0),
        call_ensures(ChannelRegistry::get_net_from_kind, (&after, &other), net_ids.1),
    ensures
        builders.0 == builders.1,
        names.0 is Some <==> names.1 is Some,
        names.0 is Some ==> names.0->Some_0@ == names.1->Some_0@,
        net_ids.0 == net_ids.1,
{
    let before = old(registry)@.kinds;
    let kinds = after@.kinds;
    law_registries_are_consistent(after);
    assert(kinds == before || kinds == before.push(kind));
    if before.contains(other) {
        let i = choose|i: int| 0 <= i < before.len() && before[i] == other;
        assert(kinds[i] == other);
        assert(kinds.contains(other));
    }
    if kinds.contains(other) {
        let i = choose|i: int| 0 <= i < kinds.len() && kinds[i] == other;
        assert(before[i] == other);
        assert(before.contains(other));
    }
    if let Some(id) = net_ids.0 {
        assert(before.contains(before[*id as int]));
        assert(kinds[*id as int] == other);
        assert(kinds[*net_ids.1->Some_0 as int] == other);
    }
}

/// Adding a channel changes nothing for the network ids that were given before: each leads to the
/// kind that it led to.
pub proof fn law_adding_changes_no_net_id<C: Channel>(
    registry: &mut ChannelRegistry,
    settings: ChannelSettings,
    after: ChannelRegistry,
    id: NetId,
    kinds: (Option<&ChannelKind>, Option<&ChannelKind>),
)
    requires
        call_ensures(ChannelRegistry::add_channel::<C>, (registry, settings), ()),
        *final(registry) == after,
        call_ensures(ChannelRegistry::get_kind_from_net_id, (&*old(registry), id), kinds.0),
        call_ensures(ChannelRegistry::get_kind_from_net_id, (&after, id), kinds.1),
    ensures
        kinds.0 is Some ==> kinds.0 == kinds.1,
{
}

/// Adding a channel through the extension trait is adding it to the registry.
pub proof fn law_the_extension_trait_adds_the_same<C: Channel>(
    registry: &mut ChannelRegistry,
    through: &mut ChannelRegistry,
    settings: ChannelSettings,
)
    requires
        old(registry)@ == old(through)@,
        call_ensures(ChannelRegistry::add_channel::<C>, (registry, settings), ()),
        call_ensures(
            <ChannelRegistry as AppChannelExt>::add_channel::<C>,
            (through, settings),
            (),
        ),
    ensures
        final(registry)@ == final(through)@,
        final(through).wf(),
{
}

/// A new registry finds nothing.
pub proof fn law_a_new_registry_finds_nothing(
    registry: ChannelRegistry,
    kind: ChannelKind,
    id: NetId,
    len: usize,
    builder: Option<&ChannelBuilder>,
    name: Option<&str>,
    net_id: Option<&NetId>,
    kind_of_id: Option<&ChannelKind>,
)
    requires
        call_ensures(ChannelRegistry::new, (), registry),
        call_ensures(ChannelRegistry::len, (&registry,), len),
        call_ensures(ChannelRegistry::get_builder_from_kind, (&registry, &kind), builder),
        call_ensures(ChannelRegistry::name, (&registry, &kind), name),
        call_ensures(ChannelRegistry::get_net_from_kind, (&registry, &kind), net_id),
        call_ensures(ChannelRegistry::get_kind_from_net_id, (&registry, id), kind_of_id),
    ensures
        registry.wf(),
        len == 0,
        builder is None,
        name is None,
        net_id is None,
        kind_of_id is None,
{
}

/// The ways to find a channel agree: a kind has a builder, a name and a network id, or none of
/// them; its network id leads back to it; every network id below the number of channels, and no
/// other, leads to a kind, which leads back to it; and by network id the builder is that of the
/// kind.
pub proof fn law_all_ways_to_find_a_channel_agree(
    registry: ChannelRegistry,
    kind: ChannelKind,
    id: NetId,
    len: usize,
    builder: Option<&ChannelBuilder>,
    name: Option<&str>,
    net_id: Option<&NetId>,
    kind_of_id: Option<&ChannelKind>,
    builder_of_id: Option<&ChannelBuilder>,
)
    requires
        registry.wf(),
        call_ensures(ChannelRegistry::len, (&registry,), len),
        call_ensures(ChannelRegistry::get_builder_from_kind, (&registry, &kind), builder),
        call_ensures(ChannelRegistry::name, (&registry, &kind), name),
        call_ensures(ChannelRegistry::get_net_from_kind, (&registry, &kind), net_id),
        call_ensures(ChannelRegistry::get_kind_from_net_id, (&registry, id), kind_of_id),
        call_ensures(ChannelRegistry::get_builder_from_net_id, (&registry, id), builder_of_id),
    ensures
        builder is Some <==> net_id is Some,
        name is Some <==> net_id is Some,
        net_id is Some ==> *net_id->Some_0 < len,
        kind_of_id is Some <==> id < len,
        builder_of_id is Some <==> id < len,
        kind_of_id == Some(&kind) <==> net_id == Some(&id),
        net_id == Some(&id) ==> builder_of_id == builder,
{
    law_registries_are_consistent(registry);
    let kinds = registry@.kinds;
    if let Some(i) = net_id {
        assert(kinds.contains(kinds[*i as int]));
    }
    if kind_of_id == Some(&kind) {
        assert(kinds.contains(kinds[id as int]));
    }
}

/// In every registry no two network ids lead to one kind, there are as many network ids as kinds
/// with a builder, and exactly the kinds with a network id have a builder and a name.
pub proof fn law_registries_are_consistent(registry: ChannelRegistry)
    requires
        registry.wf(),
    ensures
        forall|i: int, j: int|
            0 <= i < registry@.kinds.len() && 0 <= j < registry@.kinds.len() && i != j
                ==> #[trigger] registry@.kinds[i] != #[trigger] registry@.kinds[j],
        forall|kind: ChannelKind| #[trigger]
            registry@.builders.contains_key(kind) <==> registry@.kinds.contains(kind),
        forall|kind: ChannelKind| #[trigger]
            registry@.names.contains_key(kind) <==> registry@.kinds.contains(kind),
{
    law_registry_is_valid(registry);
}

/// Building the channels gives one for each kind that has a builder, and none besides, with the
/// settings that the builder holds; and so does the builder alone.
pub proof fn law_channels_are_built_by_their_builders(
    registry: ChannelRegistry,
    channels: VecMap<ChannelKind, ChannelContainer>,
    kind: ChannelKind,
    builder: Option<&ChannelBuilder>,
    channel: Option<&ChannelContainer>,
)
    requires
        registry.wf(),
        call_ensures(ChannelRegistry::channels, (&registry,), channels),
        call_ensures(ChannelRegistry::get_builder_from_kind, (&registry, &kind), builder),
        call_ensures(
            VecMap::<ChannelKind, ChannelContainer>::get,
            (&channels, &kind),
            channel,
        ),
    ensures
        channel is Some <==> builder is Some,
        channel matches Some(c) ==> c.setting == builder->Some_0.settings,
{
    law_registries_are_consistent(registry);
}

/// A builder builds channels with its settings.
pub proof fn law_a_builder_hands_its_settings_on(
    builder: ChannelBuilder,
    channel: ChannelContainer,
)
    requires
        call_ensures(ChannelBuilder::build, (&builder,), channel),
    ensures
        channel.setting == builder.settings,
{
}

/// A clone of a registry finds what the registry finds.
pub proof fn law_a_clone_finds_the_same(
    registry: ChannelRegistry,
    clone: ChannelRegistry,
    kind: ChannelKind,
    id: NetId,
    builders: (Option<&ChannelBuilder>, Option<&ChannelBuilder>),
    names: (Option<&str>, Option<&str>),
    kinds: (Option<&ChannelKind>, Option<&ChannelKind>),
)
    requires
        registry.wf(),
        call_ensures(<ChannelRegistry as Clone>::clone, (&registry,), clone),
        call_ensures(ChannelRegistry::get_builder_from_kind, (&registry, &kind), builders.0),
        call_ensures(ChannelRegistry::get_builder_from_kind, (&clone, &kind), builders.1),
        call_ensures(ChannelRegistry::name, (&registry, &kind), names.0),
        call_ensures(ChannelRegistry::name, (&clone, &kind), names.1),
        call_ensures(ChannelRegistry::get_kind_from_net_id, (&registry, id), kinds.0),
        call_ensures(ChannelRegistry::get_kind_from_net_id, (&clone, id), kinds.1),
    ensures
        clone.wf(),
        builders.0 == builders.1,
        names.0 is Some <==> names.1 is Some,
        names.0 is Some ==> names.0->Some_0@ == names.1->Some_0@,
        kinds.0 == kinds.1,
{
}

/// The assignment of network ids that a registry hands out is its own.
pub proof fn law_the_kind_map_is_that_of_the_registry(
    registry: ChannelRegistry,
    map: TypeMapper<ChannelKind>,
    id: NetId,
    kinds: (Option<&ChannelKind>, Option<&ChannelKind>),
    lens: (usize, usize),
)
    requires
        registry.wf(),
        call_ensures(ChannelRegistry::kind_map, (&registry,), map),
        call_ensures(ChannelRegistry::get_kind_from_net_id, (&registry, id), kinds.0),
        call_ensures(TypeMapper::<ChannelKind>::kind, (&map, id), kinds.1),
        call_ensures(ChannelRegistry::len, (&registry,), lens.0),
        call_ensures(TypeMapper::<ChannelKind>::len, (&map,), lens.1),
    ensures
        map.wf(),
        kinds.0 == kinds.1,
        lens.0 == lens.1,
{
}

/// A kind is made from the id of its type: the kind of a type and the kind made from an id are
/// equal exactly if the id is that of the type.
pub proof fn law_kinds_are_made_from_type_ids<C: Channel>(
    kind: ChannelKind,
    id: TypeId,
    made: ChannelKind,
)
    requires
        call_ensures(ChannelKind::of::<C>, (), kind),
        call_ensures(<ChannelKind as From<TypeId>>::from, (id,), made),
    ensures
        kind == made <==> id == type_id_of::<C>(),
{
    law_a_kind_is_a_type_id::<C>(id, kind);
    law_a_kind_is_a_type_id::<C>(type_id_of::<C>(), made);
}

/// A kind that was added to a mapper has the network id that it had, or else the lowest that was
/// free, which leads back to it; and all network ids given before lead where they led.
pub proof fn law_a_mapper_keeps_its_ids<K: TypeKind>(
    mapper: &mut TypeMapper<K>,
    kind: K,
    after: TypeMapper<K>,
    id_before: Option<&NetId>,
    len_before: usize,
    id_after: Option<&NetId>,
    other_id: NetId,
    others: (Option<&K>, Option<&K>),
)
    requires
        call_ensures(TypeMapper::<K>::add, (mapper, kind), ()),
        *final(mapper) == after,
        call_ensures(TypeMapper::<K>::net_id, (&*old(mapper), &kind), id_before),
        call_ensures(TypeMapper::<K>::len, (&*old(mapper),), len_before),
        call_ensures(TypeMapper::<K>::net_id, (&after, &kind), id_after),
        call_ensures(TypeMapper::<K>::kind, (&*old(mapper), other_id), others.0),
        call_ensures(TypeMapper::<K>::kind, (&after, other_id), others.1),
    ensures
        id_after is Some,
        id_before is None ==> *id_after->Some_0 == len_before,
        id_after == Some(&other_id) ==> others.1 == Some(&kind),
        others.0 is Some ==> others.0 == others.1,
{
    let before = old(mapper)@;
    if !before.contains(kind) {
        assert(after@[before.len() as int] == kind);
        assert(after@.contains(kind));
        let id = *id_after->Some_0;
        if id < before.len() {
            assert(before.contains(before[id as int]));
        }
    }
}

/// After a channel was added, its kind is there, with what its type makes of the settings.
proof fn lemma_added_kind_is_there<C: Channel>(
    registry: &mut ChannelRegistry,
    settings: ChannelSettings,
)
    requires
        call_ensures(ChannelRegistry::add_channel::<C>, (registry, settings), ()),
    ensures
        ({
            let kind = ChannelKind::spec_of::<C>();
            &&& final(registry).wf()
            &&& final(registry)@.kinds.contains(kind)
            &&& final(registry)@.builders[kind] == C::spec_builder(settings)
            &&& final(registry)@.names[kind] == C::spec_name()
        }),
{
    law_added_channel_is_found::<C>(old(registry)@, settings);
}

}
