//! The channels that the library itself uses.
use vstd::prelude::*;
use crate::channel::builder::{Channel, ChannelBuilder, ChannelSettings};

verus! {

/// Spawns, despawns and component insertions and removals of replicated entities.
pub struct EntityActionsChannel;

impl Channel for EntityActionsChannel {
    open spec fn spec_name() -> Seq<char> {
        "EntityActionsChannel"@
    }

    fn name() -> (name: &'static str) {
        "EntityActionsChannel"
    }

    fn get_builder(settings: ChannelSettings) -> (builder: ChannelBuilder) {
        ChannelBuilder { settings }
    }
}

/// Component updates of replicated entities.
pub struct EntityUpdatesChannel;

impl Channel for EntityUpdatesChannel {
    open spec fn spec_name() -> Seq<char> {
        "EntityUpdatesChannel"@
    }

    fn name() -> (name: &'static str) {
        "EntityUpdatesChannel"
    }

    fn get_builder(settings: ChannelSettings) -> (builder: ChannelBuilder) {
        ChannelBuilder { settings }
    }
}

/// Pings and pongs.
pub struct PingChannel;

impl Channel for PingChannel {
    open spec fn spec_name() -> Seq<char> {
        "PingChannel"@
    }

    fn name() -> (name: &'static str) {
        "PingChannel"
    }

    fn get_builder(settings: ChannelSettings) -> (builder: ChannelBuilder) {
        ChannelBuilder { settings }
    }
}

/// Inputs of the players.
pub struct InputChannel;

impl Channel for InputChannel {
    open spec fn spec_name() -> Seq<char> {
        "InputChannel"@
    }

    fn name() -> (name: &'static str) {
        "InputChannel"
    }

    fn get_builder(settings: ChannelSettings) -> (builder: ChannelBuilder) {
        ChannelBuilder { settings }
    }
}

/// Messages that need no channel of their own.
pub struct DefaultUnorderedUnreliableChannel;

impl Channel for DefaultUnorderedUnreliableChannel {
    open spec fn spec_name() -> Seq<char> {
        "DefaultUnorderedUnreliableChannel"@
    }

    fn name() -> (name: &'static str) {
        "DefaultUnorderedUnreliableChannel"
    }

    fn get_builder(settings: ChannelSettings) -> (builder: ChannelBuilder) {
        ChannelBuilder { settings }
    }
}

/// Messages that are buffered until the tick that they are meant for.
pub struct TickBufferChannel;

impl Channel for TickBufferChannel {
    open spec fn spec_name() -> Seq<char> {
        "TickBufferChannel"@
    }

    fn name() -> (name: &'static str) {
        "TickBufferChannel"
    }

    fn get_builder(settings: ChannelSettings) -> (builder: ChannelBuilder) {
        ChannelBuilder { settings }
    }
}

/// Whatever the settings, the channels that the library itself uses are built with them.
pub proof fn law_builtin_channels_keep_their_settings(
    settings: ChannelSettings,
    builder: ChannelBuilder,
)
    requires
        call_ensures(EntityActionsChannel::get_builder, (settings,), builder) || call_ensures(
            EntityUpdatesChannel::get_builder,
            (settings,),
            builder,
        ) || call_ensures(PingChannel::get_builder, (settings,), builder) || call_ensures(
            InputChannel::get_builder,
            (settings,),
            builder,
        ) || call_ensures(
            DefaultUnorderedUnreliableChannel::get_builder,
            (settings,),
            builder,
        ) || call_ensures(TickBufferChannel::get_builder, (settings,), builder),
    ensures
        builder.settings == settings,
{
}

}
