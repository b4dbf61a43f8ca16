//! Settings, builders and containers of channels.
use vstd::prelude::*;

verus! {

/// An IEEE 754 single-precision number, held by its bit pattern.
///
/// `f32::from_bits(x.bits)` is the number, and `f32::to_bits` gives the pattern of a number.
#[derive(Clone, Copy, Debug)]
pub struct Float32 {
    /// The bit pattern.
    pub bits: u32,
}

impl Float32 {
    /// Whether the pattern stands for no number: behind the sign, all bits of the exponent are
    /// set, and some of the fraction are.
    pub open spec fn spec_is_nan(self) -> bool {
        0x7f80_0000 < self.bits < 0x8000_0000 || 0xff80_0000 < self.bits
    }

    /// Whether the pattern stands for no number.
    pub fn is_nan(self) -> (nan: bool)
        ensures
            nan == self.spec_is_nan(),
    {
        (0x7f80_0000 < self.bits && self.bits < 0x8000_0000) || 0xff80_0000 < self.bits
    }

    /// Whether the pattern is one of the two that stand for zero.
    pub open spec fn spec_is_zero(self) -> bool {
        self.bits == 0 || self.bits == 0x8000_0000
    }

    /// Whether the pattern is one of the two that stand for zero.
    pub fn is_zero(self) -> (zero: bool)
        ensures
            zero == self.spec_is_zero(),
    {
        self.bits == 0 || self.bits == 0x8000_0000
    }
}

impl PartialEq for Float32 {
    /// Whether the two are the same number. What is no number is not even equal to itself.
    fn eq(&self, other: &Self) -> (same: bool) {
        !self.is_nan() && !other.is_nan() && (self.bits == other.bits || (self.is_zero()
            && other.is_zero()))
    }
}

impl vstd::std_specs::cmp::PartialEqSpecImpl for Float32 {
    open spec fn obeys_eq_spec() -> bool {
        true
    }

    open spec fn eq_spec(&self, other: &Self) -> bool {
        &&& !self.spec_is_nan()
        &&& !other.spec_is_nan()
        &&& self.bits == other.bits || (self.spec_is_zero() && other.spec_is_zero())
    }
}

/// How a reliable channel resends what was not acknowledged.
#[derive(Clone, Copy, Debug, PartialEq)]
pub struct ReliableSettings {
    /// A message is resent once this many round trips have passed without an acknowledgement.
    pub rtt_resend_factor: Float32,
    /// A message is never resent sooner than this many nanoseconds after it was sent.
    pub rtt_resend_min_delay: u128,
}

impl Default for ReliableSettings {
    /// One and a half round trips, and no minimum delay.
    fn default() -> (settings: Self)
        ensures
            settings == ReliableSettings::spec_default(),
    {
        ReliableSettings {
            rtt_resend_factor: Float32 { bits: 0x3fc0_0000 },
            rtt_resend_min_delay: 0,
        }
    }
}

impl ReliableSettings {
    /// The settings that [`ReliableSettings::default`] returns.
    pub open spec fn spec_default() -> ReliableSettings {
        ReliableSettings {
            rtt_resend_factor: Float32 { bits: 0x3fc0_0000 },
            rtt_resend_min_delay: 0,
        }
    }
}

/// What a channel promises of the messages sent on it.
#[derive(Clone, Copy, Debug, PartialEq)]
pub enum ChannelMode {
    /// Messages may arrive in any order, or not at all.
    UnorderedUnreliable,
    /// As `UnorderedUnreliable`, and the sender learns which messages arrived.
    UnorderedUnreliableWithAcks,
    /// Messages may be lost; one that is older than one already received is dropped.
    SequencedUnreliable,
    /// Every message arrives, in any order.
    UnorderedReliable(ReliableSettings),
    /// Every message is resent until it arrives; older ones than the newest are dropped.
    SequencedReliable(ReliableSettings),
    /// Every message arrives, in the order in which it was sent.
    OrderedReliable(ReliableSettings),
    /// Messages are delivered at the tick that they were sent for.
    TickBuffered,
}

/// Which peers may send on a channel.
#[derive(Clone, Copy, Debug, PartialEq, Eq, Structural)]
pub enum ChannelDirection {
    /// Clients send to the server.
    ClientToServer,
    /// The server sends to clients.
    ServerToClient,
    /// Both sides send.
    Bidirectional,
}

/// The settings of a channel.
#[derive(Clone, Copy, Debug, PartialEq)]
pub struct ChannelSettings {
    /// What the channel promises.
    pub mode: ChannelMode,
    /// Who sends on it.
    pub direction: ChannelDirection,
    /// How urgent its messages are when not all of them fit into a packet.
    pub priority: Float32,
}

impl Default for ChannelSettings {
    /// An unordered unreliable channel, open in both directions, of priority one.
    fn default() -> (settings: Self)
        ensures
            settings.mode == ChannelMode::UnorderedUnreliable,
            settings.direction == ChannelDirection::Bidirectional,
            settings.priority.bits == 0x3f80_0000,
    {
        ChannelSettings {
            mode: ChannelMode::UnorderedUnreliable,
            direction: ChannelDirection::Bidirectional,
            priority: Float32 { bits: 0x3f80_0000 },
        }
    }
}

/// A channel that was built: one instance, with the settings it runs under.
#[derive(Clone, Copy, Debug, PartialEq)]
pub struct ChannelContainer {
    /// The settings of the channel.
    pub setting: ChannelSettings,
}

/// What a channel is built from. One builder can build any number of instances.
#[derive(Clone, Copy, Debug, PartialEq)]
pub struct ChannelBuilder {
    /// The settings that every instance gets.
    pub settings: ChannelSettings,
}

impl ChannelBuilder {
    /// The channel that this builder builds.
    pub open spec fn spec_build(self) -> ChannelContainer {
        ChannelContainer { setting: self.settings }
    }

    /// Builds an instance of the channel.
    pub fn build(&self) -> (container: ChannelContainer)
        ensures
            container == self.spec_build(),
    {
        ChannelContainer { setting: self.settings }
    }
}

/// A type that stands for a channel.
pub trait Channel: 'static {
    /// The name that [`Channel::name`] returns; none, unless the implementation says otherwise.
    open spec fn spec_name() -> Seq<char> {
        Seq::empty()
    }

    /// The builder that [`Channel::get_builder`] returns: one that builds with the settings,
    /// unless the implementation says otherwise.
    open spec fn spec_builder(settings: ChannelSettings) -> ChannelBuilder {
        ChannelBuilder { settings }
    }

    /// The name of the channel.
    fn name() -> (name: &'static str)
        ensures
            name@ == Self::spec_name(),
    ;

    /// The builder of the channel under the given settings.
    fn get_builder(settings: ChannelSettings) -> (builder: ChannelBuilder)
        ensures
            builder == Self::spec_builder(settings),
    ;
}

/// Numbers are compared as IEEE 754 says: a pattern whose exponent is all ones and whose fraction
/// is not zero equals nothing; patterns without any bit but the sign all equal each other; and all
/// other patterns equal themselves only.
pub proof fn law_numbers_are_compared_by_value(a: Float32, b: Float32, same: bool)
    requires
        call_ensures(<Float32 as PartialEq>::eq, (&a, &b), same),
    ensures
        a.bits & 0x7fff_ffff > 0x7f80_0000 ==> !same,
        b.bits & 0x7fff_ffff > 0x7f80_0000 ==> !same,
        a.bits & 0x7fff_ffff == 0 && b.bits & 0x7fff_ffff == 0 ==> same,
        a.bits & 0x7fff_ffff <= 0x7f80_0000 && a.bits == b.bits ==> same,
        a.bits & 0x7fff_ffff != 0 && a.bits != b.bits ==> !same,
        b.bits & 0x7fff_ffff != 0 && a.bits != b.bits ==> !same,
{
    let (x, y) = (a.bits, b.bits);
    assert(x & 0x7fff_ffff > 0x7f80_0000 <==> (0x7f80_0000 < x && x < 0x8000_0000) || 0xff80_0000
        < x) by (bit_vector);
    assert(y & 0x7fff_ffff > 0x7f80_0000 <==> (0x7f80_0000 < y && y < 0x8000_0000) || 0xff80_0000
        < y) by (bit_vector);
    assert(x & 0x7fff_ffff == 0 <==> x == 0 || x == 0x8000_0000) by (bit_vector);
    assert(y & 0x7fff_ffff == 0 <==> y == 0 || y == 0x8000_0000) by (bit_vector);
}

}
