//! Buffers for packets.
use vstd::prelude::*;

verus! {

/// The largest number of bytes in a packet.
pub const MTU: usize = 1472;

/// Room for one packet.
pub struct PacketBuffer {
    bytes: [u8; MTU],
}

impl View for PacketBuffer {
    type V = Seq<u8>;

    closed spec fn view(&self) -> Seq<u8> {
        self.bytes@
    }
}

impl PacketBuffer {
    /// A buffer of zeros.
    pub fn new() -> (buffer: Self)
        ensures
            buffer@ == Seq::new(MTU as nat, |i: int| 0u8),
    {
        let buffer = PacketBuffer { bytes: [0; MTU] };
        assert(buffer@ =~= Seq::new(MTU as nat, |i: int| 0u8));
        buffer
    }

    /// Puts a packet at the start of the buffer and hands that part of the buffer out. The bytes
    /// behind it stay as they were.
    pub fn load(&mut self, packet: &Vec<u8>) -> (loaded: &mut [u8])
        requires
            packet@.len() <= MTU,
        ensures
            loaded@ == packet@,
            final(self)@ == final(loaded)@ + old(self)@.skip(packet@.len() as int),
    {
        let len = packet.len();
        let mut i: usize = 0;
        while i < len
            invariant
                i <= len,
                len == packet@.len(),
                len <= MTU,
                self.bytes@ == packet@.take(i as int) + old(self).bytes@.skip(i as int),
            decreases len - i,
        {
            self.bytes[i] = packet[i];
            i += 1;
            assert(self.bytes@ =~= packet@.take(i as int) + old(self).bytes@.skip(i as int));
        }
        let (loaded, _) = self.bytes.split_at_mut(len);
        assert(loaded@ =~= packet@);
        loaded
    }
}

/// A copy of the bytes.
pub(crate) fn copy_of(bytes: &[u8]) -> (copy: Vec<u8>)
    ensures
        copy@ == bytes@,
{
    let mut copy: Vec<u8> = Vec::new();
    copy.extend_from_slice(bytes);
    assert(copy@ =~= bytes@);
    copy
}

}
