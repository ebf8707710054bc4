//! The parts of Opus encoding the server decides itself: the channel layout
//! passed to the encoder and the trimming of its output buffer.

use vstd::prelude::*;

verus! {

/// Size of the buffer each frame is encoded into.
pub const MAX_PACKET_SIZE: usize = 4000;

/// The channel layouts an Opus encoder supports.
#[derive(Clone, Copy, Debug, PartialEq, Eq, Structural)]
pub enum OpusChannels {
    Mono,
    Stereo,
}

/// One channel encodes as mono; every other count as stereo.
pub fn opus_channels(channels: u8) -> (r: OpusChannels)
    ensures
        r == if channels == 1 {
            OpusChannels::Mono
        } else {
            OpusChannels::Stereo
        },
{
    if channels == 1 {
        OpusChannels::Mono
    } else {
        OpusChannels::Stereo
    }
}

/// A zeroed buffer of `MAX_PACKET_SIZE` bytes for the encoder to write into.
pub fn packet_buffer() -> (b: Vec<u8>)
    ensures
        b@.len() == MAX_PACKET_SIZE,
        forall|i: int| 0 <= i < MAX_PACKET_SIZE ==> b@[i] == 0,
{
    let mut b: Vec<u8> = Vec::with_capacity(MAX_PACKET_SIZE);
    let mut i: usize = 0;
    while i < MAX_PACKET_SIZE
        invariant
            i <= MAX_PACKET_SIZE,
            b@.len() == i,
            forall|k: int| 0 <= k < i ==> b@[k] == 0,
        decreases MAX_PACKET_SIZE - i,
    {
        b.push(0);
        i += 1;
    }
    b
}

/// The encoded packet: the first `len` bytes the encoder wrote (the whole
/// buffer if it reports more).
pub fn finish_packet(buffer: Vec<u8>, len: usize) -> (packet: Vec<u8>)
    ensures
        packet@ == if len <= buffer@.len() {
            buffer@.take(len as int)
        } else {
            buffer@
        },
{
    let mut buffer = buffer;
    buffer.truncate(len);
    buffer
}

} // verus!
