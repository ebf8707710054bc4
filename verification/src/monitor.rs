//! The local monitor client: the control packets it sends, the check it
//! applies to received stream packets, and its start/stop bookkeeping.

use vstd::prelude::*;
use crate::codec::{lemma_u16_roundtrip, read_u16_be, u16_from_be, be_u16};
use crate::control::messages::{header_bytes, stream_packet, MAGIC, VERSION};

verus! {

/// Bytes in a stream packet before its payload: version, sequence number,
/// timestamp and payload length.
pub const HEADER_SIZE: usize = 1 + 4 + 8 + 2;

/// The payload a received datagram carries when it is a stream packet this
/// server understands: long enough for the header, of the current version,
/// and holding at least the announced payload length. Extra trailing bytes
/// are ignored.
pub open spec fn stream_payload_of(data: Seq<u8>) -> Option<Seq<u8>> {
    if data.len() < HEADER_SIZE || data[0] != VERSION {
        None
    } else {
        let payload_len = u16_from_be(data[13], data[14]);
        if HEADER_SIZE + payload_len > data.len() {
            None
        } else {
            Some(data.subrange(15, 15 + payload_len))
        }
    }
}

/// Checks a received datagram as a stream packet and returns its payload.
pub fn stream_packet_payload(data: &[u8]) -> (r: Option<&[u8]>)
    ensures
        match (r, stream_payload_of(data@)) {
            (Some(p), Some(q)) => p@ == q,
            (None, None) => true,
            _ => false,
        },
{
    if data.len() < HEADER_SIZE {
        return None;
    }
    if data[0] != VERSION {
        return None;
    }
    let payload_len = read_u16_be(data, 13) as usize;
    if HEADER_SIZE + payload_len > data.len() {
        return None;
    }
    Some(&data[15..15 + payload_len])
}

/// A stream packet whose payload fits the 16-bit length field gives back
/// exactly that payload to the monitor's check.
pub proof fn lemma_stream_payload_roundtrip(seq: u32, timestamp_ms: u64, payload: Seq<u8>)
    requires
        payload.len() <= 0xffff,
    ensures
        stream_payload_of(stream_packet(seq, timestamp_ms, payload)) == Some(payload),
{
    let p = stream_packet(seq, timestamp_ms, payload);
    let n = payload.len() as u16;
    lemma_u16_roundtrip(n);
    assert(p[13] == be_u16(n)[0] && p[14] == be_u16(n)[1]);
    assert(p.subrange(15, 15 + payload.len() as int) =~= payload);
}

/// A bare control packet (magic, version, kind) as the monitor sends for
/// hello and keepalive.
pub fn build_control_packet(msg_type: u8) -> (packet: Vec<u8>)
    ensures
        packet@ == header_bytes(msg_type),
{
    let mut buf = Vec::with_capacity(6);
    buf.push(MAGIC[0]);
    buf.push(MAGIC[1]);
    buf.push(MAGIC[2]);
    buf.push(MAGIC[3]);
    buf.push(VERSION);
    buf.push(msg_type);
    assert(buf@ =~= header_bytes(msg_type));
    buf
}

/// Whether the monitor task runs, and the last peak level it measured, kept
/// as the bit pattern of an `f32` (0 is 0.0).
pub struct MonitorRuntime {
    pub active: bool,
    pub peak_bits: u32,
}

impl MonitorRuntime {
    /// An inactive monitor with a zero peak.
    pub fn new() -> (m: Self)
        ensures
            !m.active,
            m.peak_bits == 0,
    {
        MonitorRuntime { active: false, peak_bits: 0 }
    }

    /// Marks the monitor as started; refused while it already runs.
    pub fn begin_start(&mut self) -> (r: Result<(), String>)
        ensures
            old(self).active ==> (r is Err && *final(self) == *old(self)),
            !old(self).active ==> (r is Ok && final(self).active && final(self).peak_bits == old(
                self,
            ).peak_bits),
            r matches Err(e) ==> e@ == "Monitor already running"@,
    {
        if self.active {
            return Err(String::from_str("Monitor already running"));
        }
        self.active = true;
        Ok(())
    }

    /// Marks the monitor as stopped and clears the peak. Returns whether
    /// there was a running task to stop; stopping an idle monitor changes
    /// nothing.
    pub fn finish_stop(&mut self) -> (was_active: bool)
        ensures
            was_active == old(self).active,
            was_active ==> (!final(self).active && final(self).peak_bits == 0),
            !was_active ==> *final(self) == *old(self),
    {
        if !self.active {
            return false;
        }
        self.peak_bits = 0;
        self.active = false;
        true
    }

    /// Records a newly measured peak while running.
    pub fn record_peak(&mut self, peak_bits: u32)
        ensures
            final(self).active == old(self).active,
            final(self).peak_bits == peak_bits,
    {
        self.peak_bits = peak_bits;
    }
}

} // verus!
