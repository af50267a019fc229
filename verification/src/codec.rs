//! Timestamp codec: the entire probe/echo payload is one wire timestamp
//! of exactly 8 bytes — seconds (u32, big-endian) then nanoseconds
//! (u32, big-endian) since the epoch, the seconds truncated to 32 bits.

use vstd::prelude::*;

verus! {

/// Exact length of a probe/echo payload, in bytes.
pub const WIRE_LEN: usize = 8;

/// Nanoseconds in one second.
pub const NANOS_PER_SEC: u32 = 1_000_000_000;

/// The seconds field of an 8-byte wire timestamp (big-endian u32).
pub open spec fn wire_secs(p: Seq<u8>) -> nat
    recommends
        p.len() == WIRE_LEN,
{
    (p[0] as nat) * 0x100_0000 + (p[1] as nat) * 0x1_0000 + (p[2] as nat) * 0x100 + (p[3] as nat)
}

/// The nanoseconds field of an 8-byte wire timestamp (big-endian u32).
pub open spec fn wire_nanos(p: Seq<u8>) -> nat
    recommends
        p.len() == WIRE_LEN,
{
    (p[4] as nat) * 0x100_0000 + (p[5] as nat) * 0x1_0000 + (p[6] as nat) * 0x100 + (p[7] as nat)
}

/// The capture instant an 8-byte payload denotes, in nanoseconds since
/// the epoch. A nanoseconds field of one second or more simply carries
/// over into the seconds, as a duration built from the two fields would.
pub open spec fn wire_instant_nanos(p: Seq<u8>) -> nat
    recommends
        p.len() == WIRE_LEN,
{
    wire_secs(p) * (NANOS_PER_SEC as nat) + wire_nanos(p)
}

/// Encode a capture time into the 8-byte probe payload: seconds then
/// nanoseconds, each big-endian. The caller truncates the epoch seconds
/// to 32 bits (the field wraps in 2106, an accepted limitation).
pub fn encode_timestamp(secs: u32, nanos: u32) -> (p: Vec<u8>)
    ensures
        p@.len() == WIRE_LEN,
        wire_secs(p@) == secs,
        wire_nanos(p@) == nanos,
{
    let mut p: Vec<u8> = Vec::new();
    p.push((secs >> 24) as u8);
    p.push((secs >> 16) as u8);
    p.push((secs >> 8) as u8);
    p.push(secs as u8);
    p.push((nanos >> 24) as u8);
    p.push((nanos >> 16) as u8);
    p.push((nanos >> 8) as u8);
    p.push(nanos as u8);
    proof {
        assert((((secs >> 24) as u8) as u32) * 0x100_0000 + (((secs >> 16) as u8) as u32)
            * 0x1_0000 + (((secs >> 8) as u8) as u32) * 0x100 + ((secs as u8) as u32)
            == secs) by (bit_vector);
        assert((((nanos >> 24) as u8) as u32) * 0x100_0000 + (((nanos >> 16) as u8) as u32)
            * 0x1_0000 + (((nanos >> 8) as u8) as u32) * 0x100 + ((nanos as u8) as u32)
            == nanos) by (bit_vector);
    }
    p
}

/// Decode the seconds and nanoseconds fields of an 8-byte payload.
pub fn decode_timestamp(p: &Vec<u8>) -> (r: (u32, u32))
    requires
        p@.len() == WIRE_LEN,
    ensures
        r.0 == wire_secs(p@),
        r.1 == wire_nanos(p@),
{
    let secs = (p[0] as u32) * 0x100_0000 + (p[1] as u32) * 0x1_0000 + (p[2] as u32) * 0x100 + (
    p[3] as u32);
    let nanos = (p[4] as u32) * 0x100_0000 + (p[5] as u32) * 0x1_0000 + (p[6] as u32) * 0x100 + (
    p[7] as u32);
    (secs, nanos)
}

/// The capture instant an 8-byte payload denotes, in nanoseconds since
/// the epoch, as an executable value.
pub fn wire_instant(p: &Vec<u8>) -> (t: u64)
    requires
        p@.len() == WIRE_LEN,
    ensures
        t == wire_instant_nanos(p@),
{
    let (secs, nanos) = decode_timestamp(p);
    (secs as u64) * (NANOS_PER_SEC as u64) + (nanos as u64)
}

/// Elapsed time between the capture instant a payload denotes and the
/// present instant `now` (nanoseconds since the epoch). The protocol
/// assumes synchronized clocks: the decoder's clock must not be behind
/// the capture clock, so the capture instant never lies in the future.
pub fn decode_elapsed(p: &Vec<u8>, now: u64) -> (d: u64)
    requires
        p@.len() == WIRE_LEN,
        wire_instant_nanos(p@) <= now,
    ensures
        d == now - wire_instant_nanos(p@),
{
    let then = wire_instant(p);
    now - then
}

/// Round trip: a timestamp whose epoch seconds fit the 32-bit wire
/// field, encoded at instant `secs`/`nanos` and decoded `d` nanoseconds
/// later, yields exactly the elapsed time `d`.
pub proof fn lemma_timestamp_round_trip(p: Seq<u8>, secs: u32, nanos: u32, d: nat)
    requires
        p.len() == WIRE_LEN,
        wire_secs(p) == secs,
        wire_nanos(p) == nanos,
    ensures
        wire_instant_nanos(p) == (secs as nat) * (NANOS_PER_SEC as nat) + nanos,
        ((secs as nat) * (NANOS_PER_SEC as nat) + nanos + d) - wire_instant_nanos(p) == d,
{
}

} // verus!
