//! Validated views over encoded packets, and what the first bytes of a
//! packet say about its contents.
use crate::defines::{
    MAX_LEN, OPUS_BANDWIDTH_MEDIUMBAND, OPUS_BANDWIDTH_NARROWBAND, OPUS_BANDWIDTH_FULLBAND,
    OPUS_BANDWIDTH_SUPERWIDEBAND, OPUS_INVALID_PACKET,
};
use crate::error::{opus_count, try_map_opus_error, Error, Result};
use crate::{Bandwidth, Channels, SampleRate};
use vstd::prelude::*;

verus! {

/// What checking a packet buffer of `len` bytes yields: its length as an
/// `i32`, or why the engine cannot take it.
pub open spec fn checked_packet_len(len: nat) -> Result<i32> {
    if len == 0 {
        Err(Error::EmptyPacket)
    } else if len > MAX_LEN {
        Err(Error::PacketTooLarge)
    } else {
        Ok(len as i32)
    }
}

fn packet_len_check(packet_buffer: &[u8]) -> (r: Result<i32>)
    ensures
        r == checked_packet_len(packet_buffer@.len()),
{
    if packet_buffer.len() == 0 {
        Err(Error::EmptyPacket)
    } else if packet_buffer.len() > MAX_LEN {
        Err(Error::PacketTooLarge)
    } else {
        Ok(packet_buffer.len() as i32)
    }
}

/// A borrowed packet that is never empty and at most `i32::MAX` bytes long.
#[derive(Debug)]
pub struct Packet<'a>(&'a [u8]);

impl<'a> View for Packet<'a> {
    type V = Seq<u8>;

    closed spec fn view(&self) -> Seq<u8> {
        self.0@
    }
}

impl<'a> Packet<'a> {
    #[verifier::type_invariant]
    closed spec fn well_formed(&self) -> bool {
        1 <= self.0@.len() <= MAX_LEN
    }

    /// The bytes of the packet, exactly as they were borrowed.
    pub fn as_slice(&self) -> (r: &'a [u8])
        ensures
            r@ == self@,
    {
        self.0
    }

    /// The packet's length; it fits an `i32` by construction.
    pub fn i32_len(&self) -> (r: i32)
        ensures
            r as int == self@.len(),
            r >= 1,
    {
        proof {
            use_type_invariant(self);
        }
        self.0.len() as i32
    }

    /// The first byte of the packet, its table-of-contents byte.
    pub fn toc(&self) -> (r: u8)
        ensures
            r == self@[0],
    {
        proof {
            use_type_invariant(self);
        }
        self.0[0]
    }
}

impl<'a> Packet<'a> {
    /// What building a packet over a buffer holding `bytes` yields.
    pub closed spec fn from_bytes(bytes: Seq<u8>) -> Result<Packet<'a>> {
        match checked_packet_len(bytes.len()) {
            Ok(_) => Ok(Packet(choose|s: &'a [u8]| s@ == bytes)),
            Err(e) => Err(e),
        }
    }

    fn new(value: &'a [u8]) -> (r: Result<Packet<'a>>)
        ensures
            r == Packet::from_bytes(value@),
    {
        match packet_len_check(value) {
            Ok(_) => {
                proof {
                    let s = choose|s: &'a [u8]| s@ == value@;
                    assert(s@ == value@);
                    assert(s =~= value);
                }
                Ok(Packet(value))
            },
            Err(e) => Err(e),
        }
    }
}

impl<'a> TryFrom<&'a [u8]> for Packet<'a> {
    type Error = Error;

    fn try_from(value: &'a [u8]) -> (r: Result<Packet<'a>>) {
        Packet::new(value)
    }
}

impl<'a> vstd::std_specs::convert::TryFromSpecImpl<&'a [u8]> for Packet<'a> {
    open spec fn obeys_try_from_spec() -> bool {
        true
    }

    open spec fn try_from_spec(v: &'a [u8]) -> Result<Packet<'a>> {
        Packet::from_bytes(v@)
    }
}

impl<'a> TryFrom<&'a Vec<u8>> for Packet<'a> {
    type Error = Error;

    fn try_from(value: &'a Vec<u8>) -> (r: Result<Packet<'a>>) {
        Packet::new(value.as_slice())
    }
}

impl<'a> vstd::std_specs::convert::TryFromSpecImpl<&'a Vec<u8>> for Packet<'a> {
    open spec fn obeys_try_from_spec() -> bool {
        true
    }

    open spec fn try_from_spec(v: &'a Vec<u8>) -> Result<Packet<'a>> {
        Packet::from_bytes(v@)
    }
}

/// Building a `Packet` over a byte buffer fails with `EmptyPacket` exactly
/// when the buffer is empty, with `PacketTooLarge` exactly when it is longer
/// than `i32::MAX`, and otherwise succeeds with a view of the very same bytes,
/// whose checked length is the buffer's length.
pub proof fn lemma_packet_construction(v: &[u8])
    ensures
        v@.len() == 0 ==> Packet::from_bytes(v@) == Err::<Packet, Error>(Error::EmptyPacket),
        v@.len() > MAX_LEN ==> Packet::from_bytes(v@) == Err::<Packet, Error>(
            Error::PacketTooLarge,
        ),
        1 <= v@.len() <= MAX_LEN ==> {
            &&& Packet::from_bytes(v@) is Ok
            &&& Packet::from_bytes(v@)->Ok_0@ == v@
            &&& Packet::from_bytes(v@)->Ok_0@.len() == v@.len()
        },
{
    let s = choose|s: &[u8]| s@ == v@;
    assert(s@ == v@);
}

/// A mutably borrowed packet whose length is checked again on every access,
/// since the engine may change what the buffer holds in place.
#[derive(Debug)]
pub struct MutPacket<'a>(&'a mut [u8]);

impl<'a> View for MutPacket<'a> {
    type V = Seq<u8>;

    /// The bytes the packet currently holds.
    closed spec fn view(&self) -> Seq<u8> {
        self.0@
    }
}

impl<'a> MutPacket<'a> {
    /// Checks the buffer's length and wraps it; nothing is copied.
    pub fn try_from(value: &'a mut [u8]) -> (r: Result<MutPacket<'a>>)
        ensures
            match checked_packet_len(old(value)@.len()) {
                Ok(_) => r is Ok && r->Ok_0@ == old(value)@,
                Err(e) => r == Err::<MutPacket, Error>(e),
            },
    {
        match packet_len_check(value) {
            Ok(_) => Ok(MutPacket(value)),
            Err(e) => Err(e),
        }
    }

    /// The buffer's length as an `i32`, checked anew.
    pub fn i32_len(&self) -> (r: Result<i32>)
        ensures
            r == checked_packet_len(self@.len()),
    {
        packet_len_check(self.0)
    }

    /// The underlying buffer, for the engine to read and write.
    pub fn as_mut_slice(&mut self) -> (r: &mut [u8])
        ensures
            r@ == old(self)@,
            final(self)@ == final(r)@,
    {
        &mut *self.0
    }
}

/// The bandwidth code the engine reads from a packet's first byte.
pub open spec fn toc_bandwidth(toc: u8) -> i32 {
    if toc & 0x80u8 != 0 {
        let band = OPUS_BANDWIDTH_MEDIUMBAND + ((toc >> 5u8) & 3u8);
        if band == OPUS_BANDWIDTH_MEDIUMBAND {
            OPUS_BANDWIDTH_NARROWBAND
        } else {
            band as i32
        }
    } else if toc & 0x60u8 == 0x60u8 {
        if toc & 0x10u8 != 0 {
            OPUS_BANDWIDTH_FULLBAND
        } else {
            OPUS_BANDWIDTH_SUPERWIDEBAND
        }
    } else {
        (OPUS_BANDWIDTH_NARROWBAND + ((toc >> 5u8) & 3u8)) as i32
    }
}

/// Two to the power of a two-bit number.
pub open spec fn scale_of(k: u8) -> int {
    if k == 0 {
        1
    } else if k == 1 {
        2
    } else if k == 2 {
        4
    } else {
        8
    }
}

/// Samples in each frame of a packet with first byte `toc`, at `fs` Hertz.
pub open spec fn toc_samples_per_frame(toc: u8, fs: int) -> int {
    if toc & 0x80u8 != 0 {
        fs * scale_of((toc >> 3u8) & 3u8) / 400
    } else if toc & 0x60u8 == 0x60u8 {
        if toc & 0x08u8 != 0 {
            fs / 50
        } else {
            fs / 100
        }
    } else {
        let size = (toc >> 3u8) & 3u8;
        if size == 3 {
            fs * 60 / 1000
        } else {
            fs * scale_of(size) / 100
        }
    }
}

/// Number of frames in packet `p`, or the engine's status when `p` is cut short.
pub open spec fn packet_frames(p: Seq<u8>) -> int {
    let count = p[0] & 3u8;
    if count == 0 {
        1
    } else if count != 3 {
        2
    } else if p.len() < 2 {
        OPUS_INVALID_PACKET as int
    } else {
        (p[1] & 0x3Fu8) as int
    }
}

/// Number of samples in packet `p` at `fs` Hertz, or the engine's status when
/// the packet is malformed or would last longer than 120 ms.
pub open spec fn packet_samples(p: Seq<u8>, fs: int) -> int {
    let count = packet_frames(p);
    if count < 0 {
        count
    } else if count * toc_samples_per_frame(p[0], fs) * 25 > fs * 3 {
        OPUS_INVALID_PACKET as int
    } else {
        count * toc_samples_per_frame(p[0], fs)
    }
}

fn two_bits_above(toc: u8, shift: u8) -> (r: u8)
    requires
        shift == 3 || shift == 5,
    ensures
        r == (toc >> shift) & 3u8,
        r <= 3,
{
    let r = (toc >> shift) & 3u8;
    assert(((toc >> shift) & 3u8) <= 3u8) by (bit_vector);
    r
}

/// What libopus's `opus_packet_get_bandwidth` computes from the first byte.
fn packet_get_bandwidth(toc: u8) -> (r: i32)
    ensures
        r == toc_bandwidth(toc),
        OPUS_BANDWIDTH_NARROWBAND <= r <= OPUS_BANDWIDTH_FULLBAND,
{
    if toc & 0x80u8 != 0 {
        let band = OPUS_BANDWIDTH_MEDIUMBAND + two_bits_above(toc, 5) as i32;
        if band == OPUS_BANDWIDTH_MEDIUMBAND {
            OPUS_BANDWIDTH_NARROWBAND
        } else {
            band
        }
    } else if toc & 0x60u8 == 0x60u8 {
        if toc & 0x10u8 != 0 {
            OPUS_BANDWIDTH_FULLBAND
        } else {
            OPUS_BANDWIDTH_SUPERWIDEBAND
        }
    } else {
        OPUS_BANDWIDTH_NARROWBAND + two_bits_above(toc, 5) as i32
    }
}

/// Gets the bandwidth of an Opus `packet`.
pub fn bandwidth(packet: Packet<'_>) -> (r: Result<Bandwidth>)
    ensures
        r == Bandwidth::parse(toc_bandwidth(packet@[0])),
        r is Ok,
{
    Bandwidth::try_from(packet_get_bandwidth(packet.toc()))
}

fn scale(k: u8) -> (r: i32)
    requires
        k <= 3,
    ensures
        r == scale_of(k),
        1 <= r <= 8,
{
    if k == 0 {
        1
    } else if k == 1 {
        2
    } else if k == 2 {
        4
    } else {
        8
    }
}

/// What libopus's `opus_packet_get_samples_per_frame` computes from the
/// first byte.
fn packet_get_samples_per_frame(toc: u8, fs: i32) -> (r: i32)
    requires
        0 <= fs <= 48000,
    ensures
        r == toc_samples_per_frame(toc, fs as int),
        0 <= r <= 2880,
{
    if toc & 0x80u8 != 0 {
        let s = scale(two_bits_above(toc, 3));
        assert(0 <= fs * s <= 384000) by (nonlinear_arith)
            requires
                0 <= fs <= 48000,
                1 <= s <= 8,
        ;
        fs * s / 400
    } else if toc & 0x60u8 == 0x60u8 {
        if toc & 0x08u8 != 0 {
            fs / 50
        } else {
            fs / 100
        }
    } else {
        let size = two_bits_above(toc, 3);
        if size == 3 {
            fs * 60 / 1000
        } else {
            let s = scale(size);
            assert(0 <= fs * s <= 192000) by (nonlinear_arith)
                requires
                    0 <= fs <= 48000,
                    1 <= s <= 4,
            ;
            fs * s / 100
        }
    }
}

/// Gets the number of samples per frame of an Opus `packet` at `sample_rate`.
pub fn samples_per_frame(packet: Packet<'_>, sample_rate: SampleRate) -> (r: Result<usize>)
    ensures
        r == Ok::<usize, Error>(toc_samples_per_frame(packet@[0], sample_rate.hz() as int) as usize),
{
    Ok(packet_get_samples_per_frame(packet.toc(), i32::from(sample_rate)) as usize)
}

/// What libopus's `opus_packet_get_nb_frames` computes from the first two
/// bytes.
fn packet_get_nb_frames(packet: &Packet<'_>) -> (r: i32)
    ensures
        r == packet_frames(packet@),
        r == OPUS_INVALID_PACKET || 0 <= r <= 63,
{
    let len = packet.i32_len();
    let data = packet.as_slice();
    let count = data[0] & 3u8;
    if count == 0 {
        1
    } else if count != 3 {
        2
    } else if len < 2 {
        OPUS_INVALID_PACKET
    } else {
        let second = data[1];
        assert((second & 0x3Fu8) <= 63u8) by (bit_vector);
        (second & 0x3Fu8) as i32
    }
}

/// Gets the number of frames in an Opus `packet`.
pub fn nb_frames(packet: Packet<'_>) -> (r: Result<usize>)
    ensures
        r == opus_count(packet_frames(packet@) as i32),
        r is Err <==> packet_frames(packet@) < 0,
{
    match try_map_opus_error(packet_get_nb_frames(&packet)) {
        Ok(n) => Ok(n as usize),
        Err(e) => Err(e),
    }
}

/// Gets the number of samples in an Opus `packet` at `sample_rate`.
/// Computed as libopus's `opus_packet_get_nb_samples` does.
pub fn nb_samples(packet: Packet<'_>, sample_rate: SampleRate) -> (r: Result<usize>)
    ensures
        r == opus_count(packet_samples(packet@, sample_rate.hz() as int) as i32),
        r is Err <==> packet_samples(packet@, sample_rate.hz() as int) < 0,
{
    let fs = i32::from(sample_rate);
    let count = packet_get_nb_frames(&packet);
    let samples = if count < 0 {
        count
    } else {
        let per_frame = packet_get_samples_per_frame(packet.toc(), fs);
        assert(0 <= count * per_frame <= 63 * 2880) by (nonlinear_arith)
            requires
                0 <= count <= 63,
                0 <= per_frame <= 2880,
        ;
        let samples = count * per_frame;
        if samples * 25 > fs * 3 {
            OPUS_INVALID_PACKET
        } else {
            samples
        }
    };
    match try_map_opus_error(samples) {
        Ok(n) => Ok(n as usize),
        Err(e) => Err(e),
    }
}

/// Gets the number of channels an Opus `packet` was coded with.
pub fn nb_channels(packet: Packet<'_>) -> (r: Result<Channels>)
    ensures
        r == Ok::<Channels, Error>(
            if packet@[0] & 4u8 != 0 {
                Channels::Stereo
            } else {
                Channels::Mono
            },
        ),
{
    let channels: i32 = if packet.toc() & 4u8 != 0 {
        2
    } else {
        1
    };
    Channels::try_from(channels)
}

} // verus!
