//! The wire frame: a head sentinel, a command id, a length-prefixed payload
//! and a tail sentinel, every integer little-endian.

use vstd::prelude::*;
use vstd::slice::slice_subrange;
use vstd::slice::slice_to_vec;

verus! {

/// Sentinel that opens every frame ("FATE").
pub const HEAD_MAGIC: u32 = 0x46415445;

/// Sentinel that closes every frame ("LOOM").
pub const TAIL_MAGIC: u32 = 0x4C4F4F4D;

/// Bytes before the payload: head sentinel, command id, payload length.
pub const HEADER_LEN: usize = 10;

/// Bytes of the tail sentinel.
pub const TRAILER_LEN: usize = 4;

/// Why a byte buffer is not a frame.
#[derive(Clone, Copy, Debug, PartialEq, Eq, Structural)]
pub enum FrameError {
    /// The first four bytes are not the head sentinel.
    BadHead,
    /// The four bytes after the payload are not the tail sentinel.
    BadTail,
    /// The buffer ends before the frame it announces does.
    Truncated,
}

/// One frame: the command id and the payload it carries.
pub struct Packet {
    pub cmd_id: u16,
    pub msg: Vec<u8>,
}

/// The little-endian `u32` held by the first four bytes of `s`.
pub open spec fn le_u32(s: Seq<u8>) -> u32 {
    (s[0] as u32) | ((s[1] as u32) << 8u32) | ((s[2] as u32) << 16u32) | ((s[3] as u32) << 24u32)
}

/// The little-endian `u16` held by the first two bytes of `s`.
pub open spec fn le_u16(s: Seq<u8>) -> u16 {
    (s[0] as u16) | ((s[1] as u16) << 8u16)
}

/// The four little-endian bytes of `v`.
pub open spec fn le_u32_bytes(v: u32) -> Seq<u8> {
    seq![
        (v & 0xff) as u8,
        ((v >> 8u32) & 0xff) as u8,
        ((v >> 16u32) & 0xff) as u8,
        ((v >> 24u32) & 0xff) as u8,
    ]
}

/// The two little-endian bytes of `v`.
pub open spec fn le_u16_bytes(v: u16) -> Seq<u8> {
    seq![(v & 0xff) as u8, ((v >> 8u16) & 0xff) as u8]
}

/// The payload length that the header of `b` announces.
pub open spec fn declared_len(b: Seq<u8>) -> int {
    le_u32(b.subrange(6, 10)) as int
}

/// What decoding the buffer `b` yields: the command id and the payload, or
/// the first defect found, reading from the front.
pub open spec fn spec_decode(b: Seq<u8>) -> Result<(u16, Seq<u8>), FrameError> {
    if b.len() < 4 {
        Err(FrameError::Truncated)
    } else if le_u32(b.subrange(0, 4)) != HEAD_MAGIC {
        Err(FrameError::BadHead)
    } else if b.len() < HEADER_LEN {
        Err(FrameError::Truncated)
    } else if b.len() < HEADER_LEN + declared_len(b) + TRAILER_LEN {
        Err(FrameError::Truncated)
    } else if le_u32(
        b.subrange(HEADER_LEN + declared_len(b), HEADER_LEN + declared_len(b) + TRAILER_LEN),
    ) != TAIL_MAGIC {
        Err(FrameError::BadTail)
    } else {
        Ok((le_u16(b.subrange(4, 6)), b.subrange(HEADER_LEN as int, HEADER_LEN + declared_len(b))))
    }
}

/// The bytes of the frame that carries `payload` under `cmd_id`.
pub open spec fn spec_encode(cmd_id: u16, payload: Seq<u8>) -> Seq<u8> {
    le_u32_bytes(HEAD_MAGIC) + le_u16_bytes(cmd_id) + le_u32_bytes(payload.len() as u32) + payload
        + le_u32_bytes(TAIL_MAGIC)
}

proof fn lemma_le_u32_round_trip(v: u32)
    ensures
        le_u32(le_u32_bytes(v)) == v,
{
    assert(((((v & 0xff) as u8) as u32) | (((((v >> 8u32) & 0xff) as u8) as u32) << 8u32) | ((
    (((v >> 16u32) & 0xff) as u8) as u32) << 16u32) | (((((v >> 24u32) & 0xff) as u8) as u32)
        << 24u32)) == v) by (bit_vector);
}

proof fn lemma_le_u16_round_trip(v: u16)
    ensures
        le_u16(le_u16_bytes(v)) == v,
{
    assert(((((v & 0xff) as u8) as u16) | (((((v >> 8u16) & 0xff) as u8) as u16) << 8u16)) == v)
        by (bit_vector);
}

/// Decoding the encoding of a frame gives back its command id and payload.
pub proof fn lemma_round_trip(cmd_id: u16, payload: Seq<u8>)
    requires
        payload.len() <= u32::MAX,
    ensures
        spec_decode(spec_encode(cmd_id, payload)) == Ok::<(u16, Seq<u8>), FrameError>(
            (cmd_id, payload),
        ),
{
    let b = spec_encode(cmd_id, payload);
    let n = payload.len() as int;
    lemma_le_u32_round_trip(HEAD_MAGIC);
    lemma_le_u32_round_trip(TAIL_MAGIC);
    lemma_le_u32_round_trip(n as u32);
    lemma_le_u16_round_trip(cmd_id);
    assert(b.subrange(0, 4) =~= le_u32_bytes(HEAD_MAGIC));
    assert(b.subrange(4, 6) =~= le_u16_bytes(cmd_id));
    assert(b.subrange(6, 10) =~= le_u32_bytes(n as u32));
    assert(declared_len(b) == n);
    assert(b.subrange(10 + n, 14 + n) =~= le_u32_bytes(TAIL_MAGIC));
    assert(b.subrange(10, 10 + n) =~= payload);
}

/// A buffer whose head or tail sentinel is not the expected constant is
/// never decoded into a frame.
pub proof fn lemma_corrupt_sentinel_rejected(b: Seq<u8>)
    requires
        (b.len() >= 4 && le_u32(b.subrange(0, 4)) != HEAD_MAGIC) || (b.len() >= HEADER_LEN
            && b.len() >= HEADER_LEN + declared_len(b) + TRAILER_LEN && le_u32(
            b.subrange(HEADER_LEN + declared_len(b), HEADER_LEN + declared_len(b) + TRAILER_LEN),
        ) != TAIL_MAGIC),
    ensures
        spec_decode(b) is Err,
        b.len() >= 4 && le_u32(b.subrange(0, 4)) != HEAD_MAGIC ==> spec_decode(b) == Err::<
            (u16, Seq<u8>),
            FrameError,
        >(FrameError::BadHead),
        b.len() >= HEADER_LEN && le_u32(b.subrange(0, 4)) == HEAD_MAGIC ==> spec_decode(b)
            == Err::<(u16, Seq<u8>), FrameError>(FrameError::BadTail),
{
}

fn read_u32_le(b: &[u8], at: usize) -> (r: u32)
    requires
        at + 4 <= b@.len(),
    ensures
        r == le_u32(b@.subrange(at as int, at + 4)),
{
    let r = (b[at] as u32) | ((b[at + 1] as u32) << 8u32) | ((b[at + 2] as u32) << 16u32) | ((b[at
        + 3] as u32) << 24u32);
    assert(b@.subrange(at as int, at + 4)[0] == b@[at as int]);
    assert(b@.subrange(at as int, at + 4)[1] == b@[at + 1]);
    assert(b@.subrange(at as int, at + 4)[2] == b@[at + 2]);
    assert(b@.subrange(at as int, at + 4)[3] == b@[at + 3]);
    r
}

fn push_u32_le(out: &mut Vec<u8>, v: u32)
    ensures
        final(out)@ == old(out)@ + le_u32_bytes(v),
{
    out.push((v & 0xff) as u8);
    out.push(((v >> 8u32) & 0xff) as u8);
    out.push(((v >> 16u32) & 0xff) as u8);
    out.push(((v >> 24u32) & 0xff) as u8);
    assert(final(out)@ =~= old(out)@ + le_u32_bytes(v));
}

impl Packet {
    /// A frame that carries `msg` under `cmd_id`.
    pub fn new(cmd_id: u16, msg: Vec<u8>) -> (r: Packet)
        ensures
            r.cmd_id == cmd_id,
            r.msg@ == msg@,
    {
        Packet { cmd_id, msg }
    }

    /// Reads one frame from the front of `bytes`. Both sentinels are checked
    /// before the payload is handed out; bytes after the tail sentinel are
    /// not read.
    pub fn decode(bytes: &[u8]) -> (r: Result<Packet, FrameError>)
        ensures
            match (r, spec_decode(bytes@)) {
                (Ok(p), Ok((cmd_id, payload))) => p.cmd_id == cmd_id && p.msg@ == payload,
                (Err(e), Err(f)) => e == f,
                _ => false,
            },
    {
        let len = bytes.len();
        if len < 4 {
            return Err(FrameError::Truncated);
        }
        if read_u32_le(bytes, 0) != HEAD_MAGIC {
            return Err(FrameError::BadHead);
        }
        if len < HEADER_LEN {
            return Err(FrameError::Truncated);
        }
        let size = read_u32_le(bytes, 6) as usize;
        assert(size == declared_len(bytes@));
        let avail = len - HEADER_LEN;
        if size > avail || avail - size < TRAILER_LEN {
            return Err(FrameError::Truncated);
        }
        let end = HEADER_LEN + size;
        if read_u32_le(bytes, end) != TAIL_MAGIC {
            return Err(FrameError::BadTail);
        }
        let lo = (bytes[4] as u16) | ((bytes[5] as u16) << 8u16);
        assert(bytes@.subrange(4, 6)[0] == bytes@[4]);
        assert(bytes@.subrange(4, 6)[1] == bytes@[5]);
        let msg = slice_to_vec(slice_subrange(bytes, HEADER_LEN, end));
        Ok(Packet { cmd_id: lo, msg })
    }

    /// The bytes of this frame on the wire.
    pub fn encode(&self) -> (r: Vec<u8>)
        requires
            self.msg@.len() <= u32::MAX,
        ensures
            r@ == spec_encode(self.cmd_id, self.msg@),
    {
        let mut out: Vec<u8> = Vec::new();
        push_u32_le(&mut out, HEAD_MAGIC);
        out.push((self.cmd_id & 0xff) as u8);
        out.push(((self.cmd_id >> 8u16) & 0xff) as u8);
        assert(out@ =~= le_u32_bytes(HEAD_MAGIC) + le_u16_bytes(self.cmd_id));
        push_u32_le(&mut out, self.msg.len() as u32);
        let mut i: usize = 0;
        let ghost base = out@;
        while i < self.msg.len()
            invariant
                i <= self.msg@.len(),
                out@ == base + self.msg@.subrange(0, i as int),
            decreases self.msg@.len() - i,
        {
            out.push(self.msg[i]);
            i = i + 1;
            assert(out@ =~= base + self.msg@.subrange(0, i as int));
        }
        assert(self.msg@.subrange(0, i as int) =~= self.msg@);
        push_u32_le(&mut out, TAIL_MAGIC);
        out
    }
}

} // verus!
