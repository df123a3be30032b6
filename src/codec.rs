use vstd::prelude::*;

verus! {

/// Bytes taken by the length that leads every frame.
pub const LENGTH_PREFIX: usize = 4;

/// Why bytes could not be framed or unframed.
#[derive(Clone, Copy, Debug, PartialEq, Eq, Structural)]
pub enum FrameError {
    /// The payload is longer than a 32-bit length can state.
    TooLarge,
    /// Fewer than four bytes: the length itself is cut off.
    ShortHeader,
    /// The length announces more bytes than follow it.
    ShortPayload,
}

/// `n` as four bytes, most significant first.
#[verifier::opaque]
pub open spec fn be_bytes(n: u32) -> Seq<u8> {
    seq![(n >> 24u32) as u8, ((n >> 16u32) & 0xffu32) as u8, ((n >> 8u32) & 0xffu32) as u8, (n & 0xffu32) as u8]
}

/// The number that four bytes, most significant first, denote.
#[verifier::opaque]
pub open spec fn be_value(b0: u8, b1: u8, b2: u8, b3: u8) -> u32 {
    ((b0 as u32) << 24u32) | ((b1 as u32) << 16u32) | ((b2 as u32) << 8u32) | (b3 as u32)
}

/// The frame of a payload: its length as four big-endian bytes, then the payload.
pub open spec fn frame(payload: Seq<u8>) -> Seq<u8> {
    be_bytes(payload.len() as u32) + payload
}

/// What decoding the front of `bytes` gives: the payload of the first frame and the number
/// of bytes that frame takes.
pub open spec fn unframe(bytes: Seq<u8>) -> Result<(Seq<u8>, nat), FrameError> {
    if bytes.len() < 4 {
        Err(FrameError::ShortHeader)
    } else {
        let n = be_value(bytes[0], bytes[1], bytes[2], bytes[3]) as nat;
        if bytes.len() - 4 < n {
            Err(FrameError::ShortPayload)
        } else {
            Ok((bytes.subrange(4, 4 + n as int), 4 + n))
        }
    }
}

proof fn lemma_be_round_trip(n: u32)
    ensures
        be_value(be_bytes(n)[0], be_bytes(n)[1], be_bytes(n)[2], be_bytes(n)[3]) == n,
{
    reveal(be_bytes);
    reveal(be_value);
    let b0 = (n >> 24u32) as u8;
    let b1 = ((n >> 16u32) & 0xffu32) as u8;
    let b2 = ((n >> 8u32) & 0xffu32) as u8;
    let b3 = (n & 0xffu32) as u8;
    assert(b0 as u32 == n >> 24u32) by (bit_vector)
        requires
            b0 == (n >> 24u32) as u8,
    ;
    assert(b1 as u32 == (n >> 16u32) & 0xffu32) by (bit_vector)
        requires
            b1 == ((n >> 16u32) & 0xffu32) as u8,
    ;
    assert(b2 as u32 == (n >> 8u32) & 0xffu32) by (bit_vector)
        requires
            b2 == ((n >> 8u32) & 0xffu32) as u8,
    ;
    assert(b3 as u32 == n & 0xffu32) by (bit_vector)
        requires
            b3 == (n & 0xffu32) as u8,
    ;
    assert(((n >> 24u32) << 24u32) | (((n >> 16u32) & 0xffu32) << 16u32) | (((n >> 8u32)
        & 0xffu32) << 8u32) | (n & 0xffu32) == n) by (bit_vector);
}

/// The length that leads a frame.
pub fn frame_length(header: [u8; 4]) -> (n: u32)
    ensures
        n == be_value(header@[0], header@[1], header@[2], header@[3]),
{
    reveal(be_value);
    ((header[0] as u32) << 24u32) | ((header[1] as u32) << 16u32) | ((header[2] as u32) << 8u32)
        | (header[3] as u32)
}

/// The four bytes that announce a payload of `len` bytes.
pub fn length_prefix(len: u32) -> (r: [u8; 4])
    ensures
        r@ == be_bytes(len),
{
    reveal(be_bytes);
    let r = [(len >> 24u32) as u8, ((len >> 16u32) & 0xffu32) as u8, ((len >> 8u32) & 0xffu32) as u8, (len & 0xffu32) as u8];
    assert(r@ =~= be_bytes(len));
    r
}

/// Frames a payload; fails only when its length does not fit in 32 bits.
pub fn encode_frame(payload: &[u8]) -> (r: Result<Vec<u8>, FrameError>)
    ensures
        payload@.len() <= u32::MAX ==> r is Ok && r->Ok_0@ == frame(payload@),
        payload@.len() > u32::MAX ==> r == Err::<Vec<u8>, FrameError>(FrameError::TooLarge),
{
    if payload.len() > u32::MAX as usize {
        return Err(FrameError::TooLarge);
    }
    let prefix = length_prefix(payload.len() as u32);
    let mut out: Vec<u8> = Vec::new();
    let mut i: usize = 0;
    while i < 4
        invariant
            0 <= i <= 4,
            prefix@ == be_bytes(payload@.len() as u32),
            out@ == prefix@.subrange(0, i as int),
        decreases 4 - i,
    {
        out.push(prefix[i]);
        i = i + 1;
        assert(out@ =~= prefix@.subrange(0, i as int));
    }
    let mut j: usize = 0;
    while j < payload.len()
        invariant
            0 <= j <= payload@.len(),
            out@ == be_bytes(payload@.len() as u32) + payload@.subrange(0, j as int),
        decreases payload@.len() - j,
    {
        out.push(payload[j]);
        j = j + 1;
        assert(out@ =~= be_bytes(payload@.len() as u32) + payload@.subrange(0, j as int));
    }
    assert(payload@.subrange(0, j as int) =~= payload@);
    Ok(out)
}

/// Reads the first frame at the front of `bytes`: its payload, and how many bytes it took.
pub fn decode_frame(bytes: &[u8]) -> (r: Result<(Vec<u8>, usize), FrameError>)
    ensures
        match unframe(bytes@) {
            Ok((payload, used)) => r is Ok && r->Ok_0.0@ == payload && r->Ok_0.1 == used,
            Err(e) => r == Err::<(Vec<u8>, usize), FrameError>(e),
        },
{
    if bytes.len() < 4 {
        return Err(FrameError::ShortHeader);
    }
    let n = frame_length([bytes[0], bytes[1], bytes[2], bytes[3]]) as usize;
    if bytes.len() - 4 < n {
        return Err(FrameError::ShortPayload);
    }
    let total: usize = bytes.len();
    let mut payload: Vec<u8> = Vec::new();
    let mut i: usize = 0;
    while i < n
        invariant
            0 <= i <= n,
            total == bytes@.len(),
            4 + n <= bytes@.len(),
            payload@ == bytes@.subrange(4, 4 + i),
        decreases n - i,
    {
        payload.push(bytes[4 + i]);
        i = i + 1;
        assert(payload@ =~= bytes@.subrange(4, 4 + i));
    }
    Ok((payload, 4 + n))
}

/// A framed payload decodes to itself, whatever follows the frame.
pub proof fn lemma_frame_round_trip(payload: Seq<u8>, rest: Seq<u8>)
    requires
        payload.len() <= u32::MAX,
    ensures
        unframe(frame(payload) + rest) == Ok::<(Seq<u8>, nat), FrameError>((payload, 4 + payload.len())),
{
    let n = payload.len() as u32;
    let bytes = frame(payload) + rest;
    lemma_be_round_trip(n);
    let b = be_bytes(n);
    assert(b.len() == 4) by {
        reveal(be_bytes);
    }
    assert(bytes[0] == b[0]);
    assert(bytes[1] == b[1]);
    assert(bytes[2] == b[2]);
    assert(bytes[3] == b[3]);
    assert(bytes.subrange(4, 4 + payload.len() as int) =~= payload);
}

} // verus!
