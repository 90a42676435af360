//! The length-prefixed framing of the messaging protocol: a 4-byte
//! unsigned length in the machine's byte order, then that many body bytes.
use vstd::prelude::*;

verus! {

/// The byte order of the length prefix.
#[derive(Clone, Copy, Debug, PartialEq, Eq, Structural)]
pub enum ByteOrder {
    Little,
    Big,
}

/// Relies on `u32::from_ne_bytes`: read in the machine's byte order, the
/// bytes 1, 0, 0, 0 are 1 on a little-endian machine and 2^24 on a
/// big-endian one.
#[verifier::external_body]
fn ne_probe() -> (r: u32)
    ensures
        r == 1 || r == 0x0100_0000,
{
    u32::from_ne_bytes([1, 0, 0, 0])
}

/// The byte order that the probe value (1, 0, 0, 0 read in the machine's
/// order) reveals: 1 on a little-endian machine, 2^24 on a big-endian one.
pub fn byte_order_of_probe(p: u32) -> (r: ByteOrder)
    requires
        p == 1 || p == 0x0100_0000,
    ensures
        r == (if p == 1 { ByteOrder::Little } else { ByteOrder::Big }),
{
    if p == 1 {
        ByteOrder::Little
    } else {
        ByteOrder::Big
    }
}

/// The byte order of this machine, which the peer shares: what
/// `byte_order_of_probe` makes of the machine's probe value. Which value
/// that is depends on the machine, so nothing more is stated here.
pub fn native_byte_order() -> ByteOrder {
    let p = ne_probe();
    byte_order_of_probe(p)
}

/// The four bytes of `n` in the given order.
pub open spec fn prefix_bytes(order: ByteOrder, n: u32) -> Seq<u8> {
    let b0 = (n % 256) as u8;
    let b1 = (n / 256 % 256) as u8;
    let b2 = (n / 65536 % 256) as u8;
    let b3 = (n / 16777216) as u8;
    match order {
        ByteOrder::Little => seq![b0, b1, b2, b3],
        ByteOrder::Big => seq![b3, b2, b1, b0],
    }
}

/// The number that four bytes hold in the given order.
pub open spec fn prefix_value(order: ByteOrder, b: Seq<u8>) -> nat {
    match order {
        ByteOrder::Little => (b[0] + 256 * b[1] + 65536 * b[2] + 16777216 * b[3]) as nat,
        ByteOrder::Big => (b[3] + 256 * b[2] + 65536 * b[1] + 16777216 * b[0]) as nat,
    }
}

/// A frame: the length prefix of `body`, then `body`.
pub open spec fn frame_of(order: ByteOrder, body: Seq<u8>) -> Seq<u8> {
    prefix_bytes(order, body.len() as u32) + body
}

/// The first frame at the start of `bytes`: its body and the number of
/// bytes it takes; `None` when the bytes end before the frame does.
pub open spec fn parse_frame(order: ByteOrder, bytes: Seq<u8>) -> Option<(Seq<u8>, nat)> {
    if bytes.len() < 4 {
        None
    } else {
        let n = prefix_value(order, bytes.subrange(0, 4));
        if bytes.len() < 4 + n {
            None
        } else {
            Some((bytes.subrange(4, 4 + n as int), 4 + n))
        }
    }
}

proof fn lemma_prefix_round_trip(order: ByteOrder, n: u32)
    ensures
        prefix_value(order, prefix_bytes(order, n)) == n,
{
    let b0 = (n % 256) as u8;
    let b1 = (n / 256 % 256) as u8;
    let b2 = (n / 65536 % 256) as u8;
    let b3 = (n / 16777216) as u8;
    assert(b0 + 256 * b1 + 65536 * b2 + 16777216 * b3 == n) by (nonlinear_arith)
        requires
            b0 == n % 256,
            b1 == n / 256 % 256,
            b2 == n / 65536 % 256,
            b3 == n / 16777216,
            n < 0x1_0000_0000,
    ;
}

/// Why a frame could not be made or read.
#[derive(Clone, Copy, Debug, PartialEq, Eq, Structural)]
pub enum FrameError {
    /// The body does not fit a 4-byte length.
    TooLong,
    /// The bytes ended before the length prefix or the body did.
    Truncated,
}

/// The length prefix for a body of `n` bytes.
pub fn encode_length(order: ByteOrder, n: u32) -> (r: [u8; 4])
    ensures
        r@ == prefix_bytes(order, n),
{
    let b0 = (n % 256) as u8;
    let b1 = (n / 256 % 256) as u8;
    let b2 = (n / 65536 % 256) as u8;
    let b3 = (n / 16777216) as u8;
    let r = match order {
        ByteOrder::Little => [b0, b1, b2, b3],
        ByteOrder::Big => [b3, b2, b1, b0],
    };
    assert(r@ =~= prefix_bytes(order, n));
    r
}

/// The body length that a 4-byte prefix announces.
pub fn decode_length(order: ByteOrder, b: [u8; 4]) -> (r: u32)
    ensures
        r == prefix_value(order, b@),
{
    let v: u64 = match order {
        ByteOrder::Little => b[0] as u64 + 256 * (b[1] as u64) + 65536 * (b[2] as u64) + 16777216
            * (b[3] as u64),
        ByteOrder::Big => b[3] as u64 + 256 * (b[2] as u64) + 65536 * (b[1] as u64) + 16777216
            * (b[0] as u64),
    };
    v as u32
}

/// Frame `body`: its length prefix followed by the body itself.
pub fn encode_frame(order: ByteOrder, body: &[u8]) -> (r: Result<Vec<u8>, FrameError>)
    ensures
        r is Err <==> body@.len() > u32::MAX,
        r is Ok ==> r->Ok_0@ == frame_of(order, body@),
        r is Err ==> r->Err_0 == FrameError::TooLong,
{
    if body.len() > 0xffff_ffffusize {
        return Err(FrameError::TooLong);
    }
    let prefix = encode_length(order, body.len() as u32);
    let mut out: Vec<u8> = Vec::new();
    out.push(prefix[0]);
    out.push(prefix[1]);
    out.push(prefix[2]);
    out.push(prefix[3]);
    let mut i: usize = 0;
    while i < body.len()
        invariant
            0 <= i <= body@.len(),
            out@ == prefix@ + body@.subrange(0, i as int),
        decreases body@.len() - i,
    {
        out.push(body[i]);
        assert(body@.subrange(0, i + 1) == body@.subrange(0, i as int).push(body@[i as int]));
        i = i + 1;
    }
    assert(body@.subrange(0, body@.len() as int) == body@);
    Ok(out)
}

/// Read the first frame of `bytes`: its body and how many bytes it took.
pub fn decode_frame(order: ByteOrder, bytes: &[u8]) -> (r: Result<(Vec<u8>, usize), FrameError>)
    ensures
        r is Ok <==> parse_frame(order, bytes@) is Some,
        r is Ok ==> parse_frame(order, bytes@) == Some((r->Ok_0.0@, r->Ok_0.1 as nat)),
        r is Err ==> r->Err_0 == FrameError::Truncated,
{
    if bytes.len() < 4 {
        return Err(FrameError::Truncated);
    }
    let head: [u8; 4] = [bytes[0], bytes[1], bytes[2], bytes[3]];
    assert(head@ =~= bytes@.subrange(0, 4));
    let n = decode_length(order, head) as usize;
    assert(bytes@.len() == bytes.len());
    if bytes.len() - 4 < n {
        return Err(FrameError::Truncated);
    }
    let mut body: Vec<u8> = Vec::new();
    let mut i: usize = 0;
    while i < n
        invariant
            4 + n <= bytes@.len(),
            bytes@.len() <= usize::MAX,
            0 <= i <= n,
            body@ == bytes@.subrange(4, 4 + i),
        decreases n - i,
    {
        body.push(bytes[4 + i]);
        assert(bytes@.subrange(4, 4 + i + 1) == bytes@.subrange(4, 4 + i).push(bytes@[4 + i]));
        i = i + 1;
    }
    Ok((body, 4 + n))
}

/// Framing round trip: reading the first frame of a stream that starts
/// with the frame of `body` gives back `body` exactly and consumes exactly
/// that frame, whatever follows it on the stream.
pub proof fn lemma_frame_round_trip(order: ByteOrder, body: Seq<u8>, rest: Seq<u8>)
    requires
        body.len() <= u32::MAX,
    ensures
        parse_frame(order, frame_of(order, body) + rest) == Some((body, 4 + body.len())),
{
    let s = frame_of(order, body) + rest;
    lemma_prefix_round_trip(order, body.len() as u32);
    assert(s.subrange(0, 4) =~= prefix_bytes(order, body.len() as u32));
    assert(s.subrange(4, 4 + body.len() as int) =~= body);
}

} // verus!
