//! Length-prefixed framing: each frame is a four-byte big-endian payload
//! length followed by exactly that many payload bytes.

use vstd::prelude::*;

verus! {

/// Width of the size field in bytes.
pub const SIZE: usize = 4;

/// Largest payload a frame may declare: 10 MiB.
pub const MAX_SIZE: usize = 1024 * 1024 * 10;

/// Largest value the size field can hold.
pub const SIZE_LIMIT: usize = 0xffff_ffff;

/// The four big-endian bytes of `n`.
pub open spec fn be32_bytes(n: nat) -> Seq<u8> {
    seq![
        (n / 0x100_0000) as u8,
        ((n / 0x1_0000) % 0x100) as u8,
        ((n / 0x100) % 0x100) as u8,
        (n % 0x100) as u8,
    ]
}

/// The number that the first four bytes of `b` spell in big-endian order.
pub open spec fn be32_value(b: Seq<u8>) -> nat {
    (b[0] as nat) * 0x100_0000 + (b[1] as nat) * 0x1_0000 + (b[2] as nat) * 0x100 + (b[3] as nat)
}

/// The frame that carries `payload`: its length, then the payload itself.
pub open spec fn frame(payload: Seq<u8>) -> Seq<u8> {
    be32_bytes(payload.len()) + payload
}

/// What the front of a byte stream holds.
pub ghost enum Extract {
    /// Not yet a whole frame: more bytes are needed.
    Incomplete,
    /// The size field declares more than `MAX_SIZE` bytes.
    TooBig(nat),
    /// A whole frame: its payload and the bytes after it.
    Complete(Seq<u8>, Seq<u8>),
}

/// Reads one frame from the front of `s`. The size limit is enforced as soon
/// as the size field is known, whatever follows it.
pub open spec fn extract(s: Seq<u8>) -> Extract {
    if s.len() < SIZE {
        Extract::Incomplete
    } else {
        let n = be32_value(s);
        if n > MAX_SIZE {
            Extract::TooBig(n)
        } else if s.len() < SIZE + n {
            Extract::Incomplete
        } else {
            Extract::Complete(s.subrange(SIZE as int, SIZE + n), s.subrange(SIZE + n, s.len() as int))
        }
    }
}

/// Fatal framing errors: each one ends the connection.
#[derive(Debug, PartialEq, Eq)]
pub enum CodecError {
    /// A size field declared more than the maximum payload.
    MessageTooBig { size: usize, max: usize },
    /// A payload too long for the size field.
    SizeOverflow { size: usize },
}

pub proof fn lemma_be32_round_trip(n: nat)
    requires
        n <= SIZE_LIMIT,
    ensures
        be32_bytes(n).len() == SIZE,
        be32_value(be32_bytes(n)) == n,
{
    let b = be32_bytes(n);
    assert(b[0] as nat == n / 0x100_0000) by (nonlinear_arith)
        requires
            n <= 0xffff_ffff,
            b[0] == (n / 0x100_0000) as u8,
    ;
    assert(n == (n / 0x100_0000) * 0x100_0000 + ((n / 0x1_0000) % 0x100) * 0x1_0000 + ((n
        / 0x100) % 0x100) * 0x100 + n % 0x100) by (nonlinear_arith)
        requires
            n <= 0xffff_ffff,
    ;
}

/// Decoder and encoder state for one direction of a connection.
///
/// The decoder reads the size field as soon as four bytes have arrived and
/// keeps it until the payload is complete.
#[derive(Debug)]
pub struct ProtocolCodec {
    size: Option<usize>,
}

impl ProtocolCodec {
    /// Bytes of the stream that the decoder has taken in but not yet handed
    /// out as a frame: the size field it has read, if any.
    pub closed spec fn held(&self) -> Seq<u8> {
        match self.size {
            Some(n) => be32_bytes(n as nat),
            None => Seq::empty(),
        }
    }

    pub closed spec fn wf(&self) -> bool {
        match self.size {
            Some(n) => n <= MAX_SIZE,
            None => true,
        }
    }

    /// Creates a codec that holds no partial frame.
    pub fn new() -> (r: Self)
        ensures
            r.wf(),
            r.held() == Seq::<u8>::empty(),
    {
        ProtocolCodec { size: None }
    }

    /// Appends the frame of `payload` to `bytes`.
    pub fn encode(&self, payload: &Vec<u8>, bytes: &mut Vec<u8>) -> (r: Result<(), CodecError>)
        ensures
            match r {
                Ok(()) => payload@.len() <= SIZE_LIMIT && final(bytes)@ == old(bytes)@ + frame(
                    payload@,
                ),
                Err(e) => payload@.len() > SIZE_LIMIT && e == (CodecError::SizeOverflow {
                    size: payload@.len() as usize,
                }) && final(bytes)@ == old(bytes)@,
            },
    {
        let len = payload.len();
        if len > SIZE_LIMIT {
            return Err(CodecError::SizeOverflow { size: len });
        }
        let ghost start = bytes@;
        bytes.push((len / 0x100_0000) as u8);
        bytes.push(((len / 0x1_0000) % 0x100) as u8);
        bytes.push(((len / 0x100) % 0x100) as u8);
        bytes.push((len % 0x100) as u8);
        assert(bytes@ == start + be32_bytes(len as nat));
        let mut i: usize = 0;
        while i < len
            invariant
                len == payload@.len(),
                i <= len,
                bytes@ == start + be32_bytes(len as nat) + payload@.subrange(0, i as int),
            decreases len - i,
        {
            bytes.push(payload[i]);
            i = i + 1;
            assert(payload@.subrange(0, i as int) == payload@.subrange(0, i - 1).push(
                payload@[i - 1],
            ));
        }
        assert(payload@.subrange(0, len as int) == payload@);
        assert(bytes@ == start + frame(payload@));
        Ok(())
    }

    /// Takes the next frame's payload from the stream made of what the codec
    /// holds followed by `bytes`.
    ///
    /// Returns `Ok(None)` while the frame is incomplete, with nothing of the
    /// stream lost; `MessageTooBig` as soon as a size field above `MAX_SIZE`
    /// is read; otherwise the payload, leaving the rest of the stream in
    /// `bytes` and the codec empty.
    pub fn decode(&mut self, bytes: &mut Vec<u8>) -> (r: Result<Option<Vec<u8>>, CodecError>)
        requires
            old(self).wf(),
        ensures
            final(self).wf(),
            match extract(old(self).held() + old(bytes)@) {
                Extract::Incomplete => r == Ok::<Option<Vec<u8>>, CodecError>(None)
                    && final(self).held() + final(bytes)@ == old(self).held() + old(bytes)@,
                Extract::TooBig(n) => r == Err::<Option<Vec<u8>>, CodecError>(
                    CodecError::MessageTooBig { size: n as usize, max: MAX_SIZE },
                ),
                Extract::Complete(payload, rest) => match r {
                    Ok(Some(v)) => v@ == payload && final(bytes)@ == rest && final(self).held()
                        == Seq::<u8>::empty(),
                    _ => false,
                },
            },
    {
        let ghost stream = self.held() + bytes@;
        if self.size.is_none() {
            assert(stream == bytes@);
            if bytes.len() < SIZE {
                return Ok(None);
            }
            let n: u32 = (bytes[0] as u32) * 0x100_0000 + (bytes[1] as u32) * 0x1_0000 + (
            bytes[2] as u32) * 0x100 + (bytes[3] as u32);
            let n = n as usize;
            assert(n == be32_value(stream));
            let mut rest = bytes.split_off(SIZE);
            std::mem::swap(bytes, &mut rest);
            if n > MAX_SIZE {
                return Err(CodecError::MessageTooBig { size: n, max: MAX_SIZE });
            }
            self.size = Some(n);
            proof {
                lemma_be32_round_trip(n as nat);
                assert(rest@ =~= stream.subrange(0, SIZE as int));
                assert(self.held() =~= rest@) by {
                    assert(be32_bytes(n as nat) =~= stream.subrange(0, SIZE as int)) by {
                        lemma_be32_split(stream);
                    }
                }
                assert(stream =~= self.held() + bytes@);
            }
        }
        let n = match self.size {
            Some(n) => n,
            None => 0,
        };
        proof {
            lemma_be32_round_trip(n as nat);
            let held = self.held();
            assert(held.len() == SIZE);
            assert(stream.subrange(0, SIZE as int) =~= held);
            assert(be32_value(stream) == n) by {
                assert(stream[0] == held[0] && stream[1] == held[1] && stream[2] == held[2]
                    && stream[3] == held[3]);
            }
        }
        if n <= bytes.len() {
            let mut rest = bytes.split_off(n);
            std::mem::swap(bytes, &mut rest);
            self.size = None;
            assert(rest@ =~= stream.subrange(SIZE as int, SIZE + n));
            assert(bytes@ =~= stream.subrange(SIZE + n, stream.len() as int));
            Ok(Some(rest))
        } else {
            Ok(None)
        }
    }
}

/// The payload that a decoder hands out first when `chunks` arrive one after
/// another, with one decode attempt after each arrival, and `stream` already
/// taken in; `None` if no frame completes or the size limit is broken first.
pub open spec fn first_payload(stream: Seq<u8>, chunks: Seq<Seq<u8>>) -> Option<Seq<u8>>
    decreases chunks.len(),
{
    if chunks.len() == 0 {
        None
    } else {
        let s = stream + chunks[0];
        match extract(s) {
            Extract::Complete(payload, _) => Some(payload),
            Extract::Incomplete => first_payload(s, chunks.drop_first()),
            Extract::TooBig(_) => None,
        }
    }
}

/// Decoding an encoded frame gives back its payload, and leaves whatever
/// followed the frame for the next one.
pub proof fn lemma_round_trip(payload: Seq<u8>, rest: Seq<u8>)
    requires
        payload.len() <= MAX_SIZE,
    ensures
        extract(frame(payload) + rest) == Extract::Complete(payload, rest),
{
    let s = frame(payload) + rest;
    let n = payload.len();
    lemma_be32_round_trip(n);
    assert(be32_value(s) == n) by {
        assert(s[0] == be32_bytes(n)[0] && s[1] == be32_bytes(n)[1] && s[2] == be32_bytes(n)[2]
            && s[3] == be32_bytes(n)[3]);
    }
    assert(s.subrange(SIZE as int, SIZE + n) =~= payload);
    assert(s.subrange(SIZE + n, s.len() as int) =~= rest);
}

/// Every proper prefix of a frame within the size limit is incomplete.
pub proof fn lemma_prefix_incomplete(payload: Seq<u8>, k: int)
    requires
        payload.len() <= MAX_SIZE,
        0 <= k < frame(payload).len(),
    ensures
        extract(frame(payload).subrange(0, k)) == Extract::Incomplete,
{
    let f = frame(payload);
    let s = f.subrange(0, k);
    let n = payload.len();
    lemma_be32_round_trip(n);
    if k >= SIZE {
        assert(be32_value(s) == n) by {
            assert(s[0] == f[0] && s[1] == f[1] && s[2] == f[2] && s[3] == f[3]);
        }
    }
}

/// A size field above the limit is refused as soon as it is read, whatever
/// bytes follow it.
pub proof fn lemma_oversize_rejected(n: nat, rest: Seq<u8>)
    requires
        MAX_SIZE < n <= SIZE_LIMIT,
    ensures
        extract(be32_bytes(n) + rest) == Extract::TooBig(n),
{
    let s = be32_bytes(n) + rest;
    lemma_be32_round_trip(n);
    assert(s[0] == be32_bytes(n)[0] && s[1] == be32_bytes(n)[1] && s[2] == be32_bytes(n)[2]
        && s[3] == be32_bytes(n)[3]);
}

/// A frame split into pieces at any byte boundaries decodes to the same
/// payload as the whole frame does.
pub proof fn lemma_fragmentation(payload: Seq<u8>, chunks: Seq<Seq<u8>>)
    requires
        payload.len() <= MAX_SIZE,
        chunks.flatten() == frame(payload),
    ensures
        first_payload(Seq::empty(), chunks) == Some(payload),
{
    assert(Seq::<u8>::empty() + chunks.flatten() =~= frame(payload));
    lemma_fragments_from(payload, Seq::empty(), chunks);
}

proof fn lemma_fragments_from(payload: Seq<u8>, stream: Seq<u8>, chunks: Seq<Seq<u8>>)
    requires
        payload.len() <= MAX_SIZE,
        stream.len() < frame(payload).len(),
        stream + chunks.flatten() == frame(payload),
    ensures
        first_payload(stream, chunks) == Some(payload),
    decreases chunks.len(),
{
    let f = frame(payload);
    if chunks.len() == 0 {
        assert(stream + chunks.flatten() =~= stream);
    } else {
        let s = stream + chunks[0];
        let later = chunks.drop_first().flatten();
        assert(chunks.flatten() == chunks[0] + later);
        assert(f =~= s + later);
        if s.len() == f.len() {
            assert(later.len() == 0);
            assert(s =~= f + Seq::<u8>::empty());
            lemma_round_trip(payload, Seq::empty());
        } else {
            assert(s =~= f.subrange(0, s.len() as int));
            lemma_prefix_incomplete(payload, s.len() as int);
            lemma_fragments_from(payload, s, chunks.drop_first());
        }
    }
}

/// The size field read back from the first four bytes of `s` spells them out.
proof fn lemma_be32_split(s: Seq<u8>)
    requires
        s.len() >= SIZE,
    ensures
        be32_value(s) <= SIZE_LIMIT,
        be32_bytes(be32_value(s)) =~= s.subrange(0, SIZE as int),
{
    let (a, b, c, d) = (s[0] as nat, s[1] as nat, s[2] as nat, s[3] as nat);
    let n = be32_value(s);
    assert(n / 0x100_0000 == a && (n / 0x1_0000) % 0x100 == b && (n / 0x100) % 0x100 == c && n
        % 0x100 == d && n <= 0xffff_ffff) by (nonlinear_arith)
        requires
            n == a * 0x100_0000 + b * 0x1_0000 + c * 0x100 + d,
            a < 0x100,
            b < 0x100,
            c < 0x100,
            d < 0x100,
    ;
}

} // verus!
