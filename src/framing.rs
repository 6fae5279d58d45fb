//! Length-prefixed frames on a byte stream:
//! `[preamble][payload length, little-endian, fixed width][payload]`.
use crate::error::TransportError;
use crate::size_encoding::{
    byte_capacity,
    decode_length,
    encode_length,
    le_bytes,
    le_value,
    lemma_length_round_trip,
};
use vstd::prelude::*;

verus! {

/// The bytes that carry `payload` in one frame.
pub open spec fn frame_bytes(preamble: Seq<u8>, width: nat, payload: Seq<u8>) -> Seq<u8> {
    preamble + le_bytes(payload.len(), width) + payload
}

/// What reading one frame yields when `avail` is every byte that arrives on
/// the stream before the timeout.
pub open spec fn frame_read(preamble: Seq<u8>, width: nat, avail: Seq<u8>) -> Result<
    Seq<u8>,
    TransportError,
> {
    let header = preamble.len() + width;
    if avail.len() < header {
        Err(TransportError::Truncated)
    } else if avail.subrange(0, preamble.len() as int) != preamble {
        Err(TransportError::BadPreamble)
    } else {
        let n = le_value(avail.subrange(preamble.len() as int, header as int));
        if n > usize::MAX {
            Err(TransportError::LengthOverflow)
        } else if avail.len() < header + n {
            Err(TransportError::Truncated)
        } else {
            Ok(avail.subrange(header as int, (header + n) as int))
        }
    }
}

/// The fixed layout of the frames on one stream.
#[derive(Clone, Debug)]
pub struct FrameFormat {
    pub preamble: Vec<u8>,
    pub size_field_length: usize,
}

impl FrameFormat {
    pub open spec fn wf(&self) -> bool {
        self.preamble@.len() + self.size_field_length <= usize::MAX
    }

    pub open spec fn header_size(&self) -> nat {
        self.preamble@.len() + self.size_field_length as nat
    }

    pub fn new(preamble: &[u8], size_field_length: usize) -> (r: Self)
        requires
            preamble@.len() + size_field_length <= usize::MAX,
        ensures
            r.wf(),
            r.preamble@ == preamble@,
            r.size_field_length == size_field_length,
    {
        FrameFormat { preamble: slice_range(preamble, 0, preamble.len()), size_field_length }
    }

    /// How many bytes make up a frame's header.
    pub fn header_len(&self) -> (r: usize)
        requires
            self.wf(),
        ensures
            r == self.header_size(),
    {
        self.preamble.len() + self.size_field_length
    }

    /// The whole frame for `payload`; fails when its length does not fit the
    /// size field.
    pub fn encode_frame(&self, payload: &[u8]) -> (r: Result<Vec<u8>, TransportError>)
        ensures
            (payload@.len() as nat) < byte_capacity(self.size_field_length as nat) ==> r is Ok
                && r->Ok_0@ == frame_bytes(
                self.preamble@,
                self.size_field_length as nat,
                payload@,
            ),
            (payload@.len() as nat) >= byte_capacity(self.size_field_length as nat) ==> r == Err::<
                Vec<u8>,
                TransportError,
            >(TransportError::LengthOverflow),
    {
        let size = encode_length(payload.len(), self.size_field_length);
        match size {
            Err(e) => Err(e),
            Ok(size_bytes) => {
                let mut out: Vec<u8> = self.preamble.clone();
                let mut tail: Vec<u8> = size_bytes;
                out.append(&mut tail);
                let mut body: Vec<u8> = slice_range(payload, 0, payload.len());
                out.append(&mut body);
                Ok(out)
            },
        }
    }

    /// Checks a header and gives the payload length it declares.
    pub fn parse_header(&self, header: &[u8]) -> (r: Result<usize, TransportError>)
        requires
            self.wf(),
        ensures
            header@.len() < self.header_size() ==> r == Err::<usize, TransportError>(
                TransportError::Truncated,
            ),
            header@.len() >= self.header_size() && header@.subrange(0, self.preamble@.len() as int)
                != self.preamble@ ==> r == Err::<usize, TransportError>(
                TransportError::BadPreamble,
            ),
            header@.len() >= self.header_size() && header@.subrange(0, self.preamble@.len() as int)
                == self.preamble@ ==> ({
                let n = le_value(
                    header@.subrange(self.preamble@.len() as int, self.header_size() as int),
                );
                &&& n <= usize::MAX ==> r == Ok::<usize, TransportError>(n as usize)
                &&& n > usize::MAX ==> r == Err::<usize, TransportError>(
                    TransportError::LengthOverflow,
                )
            }),
    {
        let p = self.preamble.len();
        let h = self.header_len();
        if header.len() < h {
            return Err(TransportError::Truncated);
        }
        let mut i: usize = 0;
        while i < p
            invariant
                p == self.preamble@.len(),
                p <= h <= header@.len(),
                h == self.header_size(),
                i <= p,
                forall|j: int| 0 <= j < i ==> header@[j] == self.preamble@[j],
            decreases p - i,
        {
            if header[i] != self.preamble[i] {
                assert(header@.subrange(0, p as int)[i as int] != self.preamble@[i as int]);
                return Err(TransportError::BadPreamble);
            }
            i = i + 1;
        }
        assert(header@.subrange(0, p as int) =~= self.preamble@);
        let size_field = slice_range(header, p, h);
        match decode_length(&size_field) {
            Some(n) => Ok(n),
            None => Err(TransportError::LengthOverflow),
        }
    }

    /// Reads one frame out of `avail`, every byte that arrived before the
    /// timeout. A payload is handed out only when all of it arrived.
    pub fn read_frame_from(&self, avail: &[u8]) -> (r: Result<Vec<u8>, TransportError>)
        requires
            self.wf(),
        ensures
            match frame_read(self.preamble@, self.size_field_length as nat, avail@) {
                Ok(p) => r is Ok && r->Ok_0@ == p,
                Err(e) => r == Err::<Vec<u8>, TransportError>(e),
            },
    {
        let n = self.parse_header(avail);
        match n {
            Err(e) => Err(e),
            Ok(n) => {
                let h = self.header_len();
                if avail.len() - h < n {
                    return Err(TransportError::Truncated);
                }
                let payload = slice_range(avail, h, h + n);
                Ok(payload)
            },
        }
    }
}

/// A copy of `s[from..to]`.
pub fn slice_range(s: &[u8], from: usize, to: usize) -> (r: Vec<u8>)
    requires
        from <= to <= s@.len(),
    ensures
        r@ == s@.subrange(from as int, to as int),
{
    let mut out: Vec<u8> = Vec::new();
    let mut i: usize = from;
    while i < to
        invariant
            from <= i <= to <= s@.len(),
            out@ == s@.subrange(from as int, i as int),
        decreases to - i,
    {
        out.push(s[i]);
        i = i + 1;
        assert(out@ =~= s@.subrange(from as int, i as int));
    }
    out
}

/// A frame read back from exactly the bytes that were written for it gives
/// the payload back.
pub proof fn lemma_frame_round_trip(preamble: Seq<u8>, width: nat, payload: Seq<u8>)
    requires
        payload.len() < byte_capacity(width),
        payload.len() <= usize::MAX,
    ensures
        frame_read(preamble, width, frame_bytes(preamble, width, payload)) == Ok::<
            Seq<u8>,
            TransportError,
        >(payload),
{
    lemma_length_round_trip(payload.len(), width);
    let f = frame_bytes(preamble, width, payload);
    let h = preamble.len() + width;
    assert(f.subrange(0, preamble.len() as int) =~= preamble);
    assert(f.subrange(preamble.len() as int, h as int) =~= le_bytes(payload.len(), width));
    assert(f.subrange(h as int, h + payload.len() as int) =~= payload);
}

/// When the declared payload length is more than what arrived after a good
/// header, the read fails as truncated and yields no payload.
pub proof fn lemma_short_payload_truncated(preamble: Seq<u8>, width: nat, avail: Seq<u8>)
    requires
        avail.len() >= preamble.len() + width,
        avail.subrange(0, preamble.len() as int) == preamble,
        le_value(avail.subrange(preamble.len() as int, (preamble.len() + width) as int)) <= usize::MAX,
        avail.len() < preamble.len() + width + le_value(
            avail.subrange(preamble.len() as int, (preamble.len() + width) as int),
        ),
    ensures
        frame_read(preamble, width, avail) == Err::<Seq<u8>, TransportError>(
            TransportError::Truncated,
        ),
{
}

} // verus!
