//! Fixed-width, little-endian encoding of a frame's payload length.
use crate::error::TransportError;
use vstd::prelude::*;

verus! {

/// The number that a little-endian byte sequence stands for.
pub open spec fn le_value(bytes: Seq<u8>) -> nat
    decreases bytes.len(),
{
    if bytes.len() == 0 {
        0
    } else {
        bytes[0] as nat + 256 * le_value(bytes.drop_first())
    }
}

/// The `width` little-endian bytes of `value`, high bytes dropped.
pub open spec fn le_bytes(value: nat, width: nat) -> Seq<u8>
    decreases width,
{
    if width == 0 {
        Seq::empty()
    } else {
        seq![(value % 256) as u8] + le_bytes(value / 256, (width - 1) as nat)
    }
}

/// `256` raised to `width`: the number of lengths that `width` bytes can hold.
pub open spec fn byte_capacity(width: nat) -> nat
    decreases width,
{
    if width == 0 {
        1
    } else {
        256 * byte_capacity((width - 1) as nat)
    }
}

pub proof fn lemma_le_bytes_len(value: nat, width: nat)
    ensures
        le_bytes(value, width).len() == width,
    decreases width,
{
    if width > 0 {
        lemma_le_bytes_len(value / 256, (width - 1) as nat);
    }
}

/// Encoding a length that fits and decoding it again gives the length back.
pub proof fn lemma_length_round_trip(value: nat, width: nat)
    requires
        value < byte_capacity(width),
    ensures
        le_value(le_bytes(value, width)) == value,
        le_bytes(value, width).len() == width,
    decreases width,
{
    lemma_le_bytes_len(value, width);
    if width > 0 {
        let w1 = (width - 1) as nat;
        assert(value / 256 < byte_capacity(w1)) by (nonlinear_arith)
            requires
                value < 256 * byte_capacity(w1),
        ;
        lemma_length_round_trip(value / 256, w1);
        assert(le_bytes(value, width).drop_first() =~= le_bytes(value / 256, w1));
    }
}

/// For a size field of 1, 2, 4 or 8 bytes, every length in range comes
/// back unchanged from its encoding; with 8 bytes every `usize` is in range.
pub proof fn lemma_size_field_round_trip(len: usize, width: nat)
    requires
        width == 1 || width == 2 || width == 4 || width == 8,
        width == 8 || (len as nat) < byte_capacity(width),
    ensures
        (len as nat) < byte_capacity(width),
        le_bytes(len as nat, width).len() == width,
        le_value(le_bytes(len as nat, width)) == len,
{
    if width == 8 {
        lemma_byte_capacity_at_least_eight(width);
    }
    lemma_length_round_trip(len as nat, width);
}

proof fn lemma_byte_capacity_pos(width: nat)
    ensures
        byte_capacity(width) > 0,
    decreases width,
{
    if width > 0 {
        lemma_byte_capacity_pos((width - 1) as nat);
    }
}

/// A value below `2^64` fits in eight bytes or more.
proof fn lemma_byte_capacity_at_least_eight(width: nat)
    requires
        width >= 8,
    ensures
        byte_capacity(width) >= 0x1_0000_0000_0000_0000,
    decreases width,
{
    if width > 8 {
        lemma_byte_capacity_at_least_eight((width - 1) as nat);
    } else {
        reveal_with_fuel(byte_capacity, 9);
    }
}

/// Dropping a first byte of a suffix's predecessor: the value of
/// `bytes[i - 1..]` is that byte plus 256 times the value of `bytes[i..]`.
proof fn lemma_le_value_step_back(bytes: Seq<u8>, i: int)
    requires
        0 < i <= bytes.len(),
    ensures
        le_value(bytes.subrange(i - 1, bytes.len() as int)) == bytes[i - 1] as nat + 256 * le_value(
            bytes.subrange(i, bytes.len() as int),
        ),
{
    let s = bytes.subrange(i - 1, bytes.len() as int);
    assert(s.drop_first() =~= bytes.subrange(i, bytes.len() as int));
}

/// A whole sequence is worth at least as much as any of its suffixes.
proof fn lemma_le_value_suffix(bytes: Seq<u8>, i: int)
    requires
        0 <= i <= bytes.len(),
    ensures
        le_value(bytes) >= le_value(bytes.subrange(i, bytes.len() as int)),
    decreases i,
{
    if i > 0 {
        lemma_le_value_suffix(bytes, i - 1);
        lemma_le_value_step_back(bytes, i);
    } else {
        assert(bytes.subrange(0, bytes.len() as int) =~= bytes);
    }
}

/// Writes `size` as `width` little-endian bytes; fails when it does not fit.
pub fn encode_length(size: usize, width: usize) -> (r: Result<Vec<u8>, TransportError>)
    ensures
        (size as nat) < byte_capacity(width as nat) ==> r == Ok::<Vec<u8>, TransportError>(
            r->Ok_0,
        ) && r->Ok_0@ == le_bytes(size as nat, width as nat),
        (size as nat) >= byte_capacity(width as nat) ==> r == Err::<Vec<u8>, TransportError>(
            TransportError::LengthOverflow,
        ),
{
    let mut out: Vec<u8> = Vec::new();
    let mut rest: usize = size;
    let mut i: usize = 0;
    proof {
        lemma_byte_capacity_pos(0);
    }
    while i < width
        invariant
            i <= width,
            out@ + le_bytes(rest as nat, (width - i) as nat) =~= le_bytes(size as nat, width as nat),
            rest as nat == size as nat / byte_capacity(i as nat),
        decreases width - i,
    {
        proof {
            lemma_byte_capacity_pos(i as nat);
            vstd::arithmetic::div_mod::lemma_div_denominator(
                size as int,
                byte_capacity(i as nat) as int,
                256,
            );
            assert(byte_capacity((i + 1) as nat) == byte_capacity(i as nat) * 256);
        }
        out.push((rest % 256) as u8);
        rest = rest / 256;
        i = i + 1;
    }
    proof {
        lemma_byte_capacity_pos(width as nat);
        if (size as nat) < byte_capacity(width as nat) {
            vstd::arithmetic::div_mod::lemma_basic_div(size as int, byte_capacity(width as nat) as int);
        } else {
            vstd::arithmetic::div_mod::lemma_div_non_zero(size as int, byte_capacity(width as nat) as int);
        }
    }
    if rest != 0 {
        return Err(TransportError::LengthOverflow);
    }
    assert(out@ =~= le_bytes(size as nat, width as nat));
    Ok(out)
}

/// Reads a little-endian length; `None` when it exceeds `usize::MAX`.
pub fn decode_length(raw: &[u8]) -> (r: Option<usize>)
    ensures
        le_value(raw@) <= usize::MAX ==> r == Some(le_value(raw@) as usize),
        le_value(raw@) > usize::MAX ==> r is None,
{
    let mut i: usize = raw.len();
    let mut acc: usize = 0;
    assert(raw@.subrange(raw@.len() as int, raw@.len() as int) =~= Seq::<u8>::empty());
    while i > 0
        invariant
            i <= raw@.len(),
            acc as nat == le_value(raw@.subrange(i as int, raw@.len() as int)),
        decreases i,
    {
        proof {
            lemma_le_value_step_back(raw@, i as int);
        }
        let b: u8 = raw[i - 1];
        let next: u128 = (b as u128) + 256 * (acc as u128);
        if next > usize::MAX as u128 {
            proof {
                lemma_le_value_suffix(raw@, i - 1);
            }
            return None;
        }
        acc = next as usize;
        i = i - 1;
    }
    assert(raw@.subrange(0, raw@.len() as int) =~= raw@);
    Some(acc)
}

/// Turns a payload length into the bytes of a frame's size field.
pub trait SizeEncoder {
    fn encode(&self, size: usize) -> Result<Vec<u8>, TransportError>;
}

/// Reads a payload length back from the bytes of a frame's size field.
pub trait SizeDecoder {
    /// How many bytes the size field takes.
    fn raw_data_size(&self) -> usize;

    fn decode(&self, raw_data: &[u8]) -> Result<usize, TransportError>;
}

/// Little-endian size field of a fixed width, zero-padded.
#[derive(Clone, Debug)]
pub struct DefaultSizeEncoder {
    pub encoded_length: usize,
}

impl DefaultSizeEncoder {
    pub fn new(encoded_length: usize) -> (r: Self)
        ensures
            r.encoded_length == encoded_length,
    {
        DefaultSizeEncoder { encoded_length }
    }
}

impl SizeEncoder for DefaultSizeEncoder {
    fn encode(&self, size: usize) -> (r: Result<Vec<u8>, TransportError>)
        ensures
            (size as nat) < byte_capacity(self.encoded_length as nat) ==> r is Ok && r->Ok_0@
                == le_bytes(size as nat, self.encoded_length as nat),
            (size as nat) >= byte_capacity(self.encoded_length as nat) ==> r == Err::<
                Vec<u8>,
                TransportError,
            >(TransportError::LengthOverflow),
    {
        encode_length(size, self.encoded_length)
    }
}

/// Reads a little-endian size field of a fixed width.
#[derive(Clone, Debug)]
pub struct DefaultSizeDecoder {
    pub encoded_length: usize,
}

impl DefaultSizeDecoder {
    pub fn new(encoded_length: usize) -> (r: Self)
        ensures
            r.encoded_length == encoded_length,
    {
        DefaultSizeDecoder { encoded_length }
    }
}

impl SizeDecoder for DefaultSizeDecoder {
    fn raw_data_size(&self) -> (r: usize)
        ensures
            r == self.encoded_length,
    {
        self.encoded_length
    }

    fn decode(&self, raw_data: &[u8]) -> (r: Result<usize, TransportError>)
        ensures
            raw_data@.len() != self.encoded_length ==> r == Err::<usize, TransportError>(
                TransportError::SizeFieldWidth,
            ),
            raw_data@.len() == self.encoded_length && le_value(raw_data@) <= usize::MAX ==> r
                == Ok::<usize, TransportError>(le_value(raw_data@) as usize),
            raw_data@.len() == self.encoded_length && le_value(raw_data@) > usize::MAX ==> r
                == Err::<usize, TransportError>(TransportError::LengthOverflow),
    {
        if raw_data.len() != self.encoded_length {
            return Err(TransportError::SizeFieldWidth);
        }
        match decode_length(raw_data) {
            Some(v) => Ok(v),
            None => Err(TransportError::LengthOverflow),
        }
    }
}

} // verus!
