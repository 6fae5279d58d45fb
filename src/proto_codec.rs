//! The binary wire format of responses: a protocol-buffers message whose
//! field 1 is the status enumeration (`0` success, `1` failure) and whose
//! optional field 2 is a text message.
use crate::client::DataTransformer;
use crate::error::CodecError;
use crate::framing::slice_range;
use crate::json_codec::message_view;
use crate::movement::{MovementApiResponse, StatusCode};
use vstd::prelude::*;
use vstd::utf8::{decode_utf8, valid_utf8};

verus! {

/// `128` raised to `n`.
pub open spec fn pow128(n: nat) -> nat
    decreases n,
{
    if n == 0 {
        1
    } else {
        128 * pow128((n - 1) as nat)
    }
}

/// A base-128 varint at `b[i..]` read as its `k`-th byte onwards: seven
/// value bits per byte, least significant first, the high bit set on every
/// byte but the last; at most ten bytes. Gives the value and where it ends.
pub open spec fn varint_from(b: Seq<u8>, i: int, k: nat) -> Option<(nat, int)>
    decreases 10 - k,
{
    if k >= 10 || i < 0 || i >= b.len() {
        None
    } else if b[i] < 128 {
        Some((b[i] as nat, i + 1))
    } else {
        match varint_from(b, i + 1, k + 1) {
            None => None,
            Some((v, j)) => Some(((b[i] - 128) as nat + 128 * v, j)),
        }
    }
}

/// A varint at `b[i..]` whose value fits in 64 bits.
pub open spec fn varint_at(b: Seq<u8>, i: int) -> Option<(nat, int)> {
    match varint_from(b, i, 0) {
        Some((v, j)) => if v <= u64::MAX {
            Some((v, j))
        } else {
            None
        },
        None => None,
    }
}

pub open spec fn message_text(m: Seq<u8>) -> Option<Seq<char>> {
    if valid_utf8(m) {
        Some(decode_utf8(m))
    } else {
        None
    }
}

/// How many levels of nested groups a decoder enters before it gives up.
pub const RECURSION_LIMIT: u32 = 100;

/// A field key at `b[i..]`: a varint within 32 bits whose field number is not
/// zero and whose wire type is one of `0..=5`. Gives the field number, the
/// wire type and where the key ends.
pub open spec fn key_at(b: Seq<u8>, i: int) -> Option<(nat, nat, int)> {
    match varint_at(b, i) {
        Some((key, j)) => if key <= u32::MAX && key / 8 != 0 && key % 8 <= 5 {
            Some((key / 8, key % 8, j))
        } else {
            None
        },
        None => None,
    }
}

/// Where the value of a field that is not read ends, when it starts at
/// `b[i..]`: a varint, eight bytes, a length and that many bytes, a group up
/// to its matching end, or four bytes. `depth` is how many more levels may
/// be entered; at none left, or for a stray group end, there is no end.
pub open spec fn skip_value(b: Seq<u8>, i: int, wt: nat, tag: nat, depth: nat, fuel: nat) -> Option<int>
    decreases depth, 1nat, fuel,
{
    if depth == 0 {
        None
    } else if wt == 0 {
        match varint_at(b, i) {
            Some((_, j)) => Some(j),
            None => None,
        }
    } else if wt == 1 || wt == 5 {
        let n: int = if wt == 1 { 8 } else { 4 };
        if 0 <= i && i + n <= b.len() {
            Some(i + n)
        } else {
            None
        }
    } else if wt == 2 {
        match varint_at(b, i) {
            Some((n, j)) => if j + n <= b.len() {
                Some(j + n)
            } else {
                None
            },
            None => None,
        }
    } else if wt == 3 {
        skip_group(b, i, tag, depth, fuel)
    } else {
        None
    }
}

/// Where the group of field `tag` whose fields start at `b[i..]` ends: every
/// field up to the group end of the same field number is skipped one level
/// deeper. `fuel` bounds the number of fields.
pub open spec fn skip_group(b: Seq<u8>, i: int, tag: nat, depth: nat, fuel: nat) -> Option<int>
    decreases depth, 0nat, fuel,
{
    if fuel == 0 || depth == 0 {
        None
    } else {
        match key_at(b, i) {
            None => None,
            Some((field, wt, j)) => if wt == 4 {
                if field == tag {
                    Some(j)
                } else {
                    None
                }
            } else {
                match skip_value(b, j, wt, field, (depth - 1) as nat, b.len()) {
                    None => None,
                    Some(k) => skip_group(b, k, tag, depth, (fuel - 1) as nat),
                }
            },
        }
    }
}

/// Reads the fields of a response from `b[i..]`, given the status and
/// message read so far: field 1 is a varint status, field 2 a UTF-8 text;
/// a later occurrence replaces an earlier one. Any other field is skipped
/// by its wire type. A bad key, a known field with another wire type, a
/// value that runs past the end or a message that is no UTF-8 is malformed.
/// `fuel` bounds the number of fields; every field takes at least one byte.
pub open spec fn scan_fields(
    b: Seq<u8>,
    i: int,
    fuel: nat,
    status: nat,
    msg: Option<Seq<char>>,
) -> Result<(nat, Option<Seq<char>>), CodecError>
    decreases fuel,
{
    if i >= b.len() {
        Ok((status, msg))
    } else if fuel == 0 {
        Err(CodecError::Malformed)
    } else {
        match key_at(b, i) {
            None => Err(CodecError::Malformed),
            Some((field, wt, j)) => if field == 1 {
                if wt != 0 {
                    Err(CodecError::Malformed)
                } else {
                    match varint_at(b, j) {
                        None => Err(CodecError::Malformed),
                        Some((v, k)) => scan_fields(b, k, (fuel - 1) as nat, v, msg),
                    }
                }
            } else if field == 2 {
                if wt != 2 {
                    Err(CodecError::Malformed)
                } else {
                    match varint_at(b, j) {
                        None => Err(CodecError::Malformed),
                        Some((n, k)) => if k + n > b.len() {
                            Err(CodecError::Malformed)
                        } else {
                            match message_text(b.subrange(k, k + n)) {
                                None => Err(CodecError::Malformed),
                                Some(t) => scan_fields(b, k + n, (fuel - 1) as nat, status, Some(t)),
                            }
                        },
                    }
                }
            } else {
                match skip_value(b, j, wt, field, RECURSION_LIMIT as nat, b.len()) {
                    None => Err(CodecError::Malformed),
                    Some(k) => scan_fields(b, k, (fuel - 1) as nat, status, msg),
                }
            },
        }
    }
}

/// The status that a wire value stands for: the value is an `int32`, so
/// only its low 32 bits count; `0` and `1` are the only values defined.
pub open spec fn status_from_wire(v: nat) -> Result<StatusCode, CodecError> {
    let t = v % 0x1_0000_0000;
    if t == 0 {
        Ok(StatusCode::Success)
    } else if t == 1 {
        Ok(StatusCode::Error)
    } else {
        Err(CodecError::UnknownStatus)
    }
}

/// The response that the bytes `b` stand for. An absent status is `0`.
pub open spec fn binary_response(b: Seq<u8>) -> Result<(StatusCode, Option<Seq<char>>), CodecError> {
    match scan_fields(b, 0, b.len(), 0, None) {
        Err(e) => Err(e),
        Ok((st, msg)) => match status_from_wire(st) {
            Err(e) => Err(e),
            Ok(s) => Ok((s, msg)),
        },
    }
}

/// A binary response whose status value is out of range is a codec error,
/// and a response is read only when its status is one the protocol defines.
pub proof fn lemma_binary_status_never_defaulted(b: Seq<u8>)
    ensures
        scan_fields(b, 0, b.len(), 0, None) matches Ok((st, _)) && st % 0x1_0000_0000 != 0 && st
            % 0x1_0000_0000 != 1 ==> binary_response(b) == Err::<
            (StatusCode, Option<Seq<char>>),
            CodecError,
        >(CodecError::UnknownStatus),
        binary_response(b) is Ok ==> (scan_fields(b, 0, b.len(), 0, None) matches Ok((st, _))
            && (st % 0x1_0000_0000 == 0 || st % 0x1_0000_0000 == 1)),
{
}

proof fn lemma_pow128_at_least(n: nat)
    requires
        n >= 1,
    ensures
        pow128(n) >= 128,
    decreases n,
{
    if n > 1 {
        lemma_pow128_at_least((n - 1) as nat);
    } else {
        assert(pow128(1) == 128 * pow128(0));
    }
}

fn read_varint_from(b: &[u8], i: usize, k: u32) -> (r: Option<(u128, usize)>)
    requires
        k <= 10,
    ensures
        match varint_from(b@, i as int, k as nat) {
            None => r is None,
            Some((v, j)) => r == Some((v as u128, j as usize)) && i < j <= b@.len() && v < pow128(
                (10 - k) as nat,
            ),
        },
    decreases 10 - k,
{
    if k >= 10 || i >= b.len() {
        return None;
    }
    let byte = b[i];
    proof {
        lemma_pow128_at_least((10 - k) as nat);
    }
    if byte < 128 {
        return Some((byte as u128, i + 1));
    }
    match read_varint_from(b, i + 1, k + 1) {
        None => None,
        Some((v, j)) => {
            proof {
                assert(pow128((10 - k) as nat) == 128 * pow128((10 - (k + 1)) as nat));
                let lo: int = byte - 128;
                let p: int = pow128((10 - (k + 1)) as nat) as int;
                let vv: int = v as int;
                assert(lo + 128 * vv < 128 * p) by (nonlinear_arith)
                    requires
                        0 <= lo < 128,
                        0 <= vv < p,
                ;
                reveal_with_fuel(pow128, 11);
                assert(pow128(10) < 0x1_0000_0000_0000_0000_0000_0000_0000_0000);
                lemma_pow128_monotone((10 - k) as nat, 10);
            }
            Some(((byte - 128) as u128 + 128 * v, j))
        },
    }
}

proof fn lemma_pow128_monotone(a: nat, b: nat)
    requires
        a <= b,
    ensures
        pow128(a) <= pow128(b),
    decreases b,
{
    if a < b {
        lemma_pow128_monotone(a, (b - 1) as nat);
        assert(pow128(b) == 128 * pow128((b - 1) as nat));
    }
}

/// Reads the varint at `b[i..]`.
pub fn read_varint(b: &[u8], i: usize) -> (r: Option<(u64, usize)>)
    ensures
        match varint_at(b@, i as int) {
            None => r is None,
            Some((v, j)) => r == Some((v as u64, j as usize)) && i < j <= b@.len(),
        },
{
    let r = read_varint_from(b, i, 0);
    proof {
        vstd::slice::axiom_spec_len(b);
        reveal_with_fuel(pow128, 11);
        assert(pow128(10) == 0x40_0000_0000_0000_0000);
    }
    match r {
        None => None,
        Some((v, j)) => {
            if v > u64::MAX as u128 {
                None
            } else {
                Some((v as u64, j))
            }
        },
    }
}

/// Reads the field key at `b[i..]`.
pub fn read_key(b: &[u8], i: usize) -> (r: Option<(u64, u64, usize)>)
    ensures
        match key_at(b@, i as int) {
            None => r is None,
            Some((f, w, j)) => r == Some((f as u64, w as u64, j as usize)) && i < j <= b@.len(),
        },
{
    match read_varint(b, i) {
        None => None,
        Some((key, j)) => {
            if key > u32::MAX as u64 || key / 8 == 0 || key % 8 > 5 {
                None
            } else {
                Some((key / 8, key % 8, j))
            }
        },
    }
}

/// Skips the value of a field that is not read; see `skip_value`.
pub fn skip_field(b: &[u8], i: usize, wt: u64, tag: u64, depth: u32) -> (r: Option<usize>)
    ensures
        match skip_value(b@, i as int, wt as nat, tag as nat, depth as nat, b@.len()) {
            None => r is None,
            Some(k) => r == Some(k as usize) && i <= k <= b@.len(),
        },
    decreases depth, 1nat, 0nat,
{
    let n = b.len();
    if depth == 0 {
        None
    } else if wt == 0 {
        match read_varint(b, i) {
            Some((_, j)) => Some(j),
            None => None,
        }
    } else if wt == 1 || wt == 5 {
        let w: usize = if wt == 1 { 8 } else { 4 };
        if i <= n && w <= n - i {
            Some(i + w)
        } else {
            None
        }
    } else if wt == 2 {
        match read_varint(b, i) {
            Some((len, j)) => {
                if len <= (n - j) as u64 {
                    Some(j + len as usize)
                } else {
                    None
                }
            },
            None => None,
        }
    } else if wt == 3 {
        skip_group_from(b, i, tag, depth)
    } else {
        None
    }
}

/// Skips the fields of a group up to its end; see `skip_group`.
fn skip_group_from(b: &[u8], start: usize, tag: u64, depth: u32) -> (r: Option<usize>)
    requires
        depth >= 1,
    ensures
        match skip_group(b@, start as int, tag as nat, depth as nat, b@.len()) {
            None => r is None,
            Some(k) => r == Some(k as usize) && start <= k <= b@.len(),
        },
    decreases depth, 0nat, 0nat,
{
    let n = b.len();
    let mut i: usize = start;
    let ghost mut fuel: nat = b@.len();
    if start > n {
        assert(key_at(b@, start as int) is None);
        return None;
    }
    while i < n
        invariant
            start <= i <= n == b@.len(),
            depth >= 1,
            fuel >= n - i,
            skip_group(b@, start as int, tag as nat, depth as nat, b@.len()) == skip_group(
                b@,
                i as int,
                tag as nat,
                depth as nat,
                fuel,
            ),
        decreases n - i,
    {
        let (field, wt, j) = match read_key(b, i) {
            None => return None,
            Some(fwj) => fwj,
        };
        if wt == 4 {
            if field == tag {
                return Some(j);
            } else {
                return None;
            }
        }
        match skip_field(b, j, wt, field, depth - 1) {
            None => return None,
            Some(k) => {
                i = k;
            },
        }
        proof {
            fuel = (fuel - 1) as nat;
        }
    }
    assert(key_at(b@, i as int) is None);
    None
}

/// Relies on `String::from_utf8`: it succeeds exactly on valid UTF-8 and
/// then holds the characters that the bytes encode.
#[verifier::external_body]
fn utf8_string(b: Vec<u8>) -> (r: Option<String>)
    ensures
        r is Some <==> valid_utf8(b@),
        r matches Some(s) ==> s@ == decode_utf8(b@),
{
    String::from_utf8(b).ok()
}

/// Reads controller responses written in the binary format.
#[derive(Clone, Copy, Debug, Default)]
pub struct ProtoResponseParser;

impl ProtoResponseParser {
    /// Reads one response. Malformed bytes are a codec error, and so is a
    /// status value that the protocol does not define: no status is ever
    /// guessed.
    pub fn parse_response(&self, data: &[u8]) -> (r: Result<MovementApiResponse, CodecError>)
        ensures
            match binary_response(data@) {
                Ok((s, m)) => r matches Ok(resp) && resp.status == s && message_view(resp.message) == m,
                Err(e) => r matches Err(e2) && e2 == e,
            },
    {
        let mut i: usize = 0;
        let mut status: u64 = 0;
        let mut msg: Option<String> = None;
        let ghost mut fuel: nat = data@.len();
        while i < data.len()
            invariant
                i <= data@.len(),
                fuel >= data@.len() - i,
                scan_fields(data@, 0, data@.len(), 0, None) == scan_fields(
                    data@,
                    i as int,
                    fuel,
                    status as nat,
                    message_view(msg),
                ),
            decreases data@.len() - i,
        {
            let (field, wt, j) = match read_key(data, i) {
                None => return Err(CodecError::Malformed),
                Some(fwj) => fwj,
            };
            if field == 1 {
                if wt != 0 {
                    return Err(CodecError::Malformed);
                }
                let (v, k) = match read_varint(data, j) {
                    None => return Err(CodecError::Malformed),
                    Some(vk) => vk,
                };
                status = v;
                i = k;
            } else if field == 2 {
                if wt != 2 {
                    return Err(CodecError::Malformed);
                }
                let (n, k) = match read_varint(data, j) {
                    None => return Err(CodecError::Malformed),
                    Some(nk) => nk,
                };
                if n > (data.len() - k) as u64 {
                    return Err(CodecError::Malformed);
                }
                let end = k + n as usize;
                let bytes = slice_range(data, k, end);
                match utf8_string(bytes) {
                    None => return Err(CodecError::Malformed),
                    Some(t) => {
                        msg = Some(t);
                    },
                }
                i = end;
            } else {
                match skip_field(data, j, wt, field, RECURSION_LIMIT) {
                    None => return Err(CodecError::Malformed),
                    Some(k) => {
                        i = k;
                    },
                }
            }
            proof {
                fuel = (fuel - 1) as nat;
            }
        }
        let low = status % 0x1_0000_0000;
        let s = if low == 0 {
            StatusCode::Success
        } else if low == 1 {
            StatusCode::Error
        } else {
            return Err(CodecError::UnknownStatus);
        };
        Ok(MovementApiResponse { status: s, message: msg })
    }
}

impl DataTransformer<Vec<u8>, MovementApiResponse, CodecError> for ProtoResponseParser {
    open spec fn failure_of(&self, input: Vec<u8>) -> Option<CodecError> {
        match binary_response(input@) {
            Err(e) => Some(e),
            Ok(_) => None,
        }
    }

    open spec fn gives(&self, input: Vec<u8>, output: MovementApiResponse) -> bool {
        binary_response(input@) matches Ok((s, m)) && output.status == s && message_view(
            output.message,
        ) == m
    }

    fn transform(&self, input: &Vec<u8>) -> (r: Result<MovementApiResponse, CodecError>) {
        self.parse_response(input.as_slice())
    }
}

} // verus!
