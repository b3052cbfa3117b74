//! Reading values in the wire format.
use vstd::prelude::*;
use vstd::slice::{slice_subrange, slice_to_vec};
use vstd::string::StringSliceAdditionalSpecFns;
use vstd::utf8::{encode_utf8_decode_utf8, valid_utf8};
use crate::value::{
    entries_view, items_view, lemma_entries_view_push, lemma_items_view_push, Data, Value,
};
use crate::wire::{
    decoding, parse, parse_dict, parse_entries, parse_items, parse_list, parse_other, parse_sint,
    parse_str, parse_uint, starts_other, uint_at, DecodeError, MAX_DEPTH,
};

verus! {

/// An outcome of reading says what the format says: the same fault, or a
/// value with the same model and the same end.
pub open spec fn agrees(
    r: Result<(Value, usize), DecodeError>,
    p: Result<(Data, int), DecodeError>,
) -> bool {
    match p {
        Ok((d, end)) => r is Ok && r->Ok_0.0@ == d && r->Ok_0.1 == end,
        Err(e) => r == Err::<(Value, usize), DecodeError>(e),
    }
}

/// `core::str::from_utf8`: the bytes as text exactly when they are valid
/// UTF-8, and then the text's bytes are the bytes given.
#[verifier::external_body]
fn utf8_text<'a>(bytes: &'a [u8]) -> (r: Option<&'a str>)
    ensures
        r is Some <==> valid_utf8(bytes@),
        r is Some ==> r->0.spec_bytes() == bytes@,
{
    core::str::from_utf8(bytes).ok()
}

/// The number that `width` bytes at `at` hold.
fn read_uint(bytes: &[u8], at: usize, width: usize) -> (r: u64)
    requires
        width == 1 || width == 2 || width == 4 || width == 8,
        at + width <= bytes.len(),
    ensures
        r == uint_at(bytes@, at as int, width as int),
{
    if width == 1 {
        bytes[at] as u64
    } else if width == 2 {
        bytes[at] as u64 * 256 + bytes[at + 1] as u64
    } else if width == 4 {
        let hi: u64 = bytes[at] as u64 * 256 + bytes[at + 1] as u64;
        let lo: u64 = bytes[at + 2] as u64 * 256 + bytes[at + 3] as u64;
        hi * 65536 + lo
    } else {
        let a: u64 = bytes[at] as u64 * 256 + bytes[at + 1] as u64;
        let b: u64 = bytes[at + 2] as u64 * 256 + bytes[at + 3] as u64;
        let c: u64 = bytes[at + 4] as u64 * 256 + bytes[at + 5] as u64;
        let d: u64 = bytes[at + 6] as u64 * 256 + bytes[at + 7] as u64;
        (a * 65536 + b) * 4294967296 + (c * 65536 + d)
    }
}

/// A copy of the bytes from `from` up to `to`, as a value of another kind.
fn carry(bytes: &[u8], from: usize, to: usize) -> (r: Value)
    requires
        from <= to <= bytes.len(),
    ensures
        r@ == Data::Other(bytes@.subrange(from as int, to as int)),
{
    Value::Other(slice_to_vec(slice_subrange(bytes, from, to)))
}

/// An unsigned integer of `width` bytes at `at`, behind its marker.
fn read_unsigned(bytes: &[u8], at: usize, width: usize) -> (r: Result<(Value, usize), DecodeError>)
    requires
        width == 1 || width == 2 || width == 4 || width == 8,
        1 <= at <= bytes.len(),
    ensures
        agrees(r, parse_uint(bytes@, at as int, width as int)),
        r is Ok ==> r->Ok_0.1 <= bytes.len(),
{
    if bytes.len() - at < width {
        return Err(DecodeError::Truncated);
    }
    let u = read_uint(bytes, at, width);
    if u > 9223372036854775807u64 {
        Ok((carry(bytes, at - 1, at + width), at + width))
    } else {
        Ok((Value::Int(u as i64), at + width))
    }
}

/// A value of another kind whose marker stands at `at`.
fn read_other(bytes: &[u8], at: usize) -> (r: Result<(Value, usize), DecodeError>)
    requires
        at < bytes.len(),
        starts_other(bytes@[at as int]),
    ensures
        agrees(r, parse_other(bytes@, at as int)),
        r is Ok ==> r->Ok_0.1 <= bytes.len(),
{
    let m = bytes[at];
    let head: usize = if m == 0xc4 {
        2
    } else if m == 0xc5 {
        3
    } else if m == 0xc6 {
        5
    } else if m == 0xc7 {
        3
    } else if m == 0xc8 {
        4
    } else if m == 0xc9 {
        6
    } else if m == 0xca {
        5
    } else if m == 0xcb {
        9
    } else if m == 0xd4 {
        3
    } else if m == 0xd5 {
        4
    } else if m == 0xd6 {
        6
    } else if m == 0xd7 {
        10
    } else {
        18
    };
    let width: usize = if m == 0xc4 || m == 0xc7 {
        1
    } else if m == 0xc5 || m == 0xc8 {
        2
    } else if m == 0xc6 || m == 0xc9 {
        4
    } else {
        0
    };
    if bytes.len() - at < head {
        return Err(DecodeError::Truncated);
    }
    let data: u64 = if width == 0 {
        0
    } else {
        read_uint(bytes, at + 1, width)
    };
    if ((bytes.len() - at - head) as u64) < data {
        return Err(DecodeError::Truncated);
    }
    let end: usize = at + head + data as usize;
    Ok((carry(bytes, at, end), end))
}

/// A signed integer of `width` bytes at `at`.
fn read_signed(bytes: &[u8], at: usize, width: usize) -> (r: Result<(Value, usize), DecodeError>)
    requires
        width == 1 || width == 2 || width == 4 || width == 8,
        at <= bytes.len(),
    ensures
        agrees(r, parse_sint(bytes@, at as int, width as int)),
        r is Ok ==> r->Ok_0.1 <= bytes.len(),
{
    if bytes.len() - at < width {
        return Err(DecodeError::Truncated);
    }
    let u = read_uint(bytes, at, width);
    let bound: u64 = if width == 1 {
        128
    } else if width == 2 {
        32768
    } else if width == 4 {
        2147483648
    } else {
        9223372036854775808
    };
    if u >= bound {
        let wide: i128 = u as i128 - 2 * (bound as i128);
        Ok((Value::Int(wide as i64), at + width))
    } else {
        Ok((Value::Int(u as i64), at + width))
    }
}

/// The `n` bytes of a string at `at`.
fn read_str(bytes: &[u8], at: usize, n: u64) -> (r: Result<(Value, usize), DecodeError>)
    requires
        at <= bytes.len(),
    ensures
        agrees(r, parse_str(bytes@, at as int, n as int)),
        r is Ok ==> r->Ok_0.1 <= bytes.len(),
{
    if ((bytes.len() - at) as u64) < n {
        return Err(DecodeError::Truncated);
    }
    let end: usize = at + n as usize;
    let body = slice_subrange(bytes, at, end);
    match utf8_text(body) {
        None => Err(DecodeError::InvalidUtf8),
        Some(text) => {
            proof {
                encode_utf8_decode_utf8(text@);
            }
            Ok((Value::Str(text.to_owned()), end))
        },
    }
}

/// What reading a list gives once the items `done` have been read and
/// reading the rest gives `more`.
pub open spec fn after_items(
    done: Seq<Data>,
    more: Result<(Seq<Data>, int), DecodeError>,
) -> Result<(Seq<Data>, int), DecodeError> {
    match more {
        Ok((rest, end)) => Ok((done + rest, end)),
        Err(e) => Err(e),
    }
}

/// What reading a map gives once the entries `done` have been read and
/// reading the rest gives `more`.
pub open spec fn after_entries(
    done: Seq<(Data, Data)>,
    more: Result<(Seq<(Data, Data)>, int), DecodeError>,
) -> Result<(Seq<(Data, Data)>, int), DecodeError> {
    match more {
        Ok((rest, end)) => Ok((done + rest, end)),
        Err(e) => Err(e),
    }
}

/// `n` values one after another from `at`, as a list.
#[verifier::loop_isolation(false)]
fn read_list(bytes: &[u8], at: usize, n: u64, depth: usize) -> (r: Result<
    (Value, usize),
    DecodeError,
>)
    requires
        at <= bytes.len(),
    ensures
        agrees(r, parse_list(bytes@, at as int, n as nat, depth as nat)),
        r is Ok ==> r->Ok_0.1 <= bytes.len(),
    decreases depth, 1nat,
{
    if depth == 0 {
        return Err(DecodeError::TooDeep);
    }
    let ghost whole = parse_items(bytes@, at as int, n as nat, (depth - 1) as nat);
    let mut items: Vec<Value> = Vec::new();
    let mut pos: usize = at;
    let mut left: u64 = n;
    while left > 0
        invariant
            pos <= bytes.len(),
            whole == after_items(
                items_view(items@),
                parse_items(bytes@, pos as int, left as nat, (depth - 1) as nat),
            ),
        decreases left,
    {
        let ghost done = items_view(items@);
        match read_value(bytes, pos, depth - 1) {
            Err(e) => {
                return Err(e);
            },
            Ok((v, next)) => {
                proof {
                    lemma_items_view_push(items@, v);
                    let more = parse_items(
                        bytes@,
                        next as int,
                        (left - 1) as nat,
                        (depth - 1) as nat,
                    );
                    if more is Ok {
                        assert(done + (seq![v@] + more->Ok_0.0) =~= done.push(v@) + more->Ok_0.0);
                    }
                }
                items.push(v);
                pos = next;
                left = left - 1;
            },
        }
    }
    Ok((Value::List(items), pos))
}

/// `n` pairs of key and value one after another from `at`, as a map.
#[verifier::loop_isolation(false)]
fn read_dict(bytes: &[u8], at: usize, n: u64, depth: usize) -> (r: Result<
    (Value, usize),
    DecodeError,
>)
    requires
        at <= bytes.len(),
    ensures
        agrees(r, parse_dict(bytes@, at as int, n as nat, depth as nat)),
        r is Ok ==> r->Ok_0.1 <= bytes.len(),
    decreases depth, 1nat,
{
    if depth == 0 {
        return Err(DecodeError::TooDeep);
    }
    let ghost whole = parse_entries(bytes@, at as int, n as nat, (depth - 1) as nat);
    let mut entries: Vec<(Value, Value)> = Vec::new();
    let mut pos: usize = at;
    let mut left: u64 = n;
    while left > 0
        invariant
            pos <= bytes.len(),
            whole == after_entries(
                entries_view(entries@),
                parse_entries(bytes@, pos as int, left as nat, (depth - 1) as nat),
            ),
        decreases left,
    {
        let ghost done = entries_view(entries@);
        match read_value(bytes, pos, depth - 1) {
            Err(e) => {
                return Err(e);
            },
            Ok((k, mid)) => match read_value(bytes, mid, depth - 1) {
                Err(e) => {
                    return Err(e);
                },
                Ok((v, next)) => {
                    proof {
                        lemma_entries_view_push(entries@, k, v);
                        let more = parse_entries(
                            bytes@,
                            next as int,
                            (left - 1) as nat,
                            (depth - 1) as nat,
                        );
                        if more is Ok {
                            assert(done + (seq![(k@, v@)] + more->Ok_0.0) =~= done.push((k@, v@))
                                + more->Ok_0.0);
                        }
                    }
                    entries.push((k, v));
                    pos = next;
                    left = left - 1;
                },
            },
        }
    }
    Ok((Value::Dict(entries), pos))
}

/// The value that starts at `at`, and where it ends, when lists and maps
/// may nest `depth` deep below it.
pub fn read_value(bytes: &[u8], at: usize, depth: usize) -> (r: Result<(Value, usize), DecodeError>)
    ensures
        agrees(r, parse(bytes@, at as int, depth as nat)),
        r is Ok ==> r->Ok_0.1 <= bytes.len(),
    decreases depth, 2nat,
{
    if at >= bytes.len() {
        return Err(DecodeError::Truncated);
    }
    let m: u8 = bytes[at];
    let body: usize = at + 1;
    if m <= 0x7f {
        Ok((Value::Int(m as i64), body))
    } else if m <= 0x8f {
        read_dict(bytes, body, (m - 0x80) as u64, depth)
    } else if m <= 0x9f {
        read_list(bytes, body, (m - 0x90) as u64, depth)
    } else if m <= 0xbf {
        read_str(bytes, body, (m - 0xa0) as u64)
    } else if m == 0xc0 {
        Ok((Value::Nil, body))
    } else if m == 0xc2 {
        Ok((Value::Bool(false), body))
    } else if m == 0xc3 {
        Ok((Value::Bool(true), body))
    } else if m == 0xcc {
        read_unsigned(bytes, body, 1)
    } else if m == 0xcd {
        read_unsigned(bytes, body, 2)
    } else if m == 0xce {
        read_unsigned(bytes, body, 4)
    } else if m == 0xcf {
        read_unsigned(bytes, body, 8)
    } else if m == 0xd0 {
        read_signed(bytes, body, 1)
    } else if m == 0xd1 {
        read_signed(bytes, body, 2)
    } else if m == 0xd2 {
        read_signed(bytes, body, 4)
    } else if m == 0xd3 {
        read_signed(bytes, body, 8)
    } else if m == 0xd9 || m == 0xda || m == 0xdb {
        let width: usize = if m == 0xd9 { 1 } else if m == 0xda { 2 } else { 4 };
        if bytes.len() - body < width {
            Err(DecodeError::Truncated)
        } else {
            read_str(bytes, body + width, read_uint(bytes, body, width))
        }
    } else if m == 0xdc || m == 0xdd {
        let width: usize = if m == 0xdc { 2 } else { 4 };
        if bytes.len() - body < width {
            Err(DecodeError::Truncated)
        } else {
            read_list(bytes, body + width, read_uint(bytes, body, width), depth)
        }
    } else if m == 0xde || m == 0xdf {
        let width: usize = if m == 0xde { 2 } else { 4 };
        if bytes.len() - body < width {
            Err(DecodeError::Truncated)
        } else {
            read_dict(bytes, body + width, read_uint(bytes, body, width), depth)
        }
    } else if m >= 0xe0 {
        Ok((Value::Int(m as i64 - 256), body))
    } else if (0xc4 <= m && m <= 0xcb) || (0xd4 <= m && m <= 0xd8) {
        read_other(bytes, at)
    } else {
        Err(DecodeError::Unsupported)
    }
}

/// The value that a byte sequence starts with, or the fault in that value.
/// Bytes that follow the value are not read.
pub fn decode(bytes: &[u8]) -> (r: Result<Value, DecodeError>)
    ensures
        match decoding(bytes@) {
            Ok(d) => r is Ok && r->Ok_0@ == d,
            Err(e) => r == Err::<Value, DecodeError>(e),
        },
{
    match read_value(bytes, 0, MAX_DEPTH) {
        Err(e) => Err(e),
        Ok((v, _)) => Ok(v),
    }
}

} // verus!
