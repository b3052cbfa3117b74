//! The binary wire format: MessagePack. Nil, booleans, integers, strings,
//! lists and maps are read; values of other kinds are carried as bytes.
use vstd::prelude::*;
use vstd::utf8::*;
use crate::value::Data;

verus! {

/// The deepest nesting of lists and maps that is written or read: the
/// limit that `rmp_serde` keeps by default.
pub const MAX_DEPTH: usize = 1024;

/// Why a byte sequence is not one value of the wire format.
#[derive(Clone, Copy, Debug, PartialEq, Eq, Structural)]
pub enum DecodeError {
    /// The input ends inside a value.
    Truncated,
    /// The one marker that the format leaves without a meaning.
    Unsupported,
    /// A string whose bytes are not UTF-8.
    InvalidUtf8,
    /// Lists and maps nested deeper than the limit.
    TooDeep,
}

/// Two bytes, most significant first.
pub open spec fn be16(n: int) -> Seq<u8> {
    seq![(n / 256) as u8, (n % 256) as u8]
}

/// Four bytes, most significant first.
pub open spec fn be32(n: int) -> Seq<u8> {
    be16(n / 65536) + be16(n % 65536)
}

/// Eight bytes, most significant first.
pub open spec fn be64(n: int) -> Seq<u8> {
    be32(n / 4294967296) + be32(n % 4294967296)
}

/// The number that two bytes at `at` hold.
pub open spec fn u16_at(s: Seq<u8>, at: int) -> int {
    s[at] * 256 + s[at + 1]
}

/// The number that four bytes at `at` hold.
pub open spec fn u32_at(s: Seq<u8>, at: int) -> int {
    u16_at(s, at) * 65536 + u16_at(s, at + 2)
}

/// The number that eight bytes at `at` hold.
pub open spec fn u64_at(s: Seq<u8>, at: int) -> int {
    u32_at(s, at) * 4294967296 + u32_at(s, at + 4)
}

/// The bytes of an integer: the shortest form that holds it.
pub open spec fn int_encoding(i: i64) -> Seq<u8> {
    if 0 <= i < 128 {
        seq![i as u8]
    } else if 128 <= i < 256 {
        seq![0xccu8, i as u8]
    } else if 256 <= i < 65536 {
        seq![0xcdu8] + be16(i as int)
    } else if 65536 <= i < 4294967296 {
        seq![0xceu8] + be32(i as int)
    } else if 4294967296 <= i {
        seq![0xcfu8] + be64(i as int)
    } else if -32 <= i {
        seq![(i + 256) as u8]
    } else if -128 <= i {
        seq![0xd0u8, (i + 256) as u8]
    } else if -32768 <= i {
        seq![0xd1u8] + be16(i + 65536)
    } else if -2147483648 <= i {
        seq![0xd2u8] + be32(i + 4294967296)
    } else {
        seq![0xd3u8] + be64(i + 18446744073709551616)
    }
}

/// The header of a string of `n` bytes.
pub open spec fn str_header(n: int) -> Seq<u8> {
    if n < 32 {
        seq![(0xa0 + n) as u8]
    } else if n < 256 {
        seq![0xd9u8, n as u8]
    } else if n < 65536 {
        seq![0xdau8] + be16(n)
    } else {
        seq![0xdbu8] + be32(n)
    }
}

/// The header of a list of `n` items.
pub open spec fn list_header(n: int) -> Seq<u8> {
    if n < 16 {
        seq![(0x90 + n) as u8]
    } else if n < 65536 {
        seq![0xdcu8] + be16(n)
    } else {
        seq![0xddu8] + be32(n)
    }
}

/// The header of a map of `n` entries.
pub open spec fn dict_header(n: int) -> Seq<u8> {
    if n < 16 {
        seq![(0x80 + n) as u8]
    } else if n < 65536 {
        seq![0xdeu8] + be16(n)
    } else {
        seq![0xdfu8] + be32(n)
    }
}

/// The bytes of a value.
pub open spec fn encoding(d: Data) -> Seq<u8>
    decreases d,
{
    match d {
        Data::Nil => seq![0xc0u8],
        Data::Bool(b) => if b { seq![0xc3u8] } else { seq![0xc2u8] },
        Data::Int(i) => int_encoding(i),
        Data::Str(cs) => str_header(encode_utf8(cs).len() as int) + encode_utf8(cs),
        Data::List(items) => list_header(items.len() as int) + items_encoding(items),
        Data::Dict(entries) => dict_header(entries.len() as int) + entries_encoding(entries),
        Data::Other(bytes) => bytes,
    }
}

/// The bytes of the items of a list, one after another.
pub open spec fn items_encoding(items: Seq<Data>) -> Seq<u8>
    decreases items,
{
    if items.len() == 0 {
        Seq::empty()
    } else {
        encoding(items[0]) + items_encoding(items.drop_first())
    }
}

/// The bytes of the entries of a map: each key followed by its value.
pub open spec fn entries_encoding(entries: Seq<(Data, Data)>) -> Seq<u8>
    decreases entries,
{
    if entries.len() == 0 {
        Seq::empty()
    } else {
        encoding(entries[0].0) + encoding(entries[0].1) + entries_encoding(
            entries.drop_first(),
        )
    }
}

/// Whether a value can be written: every string, list and map is shorter
/// than 2^32, lists and maps nest at most `depth` deep, and the bytes of a
/// value of another kind are one such value, whole.
pub open spec fn fits(d: Data, depth: nat) -> bool
    decreases depth,
{
    match d {
        Data::Nil => true,
        Data::Bool(_) => true,
        Data::Int(_) => true,
        Data::Str(cs) => encode_utf8(cs).len() < 4294967296,
        Data::List(items) => depth > 0 && items.len() < 4294967296 && forall|i: int|
            0 <= i < items.len() ==> fits(#[trigger] items[i], (depth - 1) as nat),
        Data::Dict(entries) => depth > 0 && entries.len() < 4294967296 && forall|i: int|
            0 <= i < entries.len() ==> fits((#[trigger] entries[i]).0, (depth - 1) as nat)
                && fits(entries[i].1, (depth - 1) as nat),
        Data::Other(bytes) => parse(bytes, 0, 0) == Ok::<(Data, int), DecodeError>(
            (Data::Other(bytes), bytes.len() as int),
        ),
    }
}

/// The number that `width` bytes at `at` hold; `width` is 1, 2, 4 or 8.
pub open spec fn uint_at(s: Seq<u8>, at: int, width: int) -> int {
    if width == 1 {
        s[at] as int
    } else if width == 2 {
        u16_at(s, at)
    } else if width == 4 {
        u32_at(s, at)
    } else {
        u64_at(s, at)
    }
}

/// Half of the range of `width` bytes: the first number that reads as negative.
pub open spec fn sign_bound(width: int) -> int {
    if width == 1 {
        128
    } else if width == 2 {
        32768
    } else if width == 4 {
        2147483648
    } else {
        9223372036854775808
    }
}

/// An unsigned integer of `width` bytes at `at`, behind its marker. One
/// above the signed range is kept as a value of another kind.
pub open spec fn parse_uint(s: Seq<u8>, at: int, width: int) -> Result<(Data, int), DecodeError> {
    if at + width > s.len() {
        Err(DecodeError::Truncated)
    } else if uint_at(s, at, width) > i64::MAX {
        Ok((Data::Other(s.subrange(at - 1, at + width)), at + width))
    } else {
        Ok((Data::Int(uint_at(s, at, width) as i64), at + width))
    }
}

/// A signed integer of `width` bytes at `at`, in two's complement.
pub open spec fn parse_sint(s: Seq<u8>, at: int, width: int) -> Result<(Data, int), DecodeError> {
    if at + width > s.len() {
        Err(DecodeError::Truncated)
    } else if uint_at(s, at, width) >= sign_bound(width) {
        Ok((Data::Int((uint_at(s, at, width) - 2 * sign_bound(width)) as i64), at + width))
    } else {
        Ok((Data::Int(uint_at(s, at, width) as i64), at + width))
    }
}

/// Whether a marker starts binary data, a float or an extension.
pub open spec fn starts_other(m: u8) -> bool {
    0xc4 <= m <= 0xcb || 0xd4 <= m <= 0xd8
}

/// The bytes of such a value up to its data, the marker counted in.
pub open spec fn other_head(m: u8) -> int {
    if m == 0xc4 {
        2
    } else if m == 0xc5 {
        3
    } else if m == 0xc6 {
        5
    } else if m == 0xc7 {
        3
    } else if m == 0xc8 {
        4
    } else if m == 0xc9 {
        6
    } else if m == 0xca {
        5
    } else if m == 0xcb {
        9
    } else if m == 0xd4 {
        3
    } else if m == 0xd5 {
        4
    } else if m == 0xd6 {
        6
    } else if m == 0xd7 {
        10
    } else {
        18
    }
}

/// The bytes in which such a value gives the length of its data: none
/// where the marker fixes the length.
pub open spec fn other_width(m: u8) -> int {
    if m == 0xc4 || m == 0xc7 {
        1
    } else if m == 0xc5 || m == 0xc8 {
        2
    } else if m == 0xc6 || m == 0xc9 {
        4
    } else {
        0
    }
}

/// A value of another kind whose marker stands at `at`: its bytes, whole.
pub open spec fn parse_other(s: Seq<u8>, at: int) -> Result<(Data, int), DecodeError> {
    let head = other_head(s[at]);
    let width = other_width(s[at]);
    if at + head > s.len() {
        Err(DecodeError::Truncated)
    } else {
        let end = at + head + if width == 0 {
            0
        } else {
            uint_at(s, at + 1, width)
        };
        if end > s.len() {
            Err(DecodeError::Truncated)
        } else {
            Ok((Data::Other(s.subrange(at, end)), end))
        }
    }
}

/// The `n` bytes of a string at `at`.
pub open spec fn parse_str(s: Seq<u8>, at: int, n: int) -> Result<(Data, int), DecodeError> {
    if at + n > s.len() {
        Err(DecodeError::Truncated)
    } else if !valid_utf8(s.subrange(at, at + n)) {
        Err(DecodeError::InvalidUtf8)
    } else {
        Ok((Data::Str(decode_utf8(s.subrange(at, at + n))), at + n))
    }
}

/// The value that starts at `at`, and where it ends, when lists and maps
/// may nest `depth` deep below it; or the first fault met from left to right.
pub open spec fn parse(s: Seq<u8>, at: int, depth: nat) -> Result<(Data, int), DecodeError>
    decreases depth, 0nat, 1nat,
{
    if at < 0 || at >= s.len() {
        Err(DecodeError::Truncated)
    } else {
        let m = s[at];
        if m <= 0x7f {
            Ok((Data::Int(m as i64), at + 1))
        } else if m <= 0x8f {
            parse_dict(s, at + 1, (m - 0x80) as nat, depth)
        } else if m <= 0x9f {
            parse_list(s, at + 1, (m - 0x90) as nat, depth)
        } else if m <= 0xbf {
            parse_str(s, at + 1, m - 0xa0)
        } else if m == 0xc0 {
            Ok((Data::Nil, at + 1))
        } else if m == 0xc2 {
            Ok((Data::Bool(false), at + 1))
        } else if m == 0xc3 {
            Ok((Data::Bool(true), at + 1))
        } else if m == 0xcc {
            parse_uint(s, at + 1, 1)
        } else if m == 0xcd {
            parse_uint(s, at + 1, 2)
        } else if m == 0xce {
            parse_uint(s, at + 1, 4)
        } else if m == 0xcf {
            parse_uint(s, at + 1, 8)
        } else if m == 0xd0 {
            parse_sint(s, at + 1, 1)
        } else if m == 0xd1 {
            parse_sint(s, at + 1, 2)
        } else if m == 0xd2 {
            parse_sint(s, at + 1, 4)
        } else if m == 0xd3 {
            parse_sint(s, at + 1, 8)
        } else if m == 0xd9 || m == 0xda || m == 0xdb {
            let width: int = if m == 0xd9 { 1 } else if m == 0xda { 2 } else { 4 };
            if at + 1 + width > s.len() {
                Err(DecodeError::Truncated)
            } else {
                parse_str(s, at + 1 + width, uint_at(s, at + 1, width))
            }
        } else if m == 0xdc || m == 0xdd {
            let width: int = if m == 0xdc { 2 } else { 4 };
            if at + 1 + width > s.len() {
                Err(DecodeError::Truncated)
            } else {
                parse_list(s, at + 1 + width, uint_at(s, at + 1, width) as nat, depth)
            }
        } else if m == 0xde || m == 0xdf {
            let width: int = if m == 0xde { 2 } else { 4 };
            if at + 1 + width > s.len() {
                Err(DecodeError::Truncated)
            } else {
                parse_dict(s, at + 1 + width, uint_at(s, at + 1, width) as nat, depth)
            }
        } else if m >= 0xe0 {
            Ok((Data::Int((m - 256) as i64), at + 1))
        } else if starts_other(m) {
            parse_other(s, at)
        } else {
            Err(DecodeError::Unsupported)
        }
    }
}

/// A list of `n` items whose first item starts at `at`.
pub open spec fn parse_list(s: Seq<u8>, at: int, n: nat, depth: nat) -> Result<
    (Data, int),
    DecodeError,
>
    decreases depth, 0nat, 0nat,
{
    if depth == 0 {
        Err(DecodeError::TooDeep)
    } else {
        match parse_items(s, at, n, (depth - 1) as nat) {
            Ok((items, end)) => Ok((Data::List(items), end)),
            Err(e) => Err(e),
        }
    }
}

/// A map of `n` entries whose first key starts at `at`.
pub open spec fn parse_dict(s: Seq<u8>, at: int, n: nat, depth: nat) -> Result<
    (Data, int),
    DecodeError,
>
    decreases depth, 0nat, 0nat,
{
    if depth == 0 {
        Err(DecodeError::TooDeep)
    } else {
        match parse_entries(s, at, n, (depth - 1) as nat) {
            Ok((entries, end)) => Ok((Data::Dict(entries), end)),
            Err(e) => Err(e),
        }
    }
}

/// `n` values one after another from `at`.
pub open spec fn parse_items(s: Seq<u8>, at: int, n: nat, depth: nat) -> Result<
    (Seq<Data>, int),
    DecodeError,
>
    decreases depth, n, 2nat,
{
    if n == 0 {
        Ok((Seq::empty(), at))
    } else {
        match parse(s, at, depth) {
            Err(e) => Err(e),
            Ok((first, next)) => match parse_items(s, next, (n - 1) as nat, depth) {
                Err(e) => Err(e),
                Ok((rest, end)) => Ok((seq![first] + rest, end)),
            },
        }
    }
}

/// `n` pairs of key and value one after another from `at`.
pub open spec fn parse_entries(s: Seq<u8>, at: int, n: nat, depth: nat) -> Result<
    (Seq<(Data, Data)>, int),
    DecodeError,
>
    decreases depth, n, 2nat,
{
    if n == 0 {
        Ok((Seq::empty(), at))
    } else {
        match parse(s, at, depth) {
            Err(e) => Err(e),
            Ok((key, mid)) => match parse(s, mid, depth) {
                Err(e) => Err(e),
                Ok((value, next)) => match parse_entries(s, next, (n - 1) as nat, depth) {
                    Err(e) => Err(e),
                    Ok((rest, end)) => Ok((seq![(key, value)] + rest, end)),
                },
            },
        }
    }
}

/// What a byte sequence decodes to: the value that it starts with, or the
/// fault in that value. Bytes that follow the value are not read.
pub open spec fn decoding(s: Seq<u8>) -> Result<Data, DecodeError> {
    match parse(s, 0, MAX_DEPTH as nat) {
        Err(e) => Err(e),
        Ok((d, _)) => Ok(d),
    }
}

} // verus!
