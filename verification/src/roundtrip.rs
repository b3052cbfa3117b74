//! Reading back what was written: the wire format loses nothing.
use vstd::prelude::*;
use vstd::utf8::*;
use crate::value::Data;
use crate::wire::{
    be16, be32, be64, decoding, dict_header, encoding, entries_encoding, fits, int_encoding,
    items_encoding, list_header, parse, parse_dict, parse_entries, parse_items, parse_list,
    parse_str, str_header, u16_at, u32_at, u64_at, DecodeError, MAX_DEPTH,
};

verus! {

/// The bytes `e` stand in `s` from position `at` on.
pub open spec fn holds(s: Seq<u8>, at: int, e: Seq<u8>) -> bool {
    &&& 0 <= at
    &&& at + e.len() <= s.len()
    &&& forall|i: int| 0 <= i < e.len() ==> s[at + i] == #[trigger] e[i]
}

proof fn lemma_holds_split(s: Seq<u8>, at: int, a: Seq<u8>, b: Seq<u8>)
    requires
        holds(s, at, a + b),
    ensures
        holds(s, at, a),
        holds(s, at + a.len(), b),
{
    let e = a + b;
    assert forall|i: int| 0 <= i < a.len() implies s[at + i] == #[trigger] a[i] by {
        assert(e[i] == a[i]);
    }
    assert forall|i: int| 0 <= i < b.len() implies s[at + a.len() + i] == #[trigger] b[i] by {
        assert(e[a.len() + i] == b[i]);
    }
}

proof fn lemma_holds_subrange(s: Seq<u8>, at: int, e: Seq<u8>)
    requires
        holds(s, at, e),
    ensures
        s.subrange(at, at + e.len()) == e,
{
    assert(s.subrange(at, at + e.len()) =~= e);
}

proof fn lemma_holds_be16(s: Seq<u8>, at: int, n: int)
    requires
        0 <= n < 65536,
        holds(s, at, be16(n)),
    ensures
        u16_at(s, at) == n,
        be16(n).len() == 2,
{
    let e = be16(n);
    assert(s[at + 0] == e[0]);
    assert(s[at + 1] == e[1]);
}

proof fn lemma_holds_be32(s: Seq<u8>, at: int, n: int)
    requires
        0 <= n < 4294967296,
        holds(s, at, be32(n)),
    ensures
        u32_at(s, at) == n,
        be32(n).len() == 4,
{
    lemma_holds_split(s, at, be16(n / 65536), be16(n % 65536));
    lemma_holds_be16(s, at, n / 65536);
    lemma_holds_be16(s, at + 2, n % 65536);
}

proof fn lemma_holds_be64(s: Seq<u8>, at: int, n: int)
    requires
        0 <= n < 18446744073709551616,
        holds(s, at, be64(n)),
    ensures
        u64_at(s, at) == n,
        be64(n).len() == 8,
{
    lemma_holds_split(s, at, be32(n / 4294967296), be32(n % 4294967296));
    lemma_holds_be32(s, at, n / 4294967296);
    lemma_holds_be32(s, at + 4, n % 4294967296);
}

proof fn lemma_parse_int(s: Seq<u8>, at: int, i: i64, depth: nat)
    requires
        holds(s, at, int_encoding(i)),
    ensures
        parse(s, at, depth) == Ok::<(Data, int), DecodeError>(
            (Data::Int(i), at + int_encoding(i).len()),
        ),
{
    let e = int_encoding(i);
    assert(e.len() > 0 && s[at + 0] == e[0]) by {
        if 256 <= i < 65536 {
            assert(e[0] == 0xcdu8);
        } else if 65536 <= i < 4294967296 {
            assert(e[0] == 0xceu8);
        } else if 4294967296 <= i {
            assert(e[0] == 0xcfu8);
        } else if -32768 <= i < -128 {
            assert(e[0] == 0xd1u8);
        } else if -2147483648 <= i < -32768 {
            assert(e[0] == 0xd2u8);
        } else if i < -2147483648 {
            assert(e[0] == 0xd3u8);
        }
    }
    if 0 <= i < 128 {
    } else if 128 <= i < 256 {
        assert(s[at + 1] == e[1]);
    } else if 256 <= i < 65536 {
        lemma_holds_split(s, at, seq![0xcdu8], be16(i as int));
        lemma_holds_be16(s, at + 1, i as int);
    } else if 65536 <= i < 4294967296 {
        lemma_holds_split(s, at, seq![0xceu8], be32(i as int));
        lemma_holds_be32(s, at + 1, i as int);
    } else if 4294967296 <= i {
        lemma_holds_split(s, at, seq![0xcfu8], be64(i as int));
        lemma_holds_be64(s, at + 1, i as int);
    } else if -32 <= i {
    } else if -128 <= i {
        assert(s[at + 1] == e[1]);
    } else if -32768 <= i {
        lemma_holds_split(s, at, seq![0xd1u8], be16(i + 65536));
        lemma_holds_be16(s, at + 1, i + 65536);
    } else if -2147483648 <= i {
        lemma_holds_split(s, at, seq![0xd2u8], be32(i + 4294967296));
        lemma_holds_be32(s, at + 1, i + 4294967296);
    } else {
        lemma_holds_split(s, at, seq![0xd3u8], be64(i + 18446744073709551616));
        lemma_holds_be64(s, at + 1, i + 18446744073709551616);
    }
}

proof fn lemma_parse_str(s: Seq<u8>, at: int, cs: Seq<char>, depth: nat)
    requires
        encode_utf8(cs).len() < 4294967296,
        holds(s, at, encoding(Data::Str(cs))),
    ensures
        parse(s, at, depth) == Ok::<(Data, int), DecodeError>(
            (Data::Str(cs), at + encoding(Data::Str(cs)).len()),
        ),
{
    let body = encode_utf8(cs);
    let n = body.len() as int;
    let head = str_header(n);
    lemma_holds_split(s, at, head, body);
    assert(head.len() > 0 && s[at + 0] == head[0]) by {
        if 256 <= n < 65536 {
            assert(head[0] == 0xdau8);
        } else if 65536 <= n {
            assert(head[0] == 0xdbu8);
        }
    }
    if n < 32 {
    } else if n < 256 {
        assert(s[at + 1] == head[1]);
    } else if n < 65536 {
        lemma_holds_split(s, at, seq![0xdau8], be16(n));
        lemma_holds_be16(s, at + 1, n);
    } else {
        lemma_holds_split(s, at, seq![0xdbu8], be32(n));
        lemma_holds_be32(s, at + 1, n);
    }
    let from = at + head.len();
    lemma_holds_subrange(s, from, body);
    encode_utf8_valid_utf8(cs);
    encode_utf8_decode_utf8(cs);
    assert(parse(s, at, depth) == parse_str(s, from, n));
}

proof fn lemma_parse_list_header(s: Seq<u8>, at: int, n: int, depth: nat)
    requires
        0 <= n < 4294967296,
        holds(s, at, list_header(n)),
    ensures
        parse(s, at, depth) == parse_list(s, at + list_header(n).len(), n as nat, depth),
{
    let head = list_header(n);
    assert(head.len() > 0 && s[at + 0] == head[0]) by {
        if 16 <= n < 65536 {
            assert(head[0] == 0xdcu8);
        } else if 65536 <= n {
            assert(head[0] == 0xddu8);
        }
    }
    if n < 16 {
    } else if n < 65536 {
        lemma_holds_split(s, at, seq![0xdcu8], be16(n));
        lemma_holds_be16(s, at + 1, n);
    } else {
        lemma_holds_split(s, at, seq![0xddu8], be32(n));
        lemma_holds_be32(s, at + 1, n);
    }
}

proof fn lemma_parse_dict_header(s: Seq<u8>, at: int, n: int, depth: nat)
    requires
        0 <= n < 4294967296,
        holds(s, at, dict_header(n)),
    ensures
        parse(s, at, depth) == parse_dict(s, at + dict_header(n).len(), n as nat, depth),
{
    let head = dict_header(n);
    assert(head.len() > 0 && s[at + 0] == head[0]) by {
        if 16 <= n < 65536 {
            assert(head[0] == 0xdeu8);
        } else if 65536 <= n {
            assert(head[0] == 0xdfu8);
        }
    }
    if n < 16 {
    } else if n < 65536 {
        lemma_holds_split(s, at, seq![0xdeu8], be16(n));
        lemma_holds_be16(s, at + 1, n);
    } else {
        lemma_holds_split(s, at, seq![0xdfu8], be32(n));
        lemma_holds_be32(s, at + 1, n);
    }
}

/// A value of another kind that is read is the bytes from where it starts
/// to where it ends.
pub proof fn lemma_other_is_span(s: Seq<u8>, at: int, depth: nat)
    ensures
        parse(s, at, depth) is Ok && parse(s, at, depth)->Ok_0.0 is Other ==> {
            &&& 0 <= at < parse(s, at, depth)->Ok_0.1 <= s.len()
            &&& parse(s, at, depth)->Ok_0.0->Other_0 == s.subrange(
                at,
                parse(s, at, depth)->Ok_0.1,
            )
        },
{
}

proof fn lemma_parse_other(s: Seq<u8>, at: int, b: Seq<u8>, depth: nat)
    requires
        parse(b, 0, 0) == Ok::<(Data, int), DecodeError>((Data::Other(b), b.len() as int)),
        holds(s, at, b),
    ensures
        parse(s, at, depth) == Ok::<(Data, int), DecodeError>((Data::Other(b), at + b.len())),
{
    assert(b.len() >= 1);
    assert(s[at + 0] == b[0]);
    assert forall|k: int| 0 <= k < b.len() implies s[at + k] == b[k] by {
        assert(s[at + k] == #[trigger] b[k]);
    }
    if b.len() > 1 {
        assert(s[at + 1] == b[1]);
    }
    if b.len() > 2 {
        assert(s[at + 2] == b[2]);
    }
    if b.len() > 3 {
        assert(s[at + 3] == b[3]);
    }
    if b.len() > 4 {
        assert(s[at + 4] == b[4]);
    }
    if b.len() > 8 {
        assert(s[at + 5] == b[5]);
        assert(s[at + 6] == b[6]);
        assert(s[at + 7] == b[7]);
        assert(s[at + 8] == b[8]);
    }
    assert(s.subrange(at, at + b.len()) =~= b);
    assert(b.subrange(0, b.len() as int) =~= b);
}

/// Wherever the bytes of a value stand in a byte sequence, reading from
/// that place gives the value back and ends right behind it.
pub proof fn lemma_parse_encoding(s: Seq<u8>, at: int, d: Data, depth: nat)
    requires
        fits(d, depth),
        holds(s, at, encoding(d)),
    ensures
        parse(s, at, depth) == Ok::<(Data, int), DecodeError>((d, at + encoding(d).len())),
    decreases d,
{
    match d {
        Data::Nil => {
            assert(s[at + 0] == encoding(d)[0]);
        },
        Data::Bool(b) => {
            assert(s[at + 0] == encoding(d)[0]);
        },
        Data::Int(i) => {
            lemma_parse_int(s, at, i, depth);
        },
        Data::Str(cs) => {
            lemma_parse_str(s, at, cs, depth);
        },
        Data::List(items) => {
            let head = list_header(items.len() as int);
            lemma_holds_split(s, at, head, items_encoding(items));
            lemma_parse_list_header(s, at, items.len() as int, depth);
            lemma_parse_items(s, at + head.len(), items, (depth - 1) as nat);
        },
        Data::Dict(entries) => {
            let head = dict_header(entries.len() as int);
            lemma_holds_split(s, at, head, entries_encoding(entries));
            lemma_parse_dict_header(s, at, entries.len() as int, depth);
            lemma_parse_entries(s, at + head.len(), entries, (depth - 1) as nat);
        },
        Data::Other(bytes) => {
            lemma_parse_other(s, at, bytes, depth);
        },
    }
}

proof fn lemma_parse_items(s: Seq<u8>, at: int, items: Seq<Data>, depth: nat)
    requires
        forall|i: int| 0 <= i < items.len() ==> fits(#[trigger] items[i], depth),
        holds(s, at, items_encoding(items)),
    ensures
        parse_items(s, at, items.len(), depth) == Ok::<(Seq<Data>, int), DecodeError>(
            (items, at + items_encoding(items).len()),
        ),
    decreases items,
{
    if items.len() == 0 {
        assert(items =~= Seq::empty());
    } else {
        let first = encoding(items[0]);
        let rest = items.drop_first();
        lemma_holds_split(s, at, first, items_encoding(rest));
        lemma_parse_encoding(s, at, items[0], depth);
        assert forall|i: int| 0 <= i < rest.len() implies fits(#[trigger] rest[i], depth) by {
            assert(rest[i] == items[i + 1]);
        }
        lemma_parse_items(s, at + first.len(), rest, depth);
        assert(seq![items[0]] + rest =~= items);
    }
}

proof fn lemma_parse_entries(s: Seq<u8>, at: int, entries: Seq<(Data, Data)>, depth: nat)
    requires
        forall|i: int|
            0 <= i < entries.len() ==> fits((#[trigger] entries[i]).0, depth) && fits(
                entries[i].1,
                depth,
            ),
        holds(s, at, entries_encoding(entries)),
    ensures
        parse_entries(s, at, entries.len(), depth) == Ok::<(Seq<(Data, Data)>, int), DecodeError>(
            (entries, at + entries_encoding(entries).len()),
        ),
    decreases entries,
{
    if entries.len() == 0 {
        assert(entries =~= Seq::empty());
    } else {
        let key = encoding(entries[0].0);
        let value = encoding(entries[0].1);
        let rest = entries.drop_first();
        lemma_holds_split(s, at, key + value, entries_encoding(rest));
        lemma_holds_split(s, at, key, value);
        lemma_parse_encoding(s, at, entries[0].0, depth);
        lemma_parse_encoding(s, at + key.len(), entries[0].1, depth);
        assert forall|i: int| 0 <= i < rest.len() implies fits((#[trigger] rest[i]).0, depth)
            && fits(rest[i].1, depth) by {
            assert(rest[i] == entries[i + 1]);
        }
        lemma_parse_entries(s, at + key.len() + value.len(), rest, depth);
        assert(seq![entries[0]] + rest =~= entries);
    }
}

/// Round trip: the bytes written for a value that can be written decode to
/// that value.
pub proof fn law_decoding_inverts_encoding(d: Data)
    requires
        fits(d, MAX_DEPTH as nat),
    ensures
        decoding(encoding(d)) == Ok::<Data, DecodeError>(d),
{
    lemma_parse_encoding(encoding(d), 0, d, MAX_DEPTH as nat);
}

} // verus!
