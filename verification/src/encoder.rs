//! Writing values in the wire format. The single parts of a value are
//! written by `rmp_serde`; which parts, and in what order, is decided here.
use vstd::prelude::*;
use vstd::string::StringSliceAdditionalSpecFns;
use crate::decoder::read_value;
use crate::roundtrip::lemma_other_is_span;
use crate::value::{
    entries_view, items_view, lemma_entries_view, lemma_items_view, Data, Value,
};
use crate::wire::{
    dict_header, encoding, entries_encoding, fits, int_encoding, items_encoding, list_header,
    parse, str_header, MAX_DEPTH,
};

verus! {

/// Whether a value can be written with lists and maps nested at most
/// `depth` deep.
#[verifier::loop_isolation(false)]
pub fn encodable(v: &Value, depth: usize) -> (r: bool)
    ensures
        r == fits(v@, depth as nat),
    decreases depth,
{
    match v {
        Value::Nil => true,
        Value::Bool(_) => true,
        Value::Int(_) => true,
        Value::Str(s) => (s.as_str().as_bytes().len() as u64) < 4294967296u64,
        Value::List(items) => {
            proof {
                lemma_items_view(items@);
            }
            if depth == 0 || items.len() as u64 >= 4294967296u64 {
                return false;
            }
            let mut i: usize = 0;
            while i < items.len()
                invariant
                    0 <= i <= items.len(),
                    depth > 0,
                    forall|j: int| 0 <= j < i ==> fits(#[trigger] items@[j]@, (depth - 1) as nat),
                decreases items.len() - i,
            {
                if !encodable(&items[i], depth - 1) {
                    proof {
                        assert(items_view(items@)[i as int] == items@[i as int]@);
                    }
                    return false;
                }
                i += 1;
            }
            true
        },
        Value::Dict(entries) => {
            proof {
                lemma_entries_view(entries@);
            }
            if depth == 0 || entries.len() as u64 >= 4294967296u64 {
                return false;
            }
            let mut i: usize = 0;
            while i < entries.len()
                invariant
                    0 <= i <= entries.len(),
                    depth > 0,
                    forall|j: int|
                        0 <= j < i ==> fits((#[trigger] entries@[j]).0@, (depth - 1) as nat)
                            && fits(entries@[j].1@, (depth - 1) as nat),
                decreases entries.len() - i,
            {
                if !encodable(&entries[i].0, depth - 1) || !encodable(&entries[i].1, depth - 1) {
                    proof {
                        assert(entries_view(entries@)[i as int] == (
                            entries@[i as int].0@,
                            entries@[i as int].1@,
                        ));
                    }
                    return false;
                }
                i += 1;
            }
            true
        },
        Value::Other(bytes) => {
            let read = read_value(bytes.as_slice(), 0, 0);
            proof {
                lemma_other_is_span(bytes@, 0, 0);
                assert(bytes@.subrange(0, bytes@.len() as int) =~= bytes@);
            }
            match read {
                Ok((Value::Other(kept), end)) => {
                    assert(parse(bytes@, 0, 0)->Ok_0.0 == Data::Other(kept@));
                    end == bytes.len()
                },
                Ok(_) => {
                    assert(!(parse(bytes@, 0, 0)->Ok_0.0 is Other));
                    false
                },
                Err(_) => false,
            }
        },
    }
}

proof fn lemma_items_encoding_push(items: Seq<Data>, d: Data)
    ensures
        items_encoding(items.push(d)) == items_encoding(items) + encoding(d),
    decreases items.len(),
{
    let all = items.push(d);
    if items.len() == 0 {
        assert(items_encoding(all.drop_first()) =~= Seq::<u8>::empty());
    } else {
        lemma_items_encoding_push(items.drop_first(), d);
        assert(all.drop_first() =~= items.drop_first().push(d));
    }
}

proof fn lemma_entries_encoding_push(entries: Seq<(Data, Data)>, k: Data, d: Data)
    ensures
        entries_encoding(entries.push((k, d))) == entries_encoding(entries) + encoding(k)
            + encoding(d),
    decreases entries.len(),
{
    let all = entries.push((k, d));
    if entries.len() == 0 {
        assert(entries_encoding(all.drop_first()) =~= Seq::<u8>::empty());
    } else {
        lemma_entries_encoding_push(entries.drop_first(), k, d);
        assert(all.drop_first() =~= entries.drop_first().push((k, d)));
    }
}

/// `rmp_serde::encode::write` on nil: it appends the one byte of nil. Writing
/// to a vector does not fail.
#[verifier::external_body]
fn write_nil(out: &mut Vec<u8>)
    ensures
        final(out)@ == old(out)@ + seq![0xc0u8],
{
    let _ = rmp_serde::encode::write(out, &());
}

/// `rmp_serde::encode::write` on a boolean: it appends the one byte of the
/// boolean. Writing to a vector does not fail.
#[verifier::external_body]
fn write_bool(b: bool, out: &mut Vec<u8>)
    ensures
        final(out)@ == old(out)@ + (if b {
            seq![0xc3u8]
        } else {
            seq![0xc2u8]
        }),
{
    let _ = rmp_serde::encode::write(out, &b);
}

/// `rmp_serde::encode::write` on an integer of 64 bits: it appends the
/// shortest form that holds the integer. Writing to a vector does not fail.
#[verifier::external_body]
fn write_int(i: i64, out: &mut Vec<u8>)
    ensures
        final(out)@ == old(out)@ + int_encoding(i),
{
    let _ = rmp_serde::encode::write(out, &i);
}

/// `rmp_serde::encode::write` on a string: it appends the header for the
/// number of bytes of the string, then the bytes. The number is cut to 32
/// bits, so longer strings are left out. Writing to a vector does not fail.
#[verifier::external_body]
fn write_str(s: &str, out: &mut Vec<u8>)
    requires
        s.spec_bytes().len() < 4294967296,
    ensures
        final(out)@ == old(out)@ + str_header(s.spec_bytes().len() as int) + s.spec_bytes(),
{
    let _ = rmp_serde::encode::write(out, s);
}

/// `serialize_seq` of `rmp_serde::Serializer` with a known length: it
/// appends the header of a list of `n` items and nothing else. Writing to a
/// vector does not fail.
#[verifier::external_body]
fn write_list_header(n: u32, out: &mut Vec<u8>)
    ensures
        final(out)@ == old(out)@ + list_header(n as int),
{
    let mut writer = rmp_serde::Serializer::new(out);
    let _ = serde::Serializer::serialize_seq(&mut writer, Some(n as usize));
}

/// `serialize_map` of `rmp_serde::Serializer` with a known length: it
/// appends the header of a map of `n` entries and nothing else. Writing to
/// a vector does not fail.
#[verifier::external_body]
fn write_dict_header(n: u32, out: &mut Vec<u8>)
    ensures
        final(out)@ == old(out)@ + dict_header(n as int),
{
    let mut writer = rmp_serde::Serializer::new(out);
    let _ = serde::Serializer::serialize_map(&mut writer, Some(n as usize));
}

/// Appends the bytes of a value to `out`.
#[verifier::loop_isolation(false)]
fn write_value(v: &Value, depth: usize, out: &mut Vec<u8>)
    requires
        fits(v@, depth as nat),
    ensures
        final(out)@ == old(out)@ + encoding(v@),
    decreases depth,
{
    match v {
        Value::Nil => {
            write_nil(out);
        },
        Value::Bool(b) => {
            write_bool(*b, out);
        },
        Value::Int(i) => {
            write_int(*i, out);
        },
        Value::Str(s) => {
            write_str(s.as_str(), out);
        },
        Value::List(items) => {
            let ghost model = items_view(items@);
            proof {
                lemma_items_view(items@);
            }
            write_list_header(items.len() as u32, out);
            let ghost start = out@;
            let mut i: usize = 0;
            while i < items.len()
                invariant
                    0 <= i <= items.len(),
                    out@ == start + items_encoding(model.take(i as int)),
                decreases items.len() - i,
            {
                write_value(&items[i], depth - 1, out);
                proof {
                    lemma_items_encoding_push(model.take(i as int), model[i as int]);
                    assert(model.take(i + 1) =~= model.take(i as int).push(model[i as int]));
                }
                i += 1;
            }
            assert(model.take(i as int) =~= model);
        },
        Value::Dict(entries) => {
            let ghost model = entries_view(entries@);
            proof {
                lemma_entries_view(entries@);
            }
            write_dict_header(entries.len() as u32, out);
            let ghost start = out@;
            let mut i: usize = 0;
            while i < entries.len()
                invariant
                    0 <= i <= entries.len(),
                    out@ == start + entries_encoding(model.take(i as int)),
                decreases entries.len() - i,
            {
                write_value(&entries[i].0, depth - 1, out);
                write_value(&entries[i].1, depth - 1, out);
                proof {
                    lemma_entries_encoding_push(
                        model.take(i as int),
                        model[i as int].0,
                        model[i as int].1,
                    );
                    assert(model.take(i + 1) =~= model.take(i as int).push(model[i as int]));
                }
                i += 1;
            }
            assert(model.take(i as int) =~= model);
        },
        Value::Other(bytes) => {
            out.extend_from_slice(bytes.as_slice());
        },
    }
}

/// The bytes of a value, or `None` for a value that cannot be written.
pub fn encode(v: &Value) -> (r: Option<Vec<u8>>)
    ensures
        fits(v@, MAX_DEPTH as nat) ==> r is Some && r->0@ == encoding(v@),
        !fits(v@, MAX_DEPTH as nat) ==> r is None,
{
    if encodable(v, MAX_DEPTH) {
        let mut out: Vec<u8> = Vec::new();
        write_value(v, MAX_DEPTH, &mut out);
        Some(out)
    } else {
        None
    }
}

} // verus!
