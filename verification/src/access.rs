//! Taking typed parts out of values.
use vstd::prelude::*;
use crate::shape::{field, find, position_of};
use crate::text::same_text;
use crate::value::{entries_view, items_view, lemma_entries_view, lemma_items_view, Data, Value};

verus! {

/// The string in field `name` of a map.
pub open spec fn text_at(d: Data, name: Seq<char>) -> Option<Seq<char>> {
    match field(d, name) {
        Some(Data::Str(cs)) => Some(cs),
        _ => None,
    }
}

/// The boolean in field `name` of a map.
pub open spec fn flag_at(d: Data, name: Seq<char>) -> Option<bool> {
    match field(d, name) {
        Some(Data::Bool(b)) => Some(b),
        _ => None,
    }
}

/// The integer in field `name` of a map.
pub open spec fn int_at(d: Data, name: Seq<char>) -> Option<i64> {
    match field(d, name) {
        Some(Data::Int(i)) => Some(i),
        _ => None,
    }
}

/// Whether a value is a list of strings.
pub open spec fn is_texts(d: Data) -> bool {
    d is List && forall|i: int| 0 <= i < d->List_0.len() ==> (#[trigger] d->List_0[i]) is Str
}

/// The strings of a list of strings, in order.
pub open spec fn texts(d: Data) -> Option<Seq<Seq<char>>> {
    if is_texts(d) {
        Some(Seq::new(d->List_0.len(), |i: int| d->List_0[i]->Str_0))
    } else {
        None
    }
}

/// The strings of the list of strings in field `name` of a map.
pub open spec fn texts_at(d: Data, name: Seq<char>) -> Option<Seq<Seq<char>>> {
    match field(d, name) {
        Some(x) => texts(x),
        None => None,
    }
}

/// Whether a value is a map from strings to strings.
pub open spec fn is_pairs(d: Data) -> bool {
    d is Dict && forall|i: int|
        0 <= i < d->Dict_0.len() ==> (#[trigger] d->Dict_0[i]).0 is Str && d->Dict_0[i].1 is Str
}

/// Whether the key of entry `i` occurs again in a later entry.
pub open spec fn repeated(ps: Seq<(Seq<char>, Seq<char>)>, i: int) -> bool {
    exists|j: int| i < j < ps.len() && (#[trigger] ps[j]).0 == ps[i].0
}

/// The first `n` entries without those whose key occurs again later.
pub open spec fn settled_upto(ps: Seq<(Seq<char>, Seq<char>)>, n: nat) -> Seq<
    (Seq<char>, Seq<char>),
>
    decreases n,
{
    if n == 0 {
        Seq::empty()
    } else if repeated(ps, n - 1) {
        settled_upto(ps, (n - 1) as nat)
    } else {
        settled_upto(ps, (n - 1) as nat).push(ps[n - 1])
    }
}

/// The entries as a map holds them: where a key occurs more than once,
/// only its last entry stays; the others keep their order.
pub open spec fn settled(ps: Seq<(Seq<char>, Seq<char>)>) -> Seq<(Seq<char>, Seq<char>)> {
    settled_upto(ps, ps.len())
}

/// The entries of a map from strings to strings as they stand, in order.
pub open spec fn entries_of(d: Data) -> Seq<(Seq<char>, Seq<char>)> {
    Seq::new(d->Dict_0.len(), |i: int| (d->Dict_0[i].0->Str_0, d->Dict_0[i].1->Str_0))
}

/// The entries of a map from strings to strings, each key once: where the
/// map holds a key more than once, with the value of its last entry.
pub open spec fn pairs(d: Data) -> Option<Seq<(Seq<char>, Seq<char>)>> {
    if is_pairs(d) {
        Some(settled(entries_of(d)))
    } else {
        None
    }
}

/// The texts of a list of pairs of strings, in order.
pub open spec fn pairs_view(entries: Seq<(String, String)>) -> Seq<(Seq<char>, Seq<char>)> {
    Seq::new(entries.len(), |i: int| (entries[i].0@, entries[i].1@))
}

/// The value in field `name` of a map.
pub fn get<'a>(v: &'a Value, name: &str) -> (r: Option<&'a Value>)
    ensures
        match field(v@, name@) {
            Some(d) => r is Some && r->0@ == d,
            None => r is None,
        },
{
    match v {
        Value::Dict(entries) => find(entries, name),
        _ => None,
    }
}

/// The string in field `name` of a map.
pub fn get_text(v: &Value, name: &str) -> (r: Option<String>)
    ensures
        match text_at(v@, name@) {
            Some(cs) => r is Some && r->0@ == cs,
            None => r is None,
        },
{
    match get(v, name) {
        Some(Value::Str(s)) => Some(s.clone()),
        _ => None,
    }
}

/// The boolean in field `name` of a map.
pub fn get_flag(v: &Value, name: &str) -> (r: Option<bool>)
    ensures
        r == flag_at(v@, name@),
{
    match get(v, name) {
        Some(Value::Bool(b)) => Some(*b),
        _ => None,
    }
}

/// The integer in field `name` of a map.
pub fn get_int(v: &Value, name: &str) -> (r: Option<i64>)
    ensures
        r == int_at(v@, name@),
{
    match get(v, name) {
        Some(Value::Int(i)) => Some(*i),
        _ => None,
    }
}

/// The strings of a list of strings, in order.
#[verifier::loop_isolation(false)]
pub fn to_texts(v: &Value) -> (r: Option<Vec<String>>)
    ensures
        match texts(v@) {
            Some(ts) => r is Some && crate::error::texts_view(r->0@) == ts,
            None => r is None,
        },
{
    match v {
        Value::List(items) => {
            let ghost model = items_view(items@);
            proof {
                lemma_items_view(items@);
            }
            let mut out: Vec<String> = Vec::new();
            let mut i: usize = 0;
            while i < items.len()
                invariant
                    0 <= i <= items.len(),
                    model == items_view(items@),
                    model.len() == items.len(),
                    forall|j: int| 0 <= j < model.len() ==> (#[trigger] model[j]) == items@[j]@,
                    out.len() == i,
                    forall|j: int| 0 <= j < i ==> (#[trigger] model[j]) is Str,
                    forall|j: int| 0 <= j < i ==> (#[trigger] out@[j])@ == model[j]->Str_0,
                decreases items.len() - i,
            {
                match &items[i] {
                    Value::Str(s) => {
                        out.push(s.clone());
                    },
                    _ => {
                        assert(!(model[i as int] is Str));
                        return None;
                    },
                }
                i += 1;
            }
            Some(out)
        },
        _ => None,
    }
}

/// The strings of the list of strings in field `name` of a map.
pub fn get_texts(v: &Value, name: &str) -> (r: Option<Vec<String>>)
    ensures
        match texts_at(v@, name@) {
            Some(ts) => r is Some && crate::error::texts_view(r->0@) == ts,
            None => r is None,
        },
{
    match get(v, name) {
        Some(x) => to_texts(x),
        None => None,
    }
}

/// The entries as a map holds them: where a key occurs more than once,
/// only its last entry stays; the others keep their order.
#[verifier::loop_isolation(false)]
pub fn settle(entries: &Vec<(String, String)>) -> (r: Vec<(String, String)>)
    ensures
        pairs_view(r@) == settled(pairs_view(entries@)),
{
    let ghost ps = pairs_view(entries@);
    let mut out: Vec<(String, String)> = Vec::new();
    let mut i: usize = 0;
    assert(pairs_view(out@) =~= settled_upto(ps, 0));
    while i < entries.len()
        invariant
            0 <= i <= entries.len(),
            pairs_view(out@) == settled_upto(ps, i as nat),
        decreases entries.len() - i,
    {
        let mut again = false;
        let mut j: usize = i + 1;
        while j < entries.len()
            invariant
                i < j <= entries.len(),
                again == exists|k: int| i < k < j && (#[trigger] ps[k]).0 == ps[i as int].0,
            decreases entries.len() - j,
        {
            if same_text(entries[j].0.as_str(), entries[i].0.as_str()) {
                assert(ps[j as int].0 == ps[i as int].0);
                again = true;
            }
            j += 1;
        }
        assert(again == repeated(ps, i as int));
        if !again {
            let ghost before = out@;
            out.push((entries[i].0.clone(), entries[i].1.clone()));
            assert(pairs_view(out@) =~= pairs_view(before).push(ps[i as int]));
        }
        i += 1;
    }
    out
}

/// The entries of a map from strings to strings as they stand, in order.
#[verifier::loop_isolation(false)]
fn read_entries(v: &Value) -> (r: Option<Vec<(String, String)>>)
    ensures
        r is Some <==> is_pairs(v@),
        r is Some ==> pairs_view(r->0@) == entries_of(v@),
{
    match v {
        Value::Dict(entries) => {
            let ghost model = entries_view(entries@);
            proof {
                lemma_entries_view(entries@);
            }
            let mut out: Vec<(String, String)> = Vec::new();
            let mut i: usize = 0;
            while i < entries.len()
                invariant
                    0 <= i <= entries.len(),
                    out.len() == i,
                    forall|j: int|
                        0 <= j < i ==> (#[trigger] model[j]).0 is Str && model[j].1 is Str,
                    forall|j: int|
                        0 <= j < i ==> (#[trigger] out@[j]).0@ == model[j].0->Str_0 && out@[j].1@
                            == model[j].1->Str_0,
                decreases entries.len() - i,
            {
                match (&entries[i].0, &entries[i].1) {
                    (Value::Str(k), Value::Str(x)) => {
                        out.push((k.clone(), x.clone()));
                    },
                    _ => {
                        assert(!(model[i as int].0 is Str && model[i as int].1 is Str));
                        return None;
                    },
                }
                i += 1;
            }
            assert(pairs_view(out@) =~= entries_of(v@));
            Some(out)
        },
        _ => None,
    }
}

/// The entries of a map from strings to strings, each key once: where the
/// map holds a key more than once, with the value of its last entry.
pub fn to_pairs(v: &Value) -> (r: Option<Vec<(String, String)>>)
    ensures
        match pairs(v@) {
            Some(ps) => r is Some && pairs_view(r->0@) == ps,
            None => r is None,
        },
{
    match read_entries(v) {
        Some(entries) => Some(settle(&entries)),
        None => None,
    }
}

/// The value in field `name` of a map, taken out of the map.
pub fn take(v: Value, name: &str) -> (r: Option<Value>)
    ensures
        match field(v@, name@) {
            Some(d) => r is Some && r->0@ == d,
            None => r is None,
        },
{
    match v {
        Value::Dict(mut entries) => {
            proof {
                lemma_entries_view(entries@);
            }
            let at = position_of(&entries, name);
            if at < entries.len() {
                let entry = entries.swap_remove(at);
                Some(entry.1)
            } else {
                None
            }
        },
        _ => None,
    }
}

} // verus!
