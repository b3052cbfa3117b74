//! The values that travel in request and response envelopes.
use vstd::prelude::*;
use vstd::slice::slice_to_vec;

verus! {

/// Mathematical model of an envelope value.
pub ghost enum Data {
    /// Nothing.
    Nil,
    /// A boolean.
    Bool(bool),
    /// An integer of 64 bits.
    Int(i64),
    /// A string, by its characters.
    Str(Seq<char>),
    /// A list, by its items in order.
    List(Seq<Data>),
    /// A map, by its entries of key and value in order.
    Dict(Seq<(Data, Data)>),
    /// A value of another kind (binary data, a float, an extension, an
    /// unsigned integer above the signed range), by its bytes on the wire.
    Other(Seq<u8>),
}

/// A value as it is held in memory.
#[derive(Debug, PartialEq, Eq)]
pub enum Value {
    /// Nothing.
    Nil,
    /// A boolean.
    Bool(bool),
    /// An integer of 64 bits.
    Int(i64),
    /// A string.
    Str(String),
    /// A list of values, in order.
    List(Vec<Value>),
    /// A map: its entries of key and value, in the order of the wire. A key
    /// may occur more than once; a field of that name is its first entry.
    Dict(Vec<(Value, Value)>),
    /// A value of another kind: binary data, a float, an extension, or an
    /// unsigned integer above the signed range. It is kept as its bytes on
    /// the wire and is never looked into.
    Other(Vec<u8>),
}

/// The models of the items of a list, in order.
pub open spec fn items_view(items: Seq<Value>) -> Seq<Data>
    decreases items,
{
    if items.len() == 0 {
        Seq::empty()
    } else {
        items_view(items.drop_last()).push(items.last().view())
    }
}

/// The models of the entries of a map, in order.
pub open spec fn entries_view(entries: Seq<(Value, Value)>) -> Seq<(Data, Data)>
    decreases entries,
{
    if entries.len() == 0 {
        Seq::empty()
    } else {
        entries_view(entries.drop_last()).push(
            (entries.last().0.view(), entries.last().1.view()),
        )
    }
}

impl View for Value {
    type V = Data;

    open spec fn view(&self) -> Data
        decreases self,
    {
        match self {
            Value::Nil => Data::Nil,
            Value::Bool(b) => Data::Bool(*b),
            Value::Int(i) => Data::Int(*i),
            Value::Str(s) => Data::Str(s@),
            Value::List(items) => Data::List(items_view(items@)),
            Value::Dict(entries) => Data::Dict(entries_view(entries@)),
            Value::Other(bytes) => Data::Other(bytes@),
        }
    }
}

/// The model of a list has one item for each item of the list, in order.
pub proof fn lemma_items_view(items: Seq<Value>)
    ensures
        items_view(items).len() == items.len(),
        forall|i: int| 0 <= i < items.len() ==> (#[trigger] items_view(items)[i]) == items[i]@,
    decreases items.len(),
{
    if items.len() > 0 {
        lemma_items_view(items.drop_last());
        assert(items_view(items) == items_view(items.drop_last()).push(items.last()@));
    }
}

/// The model of a map has one entry for each entry of the map, in order.
pub proof fn lemma_entries_view(entries: Seq<(Value, Value)>)
    ensures
        entries_view(entries).len() == entries.len(),
        forall|i: int|
            0 <= i < entries.len() ==> (#[trigger] entries_view(entries)[i]) == (
                entries[i].0@,
                entries[i].1@,
            ),
    decreases entries.len(),
{
    if entries.len() > 0 {
        lemma_entries_view(entries.drop_last());
        assert(entries_view(entries) == entries_view(entries.drop_last()).push(
            (entries.last().0@, entries.last().1@),
        ));
    }
}

/// Adding an item to a list adds its model to the model of the list.
pub proof fn lemma_items_view_push(items: Seq<Value>, v: Value)
    ensures
        items_view(items.push(v)) == items_view(items).push(v@),
{
    assert(items.push(v).drop_last() =~= items);
}

/// Adding an entry to a map adds its model to the model of the map.
pub proof fn lemma_entries_view_push(entries: Seq<(Value, Value)>, k: Value, v: Value)
    ensures
        entries_view(entries.push((k, v))) == entries_view(entries).push((k@, v@)),
{
    assert(entries.push((k, v)).drop_last() =~= entries);
}

impl Clone for Value {
    /// A copy with the same model.
    #[verifier::loop_isolation(false)]
    fn clone(&self) -> (r: Self)
        ensures
            r@ == self@,
        decreases self,
    {
        match self {
            Value::Nil => Value::Nil,
            Value::Bool(b) => Value::Bool(*b),
            Value::Int(i) => Value::Int(*i),
            Value::Str(s) => Value::Str(s.clone()),
            Value::List(items) => {
                let mut copy: Vec<Value> = Vec::new();
                let mut i: usize = 0;
                while i < items.len()
                    invariant
                        0 <= i <= items.len(),
                        items_view(copy@) == items_view(items@.take(i as int)),
                    decreases items.len() - i,
                {
                    let item = items[i].clone();
                    proof {
                        lemma_items_view_push(copy@, item);
                        lemma_items_view_push(items@.take(i as int), items@[i as int]);
                        assert(items@.take(i + 1) =~= items@.take(i as int).push(items@[i as int]));
                    }
                    copy.push(item);
                    i += 1;
                }
                assert(items@.take(i as int) =~= items@);
                Value::List(copy)
            },
            Value::Dict(entries) => {
                let mut copy: Vec<(Value, Value)> = Vec::new();
                let mut i: usize = 0;
                while i < entries.len()
                    invariant
                        0 <= i <= entries.len(),
                        entries_view(copy@) == entries_view(entries@.take(i as int)),
                    decreases entries.len() - i,
                {
                    let key = entries[i].0.clone();
                    let value = entries[i].1.clone();
                    proof {
                        lemma_entries_view_push(copy@, key, value);
                        lemma_entries_view_push(
                            entries@.take(i as int),
                            entries@[i as int].0,
                            entries@[i as int].1,
                        );
                        assert(entries@.take(i + 1) =~= entries@.take(i as int).push(
                            entries@[i as int],
                        ));
                    }
                    copy.push((key, value));
                    i += 1;
                }
                assert(entries@.take(i as int) =~= entries@);
                Value::Dict(copy)
            },
            Value::Other(bytes) => Value::Other(slice_to_vec(bytes.as_slice())),
        }
    }
}

} // verus!
