//! Shapes: what a value must look like to count as an argument or as the
//! successful reply of a method.
use vstd::prelude::*;
use crate::text::same_text;
use crate::value::{entries_view, lemma_entries_view, lemma_items_view, Data, Value};

verus! {

/// Mathematical model of a shape.
pub ghost enum Form {
    Any,
    Bool,
    Int,
    Str,
    List(Box<Form>),
    Dict(Box<Form>, Box<Form>),
    Record(Seq<(Seq<char>, Form)>),
}

/// A shape of values.
#[derive(Debug, PartialEq, Eq)]
pub enum Shape {
    /// Every value.
    Any,
    /// A boolean.
    Bool,
    /// An integer.
    Int,
    /// A string.
    Str,
    /// A list whose items all have the inner shape.
    List(Box<Shape>),
    /// A map whose keys all have the first shape and whose values all have
    /// the second.
    Dict(Box<Shape>, Box<Shape>),
    /// A map that has each of the named fields, with a value of the field's
    /// shape; other entries are ignored.
    Record(Vec<(String, Shape)>),
}

/// The models of the fields of a record shape, in order.
pub open spec fn fields_view(fields: Seq<(String, Shape)>) -> Seq<(Seq<char>, Form)>
    decreases fields,
{
    if fields.len() == 0 {
        Seq::empty()
    } else {
        fields_view(fields.drop_last()).push((fields.last().0@, form_of(fields.last().1)))
    }
}

/// The model of a shape.
pub open spec fn form_of(s: Shape) -> Form
    decreases s,
{
    match s {
        Shape::Any => Form::Any,
        Shape::Bool => Form::Bool,
        Shape::Int => Form::Int,
        Shape::Str => Form::Str,
        Shape::List(inner) => Form::List(Box::new(form_of(*inner))),
        Shape::Dict(key, inner) => Form::Dict(Box::new(form_of(*key)), Box::new(form_of(*inner))),
        Shape::Record(fields) => Form::Record(fields_view(fields@)),
    }
}

impl View for Shape {
    type V = Form;

    open spec fn view(&self) -> Form {
        form_of(*self)
    }
}

/// The model of a record shape has one field for each field, in order.
pub proof fn lemma_fields_view(fields: Seq<(String, Shape)>)
    ensures
        fields_view(fields).len() == fields.len(),
        forall|i: int|
            0 <= i < fields.len() ==> (#[trigger] fields_view(fields)[i]) == (
                fields[i].0@,
                fields[i].1@,
            ),
    decreases fields.len(),
{
    if fields.len() > 0 {
        lemma_fields_view(fields.drop_last());
    }
}

/// The position of the first entry from `from` on whose key is the string
/// `name`, or the number of entries where none is.
pub open spec fn position(entries: Seq<(Data, Data)>, name: Seq<char>, from: int) -> int
    decreases entries.len() - from,
{
    if from < 0 || from >= entries.len() {
        entries.len() as int
    } else if entries[from].0 == Data::Str(name) {
        from
    } else {
        position(entries, name, from + 1)
    }
}

/// The value of the first entry whose key is the string `name`.
pub open spec fn lookup(entries: Seq<(Data, Data)>, name: Seq<char>) -> Option<Data> {
    let at = position(entries, name, 0);
    if at < entries.len() {
        Some(entries[at].1)
    } else {
        None
    }
}

/// The value of field `name` of a map; `None` for other values and for maps
/// without that key.
pub open spec fn field(d: Data, name: Seq<char>) -> Option<Data> {
    match d {
        Data::Dict(entries) => lookup(entries, name),
        _ => None,
    }
}

/// Whether a value has a shape.
pub open spec fn conforms(d: Data, f: Form) -> bool
    decreases f,
{
    match f {
        Form::Any => true,
        Form::Bool => d is Bool,
        Form::Int => d is Int,
        Form::Str => d is Str,
        Form::List(inner) => d is List && forall|i: int|
            0 <= i < d->List_0.len() ==> conforms(#[trigger] d->List_0[i], *inner),
        Form::Dict(key, inner) => d is Dict && forall|i: int|
            0 <= i < d->Dict_0.len() ==> conforms((#[trigger] d->Dict_0[i]).0, *key) && conforms(
                d->Dict_0[i].1,
                *inner,
            ),
        Form::Record(fields) => d is Dict && forall|j: int|
            0 <= j < fields.len() ==> match field(d, (#[trigger] fields[j]).0) {
                Some(x) => conforms(x, fields[j].1),
                None => false,
            },
    }
}

/// The position of the first entry whose key is the string `name`, or the
/// number of entries where none is.
pub fn position_of(entries: &Vec<(Value, Value)>, name: &str) -> (r: usize)
    ensures
        r == position(entries_view(entries@), name@, 0),
        r <= entries.len(),
{
    let ghost model = entries_view(entries@);
    proof {
        lemma_entries_view(entries@);
    }
    let mut i: usize = 0;
    while i < entries.len()
        invariant
            0 <= i <= entries.len(),
            model == entries_view(entries@),
            model.len() == entries.len(),
            forall|j: int|
                0 <= j < model.len() ==> (#[trigger] model[j]) == (entries@[j].0@, entries@[j].1@),
            position(model, name@, 0) == position(model, name@, i as int),
        decreases entries.len() - i,
    {
        let hit = match &entries[i].0 {
            Value::Str(key) => same_text(key.as_str(), name),
            _ => false,
        };
        if hit {
            return i;
        }
        i += 1;
    }
    i
}

/// The value of the first entry whose key is the string `name`.
pub fn find<'a>(entries: &'a Vec<(Value, Value)>, name: &str) -> (r: Option<&'a Value>)
    ensures
        match lookup(entries_view(entries@), name@) {
            Some(d) => r is Some && r->0@ == d,
            None => r is None,
        },
{
    proof {
        lemma_entries_view(entries@);
    }
    let at = position_of(entries, name);
    if at < entries.len() {
        Some(&entries[at].1)
    } else {
        None
    }
}

/// Whether a value has a shape.
#[verifier::loop_isolation(false)]
pub fn conforms_to(v: &Value, s: &Shape) -> (r: bool)
    ensures
        r == conforms(v@, s@),
    decreases s,
{
    match s {
        Shape::Any => true,
        Shape::Bool => match v {
            Value::Bool(_) => true,
            _ => false,
        },
        Shape::Int => match v {
            Value::Int(_) => true,
            _ => false,
        },
        Shape::Str => match v {
            Value::Str(_) => true,
            _ => false,
        },
        Shape::List(inner) => match v {
            Value::List(items) => {
                proof {
                    lemma_items_view(items@);
                }
                let mut i: usize = 0;
                while i < items.len()
                    invariant
                        0 <= i <= items.len(),
                        forall|j: int| 0 <= j < i ==> conforms(#[trigger] items@[j]@, inner@),
                    decreases items.len() - i,
                {
                    if !conforms_to(&items[i], inner) {
                        assert(!conforms(v@->List_0[i as int], inner@));
                        return false;
                    }
                    i += 1;
                }
                true
            },
            _ => false,
        },
        Shape::Dict(key, inner) => match v {
            Value::Dict(entries) => {
                proof {
                    lemma_entries_view(entries@);
                }
                let mut i: usize = 0;
                while i < entries.len()
                    invariant
                        0 <= i <= entries.len(),
                        forall|j: int|
                            0 <= j < i ==> conforms((#[trigger] entries@[j]).0@, key@) && conforms(
                                entries@[j].1@,
                                inner@,
                            ),
                    decreases entries.len() - i,
                {
                    if !conforms_to(&entries[i].0, key) || !conforms_to(&entries[i].1, inner) {
                        assert(entries_view(entries@)[i as int] == (
                            entries@[i as int].0@,
                            entries@[i as int].1@,
                        ));
                        return false;
                    }
                    i += 1;
                }
                true
            },
            _ => false,
        },
        Shape::Record(fields) => match v {
            Value::Dict(entries) => {
                proof {
                    lemma_fields_view(fields@);
                }
                let mut j: usize = 0;
                while j < fields.len()
                    invariant
                        0 <= j <= fields.len(),
                        forall|k: int|
                            0 <= k < j ==> match field(v@, (#[trigger] fields@[k]).0@) {
                                Some(x) => conforms(x, fields@[k].1@),
                                None => false,
                            },
                    decreases fields.len() - j,
                {
                    let present = match find(entries, fields[j].0.as_str()) {
                        Some(x) => conforms_to(x, &fields[j].1),
                        None => false,
                    };
                    if !present {
                        assert(fields_view(fields@)[j as int] == (
                            fields@[j as int].0@,
                            fields@[j as int].1@,
                        ));
                        return false;
                    }
                    j += 1;
                }
                true
            },
            _ => false,
        },
    }
}

/// Adding a field to a record shape adds its model to the model.
pub proof fn lemma_fields_view_push(fields: Seq<(String, Shape)>, name: String, shape: Shape)
    ensures
        fields_view(fields.push((name, shape))) == fields_view(fields).push((name@, shape@)),
{
    assert(fields.push((name, shape)).drop_last() =~= fields);
}

impl Shape {
    /// The shape of lists whose items have shape `inner`.
    pub fn list_of(inner: Shape) -> (r: Shape)
        ensures
            r@ == Form::List(Box::new(inner@)),
    {
        Shape::List(Box::new(inner))
    }

    /// The shape of maps whose keys have shape `key` and whose values have
    /// shape `inner`.
    pub fn dict_of(key: Shape, inner: Shape) -> (r: Shape)
        ensures
            r@ == Form::Dict(Box::new(key@), Box::new(inner@)),
    {
        Shape::Dict(Box::new(key), Box::new(inner))
    }

    /// The record shape without fields: every map.
    pub fn record() -> (r: Shape)
        ensures
            r@ == Form::Record(Seq::empty()),
    {
        let fields: Vec<(String, Shape)> = Vec::new();
        assert(fields_view(fields@) =~= Seq::empty());
        Shape::Record(fields)
    }

    /// A record shape with one more field; other shapes stay as they are.
    pub fn with(self, name: &str, shape: Shape) -> (r: Shape)
        ensures
            r@ == match self@ {
                Form::Record(fields) => Form::Record(fields.push((name@, shape@))),
                other => other,
            },
    {
        match self {
            Shape::Record(mut fields) => {
                let owned = name.to_owned();
                proof {
                    lemma_fields_view_push(fields@, owned, shape);
                }
                fields.push((owned, shape));
                Shape::Record(fields)
            },
            other => other,
        }
    }
}

} // verus!
