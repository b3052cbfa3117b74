//! Resolving a reply: the expected value, the failure that the service
//! reported, or neither.
use vstd::prelude::*;
use crate::access::{flag_at, get_flag, get_text, get_texts, text_at, texts_at};
use crate::decoder::decode;
use crate::error::{texts_view, Error, Failure, Fault, Malformed, MsfError};
use crate::shape::{conforms, conforms_to, field, Form, Shape};
use crate::text::same_text;
use crate::value::{
    entries_view, items_view, lemma_entries_view, lemma_items_view_push, Data, Value,
};
use crate::wire::decoding;

verus! {

/// The shape of the error record of the service.
pub open spec fn envelope_form() -> Form {
    Form::Record(
        seq![
            ("error"@, Form::Bool),
            ("error_class"@, Form::Str),
            ("error_string"@, Form::Str),
            ("error_message"@, Form::Str),
            ("error_backtrace"@, Form::List(Box::new(Form::Str))),
        ],
    )
}

/// The error record that a value of that shape holds.
pub open spec fn fault_of(d: Data) -> Fault {
    Fault {
        error: flag_at(d, "error"@)->0,
        error_class: text_at(d, "error_class"@)->0,
        error_string: text_at(d, "error_string"@)->0,
        error_message: text_at(d, "error_message"@)->0,
        error_backtrace: texts_at(d, "error_backtrace"@)->0,
    }
}

/// The error record as the service writes it: a map of its five fields.
pub open spec fn fault_data(f: Fault) -> Data {
    Data::Dict(
        seq![
            (Data::Str("error"@), Data::Bool(f.error)),
            (Data::Str("error_class"@), Data::Str(f.error_class)),
            (Data::Str("error_string"@), Data::Str(f.error_string)),
            (Data::Str("error_message"@), Data::Str(f.error_message)),
            (
                Data::Str("error_backtrace"@),
                Data::List(
                    Seq::new(f.error_backtrace.len(), |i: int| Data::Str(f.error_backtrace[i])),
                ),
            ),
        ],
    )
}

/// Whether a reply with a result field reports something other than success.
pub open spec fn refused(d: Data) -> bool {
    field(d, "result"@) is Some && field(d, "result"@) != Some(Data::Str("success"@))
}

/// The failure that a refused reply reports: its error record where it
/// holds one, else a record with the reported result as its message.
pub open spec fn reported(d: Data) -> Fault {
    if conforms(d, envelope_form()) {
        fault_of(d)
    } else {
        Fault {
            error: true,
            error_class: Seq::empty(),
            error_string: Seq::empty(),
            error_message: match text_at(d, "result"@) {
                Some(cs) => cs,
                None => Seq::empty(),
            },
            error_backtrace: Seq::empty(),
        }
    }
}

/// What bytes decode to where a value of shape `form` is expected: the
/// value, or why the bytes hold no such value.
pub open spec fn typed(bytes: Seq<u8>, form: Form) -> Result<Data, Malformed> {
    match decoding(bytes) {
        Err(e) => Err(Malformed::Bytes(e)),
        Ok(d) => if conforms(d, form) {
            Ok(d)
        } else {
            Err(Malformed::Shape)
        },
    }
}

/// What the bytes of a reply resolve to, for a method that expects a value
/// of shape `form` and, where `flagged`, reports success in a result field.
/// The bytes are first decoded as the expected value; only where that fails
/// are they decoded as an error record; where that fails too, the reply is
/// malformed.
pub open spec fn resolution(bytes: Seq<u8>, form: Form, flagged: bool) -> Result<Data, Failure> {
    match typed(bytes, form) {
        Ok(d) => if flagged && refused(d) {
            Err(Failure::ServerError(reported(d)))
        } else {
            Ok(d)
        },
        Err(_) => match typed(bytes, envelope_form()) {
            Ok(d) => Err(Failure::ServerError(fault_of(d))),
            Err(m) => Err(Failure::ProtocolError(m)),
        },
    }
}

/// An outcome says what a model of it says: a value with the same model,
/// or a failure with the same model.
pub open spec fn answers(r: Result<Value, Error>, model: Result<Data, Failure>) -> bool {
    match model {
        Ok(d) => r is Ok && r->Ok_0@ == d,
        Err(f) => r is Err && r->Err_0@ == f,
    }
}

/// The shape of the error record of the service.
pub fn envelope_shape() -> (r: Shape)
    ensures
        r@ == envelope_form(),
{
    let r = Shape::record().with("error", Shape::Bool).with("error_class", Shape::Str).with(
        "error_string",
        Shape::Str,
    ).with("error_message", Shape::Str).with("error_backtrace", Shape::list_of(Shape::Str));
    assert(r@->Record_0 =~= envelope_form()->Record_0);
    r
}

/// A value of the shape of the error record holds each of its five fields.
pub proof fn lemma_envelope_fields(d: Data)
    requires
        conforms(d, envelope_form()),
    ensures
        flag_at(d, "error"@) is Some,
        text_at(d, "error_class"@) is Some,
        text_at(d, "error_string"@) is Some,
        text_at(d, "error_message"@) is Some,
        texts_at(d, "error_backtrace"@) is Some,
{
    reveal_with_fuel(conforms, 4);
}

/// The error record that a value holds, where it has the shape of one.
pub fn as_envelope(v: &Value) -> (r: Option<MsfError>)
    ensures
        r is Some <==> conforms(v@, envelope_form()),
        r is Some ==> r->0@ == fault_of(v@),
{
    let shape = envelope_shape();
    if !conforms_to(v, &shape) {
        return None;
    }
    proof {
        lemma_envelope_fields(v@);
    }
    match (
        get_flag(v, "error"),
        get_text(v, "error_class"),
        get_text(v, "error_string"),
        get_text(v, "error_message"),
        get_texts(v, "error_backtrace"),
    ) {
        (
            Some(error),
            Some(error_class),
            Some(error_string),
            Some(error_message),
            Some(error_backtrace),
        ) => Some(MsfError { error, error_class, error_string, error_message, error_backtrace }),
        _ => None,
    }
}

/// The failure that a refused reply reports.
pub fn report(v: &Value) -> (r: MsfError)
    ensures
        r@ == reported(v@),
{
    match as_envelope(v) {
        Some(e) => e,
        None => {
            let error_message = match get_text(v, "result") {
                Some(text) => text,
                None => String::new(),
            };
            let error_backtrace: Vec<String> = Vec::new();
            assert(texts_view(error_backtrace@) =~= Seq::empty());
            MsfError {
                error: true,
                error_class: String::new(),
                error_string: String::new(),
                error_message,
                error_backtrace,
            }
        },
    }
}

/// Whether a reply with a result field reports something other than success.
pub fn is_refused(v: &Value) -> (r: bool)
    ensures
        r == refused(v@),
{
    match crate::access::get(v, "result") {
        None => false,
        Some(Value::Str(s)) => !same_text(s.as_str(), "success"),
        Some(_) => true,
    }
}

/// Decodes bytes where a value of shape `shape` is expected.
pub fn decode_as(bytes: &[u8], shape: &Shape) -> (r: Result<Value, Malformed>)
    ensures
        match typed(bytes@, shape@) {
            Ok(d) => r is Ok && r->Ok_0@ == d,
            Err(m) => r == Err::<Value, Malformed>(m),
        },
{
    match decode(bytes) {
        Err(e) => Err(Malformed::Bytes(e)),
        Ok(v) => if conforms_to(&v, shape) {
            Ok(v)
        } else {
            Err(Malformed::Shape)
        },
    }
}

/// Resolves the bytes of a reply: the expected value; else the failure that
/// the service reported; else the fault in the reply itself.
pub fn resolve_bytes(bytes: &[u8], shape: &Shape, flagged: bool) -> (r: Result<Value, Error>)
    ensures
        answers(r, resolution(bytes@, shape@, flagged)),
{
    match decode(bytes) {
        Err(e) => Err(Error::ProtocolError(Malformed::Bytes(e))),
        Ok(v) => {
            if conforms_to(&v, shape) {
                if flagged && is_refused(&v) {
                    Err(Error::ServerError(report(&v)))
                } else {
                    Ok(v)
                }
            } else {
                match as_envelope(&v) {
                    Some(e) => Err(Error::ServerError(e)),
                    None => Err(Error::ProtocolError(Malformed::Shape)),
                }
            }
        },
    }
}

/// The error record as the service writes it: a map of its five fields.
pub fn envelope_value(e: &MsfError) -> (r: Value)
    ensures
        r@ == fault_data(e@),
{
    let mut trace: Vec<Value> = Vec::new();
    let mut i: usize = 0;
    while i < e.error_backtrace.len()
        invariant
            0 <= i <= e.error_backtrace.len(),
            items_view(trace@).len() == i,
            forall|j: int|
                0 <= j < i ==> (#[trigger] items_view(trace@)[j]) == Data::Str(
                    e.error_backtrace@[j]@,
                ),
        decreases e.error_backtrace.len() - i,
    {
        let line = Value::Str(e.error_backtrace[i].clone());
        proof {
            lemma_items_view_push(trace@, line);
        }
        trace.push(line);
        i += 1;
    }
    assert(items_view(trace@) =~= fault_data(e@)->Dict_0[4].1->List_0);
    let mut entries: Vec<(Value, Value)> = Vec::new();
    entries.push((Value::Str("error".to_owned()), Value::Bool(e.error)));
    entries.push((Value::Str("error_class".to_owned()), Value::Str(e.error_class.clone())));
    entries.push((Value::Str("error_string".to_owned()), Value::Str(e.error_string.clone())));
    entries.push((Value::Str("error_message".to_owned()), Value::Str(e.error_message.clone())));
    entries.push((Value::Str("error_backtrace".to_owned()), Value::List(trace)));
    proof {
        lemma_entries_view(entries@);
        assert(entries_view(entries@) =~= fault_data(e@)->Dict_0);
    }
    Value::Dict(entries)
}

} // verus!
