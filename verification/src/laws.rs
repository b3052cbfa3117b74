//! What holds of every call: laws of the pipeline, each proved from the
//! definitions that the contracts use.
use vstd::prelude::*;
use crate::access::{repeated, settled, settled_upto, texts_at};
use crate::catalog::Method;
use crate::client::Session;
use crate::error::{ConnectionError, Failure, Fault, Malformed, Violation};
use crate::pipeline::{envelope, is_request, outcome_of, request_of};
use crate::resolver::{envelope_form, fault_data, fault_of, refused, resolution, typed};
use crate::roundtrip::law_decoding_inverts_encoding;
use crate::shape::{conforms, field, position, Form};
use crate::value::Data;
use crate::wire::{decoding, encoding, fits, DecodeError, MAX_DEPTH};

verus! {

/// Round trip of a request: the bytes of a request that can be built decode
/// to the list of the method's name, the token where the method needs one,
/// and the arguments, in that order.
pub proof fn law_request_round_trip(session: Session, method: Method, args: Seq<Data>)
    requires
        request_of(session, method, args) is Ok,
    ensures
        decoding(request_of(session, method, args)->Ok_0) == Ok::<Data, DecodeError>(
            envelope(method, session.token, args),
        ),
{
    law_decoding_inverts_encoding(envelope(method, session.token, args));
}

/// What a transport is handed is one value of the wire format: a list
/// whose first item is a string.
pub proof fn law_request_is_an_envelope(bytes: Seq<u8>)
    requires
        is_request(bytes),
    ensures
        decoding(bytes) is Ok,
        decoding(bytes)->Ok_0 is List,
        decoding(bytes)->Ok_0->List_0.len() >= 1,
        decoding(bytes)->Ok_0->List_0[0] is Str,
{
    let (session, method, args) = choose|session: Session, method: Method, args: Seq<Data>|
        #[trigger] request_of(session, method, args) == Ok::<Seq<u8>, Failure>(bytes);
    law_request_round_trip(session, method, args);
}

/// Discrimination: a reply that decodes as the expected value, and does
/// not report a refusal where the method checks for one, resolves to that
/// value, whatever decoding it as an error record would give.
pub proof fn law_success_first(bytes: Seq<u8>, form: Form, flagged: bool)
    requires
        typed(bytes, form) is Ok,
        !(flagged && refused(typed(bytes, form)->Ok_0)),
    ensures
        resolution(bytes, form, flagged) == Ok::<Data, Failure>(typed(bytes, form)->Ok_0),
        typed(bytes, form)->Ok_0 == decoding(bytes)->Ok_0,
{
}

/// Error fallback: a reply that does not decode as the expected value and
/// decodes as an error record resolves to the failure that the record
/// reports, and each field of the failure is the field of that name in the
/// reply.
pub proof fn law_error_fallback(bytes: Seq<u8>, form: Form, flagged: bool)
    requires
        typed(bytes, form) is Err,
        typed(bytes, envelope_form()) is Ok,
    ensures
        resolution(bytes, form, flagged) == Err::<Data, Failure>(
            Failure::ServerError(fault_of(decoding(bytes)->Ok_0)),
        ),
        ({
            let d = decoding(bytes)->Ok_0;
            let fault = fault_of(d);
            &&& field(d, "error"@) == Some(Data::Bool(fault.error))
            &&& field(d, "error_class"@) == Some(Data::Str(fault.error_class))
            &&& field(d, "error_string"@) == Some(Data::Str(fault.error_string))
            &&& field(d, "error_message"@) == Some(Data::Str(fault.error_message))
            &&& field(d, "error_backtrace"@) is Some
            &&& field(d, "error_backtrace"@)->0 is List
            &&& field(d, "error_backtrace"@)->0->List_0.len() == fault.error_backtrace.len()
            &&& forall|i: int|
                0 <= i < fault.error_backtrace.len() ==> field(d, "error_backtrace"@)->0->List_0[i]
                    == Data::Str(#[trigger] fault.error_backtrace[i])
        }),
{
    crate::resolver::lemma_envelope_fields(decoding(bytes)->Ok_0);
}

/// Malformed reply: bytes that decode neither as the expected value nor as
/// an error record resolve to a protocol error, never to a value: to the
/// fault in the bytes where they are no value at all, else to the fault in
/// the shape.
pub proof fn law_malformed_reply(bytes: Seq<u8>, form: Form, flagged: bool)
    requires
        typed(bytes, form) is Err,
        typed(bytes, envelope_form()) is Err,
    ensures
        resolution(bytes, form, flagged) == Err::<Data, Failure>(
            Failure::ProtocolError(
                match decoding(bytes) {
                    Err(e) => Malformed::Bytes(e),
                    Ok(_) => Malformed::Shape,
                },
            ),
        ),
{
}

/// Exactly one of the three: every reply resolves to a value, to a server
/// error, or to a protocol error, and to a value only where it decodes as
/// the expected one.
pub proof fn law_reply_is_resolved(bytes: Seq<u8>, form: Form, flagged: bool)
    ensures
        resolution(bytes, form, flagged) is Ok ==> typed(bytes, form) is Ok,
        resolution(bytes, form, flagged) is Err ==> resolution(bytes, form, flagged)->Err_0
            is ServerError || resolution(bytes, form, flagged)->Err_0 is ProtocolError,
{
}

/// Missing token: for a method that needs a token, a session without one
/// gives no request, whatever the arguments are.
pub proof fn law_missing_token(session: Session, method: Method, args: Seq<Data>)
    requires
        method.token_needed(),
        session.token is None,
    ensures
        request_of(session, method, args) == Err::<Seq<u8>, Failure>(
            Failure::InvalidState(Violation::MissingToken),
        ),
{
}

/// Connection failure: whatever the method, a failed exchange comes back as
/// that connection error.
pub proof fn law_connection_failure(method: Method, e: ConnectionError)
    ensures
        outcome_of(method, Err(e)) == Err::<Data, Failure>(Failure::ConnectionError(e)),
{
}

/// The names of the five fields of an error record differ from each other.
proof fn lemma_field_names_differ()
    ensures
        "error"@ != "error_class"@,
        "error"@ != "error_string"@,
        "error"@ != "error_message"@,
        "error"@ != "error_backtrace"@,
        "error_class"@ != "error_string"@,
        "error_class"@ != "error_message"@,
        "error_class"@ != "error_backtrace"@,
        "error_string"@ != "error_message"@,
        "error_string"@ != "error_backtrace"@,
        "error_message"@ != "error_backtrace"@,
{
    reveal_strlit("error");
    reveal_strlit("error_class");
    reveal_strlit("error_string");
    reveal_strlit("error_message");
    reveal_strlit("error_backtrace");
    assert("error"@.len() == 5);
    assert("error_class"@.len() == 11);
    assert("error_string"@.len() == 12);
    assert("error_message"@.len() == 13);
    assert("error_backtrace"@.len() == 15);
}

/// No field is lost: an error record, written as a map of its five fields,
/// has the shape of an error record and is read back as it was.
pub proof fn law_fault_read_back(f: Fault)
    ensures
        conforms(fault_data(f), envelope_form()),
        fault_of(fault_data(f)) == f,
{
    lemma_field_names_differ();
    reveal_with_fuel(position, 6);
    reveal_with_fuel(conforms, 4);
    assert(texts_at(fault_data(f), "error_backtrace"@)->0 =~= f.error_backtrace);
}

/// No field is lost on the wire: the bytes of an error record resolve to
/// that record as a server error, for every method whose reply it is not.
pub proof fn law_fault_resolves(f: Fault, form: Form, flagged: bool)
    requires
        fits(fault_data(f), MAX_DEPTH as nat),
        !conforms(fault_data(f), form),
    ensures
        resolution(encoding(fault_data(f)), form, flagged) == Err::<Data, Failure>(
            Failure::ServerError(f),
        ),
{
    law_decoding_inverts_encoding(fault_data(f));
    law_fault_read_back(f);
}

/// The wire format is unambiguous: two values that can be written and have
/// the same bytes are the same value.
pub proof fn law_encoding_is_injective(a: Data, b: Data)
    requires
        fits(a, MAX_DEPTH as nat),
        fits(b, MAX_DEPTH as nat),
        encoding(a) == encoding(b),
    ensures
        a == b,
{
    law_decoding_inverts_encoding(a);
    law_decoding_inverts_encoding(b);
}

/// A reply that has the shape of a record can be read field by field: each
/// field that the shape names is there, as a string, an integer, a boolean
/// or a list of strings where the shape says so.
pub proof fn law_record_is_readable(d: Data, fields: Seq<(Seq<char>, Form)>, j: int)
    requires
        conforms(d, Form::Record(fields)),
        0 <= j < fields.len(),
    ensures
        field(d, fields[j].0) is Some,
        fields[j].1 == Form::Str ==> crate::access::text_at(d, fields[j].0) is Some,
        fields[j].1 == Form::Int ==> crate::access::int_at(d, fields[j].0) is Some,
        fields[j].1 == Form::Bool ==> crate::access::flag_at(d, fields[j].0) is Some,
        fields[j].1 == crate::catalog::strings() ==> texts_at(d, fields[j].0) is Some,
{
    reveal_with_fuel(conforms, 3);
}

/// A reply that has the shape of a list of strings, or of a map from
/// strings to strings, can be read as one.
pub proof fn law_plain_reply_is_readable(d: Data)
    ensures
        conforms(d, crate::catalog::strings()) ==> crate::access::texts(d) is Some,
        conforms(d, Form::Dict(Box::new(Form::Str), Box::new(Form::Str)))
            ==> crate::access::pairs(d) is Some,
{
    if conforms(d, crate::catalog::strings()) {
        assert forall|i: int| 0 <= i < d->List_0.len() implies (#[trigger] d->List_0[i]) is Str by {
            assert(conforms(d->List_0[i], Form::Str));
        }
    }
    if conforms(d, Form::Dict(Box::new(Form::Str), Box::new(Form::Str))) {
        assert forall|i: int| 0 <= i < d->Dict_0.len() implies (#[trigger] d->Dict_0[i]).0 is Str
            && d->Dict_0[i].1 is Str by {
            assert(conforms(d->Dict_0[i].0, Form::Str));
            assert(conforms(d->Dict_0[i].1, Form::Str));
        }
    }
}

/// Whether `e` is an entry among the first `n` whose key does not occur
/// again later.
pub open spec fn stays(ps: Seq<(Seq<char>, Seq<char>)>, n: nat, e: (Seq<char>, Seq<char>)) -> bool {
    exists|k: int| 0 <= k < n && !repeated(ps, k) && #[trigger] ps[k] == e
}

proof fn lemma_settled(ps: Seq<(Seq<char>, Seq<char>)>, n: nat)
    requires
        n <= ps.len(),
    ensures
        forall|i: int|
            0 <= i < settled_upto(ps, n).len() ==> stays(ps, n, #[trigger] settled_upto(ps, n)[i]),
        forall|i: int, j: int|
            0 <= i < j < settled_upto(ps, n).len() ==> (#[trigger] settled_upto(ps, n)[i]).0 != (
            #[trigger] settled_upto(ps, n)[j]).0,
    decreases n,
{
    if n > 0 {
        let m = (n - 1) as nat;
        lemma_settled(ps, m);
        let before = settled_upto(ps, m);
        let now = settled_upto(ps, n);
        assert forall|i: int| 0 <= i < before.len() implies stays(ps, n, #[trigger] before[i]) by {
            assert(stays(ps, m, before[i]));
            let k = choose|k: int| 0 <= k < m && !repeated(ps, k) && #[trigger] ps[k] == before[i];
            assert(0 <= k < n && !repeated(ps, k) && ps[k] == before[i]);
        }
        if !repeated(ps, n - 1) {
            assert(stays(ps, n, ps[n - 1]));
            assert forall|i: int| 0 <= i < before.len() implies (#[trigger] before[i]).0 != ps[n
                - 1].0 by {
                let k = choose|k: int|
                    0 <= k < m && !repeated(ps, k) && #[trigger] ps[k] == before[i];
                if ps[k].0 == ps[n - 1].0 {
                    assert(ps[n - 1].0 == ps[k].0);
                    assert(repeated(ps, k));
                }
            }
        }
    }
}

/// Settled entries are a map: no key occurs twice, and every entry is an
/// entry that was given and whose key was not given again later.
pub proof fn law_settled_is_a_map(ps: Seq<(Seq<char>, Seq<char>)>)
    ensures
        forall|i: int, j: int|
            0 <= i < j < settled(ps).len() ==> (#[trigger] settled(ps)[i]).0 != (
            #[trigger] settled(ps)[j]).0,
        forall|i: int|
            0 <= i < settled(ps).len() ==> stays(ps, ps.len(), #[trigger] settled(ps)[i]),
{
    lemma_settled(ps, ps.len());
}

} // verus!
