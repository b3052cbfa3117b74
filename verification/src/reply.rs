//! Calls with typed arguments and typed replies.
use vstd::prelude::*;
use crate::access::{
    get_int, get_text, get_texts, int_at, pairs, pairs_view, settle, settled, take, text_at,
    texts, texts_at, to_pairs, to_texts,
};
use crate::catalog::Method;
use crate::client::{Client, Session};
use crate::error::{texts_view, ConnectionError, Error, Failure, Malformed};
use crate::number::{number32, parse_number};
use crate::pipeline::{call, outcome_of, request_of, Exchange, Transport};
use crate::resolver::answers;
use crate::shape::field;
use crate::value::{
    entries_view, items_view, lemma_entries_view_push, lemma_items_view, Data, Value,
};

verus! {

/// The failure of a reply that lacks the part that the caller reads.
pub open spec fn unreadable() -> Failure {
    Failure::ProtocolError(Malformed::Shape)
}

/// A call that succeeds or fails: it succeeds with `true`.
pub open spec fn flag_reply(raw: Result<Data, Failure>) -> Result<bool, Failure> {
    match raw {
        Ok(_) => Ok(true),
        Err(f) => Err(f),
    }
}

/// The value in field `name` of the reply.
pub open spec fn part_reply(raw: Result<Data, Failure>, name: Seq<char>) -> Result<Data, Failure> {
    match raw {
        Ok(d) => match field(d, name) {
            Some(x) => Ok(x),
            None => Err(unreadable()),
        },
        Err(f) => Err(f),
    }
}

/// The string in field `name` of the reply.
pub open spec fn text_reply(raw: Result<Data, Failure>, name: Seq<char>) -> Result<
    Seq<char>,
    Failure,
> {
    match raw {
        Ok(d) => match text_at(d, name) {
            Some(cs) => Ok(cs),
            None => Err(unreadable()),
        },
        Err(f) => Err(f),
    }
}

/// The integer in field `name` of the reply.
pub open spec fn int_reply(raw: Result<Data, Failure>, name: Seq<char>) -> Result<i64, Failure> {
    match raw {
        Ok(d) => match int_at(d, name) {
            Some(i) => Ok(i),
            None => Err(unreadable()),
        },
        Err(f) => Err(f),
    }
}

/// The number that the string in field `name` of the reply writes in
/// decimal.
pub open spec fn count_reply(raw: Result<Data, Failure>, name: Seq<char>) -> Result<i32, Failure> {
    match raw {
        Ok(d) => match text_at(d, name) {
            Some(cs) => match number32(cs) {
                Some(n) => Ok(n),
                None => Err(unreadable()),
            },
            None => Err(unreadable()),
        },
        Err(f) => Err(f),
    }
}

/// The strings of the list in field `name` of the reply.
pub open spec fn texts_reply(raw: Result<Data, Failure>, name: Seq<char>) -> Result<
    Seq<Seq<char>>,
    Failure,
> {
    match raw {
        Ok(d) => match texts_at(d, name) {
            Some(ts) => Ok(ts),
            None => Err(unreadable()),
        },
        Err(f) => Err(f),
    }
}

/// The strings of a reply that is a list of strings.
pub open spec fn names_reply(raw: Result<Data, Failure>) -> Result<Seq<Seq<char>>, Failure> {
    match raw {
        Ok(d) => match texts(d) {
            Some(ts) => Ok(ts),
            None => Err(unreadable()),
        },
        Err(f) => Err(f),
    }
}

/// The entries of a reply that is a map from strings to strings.
pub open spec fn pairs_reply(raw: Result<Data, Failure>) -> Result<
    Seq<(Seq<char>, Seq<char>)>,
    Failure,
> {
    match raw {
        Ok(d) => match pairs(d) {
            Some(ps) => Ok(ps),
            None => Err(unreadable()),
        },
        Err(f) => Err(f),
    }
}

/// The report of a check that was started: that it succeeded, and the id
/// of the job that makes the check, which is the string in field `job_id`
/// of the reply.
pub open spec fn checked_reply(raw: Result<Data, Failure>) -> Result<
    Seq<(Seq<char>, Seq<char>)>,
    Failure,
> {
    match raw {
        Ok(d) => match text_at(d, "job_id"@) {
            Some(job) => Ok(seq![("result"@, "success"@), ("job_id"@, job)]),
            None => Err(unreadable()),
        },
        Err(f) => Err(f),
    }
}

/// The model of an outcome.
pub open spec fn raw_view(raw: Result<Value, Error>) -> Result<Data, Failure> {
    match raw {
        Ok(v) => Ok(v@),
        Err(e) => Err(e@),
    }
}

/// A boolean outcome says what its model says.
pub open spec fn says_flag(r: Result<bool, Error>, model: Result<bool, Failure>) -> bool {
    match model {
        Ok(b) => r is Ok && r->Ok_0 == b,
        Err(f) => r is Err && r->Err_0@ == f,
    }
}

/// An integer outcome says what its model says.
pub open spec fn says_int(r: Result<i64, Error>, model: Result<i64, Failure>) -> bool {
    match model {
        Ok(i) => r is Ok && r->Ok_0 == i,
        Err(f) => r is Err && r->Err_0@ == f,
    }
}

/// An outcome that is a number of 32 bits says what its model says.
pub open spec fn says_count(r: Result<i32, Error>, model: Result<i32, Failure>) -> bool {
    match model {
        Ok(n) => r is Ok && r->Ok_0 == n,
        Err(f) => r is Err && r->Err_0@ == f,
    }
}

/// A string outcome says what its model says.
pub open spec fn says_text(r: Result<String, Error>, model: Result<Seq<char>, Failure>) -> bool {
    match model {
        Ok(cs) => r is Ok && r->Ok_0@ == cs,
        Err(f) => r is Err && r->Err_0@ == f,
    }
}

/// An outcome that is a list of strings says what its model says.
pub open spec fn says_texts(
    r: Result<Vec<String>, Error>,
    model: Result<Seq<Seq<char>>, Failure>,
) -> bool {
    match model {
        Ok(ts) => r is Ok && texts_view(r->Ok_0@) == ts,
        Err(f) => r is Err && r->Err_0@ == f,
    }
}

/// An outcome that is a list of pairs of strings says what its model says.
pub open spec fn says_pairs(
    r: Result<Vec<(String, String)>, Error>,
    model: Result<Seq<(Seq<char>, Seq<char>)>, Failure>,
) -> bool {
    match model {
        Ok(ps) => r is Ok && pairs_view(r->Ok_0@) == ps,
        Err(f) => r is Err && r->Err_0@ == f,
    }
}

/// Reads an outcome as success or failure.
pub fn as_flag(raw: Result<Value, Error>) -> (r: Result<bool, Error>)
    ensures
        says_flag(r, flag_reply(raw_view(raw))),
{
    match raw {
        Ok(_) => Ok(true),
        Err(e) => Err(e),
    }
}

/// Takes the value in field `name` out of an outcome.
pub fn as_part(raw: Result<Value, Error>, name: &str) -> (r: Result<Value, Error>)
    ensures
        answers(r, part_reply(raw_view(raw), name@)),
{
    match raw {
        Ok(v) => match take(v, name) {
            Some(x) => Ok(x),
            None => Err(Error::ProtocolError(Malformed::Shape)),
        },
        Err(e) => Err(e),
    }
}

/// Reads the string in field `name` of an outcome.
pub fn as_text(raw: Result<Value, Error>, name: &str) -> (r: Result<String, Error>)
    ensures
        says_text(r, text_reply(raw_view(raw), name@)),
{
    match raw {
        Ok(v) => match get_text(&v, name) {
            Some(text) => Ok(text),
            None => Err(Error::ProtocolError(Malformed::Shape)),
        },
        Err(e) => Err(e),
    }
}

/// Reads the integer in field `name` of an outcome.
pub fn as_int(raw: Result<Value, Error>, name: &str) -> (r: Result<i64, Error>)
    ensures
        says_int(r, int_reply(raw_view(raw), name@)),
{
    match raw {
        Ok(v) => match get_int(&v, name) {
            Some(i) => Ok(i),
            None => Err(Error::ProtocolError(Malformed::Shape)),
        },
        Err(e) => Err(e),
    }
}

/// Reads the number that the string in field `name` of an outcome writes
/// in decimal.
pub fn as_count(raw: Result<Value, Error>, name: &str) -> (r: Result<i32, Error>)
    ensures
        says_count(r, count_reply(raw_view(raw), name@)),
{
    match raw {
        Ok(v) => match get_text(&v, name) {
            Some(text) => match parse_number(text.as_str()) {
                Some(n) => Ok(n),
                None => Err(Error::ProtocolError(Malformed::Shape)),
            },
            None => Err(Error::ProtocolError(Malformed::Shape)),
        },
        Err(e) => Err(e),
    }
}

/// Reads the list of strings in field `name` of an outcome.
pub fn as_texts(raw: Result<Value, Error>, name: &str) -> (r: Result<Vec<String>, Error>)
    ensures
        says_texts(r, texts_reply(raw_view(raw), name@)),
{
    match raw {
        Ok(v) => match get_texts(&v, name) {
            Some(ts) => Ok(ts),
            None => Err(Error::ProtocolError(Malformed::Shape)),
        },
        Err(e) => Err(e),
    }
}

/// Reads an outcome that is a list of strings.
pub fn as_names(raw: Result<Value, Error>) -> (r: Result<Vec<String>, Error>)
    ensures
        says_texts(r, names_reply(raw_view(raw))),
{
    match raw {
        Ok(v) => match to_texts(&v) {
            Some(ts) => Ok(ts),
            None => Err(Error::ProtocolError(Malformed::Shape)),
        },
        Err(e) => Err(e),
    }
}

/// Reads an outcome as the report of a check that was started.
pub fn as_checked(raw: Result<Value, Error>) -> (r: Result<Vec<(String, String)>, Error>)
    ensures
        says_pairs(r, checked_reply(raw_view(raw))),
{
    match raw {
        Ok(v) => match get_text(&v, "job_id") {
            Some(job) => {
                let mut report: Vec<(String, String)> = Vec::new();
                report.push(("result".to_owned(), "success".to_owned()));
                report.push(("job_id".to_owned(), job));
                assert(pairs_view(report@) =~= seq![("result"@, "success"@), ("job_id"@, job@)]);
                Ok(report)
            },
            None => Err(Error::ProtocolError(Malformed::Shape)),
        },
        Err(e) => Err(e),
    }
}

/// Reads an outcome that is a map from strings to strings.
pub fn as_pairs(raw: Result<Value, Error>) -> (r: Result<Vec<(String, String)>, Error>)
    ensures
        says_pairs(r, pairs_reply(raw_view(raw))),
{
    match raw {
        Ok(v) => match to_pairs(&v) {
            Some(ps) => Ok(ps),
            None => Err(Error::ProtocolError(Malformed::Shape)),
        },
        Err(e) => Err(e),
    }
}

/// What a call that succeeds or fails returns and does. Where no request can be
/// built: the rule that the caller broke, with the transport left as it was and
/// no exchange made. Else exactly one exchange is made, of the request with the
/// address of the session, and the result is what the answer of that exchange
/// resolves to, read as that result.
pub open spec fn flag_call(
    session: Session,
    method: Method,
    args: Seq<Data>,
    r: Result<bool, Error>,
    untouched: bool,
    before: Seq<Exchange>,
    after: Seq<Exchange>,
) -> bool {
    match request_of(session, method, args) {
        Err(f) => r is Err && r->Err_0@ == f && untouched && after == before,
        Ok(bytes) => exists|reply: Result<Seq<u8>, ConnectionError>|
            after == before.push((session.url, bytes, reply)) && says_flag(
                r,
                flag_reply(#[trigger] outcome_of(method, reply)),
            ),
    }
}

/// Makes a call that succeeds or fails.
pub fn call_flag<T: Transport>(
    client: &Client,
    conn: &mut T,
    method: Method,
    args: Vec<Value>,
) -> (r: Result<bool, Error>)
    ensures
        flag_call(
            client@,
            method,
            items_view(args@),
            r,
            *final(conn) == *old(conn),
            old(conn).exchanges(),
            final(conn).exchanges(),
        ),
{
    as_flag(call(client, conn, method, args))
}

/// What a call whose result is one field of the reply returns and does. Where
/// no request can be built: the rule that the caller broke, with the transport
/// left as it was and no exchange made. Else exactly one exchange is made, of
/// the request with the address of the session, and the result is what the
/// answer of that exchange resolves to, read as that result.
pub open spec fn part_call(
    session: Session,
    method: Method,
    args: Seq<Data>,
    name: Seq<char>,
    r: Result<Value, Error>,
    untouched: bool,
    before: Seq<Exchange>,
    after: Seq<Exchange>,
) -> bool {
    match request_of(session, method, args) {
        Err(f) => r is Err && r->Err_0@ == f && untouched && after == before,
        Ok(bytes) => exists|reply: Result<Seq<u8>, ConnectionError>|
            after == before.push((session.url, bytes, reply)) && answers(
                r,
                part_reply(#[trigger] outcome_of(method, reply), name),
            ),
    }
}

/// Makes a call whose result is one field of the reply.
pub fn call_part<T: Transport>(
    client: &Client,
    conn: &mut T,
    method: Method,
    args: Vec<Value>,
    name: &str,
) -> (r: Result<Value, Error>)
    ensures
        part_call(
            client@,
            method,
            items_view(args@),
            name@,
            r,
            *final(conn) == *old(conn),
            old(conn).exchanges(),
            final(conn).exchanges(),
        ),
{
    as_part(call(client, conn, method, args), name)
}

/// What a call whose result is a string in the reply returns and does. Where no
/// request can be built: the rule that the caller broke, with the transport
/// left as it was and no exchange made. Else exactly one exchange is made, of
/// the request with the address of the session, and the result is what the
/// answer of that exchange resolves to, read as that result.
pub open spec fn text_call(
    session: Session,
    method: Method,
    args: Seq<Data>,
    name: Seq<char>,
    r: Result<String, Error>,
    untouched: bool,
    before: Seq<Exchange>,
    after: Seq<Exchange>,
) -> bool {
    match request_of(session, method, args) {
        Err(f) => r is Err && r->Err_0@ == f && untouched && after == before,
        Ok(bytes) => exists|reply: Result<Seq<u8>, ConnectionError>|
            after == before.push((session.url, bytes, reply)) && says_text(
                r,
                text_reply(#[trigger] outcome_of(method, reply), name),
            ),
    }
}

/// Makes a call whose result is a string in the reply.
pub fn call_text<T: Transport>(
    client: &Client,
    conn: &mut T,
    method: Method,
    args: Vec<Value>,
    name: &str,
) -> (r: Result<String, Error>)
    ensures
        text_call(
            client@,
            method,
            items_view(args@),
            name@,
            r,
            *final(conn) == *old(conn),
            old(conn).exchanges(),
            final(conn).exchanges(),
        ),
{
    as_text(call(client, conn, method, args), name)
}

/// What a call whose result is an integer in the reply returns and does. Where
/// no request can be built: the rule that the caller broke, with the transport
/// left as it was and no exchange made. Else exactly one exchange is made, of
/// the request with the address of the session, and the result is what the
/// answer of that exchange resolves to, read as that result.
pub open spec fn int_call(
    session: Session,
    method: Method,
    args: Seq<Data>,
    name: Seq<char>,
    r: Result<i64, Error>,
    untouched: bool,
    before: Seq<Exchange>,
    after: Seq<Exchange>,
) -> bool {
    match request_of(session, method, args) {
        Err(f) => r is Err && r->Err_0@ == f && untouched && after == before,
        Ok(bytes) => exists|reply: Result<Seq<u8>, ConnectionError>|
            after == before.push((session.url, bytes, reply)) && says_int(
                r,
                int_reply(#[trigger] outcome_of(method, reply), name),
            ),
    }
}

/// Makes a call whose result is an integer in the reply.
pub fn call_int<T: Transport>(
    client: &Client,
    conn: &mut T,
    method: Method,
    args: Vec<Value>,
    name: &str,
) -> (r: Result<i64, Error>)
    ensures
        int_call(
            client@,
            method,
            items_view(args@),
            name@,
            r,
            *final(conn) == *old(conn),
            old(conn).exchanges(),
            final(conn).exchanges(),
        ),
{
    as_int(call(client, conn, method, args), name)
}

/// What a call whose result is a number that the reply holds as text returns
/// and does. Where no request can be built: the rule that the caller broke,
/// with the transport left as it was and no exchange made. Else exactly one
/// exchange is made, of the request with the address of the session, and the
/// result is what the answer of that exchange resolves to, read as that result.
pub open spec fn count_call(
    session: Session,
    method: Method,
    args: Seq<Data>,
    name: Seq<char>,
    r: Result<i32, Error>,
    untouched: bool,
    before: Seq<Exchange>,
    after: Seq<Exchange>,
) -> bool {
    match request_of(session, method, args) {
        Err(f) => r is Err && r->Err_0@ == f && untouched && after == before,
        Ok(bytes) => exists|reply: Result<Seq<u8>, ConnectionError>|
            after == before.push((session.url, bytes, reply)) && says_count(
                r,
                count_reply(#[trigger] outcome_of(method, reply), name),
            ),
    }
}

/// Makes a call whose result is a number that the reply holds as text.
pub fn call_count<T: Transport>(
    client: &Client,
    conn: &mut T,
    method: Method,
    args: Vec<Value>,
    name: &str,
) -> (r: Result<i32, Error>)
    ensures
        count_call(
            client@,
            method,
            items_view(args@),
            name@,
            r,
            *final(conn) == *old(conn),
            old(conn).exchanges(),
            final(conn).exchanges(),
        ),
{
    as_count(call(client, conn, method, args), name)
}

/// What a call whose result is a list of strings in the reply returns and does.
/// Where no request can be built: the rule that the caller broke, with the
/// transport left as it was and no exchange made. Else exactly one exchange is
/// made, of the request with the address of the session, and the result is what
/// the answer of that exchange resolves to, read as that result.
pub open spec fn texts_call(
    session: Session,
    method: Method,
    args: Seq<Data>,
    name: Seq<char>,
    r: Result<Vec<String>, Error>,
    untouched: bool,
    before: Seq<Exchange>,
    after: Seq<Exchange>,
) -> bool {
    match request_of(session, method, args) {
        Err(f) => r is Err && r->Err_0@ == f && untouched && after == before,
        Ok(bytes) => exists|reply: Result<Seq<u8>, ConnectionError>|
            after == before.push((session.url, bytes, reply)) && says_texts(
                r,
                texts_reply(#[trigger] outcome_of(method, reply), name),
            ),
    }
}

/// Makes a call whose result is a list of strings in the reply.
pub fn call_texts<T: Transport>(
    client: &Client,
    conn: &mut T,
    method: Method,
    args: Vec<Value>,
    name: &str,
) -> (r: Result<Vec<String>, Error>)
    ensures
        texts_call(
            client@,
            method,
            items_view(args@),
            name@,
            r,
            *final(conn) == *old(conn),
            old(conn).exchanges(),
            final(conn).exchanges(),
        ),
{
    as_texts(call(client, conn, method, args), name)
}

/// What a call whose reply is a list of strings returns and does. Where no
/// request can be built: the rule that the caller broke, with the transport
/// left as it was and no exchange made. Else exactly one exchange is made, of
/// the request with the address of the session, and the result is what the
/// answer of that exchange resolves to, read as that result.
pub open spec fn names_call(
    session: Session,
    method: Method,
    args: Seq<Data>,
    r: Result<Vec<String>, Error>,
    untouched: bool,
    before: Seq<Exchange>,
    after: Seq<Exchange>,
) -> bool {
    match request_of(session, method, args) {
        Err(f) => r is Err && r->Err_0@ == f && untouched && after == before,
        Ok(bytes) => exists|reply: Result<Seq<u8>, ConnectionError>|
            after == before.push((session.url, bytes, reply)) && says_texts(
                r,
                names_reply(#[trigger] outcome_of(method, reply)),
            ),
    }
}

/// Makes a call whose reply is a list of strings.
pub fn call_names<T: Transport>(
    client: &Client,
    conn: &mut T,
    method: Method,
    args: Vec<Value>,
) -> (r: Result<Vec<String>, Error>)
    ensures
        names_call(
            client@,
            method,
            items_view(args@),
            r,
            *final(conn) == *old(conn),
            old(conn).exchanges(),
            final(conn).exchanges(),
        ),
{
    as_names(call(client, conn, method, args))
}

/// What a call whose reply is a map from strings to strings returns and does.
/// Where no request can be built: the rule that the caller broke, with the
/// transport left as it was and no exchange made. Else exactly one exchange is
/// made, of the request with the address of the session, and the result is what
/// the answer of that exchange resolves to, read as that result.
pub open spec fn pairs_call(
    session: Session,
    method: Method,
    args: Seq<Data>,
    r: Result<Vec<(String, String)>, Error>,
    untouched: bool,
    before: Seq<Exchange>,
    after: Seq<Exchange>,
) -> bool {
    match request_of(session, method, args) {
        Err(f) => r is Err && r->Err_0@ == f && untouched && after == before,
        Ok(bytes) => exists|reply: Result<Seq<u8>, ConnectionError>|
            after == before.push((session.url, bytes, reply)) && says_pairs(
                r,
                pairs_reply(#[trigger] outcome_of(method, reply)),
            ),
    }
}

/// Makes a call whose reply is a map from strings to strings.
pub fn call_pairs<T: Transport>(
    client: &Client,
    conn: &mut T,
    method: Method,
    args: Vec<Value>,
) -> (r: Result<Vec<(String, String)>, Error>)
    ensures
        pairs_call(
            client@,
            method,
            items_view(args@),
            r,
            *final(conn) == *old(conn),
            old(conn).exchanges(),
            final(conn).exchanges(),
        ),
{
    as_pairs(call(client, conn, method, args))
}

/// What a call that starts a check returns and does. Where no request can
/// be built: the rule that the caller broke, with the transport left as it
/// was and no exchange made. Else exactly one exchange is made, of the
/// request with the address of the session, and the result is what the
/// answer of that exchange resolves to, read as the report of a check.
pub open spec fn checked_call(
    session: Session,
    method: Method,
    args: Seq<Data>,
    r: Result<Vec<(String, String)>, Error>,
    untouched: bool,
    before: Seq<Exchange>,
    after: Seq<Exchange>,
) -> bool {
    match request_of(session, method, args) {
        Err(f) => r is Err && r->Err_0@ == f && untouched && after == before,
        Ok(bytes) => exists|reply: Result<Seq<u8>, ConnectionError>|
            after == before.push((session.url, bytes, reply)) && says_pairs(
                r,
                checked_reply(#[trigger] outcome_of(method, reply)),
            ),
    }
}

/// Makes a call that starts a check.
pub fn call_checked<T: Transport>(
    client: &Client,
    conn: &mut T,
    method: Method,
    args: Vec<Value>,
) -> (r: Result<Vec<(String, String)>, Error>)
    ensures
        checked_call(
            client@,
            method,
            items_view(args@),
            r,
            *final(conn) == *old(conn),
            old(conn).exchanges(),
            final(conn).exchanges(),
        ),
{
    as_checked(call(client, conn, method, args))
}

/// The models of a list of pairs of strings as the entries of a map.
pub open spec fn options_data(ps: Seq<(Seq<char>, Seq<char>)>) -> Data {
    Data::Dict(Seq::new(ps.len(), |i: int| (Data::Str(ps[i].0), Data::Str(ps[i].1))))
}

/// The model of an integer argument that the caller may leave out.
pub open spec fn pointer_data(p: Option<i32>) -> Data {
    match p {
        Some(i) => Data::Int(i as i64),
        None => Data::Nil,
    }
}

/// A string argument.
pub fn text_arg(s: &str) -> (r: Value)
    ensures
        r@ == Data::Str(s@),
{
    Value::Str(s.to_owned())
}

/// An integer argument.
pub fn number_arg(i: i32) -> (r: Value)
    ensures
        r@ == Data::Int(i as i64),
{
    Value::Int(i as i64)
}

/// An integer argument that the caller may leave out: then it is nil.
pub fn pointer_arg(p: Option<i32>) -> (r: Value)
    ensures
        r@ == pointer_data(p),
{
    match p {
        Some(i) => Value::Int(i as i64),
        None => Value::Nil,
    }
}

/// An argument that is a map from strings to strings: the pairs as a map
/// holds them, so a key that is given more than once counts once, with the
/// value that is given last.
pub fn options_arg(pairs: &Vec<(String, String)>) -> (r: Value)
    ensures
        r@ == options_data(settled(pairs_view(pairs@))),
{
    let kept = settle(pairs);
    let mut entries: Vec<(Value, Value)> = Vec::new();
    let mut i: usize = 0;
    assert(entries_view(entries@) =~= Seq::empty());
    while i < kept.len()
        invariant
            0 <= i <= kept.len(),
            entries_view(entries@).len() == i,
            forall|j: int|
                0 <= j < i ==> (#[trigger] entries_view(entries@)[j]) == (
                    Data::Str(kept@[j].0@),
                    Data::Str(kept@[j].1@),
                ),
        decreases kept.len() - i,
    {
        let k = Value::Str(kept[i].0.clone());
        let x = Value::Str(kept[i].1.clone());
        proof {
            lemma_entries_view_push(entries@, k, x);
        }
        entries.push((k, x));
        i += 1;
    }
    assert(entries_view(entries@) =~= options_data(pairs_view(kept@))->Dict_0);
    Value::Dict(entries)
}

/// No arguments.
pub fn args0() -> (r: Vec<Value>)
    ensures
        items_view(r@) == Seq::<Data>::empty(),
{
    let r: Vec<Value> = Vec::new();
    r
}

/// One argument.
pub fn args1(a: Value) -> (r: Vec<Value>)
    ensures
        items_view(r@) == seq![a@],
{
    let mut r: Vec<Value> = Vec::new();
    r.push(a);
    proof {
        lemma_items_view(r@);
    }
    r
}

/// Two arguments.
pub fn args2(a: Value, b: Value) -> (r: Vec<Value>)
    ensures
        items_view(r@) == seq![a@, b@],
{
    let mut r: Vec<Value> = Vec::new();
    r.push(a);
    r.push(b);
    proof {
        lemma_items_view(r@);
    }
    r
}

/// Three arguments.
pub fn args3(a: Value, b: Value, c: Value) -> (r: Vec<Value>)
    ensures
        items_view(r@) == seq![a@, b@, c@],
{
    let mut r: Vec<Value> = Vec::new();
    r.push(a);
    r.push(b);
    r.push(c);
    proof {
        lemma_items_view(r@);
    }
    r
}

} // verus!
