//! One call, end to end: build the request, hand it to the transport,
//! resolve what came back.
use vstd::prelude::*;
use crate::catalog::Method;
use crate::client::{Client, Session};
use crate::encoder::encode;
use crate::error::{ConnectionError, Error, Failure, Violation};
use crate::resolver::{answers, resolution, resolve_bytes};
use crate::value::{items_view, lemma_items_view, Data, Value};
use crate::wire::{encoding, fits, MAX_DEPTH};

verus! {

/// The envelope of a request: the name of the method, the token where the
/// method needs one, then the arguments in order.
pub open spec fn envelope(method: Method, token: Option<Seq<char>>, args: Seq<Data>) -> Data {
    if method.token_needed() {
        Data::List(seq![Data::Str(method.wire_name()), Data::Str(token->0)] + args)
    } else {
        Data::List(seq![Data::Str(method.wire_name())] + args)
    }
}

/// The bytes to send for a call, or why nothing is to be sent.
pub open spec fn request_of(session: Session, method: Method, args: Seq<Data>) -> Result<
    Seq<u8>,
    Failure,
> {
    if method.token_needed() && session.token is None {
        Err(Failure::InvalidState(Violation::MissingToken))
    } else if !method.takes(args) {
        Err(Failure::InvalidState(Violation::BadArguments))
    } else if !fits(envelope(method, session.token, args), MAX_DEPTH as nat) {
        Err(Failure::InvalidState(Violation::Oversized))
    } else {
        Ok(encoding(envelope(method, session.token, args)))
    }
}

/// What a call returns once the transport has answered: the failure of the
/// connection, or what the bytes of the reply resolve to.
pub open spec fn outcome_of(method: Method, reply: Result<Seq<u8>, ConnectionError>) -> Result<
    Data,
    Failure,
> {
    match reply {
        Err(e) => Err(Failure::ConnectionError(e)),
        Ok(bytes) => resolution(bytes, method.reply_form(), method.result_checked()),
    }
}

/// The model of what a transport returned.
pub open spec fn reply_view(reply: Result<Vec<u8>, ConnectionError>) -> Result<
    Seq<u8>,
    ConnectionError,
> {
    match reply {
        Ok(bytes) => Ok(bytes@),
        Err(e) => Err(e),
    }
}

/// The model of a list put together from two lists.
pub proof fn lemma_items_view_add(a: Seq<Value>, b: Seq<Value>)
    ensures
        items_view(a + b) == items_view(a) + items_view(b),
{
    lemma_items_view(a);
    lemma_items_view(b);
    lemma_items_view(a + b);
}

/// Whether `args` are arguments that `method` takes.
pub fn takes_args(method: Method, args: &Vec<Value>) -> (r: bool)
    ensures
        r == method.takes(items_view(args@)),
{
    let kinds = method.kinds();
    proof {
        lemma_items_view(args@);
    }
    if args.len() != kinds.len() {
        return false;
    }
    let mut i: usize = 0;
    while i < args.len()
        invariant
            0 <= i <= args.len(),
            args.len() == kinds.len(),
            kinds@ == method.parameters(),
            items_view(args@).len() == args.len(),
            forall|j: int|
                0 <= j < args.len() ==> (#[trigger] items_view(args@)[j]) == args@[j]@,
            forall|j: int|
                0 <= j < i ==> method.parameters()[j].admits(#[trigger] items_view(args@)[j]),
        decreases args.len() - i,
    {
        if !kinds[i].accepts(&args[i]) {
            assert(!method.parameters()[i as int].admits(items_view(args@)[i as int]));
            return false;
        }
        i += 1;
    }
    true
}

/// Builds the request of a call: its bytes, or the rule that the caller
/// broke. The token is asked for first, then the arguments are held against
/// the method's parameters, then against what the wire format can hold.
pub fn request(client: &Client, method: Method, args: Vec<Value>) -> (r: Result<Vec<u8>, Error>)
    ensures
        match request_of(client@, method, items_view(args@)) {
            Ok(bytes) => r is Ok && r->Ok_0@ == bytes,
            Err(f) => r is Err && r->Err_0@ == f,
        },
{
    let mut items: Vec<Value> = Vec::new();
    items.push(Value::Str(method.name().to_owned()));
    if method.needs_token() {
        match &client.token {
            None => {
                return Err(Error::InvalidState(Violation::MissingToken));
            },
            Some(token) => {
                items.push(Value::Str(token.clone()));
            },
        }
    }
    if !takes_args(method, &args) {
        return Err(Error::InvalidState(Violation::BadArguments));
    }
    let ghost head = items@;
    let ghost tail = args@;
    let mut args = args;
    items.append(&mut args);
    let whole = Value::List(items);
    proof {
        lemma_items_view_add(head, tail);
        lemma_items_view(head);
        assert(items_view(head) =~= if method.token_needed() {
            seq![Data::Str(method.wire_name()), Data::Str(client@.token->0)]
        } else {
            seq![Data::Str(method.wire_name())]
        });
    }
    match encode(&whole) {
        Some(bytes) => Ok(bytes),
        None => Err(Error::InvalidState(Violation::Oversized)),
    }
}

/// Resolves what the transport returned for a call of `method`.
pub fn resolve(method: Method, reply: Result<Vec<u8>, ConnectionError>) -> (r: Result<
    Value,
    Error,
>)
    ensures
        answers(r, outcome_of(method, reply_view(reply))),
{
    match reply {
        Err(e) => Err(Error::ConnectionError(e)),
        Ok(bytes) => {
            let shape = method.reply();
            resolve_bytes(bytes.as_slice(), &shape, method.checks_result())
        },
    }
}

/// Whether bytes are the request of some call: what `request_of` gives for
/// some session, method and arguments.
pub open spec fn is_request(bytes: Seq<u8>) -> bool {
    exists|session: Session, method: Method, args: Seq<Data>|
        #[trigger] request_of(session, method, args) == Ok::<Seq<u8>, Failure>(bytes)
}

/// One exchange with the service: the address, the request, and what came
/// back.
pub type Exchange = (Seq<char>, Seq<u8>, Result<Seq<u8>, ConnectionError>);

/// What carries requests to the service and replies back. A transport is
/// handed nothing but requests that the pipeline built, and each `send` is
/// one more exchange on its record; of what comes back nothing is taken for
/// granted.
pub trait Transport {
    /// The exchanges made so far, oldest first. A transport that is written
    /// outside verified code keeps no record and is left with this empty
    /// one: of such a transport the clause on `send` is taken on trust.
    open spec fn exchanges(&self) -> Seq<Exchange> {
        Seq::empty()
    }

    /// Opens a connection to `endpoint`, writes `request`, reads the reply
    /// to its end and closes the connection; or says why that failed.
    fn send(&mut self, endpoint: &str, request: &[u8]) -> (r: Result<Vec<u8>, ConnectionError>)
        requires
            is_request(request@),
        ensures
            final(self).exchanges() == old(self).exchanges().push(
                (endpoint@, request@, reply_view(r)),
            ),
    ;
}

/// What `call` returns and does. Where no request can be built: the rule
/// that the caller broke, with the transport left as it was and no
/// exchange made. Else exactly one exchange is made, of the request with
/// the address of the session, and the result is what the answer of that
/// exchange resolves to.
pub open spec fn call_returns(
    session: Session,
    method: Method,
    args: Seq<Data>,
    r: Result<Value, Error>,
    untouched: bool,
    before: Seq<Exchange>,
    after: Seq<Exchange>,
) -> bool {
    match request_of(session, method, args) {
        Err(f) => r is Err && r->Err_0@ == f && untouched && after == before,
        Ok(bytes) => exists|reply: Result<Seq<u8>, ConnectionError>|
            after == before.push((session.url, bytes, reply)) && answers(
                r,
                #[trigger] outcome_of(method, reply),
            ),
    }
}

/// Calls `method` with `args` over `conn`.
pub fn call<T: Transport>(client: &Client, conn: &mut T, method: Method, args: Vec<Value>) -> (r:
    Result<Value, Error>)
    ensures
        call_returns(
            client@,
            method,
            items_view(args@),
            r,
            *final(conn) == *old(conn),
            old(conn).exchanges(),
            final(conn).exchanges(),
        ),
{
    match request(client, method, args) {
        Err(e) => Err(e),
        Ok(bytes) => {
            let reply = conn.send(client.url.as_str(), bytes.as_slice());
            let r = resolve(method, reply);
            assert(answers(r, outcome_of(method, reply_view(reply))));
            r
        },
    }
}

} // verus!
