//! A transport that answers from a script and keeps what it was asked.
use vstd::prelude::*;
use vstd::slice::slice_to_vec;
use crate::error::ConnectionError;
use crate::pipeline::{reply_view, Exchange, Transport};

verus! {

/// A transport that makes no connection: it gives the answers of its
/// script, one for each request, and keeps every exchange.
#[derive(Clone, Debug, PartialEq, Eq)]
pub struct Scripted {
    /// The answers, in the order in which they are given.
    pub script: Vec<Result<Vec<u8>, ConnectionError>>,
    /// How many answers were given.
    pub given: usize,
    /// The exchanges so far, oldest first: address, request and answer.
    pub log: Vec<(String, Vec<u8>, Result<Vec<u8>, ConnectionError>)>,
}

/// A copy of an answer.
fn copy_of(answer: &Result<Vec<u8>, ConnectionError>) -> (r: Result<Vec<u8>, ConnectionError>)
    ensures
        reply_view(r) == reply_view(*answer),
{
    match answer {
        Ok(bytes) => Ok(slice_to_vec(bytes.as_slice())),
        Err(e) => Err(*e),
    }
}

impl Scripted {
    /// The exchanges that the log holds.
    pub open spec fn record(&self) -> Seq<Exchange> {
        Seq::new(
            self.log@.len(),
            |i: int| (self.log@[i].0@, self.log@[i].1@, reply_view(self.log@[i].2)),
        )
    }

    /// The answer to the next request: the next one of the script, or an
    /// interrupted connection where the script has run out.
    pub open spec fn next_answer(&self) -> Result<Seq<u8>, ConnectionError> {
        if self.given < self.script@.len() {
            reply_view(self.script@[self.given as int])
        } else {
            Err(ConnectionError::Interrupted)
        }
    }

    /// A transport that gives the answers of `script` in order.
    pub fn new(script: Vec<Result<Vec<u8>, ConnectionError>>) -> (r: Scripted)
        ensures
            r.script == script,
            r.given == 0,
            r.record() == Seq::<Exchange>::empty(),
    {
        let r = Scripted { script, given: 0, log: Vec::new() };
        assert(r.record() =~= Seq::<Exchange>::empty());
        r
    }
}

impl Transport for Scripted {
    open spec fn exchanges(&self) -> Seq<Exchange> {
        self.record()
    }

    /// Gives the next answer of the script and keeps the exchange.
    fn send(&mut self, endpoint: &str, request: &[u8]) -> (r: Result<Vec<u8>, ConnectionError>)
        ensures
            reply_view(r) == old(self).next_answer(),
            final(self).script == old(self).script,
            final(self).given == if old(self).given < old(self).script@.len() {
                old(self).given + 1
            } else {
                old(self).given as int
            },
    {
        let answer = if self.given < self.script.len() {
            let answer = copy_of(&self.script[self.given]);
            self.given = self.given + 1;
            answer
        } else {
            Err(ConnectionError::Interrupted)
        };
        let kept = copy_of(&answer);
        self.log.push((endpoint.to_owned(), slice_to_vec(request), kept));
        assert(self.record() =~= old(self).record().push(
            (endpoint@, request@, reply_view(answer)),
        ));
        answer
    }
}

} // verus!
