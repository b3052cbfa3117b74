//! Jobs: listing, describing and stopping.
use vstd::prelude::*;
use crate::catalog::Method;
use crate::client::Client;
use crate::error::Error;
use crate::pipeline::{call, call_returns, Transport};
use crate::reply::{
    args0, args1, call_flag, call_pairs, flag_call, pairs_call, text_arg,
};
use crate::value::{Data, Value};

verus! {

/// Lists the running jobs: each job id with the name of the job.
pub fn list<T: Transport>(
    client: &Client,
    conn: &mut T,
) -> (r: Result<Vec<(String, String)>, Error>)
    ensures
        pairs_call(
            client@,
            Method::JobList,
            Seq::<Data>::empty(),
            r,
            *final(conn) == *old(conn),
            old(conn).exchanges(),
            final(conn).exchanges(),
        ),
{
    call_pairs(client, conn, Method::JobList, args0())
}

/// Describes the job `jobid`.
pub fn info<T: Transport>(client: &Client, conn: &mut T, jobid: &str) -> (r: Result<Value, Error>)
    ensures
        call_returns(
            client@,
            Method::JobInfo,
            seq![Data::Str(jobid@)],
            r,
            *final(conn) == *old(conn),
            old(conn).exchanges(),
            final(conn).exchanges(),
        ),
{
    call(client, conn, Method::JobInfo, args1(text_arg(jobid)))
}

/// Stops the job `jobid`.
pub fn stop<T: Transport>(client: &Client, conn: &mut T, jobid: &str) -> (r: Result<bool, Error>)
    ensures
        flag_call(
            client@,
            Method::JobStop,
            seq![Data::Str(jobid@)],
            r,
            *final(conn) == *old(conn),
            old(conn).exchanges(),
            final(conn).exchanges(),
        ),
{
    call_flag(client, conn, Method::JobStop, args1(text_arg(jobid)))
}

} // verus!
