//! Consoles: opening, closing, reading and writing.
use vstd::prelude::*;
use crate::catalog::Method;
use crate::client::Client;
use crate::error::Error;
use crate::pipeline::{call, call_returns, Transport};
use crate::reply::{
    args0, args1, args2, call_count, call_flag, call_texts, count_call, flag_call, text_arg,
    texts_call,
};
use crate::value::{Data, Value};

verus! {

/// Opens a console; the reply holds its id, its prompt and whether it is busy.
pub fn create<T: Transport>(client: &Client, conn: &mut T) -> (r: Result<Value, Error>)
    ensures
        call_returns(
            client@,
            Method::ConsoleCreate,
            Seq::<Data>::empty(),
            r,
            *final(conn) == *old(conn),
            old(conn).exchanges(),
            final(conn).exchanges(),
        ),
{
    call(client, conn, Method::ConsoleCreate, args0())
}

/// Closes the console `consoleid`.
pub fn destroy<T: Transport>(
    client: &Client,
    conn: &mut T,
    consoleid: &str,
) -> (r: Result<bool, Error>)
    ensures
        flag_call(
            client@,
            Method::ConsoleDestroy,
            seq![Data::Str(consoleid@)],
            r,
            *final(conn) == *old(conn),
            old(conn).exchanges(),
            final(conn).exchanges(),
        ),
{
    call_flag(client, conn, Method::ConsoleDestroy, args1(text_arg(consoleid)))
}

/// Lists the consoles: the reply holds one record for each under `consoles`.
pub fn list<T: Transport>(client: &Client, conn: &mut T) -> (r: Result<Value, Error>)
    ensures
        call_returns(
            client@,
            Method::ConsoleList,
            Seq::<Data>::empty(),
            r,
            *final(conn) == *old(conn),
            old(conn).exchanges(),
            final(conn).exchanges(),
        ),
{
    call(client, conn, Method::ConsoleList, args0())
}

/// Writes `data` to the console `consoleid`; returns the number of bytes written.
pub fn write<T: Transport>(
    client: &Client,
    conn: &mut T,
    consoleid: &str,
    data: &str,
) -> (r: Result<i32, Error>)
    ensures
        count_call(
            client@,
            Method::ConsoleWrite,
            seq![Data::Str(consoleid@), Data::Str(data@)],
            "wrote"@,
            r,
            *final(conn) == *old(conn),
            old(conn).exchanges(),
            final(conn).exchanges(),
        ),
{
    call_count(
        client,
        conn,
        Method::ConsoleWrite,
        args2(text_arg(consoleid), text_arg(data)),
        "wrote",
    )
}

/// Reads what the console `consoleid` has printed; the reply holds the data,
/// the prompt and whether the console is busy.
pub fn read<T: Transport>(
    client: &Client,
    conn: &mut T,
    consoleid: &str,
) -> (r: Result<Value, Error>)
    ensures
        call_returns(
            client@,
            Method::ConsoleRead,
            seq![Data::Str(consoleid@)],
            r,
            *final(conn) == *old(conn),
            old(conn).exchanges(),
            final(conn).exchanges(),
        ),
{
    call(client, conn, Method::ConsoleRead, args1(text_arg(consoleid)))
}

/// Detaches the session that the console `consoleid` interacts with.
pub fn session_detach<T: Transport>(
    client: &Client,
    conn: &mut T,
    consoleid: &str,
) -> (r: Result<bool, Error>)
    ensures
        flag_call(
            client@,
            Method::ConsoleSessionDetach,
            seq![Data::Str(consoleid@)],
            r,
            *final(conn) == *old(conn),
            old(conn).exchanges(),
            final(conn).exchanges(),
        ),
{
    call_flag(client, conn, Method::ConsoleSessionDetach, args1(text_arg(consoleid)))
}

/// Kills the session that the console `consoleid` interacts with.
pub fn session_kill<T: Transport>(
    client: &Client,
    conn: &mut T,
    consoleid: &str,
) -> (r: Result<bool, Error>)
    ensures
        flag_call(
            client@,
            Method::ConsoleSessionKill,
            seq![Data::Str(consoleid@)],
            r,
            *final(conn) == *old(conn),
            old(conn).exchanges(),
            final(conn).exchanges(),
        ),
{
    call_flag(client, conn, Method::ConsoleSessionKill, args1(text_arg(consoleid)))
}

/// Lists the ways to complete `inputline` in the console `consoleid`.
pub fn tabs<T: Transport>(
    client: &Client,
    conn: &mut T,
    consoleid: &str,
    inputline: &str,
) -> (r: Result<Vec<String>, Error>)
    ensures
        texts_call(
            client@,
            Method::ConsoleTabs,
            seq![Data::Str(consoleid@), Data::Str(inputline@)],
            "tabs"@,
            r,
            *final(conn) == *old(conn),
            old(conn).exchanges(),
            final(conn).exchanges(),
        ),
{
    call_texts(
        client,
        conn,
        Method::ConsoleTabs,
        args2(text_arg(consoleid), text_arg(inputline)),
        "tabs",
    )
}

} // verus!
