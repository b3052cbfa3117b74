//! Tokens: logging in and out, and managing permanent tokens.
use vstd::prelude::*;
use crate::catalog::Method;
use crate::client::{Client, Session};
use crate::error::Error;
use crate::pipeline::Transport;
use crate::reply::{
    args0, args1, args2, call_flag, call_text, call_texts, flag_call, text_arg, text_call,
    texts_call,
};
use crate::value::Data;

verus! {

/// Logs the token `out_tok` out.
pub fn logout<T: Transport>(
    client: &Client,
    conn: &mut T,
    out_tok: &str,
) -> (r: Result<bool, Error>)
    ensures
        flag_call(
            client@,
            Method::AuthLogout,
            seq![Data::Str(out_tok@)],
            r,
            *final(conn) == *old(conn),
            old(conn).exchanges(),
            final(conn).exchanges(),
        ),
{
    call_flag(client, conn, Method::AuthLogout, args1(text_arg(out_tok)))
}

/// Adds `new_tok` to the permanent tokens.
pub fn token_add<T: Transport>(
    client: &Client,
    conn: &mut T,
    new_tok: &str,
) -> (r: Result<bool, Error>)
    ensures
        flag_call(
            client@,
            Method::AuthTokenAdd,
            seq![Data::Str(new_tok@)],
            r,
            *final(conn) == *old(conn),
            old(conn).exchanges(),
            final(conn).exchanges(),
        ),
{
    call_flag(client, conn, Method::AuthTokenAdd, args1(text_arg(new_tok)))
}

/// Makes a new permanent token and returns it.
pub fn token_gen<T: Transport>(client: &Client, conn: &mut T) -> (r: Result<String, Error>)
    ensures
        text_call(
            client@,
            Method::AuthTokenGenerate,
            Seq::<Data>::empty(),
            "token"@,
            r,
            *final(conn) == *old(conn),
            old(conn).exchanges(),
            final(conn).exchanges(),
        ),
{
    call_text(client, conn, Method::AuthTokenGenerate, args0(), "token")
}

/// Lists the tokens, permanent and temporary.
pub fn token_list<T: Transport>(client: &Client, conn: &mut T) -> (r: Result<Vec<String>, Error>)
    ensures
        texts_call(
            client@,
            Method::AuthTokenList,
            Seq::<Data>::empty(),
            "tokens"@,
            r,
            *final(conn) == *old(conn),
            old(conn).exchanges(),
            final(conn).exchanges(),
        ),
{
    call_texts(client, conn, Method::AuthTokenList, args0(), "tokens")
}

/// Removes the token `token_rem`.
pub fn token_remove<T: Transport>(
    client: &Client,
    conn: &mut T,
    token_rem: &str,
) -> (r: Result<bool, Error>)
    ensures
        flag_call(
            client@,
            Method::AuthTokenRemove,
            seq![Data::Str(token_rem@)],
            r,
            *final(conn) == *old(conn),
            old(conn).exchanges(),
            final(conn).exchanges(),
        ),
{
    call_flag(client, conn, Method::AuthTokenRemove, args1(text_arg(token_rem)))
}

/// Logs in as `username` with `password` and keeps the token that the
/// service gives as the current token of the session; a failed login
/// leaves the session as it was.
pub fn login<T: Transport>(
    client: &mut Client,
    conn: &mut T,
    username: &str,
    password: &str,
) -> (r: Result<String, Error>)
    ensures
        text_call(
            old(client)@,
            Method::AuthLogin,
            seq![Data::Str(username@), Data::Str(password@)],
            "token"@,
            r,
            *final(conn) == *old(conn),
            old(conn).exchanges(),
            final(conn).exchanges(),
        ),
        r is Ok ==> final(client)@ == (Session { url: old(client)@.url, token: Some(r->Ok_0@) }),
        r is Err ==> final(client)@ == old(client)@,
{
    let r = call_text(
        client,
        conn,
        Method::AuthLogin,
        args2(text_arg(username), text_arg(password)),
        "token",
    );
    match &r {
        Ok(token) => {
            client.set_token(token.as_str());
        },
        Err(_) => {},
    }
    r
}

} // verus!
