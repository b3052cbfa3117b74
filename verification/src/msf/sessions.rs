//! Sessions: listing and stopping them, shells, meterpreter and ring buffers.
use vstd::prelude::*;
use crate::catalog::Method;
use crate::client::Client;
use crate::error::Error;
use crate::pipeline::{call, call_returns, Transport};
use crate::reply::{
    args0, args1, args2, args3, call_flag, call_int, call_text, call_texts, flag_call, int_call,
    number_arg, pointer_arg, pointer_data, text_arg, text_call, texts_call,
};
use crate::value::{Data, Value};

verus! {

/// Lists the sessions: each session id with the record of the session.
pub fn list<T: Transport>(client: &Client, conn: &mut T) -> (r: Result<Value, Error>)
    ensures
        call_returns(
            client@,
            Method::SessionList,
            Seq::<Data>::empty(),
            r,
            *final(conn) == *old(conn),
            old(conn).exchanges(),
            final(conn).exchanges(),
        ),
{
    call(client, conn, Method::SessionList, args0())
}

/// Stops the session `sessionid`.
pub fn stop<T: Transport>(
    client: &Client,
    conn: &mut T,
    sessionid: &str,
) -> (r: Result<bool, Error>)
    ensures
        flag_call(
            client@,
            Method::SessionStop,
            seq![Data::Str(sessionid@)],
            r,
            *final(conn) == *old(conn),
            old(conn).exchanges(),
            final(conn).exchanges(),
        ),
{
    call_flag(client, conn, Method::SessionStop, args1(text_arg(sessionid)))
}

/// Lists the modules that can run on the session `sessionid`.
pub fn compactible_modules<T: Transport>(
    client: &Client,
    conn: &mut T,
    sessionid: &str,
) -> (r: Result<Vec<String>, Error>)
    ensures
        texts_call(
            client@,
            Method::SessionCompatibleModules,
            seq![Data::Str(sessionid@)],
            "modules"@,
            r,
            *final(conn) == *old(conn),
            old(conn).exchanges(),
            final(conn).exchanges(),
        ),
{
    call_texts(
        client,
        conn,
        Method::SessionCompatibleModules,
        args1(text_arg(sessionid)),
        "modules",
    )
}

/// Upgrades the shell session `sessionid` to a meterpreter session that
/// connects back to `connecthost` at `connectport`.
pub fn shell_upgrade<T: Transport>(
    client: &Client,
    conn: &mut T,
    sessionid: &str,
    connecthost: &str,
    connectport: i32,
) -> (r: Result<bool, Error>)
    ensures
        flag_call(
            client@,
            Method::SessionShellUpgrade,
            seq![Data::Str(sessionid@), Data::Str(connecthost@), Data::Int(connectport as i64)],
            r,
            *final(conn) == *old(conn),
            old(conn).exchanges(),
            final(conn).exchanges(),
        ),
{
    call_flag(
        client,
        conn,
        Method::SessionShellUpgrade,
        args3(text_arg(sessionid), text_arg(connecthost), number_arg(connectport)),
    )
}

/// Reading from and writing to a shell session.
#[derive(Clone, Copy, Debug)]
pub struct shell;

impl shell {
    /// Reads what the shell session `sessionid` has printed, from `readpointer`
    /// on where one is given; the reply holds the data and the next pointer.
    pub fn read<T: Transport>(
        client: &Client,
        conn: &mut T,
        sessionid: &str,
        readpointer: Option<i32>,
    ) -> (r: Result<Value, Error>)
        ensures
            call_returns(
                client@,
                Method::SessionShellRead,
                seq![Data::Str(sessionid@), pointer_data(readpointer)],
                r,
                *final(conn) == *old(conn),
                old(conn).exchanges(),
                final(conn).exchanges(),
            ),
    {
        call(
            client,
            conn,
            Method::SessionShellRead,
            args2(text_arg(sessionid), pointer_arg(readpointer)),
        )
    }

    /// Writes `data` to the shell session `sessionid`; returns the number of
    /// bytes written.
    pub fn write<T: Transport>(
        client: &Client,
        conn: &mut T,
        sessionid: &str,
        data: &str,
    ) -> (r: Result<i64, Error>)
        ensures
            int_call(
                client@,
                Method::SessionShellWrite,
                seq![Data::Str(sessionid@), Data::Str(data@)],
                "write_count"@,
                r,
                *final(conn) == *old(conn),
                old(conn).exchanges(),
                final(conn).exchanges(),
            ),
    {
        call_int(
            client,
            conn,
            Method::SessionShellWrite,
            args2(text_arg(sessionid), text_arg(data)),
            "write_count",
        )
    }
}

/// A meterpreter session and the client that calls it.
#[derive(Clone, Debug)]
pub struct meterpreter {
    /// The id of the session.
    pub sessionid: String,
    /// The client through which the session is called.
    pub client: Client,
}

impl meterpreter {
    /// A handle on the session `sessionid`, called through `client`.
    pub fn new(client: Client, sessionid: &str) -> (r: Self)
        ensures
            r.client == client,
            r.sessionid@ == sessionid@,
    {
        meterpreter { sessionid: sessionid.to_owned(), client }
    }

    /// Writes `data` to the session.
    pub fn write<T: Transport>(&self, conn: &mut T, data: &str) -> (r: Result<bool, Error>)
        ensures
            flag_call(
                self.client@,
                Method::SessionMeterpreterWrite,
                seq![Data::Str(self.sessionid@), Data::Str(data@)],
                r,
                *final(conn) == *old(conn),
                old(conn).exchanges(),
                final(conn).exchanges(),
            ),
    {
        call_flag(
            &self.client,
            conn,
            Method::SessionMeterpreterWrite,
            args2(text_arg(self.sessionid.as_str()), text_arg(data)),
        )
    }

    /// Reads what the session has printed.
    pub fn read<T: Transport>(&self, conn: &mut T) -> (r: Result<String, Error>)
        ensures
            text_call(
                self.client@,
                Method::SessionMeterpreterRead,
                seq![Data::Str(self.sessionid@)],
                "data"@,
                r,
                *final(conn) == *old(conn),
                old(conn).exchanges(),
                final(conn).exchanges(),
            ),
    {
        call_text(
            &self.client,
            conn,
            Method::SessionMeterpreterRead,
            args1(text_arg(self.sessionid.as_str())),
            "data",
        )
    }

    /// Runs the one command `command` in the session.
    pub fn run_single<T: Transport>(&self, conn: &mut T, command: &str) -> (r: Result<bool, Error>)
        ensures
            flag_call(
                self.client@,
                Method::SessionMeterpreterRunSingle,
                seq![Data::Str(self.sessionid@), Data::Str(command@)],
                r,
                *final(conn) == *old(conn),
                old(conn).exchanges(),
                final(conn).exchanges(),
            ),
    {
        call_flag(
            &self.client,
            conn,
            Method::SessionMeterpreterRunSingle,
            args2(text_arg(self.sessionid.as_str()), text_arg(command)),
        )
    }

    /// Runs the script `scriptname` in the session.
    pub fn script<T: Transport>(&self, conn: &mut T, scriptname: &str) -> (r: Result<bool, Error>)
        ensures
            flag_call(
                self.client@,
                Method::SessionMeterpreterScript,
                seq![Data::Str(self.sessionid@), Data::Str(scriptname@)],
                r,
                *final(conn) == *old(conn),
                old(conn).exchanges(),
                final(conn).exchanges(),
            ),
    {
        call_flag(
            &self.client,
            conn,
            Method::SessionMeterpreterScript,
            args2(text_arg(self.sessionid.as_str()), text_arg(scriptname)),
        )
    }

    /// Detaches the session.
    pub fn session_detach<T: Transport>(&self, conn: &mut T) -> (r: Result<bool, Error>)
        ensures
            flag_call(
                self.client@,
                Method::SessionMeterpreterDetach,
                seq![Data::Str(self.sessionid@)],
                r,
                *final(conn) == *old(conn),
                old(conn).exchanges(),
                final(conn).exchanges(),
            ),
    {
        call_flag(
            &self.client,
            conn,
            Method::SessionMeterpreterDetach,
            args1(text_arg(self.sessionid.as_str())),
        )
    }

    /// Kills the session.
    pub fn session_kill<T: Transport>(&self, conn: &mut T) -> (r: Result<bool, Error>)
        ensures
            flag_call(
                self.client@,
                Method::SessionMeterpreterKill,
                seq![Data::Str(self.sessionid@)],
                r,
                *final(conn) == *old(conn),
                old(conn).exchanges(),
                final(conn).exchanges(),
            ),
    {
        call_flag(
            &self.client,
            conn,
            Method::SessionMeterpreterKill,
            args1(text_arg(self.sessionid.as_str())),
        )
    }

    /// Detaches the session.
    pub fn detach_session<T: Transport>(&self, conn: &mut T) -> (r: Result<bool, Error>)
        ensures
            flag_call(
                self.client@,
                Method::SessionMeterpreterDetach,
                seq![Data::Str(self.sessionid@)],
                r,
                *final(conn) == *old(conn),
                old(conn).exchanges(),
                final(conn).exchanges(),
            ),
    {
        call_flag(
            &self.client,
            conn,
            Method::SessionMeterpreterDetach,
            args1(text_arg(self.sessionid.as_str())),
        )
    }

    /// Kills the session.
    pub fn kill_session<T: Transport>(&self, conn: &mut T) -> (r: Result<bool, Error>)
        ensures
            flag_call(
                self.client@,
                Method::SessionMeterpreterKill,
                seq![Data::Str(self.sessionid@)],
                r,
                *final(conn) == *old(conn),
                old(conn).exchanges(),
                final(conn).exchanges(),
            ),
    {
        call_flag(
            &self.client,
            conn,
            Method::SessionMeterpreterKill,
            args1(text_arg(self.sessionid.as_str())),
        )
    }

    /// Lists the ways to complete `inputline` in the session.
    pub fn tabs<T: Transport>(
        &self,
        conn: &mut T,
        inputline: &str,
    ) -> (r: Result<Vec<String>, Error>)
        ensures
            texts_call(
                self.client@,
                Method::SessionMeterpreterTabs,
                seq![Data::Str(self.sessionid@), Data::Str(inputline@)],
                "tabs"@,
                r,
                *final(conn) == *old(conn),
                old(conn).exchanges(),
                final(conn).exchanges(),
            ),
    {
        call_texts(
            &self.client,
            conn,
            Method::SessionMeterpreterTabs,
            args2(text_arg(self.sessionid.as_str()), text_arg(inputline)),
            "tabs",
        )
    }

    /// Lists the modules that can run on the session.
    pub fn compactible_modules<T: Transport>(&self, conn: &mut T) -> (r: Result<Vec<String>, Error>)
        ensures
            texts_call(
                self.client@,
                Method::SessionCompatibleModules,
                seq![Data::Str(self.sessionid@)],
                "modules"@,
                r,
                *final(conn) == *old(conn),
                old(conn).exchanges(),
                final(conn).exchanges(),
            ),
    {
        call_texts(
            &self.client,
            conn,
            Method::SessionCompatibleModules,
            args1(text_arg(self.sessionid.as_str())),
            "modules",
        )
    }
}

/// The ring buffer of a shell session and the client that calls it.
#[derive(Clone, Debug)]
pub struct ring {
    /// The client through which the session is called.
    pub client: Client,
    /// The id of the session.
    pub sessionid: String,
}

impl ring {
    /// A handle on the session `sessionid`, called through `client`.
    pub fn new(client: Client, sessionid: &str) -> (r: Self)
        ensures
            r.client == client,
            r.sessionid@ == sessionid@,
    {
        ring { sessionid: sessionid.to_owned(), client }
    }

    /// Clears the ring buffer of the session.
    pub fn clear<T: Transport>(&self, conn: &mut T) -> (r: Result<bool, Error>)
        ensures
            flag_call(
                self.client@,
                Method::SessionRingClear,
                seq![Data::Str(self.sessionid@)],
                r,
                *final(conn) == *old(conn),
                old(conn).exchanges(),
                final(conn).exchanges(),
            ),
    {
        call_flag(
            &self.client,
            conn,
            Method::SessionRingClear,
            args1(text_arg(self.sessionid.as_str())),
        )
    }

    /// Gives the last read pointer of the session.
    pub fn last<T: Transport>(&self, conn: &mut T) -> (r: Result<i64, Error>)
        ensures
            int_call(
                self.client@,
                Method::SessionRingLast,
                seq![Data::Str(self.sessionid@)],
                "seq"@,
                r,
                *final(conn) == *old(conn),
                old(conn).exchanges(),
                final(conn).exchanges(),
            ),
    {
        call_int(
            &self.client,
            conn,
            Method::SessionRingLast,
            args1(text_arg(self.sessionid.as_str())),
            "seq",
        )
    }

    /// Writes `data` into the ring buffer of the session; returns the number of
    /// bytes written.
    pub fn put<T: Transport>(&self, conn: &mut T, data: &str) -> (r: Result<i64, Error>)
        ensures
            int_call(
                self.client@,
                Method::SessionRingPut,
                seq![Data::Str(self.sessionid@), Data::Str(data@)],
                "write_count"@,
                r,
                *final(conn) == *old(conn),
                old(conn).exchanges(),
                final(conn).exchanges(),
            ),
    {
        call_int(
            &self.client,
            conn,
            Method::SessionRingPut,
            args2(text_arg(self.sessionid.as_str()), text_arg(data)),
            "write_count",
        )
    }
}

} // verus!
