//! Modules: listing, describing, encoding, running and checking.
use vstd::prelude::*;
use crate::access::{pairs_view, settled};
use crate::catalog::Method;
use crate::client::Client;
use crate::error::Error;
use crate::pipeline::{call, call_returns, Transport};
use crate::reply::{
    args0, args1, args2, args3, call_checked, call_names, call_part, call_text, call_texts,
    checked_call, names_call, number_arg, options_arg, options_data, part_call, text_arg,
    text_call, texts_call,
};
use crate::text::same_text;
use crate::value::{Data, Value};

verus! {

/// Describes the module `modulename` of type `moduletype`.
pub fn info<T: Transport>(
    client: &Client,
    conn: &mut T,
    moduletype: &str,
    modulename: &str,
) -> (r: Result<Value, Error>)
    ensures
        call_returns(
            client@,
            Method::ModuleInfo,
            seq![Data::Str(moduletype@), Data::Str(modulename@)],
            r,
            *final(conn) == *old(conn),
            old(conn).exchanges(),
            final(conn).exchanges(),
        ),
{
    call(client, conn, Method::ModuleInfo, args2(text_arg(moduletype), text_arg(modulename)))
}

/// Lists the options of the module `modulename` of type `moduletype`: each
/// option name with the record of the option.
pub fn option<T: Transport>(
    client: &Client,
    conn: &mut T,
    moduletype: &str,
    modulename: &str,
) -> (r: Result<Value, Error>)
    ensures
        call_returns(
            client@,
            Method::ModuleOptions,
            seq![Data::Str(moduletype@), Data::Str(modulename@)],
            r,
            *final(conn) == *old(conn),
            old(conn).exchanges(),
            final(conn).exchanges(),
        ),
{
    call(client, conn, Method::ModuleOptions, args2(text_arg(moduletype), text_arg(modulename)))
}

/// Encodes `data` with the encoder `encodermodule` under `options`.
pub fn encoder<T: Transport>(
    client: &Client,
    conn: &mut T,
    data: &str,
    encodermodule: &str,
    options: &Vec<(String, String)>,
) -> (r: Result<String, Error>)
    ensures
        text_call(
            client@,
            Method::ModuleEncode,
            seq![
                Data::Str(data@),
                Data::Str(encodermodule@),
                options_data(settled(pairs_view(options@))),
            ],
            "encoded"@,
            r,
            *final(conn) == *old(conn),
            old(conn).exchanges(),
            final(conn).exchanges(),
        ),
{
    call_text(
        client,
        conn,
        Method::ModuleEncode,
        args3(text_arg(data), text_arg(encodermodule), options_arg(options)),
        "encoded",
    )
}

/// Searches the modules for `keyword`: the reply is a list of records.
pub fn search<T: Transport>(
    client: &Client,
    conn: &mut T,
    keyword: &str,
) -> (r: Result<Value, Error>)
    ensures
        call_returns(
            client@,
            Method::ModuleSearch,
            seq![Data::Str(keyword@)],
            r,
            *final(conn) == *old(conn),
            old(conn).exchanges(),
            final(conn).exchanges(),
        ),
{
    call(client, conn, Method::ModuleSearch, args1(text_arg(keyword)))
}

/// Checks a target with the module `modulename` of type `moduletype` under
/// `options`; reports that the check has started, and the id of the job that
/// makes it.
pub fn check<T: Transport>(
    client: &Client,
    conn: &mut T,
    moduletype: &str,
    modulename: &str,
    options: &Vec<(String, String)>,
) -> (r: Result<Vec<(String, String)>, Error>)
    ensures
        checked_call(
            client@,
            Method::ModuleCheck,
            seq![
                Data::Str(moduletype@),
                Data::Str(modulename@),
                options_data(settled(pairs_view(options@))),
            ],
            r,
            *final(conn) == *old(conn),
            old(conn).exchanges(),
            final(conn).exchanges(),
        ),
{
    call_checked(
        client,
        conn,
        Method::ModuleCheck,
        args3(text_arg(moduletype), text_arg(modulename), options_arg(options)),
    )
}

/// The lists of modules, by type.
#[derive(Clone, Debug)]
pub struct list {
    /// The client through which the lists are asked for.
    pub client: Client,
}

impl list {
    /// The lists of modules, asked for through `client`.
    pub fn new(client: Client) -> (r: Self)
        ensures
            r.client == client,
    {
        list { client }
    }

    /// Lists the exploit modules.
    pub fn exploits<T: Transport>(&self, conn: &mut T) -> (r: Result<Vec<String>, Error>)
        ensures
            texts_call(
                self.client@,
                Method::ModuleExploits,
                Seq::<Data>::empty(),
                "modules"@,
                r,
                *final(conn) == *old(conn),
                old(conn).exchanges(),
                final(conn).exchanges(),
            ),
    {
        call_texts(&self.client, conn, Method::ModuleExploits, args0(), "modules")
    }

    /// Lists the auxiliary modules.
    pub fn auxiliary<T: Transport>(&self, conn: &mut T) -> (r: Result<Vec<String>, Error>)
        ensures
            texts_call(
                self.client@,
                Method::ModuleAuxiliary,
                Seq::<Data>::empty(),
                "modules"@,
                r,
                *final(conn) == *old(conn),
                old(conn).exchanges(),
                final(conn).exchanges(),
            ),
    {
        call_texts(&self.client, conn, Method::ModuleAuxiliary, args0(), "modules")
    }

    /// Lists the evasion modules.
    pub fn evasions<T: Transport>(&self, conn: &mut T) -> (r: Result<Vec<String>, Error>)
        ensures
            texts_call(
                self.client@,
                Method::ModuleEvasion,
                Seq::<Data>::empty(),
                "modules"@,
                r,
                *final(conn) == *old(conn),
                old(conn).exchanges(),
                final(conn).exchanges(),
            ),
    {
        call_texts(&self.client, conn, Method::ModuleEvasion, args0(), "modules")
    }

    /// Lists the post modules.
    pub fn post<T: Transport>(&self, conn: &mut T) -> (r: Result<Vec<String>, Error>)
        ensures
            texts_call(
                self.client@,
                Method::ModulePost,
                Seq::<Data>::empty(),
                "modules"@,
                r,
                *final(conn) == *old(conn),
                old(conn).exchanges(),
                final(conn).exchanges(),
            ),
    {
        call_texts(&self.client, conn, Method::ModulePost, args0(), "modules")
    }

    /// Lists the payload modules.
    pub fn payloads<T: Transport>(&self, conn: &mut T) -> (r: Result<Vec<String>, Error>)
        ensures
            texts_call(
                self.client@,
                Method::ModulePayloads,
                Seq::<Data>::empty(),
                "modules"@,
                r,
                *final(conn) == *old(conn),
                old(conn).exchanges(),
                final(conn).exchanges(),
            ),
    {
        call_texts(&self.client, conn, Method::ModulePayloads, args0(), "modules")
    }

    /// Lists the encoder modules.
    pub fn encoders<T: Transport>(&self, conn: &mut T) -> (r: Result<Vec<String>, Error>)
        ensures
            texts_call(
                self.client@,
                Method::ModuleEncoders,
                Seq::<Data>::empty(),
                "modules"@,
                r,
                *final(conn) == *old(conn),
                old(conn).exchanges(),
                final(conn).exchanges(),
            ),
    {
        call_texts(&self.client, conn, Method::ModuleEncoders, args0(), "modules")
    }

    /// Lists the formats that an encoder can write.
    pub fn encode_formats<T: Transport>(&self, conn: &mut T) -> (r: Result<Vec<String>, Error>)
        ensures
            names_call(
                self.client@,
                Method::ModuleEncodeFormats,
                Seq::<Data>::empty(),
                r,
                *final(conn) == *old(conn),
                old(conn).exchanges(),
                final(conn).exchanges(),
            ),
    {
        call_names(&self.client, conn, Method::ModuleEncodeFormats, args0())
    }

    /// Lists the nop modules.
    pub fn nops<T: Transport>(&self, conn: &mut T) -> (r: Result<Vec<String>, Error>)
        ensures
            texts_call(
                self.client@,
                Method::ModuleNops,
                Seq::<Data>::empty(),
                "modules"@,
                r,
                *final(conn) == *old(conn),
                old(conn).exchanges(),
                final(conn).exchanges(),
            ),
    {
        call_texts(&self.client, conn, Method::ModuleNops, args0(), "modules")
    }

    /// Lists the platforms.
    pub fn platforms<T: Transport>(&self, conn: &mut T) -> (r: Result<Vec<String>, Error>)
        ensures
            texts_call(
                self.client@,
                Method::ModulePlatforms,
                Seq::<Data>::empty(),
                "modules"@,
                r,
                *final(conn) == *old(conn),
                old(conn).exchanges(),
                final(conn).exchanges(),
            ),
    {
        call_texts(&self.client, conn, Method::ModulePlatforms, args0(), "modules")
    }
}

/// What fits a module: payloads and sessions.
#[derive(Clone, Debug)]
pub struct compactible {
    /// The name of the module.
    pub name: String,
    /// The client through which the lists are asked for.
    pub client: Client,
}

impl compactible {
    /// What fits the module `modulename`, asked for through `client`.
    pub fn new(modulename: String, client: Client) -> (r: Self)
        ensures
            r.name == modulename,
            r.client == client,
    {
        compactible { name: modulename, client }
    }

    /// Lists the payloads that fit the module.
    pub fn payload<T: Transport>(&self, conn: &mut T) -> (r: Result<Vec<String>, Error>)
        ensures
            texts_call(
                self.client@,
                Method::ModuleCompatiblePayloads,
                seq![Data::Str(self.name@)],
                "payloads"@,
                r,
                *final(conn) == *old(conn),
                old(conn).exchanges(),
                final(conn).exchanges(),
            ),
    {
        call_texts(
            &self.client,
            conn,
            Method::ModuleCompatiblePayloads,
            args1(text_arg(self.name.as_str())),
            "payloads",
        )
    }

    /// Lists the payloads that fit target `targetindx` of the module.
    pub fn target_payloads<T: Transport>(
        &self,
        conn: &mut T,
        targetindx: i32,
    ) -> (r: Result<Vec<String>, Error>)
        ensures
            texts_call(
                self.client@,
                Method::ModuleTargetCompatiblePayloads,
                seq![Data::Str(self.name@), Data::Int(targetindx as i64)],
                "payloads"@,
                r,
                *final(conn) == *old(conn),
                old(conn).exchanges(),
                final(conn).exchanges(),
            ),
    {
        call_texts(
            &self.client,
            conn,
            Method::ModuleTargetCompatiblePayloads,
            args2(text_arg(self.name.as_str()), number_arg(targetindx)),
            "payloads",
        )
    }

    /// Lists the sessions that fit the module.
    pub fn sessions<T: Transport>(&self, conn: &mut T) -> (r: Result<Vec<String>, Error>)
        ensures
            texts_call(
                self.client@,
                Method::ModuleCompatibleSessions,
                seq![Data::Str(self.name@)],
                "sessions"@,
                r,
                *final(conn) == *old(conn),
                old(conn).exchanges(),
                final(conn).exchanges(),
            ),
    {
        call_texts(
            &self.client,
            conn,
            Method::ModuleCompatibleSessions,
            args1(text_arg(self.name.as_str())),
            "sessions",
        )
    }
}

/// The method that runs a module of type `moduletype`: a payload module is
/// generated, every other module runs as a job.
pub open spec fn runner(moduletype: Seq<char>) -> Method {
    if moduletype == "payload"@ {
        Method::ModuleGenerate
    } else {
        Method::ModuleExecute
    }
}

/// The field of the reply that holds what running a module of type
/// `moduletype` gives: the payload, or the id of the job.
pub open spec fn product(moduletype: Seq<char>) -> Seq<char> {
    if moduletype == "payload"@ {
        "payload"@
    } else {
        "job_id"@
    }
}

/// Runs the module `modulename` of type `moduletype` under `options`;
/// returns the generated payload for a payload module, the id of the job
/// for every other module.
pub fn execute<T: Transport>(
    client: &Client,
    conn: &mut T,
    moduletype: &str,
    modulename: &str,
    options: &Vec<(String, String)>,
) -> (r: Result<Value, Error>)
    ensures
        part_call(
            client@,
            runner(moduletype@),
            seq![
                Data::Str(moduletype@),
                Data::Str(modulename@),
                options_data(settled(pairs_view(options@))),
            ],
            product(moduletype@),
            r,
            *final(conn) == *old(conn),
            old(conn).exchanges(),
            final(conn).exchanges(),
        ),
{
    let args = args3(text_arg(moduletype), text_arg(modulename), options_arg(options));
    if same_text(moduletype, "payload") {
        call_part(client, conn, Method::ModuleGenerate, args, "payload")
    } else {
        call_part(client, conn, Method::ModuleExecute, args, "job_id")
    }
}

} // verus!
