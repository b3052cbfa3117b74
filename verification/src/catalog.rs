//! The call catalog: for each method of the service its name on the wire,
//! whether it needs a token, the arguments it takes and the reply it gives.
use vstd::prelude::*;
use crate::access::{is_pairs, to_pairs};
use crate::shape::{Form, Shape};
use crate::value::{Data, Value};

verus! {

/// A kind of argument.
#[derive(Clone, Copy, Debug, PartialEq, Eq, Structural)]
pub enum Kind {
    /// A string.
    Text,
    /// An integer.
    Number,
    /// An integer, or nil where the caller leaves it out.
    Pointer,
    /// A map from strings to strings.
    Options,
}

impl Kind {
    /// Whether a value is an argument of this kind.
    pub open spec fn admits(self, d: Data) -> bool {
        match self {
            Kind::Text => d is Str,
            Kind::Number => d is Int,
            Kind::Pointer => d is Int || d is Nil,
            Kind::Options => is_pairs(d),
        }
    }

    /// Whether a value is an argument of this kind.
    pub fn accepts(&self, v: &Value) -> (r: bool)
        ensures
            r == self.admits(v@),
    {
        match self {
            Kind::Text => match v {
                Value::Str(_) => true,
                _ => false,
            },
            Kind::Number => match v {
                Value::Int(_) => true,
                _ => false,
            },
            Kind::Pointer => match v {
                Value::Int(_) => true,
                Value::Nil => true,
                _ => false,
            },
            Kind::Options => to_pairs(v).is_some(),
        }
    }
}

/// The shape of a list of strings.
pub open spec fn strings() -> Form {
    Form::List(Box::new(Form::Str))
}

/// The shape of a map of any keys and values.
pub open spec fn any_map() -> Form {
    Form::Dict(Box::new(Form::Any), Box::new(Form::Any))
}

/// The shape of a record with one field.
pub open spec fn record1(name: Seq<char>, form: Form) -> Form {
    Form::Record(seq![(name, form)])
}

/// The shape of a record with two fields.
pub open spec fn record2(a: Seq<char>, fa: Form, b: Seq<char>, fb: Form) -> Form {
    Form::Record(seq![(a, fa), (b, fb)])
}

/// The shape of a record with three fields.
pub open spec fn record3(
    a: Seq<char>,
    fa: Form,
    b: Seq<char>,
    fb: Form,
    c: Seq<char>,
    fc: Form,
) -> Form {
    Form::Record(seq![(a, fa), (b, fb), (c, fc)])
}

/// The shape of the reply of a method that only succeeds or fails: its
/// result field says which.
pub open spec fn verdict() -> Form {
    record1("result"@, Form::Str)
}

impl Shape {
    /// The shape of a list of strings.
    pub fn strings() -> (r: Shape)
        ensures
            r@ == strings(),
    {
        Shape::list_of(Shape::Str)
    }

    /// The shape of a map of any keys and values.
    pub fn any_map() -> (r: Shape)
        ensures
            r@ == any_map(),
    {
        Shape::dict_of(Shape::Any, Shape::Any)
    }

    /// The shape of a record with one field.
    pub fn record1(name: &str, shape: Shape) -> (r: Shape)
        ensures
            r@ == record1(name@, shape@),
    {
        let ghost fields = seq![(name@, shape@)];
        let r = Shape::record().with(name, shape);
        assert(r@->Record_0 =~= fields);
        r
    }

    /// The shape of a record with two fields.
    pub fn record2(a: &str, sa: Shape, b: &str, sb: Shape) -> (r: Shape)
        ensures
            r@ == record2(a@, sa@, b@, sb@),
    {
        let ghost fields = seq![(a@, sa@), (b@, sb@)];
        let r = Shape::record().with(a, sa).with(b, sb);
        assert(r@->Record_0 =~= fields);
        r
    }

    /// The shape of a record with three fields.
    pub fn record3(a: &str, sa: Shape, b: &str, sb: Shape, c: &str, sc: Shape) -> (r: Shape)
        ensures
            r@ == record3(a@, sa@, b@, sb@, c@, sc@),
    {
        let ghost fields = seq![(a@, sa@), (b@, sb@), (c@, sc@)];
        let r = Shape::record().with(a, sa).with(b, sb).with(c, sc);
        assert(r@->Record_0 =~= fields);
        r
    }

    /// The shape of the reply of a method that only succeeds or fails.
    pub fn verdict() -> (r: Shape)
        ensures
            r@ == verdict(),
    {
        Shape::record1("result", Shape::Str)
    }
}

/// A method of the service.
#[derive(Clone, Copy, Debug, PartialEq, Eq, Structural)]
pub enum Method {
    /// Logs in with a user name and a password; the reply holds the token.
    AuthLogin,
    /// Logs a token out.
    AuthLogout,
    /// Adds a permanent token.
    AuthTokenAdd,
    /// Makes a new permanent token.
    AuthTokenGenerate,
    /// Lists the tokens.
    AuthTokenList,
    /// Removes a token.
    AuthTokenRemove,
    /// Opens a console.
    ConsoleCreate,
    /// Closes a console.
    ConsoleDestroy,
    /// Lists the consoles.
    ConsoleList,
    /// Writes input to a console.
    ConsoleWrite,
    /// Reads the output of a console.
    ConsoleRead,
    /// Detaches the session that a console interacts with.
    ConsoleSessionDetach,
    /// Kills the session that a console interacts with.
    ConsoleSessionKill,
    /// Completes a line of console input.
    ConsoleTabs,
    /// Lists the sessions.
    SessionList,
    /// Stops a session.
    SessionStop,
    /// Reads the output of a shell session.
    SessionShellRead,
    /// Writes input to a shell session.
    SessionShellWrite,
    /// Writes input to a meterpreter session.
    SessionMeterpreterWrite,
    /// Reads the output of a meterpreter session.
    SessionMeterpreterRead,
    /// Runs one command in a meterpreter session.
    SessionMeterpreterRunSingle,
    /// Runs a script in a meterpreter session.
    SessionMeterpreterScript,
    /// Detaches a meterpreter session.
    SessionMeterpreterDetach,
    /// Kills a meterpreter session.
    SessionMeterpreterKill,
    /// Completes a line of meterpreter input.
    SessionMeterpreterTabs,
    /// Lists the modules that can run on a session.
    SessionCompatibleModules,
    /// Upgrades a shell session to a meterpreter session.
    SessionShellUpgrade,
    /// Clears the ring buffer of a session.
    SessionRingClear,
    /// Gives the last read pointer of a session.
    SessionRingLast,
    /// Writes into the ring buffer of a session.
    SessionRingPut,
    /// Lists the exploit modules.
    ModuleExploits,
    /// Lists the auxiliary modules.
    ModuleAuxiliary,
    /// Lists the evasion modules.
    ModuleEvasion,
    /// Lists the post modules.
    ModulePost,
    /// Lists the payload modules.
    ModulePayloads,
    /// Lists the encoder modules.
    ModuleEncoders,
    /// Lists the formats that an encoder can write.
    ModuleEncodeFormats,
    /// Lists the nop modules.
    ModuleNops,
    /// Lists the platforms.
    ModulePlatforms,
    /// Describes a module.
    ModuleInfo,
    /// Lists the payloads that fit a module.
    ModuleCompatiblePayloads,
    /// Lists the payloads that fit one target of a module.
    ModuleTargetCompatiblePayloads,
    /// Lists the sessions that fit a module.
    ModuleCompatibleSessions,
    /// Lists the options of a module.
    ModuleOptions,
    /// Encodes data with an encoder module.
    ModuleEncode,
    /// Runs a module as a job.
    ModuleExecute,
    /// Runs a payload module, which gives the generated payload.
    ModuleGenerate,
    /// Searches the modules.
    ModuleSearch,
    /// Checks a target with a module.
    ModuleCheck,
    /// Lists the jobs: job id to name.
    JobList,
    /// Describes a job.
    JobInfo,
    /// Stops a job.
    JobStop,
}

impl Method {
    /// The name of the method on the wire.
    pub open spec fn wire_name(self) -> Seq<char> {
        match self {
            Method::AuthLogin => "auth.login"@,
            Method::AuthLogout => "auth.logout"@,
            Method::AuthTokenAdd => "auth.token_add"@,
            Method::AuthTokenGenerate => "auth.token_generate"@,
            Method::AuthTokenList => "auth.token_list"@,
            Method::AuthTokenRemove => "auth.token_remove"@,
            Method::ConsoleCreate => "console.create"@,
            Method::ConsoleDestroy => "console.destroy"@,
            Method::ConsoleList => "console.list"@,
            Method::ConsoleWrite => "console.write"@,
            Method::ConsoleRead => "console.read"@,
            Method::ConsoleSessionDetach => "console.session_detach"@,
            Method::ConsoleSessionKill => "console.session_kill"@,
            Method::ConsoleTabs => "console.tabs"@,
            Method::SessionList => "session.list"@,
            Method::SessionStop => "session.stop"@,
            Method::SessionShellRead => "session.shell_read"@,
            Method::SessionShellWrite => "session.shell_write"@,
            Method::SessionMeterpreterWrite => "session.meterpreter_write"@,
            Method::SessionMeterpreterRead => "session.meterpreter_read"@,
            Method::SessionMeterpreterRunSingle => "session.meterpreter_run_single"@,
            Method::SessionMeterpreterScript => "session.meterpreter_script"@,
            Method::SessionMeterpreterDetach => "session.meterpreter_session_detach"@,
            Method::SessionMeterpreterKill => "session.meterpreter_session_kill"@,
            Method::SessionMeterpreterTabs => "session.meterpreter_tabs"@,
            Method::SessionCompatibleModules => "session.compatible_modules"@,
            Method::SessionShellUpgrade => "session.shell_upgrade"@,
            Method::SessionRingClear => "session.ring_clear"@,
            Method::SessionRingLast => "session.ring_last"@,
            Method::SessionRingPut => "session.ring_put"@,
            Method::ModuleExploits => "module.exploits"@,
            Method::ModuleAuxiliary => "module.auxiliary"@,
            Method::ModuleEvasion => "module.evasion"@,
            Method::ModulePost => "module.post"@,
            Method::ModulePayloads => "module.payloads"@,
            Method::ModuleEncoders => "module.encoders"@,
            Method::ModuleEncodeFormats => "module.encode_formats"@,
            Method::ModuleNops => "module.nops"@,
            Method::ModulePlatforms => "module.platforms"@,
            Method::ModuleInfo => "module.info"@,
            Method::ModuleCompatiblePayloads => "module.compatible_payloads"@,
            Method::ModuleTargetCompatiblePayloads => "module.target_compatible_payloads"@,
            Method::ModuleCompatibleSessions => "module.compatible_sessions"@,
            Method::ModuleOptions => "module.options"@,
            Method::ModuleEncode => "module.encode"@,
            Method::ModuleExecute => "module.execute"@,
            Method::ModuleGenerate => "module.execute"@,
            Method::ModuleSearch => "module.search"@,
            Method::ModuleCheck => "module.check"@,
            Method::JobList => "job.list"@,
            Method::JobInfo => "job.info"@,
            Method::JobStop => "job.stop"@,
        }
    }

    /// Whether the token of the session follows the name in a request: it
    /// does for every method but the login.
    pub open spec fn token_needed(self) -> bool {
        !(self is AuthLogin)
    }

    /// The kinds of the arguments that follow, in order.
    pub open spec fn parameters(self) -> Seq<Kind> {
        match self {
            Method::AuthLogin
            | Method::ConsoleWrite
            | Method::ConsoleTabs
            | Method::SessionShellWrite
            | Method::SessionMeterpreterWrite
            | Method::SessionMeterpreterRunSingle
            | Method::SessionMeterpreterScript
            | Method::SessionMeterpreterTabs
            | Method::SessionRingPut
            | Method::ModuleInfo
            | Method::ModuleOptions => seq![Kind::Text, Kind::Text],
            Method::AuthLogout
            | Method::AuthTokenAdd
            | Method::AuthTokenRemove
            | Method::ConsoleDestroy
            | Method::ConsoleRead
            | Method::ConsoleSessionDetach
            | Method::ConsoleSessionKill
            | Method::SessionStop
            | Method::SessionMeterpreterRead
            | Method::SessionMeterpreterDetach
            | Method::SessionMeterpreterKill
            | Method::SessionCompatibleModules
            | Method::SessionRingClear
            | Method::SessionRingLast
            | Method::ModuleCompatiblePayloads
            | Method::ModuleCompatibleSessions
            | Method::ModuleSearch
            | Method::JobInfo
            | Method::JobStop => seq![Kind::Text],
            Method::AuthTokenGenerate
            | Method::AuthTokenList
            | Method::ConsoleCreate
            | Method::ConsoleList
            | Method::SessionList
            | Method::ModuleExploits
            | Method::ModuleAuxiliary
            | Method::ModuleEvasion
            | Method::ModulePost
            | Method::ModulePayloads
            | Method::ModuleEncoders
            | Method::ModuleEncodeFormats
            | Method::ModuleNops
            | Method::ModulePlatforms
            | Method::JobList => Seq::empty(),
            Method::SessionShellRead => seq![Kind::Text, Kind::Pointer],
            Method::SessionShellUpgrade => seq![Kind::Text, Kind::Text, Kind::Number],
            Method::ModuleTargetCompatiblePayloads => seq![Kind::Text, Kind::Number],
            Method::ModuleEncode
            | Method::ModuleExecute
            | Method::ModuleGenerate
            | Method::ModuleCheck => seq![Kind::Text, Kind::Text, Kind::Options],
        }
    }

    /// The shape of a successful reply.
    pub open spec fn reply_form(self) -> Form {
        match self {
            Method::AuthLogin
            | Method::AuthTokenGenerate => record2("result"@, Form::Str, "token"@, Form::Str),
            Method::AuthLogout
            | Method::AuthTokenAdd
            | Method::AuthTokenRemove
            | Method::ConsoleDestroy
            | Method::ConsoleSessionDetach
            | Method::ConsoleSessionKill
            | Method::SessionStop
            | Method::SessionMeterpreterWrite
            | Method::SessionMeterpreterRunSingle
            | Method::SessionMeterpreterScript
            | Method::SessionMeterpreterDetach
            | Method::SessionMeterpreterKill
            | Method::SessionShellUpgrade
            | Method::SessionRingClear
            | Method::JobStop => verdict(),
            Method::AuthTokenList => record1("tokens"@, strings()),
            Method::ConsoleCreate => {
                record3("id"@, Form::Any, "prompt"@, Form::Str, "busy"@, Form::Bool)
            },
            Method::ConsoleList => record1("consoles"@, Form::List(Box::new(any_map()))),
            Method::ConsoleWrite => record1("wrote"@, Form::Str),
            Method::ConsoleRead => {
                record3("data"@, Form::Str, "prompt"@, Form::Str, "busy"@, Form::Bool)
            },
            Method::ConsoleTabs | Method::SessionMeterpreterTabs => record1("tabs"@, strings()),
            Method::SessionList => Form::Dict(Box::new(Form::Any), Box::new(any_map())),
            Method::SessionShellRead => record2("seq"@, Form::Any, "data"@, Form::Str),
            Method::SessionShellWrite
            | Method::SessionRingPut => record1("write_count"@, Form::Int),
            Method::SessionMeterpreterRead => record1("data"@, Form::Str),
            Method::SessionCompatibleModules
            | Method::ModuleExploits
            | Method::ModuleAuxiliary
            | Method::ModuleEvasion
            | Method::ModulePost
            | Method::ModulePayloads
            | Method::ModuleEncoders
            | Method::ModuleNops
            | Method::ModulePlatforms => record1("modules"@, strings()),
            Method::SessionRingLast => record1("seq"@, Form::Int),
            Method::ModuleEncodeFormats => strings(),
            Method::ModuleInfo => record2("name"@, Form::Str, "description"@, Form::Str),
            Method::ModuleCompatiblePayloads
            | Method::ModuleTargetCompatiblePayloads => record1("payloads"@, strings()),
            Method::ModuleCompatibleSessions => record1("sessions"@, strings()),
            Method::ModuleOptions => Form::Dict(Box::new(Form::Str), Box::new(any_map())),
            Method::ModuleEncode => record1("encoded"@, Form::Str),
            Method::ModuleExecute => record1("job_id"@, Form::Any),
            Method::ModuleGenerate => record1("payload"@, Form::Any),
            Method::ModuleSearch => Form::List(Box::new(any_map())),
            Method::ModuleCheck => record1("job_id"@, Form::Str),
            Method::JobList => Form::Dict(Box::new(Form::Str), Box::new(Form::Str)),
            Method::JobInfo => record2("jid"@, Form::Int, "name"@, Form::Str),
        }
    }

    /// Whether a successful reply says so in its result field.
    pub open spec fn result_checked(self) -> bool {
        match self {
            Method::AuthLogin
            | Method::AuthLogout
            | Method::AuthTokenAdd
            | Method::AuthTokenGenerate
            | Method::AuthTokenRemove
            | Method::ConsoleDestroy
            | Method::ConsoleSessionDetach
            | Method::ConsoleSessionKill
            | Method::SessionStop
            | Method::SessionMeterpreterWrite
            | Method::SessionMeterpreterRunSingle
            | Method::SessionMeterpreterScript
            | Method::SessionMeterpreterDetach
            | Method::SessionMeterpreterKill
            | Method::SessionShellUpgrade
            | Method::SessionRingClear
            | Method::JobStop => true,
            Method::AuthTokenList
            | Method::ConsoleCreate
            | Method::ConsoleList
            | Method::ConsoleWrite
            | Method::ConsoleRead
            | Method::ConsoleTabs
            | Method::SessionList
            | Method::SessionShellRead
            | Method::SessionShellWrite
            | Method::SessionMeterpreterRead
            | Method::SessionMeterpreterTabs
            | Method::SessionCompatibleModules
            | Method::SessionRingLast
            | Method::SessionRingPut
            | Method::ModuleExploits
            | Method::ModuleAuxiliary
            | Method::ModuleEvasion
            | Method::ModulePost
            | Method::ModulePayloads
            | Method::ModuleEncoders
            | Method::ModuleEncodeFormats
            | Method::ModuleNops
            | Method::ModulePlatforms
            | Method::ModuleInfo
            | Method::ModuleCompatiblePayloads
            | Method::ModuleTargetCompatiblePayloads
            | Method::ModuleCompatibleSessions
            | Method::ModuleOptions
            | Method::ModuleEncode
            | Method::ModuleExecute
            | Method::ModuleGenerate
            | Method::ModuleSearch
            | Method::ModuleCheck
            | Method::JobList
            | Method::JobInfo => false,
        }
    }

    /// Whether `args` are arguments that the method takes: as many as it
    /// has parameters, each of its parameter's kind.
    pub open spec fn takes(self, args: Seq<Data>) -> bool {
        &&& args.len() == self.parameters().len()
        &&& forall|i: int|
            0 <= i < args.len() ==> self.parameters()[i].admits(#[trigger] args[i])
    }

    /// The name of the method on the wire.
    pub fn name(&self) -> (r: &'static str)
        ensures
            r@ == self.wire_name(),
    {
        match self {
            Method::AuthLogin => "auth.login",
            Method::AuthLogout => "auth.logout",
            Method::AuthTokenAdd => "auth.token_add",
            Method::AuthTokenGenerate => "auth.token_generate",
            Method::AuthTokenList => "auth.token_list",
            Method::AuthTokenRemove => "auth.token_remove",
            Method::ConsoleCreate => "console.create",
            Method::ConsoleDestroy => "console.destroy",
            Method::ConsoleList => "console.list",
            Method::ConsoleWrite => "console.write",
            Method::ConsoleRead => "console.read",
            Method::ConsoleSessionDetach => "console.session_detach",
            Method::ConsoleSessionKill => "console.session_kill",
            Method::ConsoleTabs => "console.tabs",
            Method::SessionList => "session.list",
            Method::SessionStop => "session.stop",
            Method::SessionShellRead => "session.shell_read",
            Method::SessionShellWrite => "session.shell_write",
            Method::SessionMeterpreterWrite => "session.meterpreter_write",
            Method::SessionMeterpreterRead => "session.meterpreter_read",
            Method::SessionMeterpreterRunSingle => "session.meterpreter_run_single",
            Method::SessionMeterpreterScript => "session.meterpreter_script",
            Method::SessionMeterpreterDetach => "session.meterpreter_session_detach",
            Method::SessionMeterpreterKill => "session.meterpreter_session_kill",
            Method::SessionMeterpreterTabs => "session.meterpreter_tabs",
            Method::SessionCompatibleModules => "session.compatible_modules",
            Method::SessionShellUpgrade => "session.shell_upgrade",
            Method::SessionRingClear => "session.ring_clear",
            Method::SessionRingLast => "session.ring_last",
            Method::SessionRingPut => "session.ring_put",
            Method::ModuleExploits => "module.exploits",
            Method::ModuleAuxiliary => "module.auxiliary",
            Method::ModuleEvasion => "module.evasion",
            Method::ModulePost => "module.post",
            Method::ModulePayloads => "module.payloads",
            Method::ModuleEncoders => "module.encoders",
            Method::ModuleEncodeFormats => "module.encode_formats",
            Method::ModuleNops => "module.nops",
            Method::ModulePlatforms => "module.platforms",
            Method::ModuleInfo => "module.info",
            Method::ModuleCompatiblePayloads => "module.compatible_payloads",
            Method::ModuleTargetCompatiblePayloads => "module.target_compatible_payloads",
            Method::ModuleCompatibleSessions => "module.compatible_sessions",
            Method::ModuleOptions => "module.options",
            Method::ModuleEncode => "module.encode",
            Method::ModuleExecute => "module.execute",
            Method::ModuleGenerate => "module.execute",
            Method::ModuleSearch => "module.search",
            Method::ModuleCheck => "module.check",
            Method::JobList => "job.list",
            Method::JobInfo => "job.info",
            Method::JobStop => "job.stop",
        }
    }

    /// Whether the token of the session follows the name in a request.
    pub fn needs_token(&self) -> (r: bool)
        ensures
            r == self.token_needed(),
    {
        match self {
            Method::AuthLogin => false,
            _ => true,
        }
    }

    /// The kinds of the arguments that follow, in order.
    pub fn kinds(&self) -> (r: Vec<Kind>)
        ensures
            r@ == self.parameters(),
    {
        let r = match self {
            Method::AuthLogin
            | Method::ConsoleWrite
            | Method::ConsoleTabs
            | Method::SessionShellWrite
            | Method::SessionMeterpreterWrite
            | Method::SessionMeterpreterRunSingle
            | Method::SessionMeterpreterScript
            | Method::SessionMeterpreterTabs
            | Method::SessionRingPut
            | Method::ModuleInfo
            | Method::ModuleOptions => vec![Kind::Text, Kind::Text],
            Method::AuthLogout
            | Method::AuthTokenAdd
            | Method::AuthTokenRemove
            | Method::ConsoleDestroy
            | Method::ConsoleRead
            | Method::ConsoleSessionDetach
            | Method::ConsoleSessionKill
            | Method::SessionStop
            | Method::SessionMeterpreterRead
            | Method::SessionMeterpreterDetach
            | Method::SessionMeterpreterKill
            | Method::SessionCompatibleModules
            | Method::SessionRingClear
            | Method::SessionRingLast
            | Method::ModuleCompatiblePayloads
            | Method::ModuleCompatibleSessions
            | Method::ModuleSearch
            | Method::JobInfo
            | Method::JobStop => vec![Kind::Text],
            Method::AuthTokenGenerate
            | Method::AuthTokenList
            | Method::ConsoleCreate
            | Method::ConsoleList
            | Method::SessionList
            | Method::ModuleExploits
            | Method::ModuleAuxiliary
            | Method::ModuleEvasion
            | Method::ModulePost
            | Method::ModulePayloads
            | Method::ModuleEncoders
            | Method::ModuleEncodeFormats
            | Method::ModuleNops
            | Method::ModulePlatforms
            | Method::JobList => Vec::new(),
            Method::SessionShellRead => vec![Kind::Text, Kind::Pointer],
            Method::SessionShellUpgrade => vec![Kind::Text, Kind::Text, Kind::Number],
            Method::ModuleTargetCompatiblePayloads => vec![Kind::Text, Kind::Number],
            Method::ModuleEncode
            | Method::ModuleExecute
            | Method::ModuleGenerate
            | Method::ModuleCheck => vec![Kind::Text, Kind::Text, Kind::Options],
        };
        assert(r@ =~= self.parameters());
        r
    }

    /// The shape of a successful reply.
    pub fn reply(&self) -> (r: Shape)
        ensures
            r@ == self.reply_form(),
    {
        match self {
            Method::AuthLogin
            | Method::AuthTokenGenerate => {
                Shape::record2("result", Shape::Str, "token", Shape::Str)
            },
            Method::AuthLogout
            | Method::AuthTokenAdd
            | Method::AuthTokenRemove
            | Method::ConsoleDestroy
            | Method::ConsoleSessionDetach
            | Method::ConsoleSessionKill
            | Method::SessionStop
            | Method::SessionMeterpreterWrite
            | Method::SessionMeterpreterRunSingle
            | Method::SessionMeterpreterScript
            | Method::SessionMeterpreterDetach
            | Method::SessionMeterpreterKill
            | Method::SessionShellUpgrade
            | Method::SessionRingClear
            | Method::JobStop => Shape::verdict(),
            Method::AuthTokenList => Shape::record1("tokens", Shape::strings()),
            Method::ConsoleCreate => {
                Shape::record3("id", Shape::Any, "prompt", Shape::Str, "busy", Shape::Bool)
            },
            Method::ConsoleList => Shape::record1("consoles", Shape::list_of(Shape::any_map())),
            Method::ConsoleWrite => Shape::record1("wrote", Shape::Str),
            Method::ConsoleRead => {
                Shape::record3("data", Shape::Str, "prompt", Shape::Str, "busy", Shape::Bool)
            },
            Method::ConsoleTabs
            | Method::SessionMeterpreterTabs => Shape::record1("tabs", Shape::strings()),
            Method::SessionList => Shape::dict_of(Shape::Any, Shape::any_map()),
            Method::SessionShellRead => Shape::record2("seq", Shape::Any, "data", Shape::Str),
            Method::SessionShellWrite
            | Method::SessionRingPut => Shape::record1("write_count", Shape::Int),
            Method::SessionMeterpreterRead => Shape::record1("data", Shape::Str),
            Method::SessionCompatibleModules
            | Method::ModuleExploits
            | Method::ModuleAuxiliary
            | Method::ModuleEvasion
            | Method::ModulePost
            | Method::ModulePayloads
            | Method::ModuleEncoders
            | Method::ModuleNops
            | Method::ModulePlatforms => Shape::record1("modules", Shape::strings()),
            Method::SessionRingLast => Shape::record1("seq", Shape::Int),
            Method::ModuleEncodeFormats => Shape::strings(),
            Method::ModuleInfo => Shape::record2("name", Shape::Str, "description", Shape::Str),
            Method::ModuleCompatiblePayloads
            | Method::ModuleTargetCompatiblePayloads => {
                Shape::record1("payloads", Shape::strings())
            },
            Method::ModuleCompatibleSessions => Shape::record1("sessions", Shape::strings()),
            Method::ModuleOptions => Shape::dict_of(Shape::Str, Shape::any_map()),
            Method::ModuleEncode => Shape::record1("encoded", Shape::Str),
            Method::ModuleExecute => Shape::record1("job_id", Shape::Any),
            Method::ModuleGenerate => Shape::record1("payload", Shape::Any),
            Method::ModuleSearch => Shape::list_of(Shape::any_map()),
            Method::ModuleCheck => Shape::record1("job_id", Shape::Str),
            Method::JobList => Shape::dict_of(Shape::Str, Shape::Str),
            Method::JobInfo => Shape::record2("jid", Shape::Int, "name", Shape::Str),
        }
    }

    /// Whether a successful reply says so in its result field.
    pub fn checks_result(&self) -> (r: bool)
        ensures
            r == self.result_checked(),
    {
        match self {
            Method::AuthLogin
            | Method::AuthLogout
            | Method::AuthTokenAdd
            | Method::AuthTokenGenerate
            | Method::AuthTokenRemove
            | Method::ConsoleDestroy
            | Method::ConsoleSessionDetach
            | Method::ConsoleSessionKill
            | Method::SessionStop
            | Method::SessionMeterpreterWrite
            | Method::SessionMeterpreterRunSingle
            | Method::SessionMeterpreterScript
            | Method::SessionMeterpreterDetach
            | Method::SessionMeterpreterKill
            | Method::SessionShellUpgrade
            | Method::SessionRingClear
            | Method::JobStop => true,
            Method::AuthTokenList
            | Method::ConsoleCreate
            | Method::ConsoleList
            | Method::ConsoleWrite
            | Method::ConsoleRead
            | Method::ConsoleTabs
            | Method::SessionList
            | Method::SessionShellRead
            | Method::SessionShellWrite
            | Method::SessionMeterpreterRead
            | Method::SessionMeterpreterTabs
            | Method::SessionCompatibleModules
            | Method::SessionRingLast
            | Method::SessionRingPut
            | Method::ModuleExploits
            | Method::ModuleAuxiliary
            | Method::ModuleEvasion
            | Method::ModulePost
            | Method::ModulePayloads
            | Method::ModuleEncoders
            | Method::ModuleEncodeFormats
            | Method::ModuleNops
            | Method::ModulePlatforms
            | Method::ModuleInfo
            | Method::ModuleCompatiblePayloads
            | Method::ModuleTargetCompatiblePayloads
            | Method::ModuleCompatibleSessions
            | Method::ModuleOptions
            | Method::ModuleEncode
            | Method::ModuleExecute
            | Method::ModuleGenerate
            | Method::ModuleSearch
            | Method::ModuleCheck
            | Method::JobList
            | Method::JobInfo => false,
        }
    }
}

} // verus!
