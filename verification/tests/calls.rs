use metasploit::catalog::{Kind, Method};
use metasploit::client::{decimal_text, Client, Endpoint};
use metasploit::decoder::decode;
use metasploit::encoder::encode;
use metasploit::error::{ConnectionError, Error, Malformed, MsfError, Violation};
use metasploit::msf::{auth, console, jobs, modules, sessions};
use metasploit::number::parse_number;
use metasploit::pipeline::{call, request, takes_args, Transport};
use metasploit::reply::{
    args0, args1, args2, args3, call_flag, call_int, call_names, call_pairs, call_part, call_text,
    call_texts, number_arg, options_arg, pointer_arg, text_arg,
};
use metasploit::resolver::envelope_value;
use metasploit::scripted::Scripted;
use metasploit::shape::Shape;
use metasploit::value::Value;
use std::collections::BTreeMap;

/// A transport that answers every request with the same outcome and keeps
/// what it was sent.
struct Canned {
    outcome: Result<Vec<u8>, ConnectionError>,
    sent: Vec<(String, Vec<u8>)>,
}

impl Canned {
    fn replying(v: &Value) -> Canned {
        Canned { outcome: Ok(encode(v).expect("the reply can be written")), sent: vec![] }
    }

    fn failing(e: ConnectionError) -> Canned {
        Canned { outcome: Err(e), sent: vec![] }
    }

    fn last_request(&self) -> Value {
        decode(&self.sent.last().expect("a request was sent").1).expect("the request is a value")
    }
}

impl Transport for Canned {
    fn send(&mut self, endpoint: &str, request: &[u8]) -> Result<Vec<u8>, ConnectionError> {
        self.sent.push((endpoint.to_string(), request.to_vec()));
        self.outcome.clone()
    }
}

fn text(s: &str) -> Value {
    Value::Str(s.to_string())
}

fn record(fields: Vec<(&str, Value)>) -> Value {
    Value::Dict(fields.into_iter().map(|(k, v)| (text(k), v)).collect())
}

fn list(items: Vec<&str>) -> Value {
    Value::List(items.into_iter().map(text).collect())
}

fn strings(items: Vec<&str>) -> Vec<String> {
    items.into_iter().map(|s| s.to_string()).collect()
}

fn success() -> Value {
    record(vec![("result", text("success"))])
}

fn logged_in() -> Client {
    Client::with_token("https://127.0.0.1:55552/api/", "tok-123")
}

fn logged_out() -> Client {
    Client::new("https://127.0.0.1:55552/api/")
}

fn denied() -> MsfError {
    MsfError {
        error: true,
        error_class: "Msf::RPC::Exception".to_string(),
        error_string: "Msf::RPC::Exception".to_string(),
        error_message: "Invalid Authentication Token".to_string(),
        error_backtrace: vec!["service.rb:148".to_string()],
    }
}

fn all_methods() -> Vec<Method> {
    vec![
        Method::AuthLogin,
        Method::AuthLogout,
        Method::AuthTokenAdd,
        Method::AuthTokenGenerate,
        Method::AuthTokenList,
        Method::AuthTokenRemove,
        Method::ConsoleCreate,
        Method::ConsoleDestroy,
        Method::ConsoleList,
        Method::ConsoleWrite,
        Method::ConsoleRead,
        Method::ConsoleSessionDetach,
        Method::ConsoleSessionKill,
        Method::ConsoleTabs,
        Method::SessionList,
        Method::SessionStop,
        Method::SessionShellRead,
        Method::SessionShellWrite,
        Method::SessionMeterpreterWrite,
        Method::SessionMeterpreterRead,
        Method::SessionMeterpreterRunSingle,
        Method::SessionMeterpreterScript,
        Method::SessionMeterpreterDetach,
        Method::SessionMeterpreterKill,
        Method::SessionMeterpreterTabs,
        Method::SessionCompatibleModules,
        Method::SessionShellUpgrade,
        Method::SessionRingClear,
        Method::SessionRingLast,
        Method::SessionRingPut,
        Method::ModuleExploits,
        Method::ModuleAuxiliary,
        Method::ModuleEvasion,
        Method::ModulePost,
        Method::ModulePayloads,
        Method::ModuleEncoders,
        Method::ModuleEncodeFormats,
        Method::ModuleNops,
        Method::ModulePlatforms,
        Method::ModuleInfo,
        Method::ModuleCompatiblePayloads,
        Method::ModuleTargetCompatiblePayloads,
        Method::ModuleCompatibleSessions,
        Method::ModuleOptions,
        Method::ModuleEncode,
        Method::ModuleExecute,
        Method::ModuleGenerate,
        Method::ModuleSearch,
        Method::ModuleCheck,
        Method::JobList,
        Method::JobInfo,
        Method::JobStop,
    ]
}

fn sample(kind: Kind) -> Value {
    match kind {
        Kind::Text => text("1"),
        Kind::Number => Value::Int(4444),
        Kind::Pointer => Value::Nil,
        Kind::Options => record(vec![("RHOSTS", text("10.0.0.1"))]),
    }
}

fn sample_args(m: Method) -> Vec<Value> {
    m.kinds().into_iter().map(sample).collect()
}

#[test]
fn a_logout_request_is_the_name_the_token_and_the_argument() {
    let bytes = request(&logged_in(), Method::AuthLogout, vec![text("out-tok-456")]).unwrap();
    assert_eq!(bytes, rmp_serde::to_vec(&("auth.logout", "tok-123", "out-tok-456")).unwrap());
    assert_eq!(
        decode(&bytes),
        Ok(list(vec!["auth.logout", "tok-123", "out-tok-456"]))
    );
}

#[test]
fn a_login_request_carries_no_token() {
    let bytes = request(
        &logged_out(),
        Method::AuthLogin,
        vec![text("msf"), text("password")],
    ).unwrap();
    assert_eq!(bytes, rmp_serde::to_vec(&("auth.login", "msf", "password")).unwrap());
    let bytes = request(
        &logged_in(),
        Method::AuthLogin,
        vec![text("msf"), text("password")],
    ).unwrap();
    assert_eq!(bytes, rmp_serde::to_vec(&("auth.login", "msf", "password")).unwrap());
}

#[test]
fn every_request_that_is_built_reads_back_as_its_envelope() {
    for m in all_methods() {
        let args = sample_args(m);
        let bytes = request(&logged_in(), m, args.clone()).unwrap();
        let mut expected = vec![text(m.name())];
        if m.needs_token() {
            expected.push(text("tok-123"));
        }
        expected.extend(args);
        assert_eq!(decode(&bytes), Ok(Value::List(expected)), "method {:?}", m);
    }
}

#[test]
fn without_a_token_nothing_is_sent() {
    for m in all_methods() {
        let mut conn = Canned::replying(&success());
        let r = call(&logged_out(), &mut conn, m, sample_args(m));
        if m.needs_token() {
            assert_eq!(r, Err(Error::InvalidState(Violation::MissingToken)), "method {:?}", m);
            assert_eq!(conn.sent.len(), 0, "method {:?}", m);
        } else {
            assert_eq!(conn.sent.len(), 1, "method {:?}", m);
        }
    }
}

#[test]
fn without_a_token_every_operation_is_an_invalid_state() {
    let missing = Error::InvalidState(Violation::MissingToken);
    let client = logged_out();
    let mut conn = Canned::replying(&success());
    let options = vec![("RHOSTS".to_string(), "10.0.0.1".to_string())];
    assert_eq!(auth::logout(&client, &mut conn, "t"), Err(missing.clone()));
    assert_eq!(auth::token_add(&client, &mut conn, "t"), Err(missing.clone()));
    assert_eq!(auth::token_gen(&client, &mut conn), Err(missing.clone()));
    assert_eq!(auth::token_list(&client, &mut conn), Err(missing.clone()));
    assert_eq!(auth::token_remove(&client, &mut conn, "t"), Err(missing.clone()));
    assert_eq!(console::create(&client, &mut conn), Err(missing.clone()));
    assert_eq!(console::destroy(&client, &mut conn, "0"), Err(missing.clone()));
    assert_eq!(console::list(&client, &mut conn), Err(missing.clone()));
    assert_eq!(console::write(&client, &mut conn, "0", "help\n"), Err(missing.clone()));
    assert_eq!(console::read(&client, &mut conn, "0"), Err(missing.clone()));
    assert_eq!(console::session_detach(&client, &mut conn, "0"), Err(missing.clone()));
    assert_eq!(console::session_kill(&client, &mut conn, "0"), Err(missing.clone()));
    assert_eq!(console::tabs(&client, &mut conn, "0", "he"), Err(missing.clone()));
    assert_eq!(sessions::list(&client, &mut conn), Err(missing.clone()));
    assert_eq!(sessions::stop(&client, &mut conn, "1"), Err(missing.clone()));
    assert_eq!(sessions::compactible_modules(&client, &mut conn, "1"), Err(missing.clone()));
    assert_eq!(sessions::shell_upgrade(&client, &mut conn, "1", "h", 1), Err(missing.clone()));
    assert_eq!(sessions::shell::read(&client, &mut conn, "1", None), Err(missing.clone()));
    assert_eq!(sessions::shell::write(&client, &mut conn, "1", "id\n"), Err(missing.clone()));
    let m = sessions::meterpreter::new(client.clone(), "1");
    assert_eq!(m.write(&mut conn, "x"), Err(missing.clone()));
    assert_eq!(m.read(&mut conn), Err(missing.clone()));
    assert_eq!(m.run_single(&mut conn, "x"), Err(missing.clone()));
    assert_eq!(m.script(&mut conn, "x"), Err(missing.clone()));
    assert_eq!(m.session_detach(&mut conn), Err(missing.clone()));
    assert_eq!(m.session_kill(&mut conn), Err(missing.clone()));
    assert_eq!(m.detach_session(&mut conn), Err(missing.clone()));
    assert_eq!(m.kill_session(&mut conn), Err(missing.clone()));
    assert_eq!(m.tabs(&mut conn, "x"), Err(missing.clone()));
    assert_eq!(m.compactible_modules(&mut conn), Err(missing.clone()));
    let r = sessions::ring::new(client.clone(), "1");
    assert_eq!(r.clear(&mut conn), Err(missing.clone()));
    assert_eq!(r.last(&mut conn), Err(missing.clone()));
    assert_eq!(r.put(&mut conn, "x"), Err(missing.clone()));
    let l = modules::list::new(client.clone());
    assert_eq!(l.exploits(&mut conn), Err(missing.clone()));
    assert_eq!(l.auxiliary(&mut conn), Err(missing.clone()));
    assert_eq!(l.evasions(&mut conn), Err(missing.clone()));
    assert_eq!(l.post(&mut conn), Err(missing.clone()));
    assert_eq!(l.payloads(&mut conn), Err(missing.clone()));
    assert_eq!(l.encoders(&mut conn), Err(missing.clone()));
    assert_eq!(l.encode_formats(&mut conn), Err(missing.clone()));
    assert_eq!(l.nops(&mut conn), Err(missing.clone()));
    assert_eq!(l.platforms(&mut conn), Err(missing.clone()));
    let c = modules::compactible::new("exploit/x".to_string(), client.clone());
    assert_eq!(c.payload(&mut conn), Err(missing.clone()));
    assert_eq!(c.target_payloads(&mut conn, 0), Err(missing.clone()));
    assert_eq!(c.sessions(&mut conn), Err(missing.clone()));
    assert_eq!(modules::info(&client, &mut conn, "exploit", "x"), Err(missing.clone()));
    assert_eq!(modules::option(&client, &mut conn, "exploit", "x"), Err(missing.clone()));
    assert_eq!(modules::encoder(&client, &mut conn, "d", "e", &options), Err(missing.clone()));
    assert_eq!(
        modules::execute(&client, &mut conn, "exploit", "x", &options),
        Err(missing.clone())
    );
    assert_eq!(
        modules::execute(&client, &mut conn, "payload", "x", &options),
        Err(missing.clone())
    );
    assert_eq!(modules::search(&client, &mut conn, "smb"), Err(missing.clone()));
    assert_eq!(modules::check(&client, &mut conn, "exploit", "x", &options), Err(missing.clone()));
    assert_eq!(jobs::list(&client, &mut conn), Err(missing.clone()));
    assert_eq!(jobs::info(&client, &mut conn, "0"), Err(missing.clone()));
    assert_eq!(jobs::stop(&client, &mut conn, "0"), Err(missing));
    assert_eq!(conn.sent.len(), 0);
}

#[test]
fn a_transport_that_fails_gives_a_connection_error_for_every_call() {
    for m in all_methods() {
        let mut conn = Canned::failing(ConnectionError::Refused);
        let r = call(&logged_in(), &mut conn, m, sample_args(m));
        assert_eq!(r, Err(Error::ConnectionError(ConnectionError::Refused)), "method {:?}", m);
        assert_eq!(conn.sent.len(), 1);
    }
    let client = logged_in();
    let mut conn = Canned::failing(ConnectionError::Timeout);
    let timeout = Error::ConnectionError(ConnectionError::Timeout);
    assert_eq!(auth::logout(&client, &mut conn, "t"), Err(timeout.clone()));
    assert_eq!(auth::token_gen(&client, &mut conn), Err(timeout.clone()));
    assert_eq!(auth::token_list(&client, &mut conn), Err(timeout.clone()));
    assert_eq!(console::write(&client, &mut conn, "0", "x"), Err(timeout.clone()));
    assert_eq!(console::create(&client, &mut conn), Err(timeout.clone()));
    assert_eq!(modules::list::new(client.clone()).encode_formats(&mut conn), Err(timeout.clone()));
    assert_eq!(modules::execute(&client, &mut conn, "payload", "x", &vec![]), Err(timeout.clone()));
    assert_eq!(jobs::list(&client, &mut conn), Err(timeout));
    assert_eq!(conn.sent.len(), 8);
}

#[test]
fn arguments_are_held_against_the_parameters() {
    let bad = Err(Error::InvalidState(Violation::BadArguments));
    assert_eq!(request(&logged_in(), Method::AuthLogout, vec![]), bad);
    assert_eq!(request(&logged_in(), Method::AuthLogout, vec![text("a"), text("b")]), bad);
    assert_eq!(request(&logged_in(), Method::AuthLogout, vec![Value::Int(1)]), bad);
    assert_eq!(request(&logged_in(), Method::JobList, vec![Value::Nil]), bad);
    assert_eq!(
        request(&logged_in(), Method::SessionShellUpgrade, vec![text("1"), text("h"), text("4444")]),
        bad
    );
    assert_eq!(
        request(&logged_in(), Method::ModuleEncode, vec![text("d"), text("e"), Value::List(vec![])]),
        bad
    );
    assert_eq!(
        request(
            &logged_in(),
            Method::ModuleEncode,
            vec![text("d"), text("e"), record(vec![("k", Value::Int(1))])]
        ),
        bad
    );
    assert!(takes_args(Method::SessionShellRead, &vec![text("1"), Value::Nil]));
    assert!(takes_args(Method::SessionShellRead, &vec![text("1"), Value::Int(3)]));
    assert!(!takes_args(Method::SessionShellRead, &vec![text("1"), text("3")]));
    assert!(!takes_args(Method::SessionShellRead, &vec![text("1")]));
    assert!(takes_args(Method::ModuleCheck, &vec![text("a"), text("b"), Value::Dict(vec![])]));
    let mut conn = Canned::replying(&success());
    assert_eq!(call(&logged_in(), &mut conn, Method::AuthLogout, vec![]), bad_value());
    assert_eq!(conn.sent.len(), 0);
}

fn bad_value() -> Result<Value, Error> {
    Err(Error::InvalidState(Violation::BadArguments))
}

#[test]
fn the_token_is_asked_for_before_the_arguments() {
    assert_eq!(
        request(&logged_out(), Method::AuthLogout, vec![]),
        Err(Error::InvalidState(Violation::MissingToken))
    );
    assert_eq!(
        request(&logged_out(), Method::AuthLogin, vec![]),
        Err(Error::InvalidState(Violation::BadArguments))
    );
}

#[test]
fn the_request_goes_to_the_address_of_the_client() {
    let mut conn = Canned::replying(&success());
    assert_eq!(auth::logout(&logged_in(), &mut conn, "out-tok-456"), Ok(true));
    assert_eq!(conn.sent.len(), 1);
    assert_eq!(conn.sent[0].0, "https://127.0.0.1:55552/api/");
    assert_eq!(
        conn.sent[0].1,
        rmp_serde::to_vec(&("auth.logout", "tok-123", "out-tok-456")).unwrap()
    );
}

#[test]
fn tokens_are_managed() {
    let client = logged_in();
    let mut conn = Canned::replying(&success());
    assert_eq!(auth::token_add(&client, &mut conn, "new"), Ok(true));
    assert_eq!(conn.last_request(), list(vec!["auth.token_add", "tok-123", "new"]));
    assert_eq!(auth::token_remove(&client, &mut conn, "old"), Ok(true));
    assert_eq!(conn.last_request(), list(vec!["auth.token_remove", "tok-123", "old"]));
    let mut conn = Canned::replying(
        &record(vec![("result", text("success")), ("token", text("TEMPx"))]),
    );
    assert_eq!(auth::token_gen(&client, &mut conn), Ok("TEMPx".to_string()));
    assert_eq!(conn.last_request(), list(vec!["auth.token_generate", "tok-123"]));
    let mut conn = Canned::replying(
        &record(vec![("result", text("failed")), ("token", text("TEMPx"))]),
    );
    assert!(matches!(auth::token_gen(&client, &mut conn), Err(Error::ServerError(_))));
    let mut conn = Canned::replying(&record(vec![("tokens", list(vec!["a", "b"]))]));
    assert_eq!(auth::token_list(&client, &mut conn), Ok(strings(vec!["a", "b"])));
    assert_eq!(conn.last_request(), list(vec!["auth.token_list", "tok-123"]));
    let mut conn = Canned::replying(&envelope_value(&denied()));
    assert_eq!(auth::token_list(&client, &mut conn), Err(Error::ServerError(denied())));
    assert_eq!(auth::logout(&client, &mut conn, "x"), Err(Error::ServerError(denied())));
}

#[test]
fn consoles_are_driven() {
    let client = logged_in();
    let created = record(
        vec![("id", text("0")), ("prompt", text("msf > ")), ("busy", Value::Bool(false))],
    );
    let mut conn = Canned::replying(&created);
    assert_eq!(console::create(&client, &mut conn), Ok(created.clone()));
    assert_eq!(conn.last_request(), list(vec!["console.create", "tok-123"]));
    let mut conn = Canned::replying(&success());
    assert_eq!(console::destroy(&client, &mut conn, "0"), Ok(true));
    assert_eq!(conn.last_request(), list(vec!["console.destroy", "tok-123", "0"]));
    assert_eq!(console::session_detach(&client, &mut conn, "0"), Ok(true));
    assert_eq!(conn.last_request(), list(vec!["console.session_detach", "tok-123", "0"]));
    assert_eq!(console::session_kill(&client, &mut conn, "0"), Ok(true));
    assert_eq!(conn.last_request(), list(vec!["console.session_kill", "tok-123", "0"]));
    let consoles = record(vec![("consoles", Value::List(vec![created.clone()]))]);
    let mut conn = Canned::replying(&consoles);
    assert_eq!(console::list(&client, &mut conn), Ok(consoles.clone()));
    assert_eq!(conn.last_request(), list(vec!["console.list", "tok-123"]));
    let mut conn = Canned::replying(&record(vec![("wrote", text("5"))]));
    assert_eq!(console::write(&client, &mut conn, "0", "help\n"), Ok(5));
    assert_eq!(conn.last_request(), list(vec!["console.write", "tok-123", "0", "help\n"]));
    let mut conn = Canned::replying(&record(vec![("wrote", text("2"))]));
    assert_eq!(console::write(&Client::with_token("u", "tok"), &mut conn, "0", "ls"), Ok(2));
    assert_eq!(conn.last_request(), list(vec!["console.write", "tok", "0", "ls"]));
    assert_eq!(conn.sent.len(), 1);
    let output = record(
        vec![("data", text("ok\n")), ("prompt", text("msf > ")), ("busy", Value::Bool(true))],
    );
    let mut conn = Canned::replying(&output);
    assert_eq!(console::read(&client, &mut conn, "0"), Ok(output.clone()));
    assert_eq!(conn.last_request(), list(vec!["console.read", "tok-123", "0"]));
    let mut conn = Canned::replying(&record(vec![("tabs", list(vec!["help", "hosts"]))]));
    assert_eq!(console::tabs(&client, &mut conn, "0", "h"), Ok(strings(vec!["help", "hosts"])));
    assert_eq!(conn.last_request(), list(vec!["console.tabs", "tok-123", "0", "h"]));
    let mut conn = Canned::replying(&record(vec![("result", text("failure"))]));
    assert!(matches!(console::destroy(&client, &mut conn, "9"), Err(Error::ServerError(_))));
    let mut conn = Canned::replying(&record(vec![("wrote", text("five"))]));
    assert_eq!(
        console::write(&client, &mut conn, "0", "help\n"),
        Err(Error::ProtocolError(Malformed::Shape))
    );
    let mut conn = Canned::replying(&record(vec![("wrote", Value::Int(5))]));
    assert_eq!(
        console::write(&client, &mut conn, "0", "help\n"),
        Err(Error::ProtocolError(Malformed::Shape))
    );
}

#[test]
fn sessions_are_driven() {
    let client = logged_in();
    let listed = Value::Dict(vec![(Value::Int(1), record(vec![("type", text("shell"))]))]);
    let mut conn = Canned::replying(&listed);
    assert_eq!(sessions::list(&client, &mut conn), Ok(listed.clone()));
    assert_eq!(conn.last_request(), list(vec!["session.list", "tok-123"]));
    let mut conn = Canned::replying(&Value::Dict(vec![]));
    assert_eq!(sessions::list(&client, &mut conn), Ok(Value::Dict(vec![])));
    let mut conn = Canned::replying(&success());
    assert_eq!(sessions::stop(&client, &mut conn, "1"), Ok(true));
    assert_eq!(conn.last_request(), list(vec!["session.stop", "tok-123", "1"]));
    assert_eq!(sessions::shell_upgrade(&client, &mut conn, "1", "10.0.0.2", 4444), Ok(true));
    assert_eq!(
        conn.last_request(),
        Value::List(vec![
            text("session.shell_upgrade"),
            text("tok-123"),
            text("1"),
            text("10.0.0.2"),
            Value::Int(4444),
        ])
    );
    let mut conn = Canned::replying(&record(vec![("modules", list(vec!["post/a"]))]));
    assert_eq!(sessions::compactible_modules(&client, &mut conn, "1"), Ok(strings(vec!["post/a"])));
    assert_eq!(conn.last_request(), list(vec!["session.compatible_modules", "tok-123", "1"]));
    let read = record(vec![("seq", Value::Int(7)), ("data", text("uid=0"))]);
    let mut conn = Canned::replying(&read);
    assert_eq!(sessions::shell::read(&client, &mut conn, "1", None), Ok(read.clone()));
    assert_eq!(
        conn.last_request(),
        Value::List(vec![text("session.shell_read"), text("tok-123"), text("1"), Value::Nil])
    );
    assert_eq!(sessions::shell::read(&client, &mut conn, "1", Some(-3)), Ok(read.clone()));
    assert_eq!(
        conn.last_request(),
        Value::List(vec![text("session.shell_read"), text("tok-123"), text("1"), Value::Int(-3)])
    );
    let mut conn = Canned::replying(&record(vec![("write_count", Value::Int(3))]));
    assert_eq!(sessions::shell::write(&client, &mut conn, "1", "id\n"), Ok(3));
    assert_eq!(conn.last_request(), list(vec!["session.shell_write", "tok-123", "1", "id\n"]));
}

#[test]
fn a_meterpreter_session_is_driven() {
    let m = sessions::meterpreter::new(logged_in(), "5");
    assert_eq!(m.sessionid, "5");
    assert_eq!(m.client, logged_in());
    let mut conn = Canned::replying(&success());
    assert_eq!(m.write(&mut conn, "ps\n"), Ok(true));
    assert_eq!(
        conn.last_request(),
        list(vec!["session.meterpreter_write", "tok-123", "5", "ps\n"])
    );
    assert_eq!(m.run_single(&mut conn, "ps"), Ok(true));
    assert_eq!(
        conn.last_request(),
        list(vec!["session.meterpreter_run_single", "tok-123", "5", "ps"])
    );
    assert_eq!(m.script(&mut conn, "a.rb"), Ok(true));
    assert_eq!(
        conn.last_request(),
        list(vec!["session.meterpreter_script", "tok-123", "5", "a.rb"])
    );
    assert_eq!(m.session_detach(&mut conn), Ok(true));
    assert_eq!(
        conn.last_request(),
        list(vec!["session.meterpreter_session_detach", "tok-123", "5"])
    );
    assert_eq!(m.detach_session(&mut conn), Ok(true));
    assert_eq!(
        conn.last_request(),
        list(vec!["session.meterpreter_session_detach", "tok-123", "5"])
    );
    assert_eq!(m.session_kill(&mut conn), Ok(true));
    assert_eq!(conn.last_request(), list(vec!["session.meterpreter_session_kill", "tok-123", "5"]));
    assert_eq!(m.kill_session(&mut conn), Ok(true));
    assert_eq!(conn.last_request(), list(vec!["session.meterpreter_session_kill", "tok-123", "5"]));
    let mut conn = Canned::replying(&record(vec![("data", text("out"))]));
    assert_eq!(m.read(&mut conn), Ok("out".to_string()));
    assert_eq!(conn.last_request(), list(vec!["session.meterpreter_read", "tok-123", "5"]));
    let mut conn = Canned::replying(&record(vec![("tabs", list(vec!["sysinfo"]))]));
    assert_eq!(m.tabs(&mut conn, "sys"), Ok(strings(vec!["sysinfo"])));
    assert_eq!(conn.last_request(), list(vec!["session.meterpreter_tabs", "tok-123", "5", "sys"]));
    let mut conn = Canned::replying(&record(vec![("modules", list(vec![]))]));
    assert_eq!(m.compactible_modules(&mut conn), Ok(vec![]));
    assert_eq!(conn.last_request(), list(vec!["session.compatible_modules", "tok-123", "5"]));
}

#[test]
fn a_ring_buffer_is_driven() {
    let r = sessions::ring::new(logged_in(), "2");
    assert_eq!(r.sessionid, "2");
    assert_eq!(r.client, logged_in());
    let mut conn = Canned::replying(&success());
    assert_eq!(r.clear(&mut conn), Ok(true));
    assert_eq!(conn.last_request(), list(vec!["session.ring_clear", "tok-123", "2"]));
    let mut conn = Canned::replying(&record(vec![("seq", Value::Int(41))]));
    assert_eq!(r.last(&mut conn), Ok(41));
    assert_eq!(conn.last_request(), list(vec!["session.ring_last", "tok-123", "2"]));
    let mut conn = Canned::replying(&record(vec![("write_count", Value::Int(6))]));
    assert_eq!(r.put(&mut conn, "whoami"), Ok(6));
    assert_eq!(conn.last_request(), list(vec!["session.ring_put", "tok-123", "2", "whoami"]));
}

#[test]
fn modules_are_listed() {
    let l = modules::list::new(logged_in());
    assert_eq!(l.client, logged_in());
    let mut conn = Canned::replying(&record(vec![("modules", list(vec!["a/b", "c/d"]))]));
    let expected = Ok(strings(vec!["a/b", "c/d"]));
    assert_eq!(l.exploits(&mut conn), expected);
    assert_eq!(conn.last_request(), list(vec!["module.exploits", "tok-123"]));
    assert_eq!(l.auxiliary(&mut conn), expected);
    assert_eq!(conn.last_request(), list(vec!["module.auxiliary", "tok-123"]));
    assert_eq!(l.evasions(&mut conn), expected);
    assert_eq!(conn.last_request(), list(vec!["module.evasion", "tok-123"]));
    assert_eq!(l.post(&mut conn), expected);
    assert_eq!(conn.last_request(), list(vec!["module.post", "tok-123"]));
    assert_eq!(l.payloads(&mut conn), expected);
    assert_eq!(conn.last_request(), list(vec!["module.payloads", "tok-123"]));
    assert_eq!(l.encoders(&mut conn), expected);
    assert_eq!(conn.last_request(), list(vec!["module.encoders", "tok-123"]));
    assert_eq!(l.nops(&mut conn), expected);
    assert_eq!(conn.last_request(), list(vec!["module.nops", "tok-123"]));
    assert_eq!(l.platforms(&mut conn), expected);
    assert_eq!(conn.last_request(), list(vec!["module.platforms", "tok-123"]));
    let mut conn = Canned::replying(&list(vec!["raw", "elf"]));
    assert_eq!(l.encode_formats(&mut conn), Ok(strings(vec!["raw", "elf"])));
    assert_eq!(conn.last_request(), list(vec!["module.encode_formats", "tok-123"]));
    let mut conn = Canned::replying(&record(vec![("modules", Value::List(vec![]))]));
    assert_eq!(l.exploits(&mut conn), Ok(vec![]));
    let mut conn = Canned::replying(&record(vec![("modules", Value::List(vec![Value::Int(1)]))]));
    assert_eq!(l.exploits(&mut conn), Err(Error::ProtocolError(Malformed::Shape)));
    let mut conn = Canned::replying(&Value::List(vec![]));
    assert_eq!(l.exploits(&mut conn), Err(Error::ProtocolError(Malformed::Shape)));
}

#[test]
fn what_fits_a_module_is_listed() {
    let c = modules::compactible::new("exploit/multi/handler".to_string(), logged_in());
    assert_eq!(c.name, "exploit/multi/handler");
    assert_eq!(c.client, logged_in());
    let mut conn = Canned::replying(&record(vec![("payloads", list(vec!["windows/shell"]))]));
    assert_eq!(c.payload(&mut conn), Ok(strings(vec!["windows/shell"])));
    assert_eq!(
        conn.last_request(),
        list(vec!["module.compatible_payloads", "tok-123", "exploit/multi/handler"])
    );
    assert_eq!(c.target_payloads(&mut conn, 2), Ok(strings(vec!["windows/shell"])));
    assert_eq!(
        conn.last_request(),
        Value::List(vec![
            text("module.target_compatible_payloads"),
            text("tok-123"),
            text("exploit/multi/handler"),
            Value::Int(2),
        ])
    );
    let mut conn = Canned::replying(&record(vec![("sessions", list(vec!["1", "2"]))]));
    assert_eq!(c.sessions(&mut conn), Ok(strings(vec!["1", "2"])));
    assert_eq!(
        conn.last_request(),
        list(vec!["module.compatible_sessions", "tok-123", "exploit/multi/handler"])
    );
}

#[test]
fn modules_are_described_run_and_checked() {
    let client = logged_in();
    let options = vec![
        ("RHOSTS".to_string(), "10.0.0.1".to_string()),
        ("LPORT".to_string(), "4444".to_string()),
    ];
    let sent_options = record(vec![("RHOSTS", text("10.0.0.1")), ("LPORT", text("4444"))]);
    let described = record(
        vec![("name", text("Handler")), ("description", text("d")), ("rank", Value::Int(300))],
    );
    let mut conn = Canned::replying(&described);
    assert_eq!(
        modules::info(&client, &mut conn, "exploit", "multi/handler"),
        Ok(described.clone())
    );
    assert_eq!(
        conn.last_request(),
        list(vec!["module.info", "tok-123", "exploit", "multi/handler"])
    );
    let listed = record(vec![("RHOSTS", record(vec![("required", Value::Bool(true))]))]);
    let mut conn = Canned::replying(&listed);
    assert_eq!(modules::option(&client, &mut conn, "exploit", "x"), Ok(listed.clone()));
    assert_eq!(conn.last_request(), list(vec!["module.options", "tok-123", "exploit", "x"]));
    let mut conn = Canned::replying(&record(vec![("encoded", text("\\x41"))]));
    assert_eq!(
        modules::encoder(&client, &mut conn, "A", "x86/shikata", &options),
        Ok("\\x41".to_string())
    );
    assert_eq!(
        conn.last_request(),
        Value::List(vec![
            text("module.encode"),
            text("tok-123"),
            text("A"),
            text("x86/shikata"),
            sent_options.clone(),
        ])
    );
    let mut conn = Canned::replying(&record(vec![("job_id", Value::Int(4)), ("uuid", text("u"))]));
    assert_eq!(modules::execute(&client, &mut conn, "exploit", "x", &options), Ok(Value::Int(4)));
    assert_eq!(
        conn.last_request(),
        Value::List(vec![
            text("module.execute"),
            text("tok-123"),
            text("exploit"),
            text("x"),
            sent_options.clone(),
        ])
    );
    assert_eq!(
        modules::execute(&client, &mut conn, "payload", "x", &options),
        Err(Error::ProtocolError(Malformed::Shape))
    );
    assert_eq!(
        modules::check(&client, &mut conn, "exploit", "x", &vec![]),
        Err(Error::ProtocolError(Malformed::Shape))
    );
    let mut conn = Canned::replying(&record(vec![("job_id", text("4")), ("uuid", text("u"))]));
    assert_eq!(
        modules::check(&client, &mut conn, "exploit", "x", &vec![]),
        Ok(vec![
            ("result".to_string(), "success".to_string()),
            ("job_id".to_string(), "4".to_string()),
        ])
    );
    assert_eq!(conn.sent.len(), 1);
    assert_eq!(
        conn.last_request(),
        Value::List(vec![
            text("module.check"),
            text("tok-123"),
            text("exploit"),
            text("x"),
            Value::Dict(vec![]),
        ])
    );
    let mut conn = Canned::replying(&record(vec![("payload", text("\\xfc\\xe8"))]));
    assert_eq!(
        modules::execute(&client, &mut conn, "payload", "x", &options),
        Ok(text("\\xfc\\xe8"))
    );
    assert_eq!(
        modules::execute(&client, &mut conn, "exploit", "x", &options),
        Err(Error::ProtocolError(Malformed::Shape))
    );
    let found = Value::List(vec![record(vec![("fullname", text("exploit/x"))])]);
    let mut conn = Canned::replying(&found);
    assert_eq!(modules::search(&client, &mut conn, "smb"), Ok(found.clone()));
    assert_eq!(conn.last_request(), list(vec!["module.search", "tok-123", "smb"]));
    let mut conn = Canned::replying(&Value::List(vec![]));
    assert_eq!(modules::search(&client, &mut conn, "nothing"), Ok(Value::List(vec![])));
}

#[test]
fn jobs_are_listed_described_and_stopped() {
    let client = logged_in();
    let mut conn = Canned::replying(&Value::Dict(vec![]));
    assert_eq!(jobs::list(&client, &mut conn), Ok(vec![]));
    assert_eq!(conn.last_request(), list(vec!["job.list", "tok-123"]));
    let mut plain: BTreeMap<String, String> = BTreeMap::new();
    plain.insert("0".to_string(), "Exploit: multi/handler".to_string());
    plain.insert("1".to_string(), "Auxiliary: server/capture".to_string());
    let mut conn = Canned { outcome: Ok(rmp_serde::to_vec(&plain).unwrap()), sent: vec![] };
    assert_eq!(
        jobs::list(&client, &mut conn),
        Ok(vec![
            ("0".to_string(), "Exploit: multi/handler".to_string()),
            ("1".to_string(), "Auxiliary: server/capture".to_string()),
        ])
    );
    let mut conn = Canned::replying(&envelope_value(&denied()));
    assert_eq!(jobs::list(&client, &mut conn), Err(Error::ServerError(denied())));
    let described = record(vec![("jid", Value::Int(0)), ("name", text("Exploit: multi/handler"))]);
    let mut conn = Canned::replying(&described);
    assert_eq!(jobs::info(&client, &mut conn, "0"), Ok(described.clone()));
    assert_eq!(conn.last_request(), list(vec!["job.info", "tok-123", "0"]));
    let mut conn = Canned::replying(&success());
    assert_eq!(jobs::stop(&client, &mut conn, "0"), Ok(true));
    assert_eq!(conn.last_request(), list(vec!["job.stop", "tok-123", "0"]));
}

#[test]
fn typed_calls_read_their_part_of_the_reply() {
    let client = logged_in();
    let reply = record(vec![
        ("result", text("success")),
        ("n", Value::Int(-9)),
        ("s", text("t")),
        ("l", list(vec!["i"])),
    ]);
    let mut conn = Canned::replying(&reply);
    assert_eq!(call_flag(&client, &mut conn, Method::JobStop, args1(text_arg("0"))), Ok(true));
    assert_eq!(call_int(&client, &mut conn, Method::JobStop, args1(text_arg("0")), "n"), Ok(-9));
    assert_eq!(
        call_text(&client, &mut conn, Method::JobStop, args1(text_arg("0")), "s"),
        Ok("t".to_string())
    );
    assert_eq!(
        call_texts(&client, &mut conn, Method::JobStop, args1(text_arg("0")), "l"),
        Ok(strings(vec!["i"]))
    );
    assert_eq!(
        call_part(&client, &mut conn, Method::JobStop, args1(text_arg("0")), "l"),
        Ok(list(vec!["i"]))
    );
    assert_eq!(
        call_names(&client, &mut conn, Method::JobStop, args1(text_arg("0"))),
        Err(Error::ProtocolError(Malformed::Shape))
    );
    assert_eq!(
        call_pairs(&client, &mut conn, Method::JobStop, args1(text_arg("0"))),
        Err(Error::ProtocolError(Malformed::Shape))
    );
    assert_eq!(conn.sent.len(), 7);
    assert_eq!(
        call_flag(&client, &mut conn, Method::JobStop, args0()),
        Err(Error::InvalidState(Violation::BadArguments))
    );
    assert_eq!(conn.sent.len(), 7);
}

#[test]
fn arguments_are_built_in_order() {
    assert_eq!(args0(), vec![]);
    assert_eq!(args1(text_arg("a")), vec![text("a")]);
    assert_eq!(args2(text_arg("a"), number_arg(-1)), vec![text("a"), Value::Int(-1)]);
    assert_eq!(
        args3(pointer_arg(None), pointer_arg(Some(i32::MIN)), number_arg(i32::MAX)),
        vec![Value::Nil, Value::Int(-2147483648), Value::Int(2147483647)]
    );
    assert_eq!(options_arg(&vec![]), Value::Dict(vec![]));
    assert_eq!(
        options_arg(&vec![("b".to_string(), "1".to_string()), ("a".to_string(), "2".to_string())]),
        record(vec![("b", text("1")), ("a", text("2"))])
    );
}

#[test]
fn the_catalog_names_each_method_once_but_for_running_a_payload() {
    let methods = all_methods();
    assert_eq!(methods.len(), 52);
    for (i, a) in methods.iter().enumerate() {
        for b in methods.iter().skip(i + 1) {
            let both_run = a.name() == "module.execute" && b.name() == "module.execute";
            assert!(a.name() != b.name() || both_run, "{:?} and {:?}", a, b);
        }
        assert_eq!(a.needs_token(), *a != Method::AuthLogin);
    }
    assert_eq!(Method::AuthLogout.name(), "auth.logout");
    assert_eq!(Method::AuthLogout.kinds(), vec![Kind::Text]);
    assert!(Method::AuthLogout.checks_result());
    assert_eq!(Method::AuthLogout.reply(), Shape::record().with("result", Shape::Str));
    assert_eq!(Method::SessionShellUpgrade.kinds(), vec![Kind::Text, Kind::Text, Kind::Number]);
    assert_eq!(Method::ModuleCheck.kinds(), vec![Kind::Text, Kind::Text, Kind::Options]);
    assert!(!Method::JobList.checks_result());
    assert_eq!(Method::JobList.reply(), Shape::dict_of(Shape::Str, Shape::Str));
    assert_eq!(Method::ModuleEncodeFormats.reply(), Shape::list_of(Shape::Str));
}

#[test]
fn kinds_say_which_values_they_accept() {
    assert!(Kind::Text.accepts(&text("")));
    assert!(!Kind::Text.accepts(&Value::Int(1)));
    assert!(Kind::Number.accepts(&Value::Int(1)));
    assert!(!Kind::Number.accepts(&Value::Nil));
    assert!(Kind::Pointer.accepts(&Value::Int(1)));
    assert!(Kind::Pointer.accepts(&Value::Nil));
    assert!(!Kind::Pointer.accepts(&text("1")));
    assert!(Kind::Options.accepts(&Value::Dict(vec![])));
    assert!(Kind::Options.accepts(&record(vec![("k", text("v"))])));
    assert!(!Kind::Options.accepts(&record(vec![("k", Value::Int(1))])));
    assert!(!Kind::Options.accepts(&Value::List(vec![])));
}

#[test]
fn a_long_argument_is_sent_whole() {
    let mut conn = Canned::replying(&success());
    let client = logged_in();
    let long = "x".repeat(70000);
    assert_eq!(call(&client, &mut conn, Method::AuthLogout, vec![text(&long)]), Ok(success()));
    assert_eq!(conn.sent.len(), 1);
    assert_eq!(conn.last_request(), list(vec!["auth.logout", "tok-123", &long]));
}

#[test]
fn a_session_keeps_its_address_when_the_token_changes() {
    let mut client = Client::new("http://10.0.0.5:55553/api/");
    assert_eq!(client.url, "http://10.0.0.5:55553/api/");
    assert_eq!(client.current_token(), None);
    client.set_token("TEMP1");
    assert_eq!(client.current_token(), Some("TEMP1".to_string()));
    assert_eq!(client.url, "http://10.0.0.5:55553/api/");
    client.set_token("TEMP2");
    assert_eq!(client, Client::with_token("http://10.0.0.5:55553/api/", "TEMP2"));
    client.clear_token();
    assert_eq!(client, Client::new("http://10.0.0.5:55553/api/"));
    let mut conn = Canned::replying(&success());
    assert_eq!(
        auth::logout(&client, &mut conn, "TEMP2"),
        Err(Error::InvalidState(Violation::MissingToken))
    );
    assert_eq!(conn.sent.len(), 0);
}

#[test]
fn an_endpoint_is_written_as_an_address() {
    assert_eq!(Endpoint::new("127.0.0.1", 55552, true).url(), "https://127.0.0.1:55552/api/");
    assert_eq!(Endpoint::new("msf.local", 0, false).url(), "http://msf.local:0/api/");
    assert_eq!(Endpoint::new("h", 65535, false).url(), "http://h:65535/api/");
    let samples: Vec<u16> = vec![0, 7, 9, 10, 11, 99, 100, 101, 999, 1000, 9999, 10000, 65535];
    for n in samples {
        assert_eq!(decimal_text(n), n.to_string());
    }
    assert_eq!(
        Client::at(&Endpoint::new("10.0.0.5", 443, true)),
        Client::new("https://10.0.0.5:443/api/")
    );
    let endpoint = Endpoint::new("10.0.0.5", 443, true);
    assert_eq!(endpoint.host, "10.0.0.5");
    assert_eq!(endpoint.port, 443);
    assert!(endpoint.tls);
}

#[test]
fn a_login_keeps_the_token_it_is_given() {
    let mut client = logged_out();
    let mut conn = Canned::replying(
        &record(vec![("result", text("success")), ("token", text("TEMPabc"))]),
    );
    assert_eq!(auth::login(&mut client, &mut conn, "msf", "password"), Ok("TEMPabc".to_string()));
    assert_eq!(conn.sent[0].1, rmp_serde::to_vec(&("auth.login", "msf", "password")).unwrap());
    assert_eq!(client, Client::with_token("https://127.0.0.1:55552/api/", "TEMPabc"));
    assert_eq!(auth::logout(&client, &mut conn, "TEMPabc"), Ok(true));
    assert_eq!(conn.last_request(), list(vec!["auth.logout", "TEMPabc", "TEMPabc"]));
}

#[test]
fn a_failed_login_leaves_the_session_as_it_was() {
    let mut client = logged_out();
    let mut conn = Canned::replying(&envelope_value(&denied()));
    assert_eq!(
        auth::login(&mut client, &mut conn, "msf", "wrong"),
        Err(Error::ServerError(denied()))
    );
    assert_eq!(client, logged_out());
    let mut conn = Canned::failing(ConnectionError::Refused);
    assert_eq!(
        auth::login(&mut client, &mut conn, "msf", "password"),
        Err(Error::ConnectionError(ConnectionError::Refused))
    );
    assert_eq!(client, logged_out());
    let mut client = logged_in();
    let mut conn = Canned::replying(
        &record(vec![("result", text("failure")), ("token", text("x"))]),
    );
    assert!(matches!(
        auth::login(&mut client, &mut conn, "msf", "wrong"),
        Err(Error::ServerError(_))
    ));
    assert_eq!(client, logged_in());
}

#[test]
fn a_number_is_read_from_decimal_text() {
    assert_eq!(parse_number("0"), Some(0));
    assert_eq!(parse_number("2"), Some(2));
    assert_eq!(parse_number("+2"), Some(2));
    assert_eq!(parse_number("-2"), Some(-2));
    assert_eq!(parse_number("-0"), Some(0));
    assert_eq!(parse_number("007"), Some(7));
    assert_eq!(parse_number("2147483647"), Some(i32::MAX));
    assert_eq!(parse_number("-2147483648"), Some(i32::MIN));
    assert_eq!(parse_number("000000000000000000002147483647"), Some(i32::MAX));
    assert_eq!(parse_number("2147483648"), None);
    assert_eq!(parse_number("-2147483649"), None);
    assert_eq!(parse_number("99999999999999999999999999"), None);
    assert_eq!(parse_number(""), None);
    assert_eq!(parse_number("+"), None);
    assert_eq!(parse_number("-"), None);
    assert_eq!(parse_number("--1"), None);
    assert_eq!(parse_number("1-"), None);
    assert_eq!(parse_number(" 1"), None);
    assert_eq!(parse_number("1 "), None);
    assert_eq!(parse_number("1.0"), None);
    assert_eq!(parse_number("0x10"), None);
    assert_eq!(parse_number("five"), None);
    assert_eq!(parse_number("\u{663}"), None);
    assert_eq!(parse_number("1\u{e9}"), None);
    let samples = vec!["12", "-7", "+40", "x", "", "2147483648", "-2147483648", "00", "4 2"];
    for s in samples {
        assert_eq!(parse_number(s), s.parse::<i32>().ok(), "text {:?}", s);
    }
}

#[test]
fn a_scripted_transport_gives_its_answers_in_order_and_keeps_each_exchange() {
    let first = encode(&record(vec![("wrote", text("2"))])).unwrap();
    let second = encode(&success()).unwrap();
    let mut conn = Scripted::new(vec![
        Ok(first.clone()),
        Err(ConnectionError::Reset),
        Ok(second.clone()),
    ]);
    let client = Client::with_token("http://10.0.0.9:55553/api/", "tok");
    assert_eq!(console::write(&client, &mut conn, "0", "ls"), Ok(2));
    assert_eq!(conn.log.len(), 1);
    assert_eq!(conn.log[0].0, "http://10.0.0.9:55553/api/");
    assert_eq!(conn.log[0].1, rmp_serde::to_vec(&("console.write", "tok", "0", "ls")).unwrap());
    assert_eq!(conn.log[0].2, Ok(first));
    assert_eq!(
        console::create(&client, &mut conn),
        Err(Error::ConnectionError(ConnectionError::Reset))
    );
    assert_eq!(conn.log.len(), 2);
    assert_eq!(conn.log[1].1, rmp_serde::to_vec(&("console.create", "tok")).unwrap());
    assert_eq!(conn.log[1].2, Err(ConnectionError::Reset));
    assert_eq!(
        modules::list::new(client.clone()).auxiliary(&mut conn),
        Err(Error::ProtocolError(Malformed::Shape))
    );
    assert_eq!(conn.log.len(), 3);
    assert_eq!(conn.log[2].1, rmp_serde::to_vec(&("module.auxiliary", "tok")).unwrap());
    assert_eq!(conn.log[2].2, Ok(second));
    assert_eq!(conn.given, 3);
    assert_eq!(
        jobs::stop(&client, &mut conn, "0"),
        Err(Error::ConnectionError(ConnectionError::Interrupted))
    );
    assert_eq!(conn.log.len(), 4);
    assert_eq!(conn.given, 3);
    assert_eq!(
        jobs::stop(&logged_out(), &mut conn, "0"),
        Err(Error::InvalidState(Violation::MissingToken))
    );
    assert_eq!(conn.log.len(), 4);
}
