//! Command dispatch: from the body of a request to the command to run, and from the outcome of the
//! command to the reply.

use serde_json::Value;
use vstd::prelude::*;
use vstd::string::*;
use vstd::utf8::*;

use crate::command::{command_named, command_of, law_names_identify_commands, Command, Shape};
use crate::json::{
    contents, member, new_members, object_value, parse_value, parsed, text_value, Json,
};
use crate::reply::{
    error_response, json_response, Reply, BAD_REQUEST, NOT_IMPLEMENTED, PAYLOAD_TOO_LARGE,
};
use crate::text::{blank, is_blank, join2, join3};

verus! {

/// The longest body that a command request may have, in bytes.
pub const MAX_BODY_BYTES: usize = 40 * 1024 * 1024;

/// Why a request did not lead to a result.
pub enum DispatchError {
    /// There is no such command.
    Unknown,
    /// The command was not run, or it failed; the message says why.
    Command(String),
}

impl DispatchError {
    /// Whether this is the failure with the given message.
    pub open spec fn says(self, message: Seq<char>) -> bool {
        self matches DispatchError::Command(text) && text@ == message
    }
}

/// A command to run, with the JSON value that its arguments are to be decoded from, if it takes
/// any.
pub struct Dispatch {
    pub command: Command,
    pub payload: Option<Value>,
}

/// What a request comes to, as a mathematical value.
pub enum Plan {
    Run { command: Command, payload: Option<Json> },
    UnknownCommand,
    MissingConfig,
}

/// What the request for the command `name` with the arguments `args` comes to.
pub open spec fn plan(name: Seq<char>, args: Json) -> Plan {
    match command_of(name) {
        None => Plan::UnknownCommand,
        Some(command) => match command.args_shape() {
            Shape::Nothing => Plan::Run { command, payload: None },
            Shape::Proxy => match field(args, "config"@) {
                Some(config) => Plan::Run { command, payload: Some(config) },
                None => Plan::MissingConfig,
            },
            _ => Plan::Run { command, payload: Some(args) },
        },
    }
}

/// The member `key` of a JSON value, where it is an object that has one.
pub open spec fn field(value: Json, key: Seq<char>) -> Option<Json> {
    match value {
        Json::Object(fields) => if fields.dom().contains(key) {
            Some(fields[key])
        } else {
            None
        },
        _ => None,
    }
}

pub open spec fn missing_field_message(key: Seq<char>) -> Seq<char> {
    "Missing field `"@ + key + "`"@
}

/// The member `key` of the arguments.
pub fn args_field(args: Value, key: &str) -> (res: Result<Value, DispatchError>)
    ensures
        match field(contents(args), key@) {
            Some(found) => res matches Ok(value) && contents(value) == found,
            None => res matches Err(err) && err.says(missing_field_message(key@)),
        },
{
    match member(&args, key) {
        Some(value) => Ok(value),
        None => Err(DispatchError::Command(join3("Missing field `", key, "`"))),
    }
}

/// Whether `dispatch` runs what the plan says.
pub open spec fn runs(dispatch: Dispatch, command: Command, payload: Option<Json>) -> bool {
    &&& dispatch.command == command
    &&& match payload {
        Some(json) => dispatch.payload matches Some(value) && contents(value) == json,
        None => dispatch.payload is None,
    }
}

/// Finds the command to run and what its arguments are to be decoded from.
pub fn dispatch(cmd: &str, args: Value) -> (res: Result<Dispatch, DispatchError>)
    ensures
        match plan(cmd@, contents(args)) {
            Plan::Run { command, payload } => res matches Ok(d) && runs(d, command, payload),
            Plan::UnknownCommand => res matches Err(err) && err is Unknown,
            Plan::MissingConfig => res matches Err(err) && err.says(
                missing_field_message("config"@),
            ),
        },
{
    match command_named(cmd) {
        None => Err(DispatchError::Unknown),
        Some(command) => match command.shape() {
            Shape::Nothing => Ok(Dispatch { command, payload: None }),
            Shape::Proxy => match args_field(args, "config") {
                Ok(config) => Ok(Dispatch { command, payload: Some(config) }),
                Err(err) => Err(err),
            },
            _ => Ok(Dispatch { command, payload: Some(args) }),
        },
    }
}

/// Takes over decoded arguments; a failure to decode them becomes the failure of the request.
pub fn parse<T>(decoded: Result<T, String>) -> (res: Result<T, DispatchError>)
    ensures
        match decoded {
            Ok(args) => res matches Ok(a) && a == args,
            Err(message) => res matches Err(err) && err.says("Invalid args: "@ + message@),
        },
{
    match decoded {
        Ok(args) => Ok(args),
        Err(message) => Err(DispatchError::Command(join2("Invalid args: ", message.as_str()))),
    }
}

/// Takes over the result of a command that cannot fail, as JSON; a failure to write it as JSON
/// becomes the failure of the request.
pub fn ok(written: Result<Value, String>) -> (res: Result<Value, DispatchError>)
    ensures
        match written {
            Ok(value) => res matches Ok(v) && v == value,
            Err(message) => res matches Err(err) && err.says(message@),
        },
{
    match written {
        Ok(value) => Ok(value),
        Err(message) => Err(DispatchError::Command(message)),
    }
}

/// Takes over the result of a command that can fail. The outer result is the command's own, the
/// inner one is that of writing its value as JSON.
pub fn done(result: Result<Result<Value, String>, String>) -> (res: Result<Value, DispatchError>)
    ensures
        match result {
            Ok(Ok(value)) => res matches Ok(v) && v == value,
            Ok(Err(message)) => res matches Err(err) && err.says(message@),
            Err(message) => res matches Err(err) && err.says(message@),
        },
{
    match result {
        Ok(written) => ok(written),
        Err(message) => Err(DispatchError::Command(message)),
    }
}

/// The result of the command that reloads the configuration of the API server: the text `ok`.
pub fn config_reloaded() -> (res: Result<Value, DispatchError>)
    ensures
        res matches Ok(value) && contents(value) == Json::Text("ok"@),
{
    Ok(text_value("ok".to_owned()))
}

pub open spec fn not_bridged_message(command: Seq<char>) -> Seq<char> {
    "Command '"@ + command + "' is not bridged yet"@
}

/// The reply to a command request, from the outcome of the command.
pub fn rpc_reply(command: &str, outcome: Result<Value, DispatchError>) -> (res: Reply)
    ensures
        match outcome {
            Ok(value) => res.is_json(contents(value)),
            Err(DispatchError::Unknown) => res.is_error(
                NOT_IMPLEMENTED,
                not_bridged_message(command@),
            ),
            Err(DispatchError::Command(message)) => res.is_error(BAD_REQUEST, message@),
        },
{
    match outcome {
        Ok(value) => json_response(value),
        Err(DispatchError::Unknown) => {
            let message = join3("Command '", command, "' is not bridged yet");
            error_response(NOT_IMPLEMENTED, message.as_str())
        },
        Err(DispatchError::Command(message)) => error_response(BAD_REQUEST, message.as_str()),
    }
}

/// What is to be done next about a command request.
pub enum RpcStep {
    Run(Dispatch),
    Respond(Reply),
}

/// Whether `step` is the next step for the command `name` with the arguments `args`.
pub open spec fn is_next_step(step: RpcStep, name: Seq<char>, args: Json) -> bool {
    match plan(name, args) {
        Plan::Run { command, payload } => step matches RpcStep::Run(d) && runs(d, command, payload),
        Plan::UnknownCommand => step matches RpcStep::Respond(reply) && reply.is_error(
            NOT_IMPLEMENTED,
            not_bridged_message(name),
        ),
        Plan::MissingConfig => step matches RpcStep::Respond(reply) && reply.is_error(
            BAD_REQUEST,
            missing_field_message("config"@),
        ),
    }
}

/// The next step for a command whose arguments have been read.
pub fn rpc_step(command: &str, args: Value) -> (res: RpcStep)
    ensures
        is_next_step(res, command@, contents(args)),
{
    match dispatch(command, args) {
        Ok(d) => RpcStep::Run(d),
        Err(err) => RpcStep::Respond(rpc_reply(command, Err(err))),
    }
}

/// The next step, from what came of reading the body as JSON.
pub fn rpc_step_from(command: &str, read: Result<Value, String>) -> (res: RpcStep)
    ensures
        match read {
            Ok(args) => is_next_step(res, command@, contents(args)),
            Err(message) => res matches RpcStep::Respond(reply) && reply.is_error(
                BAD_REQUEST,
                "Invalid JSON: "@ + message@,
            ),
        },
{
    match read {
        Ok(args) => rpc_step(command, args),
        Err(message) => {
            let text = join2("Invalid JSON: ", message.as_str());
            RpcStep::Respond(error_response(BAD_REQUEST, text.as_str()))
        },
    }
}

/// The arguments that a body carries: an empty object where it is blank, else what it says.
pub open spec fn body_args(body: Seq<char>) -> Result<Json, Seq<char>> {
    if is_blank(body) {
        Ok(Json::Object(Map::empty()))
    } else {
        parsed(body)
    }
}

/// Reads the arguments out of a body.
pub fn read_args(body: &str) -> (res: Result<Value, String>)
    ensures
        match res {
            Ok(value) => body_args(body@) == Ok::<Json, Seq<char>>(contents(value)),
            Err(message) => body_args(body@) == Err::<Json, Seq<char>>(message@),
        },
{
    if blank(body) {
        Ok(object_value(new_members()))
    } else {
        parse_value(body)
    }
}

/// Takes a command request as far as the command to run, or to the reply that refuses it.
pub fn handle_rpc(command: &str, body: &str) -> (res: RpcStep)
    ensures
        if encode_utf8(body@).len() > MAX_BODY_BYTES {
            res matches RpcStep::Respond(reply) && reply.is_error(
                PAYLOAD_TOO_LARGE,
                "Request body too large"@,
            )
        } else {
            match body_args(body@) {
                Ok(args) => is_next_step(res, command@, args),
                Err(message) => res matches RpcStep::Respond(reply) && reply.is_error(
                    BAD_REQUEST,
                    "Invalid JSON: "@ + message,
                ),
            }
        },
{
    if body.as_bytes().len() > MAX_BODY_BYTES {
        return RpcStep::Respond(error_response(PAYLOAD_TOO_LARGE, "Request body too large"));
    }
    rpc_step_from(command, read_args(body))
}

/// A request is answered as unknown exactly where no command has the requested name.
pub proof fn law_unknown_means_no_such_name(name: Seq<char>, args: Json)
    ensures
        plan(name, args) is UnknownCommand <==> forall|c: Command| #[trigger] c.name() != name,
{
    match command_of(name) {
        Some(found) => {
            law_names_identify_commands(found, name);
        },
        None => {
            assert forall|c: Command| #[trigger] c.name() != name by {
                law_names_identify_commands(c, name);
            }
        },
    }
}

/// Every command can be reached: under its name the command is run, whatever the arguments are. Only
/// the command that sets the proxy needs a member `config` in them.
pub proof fn law_every_command_is_reachable(command: Command, args: Json)
    requires
        command.args_shape() == Shape::Proxy ==> field(args, "config"@) is Some,
    ensures
        plan(command.name(), args) matches Plan::Run { command: c, .. } && c == command,
{
    law_names_identify_commands(command, command.name());
}

/// A command without arguments is run whatever the request carries, and a blank body counts as an
/// empty object.
pub proof fn law_arguments_are_optional(command: Command, body: Seq<char>, args: Json)
    requires
        command.args_shape() == Shape::Nothing,
        is_blank(body),
    ensures
        plan(command.name(), args) == (Plan::Run { command, payload: None }),
        body_args(body) == Ok::<Json, Seq<char>>(Json::Object(Map::empty())),
{
    law_names_identify_commands(command, command.name());
}

/// Whether `step` is the right thing to do about a request for `name` with the arguments `args`. A
/// name that no command has is answered with 501. The four commands without arguments are run as
/// they are. The proxy settings are the member `config`, and it is an error to leave it out. Every
/// other command is run with the arguments as they came.
pub open spec fn answers(step: RpcStep, name: Seq<char>, args: Json) -> bool {
    match command_of(name) {
        None => step matches RpcStep::Respond(reply) && reply.is_error(
            501,
            "Command '"@ + name + "' is not bridged yet"@,
        ),
        Some(command) => if name == "stop_project_file_watcher"@ || name == "clip_server_status"@
            || name == "api_server_status"@ || name == "api_server_reload_config"@ {
            step matches RpcStep::Run(d) && d.command == command && d.payload is None
        } else if name == "set_proxy_env"@ {
            if args matches Json::Object(fields) && fields.dom().contains("config"@) {
                step matches RpcStep::Run(d) && d.command == command && (d.payload matches Some(
                    value,
                ) && contents(value) == args->Object_0["config"@])
            } else {
                step matches RpcStep::Respond(reply) && reply.is_error(
                    400,
                    "Missing field `"@ + "config"@ + "`"@,
                )
            }
        } else {
            step matches RpcStep::Run(d) && d.command == command && (d.payload matches Some(value)
                && contents(value) == args)
        },
    }
}

proof fn lemma_answers(step: RpcStep, name: Seq<char>, args: Json)
    ensures
        is_next_step(step, name, args) <==> answers(step, name, args),
{
    law_names_identify_commands(Command::StopProjectFileWatcher, name);
    law_names_identify_commands(Command::ClipServerStatus, name);
    law_names_identify_commands(Command::ApiServerStatus, name);
    law_names_identify_commands(Command::ApiServerReloadConfig, name);
    law_names_identify_commands(Command::SetProxyEnv, name);
}

/// A request is refused where its body is longer than 40 MiB, whatever it holds, and where the body
/// is neither blank nor JSON. Else its arguments are what the body says, or an empty object where it
/// is blank, and it is answered by its name and those arguments.
pub proof fn law_requests(command: &str, body: &str, res: RpcStep)
    requires
        call_ensures(handle_rpc, (command, body), res),
    ensures
        encode_utf8(body@).len() > 41943040 ==> (res matches RpcStep::Respond(reply)
            && reply.is_error(413, "Request body too large"@)),
        encode_utf8(body@).len() <= 41943040 && is_blank(body@) ==> answers(
            res,
            command@,
            Json::Object(Map::empty()),
        ),
        encode_utf8(body@).len() <= 41943040 && !is_blank(body@) ==> match parsed(body@) {
            Ok(args) => answers(res, command@, args),
            Err(message) => res matches RpcStep::Respond(reply) && reply.is_error(
                400,
                "Invalid JSON: "@ + message,
            ),
        },
{
    match body_args(body@) {
        Ok(args) => {
            lemma_answers(res, command@, args);
        },
        Err(_) => {},
    }
}

/// The arguments in a body are an empty object where it is blank, else what it holds as JSON, or the
/// reason why it is none.
pub proof fn law_arguments_in_a_body(body: &str, res: Result<Value, String>)
    requires
        call_ensures(read_args, (body,), res),
    ensures
        is_blank(body@) ==> (res matches Ok(value) && contents(value) == Json::Object(Map::empty())),
        !is_blank(body@) ==> match parsed(body@) {
            Ok(args) => res matches Ok(value) && contents(value) == args,
            Err(text) => res matches Err(message) && message@ == text,
        },
{
}

/// A command is found by its name and gets the arguments that belong to it; a name that no command
/// has, and proxy settings without the member `config`, are errors.
pub proof fn law_dispatched(cmd: &str, args: Value, res: Result<Dispatch, DispatchError>)
    requires
        call_ensures(dispatch, (cmd, args), res),
    ensures
        res matches Ok(d) ==> answers(RpcStep::Run(d), cmd@, contents(args)),
        res matches Err(err) ==> match err {
            DispatchError::Unknown => command_of(cmd@) is None,
            DispatchError::Command(text) => cmd@ == "set_proxy_env"@ && text@ == "Missing field `"@
                + "config"@ + "`"@,
        },
        command_of(cmd@) is None ==> (res matches Err(err) && err is Unknown),
{
    match res {
        Ok(d) => {
            lemma_answers(RpcStep::Run(d), cmd@, contents(args));
        },
        Err(_) => {
            law_names_identify_commands(Command::SetProxyEnv, cmd@);
        },
    }
}

/// What is known of the arguments decides in the same way, however they were read.
pub proof fn law_requests_from_arguments(command: &str, args: Value, res: RpcStep)
    requires
        call_ensures(rpc_step, (command, args), res) || call_ensures(
            rpc_step_from,
            (command, Ok::<Value, String>(args)),
            res,
        ),
    ensures
        answers(res, command@, contents(args)),
{
    lemma_answers(res, command@, contents(args));
}

/// A body that cannot be read is refused with the reason.
pub proof fn law_unreadable_body(command: &str, message: String, res: RpcStep)
    requires
        call_ensures(rpc_step_from, (command, Err::<Value, String>(message)), res),
    ensures
        res matches RpcStep::Respond(reply) && reply.is_error(400, "Invalid JSON: "@ + message@),
{
}

/// The outcome of a command becomes its reply: a value is handed out with status 200, a failure is
/// reported with status 400 and its own message, and an unknown command with status 501.
pub proof fn law_outcomes(command: &str, outcome: Result<Value, DispatchError>, res: Reply)
    requires
        call_ensures(rpc_reply, (command, outcome), res),
    ensures
        match outcome {
            Ok(value) => res.is_json(contents(value)),
            Err(DispatchError::Command(message)) => res.is_error(400, message@),
            Err(DispatchError::Unknown) => res.is_error(
                501,
                "Command '"@ + command@ + "' is not bridged yet"@,
            ),
        },
{
}

/// A member of the arguments is handed on as it is, and a missing one is named.
pub proof fn law_members_of_arguments(args: Value, key: &str, res: Result<Value, DispatchError>)
    requires
        call_ensures(args_field, (args, key), res),
    ensures
        if contents(args) matches Json::Object(fields) && fields.dom().contains(key@) {
            res matches Ok(value) && contents(value) == contents(args)->Object_0[key@]
        } else {
            res matches Err(DispatchError::Command(text)) && text@ == "Missing field `"@ + key@
                + "`"@
        },
{
}

/// Decoded arguments are taken over, and a failure to decode them is reported as such.
pub proof fn law_decoded_arguments<T>(decoded: Result<T, String>, res: Result<T, DispatchError>)
    requires
        call_ensures(parse::<T>, (decoded,), res),
    ensures
        match decoded {
            Ok(args) => res == Ok::<T, DispatchError>(args),
            Err(message) => res matches Err(DispatchError::Command(text)) && text@
                == "Invalid args: "@ + message@,
        },
{
}

/// The value of a command reaches the reply unchanged, and so does the message of its failure or of
/// a failure to write the value.
pub proof fn law_results_of_commands(
    result: Result<Result<Value, String>, String>,
    res: Result<Value, DispatchError>,
)
    requires
        call_ensures(done, (result,), res) || (result is Ok && call_ensures(ok, (result->Ok_0,), res)),
    ensures
        match result {
            Ok(Ok(value)) => res == Ok::<Value, DispatchError>(value),
            Ok(Err(message)) => res matches Err(DispatchError::Command(text)) && text@ == message@,
            Err(message) => res matches Err(DispatchError::Command(text)) && text@ == message@,
        },
{
}

/// A reload of the configuration always succeeds with the text `ok`.
pub proof fn law_reload_says_ok(res: Result<Value, DispatchError>)
    requires
        call_ensures(config_reloaded, (), res),
    ensures
        res matches Ok(value) && contents(value) == Json::Text("ok"@),
{
}

} // verus!
