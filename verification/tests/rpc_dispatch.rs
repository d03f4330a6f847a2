use rpc_bridge::args::{
    bind, Args, Call, ListDirectoryArgs, PathArgs, Payloads, ProjectPathArgs, ReadFileArgs,
    VectorSearchArgs,
};
use rpc_bridge::command::{command_named, Command, Shape};
use rpc_bridge::json::parse_value;
use rpc_bridge::reply::{error_response, json_response, ok_response, Body, Reply};
use rpc_bridge::rpc::{
    args_field, config_reloaded, dispatch, done, handle_rpc, ok, parse, read_args, rpc_reply, rpc_step,
    rpc_step_from, Dispatch, DispatchError, RpcStep, MAX_BODY_BYTES,
};
use serde_json::Value;

const NAMES: [&str; 56] = [
    "read_file",
    "write_file",
    "write_file_atomic",
    "write_file_base64",
    "list_directory",
    "copy_file",
    "copy_directory",
    "preprocess_file",
    "delete_file",
    "create_directory",
    "file_exists",
    "get_file_modified_time",
    "get_file_size",
    "get_file_md5",
    "read_file_as_base64",
    "find_related_wiki_pages",
    "create_project",
    "open_project",
    "search_project",
    "list_file_history",
    "restore_file_history",
    "start_project_file_watcher",
    "stop_project_file_watcher",
    "rescan_project_files",
    "get_file_change_queue",
    "retry_file_change_task",
    "ignore_file_change_task",
    "embedding_fetch",
    "web_search",
    "anytxt_search",
    "vector_upsert",
    "vector_search",
    "vector_delete",
    "vector_count",
    "vector_upsert_chunks",
    "vector_search_chunks",
    "vector_delete_page",
    "vector_count_chunks",
    "vector_clear_chunks",
    "vector_optimize_chunks",
    "vector_legacy_row_count",
    "vector_drop_legacy",
    "extract_pdf_images_cmd",
    "extract_office_images_cmd",
    "extract_and_save_pdf_images_cmd",
    "extract_and_save_office_images_cmd",
    "agent_start_turn",
    "agent_start_turn_stream",
    "agent_cancel_turn",
    "agent_get_session",
    "agent_list_sessions",
    "agent_list_skills",
    "set_proxy_env",
    "clip_server_status",
    "api_server_status",
    "api_server_reload_config",
];

struct Plain;

impl Payloads for Plain {
    type SourceWatchConfig = ();
    type EmbeddingConfig = ();
    type WebSearchConfig = ();
    type AnyTxtConfig = ();
    type Vector = Vec<f32>;
    type Chunk = ();
    type AgentRequest = ();
    type ProxyConfig = String;
}

fn json(text: &str) -> Value {
    serde_json::from_str(text).unwrap()
}

fn body(reply: Reply) -> (u16, Value) {
    match reply.body {
        Body::Json(value) => (reply.status, value),
        Body::File { .. } => panic!("no JSON"),
    }
}

fn error(reply: Reply) -> (u16, String) {
    let (status, value) = body(reply);
    assert_eq!(value.as_object().unwrap().len(), 1);
    (status, value["error"].as_str().unwrap().to_string())
}

fn responded(step: RpcStep) -> Reply {
    match step {
        RpcStep::Respond(reply) => reply,
        RpcStep::Run(_) => panic!("a command is run"),
    }
}

fn run(step: RpcStep) -> Dispatch {
    match step {
        RpcStep::Run(dispatch) => dispatch,
        RpcStep::Respond(reply) => panic!("{:?}", body(reply)),
    }
}

#[test]
fn replies() {
    assert_eq!(error(error_response(418, "no \"tea\"")), (418, "no \"tea\"".to_string()));
    assert_eq!(body(ok_response()), (200, json("{\"ok\": true}")));
    assert_eq!(body(json_response(json("[1, null]"))), (200, json("[1, null]")));
}

#[test]
fn every_name_is_a_command_of_its_own() {
    let mut seen: Vec<Command> = Vec::new();
    for name in NAMES {
        let command = command_named(name).unwrap();
        assert!(!seen.contains(&command), "{name}");
        seen.push(command);
    }
}

#[test]
fn other_names_are_no_commands() {
    for name in ["", "read_fil", "read_file ", "READ_FILE", "open_folder", "quit"] {
        assert_eq!(command_named(name), None);
    }
}

#[test]
fn shapes_of_arguments() {
    assert_eq!(command_named("read_file").unwrap().shape(), Shape::ReadFile);
    assert_eq!(command_named("write_file_atomic").unwrap().shape(), Shape::WriteFile);
    assert_eq!(command_named("open_project").unwrap().shape(), Shape::Path);
    assert_eq!(command_named("agent_list_skills").unwrap().shape(), Shape::ProjectPath);
    assert_eq!(command_named("vector_search_chunks").unwrap().shape(), Shape::VectorSearch);
    assert_eq!(command_named("set_proxy_env").unwrap().shape(), Shape::Proxy);
    for name in [
        "stop_project_file_watcher",
        "clip_server_status",
        "api_server_status",
        "api_server_reload_config",
    ] {
        assert_eq!(command_named(name).unwrap().shape(), Shape::Nothing);
    }
}

#[test]
fn json_is_parsed_by_serde_json() {
    assert_eq!(parse_value(" {\"a\": [1, 2.5, \"x\"]} ").unwrap(), json("{\"a\":[1,2.5,\"x\"]}"));
    let expected = serde_json::from_str::<Value>("{\"a\":").unwrap_err().to_string();
    assert_eq!(parse_value("{\"a\":").unwrap_err(), expected);
    assert!(expected.starts_with("EOF while parsing a value"));
}

#[test]
fn fields_of_arguments() {
    let found = args_field(json("{\"config\": {\"x\": 1}, \"y\": 2}"), "config");
    assert!(matches!(found, Ok(value) if value == json("{\"x\": 1}")));
    for args in ["{}", "[1]", "\"config\"", "null", "{\"Config\": 1}"] {
        match args_field(json(args), "config") {
            Err(DispatchError::Command(message)) => assert_eq!(message, "Missing field `config`"),
            _ => panic!("{args}"),
        }
    }
    assert!(matches!(args_field(json("{\"config\": null}"), "config"), Ok(Value::Null)));
}

#[test]
fn dispatch_hands_the_arguments_on() {
    let d = dispatch("write_file", json("{\"path\": \"a\", \"contents\": \"b\"}")).ok().unwrap();
    assert_eq!(d.command, Command::WriteFile);
    assert_eq!(d.payload, Some(json("{\"path\": \"a\", \"contents\": \"b\"}")));
    let d = dispatch("set_proxy_env", json("{\"config\": 5}")).ok().unwrap();
    assert_eq!(d.command, Command::SetProxyEnv);
    assert_eq!(d.payload, Some(json("5")));
    let d = dispatch("clip_server_status", json("[true]")).ok().unwrap();
    assert_eq!(d.command, Command::ClipServerStatus);
    assert_eq!(d.payload, None);
    assert!(matches!(dispatch("nope", json("{}")), Err(DispatchError::Unknown)));
    assert!(matches!(dispatch("set_proxy_env", json("{}")), Err(DispatchError::Command(_))));
}

#[test]
fn every_command_is_reachable() {
    for name in NAMES {
        let d = run(handle_rpc(name, "{\"config\": {}}"));
        assert_eq!(Some(d.command), command_named(name));
    }
}

#[test]
fn a_blank_body_is_an_empty_object() {
    for text in ["", "  \r\n\t", "\u{a0}\u{2003}"] {
        assert_eq!(read_args(text).unwrap(), json("{}"));
        let d = run(handle_rpc("open_project", text));
        assert_eq!(d.payload, Some(json("{}")));
    }
    assert_eq!(read_args("[1]").unwrap(), json("[1]"));
    assert!(read_args("{").is_err());
}

#[test]
fn unknown_commands_are_not_implemented() {
    let reply = responded(handle_rpc("open_folder", "{}"));
    assert_eq!(error(reply), (501, "Command 'open_folder' is not bridged yet".to_string()));
    let reply = responded(rpc_step("", json("null")));
    assert_eq!(error(reply), (501, "Command '' is not bridged yet".to_string()));
}

#[test]
fn invalid_json_is_refused_before_the_command_is_looked_up() {
    let (status, message) = error(responded(handle_rpc("no_such_command", "{oops")));
    assert_eq!(status, 400);
    let expected = serde_json::from_str::<Value>("{oops").unwrap_err();
    assert_eq!(message, format!("Invalid JSON: {expected}"));
    let reply = responded(rpc_step_from("read_file", Err("bad".to_string())));
    assert_eq!(error(reply), (400, "Invalid JSON: bad".to_string()));
    assert_eq!(run(rpc_step_from("read_file", Ok(json("1")))).payload, Some(json("1")));
}

#[test]
fn a_missing_proxy_configuration_is_refused() {
    let reply = responded(handle_rpc("set_proxy_env", ""));
    assert_eq!(error(reply), (400, "Missing field `config`".to_string()));
}

#[test]
fn large_bodies_are_refused() {
    let fits = " ".repeat(MAX_BODY_BYTES);
    assert_eq!(run(handle_rpc("api_server_status", &fits)).command, Command::ApiServerStatus);
    let large = " ".repeat(MAX_BODY_BYTES + 1);
    let reply = responded(handle_rpc("api_server_status", &large));
    assert_eq!(error(reply), (413, "Request body too large".to_string()));
    assert_eq!(MAX_BODY_BYTES, 41943040);
}

#[test]
fn arguments_that_cannot_be_decoded() {
    assert!(matches!(parse::<u8>(Ok(7)), Ok(7)));
    match parse::<u8>(Err("missing field `path`".to_string())) {
        Err(DispatchError::Command(m)) => assert_eq!(m, "Invalid args: missing field `path`"),
        _ => panic!(),
    }
}

#[test]
fn outcomes_of_commands() {
    assert!(matches!(ok(Ok(json("3"))), Ok(v) if v == json("3")));
    assert!(matches!(ok(Err("e".to_string())), Err(DispatchError::Command(m)) if m == "e"));
    assert!(matches!(done(Ok(Ok(json("3")))), Ok(v) if v == json("3")));
    assert!(matches!(done(Ok(Err("w".to_string()))), Err(DispatchError::Command(m)) if m == "w"));
    assert!(matches!(done(Err("f".to_string())), Err(DispatchError::Command(m)) if m == "f"));
    assert_eq!(body(rpc_reply("x", Ok(json("{\"a\": 1}")))), (200, json("{\"a\": 1}")));
    let failed = rpc_reply("x", Err(DispatchError::Command("boom".to_string())));
    assert_eq!(error(failed), (400, "boom".to_string()));
    let unknown = rpc_reply("x", Err(DispatchError::Unknown));
    assert_eq!(error(unknown), (501, "Command 'x' is not bridged yet".to_string()));
}

#[test]
fn commands_take_their_own_arguments() {
    let args = Args::<Plain>::ReadFile(ReadFileArgs {
        path: "a".to_string(),
        extract_images: Some(true),
    });
    match bind(Command::ReadFile, args) {
        Some(Call::ReadFile(a)) => {
            assert_eq!(a.path, "a");
            assert_eq!(a.extract_images, Some(true));
        }
        _ => panic!(),
    }
    let path = || Args::<Plain>::Path(PathArgs { path: "p".to_string() });
    assert!(matches!(bind(Command::DeleteFile, path()), Some(Call::DeleteFile(a)) if a.path == "p"));
    assert!(matches!(bind(Command::FileExists, path()), Some(Call::FileExists(a)) if a.path == "p"));
    let vector = Args::<Plain>::VectorSearch(VectorSearchArgs {
        project_path: "w".to_string(),
        query_embedding: vec![0.5, 1.5],
        top_k: 3,
    });
    match bind(Command::VectorSearchChunks, vector) {
        Some(Call::VectorSearchChunks(a)) => {
            assert_eq!(a.query_embedding, vec![0.5, 1.5]);
            assert_eq!(a.top_k, 3);
        }
        _ => panic!(),
    }
    let proxy = Args::<Plain>::Proxy("cfg".to_string());
    assert!(matches!(bind(Command::SetProxyEnv, proxy), Some(Call::SetProxyEnv(c)) if c == "cfg"));
    let nothing = Args::<Plain>::Nothing;
    assert!(matches!(bind(Command::ClipServerStatus, nothing), Some(Call::ClipServerStatus)));
}

#[test]
fn other_arguments_do_not_bind() {
    let list = Args::<Plain>::ListDirectory(ListDirectoryArgs {
        path: "p".to_string(),
        include_hidden: None,
        max_depth: Some(2),
    });
    assert!(bind(Command::ReadFile, list).is_none());
    assert!(bind(Command::ReadFile, Args::<Plain>::Nothing).is_none());
    let project = Args::<Plain>::ProjectPath(ProjectPathArgs { project_path: "p".to_string() });
    assert!(bind(Command::ApiServerStatus, project).is_none());
}

#[test]
fn a_reload_of_the_configuration_says_ok() {
    let d = dispatch("api_server_reload_config", Value::Null).ok().unwrap();
    assert_eq!(d.command, Command::ApiServerReloadConfig);
    assert!(d.payload.is_none());
    assert_eq!(config_reloaded().ok().unwrap(), Value::String("ok".to_string()));
}
