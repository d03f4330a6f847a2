use rpc_bridge::assets::{
    content_type_for, path_extension, serve_file, static_candidate, static_choice, static_disabled,
    StaticChoice, INDEX_FILE,
};
use rpc_bridge::events::next_event;
use rpc_bridge::reply::{Body, Reply};
use rpc_bridge::store::{
    handle_store_get, handle_store_set, store_edit, store_gate, store_open_failed, store_saved,
    valid_store_name, StoreEdit, StoreSetBody, StoreStep,
};
use serde_json::Value;

fn json(text: &str) -> Value {
    serde_json::from_str(text).unwrap()
}

fn body(reply: Reply) -> (u16, Value) {
    match reply.body {
        Body::Json(value) => (reply.status, value),
        Body::File { .. } => panic!("no JSON"),
    }
}

fn error(reply: Reply) -> (u16, String) {
    let (status, value) = body(reply);
    (status, value["error"].as_str().unwrap().to_string())
}

#[test]
fn store_names() {
    for name in ["settings.json", "a", "A-b_9.Z", ".", ".hidden", "a.b.c", "-"] {
        assert!(valid_store_name(name), "{name}");
    }
    for name in ["", "..", "a..b", "../x", "a/b", "a b", "é", "a\\b", "a\0"] {
        assert!(!valid_store_name(name), "{name}");
    }
}

#[test]
fn the_gate_refuses_bad_names() {
    assert!(store_gate("app.json").is_ok());
    let reply = store_gate("../app.json").err().unwrap();
    assert_eq!(error(reply), (400, "Invalid store name".to_string()));
}

#[test]
fn a_read_lists_all_values() {
    let entries = vec![
        ("b".to_string(), Some(json("1"))),
        ("gone".to_string(), None),
        ("a".to_string(), Some(json("{\"x\": null}"))),
    ];
    let reply = handle_store_get("app.json", Ok(entries));
    assert_eq!(body(reply), (200, json("{\"a\": {\"x\": null}, \"b\": 1}")));
    assert_eq!(body(handle_store_get("s", Ok(vec![]))), (200, json("{}")));
}

#[test]
fn a_key_that_comes_twice_shows_its_last_value() {
    let entries = vec![
        ("k".to_string(), Some(json("1"))),
        ("k".to_string(), Some(json("2"))),
        ("k".to_string(), None),
    ];
    assert_eq!(body(handle_store_get("s", Ok(entries))), (200, json("{\"k\": 2}")));
}

#[test]
fn a_read_that_fails() {
    let reply = handle_store_get("s", Err("locked".to_string()));
    assert_eq!(error(reply), (500, "Failed to open store: locked".to_string()));
    let reply = handle_store_get("a/b", Err("locked".to_string()));
    assert_eq!(error(reply), (400, "Invalid store name".to_string()));
    assert_eq!(error(store_open_failed("x")), (500, "Failed to open store: x".to_string()));
}

fn write(delete: bool) -> StoreSetBody {
    StoreSetBody { key: "theme".to_string(), value: json("\"dark\""), delete }
}

#[test]
fn a_write_sets_or_deletes() {
    match handle_store_set("app.json", Ok(()), write(false)) {
        StoreStep::Apply(StoreEdit::Put { key, value }) => {
            assert_eq!(key, "theme");
            assert_eq!(value, json("\"dark\""));
        }
        _ => panic!(),
    }
    match handle_store_set("app.json", Ok(()), write(true)) {
        StoreStep::Apply(StoreEdit::Delete { key }) => assert_eq!(key, "theme"),
        _ => panic!(),
    }
    assert!(matches!(store_edit(write(true)), StoreEdit::Delete { key } if key == "theme"));
}

#[test]
fn a_write_that_fails() {
    match handle_store_set("..", Ok(()), write(false)) {
        StoreStep::Respond(reply) => {
            assert_eq!(error(reply), (400, "Invalid store name".to_string()))
        }
        _ => panic!(),
    }
    match handle_store_set("s", Err("denied".to_string()), write(false)) {
        StoreStep::Respond(reply) => {
            assert_eq!(error(reply), (500, "Failed to open store: denied".to_string()))
        }
        _ => panic!(),
    }
    assert_eq!(body(store_saved(Ok(()))), (200, json("{\"ok\": true}")));
    let reply = store_saved(Err("disk full".to_string()));
    assert_eq!(error(reply), (500, "Failed to save store: disk full".to_string()));
}

#[test]
fn a_read_after_a_write_shows_it() {
    let mut kept = vec![("other".to_string(), json("1")), ("theme".to_string(), json("\"light\""))];
    for delete in [false, true] {
        match handle_store_set("app.json", Ok(()), write(delete)) {
            StoreStep::Apply(StoreEdit::Put { key, value }) => {
                kept.retain(|(k, _)| *k != key);
                kept.push((key, value));
            }
            StoreStep::Apply(StoreEdit::Delete { key }) => kept.retain(|(k, _)| *k != key),
            StoreStep::Respond(_) => panic!(),
        }
        let listing = kept.iter().map(|(k, v)| (k.clone(), Some(v.clone()))).collect();
        let expected = if delete { "{\"other\": 1}" } else { "{\"other\": 1, \"theme\": \"dark\"}" };
        assert_eq!(body(handle_store_get("app.json", Ok(listing))), (200, json(expected)));
    }
}

#[test]
fn extensions() {
    for (path, expected) in [
        ("a.html", Some("html")),
        ("/x/y.tar.gz", Some("gz")),
        ("x.d/readme", None),
        (".bashrc", None),
        (".config.json", Some("json")),
        ("a.", Some("")),
        ("..html", Some("html")),
        ("..", None),
        ("a.html/", Some("html")),
        ("a.html/.", Some("html")),
        ("a.html/..", None),
        ("/", None),
        ("", None),
    ] {
        assert_eq!(path_extension(path).as_deref(), expected, "{path}");
        let std = std::path::Path::new(path).extension().map(|e| e.to_str().unwrap());
        assert_eq!(std, expected, "{path}");
    }
}

#[test]
fn media_types() {
    for (path, expected) in [
        ("index.html", "text/html; charset=utf-8"),
        ("a.js", "text/javascript"),
        ("a.css", "text/css"),
        ("a.json", "application/json"),
        ("a.svg", "image/svg+xml"),
        ("a.png", "image/png"),
        ("a.jpg", "image/jpeg"),
        ("a.jpeg", "image/jpeg"),
        ("a.gif", "image/gif"),
        ("a.webp", "image/webp"),
        ("a.ico", "image/x-icon"),
        ("a.pdf", "application/pdf"),
        ("a.woff2", "font/woff2"),
        ("a.md", "text/plain; charset=utf-8"),
        ("a.txt", "text/plain; charset=utf-8"),
        ("a.exe", "application/octet-stream"),
        ("html", "application/octet-stream"),
        ("a.", "application/octet-stream"),
    ] {
        assert_eq!(content_type_for(path), expected, "{path}");
    }
}

#[test]
fn media_types_ignore_case() {
    assert_eq!(content_type_for("/data/PHOTO.JpEg"), "image/jpeg");
    assert_eq!(content_type_for("/data/photo.jpeg"), "image/jpeg");
    assert_eq!(content_type_for("/data/README"), content_type_for(".profile"));
}

#[test]
fn files_are_served() {
    let reply = serve_file("a/b.css", Ok(vec![1, 2, 3]));
    assert_eq!(reply.status, 200);
    match reply.body {
        Body::File { content_type, bytes } => {
            assert_eq!(content_type, "text/css");
            assert_eq!(bytes, vec![1, 2, 3]);
        }
        Body::Json(_) => panic!(),
    }
    let reply = serve_file("a/b.css", Err("gone".to_string()));
    assert_eq!(error(reply), (404, "Cannot read file: gone".to_string()));
}

#[test]
fn requested_files() {
    assert_eq!(INDEX_FILE, "index.html");
    assert_eq!(static_candidate("/"), "index.html");
    assert_eq!(static_candidate(""), "index.html");
    assert_eq!(static_candidate("///"), "index.html");
    assert_eq!(static_candidate("/assets/app.js"), "assets/app.js");
    assert_eq!(static_candidate("//etc/passwd"), "etc/passwd");
    assert_eq!(static_candidate("/a/"), "a/");
    assert_eq!(static_candidate("/../x"), "../x");
}

#[test]
fn only_files_in_the_directory_are_handed_out() {
    let dist = Some("/srv/dist");
    assert_eq!(static_choice(Some("/srv/dist/a.js"), true, dist), StaticChoice::Candidate);
    assert_eq!(static_choice(Some("/srv/dist/a"), false, dist), StaticChoice::Index);
    assert_eq!(static_choice(Some("/srv/secret"), true, dist), StaticChoice::Index);
    assert_eq!(static_choice(Some("/srv/dist2/a.js"), true, dist), StaticChoice::Index);
    assert_eq!(static_choice(None, true, dist), StaticChoice::Index);
    assert_eq!(static_choice(Some("/srv/dist/a.js"), true, None), StaticChoice::Index);
}

#[test]
fn static_serving_can_be_disabled() {
    let message = "Static serving disabled (set LLM_WIKI_WEB_DIST to the dist-web directory)";
    assert_eq!(error(static_disabled()), (404, message.to_string()));
}

#[test]
fn events_carry_their_payload() {
    let event = next_event(Some("{\"a\":1}\nsecond".to_string())).unwrap();
    let expected = axum::response::sse::Event::default().data("{\"a\":1}\nsecond");
    assert_eq!(format!("{event:?}"), format!("{expected:?}"));
    let other = axum::response::sse::Event::default().data("x");
    assert_ne!(format!("{event:?}"), format!("{other:?}"));
    assert!(next_event(None).is_none());
}
