//! Replies to HTTP requests, as plain values.

use serde_json::Value;
use vstd::prelude::*;
use vstd::string::*;

use crate::json::{
    bool_value, contents, insert_member, members, new_members, object_value, text_value, Json,
};

verus! {

pub const OK: u16 = 200;

pub const BAD_REQUEST: u16 = 400;

pub const NOT_FOUND: u16 = 404;

pub const METHOD_NOT_ALLOWED: u16 = 405;

pub const PAYLOAD_TOO_LARGE: u16 = 413;

pub const INTERNAL_SERVER_ERROR: u16 = 500;

pub const NOT_IMPLEMENTED: u16 = 501;

pub const BAD_GATEWAY: u16 = 502;

/// What a reply carries.
pub enum Body {
    Json(Value),
    File { content_type: &'static str, bytes: Vec<u8> },
}

/// A complete reply.
pub struct Reply {
    pub status: u16,
    pub body: Body,
}

impl Reply {
    /// The JSON contents of the reply, where it carries JSON.
    pub open spec fn json(self) -> Option<Json> {
        match self.body {
            Body::Json(value) => Some(contents(value)),
            Body::File { .. } => None,
        }
    }

    /// Whether this is the reply with `status` whose body is `{"error": message}`.
    pub open spec fn is_error(self, status: u16, message: Seq<char>) -> bool {
        &&& self.status == status
        &&& self.json() == Some(Json::Object(map!["error"@ => Json::Text(message)]))
    }

    /// Whether this is the reply with status 200 and the given JSON body.
    pub open spec fn is_json(self, body: Json) -> bool {
        self.status == OK && self.json() == Some(body)
    }
}

/// The reply that reports a failure: `{"error": message}` under the given status.
pub fn error_response(status: u16, message: &str) -> (res: Reply)
    ensures
        res.is_error(status, message@),
{
    let mut map = new_members();
    insert_member(&mut map, "error".to_owned(), text_value(message.to_owned()));
    assert(members(map) =~= map!["error"@ => Json::Text(message@)]);
    Reply { status, body: Body::Json(object_value(map)) }
}

/// The reply that hands out a JSON value.
pub fn json_response(value: Value) -> (res: Reply)
    ensures
        res.is_json(contents(value)),
{
    Reply { status: OK, body: Body::Json(value) }
}

/// The reply `{"ok": true}`.
pub fn ok_response() -> (res: Reply)
    ensures
        res.is_json(Json::Object(map!["ok"@ => Json::Bool(true)])),
{
    let mut map = new_members();
    insert_member(&mut map, "ok".to_owned(), bool_value(true));
    assert(members(map) =~= map!["ok"@ => Json::Bool(true)]);
    json_response(object_value(map))
}

/// A failure is reported under its status, as an object whose one member is the message under
/// `error`.
pub proof fn law_error_reply(status: u16, message: &str, res: Reply)
    requires
        call_ensures(error_response, (status, message), res),
    ensures
        res.status == status,
        res.body matches Body::Json(value) && contents(value) == Json::Object(
            map!["error"@ => Json::Text(message@)],
        ),
{
}

/// What it means for a reply to be an error, or to be a JSON value.
pub proof fn law_kinds_of_replies(reply: Reply, status: u16, message: Seq<char>, body: Json)
    ensures
        reply.is_error(status, message) <==> reply.status == status && (reply.body matches Body::Json(
            value,
        ) && contents(value) == Json::Object(map!["error"@ => Json::Text(message)])),
        reply.is_json(body) <==> reply.status == 200 && (reply.body matches Body::Json(value)
            && contents(value) == body),
{
}

/// A JSON value is handed out as it is, under the status 200.
pub proof fn law_json_reply(value: Value, res: Reply)
    requires
        call_ensures(json_response, (value,), res),
    ensures
        res.status == 200,
        res.body matches Body::Json(sent) && contents(sent) == contents(value),
{
}

/// Success without a value is the object whose one member is `ok`, which is true.
pub proof fn law_ok_reply(res: Reply)
    requires
        call_ensures(ok_response, (), res),
    ensures
        res.status == 200,
        res.body matches Body::Json(value) && contents(value) == Json::Object(
            map!["ok"@ => Json::Bool(true)],
        ),
{
}

} // verus!
