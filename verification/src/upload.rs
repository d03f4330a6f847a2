//! Browser uploads: where a file is staged, and how its bytes are taken in.
//!
//! Each session of a file picker has a directory of its own, named by a token. The files land
//! below it under the relative paths that the browser sends.

use axum::http::HeaderMap;
use vstd::prelude::*;
use vstd::seq_lib::lemma_flatten_concat;
use vstd::string::*;
use vstd::utf8::*;

use crate::headers::{bytes_of, entries, first_of, header_get, header_text, is_visible, value_text};
use crate::json::{insert_member, members, new_members, object_value, text_value, Json};
use crate::path::{
    clean_relative, is_plain_name, is_within, join_path, joined_path,
    law_clean_path_keeps_components, law_clean_path_last_name, law_clean_path_stays_within,
    law_join_adds_components,
    law_path_without_last, law_plain_name_reads_back, lemma_slash_before_last, path_parts, sanitize_upload_rel,
    Part,
};
use crate::percent::{law_percent_round_trip, percent_decode, percent_decoded, writes_text};
use crate::reply::{
    error_response, json_response, Reply, BAD_REQUEST, INTERNAL_SERVER_ERROR, OK, PAYLOAD_TOO_LARGE,
};
use crate::text::{
    alphanumeric, find_last, from_chars, is_alphanumeric, join2, last_index, law_last_place, lower,
    to_chars,
};

verus! {

/// The largest file that can be uploaded, in bytes.
pub const MAX_UPLOAD_BYTES: u64 = 2 * 1024 * 1024 * 1024;

/// The age, in seconds, beyond which a staging directory is removed.
pub const UPLOAD_PRUNE_AGE_SECS: u64 = 24 * 60 * 60;

/// The longest token, in characters.
pub const MAX_TOKEN_LEN: usize = 64;

/// The header with the token of the upload session.
pub const TOKEN_HEADER: &'static str = "x-llmwiki-upload-dir";

/// The header with the percent-encoded relative path of the file.
pub const NAME_HEADER: &'static str = "x-llmwiki-upload-name";

/// The directory for uploads below the home directory.
pub const UPLOAD_DIR_NAME: &'static str = ".llm-wiki-web-uploads";

/// The directory that holds all staging directories.
pub open spec fn upload_base_for(dir: Option<String>, home: Option<String>, temp: Seq<char>) -> Seq<
    char,
> {
    match dir {
        Some(path) => path@,
        None => joined_path(
            match home {
                Some(path) => path@,
                None => temp,
            },
            UPLOAD_DIR_NAME@,
        ),
    }
}

/// The directory that holds all staging directories: the configured one, else one below the home
/// directory, else one below the directory for temporary files.
pub fn upload_base(dir: Option<String>, home: Option<String>, temp: &str) -> (res: String)
    ensures
        res@ == upload_base_for(dir, home, temp@),
{
    match dir {
        Some(path) => path,
        None => match home {
            Some(path) => join_path(path.as_str(), UPLOAD_DIR_NAME),
            None => join_path(temp, UPLOAD_DIR_NAME),
        },
    }
}

/// The tokens that may name a staging directory: up to 64 ASCII letters, digits and dashes.
pub open spec fn is_upload_token(token: Seq<char>) -> bool {
    &&& 0 < token.len() <= MAX_TOKEN_LEN
    &&& forall|i: int|
        0 <= i < token.len() ==> is_alphanumeric(#[trigger] token[i]) || token[i] == '-'
}

/// Whether a token may name a staging directory.
pub fn valid_upload_token(token: &str) -> (res: bool)
    ensures
        res == is_upload_token(token@),
{
    let chars = to_chars(token);
    if chars.len() == 0 || chars.len() > MAX_TOKEN_LEN {
        return false;
    }
    let mut i: usize = 0;
    while i < chars.len()
        invariant
            i <= chars@.len(),
            chars@ == token@,
            0 < token@.len() <= MAX_TOKEN_LEN,
            forall|j: int| 0 <= j < i ==> is_alphanumeric(#[trigger] token@[j]) || token@[j] == '-',
        decreases chars@.len() - i,
    {
        let c = chars[i];
        if !(alphanumeric(c) || c == '-') {
            assert(!(is_alphanumeric(token@[i as int]) || token@[i as int] == '-'));
            return false;
        }
        i = i + 1;
    }
    true
}

/// The token in the value of its header, where it is one.
pub open spec fn accepted_token(value: Option<Seq<u8>>) -> Option<Seq<char>> {
    match value {
        Some(bytes) => match header_text(bytes) {
            Some(text) => if is_upload_token(text) {
                Some(text)
            } else {
                None
            },
            None => None,
        },
        None => None,
    }
}

/// The clean relative path in the value of its header, where there is one.
pub open spec fn accepted_name(value: Option<Seq<u8>>) -> Option<Seq<char>> {
    match value {
        Some(bytes) => match header_text(bytes) {
            Some(text) => match percent_decoded(text) {
                Some(rel) => clean_relative(rel),
                None => None,
            },
            None => None,
        },
        None => None,
    }
}

fn read_token(value: Option<Vec<u8>>) -> (res: Option<String>)
    ensures
        match res {
            Some(token) => accepted_token(bytes_of(value)) == Some(token@),
            None => accepted_token(bytes_of(value)) is None,
        },
{
    match value {
        Some(bytes) => match value_text(&bytes) {
            Some(text) => if valid_upload_token(text.as_str()) {
                Some(text)
            } else {
                None
            },
            None => None,
        },
        None => None,
    }
}

fn read_name(value: Option<Vec<u8>>) -> (res: Option<String>)
    ensures
        match res {
            Some(rel) => accepted_name(bytes_of(value)) == Some(rel@),
            None => accepted_name(bytes_of(value)) is None,
        },
{
    match value {
        Some(bytes) => match value_text(&bytes) {
            Some(text) => match percent_decode(text.as_str()) {
                Some(rel) => sanitize_upload_rel(rel.as_str()),
                None => None,
            },
            None => None,
        },
        None => None,
    }
}

/// Where an uploaded file goes.
pub struct UploadPlan {
    /// The directory of the upload session.
    pub root: String,
    /// The file.
    pub dest: String,
    /// The directory of the file.
    pub parent: String,
}

/// The directory of the session `token` below `base`.
pub open spec fn session_root(base: Seq<char>, token: Seq<char>) -> Seq<char> {
    joined_path(base, token)
}

/// The place of the file `clean` of the session `token`.
pub open spec fn destination(base: Seq<char>, token: Seq<char>, clean: Seq<char>) -> Seq<char> {
    joined_path(session_root(base, token), clean)
}

/// What stands before the last slash of a path.
pub open spec fn parent_of(path: Seq<char>) -> Seq<char> {
    path.take(last_index(path, '/'))
}

/// Whether `res` is the right answer to an upload with the given header values: the place of the
/// file, or the reply that refuses the upload.
pub open spec fn is_upload_plan(
    res: Result<UploadPlan, Reply>,
    token: Option<Seq<u8>>,
    name: Option<Seq<u8>>,
    base: Seq<char>,
) -> bool {
    match (accepted_token(token), accepted_name(name)) {
        (Some(t), Some(clean)) => res matches Ok(plan) && {
            &&& plan.root@ == session_root(base, t)
            &&& plan.dest@ == destination(base, t, clean)
            &&& plan.parent@ == parent_of(plan.dest@)
        },
        (None, _) => res matches Err(reply) && reply.is_error(
            BAD_REQUEST,
            "Missing or invalid x-llmwiki-upload-dir"@,
        ),
        (Some(_), None) => res matches Err(reply) && reply.is_error(
            BAD_REQUEST,
            "Missing or invalid x-llmwiki-upload-name"@,
        ),
    }
}

/// Finds the place of an uploaded file, from the values of the two headers.
pub fn plan_upload(token: Option<Vec<u8>>, name: Option<Vec<u8>>, base: &str) -> (res: Result<
    UploadPlan,
    Reply,
>)
    ensures
        is_upload_plan(res, bytes_of(token), bytes_of(name), base@),
{
    let ghost name_bytes = bytes_of(name);
    let t = match read_token(token) {
        Some(t) => t,
        None => {
            return Err(error_response(BAD_REQUEST, "Missing or invalid x-llmwiki-upload-dir"));
        },
    };
    let rel = match read_name(name) {
        Some(rel) => rel,
        None => {
            return Err(error_response(BAD_REQUEST, "Missing or invalid x-llmwiki-upload-name"));
        },
    };
    let root = join_path(base, t.as_str());
    let dest = join_path(root.as_str(), rel.as_str());
    let chars = to_chars(dest.as_str());
    proof {
        let sent = percent_decoded(header_text(name_bytes->0)->0)->0;
        lemma_destination_has_parent(base@, t@, sent);
    }
    let slash: usize = match find_last(&chars, '/') {
        Some(i) => i,
        None => 0,
    };
    assert(chars@.subrange(0, slash as int) =~= chars@.take(slash as int));
    let parent = from_chars(&chars, 0, slash);
    Ok(UploadPlan { root, dest, parent })
}

/// Finds the place of an uploaded file, from the headers of the request.
pub fn begin_upload(headers: &HeaderMap, base: &str) -> (res: Result<UploadPlan, Reply>)
    ensures
        is_upload_plan(
            res,
            first_of(entries(*headers), TOKEN_HEADER@),
            first_of(entries(*headers), NAME_HEADER@),
            base@,
        ),
{
    proof {
        reveal_strlit("x-llmwiki-upload-dir");
        reveal_strlit("x-llmwiki-upload-name");
        assert(lower(TOKEN_HEADER@) =~= TOKEN_HEADER@);
        assert(lower(NAME_HEADER@) =~= NAME_HEADER@);
    }
    let token = header_get(headers, TOKEN_HEADER);
    let name = header_get(headers, NAME_HEADER);
    plan_upload(token, name, base)
}

/// Whether a staging directory is old enough to be removed. `age` is its age in seconds and
/// further nanoseconds, where it is known.
pub fn is_stale(age: Option<(u64, u32)>) -> (res: bool)
    ensures
        res == (age matches Some((secs, nanos)) && secs * 1_000_000_000 + nanos
            > UPLOAD_PRUNE_AGE_SECS * 1_000_000_000),
{
    match age {
        Some((secs, nanos)) => secs as u128 * 1_000_000_000 + nanos as u128
            > UPLOAD_PRUNE_AGE_SECS as u128 * 1_000_000_000,
        None => false,
    }
}

/// What can happen while a file is taken in.
pub enum UploadEvent {
    /// The directory of the file exists.
    DirReady,
    DirFailed(String),
    /// The file was created, empty.
    FileReady,
    FileFailed(String),
    /// That many bytes arrived.
    Chunk(usize),
    StreamFailed(String),
    /// The bytes that arrived last were written.
    Written,
    WriteFailed(String),
    /// All bytes have arrived.
    Ended,
    Flushed,
    FlushFailed(String),
}

/// What is to be done next.
pub enum UploadAction {
    CreateFile,
    ReadChunk,
    WriteChunk,
    Flush,
    Respond(Reply),
    /// Remove the file, then reply.
    Discard(Reply),
}

/// A file that is being taken in.
pub struct Upload {
    pub plan: UploadPlan,
    /// How many bytes have been accepted.
    pub written: u64,
}

/// How many bytes have been accepted after a further chunk; `None` where it goes over the limit.
pub open spec fn with_chunk(written: int, len: usize) -> Option<int> {
    if written + len <= MAX_UPLOAD_BYTES {
        Some(written + len)
    } else {
        None
    }
}

/// The body of the reply to a finished upload.
pub open spec fn upload_done(plan: UploadPlan) -> Json {
    Json::Object(
        map!["path"@ => Json::Text(plan.dest@), "root"@ => Json::Text(plan.root@)],
    )
}

/// Whether an upload that takes note of `event` goes over from `before` to `after` and asks for
/// `action`.
pub open spec fn is_step(
    before: Upload,
    event: UploadEvent,
    after: Upload,
    action: UploadAction,
) -> bool {
    &&& after.plan == before.plan
    &&& after.written == (match event {
        UploadEvent::Chunk(len) => match with_chunk(before.written as int, len) {
            Some(sum) => sum,
            None => before.written as int,
        },
        _ => before.written as int,
    })
    &&& match event {
        UploadEvent::DirReady => action is CreateFile,
        UploadEvent::DirFailed(message) => action matches UploadAction::Respond(reply)
            && reply.is_error(INTERNAL_SERVER_ERROR, "Cannot create staging dir: "@ + message@),
        UploadEvent::FileReady => action is ReadChunk,
        UploadEvent::FileFailed(message) => action matches UploadAction::Respond(reply)
            && reply.is_error(INTERNAL_SERVER_ERROR, "Cannot create file: "@ + message@),
        UploadEvent::Chunk(len) => match with_chunk(before.written as int, len) {
            Some(_) => action is WriteChunk,
            None => action matches UploadAction::Discard(reply) && reply.is_error(
                PAYLOAD_TOO_LARGE,
                "File exceeds upload size limit"@,
            ),
        },
        UploadEvent::StreamFailed(message) => action matches UploadAction::Discard(reply)
            && reply.is_error(BAD_REQUEST, "Upload stream error: "@ + message@),
        UploadEvent::Written => action is ReadChunk,
        UploadEvent::WriteFailed(message) => action matches UploadAction::Discard(reply)
            && reply.is_error(INTERNAL_SERVER_ERROR, "Upload failed: "@ + message@),
        UploadEvent::Ended => action is Flush,
        UploadEvent::Flushed => action matches UploadAction::Respond(reply) && reply.is_json(
            upload_done(before.plan),
        ),
        UploadEvent::FlushFailed(message) => action matches UploadAction::Respond(reply)
            && reply.is_error(INTERNAL_SERVER_ERROR, "Upload flush failed: "@ + message@),
    }
}

fn upload_reply(plan: &UploadPlan) -> (res: Reply)
    ensures
        res.is_json(upload_done(*plan)),
{
    let mut map = new_members();
    insert_member(&mut map, "path".to_owned(), text_value(plan.dest.clone()));
    insert_member(&mut map, "root".to_owned(), text_value(plan.root.clone()));
    assert(members(map) =~= map!["path"@ => Json::Text(plan.dest@),
        "root"@ => Json::Text(plan.root@)]);
    json_response(object_value(map))
}

fn failure(status: u16, what: &str, message: &str) -> (res: Reply)
    ensures
        res.is_error(status, what@ + message@),
{
    let text = join2(what, message);
    error_response(status, text.as_str())
}

impl Upload {
    /// The bytes accepted so far are within the limit.
    pub open spec fn wf(self) -> bool {
        self.written <= MAX_UPLOAD_BYTES
    }

    /// Begins to take a file in.
    pub fn new(plan: UploadPlan) -> (res: Self)
        ensures
            res.wf(),
            res.plan == plan,
            res.written == 0,
    {
        Upload { plan, written: 0 }
    }

    /// Takes note of an event and says what to do next.
    pub fn step(&mut self, event: UploadEvent) -> (res: UploadAction)
        ensures
            old(self).wf() ==> final(self).wf(),
            is_step(*old(self), event, *final(self), res),
    {
        match event {
            UploadEvent::DirReady => UploadAction::CreateFile,
            UploadEvent::DirFailed(message) => UploadAction::Respond(
                failure(INTERNAL_SERVER_ERROR, "Cannot create staging dir: ", message.as_str()),
            ),
            UploadEvent::FileReady => UploadAction::ReadChunk,
            UploadEvent::FileFailed(message) => UploadAction::Respond(
                failure(INTERNAL_SERVER_ERROR, "Cannot create file: ", message.as_str()),
            ),
            UploadEvent::Chunk(len) => {
                let size: u64 = len as u64;
                if self.written > MAX_UPLOAD_BYTES || size > MAX_UPLOAD_BYTES - self.written {
                    UploadAction::Discard(
                        error_response(PAYLOAD_TOO_LARGE, "File exceeds upload size limit"),
                    )
                } else {
                    self.written = self.written + size;
                    UploadAction::WriteChunk
                }
            },
            UploadEvent::StreamFailed(message) => UploadAction::Discard(
                failure(BAD_REQUEST, "Upload stream error: ", message.as_str()),
            ),
            UploadEvent::Written => UploadAction::ReadChunk,
            UploadEvent::WriteFailed(message) => UploadAction::Discard(
                failure(INTERNAL_SERVER_ERROR, "Upload failed: ", message.as_str()),
            ),
            UploadEvent::Ended => UploadAction::Flush,
            UploadEvent::Flushed => UploadAction::Respond(upload_reply(&self.plan)),
            UploadEvent::FlushFailed(message) => UploadAction::Respond(
                failure(INTERNAL_SERVER_ERROR, "Upload flush failed: ", message.as_str()),
            ),
        }
    }
}

/// One round of an upload: what happened, and what the upload asked for then.
pub struct Round {
    pub event: UploadEvent,
    /// The bytes that arrived, where the event is that some did.
    pub chunk: Seq<u8>,
    /// What the file holds after the event, counting all that was written to it; `None` where
    /// there is no file.
    pub file: Option<Seq<u8>>,
    /// The upload after the event.
    pub upload: Upload,
    pub action: UploadAction,
}

/// Whether the event of `next` is an outcome of what `prev` asked for, and leaves the file as that
/// outcome does: creating empties it, writing appends, and reading and flushing leave it alone.
/// What a failure to create, write or flush leaves behind is open.
pub open spec fn follows(prev: Round, next: Round) -> bool {
    match (prev.action, next.event) {
        (UploadAction::CreateFile, UploadEvent::FileReady) => next.file == Some(Seq::<u8>::empty()),
        (UploadAction::CreateFile, UploadEvent::FileFailed(_)) => true,
        (UploadAction::ReadChunk, UploadEvent::Chunk(len)) => next.chunk.len() == len && next.file
            == prev.file,
        (UploadAction::ReadChunk, UploadEvent::StreamFailed(_)) => next.file == prev.file,
        (UploadAction::ReadChunk, UploadEvent::Ended) => next.file == prev.file,
        (UploadAction::WriteChunk, UploadEvent::Written) => prev.file matches Some(held)
            ==> next.file == Some(held + prev.chunk),
        (UploadAction::WriteChunk, UploadEvent::WriteFailed(_)) => true,
        (UploadAction::Flush, UploadEvent::Flushed) => next.file == prev.file,
        (UploadAction::Flush, UploadEvent::FlushFailed(_)) => true,
        _ => false,
    }
}

/// Whether `run` is how an upload to `plan` can go, from its beginning, where the file holds `file`
/// at first and nothing else touches it.
pub open spec fn is_run(run: Seq<Round>, plan: UploadPlan, file: Option<Seq<u8>>) -> bool {
    &&& run.len() > 0
    &&& run[0].event is DirReady || run[0].event is DirFailed
    &&& run[0].file == file
    &&& is_step(Upload { plan, written: 0 }, run[0].event, run[0].upload, run[0].action)
    &&& forall|i: int| 0 < i < run.len() ==> follows(run[i - 1], #[trigger] run[i])
    &&& forall|i: int|
        0 < i < run.len() ==> is_step(
            run[i - 1].upload,
            (#[trigger] run[i]).event,
            run[i].upload,
            run[i].action,
        )
}

/// The chunks that arrived in the course of a run.
pub open spec fn received(run: Seq<Round>) -> Seq<Seq<u8>>
    decreases run.len(),
{
    if run.len() == 0 {
        Seq::empty()
    } else {
        let before = received(run.drop_last());
        match run.last().event {
            UploadEvent::Chunk(_) => before.push(run.last().chunk),
            _ => before,
        }
    }
}

/// What a run that is over leaves in the file: nothing where it was discarded.
pub open spec fn left_behind(run: Seq<Round>) -> Option<Seq<u8>> {
    match run.last().action {
        UploadAction::Discard(_) => None,
        _ => run.last().file,
    }
}

/// The reply of a run, where it is over.
pub open spec fn reply_of(run: Seq<Round>) -> Option<Reply> {
    match run.last().action {
        UploadAction::Respond(reply) => Some(reply),
        UploadAction::Discard(reply) => Some(reply),
        _ => None,
    }
}

/// In the course of a run the file holds what has arrived so far, but for a chunk that is yet to be
/// written.
proof fn lemma_run(run: Seq<Round>, plan: UploadPlan, file: Option<Seq<u8>>)
    requires
        is_run(run, plan, file),
    ensures
        run.last().upload.plan == plan,
        run.last().upload.wf(),
        match run.last().action {
            UploadAction::CreateFile => received(run).len() == 0 && run.last().upload.written == 0,
            UploadAction::WriteChunk => {
                &&& run.last().event is Chunk
                &&& run.last().file == Some(received(run.drop_last()).flatten())
                &&& run.last().upload.written == received(run).flatten().len()
            },
            UploadAction::ReadChunk => {
                &&& run.last().file == Some(received(run).flatten())
                &&& run.last().upload.written == received(run).flatten().len()
            },
            UploadAction::Flush => {
                &&& run.last().file == Some(received(run).flatten())
                &&& run.last().upload.written == received(run).flatten().len()
            },
            UploadAction::Respond(reply) => reply.status == OK ==> {
                &&& reply.is_json(upload_done(plan))
                &&& run.last().file == Some(received(run).flatten())
                &&& run.last().upload.written == received(run).flatten().len()
            },
            UploadAction::Discard(reply) => {
                &&& reply.status != OK
                &&& run.last().event is Chunk ==> received(run).flatten().len() > MAX_UPLOAD_BYTES
            },
        },
    decreases run.len(),
{
    let n = run.len() - 1;
    let before = run.drop_last();
    assert(run.last() == run[n]);
    if n == 0 {
        assert(before =~= Seq::<Round>::empty());
        assert(received(before) =~= Seq::<Seq<u8>>::empty());
        assert(received(run).flatten() =~= Seq::<u8>::empty());
    } else {
        assert(is_run(before, plan, file)) by {
            assert forall|i: int| 0 < i < before.len() implies follows(
                before[i - 1],
                #[trigger] before[i],
            ) by {
                assert(follows(run[i - 1], run[i]));
            }
            assert forall|i: int| 0 < i < before.len() implies is_step(
                before[i - 1].upload,
                (#[trigger] before[i]).event,
                before[i].upload,
                before[i].action,
            ) by {
                assert(follows(run[i - 1], run[i]));
            }
        }
        lemma_run(before, plan, file);
        assert(before.last() == run[n - 1]);
        assert(follows(run[n - 1], run[n]));
        received(before).lemma_flatten_push(run[n].chunk);
        if before.last().event is Chunk {
            received(before.drop_last()).lemma_flatten_push(before.last().chunk);
        }
    }
}

/// A file that was taken in holds exactly the bytes that arrived, whatever it held before, and no
/// more of them than the limit allows. The reply names its place.
pub proof fn law_upload_holds_what_arrived(
    run: Seq<Round>,
    plan: UploadPlan,
    file: Option<Seq<u8>>,
)
    requires
        is_run(run, plan, file),
        reply_of(run) is Some,
        reply_of(run)->0.status == OK,
    ensures
        left_behind(run) == Some(received(run).flatten()),
        received(run).flatten().len() <= MAX_UPLOAD_BYTES,
        reply_of(run)->0.is_json(upload_done(plan)),
{
    lemma_run(run, plan, file);
}

/// The events that report a failure.
pub open spec fn is_failure(event: UploadEvent) -> bool {
    ||| event is DirFailed
    ||| event is FileFailed
    ||| event is StreamFailed
    ||| event is WriteFailed
    ||| event is FlushFailed
}

/// Where nothing fails, the size of the file alone decides, however it is cut into chunks: up to the
/// limit it is taken in, and beyond it the upload is refused as too large and the file removed.
pub proof fn law_limit_is_on_the_file(run: Seq<Round>, plan: UploadPlan, file: Option<Seq<u8>>)
    requires
        is_run(run, plan, file),
        reply_of(run) is Some,
        forall|i: int| 0 <= i < run.len() ==> !is_failure(#[trigger] run[i].event),
    ensures
        reply_of(run)->0.status == OK <==> received(run).flatten().len() <= MAX_UPLOAD_BYTES,
        received(run).flatten().len() <= MAX_UPLOAD_BYTES ==> {
            &&& reply_of(run)->0.is_json(upload_done(plan))
            &&& left_behind(run) == Some(received(run).flatten())
        },
        received(run).flatten().len() > MAX_UPLOAD_BYTES ==> {
            &&& reply_of(run)->0.is_error(PAYLOAD_TOO_LARGE, "File exceeds upload size limit"@)
            &&& left_behind(run) is None
        },
{
    lemma_run(run, plan, file);
    let n = run.len() - 1;
    assert(run.last() == run[n]);
    assert(!is_failure(run[n].event));
}

/// Whether a run reads the chunks of `body` in turn: what it received is the beginning of `body`,
/// and all of it where the run came to the end.
pub open spec fn reads(run: Seq<Round>, body: Seq<Seq<u8>>) -> bool {
    &&& received(run).is_prefix_of(body)
    &&& forall|i: int|
        0 <= i < run.len() && (#[trigger] run[i]).event is Ended ==> received(run) == body
}

/// A request is answered by the size of its whole body: where nothing fails it is taken in exactly
/// where the body is within the limit, and the file then holds that body. Beyond the limit it is
/// refused as too large, though its end was never read, and the file is removed.
pub proof fn law_limit_is_on_the_body(
    run: Seq<Round>,
    plan: UploadPlan,
    file: Option<Seq<u8>>,
    body: Seq<Seq<u8>>,
)
    requires
        is_run(run, plan, file),
        reply_of(run) is Some,
        forall|i: int| 0 <= i < run.len() ==> !is_failure(#[trigger] run[i].event),
        reads(run, body),
    ensures
        reply_of(run)->0.status == OK <==> body.flatten().len() <= MAX_UPLOAD_BYTES,
        body.flatten().len() <= MAX_UPLOAD_BYTES ==> {
            &&& reply_of(run)->0.is_json(upload_done(plan))
            &&& left_behind(run) == Some(body.flatten())
        },
        body.flatten().len() > MAX_UPLOAD_BYTES ==> {
            &&& reply_of(run)->0.is_error(PAYLOAD_TOO_LARGE, "File exceeds upload size limit"@)
            &&& left_behind(run) is None
        },
{
    law_limit_is_on_the_file(run, plan, file);
    let n = run.len() - 1;
    assert(run.last() == run[n]);
    if reply_of(run)->0.status == OK {
        assert(!is_failure(run[n].event));
        assert(n > 0 && follows(run[n - 1], run[n]));
        assert(run[n - 1].event is Ended);
    } else {
        let got = received(run);
        let rest = body.skip(got.len() as int);
        assert(body =~= got + rest);
        lemma_flatten_concat(got, rest);
    }
}

/// A later upload under the same headers replaces an earlier one: both replies name the same place,
/// and the file then holds exactly the bytes of the later one.
pub proof fn law_later_upload_replaces(
    token: Option<Seq<u8>>,
    name: Option<Seq<u8>>,
    base: Seq<char>,
    earlier_plan: UploadPlan,
    earlier: Seq<Round>,
    later_plan: UploadPlan,
    later: Seq<Round>,
    file: Option<Seq<u8>>,
)
    requires
        is_upload_plan(Ok(earlier_plan), token, name, base),
        is_upload_plan(Ok(later_plan), token, name, base),
        is_run(earlier, earlier_plan, file),
        is_run(later, later_plan, left_behind(earlier)),
        reply_of(earlier) is Some,
        reply_of(earlier)->0.status == OK,
        reply_of(later) is Some,
        reply_of(later)->0.status == OK,
    ensures
        reply_of(later)->0.json() == reply_of(earlier)->0.json(),
        later_plan.dest@ == earlier_plan.dest@,
        later_plan.root@ == earlier_plan.root@,
        left_behind(earlier) == Some(received(earlier).flatten()),
        left_behind(later) == Some(received(later).flatten()),
{
    law_upload_holds_what_arrived(earlier, earlier_plan, file);
    law_upload_holds_what_arrived(later, later_plan, left_behind(earlier));
}

/// An upload that goes over the limit, whose stream breaks off or whose bytes cannot be written is
/// refused, and its file is removed.
pub proof fn law_broken_upload_is_removed(
    run: Seq<Round>,
    plan: UploadPlan,
    file: Option<Seq<u8>>,
)
    requires
        is_run(run, plan, file),
        reply_of(run) is Some,
        run.last().event is Chunk || run.last().event is StreamFailed
            || run.last().event is WriteFailed,
    ensures
        reply_of(run)->0.status != OK,
        left_behind(run) is None,
{
    lemma_run(run, plan, file);
    assert(run.last() == run[run.len() - 1]);
}

proof fn lemma_token_is_plain(token: Seq<char>)
    requires
        is_upload_token(token),
    ensures
        is_plain_name(token),
{
    if token.contains('/') {
        let k = choose|k: int| 0 <= k < token.len() && token[k] == '/';
        assert(is_alphanumeric(token[k]) || token[k] == '-');
    }
    assert(is_alphanumeric(token[0]) || token[0] == '-');
    assert(seq!['.'][0] == '.' && seq!['.', '.'][0] == '.');
}

/// The directory of a session lies directly below the base directory, and two sessions with
/// different tokens have different directories.
pub proof fn law_sessions_are_separate(base: Seq<char>, a: Seq<char>, b: Seq<char>)
    requires
        is_upload_token(a),
        is_upload_token(b),
    ensures
        path_parts(session_root(base, a)) == path_parts(base).push(Part::Normal(a)),
        a != b ==> path_parts(session_root(base, a)) != path_parts(session_root(base, b)),
{
    lemma_token_is_plain(a);
    lemma_token_is_plain(b);
    law_plain_name_reads_back(a);
    law_plain_name_reads_back(b);
    law_join_adds_components(base, a);
    law_join_adds_components(base, b);
    let pa = path_parts(session_root(base, a));
    let pb = path_parts(session_root(base, b));
    assert(pa =~= path_parts(base).push(Part::Normal(a)));
    assert(pb =~= path_parts(base).push(Part::Normal(b)));
    assert(pa[path_parts(base).len() as int] == Part::Normal(a));
    assert(pb[path_parts(base).len() as int] == Part::Normal(b));
}

/// An accepted upload never leaves the directory of its session: its place is that directory
/// followed by the names in the path that the browser sent.
pub proof fn law_upload_stays_in_session(base: Seq<char>, token: Seq<char>, rel: Seq<char>)
    requires
        is_upload_token(token),
        clean_relative(rel) is Some,
    ensures
        path_parts(destination(base, token, clean_relative(rel)->0)) == path_parts(base).push(
            Part::Normal(token),
        ) + path_parts(rel),
        is_within(destination(base, token, clean_relative(rel)->0), session_root(base, token)),
{
    law_sessions_are_separate(base, token, token);
    law_clean_path_stays_within(session_root(base, token), rel);
}

/// Two files of one session take the same place only where their clean paths are the same.
pub proof fn law_files_do_not_collide(
    base: Seq<char>,
    token: Seq<char>,
    a: Seq<char>,
    b: Seq<char>,
)
    requires
        is_upload_token(token),
        clean_relative(a) is Some,
        clean_relative(b) is Some,
        path_parts(destination(base, token, clean_relative(a)->0)) == path_parts(
            destination(base, token, clean_relative(b)->0),
        ),
    ensures
        clean_relative(a) == clean_relative(b),
{
    law_upload_stays_in_session(base, token, a);
    law_upload_stays_in_session(base, token, b);
    let root = path_parts(base).push(Part::Normal(token));
    let pa = path_parts(a);
    let pb = path_parts(b);
    assert((root + pa).skip(root.len() as int) =~= pa);
    assert((root + pb).skip(root.len() as int) =~= pb);
}

proof fn lemma_destination_has_parent(base: Seq<char>, token: Seq<char>, rel: Seq<char>)
    requires
        is_upload_token(token),
        clean_relative(rel) is Some,
    ensures
        0 < last_index(destination(base, token, clean_relative(rel)->0), '/'),
{
    let root = session_root(base, token);
    let clean = clean_relative(rel)->0;
    law_clean_path_keeps_components(rel);
    lemma_token_is_plain(token);
    assert(token.contains(token[0]));
    assert(root.len() > 0 && root.last() == token.last()) by {
        assert(token.last() == token[token.len() - 1]);
    }
    assert(token.contains(token.last()));
    let dest = destination(base, token, clean);
    assert(dest == root.push('/') + clean);
    assert(dest[root.len() as int] == '/');
    lemma_slash_before_last(dest, root.len() as int);
}

/// The directory of an uploaded file is its place without the last name.
pub proof fn law_parent_holds_the_file(base: Seq<char>, token: Seq<char>, rel: Seq<char>)
    requires
        is_upload_token(token),
        clean_relative(rel) is Some,
    ensures
        path_parts(parent_of(destination(base, token, clean_relative(rel)->0))) == path_parts(
            destination(base, token, clean_relative(rel)->0),
        ).drop_last(),
{
    let dest = destination(base, token, clean_relative(rel)->0);
    let root = session_root(base, token);
    lemma_destination_has_parent(base, token, rel);
    law_clean_path_keeps_components(rel);
    law_clean_path_last_name(root, rel);
    law_path_without_last(dest);
}

/// The name of an uploaded file survives its way through the header: however each of its bytes was
/// written, as long as the header shows visible ASCII, the file is accepted exactly where its
/// relative path can be cleaned, and under that clean path.
pub proof fn law_name_survives_the_header(rel: Seq<char>, pieces: Seq<Seq<u8>>)
    requires
        writes_text(pieces, rel),
        forall|i: int|
            0 <= i < pieces.flatten().len() ==> is_visible(#[trigger] pieces.flatten()[i]),
    ensures
        accepted_name(Some(pieces.flatten())) == clean_relative(rel),
{
    let sent = pieces.flatten();
    let text = sent.map_values(|b: u8| b as char);
    assert(header_text(sent) == Some(text));
    assert forall|i: int| 0 <= i < text.len() implies '\0' <= #[trigger] text[i] <= '\u{7f}' by {
        assert(is_visible(sent[i]));
    }
    is_ascii_chars_encode_utf8(text);
    assert(encode_utf8(text) =~= sent) by {
        assert forall|i: int| 0 <= i < sent.len() implies encode_utf8(text)[i] == sent[i] by {
            assert(text[i] == sent[i] as char);
        }
    }
    law_percent_round_trip(rel, pieces, text);
}

/// A token is made of 1 to 64 ASCII letters, digits and dashes, and every such text is a token.
pub proof fn law_tokens(token: &str, res: bool)
    requires
        call_ensures(valid_upload_token, (token,), res),
    ensures
        res == is_upload_token(token@),
        res <==> 1 <= token@.len() <= 64 && forall|i: int|
            0 <= i < token@.len() ==> {
                let code = (#[trigger] token@[i]) as int;
                ||| 48 <= code <= 57
                ||| 65 <= code <= 90
                ||| 97 <= code <= 122
                ||| code == 45
            },
{
    let s = token@;
    if res {
        assert forall|i: int| 0 <= i < s.len() implies {
            let code = (#[trigger] s[i]) as int;
            ||| 48 <= code <= 57
            ||| 65 <= code <= 90
            ||| 97 <= code <= 122
            ||| code == 45
        } by {
            assert(is_alphanumeric(s[i]) || s[i] == '-');
        }
    } else if 1 <= s.len() <= 64 {
        let i = choose|i: int|
            0 <= i < s.len() && !(is_alphanumeric(#[trigger] s[i]) || s[i] == '-');
        assert(!(is_alphanumeric(s[i]) || s[i] == '-'));
    }
}

/// Uploads go to the configured directory as it is; else to a directory of a fixed name below the
/// home directory, or below the one for temporary files where there is no home.
pub proof fn law_base_directory(
    dir: Option<String>,
    home: Option<String>,
    temp: &str,
    res: String,
)
    requires
        call_ensures(upload_base, (dir, home, temp), res),
    ensures
        dir matches Some(path) ==> res@ == path@,
        dir is None ==> {
            let above = match home {
                Some(path) => path@,
                None => temp@,
            };
            res@ == (if above.len() == 0 || above.last() == '/' {
                above + ".llm-wiki-web-uploads"@
            } else {
                above + seq!['/'] + ".llm-wiki-web-uploads"@
            })
        },
{
    reveal_strlit(".llm-wiki-web-uploads");
    if dir is None {
        let above = match home {
            Some(path) => path@,
            None => temp@,
        };
        assert(above.push('/') =~= above + seq!['/']);
    }
}

/// A staging directory is removed exactly where it is known to be older than 24 hours.
pub proof fn law_stale_directories(age: Option<(u64, u32)>, res: bool)
    requires
        call_ensures(is_stale, (age,), res),
    ensures
        age is None ==> !res,
        age matches Some((secs, nanos)) ==> nanos < 1_000_000_000 ==> (res <==> secs > 86400 || (secs
            == 86400 && nanos > 0)),
{
}

/// The session that a header value names: its text, where that is a token.
pub open spec fn session_of(value: Option<Seq<u8>>) -> Option<Seq<char>> {
    match value {
        Some(bytes) => match header_text(bytes) {
            Some(text) => if is_upload_token(text) {
                Some(text)
            } else {
                None
            },
            None => None,
        },
        None => None,
    }
}

/// The relative path that a header value stands for: its text, percent-decoded, then cleaned.
pub open spec fn file_of(value: Option<Seq<u8>>) -> Option<Seq<char>> {
    match value {
        Some(bytes) => match header_text(bytes) {
            Some(text) => match percent_decoded(text) {
                Some(rel) => clean_relative(rel),
                None => None,
            },
            None => None,
        },
        None => None,
    }
}

/// Whether `plan` puts the file `rel` of the session `token` in its place below `base`: the session
/// has the directory of its token below the base, the file has its relative path below that, and its
/// directory is what comes before its last name.
pub open spec fn is_place(
    plan: UploadPlan,
    base: Seq<char>,
    token: Seq<char>,
    rel: Seq<char>,
) -> bool {
    &&& plan.root@ == joined_path(base, token)
    &&& plan.dest@ == joined_path(joined_path(base, token), rel)
    &&& exists|name: Seq<char>|
        !name.contains('/') && plan.dest@ == #[trigger] (plan.parent@ + seq!['/'] + name)
}

proof fn lemma_place(token: Seq<u8>, name: Seq<u8>, base: Seq<char>, plan: UploadPlan)
    requires
        is_upload_plan(Ok(plan), Some(token), Some(name), base),
    ensures
        session_of(Some(token)) is Some,
        file_of(Some(name)) is Some,
        is_place(plan, base, session_of(Some(token))->0, file_of(Some(name))->0),
{
    let t = session_of(Some(token))->0;
    let sent = percent_decoded(header_text(name)->0)->0;
    lemma_destination_has_parent(base, t, sent);
    let dest = plan.dest@;
    let k = last_index(dest, '/');
    law_last_place(dest, '/');
    let last = dest.skip(k + 1);
    if last.contains('/') {
        let j = choose|j: int| 0 <= j < last.len() && last[j] == '/';
        assert(dest[k + 1 + j] == '/');
    }
    assert(dest =~= plan.parent@ + seq!['/'] + last);
}

/// An upload is accepted exactly where its token names a session and its name can be decoded and
/// cleaned, and then it has its place in that session. Else it is refused for the token, or for the
/// name.
pub proof fn law_planned_uploads(
    token: Option<Vec<u8>>,
    name: Option<Vec<u8>>,
    base: &str,
    res: Result<UploadPlan, Reply>,
)
    requires
        call_ensures(plan_upload, (token, name, base), res),
    ensures
        match (session_of(bytes_of(token)), file_of(bytes_of(name))) {
            (None, _) => res matches Err(reply) && reply.is_error(
                400,
                "Missing or invalid x-llmwiki-upload-dir"@,
            ),
            (Some(_), None) => res matches Err(reply) && reply.is_error(
                400,
                "Missing or invalid x-llmwiki-upload-name"@,
            ),
            (Some(t), Some(rel)) => res matches Ok(plan) && is_place(plan, base@, t, rel),
        },
{
    if let Ok(plan) = res {
        lemma_place(bytes_of(token)->0, bytes_of(name)->0, base@, plan);
    }
}

/// The token of an upload is in its header `x-llmwiki-upload-dir` and the name of the file in
/// `x-llmwiki-upload-name`; by these alone it is accepted or refused.
pub proof fn law_begun_uploads(headers: &HeaderMap, base: &str, res: Result<UploadPlan, Reply>)
    requires
        call_ensures(begin_upload, (headers, base), res),
    ensures
        match (
            session_of(first_of(entries(*headers), "x-llmwiki-upload-dir"@)),
            file_of(first_of(entries(*headers), "x-llmwiki-upload-name"@)),
        ) {
            (None, _) => res matches Err(reply) && reply.is_error(
                400,
                "Missing or invalid x-llmwiki-upload-dir"@,
            ),
            (Some(_), None) => res matches Err(reply) && reply.is_error(
                400,
                "Missing or invalid x-llmwiki-upload-name"@,
            ),
            (Some(t), Some(rel)) => res matches Ok(plan) && is_place(plan, base@, t, rel),
        },
{
    if let Ok(plan) = res {
        lemma_place(
            first_of(entries(*headers), TOKEN_HEADER@)->0,
            first_of(entries(*headers), NAME_HEADER@)->0,
            base@,
            plan,
        );
    }
}

/// A finished upload is answered with two members: under `root` the directory of the session, which
/// is the base joined with the token, whatever path was sent; and under `path` that directory joined
/// with the clean relative path.
pub proof fn law_upload_reply(
    headers: &HeaderMap,
    base: &str,
    plan: UploadPlan,
    run: Seq<Round>,
    file: Option<Seq<u8>>,
)
    requires
        call_ensures(begin_upload, (headers, base), Ok::<UploadPlan, Reply>(plan)),
        is_run(run, plan, file),
        reply_of(run) is Some,
        reply_of(run)->0.status == 200,
    ensures
        ({
            let token = session_of(first_of(entries(*headers), "x-llmwiki-upload-dir"@))->0;
            let rel = file_of(first_of(entries(*headers), "x-llmwiki-upload-name"@))->0;
            let root = joined_path(base@, token);
            reply_of(run)->0.json() == Some(
                Json::Object(
                    map!["path"@ => Json::Text(joined_path(root, rel)), "root"@ => Json::Text(root)],
                ),
            )
        }),
{
    law_begun_uploads(headers, base, Ok(plan));
    law_upload_holds_what_arrived(run, plan, file);
}

/// Any two finished uploads of one session are answered with the same root.
pub proof fn law_one_root_per_session(
    one_headers: &HeaderMap,
    other_headers: &HeaderMap,
    base: &str,
    one_plan: UploadPlan,
    other_plan: UploadPlan,
    one: Seq<Round>,
    other: Seq<Round>,
    one_file: Option<Seq<u8>>,
    other_file: Option<Seq<u8>>,
)
    requires
        first_of(entries(*one_headers), "x-llmwiki-upload-dir"@) == first_of(
            entries(*other_headers),
            "x-llmwiki-upload-dir"@,
        ),
        call_ensures(begin_upload, (one_headers, base), Ok::<UploadPlan, Reply>(one_plan)),
        call_ensures(begin_upload, (other_headers, base), Ok::<UploadPlan, Reply>(other_plan)),
        is_run(one, one_plan, one_file),
        is_run(other, other_plan, other_file),
        reply_of(one) is Some,
        reply_of(one)->0.status == 200,
        reply_of(other) is Some,
        reply_of(other)->0.status == 200,
    ensures
        reply_of(one)->0.json()->0 is Object,
        reply_of(other)->0.json()->0 is Object,
        reply_of(one)->0.json()->0->Object_0["root"@] == reply_of(
            other,
        )->0.json()->0->Object_0["root"@],
{
    law_upload_reply(one_headers, base, one_plan, one, one_file);
    law_upload_reply(other_headers, base, other_plan, other, other_file);
    reveal_strlit("path");
    reveal_strlit("root");
    assert("path"@[0] != "root"@[0]);
}

/// An upload begins with nothing taken in.
pub proof fn law_new_upload(plan: UploadPlan, res: Upload)
    requires
        call_ensures(Upload::new, (plan,), res),
    ensures
        res.plan == plan,
        res.written == 0,
{
}

/// What an upload asks for after each event. The directory, the file and the chunks follow each other
/// up to the flush, and a flush ends it with success. A chunk that goes beyond 2 GiB, a broken stream
/// and a failed write end it and remove the file; any other failure ends it and leaves the file. Each
/// failure is reported with its own status and its reason.
pub proof fn law_steps(upload: &mut Upload, event: UploadEvent, res: UploadAction)
    requires
        call_ensures(Upload::step, (upload, event), res),
    ensures
        final(upload).plan == old(upload).plan,
        final(upload).written == (match event {
            UploadEvent::Chunk(len) => if old(upload).written + len <= 2147483648 {
                old(upload).written + len
            } else {
                old(upload).written as int
            },
            _ => old(upload).written as int,
        }),
        match event {
            UploadEvent::DirReady => res is CreateFile,
            UploadEvent::FileReady | UploadEvent::Written => res is ReadChunk,
            UploadEvent::Chunk(len) => if old(upload).written + len <= 2147483648 {
                res is WriteChunk
            } else {
                res matches UploadAction::Discard(reply) && reply.is_error(
                    413,
                    "File exceeds upload size limit"@,
                )
            },
            UploadEvent::Ended => res is Flush,
            UploadEvent::Flushed => res matches UploadAction::Respond(reply) && reply.status == 200
                && reply.json() == Some(
                Json::Object(
                    map!["path"@ => Json::Text(old(upload).plan.dest@),
                        "root"@ => Json::Text(old(upload).plan.root@)],
                ),
            ),
            UploadEvent::StreamFailed(message) => res matches UploadAction::Discard(reply)
                && reply.is_error(400, "Upload stream error: "@ + message@),
            UploadEvent::WriteFailed(message) => res matches UploadAction::Discard(reply)
                && reply.is_error(500, "Upload failed: "@ + message@),
            UploadEvent::DirFailed(message) => res matches UploadAction::Respond(reply)
                && reply.is_error(500, "Cannot create staging dir: "@ + message@),
            UploadEvent::FileFailed(message) => res matches UploadAction::Respond(reply)
                && reply.is_error(500, "Cannot create file: "@ + message@),
            UploadEvent::FlushFailed(message) => res matches UploadAction::Respond(reply)
                && reply.is_error(500, "Upload flush failed: "@ + message@),
        },
{
}

} // verus!
