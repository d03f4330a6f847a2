//! Assets and static files: media types, and which file answers a request.

use vstd::prelude::*;
use vstd::string::*;

use crate::path::{components, is_within, path_parts, path_within, views, Component, Part};
use crate::reply::{error_response, Body, Reply, NOT_FOUND, OK};
use crate::text::{
    find_last, from_chars, join2, last_index, law_last_place, lower, text_eq, to_chars, to_lower,
};

verus! {

/// The file that stands for a directory, and for every route that is no file.
pub const INDEX_FILE: &'static str = "index.html";

/// The last component of a path, where it is an ordinary name.
pub open spec fn file_name(path: Seq<char>) -> Option<Seq<char>> {
    let parts = path_parts(path);
    if parts.len() > 0 && parts.last() is Normal {
        Some(parts.last()->Normal_0)
    } else {
        None
    }
}

/// What follows the last dot of the file name; nothing where there is no dot, or only one at the
/// very beginning.
pub open spec fn extension(path: Seq<char>) -> Option<Seq<char>> {
    match file_name(path) {
        Some(name) => {
            let dot = last_index(name, '.');
            if dot > 0 {
                Some(name.skip(dot + 1))
            } else {
                None
            }
        },
        None => None,
    }
}

/// The media type for a file name extension in lower case.
pub open spec fn media_type(ext: Seq<char>) -> Seq<char> {
    if ext == "html"@ {
        "text/html; charset=utf-8"@
    } else if ext == "js"@ {
        "text/javascript"@
    } else if ext == "css"@ {
        "text/css"@
    } else if ext == "json"@ {
        "application/json"@
    } else if ext == "svg"@ {
        "image/svg+xml"@
    } else if ext == "png"@ {
        "image/png"@
    } else if ext == "jpg"@ || ext == "jpeg"@ {
        "image/jpeg"@
    } else if ext == "gif"@ {
        "image/gif"@
    } else if ext == "webp"@ {
        "image/webp"@
    } else if ext == "ico"@ {
        "image/x-icon"@
    } else if ext == "pdf"@ {
        "application/pdf"@
    } else if ext == "woff2"@ {
        "font/woff2"@
    } else if ext == "md"@ || ext == "txt"@ {
        "text/plain; charset=utf-8"@
    } else {
        "application/octet-stream"@
    }
}

/// The media type of the file at `path`, by its extension in any case.
pub open spec fn content_type(path: Seq<char>) -> Seq<char> {
    match extension(path) {
        Some(ext) => media_type(lower(ext)),
        None => media_type(""@),
    }
}

/// The extension of the file name in `path`.
pub fn path_extension(path: &str) -> (res: Option<String>)
    ensures
        match res {
            Some(ext) => extension(path@) == Some(ext@),
            None => extension(path@) is None,
        },
{
    let comps = components(path);
    if comps.len() == 0 {
        assert(views(comps@).len() == 0);
        return None;
    }
    assert(path_parts(path@).last() == comps@[comps@.len() - 1]@);
    match &comps[comps.len() - 1] {
        Component::Normal(name) => {
            let chars = to_chars(name.as_str());
            match find_last(&chars, '.') {
                Some(dot) => if dot > 0 {
                    assert(chars@.subrange(dot + 1, chars@.len() as int) =~= chars@.skip(dot + 1));
                    Some(from_chars(&chars, dot + 1, chars.len()))
                } else {
                    None
                },
                None => None,
            }
        },
        _ => None,
    }
}

fn media_type_for(ext: &str) -> (res: &'static str)
    ensures
        res@ == media_type(ext@),
{
    if text_eq(ext, "html") {
        "text/html; charset=utf-8"
    } else if text_eq(ext, "js") {
        "text/javascript"
    } else if text_eq(ext, "css") {
        "text/css"
    } else if text_eq(ext, "json") {
        "application/json"
    } else if text_eq(ext, "svg") {
        "image/svg+xml"
    } else if text_eq(ext, "png") {
        "image/png"
    } else if text_eq(ext, "jpg") || text_eq(ext, "jpeg") {
        "image/jpeg"
    } else if text_eq(ext, "gif") {
        "image/gif"
    } else if text_eq(ext, "webp") {
        "image/webp"
    } else if text_eq(ext, "ico") {
        "image/x-icon"
    } else if text_eq(ext, "pdf") {
        "application/pdf"
    } else if text_eq(ext, "woff2") {
        "font/woff2"
    } else if text_eq(ext, "md") || text_eq(ext, "txt") {
        "text/plain; charset=utf-8"
    } else {
        "application/octet-stream"
    }
}

/// The media type under which the file at `path` is served.
pub fn content_type_for(path: &str) -> (res: &'static str)
    ensures
        res@ == content_type(path@),
{
    match path_extension(path) {
        Some(ext) => {
            let low = to_lower(ext.as_str());
            media_type_for(low.as_str())
        },
        None => media_type_for(""),
    }
}

/// The reply that serves a file, from what came of reading it.
pub fn serve_file(path: &str, read: Result<Vec<u8>, String>) -> (res: Reply)
    ensures
        match read {
            Ok(bytes) => res.status == OK && (res.body matches Body::File {
                content_type: media,
                bytes: sent,
            } && media@ == content_type(path@) && sent == bytes),
            Err(message) => res.is_error(NOT_FOUND, "Cannot read file: "@ + message@),
        },
{
    match read {
        Ok(bytes) => Reply {
            status: OK,
            body: Body::File { content_type: content_type_for(path), bytes },
        },
        Err(message) => {
            let text = join2("Cannot read file: ", message.as_str());
            error_response(NOT_FOUND, text.as_str())
        },
    }
}

/// `s` without the slashes that it begins with.
pub open spec fn without_leading_slashes(s: Seq<char>) -> Seq<char>
    decreases s.len(),
{
    if s.len() > 0 && s[0] == '/' {
        without_leading_slashes(s.drop_first())
    } else {
        s
    }
}

/// The path below the static directory that a request asks for.
pub open spec fn requested_file(uri_path: Seq<char>) -> Seq<char> {
    let rel = without_leading_slashes(uri_path);
    if rel.len() == 0 {
        INDEX_FILE@
    } else {
        rel
    }
}

/// The path below the static directory that the path of a request asks for.
pub fn static_candidate(uri_path: &str) -> (res: String)
    ensures
        res@ == requested_file(uri_path@),
{
    let chars = to_chars(uri_path);
    let mut i: usize = 0;
    assert(chars@.skip(0) =~= chars@);
    while i < chars.len() && chars[i] == '/'
        invariant
            i <= chars@.len(),
            chars@ == uri_path@,
            without_leading_slashes(uri_path@) == without_leading_slashes(chars@.skip(i as int)),
        decreases chars@.len() - i,
    {
        assert(chars@.skip(i as int).drop_first() =~= chars@.skip(i + 1));
        i = i + 1;
    }
    if i == chars.len() {
        assert(chars@.skip(i as int).len() == 0);
        INDEX_FILE.to_owned()
    } else {
        assert(chars@.skip(i as int)[0] == chars@[i as int]);
        assert(chars@.subrange(i as int, chars@.len() as int) =~= chars@.skip(i as int));
        from_chars(&chars, i, chars.len())
    }
}

/// Which file answers a request for a static file.
#[derive(Debug, Clone, Copy, PartialEq, Eq, Structural)]
pub enum StaticChoice {
    /// The file that was asked for.
    Candidate,
    /// The index file of the static directory.
    Index,
}

/// Decides which file answers a request. `resolved` is the canonical path of what was asked for,
/// where it exists, and `dist` that of the static directory. Only a file that lies in the
/// static directory is handed out; any other route gets the index file.
pub fn static_choice(resolved: Option<&str>, is_file: bool, dist: Option<&str>) -> (res: StaticChoice)
    ensures
        res == StaticChoice::Candidate <==> is_file && (resolved matches Some(path)
            && (dist matches Some(
            root,
        ) && is_within(path@, root@))),
{
    match (resolved, dist) {
        (Some(path), Some(root)) => if is_file && path_within(path, root) {
            StaticChoice::Candidate
        } else {
            StaticChoice::Index
        },
        _ => StaticChoice::Index,
    }
}

/// The reply where no static directory is configured.
pub fn static_disabled() -> (res: Reply)
    ensures
        res.is_error(
            NOT_FOUND,
            "Static serving disabled (set LLM_WIKI_WEB_DIST to the dist-web directory)"@,
        ),
{
    error_response(
        NOT_FOUND,
        "Static serving disabled (set LLM_WIKI_WEB_DIST to the dist-web directory)",
    )
}

/// What a request asks for is never empty and never an absolute path, so joining it to the static
/// directory cannot replace that directory.
pub proof fn law_requested_file_is_relative(uri_path: Seq<char>)
    ensures
        requested_file(uri_path).len() > 0,
        requested_file(uri_path)[0] != '/',
    decreases uri_path.len(),
{
    reveal_strlit("index.html");
    if uri_path.len() > 0 && uri_path[0] == '/' {
        law_requested_file_is_relative(uri_path.drop_first());
    }
}

/// The media type depends on the extension alone, or on there being none, and not on the case of its
/// letters.
pub proof fn law_media_type_ignores_case(a: Seq<char>, b: Seq<char>)
    requires
        match (extension(a), extension(b)) {
            (Some(x), Some(y)) => lower(x) == lower(y),
            (None, None) => true,
            _ => false,
        },
    ensures
        content_type(a) == content_type(b),
{
}

/// What is asked for is what follows the leading slashes, letter for letter, or the index file where
/// nothing does.
pub proof fn law_requested_letter_for_letter(uri_path: &str, res: String)
    requires
        call_ensures(static_candidate, (uri_path,), res),
    ensures
        res@ == requested_file(uri_path@),
        INDEX_FILE@ == "index.html"@,
        exists|n: int|
            {
                &&& 0 <= n <= uri_path@.len()
                &&& forall|i: int| 0 <= i < n ==> #[trigger] uri_path@[i] == '/'
                &&& n == uri_path@.len() ==> res@ == "index.html"@
                &&& n < uri_path@.len() ==> uri_path@[n] != '/' && res@ == #[trigger] uri_path@.skip(
                    n,
                )
            },
{
    let n = lemma_leading_slashes(uri_path@);
    assert(res@ == requested_file(uri_path@));
    assert(uri_path@.skip(n) == without_leading_slashes(uri_path@));
}

proof fn lemma_leading_slashes(s: Seq<char>) -> (n: int)
    ensures
        0 <= n <= s.len(),
        forall|i: int| 0 <= i < n ==> #[trigger] s[i] == '/',
        n < s.len() ==> s[n] != '/',
        without_leading_slashes(s) == s.skip(n),
    decreases s.len(),
{
    if s.len() > 0 && s[0] == '/' {
        let m = lemma_leading_slashes(s.drop_first());
        assert forall|i: int| 0 <= i < m + 1 implies #[trigger] s[i] == '/' by {
            if i > 0 {
                assert(s.drop_first()[i - 1] == s[i]);
            }
        }
        assert(s.skip(m + 1) =~= s.drop_first().skip(m));
        m + 1
    } else {
        assert(s.skip(0) =~= s);
        0
    }
}

/// A path behind any number of slashes asks for exactly that path.
pub proof fn law_leading_slashes_are_dropped(uri_path: &str, n: nat, rel: Seq<char>, res: String)
    requires
        call_ensures(static_candidate, (uri_path,), res),
        uri_path@ == Seq::new(n, |i: int| '/') + rel,
        rel.len() > 0,
        rel[0] != '/',
    ensures
        res@ == rel,
{
    let m = lemma_leading_slashes(uri_path@);
    assert(uri_path@[n as int] == rel[0]);
    if m < n {
        assert(uri_path@[m] == '/');
    }
    assert(m == n);
    assert(uri_path@.skip(m) =~= rel);
}

/// The extension of a file is what follows the last dot of its name, unless nothing comes before that
/// dot. A path without a file name, and a file without such a dot, have none.
pub proof fn law_extensions(path: &str, res: Option<String>)
    requires
        call_ensures(path_extension, (path,), res),
    ensures
        res is Some <==> extension(path@) is Some,
        res matches Some(ext) ==> extension(path@) == Some(ext@),
        res matches Some(ext) ==> {
            &&& !ext@.contains('.')
            &&& exists|stem: Seq<char>|
                {
                    &&& stem.len() > 0
                    &&& path_parts(path@).len() > 0
                    &&& path_parts(path@).last() == Part::Normal(
                        #[trigger] (stem + seq!['.'] + ext@),
                    )
                }
        },
        res is None ==> forall|stem: Seq<char>, ext: Seq<char>|
            stem.len() > 0 && path_parts(path@).len() > 0 ==> path_parts(path@).last()
                != Part::Normal(#[trigger] (stem + seq!['.'] + ext)),
{
    let parts = path_parts(path@);
    if parts.len() > 0 && parts.last() is Normal {
        let name = parts.last()->Normal_0;
        let dot = last_index(name, '.');
        law_last_place(name, '.');
        if let Some(ext) = res {
            let stem = name.take(dot);
            assert(name =~= stem + seq!['.'] + ext@);
            assert(parts.last() == Part::Normal(stem + seq!['.'] + ext@));
            if ext@.contains('.') {
                let j = choose|j: int| 0 <= j < ext@.len() && ext@[j] == '.';
                assert(name[dot + 1 + j] == '.');
            }
        } else {
            assert forall|stem: Seq<char>, ext: Seq<char>| stem.len() > 0 implies parts.last()
                != Part::Normal(#[trigger] (stem + seq!['.'] + ext)) by {
                let whole = stem + seq!['.'] + ext;
                if whole == name {
                    assert(whole[stem.len() as int] == '.');
                }
            }
        }
    }
}

/// The media type of each kind of file, by its extension in any case; every other file, and one
/// without an extension, is plain bytes.
pub proof fn law_media_types(path: &str, ext: Option<String>, res: &'static str)
    requires
        call_ensures(path_extension, (path,), ext),
        call_ensures(content_type_for, (path,), res),
    ensures
        res@ == content_type(path@),
        ext matches Some(e) ==> lower(e@) == "html"@ ==> res@ == "text/html; charset=utf-8"@,
        ext matches Some(e) ==> lower(e@) == "js"@ ==> res@ == "text/javascript"@,
        ext matches Some(e) ==> lower(e@) == "css"@ ==> res@ == "text/css"@,
        ext matches Some(e) ==> lower(e@) == "json"@ ==> res@ == "application/json"@,
        ext matches Some(e) ==> lower(e@) == "svg"@ ==> res@ == "image/svg+xml"@,
        ext matches Some(e) ==> lower(e@) == "png"@ ==> res@ == "image/png"@,
        ext matches Some(e) ==> lower(e@) == "jpg"@ ==> res@ == "image/jpeg"@,
        ext matches Some(e) ==> lower(e@) == "jpeg"@ ==> res@ == "image/jpeg"@,
        ext matches Some(e) ==> lower(e@) == "gif"@ ==> res@ == "image/gif"@,
        ext matches Some(e) ==> lower(e@) == "webp"@ ==> res@ == "image/webp"@,
        ext matches Some(e) ==> lower(e@) == "ico"@ ==> res@ == "image/x-icon"@,
        ext matches Some(e) ==> lower(e@) == "pdf"@ ==> res@ == "application/pdf"@,
        ext matches Some(e) ==> lower(e@) == "woff2"@ ==> res@ == "font/woff2"@,
        ext matches Some(e) ==> lower(e@) == "md"@ ==> res@ == "text/plain; charset=utf-8"@,
        ext matches Some(e) ==> lower(e@) == "txt"@ ==> res@ == "text/plain; charset=utf-8"@,
        ext is None ==> res@ == "application/octet-stream"@,
        ext matches Some(e) ==> lower(e@) != "html"@ && lower(e@) != "js"@ && lower(e@) != "css"@
            && lower(e@) != "json"@ && lower(e@) != "svg"@ && lower(e@) != "png"@
            && lower(e@) != "jpg"@ && lower(e@) != "jpeg"@ && lower(e@) != "gif"@
            && lower(e@) != "webp"@ && lower(e@) != "ico"@ && lower(e@) != "pdf"@
            && lower(e@) != "woff2"@ && lower(e@) != "md"@ && lower(e@) != "txt"@
            ==> res@ == "application/octet-stream"@,
{
    reveal_strlit("html");
    reveal_strlit("js");
    reveal_strlit("css");
    reveal_strlit("json");
    reveal_strlit("svg");
    reveal_strlit("png");
    reveal_strlit("jpg");
    reveal_strlit("jpeg");
    reveal_strlit("gif");
    reveal_strlit("webp");
    reveal_strlit("ico");
    reveal_strlit("pdf");
    reveal_strlit("woff2");
    reveal_strlit("md");
    reveal_strlit("txt");
    reveal_strlit("");
    assert("html"@.len() == 4 && "html"@[0] == 'h' && "html"@[1] == 't' && "html"@.last() == 'l');
    assert("js"@.len() == 2 && "js"@[0] == 'j' && "js"@[1] == 's' && "js"@.last() == 's');
    assert("css"@.len() == 3 && "css"@[0] == 'c' && "css"@[1] == 's' && "css"@.last() == 's');
    assert("json"@.len() == 4 && "json"@[0] == 'j' && "json"@[1] == 's' && "json"@.last() == 'n');
    assert("svg"@.len() == 3 && "svg"@[0] == 's' && "svg"@[1] == 'v' && "svg"@.last() == 'g');
    assert("png"@.len() == 3 && "png"@[0] == 'p' && "png"@[1] == 'n' && "png"@.last() == 'g');
    assert("jpg"@.len() == 3 && "jpg"@[0] == 'j' && "jpg"@[1] == 'p' && "jpg"@.last() == 'g');
    assert("jpeg"@.len() == 4 && "jpeg"@[0] == 'j' && "jpeg"@[1] == 'p' && "jpeg"@.last() == 'g');
    assert("gif"@.len() == 3 && "gif"@[0] == 'g' && "gif"@[1] == 'i' && "gif"@.last() == 'f');
    assert("webp"@.len() == 4 && "webp"@[0] == 'w' && "webp"@[1] == 'e' && "webp"@.last() == 'p');
    assert("ico"@.len() == 3 && "ico"@[0] == 'i' && "ico"@[1] == 'c' && "ico"@.last() == 'o');
    assert("pdf"@.len() == 3 && "pdf"@[0] == 'p' && "pdf"@[1] == 'd' && "pdf"@.last() == 'f');
    assert("woff2"@.len() == 5 && "woff2"@[0] == 'w' && "woff2"@[1] == 'o' && "woff2"@.last() == '2');
    assert("md"@.len() == 2 && "md"@[0] == 'm' && "md"@[1] == 'd' && "md"@.last() == 'd');
    assert("txt"@.len() == 3 && "txt"@[0] == 't' && "txt"@[1] == 'x' && "txt"@.last() == 't');
}

/// A file is handed out with all its bytes and its media type; one that cannot be read is answered
/// with status 404 and the reason.
pub proof fn law_files(path: &str, media: &'static str, read: Result<Vec<u8>, String>, res: Reply)
    requires
        call_ensures(serve_file, (path, read), res),
        call_ensures(content_type_for, (path,), media),
    ensures
        match read {
            Ok(bytes) => res.status == 200 && (res.body matches Body::File {
                content_type: sent_type,
                bytes: sent,
            } && sent_type@ == media@ && sent@ == bytes@),
            Err(message) => res.is_error(404, "Cannot read file: "@ + message@),
        },
{
}

/// What was asked for is handed out exactly where it exists, is a file and lies in the static
/// directory, name by name; in every other case the index file is.
pub proof fn law_choice(
    resolved: Option<&str>,
    is_file: bool,
    dist: Option<&str>,
    res: StaticChoice,
)
    requires
        call_ensures(static_choice, (resolved, is_file, dist), res),
    ensures
        res is Candidate <==> {
            &&& is_file
            &&& resolved is Some
            &&& dist is Some
            &&& path_parts(dist->0@).len() <= path_parts(resolved->0@).len()
            &&& forall|i: int|
                0 <= i < path_parts(dist->0@).len() ==> #[trigger] path_parts(dist->0@)[i]
                    == path_parts(resolved->0@)[i]
        },
        res is Index <==> !(res is Candidate),
{
    if resolved is Some && dist is Some {
        let p = path_parts(resolved->0@);
        let r = path_parts(dist->0@);
        if r.len() <= p.len() && (forall|i: int| 0 <= i < r.len() ==> #[trigger] r[i] == p[i]) {
            assert(r =~= p.subrange(0, r.len() as int));
        }
        if is_within(resolved->0@, dist->0@) {
            assert forall|i: int| 0 <= i < r.len() implies #[trigger] r[i] == p[i] by {
                assert(p.subrange(0, r.len() as int)[i] == p[i]);
            }
        }
    }
}

/// Without a static directory every route is answered with status 404 and how to configure one.
pub proof fn law_disabled(res: Reply)
    requires
        call_ensures(static_disabled, (), res),
    ensures
        res.is_error(
            404,
            "Static serving disabled (set LLM_WIKI_WEB_DIST to the dist-web directory)"@,
        ),
{
}

} // verus!
