//! The settings store: which stores may be named, and what a read or a write of one comes to.

use serde_json::Value;
use vstd::prelude::*;
use vstd::string::*;

use crate::json::{contents, insert_member, members, new_members, object_value, Json};
use crate::path::{
    joined_path, law_join_adds_components, law_plain_name_reads_back, path_parts, Part,
};
use crate::reply::{
    error_response, json_response, ok_response, Reply, BAD_REQUEST, INTERNAL_SERVER_ERROR,
};
use crate::text::{alphanumeric, is_alphanumeric, join2};

verus! {

pub open spec fn is_store_char(c: char) -> bool {
    is_alphanumeric(c) || c == '-' || c == '_' || c == '.'
}

/// The names under which a store may be opened: ASCII letters, digits, `-`, `_` and `.`, with no
/// two dots in a row.
pub open spec fn is_store_name(name: Seq<char>) -> bool {
    &&& name.len() > 0
    &&& forall|i: int| 0 <= i < name.len() ==> is_store_char(#[trigger] name[i])
    &&& forall|i: int| 0 < i < name.len() ==> !(name[i - 1] == '.' && #[trigger] name[i] == '.')
}

/// Whether a store may be opened under this name.
pub fn valid_store_name(name: &str) -> (res: bool)
    ensures
        res == is_store_name(name@),
{
    if name.is_empty() {
        return false;
    }
    let mut after_dot = false;
    for c in it: name.chars()
        invariant
            it.seq() == name@,
            after_dot == (it.index() > 0 && name@[it.index() - 1] == '.'),
            forall|i: int| 0 <= i < it.index() ==> is_store_char(#[trigger] name@[i]),
            forall|i: int|
                0 < i < it.index() ==> !(name@[i - 1] == '.' && #[trigger] name@[i] == '.'),
    {
        assert(name@[it.index()] == c);
        if !(alphanumeric(c) || c == '-' || c == '_' || c == '.') {
            return false;
        }
        if after_dot && c == '.' {
            return false;
        }
        after_dot = c == '.';
    }
    true
}

/// Lets a request for a store pass, or refuses it for the name of the store.
pub fn store_gate(name: &str) -> (res: Result<(), Reply>)
    ensures
        match res {
            Ok(()) => is_store_name(name@),
            Err(reply) => !is_store_name(name@) && reply.is_error(
                BAD_REQUEST,
                "Invalid store name"@,
            ),
        },
{
    if valid_store_name(name) {
        Ok(())
    } else {
        Err(error_response(BAD_REQUEST, "Invalid store name"))
    }
}

/// The reply where a store could not be opened.
pub fn store_open_failed(message: &str) -> (res: Reply)
    ensures
        res.is_error(INTERNAL_SERVER_ERROR, "Failed to open store: "@ + message@),
{
    let text = join2("Failed to open store: ", message);
    error_response(INTERNAL_SERVER_ERROR, text.as_str())
}

/// The members of the reply to a read: of each key that has a value, that value. Where a key comes
/// twice, its last value counts.
pub open spec fn stored(entries: Seq<(String, Option<Value>)>) -> Map<Seq<char>, Json>
    decreases entries.len(),
{
    if entries.len() == 0 {
        Map::empty()
    } else {
        let (key, value) = entries.last();
        let before = stored(entries.drop_last());
        match value {
            Some(v) => before.insert(key@, contents(v)),
            None => before,
        }
    }
}

/// The reply to a read of a store, from its keys and the value found under each.
pub fn handle_store_get(name: &str, opened: Result<Vec<(String, Option<Value>)>, String>) -> (res:
    Reply)
    ensures
        if !is_store_name(name@) {
            res.is_error(BAD_REQUEST, "Invalid store name"@)
        } else {
            match opened {
                Ok(entries) => res.is_json(Json::Object(stored(entries@))),
                Err(message) => res.is_error(
                    INTERNAL_SERVER_ERROR,
                    "Failed to open store: "@ + message@,
                ),
            }
        },
{
    if let Err(reply) = store_gate(name) {
        return reply;
    }
    let entries = match opened {
        Ok(entries) => entries,
        Err(message) => {
            return store_open_failed(message.as_str());
        },
    };
    let ghost all = entries@;
    let mut map = new_members();
    assert(all.take(0) =~= Seq::<(String, Option<Value>)>::empty());
    for (key, value) in it: entries
        invariant
            it.seq() == all,
            members(map) == stored(all.take(it.index())),
    {
        let ghost seen = all.take(it.index());
        proof {
            assert(all.take(it.index() + 1) =~= seen.push((key, value)));
            assert(seen.push((key, value)).drop_last() =~= seen);
        }
        if let Some(v) = value {
            insert_member(&mut map, key, v);
        }
    }
    assert(all.take(all.len() as int) =~= all);
    json_response(object_value(map))
}

/// The body of a write: the key, and the value to set unless the entry is to be deleted.
pub struct StoreSetBody {
    pub key: String,
    pub value: Value,
    pub delete: bool,
}

/// A change to one entry of a store.
pub enum StoreEdit {
    Delete { key: String },
    Put { key: String, value: Value },
}

/// The entries of a store after a change.
pub open spec fn edited(entries: Map<Seq<char>, Json>, edit: StoreEdit) -> Map<Seq<char>, Json> {
    match edit {
        StoreEdit::Delete { key } => entries.remove(key@),
        StoreEdit::Put { key, value } => entries.insert(key@, contents(value)),
    }
}

/// The change that a write asks for.
pub fn store_edit(body: StoreSetBody) -> (res: StoreEdit)
    ensures
        if body.delete {
            res matches StoreEdit::Delete { key } && key == body.key
        } else {
            res matches StoreEdit::Put { key, value } && key == body.key && value == body.value
        },
{
    if body.delete {
        StoreEdit::Delete { key: body.key }
    } else {
        StoreEdit::Put { key: body.key, value: body.value }
    }
}

/// What is to be done next about a write.
pub enum StoreStep {
    /// Make the change, then save the store.
    Apply(StoreEdit),
    Respond(Reply),
}

/// The next step of a write, from what came of opening the store.
pub fn handle_store_set(name: &str, opened: Result<(), String>, body: StoreSetBody) -> (res:
    StoreStep)
    ensures
        if !is_store_name(name@) {
            res matches StoreStep::Respond(reply) && reply.is_error(
                BAD_REQUEST,
                "Invalid store name"@,
            )
        } else {
            match opened {
                Ok(()) => res matches StoreStep::Apply(edit) && if body.delete {
                    edit matches StoreEdit::Delete { key } && key == body.key
                } else {
                    edit matches StoreEdit::Put { key, value } && key == body.key && value
                        == body.value
                },
                Err(message) => res matches StoreStep::Respond(reply) && reply.is_error(
                    INTERNAL_SERVER_ERROR,
                    "Failed to open store: "@ + message@,
                ),
            }
        },
{
    if let Err(reply) = store_gate(name) {
        return StoreStep::Respond(reply);
    }
    match opened {
        Ok(()) => StoreStep::Apply(store_edit(body)),
        Err(message) => StoreStep::Respond(store_open_failed(message.as_str())),
    }
}

/// The reply to a write, from what came of saving the store.
pub fn store_saved(saved: Result<(), String>) -> (res: Reply)
    ensures
        match saved {
            Ok(()) => res.is_json(Json::Object(map!["ok"@ => Json::Bool(true)])),
            Err(message) => res.is_error(
                INTERNAL_SERVER_ERROR,
                "Failed to save store: "@ + message@,
            ),
        },
{
    match saved {
        Ok(()) => ok_response(),
        Err(message) => {
            let text = join2("Failed to save store: ", message.as_str());
            error_response(INTERNAL_SERVER_ERROR, text.as_str())
        },
    }
}

/// A store name other than a single dot is one plain name: joined to a directory, it names an entry
/// of that directory.
pub proof fn law_store_stays_in_its_directory(dir: Seq<char>, name: Seq<char>)
    requires
        is_store_name(name),
        name != seq!['.'],
    ensures
        path_parts(joined_path(dir, name)) == path_parts(dir).push(Part::Normal(name)),
{
    if name.contains('/') {
        let k = choose|k: int| 0 <= k < name.len() && name[k] == '/';
        assert(is_store_char(name[k]));
    }
    if name == seq!['.', '.'] {
        assert(name[0] == '.' && name[1] == '.');
    }
    law_plain_name_reads_back(name);
    law_join_adds_components(dir, name);
    assert(path_parts(dir) + seq![Part::Normal(name)] =~= path_parts(dir).push(Part::Normal(name)));
}

/// Whether `listing` is what asking a store with the contents `kept` for all its keys, and then for
/// the value under each, gives.
pub open spec fn lists(listing: Seq<(String, Option<Value>)>, kept: Map<Seq<char>, Json>) -> bool {
    &&& forall|i: int|
        0 <= i < listing.len() ==> match (#[trigger] listing[i]).1 {
            Some(value) => kept.dom().contains(listing[i].0@) && kept[listing[i].0@] == contents(
                value,
            ),
            None => !kept.dom().contains(listing[i].0@),
        }
    &&& forall|key: Seq<char>| #[trigger]
        kept.dom().contains(key) ==> exists|i: int|
            0 <= i < listing.len() && (#[trigger] listing[i]).0@ == key
}

proof fn lemma_stored(listing: Seq<(String, Option<Value>)>, kept: Map<Seq<char>, Json>, n: int)
    requires
        lists(listing, kept),
        0 <= n <= listing.len(),
    ensures
        forall|key: Seq<char>| #[trigger]
            stored(listing.take(n)).dom().contains(key) <==> kept.dom().contains(key) && exists|
                i: int,
            |
                0 <= i < n && (#[trigger] listing[i]).0@ == key,
        forall|key: Seq<char>| #[trigger]
            stored(listing.take(n)).dom().contains(key) ==> stored(listing.take(n))[key]
                == kept[key],
    decreases n,
{
    let some = stored(listing.take(n));
    if n == 0 {
        assert(listing.take(0) =~= Seq::<(String, Option<Value>)>::empty());
    } else {
        lemma_stored(listing, kept, n - 1);
        let before = stored(listing.take(n - 1));
        let (k, v) = listing[n - 1];
        assert(listing.take(n).drop_last() =~= listing.take(n - 1));
        assert(listing.take(n).last() == listing[n - 1]);
        assert forall|key: Seq<char>| #[trigger]
            some.dom().contains(key) <==> kept.dom().contains(key) && exists|i: int|
                0 <= i < n && (#[trigger] listing[i]).0@ == key by {
            if kept.dom().contains(key) && exists|i: int|
                0 <= i < n && (#[trigger] listing[i]).0@ == key {
                let i = choose|i: int| 0 <= i < n && (#[trigger] listing[i]).0@ == key;
                if i < n - 1 {
                    assert(before.dom().contains(key));
                }
            }
            if some.dom().contains(key) && key != k@ {
                assert(before.dom().contains(key));
            }
        }
        assert forall|key: Seq<char>| #[trigger] some.dom().contains(key) implies some[key]
            == kept[key] by {
            if key != k@ || v is None {
                assert(before.dom().contains(key));
            }
        }
    }
}

/// A read hands out the store as it is: every entry, with its value, and nothing else.
pub proof fn law_read_shows_the_store(
    listing: Seq<(String, Option<Value>)>,
    kept: Map<Seq<char>, Json>,
)
    requires
        lists(listing, kept),
    ensures
        stored(listing) == kept,
{
    let n = listing.len() as int;
    lemma_stored(listing, kept, n);
    assert(listing.take(n) =~= listing);
    assert forall|key: Seq<char>| kept.dom().contains(key) implies #[trigger] stored(
        listing,
    ).dom().contains(key) by {
        let i = choose|i: int| 0 <= i < listing.len() && (#[trigger] listing[i]).0@ == key;
        assert(listing[i].0@ == key);
    }
    assert(stored(listing).dom() =~= kept.dom());
    assert(stored(listing) =~= kept);
}

/// A read after a write shows what was written: the value that was set, or no entry where it was
/// deleted. All other entries are shown as before.
pub proof fn law_read_after_write(
    kept: Map<Seq<char>, Json>,
    edit: StoreEdit,
    listing: Seq<(String, Option<Value>)>,
    other: Seq<char>,
)
    requires
        lists(listing, edited(kept, edit)),
    ensures
        match edit {
            StoreEdit::Put { key, value } => stored(listing).dom().contains(key@) && stored(
                listing,
            )[key@] == contents(value),
            StoreEdit::Delete { key } => !stored(listing).dom().contains(key@),
        },
        other != edited_key(edit) ==> {
            &&& stored(listing).dom().contains(other) == kept.dom().contains(other)
            &&& kept.dom().contains(other) ==> stored(listing)[other] == kept[other]
        },
{
    law_read_shows_the_store(listing, edited(kept, edit));
}

/// The key whose entry a change is about.
pub open spec fn edited_key(edit: StoreEdit) -> Seq<char> {
    match edit {
        StoreEdit::Delete { key } => key@,
        StoreEdit::Put { key, .. } => key@,
    }
}

/// A store may have any name that is not empty, is made of ASCII letters, digits, `-`, `_` and `.`
/// alone and holds no two dots in a row, however long it is; and no other name.
pub proof fn law_store_names(name: &str, res: bool)
    requires
        call_ensures(valid_store_name, (name,), res),
    ensures
        res == is_store_name(name@),
        res <==> {
            &&& name@.len() > 0
            &&& forall|i: int|
                0 <= i < name@.len() ==> {
                    let code = (#[trigger] name@[i]) as int;
                    ||| 48 <= code <= 57
                    ||| 65 <= code <= 90
                    ||| 97 <= code <= 122
                    ||| code == 45
                    ||| code == 46
                    ||| code == 95
                }
            &&& forall|i: int, j: int|
                0 <= i < name@.len() && j == i + 1 && j < name@.len() && #[trigger] name@[i] == '.'
                    ==> #[trigger] name@[j] != '.'
        },
{
    let s = name@;
    if res {
        assert forall|i: int, j: int|
            0 <= i < s.len() && j == i + 1 && j < s.len() && #[trigger] s[i]
                == '.' implies #[trigger] s[j] != '.' by {
            assert(!(s[j - 1] == '.' && s[j] == '.'));
        }
        assert forall|i: int| 0 <= i < s.len() implies is_store_char(#[trigger] s[i]) by {}
    } else if s.len() > 0 {
        if exists|i: int| 0 <= i < s.len() && !is_store_char(#[trigger] s[i]) {
            let i = choose|i: int| 0 <= i < s.len() && !is_store_char(#[trigger] s[i]);
            assert(!is_store_char(s[i]));
        } else {
            let j = choose|j: int| 0 < j < s.len() && s[j - 1] == '.' && #[trigger] s[j] == '.';
            assert(s[j - 1] == '.' && s[j] == '.');
        }
    }
}

/// The entries of a read, one by one: a key with a value is shown with that value, in place of any
/// that it had before, and a key without one adds nothing.
pub proof fn law_entries_one_by_one(
    entries: Seq<(String, Option<Value>)>,
    key: String,
    value: Option<Value>,
)
    ensures
        stored(Seq::empty()) == Map::<Seq<char>, Json>::empty(),
        stored(entries.push((key, value))) == (match value {
            Some(v) => stored(entries).insert(key@, contents(v)),
            None => stored(entries),
        }),
{
    assert(entries.push((key, value)).drop_last() =~= entries);
}

/// Whatever a store answers when it is asked for its keys and their values, a read that is allowed
/// hands out those entries.
pub proof fn law_any_listing(name: &str, listing: Vec<(String, Option<Value>)>, res: Reply)
    requires
        is_store_name(name@),
        call_ensures(
            handle_store_get,
            (name, Ok::<Vec<(String, Option<Value>)>, String>(listing)),
            res,
        ),
    ensures
        res.is_json(Json::Object(stored(listing@))),
{
}

/// A read of a store whose name is not allowed is refused, one of a store that cannot be opened
/// fails with the reason, and any other read hands out the whole store.
pub proof fn law_reads(
    name: &str,
    opened: Result<Vec<(String, Option<Value>)>, String>,
    kept: Map<Seq<char>, Json>,
    res: Reply,
)
    requires
        call_ensures(handle_store_get, (name, opened), res),
        opened matches Ok(listing) ==> lists(listing@, kept),
    ensures
        !is_store_name(name@) ==> res.is_error(400, "Invalid store name"@),
        is_store_name(name@) ==> match opened {
            Ok(_) => res.is_json(Json::Object(kept)),
            Err(message) => res.is_error(500, "Failed to open store: "@ + message@),
        },
{
    if let Ok(listing) = opened {
        law_read_shows_the_store(listing@, kept);
    }
}

/// A write to a store whose name is not allowed is refused, one to a store that cannot be opened
/// fails with the reason, and any other write deletes or sets the one entry that it names.
pub proof fn law_writes(
    name: &str,
    opened: Result<(), String>,
    body: StoreSetBody,
    res: StoreStep,
)
    requires
        call_ensures(handle_store_set, (name, opened, body), res),
    ensures
        !is_store_name(name@) ==> (res matches StoreStep::Respond(reply) && reply.is_error(
            400,
            "Invalid store name"@,
        )),
        is_store_name(name@) ==> match opened {
            Err(message) => res matches StoreStep::Respond(reply) && reply.is_error(
                500,
                "Failed to open store: "@ + message@,
            ),
            Ok(()) => res == StoreStep::Apply(
                if body.delete {
                    StoreEdit::Delete { key: body.key }
                } else {
                    StoreEdit::Put { key: body.key, value: body.value }
                },
            ),
        },
{
}

/// What a request wrote is what a later request reads: the entry has the value of the write, or is
/// gone where the write was to delete it, and every other entry is as it was before.
pub proof fn law_write_then_read(
    name: &str,
    body: StoreSetBody,
    edit: StoreEdit,
    kept: Map<Seq<char>, Json>,
    listing: Vec<(String, Option<Value>)>,
    res: Reply,
)
    requires
        is_store_name(name@),
        call_ensures(handle_store_set, (name, Ok::<(), String>(()), body), StoreStep::Apply(edit)),
        lists(listing@, edited(kept, edit)),
        call_ensures(
            handle_store_get,
            (name, Ok::<Vec<(String, Option<Value>)>, String>(listing)),
            res,
        ),
    ensures
        res.is_json(
            Json::Object(
                if body.delete {
                    kept.remove(body.key@)
                } else {
                    kept.insert(body.key@, contents(body.value))
                },
            ),
        ),
{
    law_read_shows_the_store(listing@, edited(kept, edit));
}

/// A write is answered with success exactly where the store was saved, else with the reason.
pub proof fn law_saved(saved: Result<(), String>, res: Reply)
    requires
        call_ensures(store_saved, (saved,), res),
    ensures
        match saved {
            Ok(()) => res.is_json(Json::Object(map!["ok"@ => Json::Bool(true)])),
            Err(message) => res.is_error(500, "Failed to save store: "@ + message@),
        },
{
}

/// A request for a store is let through exactly where its name is allowed.
pub proof fn law_names_let_through(name: &str, res: Result<(), Reply>)
    requires
        call_ensures(store_gate, (name,), res),
    ensures
        res is Ok <==> is_store_name(name@),
        res matches Err(reply) ==> reply.is_error(400, "Invalid store name"@),
{
}

/// A store that cannot be opened is reported with the reason.
pub proof fn law_closed_store(message: &str, res: Reply)
    requires
        call_ensures(store_open_failed, (message,), res),
    ensures
        res.is_error(500, "Failed to open store: "@ + message@),
{
}

} // verus!
