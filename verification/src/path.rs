//! Slash-separated paths: their components, joining them, and cleaning the relative paths that a
//! browser sends along with an upload.

use vstd::prelude::*;
use vstd::string::*;
use vstd::utf8::*;

use crate::text::{last_index, law_last_place, text_eq, to_chars};

verus! {

/// The longest relative path that an upload may carry, in bytes.
pub const MAX_UPLOAD_REL_BYTES: usize = 1024;

/// One component of a path, as a mathematical value.
pub enum Part {
    RootDir,
    CurDir,
    ParentDir,
    Normal(Seq<char>),
}

/// One component of a path.
#[derive(Debug, PartialEq, Eq)]
pub enum Component {
    RootDir,
    CurDir,
    ParentDir,
    Normal(String),
}

impl View for Component {
    type V = Part;

    open spec fn view(&self) -> Part {
        match self {
            Component::RootDir => Part::RootDir,
            Component::CurDir => Part::CurDir,
            Component::ParentDir => Part::ParentDir,
            Component::Normal(name) => Part::Normal(name@),
        }
    }
}

/// What stands between the slashes of `s`.
pub open spec fn segments(s: Seq<char>) -> Seq<Seq<char>>
    decreases s.len(),
{
    if s.len() == 0 {
        seq![Seq::empty()]
    } else {
        let before = segments(s.drop_last());
        if s.last() == '/' {
            before.push(Seq::empty())
        } else {
            before.drop_last().push(before.last().push(s.last()))
        }
    }
}

/// The component that one segment stands for: none for an empty one or a single dot.
pub open spec fn segment_part(segment: Seq<char>) -> Option<Part> {
    if segment.len() == 0 || segment == seq!['.'] {
        None
    } else if segment == seq!['.', '.'] {
        Some(Part::ParentDir)
    } else {
        Some(Part::Normal(segment))
    }
}

pub open spec fn segment_parts(segs: Seq<Seq<char>>) -> Seq<Part>
    decreases segs.len(),
{
    if segs.len() == 0 {
        Seq::empty()
    } else {
        let before = segment_parts(segs.drop_last());
        match segment_part(segs.last()) {
            Some(part) => before.push(part),
            None => before,
        }
    }
}

pub open spec fn is_absolute(s: Seq<char>) -> bool {
    s.len() > 0 && s[0] == '/'
}

/// Whether the first segment of `s` is a single dot.
pub open spec fn leading_dot(s: Seq<char>) -> bool {
    s.len() > 0 && s[0] == '.' && (s.len() == 1 || s[1] == '/')
}

/// The component that only the beginning of a path can give.
pub open spec fn lead_part(s: Seq<char>) -> Seq<Part> {
    if is_absolute(s) {
        seq![Part::RootDir]
    } else if leading_dot(s) {
        seq![Part::CurDir]
    } else {
        Seq::empty()
    }
}

/// The components of a path. Repeated and trailing slashes count for nothing, and so does a single
/// dot anywhere but at the beginning.
pub open spec fn path_parts(s: Seq<char>) -> Seq<Part> {
    lead_part(s) + segment_parts(segments(s))
}

proof fn lemma_segments_nonempty(s: Seq<char>)
    ensures
        segments(s).len() > 0,
    decreases s.len(),
{
    if s.len() > 0 {
        lemma_segments_nonempty(s.drop_last());
    }
}

pub open spec fn views(comps: Seq<Component>) -> Seq<Part> {
    comps.map_values(|c: Component| c@)
}

/// The component for one segment, where it stands for one.
fn segment_component(segment: String) -> (res: Option<Component>)
    ensures
        res is Some <==> segment_part(segment@) is Some,
        res matches Some(c) ==> segment_part(segment@) == Some(c@),
{
    proof {
        reveal_strlit(".");
        reveal_strlit("..");
        assert("."@ =~= seq!['.']);
        assert(".."@ =~= seq!['.', '.']);
    }
    if segment.as_str().is_empty() || text_eq(segment.as_str(), ".") {
        None
    } else if text_eq(segment.as_str(), "..") {
        Some(Component::ParentDir)
    } else {
        Some(Component::Normal(segment))
    }
}

/// Splits a path into its components.
pub fn components(path: &str) -> (res: Vec<Component>)
    ensures
        views(res@) == path_parts(path@),
{
    let chars = to_chars(path);
    let mut out: Vec<Component> = Vec::new();
    if chars.len() > 0 && chars[0] == '/' {
        out.push(Component::RootDir);
    } else if chars.len() > 0 && chars[0] == '.' && (chars.len() == 1 || chars[1] == '/') {
        out.push(Component::CurDir);
    }
    let ghost lead = lead_part(path@);
    assert(views(out@) =~= lead);
    let mut current = String::new();
    let mut i: usize = 0;
    proof {
        assert(path@.take(0) =~= Seq::<char>::empty());
        assert(segments(path@.take(0)).drop_last() =~= Seq::<Seq<char>>::empty());
        assert(views(out@) =~= lead + segment_parts(segments(path@.take(0)).drop_last()));
    }
    while i < chars.len()
        invariant
            i <= chars@.len(),
            chars@ == path@,
            segments(path@.take(i as int)).len() > 0,
            current@ == segments(path@.take(i as int)).last(),
            views(out@) == lead + segment_parts(segments(path@.take(i as int)).drop_last()),
        decreases chars@.len() - i,
    {
        let c = chars[i];
        let ghost seen = path@.take(i as int);
        let ghost next = path@.take(i + 1);
        assert(next.drop_last() =~= seen);
        assert(next.last() == c);
        let ghost before = out@;
        if c == '/' {
            let segment = current;
            let ghost seg = segment@;
            current = String::new();
            proof {
                assert(segments(next).drop_last() =~= segments(seen));
                assert(segment_parts(segments(seen)) == (match segment_part(seg) {
                    Some(part) => segment_parts(segments(seen).drop_last()).push(part),
                    None => segment_parts(segments(seen).drop_last()),
                }));
            }
            if let Some(comp) = segment_component(segment) {
                out.push(comp);
                assert(views(out@) =~= views(before).push(comp@));
                assert(views(out@) =~= lead + segment_parts(segments(next).drop_last()));
            }
        } else {
            current.push(c);
            assert(segments(next).drop_last() =~= segments(seen).drop_last());
        }
        i = i + 1;
    }
    assert(path@.take(i as int) =~= path@);
    let ghost before = out@;
    if let Some(comp) = segment_component(current) {
        out.push(comp);
        assert(views(out@) =~= views(before).push(comp@));
    }
    assert(views(out@) =~= path_parts(path@));
    out
}

/// The names `names`, with a slash between each two.
pub open spec fn joined(names: Seq<Seq<char>>) -> Seq<char>
    decreases names.len(),
{
    if names.len() == 0 {
        Seq::empty()
    } else if names.len() == 1 {
        names[0]
    } else {
        joined(names.drop_last()).push('/') + names.last()
    }
}

/// Whether every component is an ordinary name.
pub open spec fn all_normal(parts: Seq<Part>) -> bool {
    forall|i: int| 0 <= i < parts.len() ==> (#[trigger] parts[i]) is Normal
}

pub open spec fn names(parts: Seq<Part>) -> Seq<Seq<char>> {
    parts.map_values(|p: Part| p->Normal_0)
}

/// A relative upload path in clean form: its names, joined by single slashes. `None` where it is
/// empty or too long, or where a component is anything but an ordinary name.
pub open spec fn clean_relative(rel: Seq<char>) -> Option<Seq<char>> {
    let parts = path_parts(rel);
    if rel.len() == 0 || encode_utf8(rel).len() > MAX_UPLOAD_REL_BYTES || !all_normal(parts)
        || parts.len() == 0 {
        None
    } else {
        Some(joined(names(parts)))
    }
}

/// Cleans a relative path from the browser (a file name, or the path of a file below a picked
/// folder). Refuses anything that could leave the directory that it is joined to.
pub fn sanitize_upload_rel(rel: &str) -> (res: Option<String>)
    ensures
        res is Some <==> clean_relative(rel@) is Some,
        res matches Some(clean) ==> clean_relative(rel@) == Some(clean@),
{
    if rel.is_empty() || rel.as_bytes().len() > MAX_UPLOAD_REL_BYTES {
        return None;
    }
    let comps = components(rel);
    let ghost parts = path_parts(rel@);
    if comps.len() == 0 {
        assert(views(comps@).len() == 0);
        return None;
    }
    let mut clean = String::new();
    let mut i: usize = 0;
    assert(names(parts).take(0) =~= Seq::<Seq<char>>::empty());
    while i < comps.len()
        invariant
            i <= comps@.len(),
            parts == path_parts(rel@),
            views(comps@) == parts,
            forall|j: int| 0 <= j < i ==> (#[trigger] parts[j]) is Normal,
            clean@ == joined(names(parts).take(i as int)),
        decreases comps@.len() - i,
    {
        assert(parts[i as int] == comps@[i as int]@);
        match &comps[i] {
            Component::Normal(name) => {
                let ghost seen = names(parts).take(i as int);
                let ghost next = names(parts).take(i + 1);
                assert(next.drop_last() =~= seen);
                assert(next.last() == name@);
                if i > 0 {
                    clean.push('/');
                }
                clean.append(name.as_str());
                proof {
                    if i == 0 {
                        assert(clean@ =~= name@);
                    }
                }
            },
            _ => {
                return None;
            },
        }
        i = i + 1;
    }
    assert(names(parts).take(i as int) =~= names(parts));
    Some(clean)
}

/// `rel` below `base`; an absolute `rel` replaces `base`.
pub open spec fn joined_path(base: Seq<char>, rel: Seq<char>) -> Seq<char> {
    if is_absolute(rel) {
        rel
    } else if base.len() == 0 || base.last() == '/' {
        base + rel
    } else {
        base.push('/') + rel
    }
}

/// Joins two paths.
pub fn join_path(base: &str, rel: &str) -> (res: String)
    ensures
        res@ == joined_path(base@, rel@),
{
    let b = to_chars(base);
    let r = to_chars(rel);
    if r.len() > 0 && r[0] == '/' {
        return rel.to_owned();
    }
    let mut out = base.to_owned();
    if b.len() > 0 && b[b.len() - 1] != '/' {
        out.push('/');
    }
    out.append(rel);
    out
}

/// Whether the components of `root` are the first components of `path`.
pub open spec fn is_within(path: Seq<char>, root: Seq<char>) -> bool {
    path_parts(root).is_prefix_of(path_parts(path))
}

fn same_component(a: &Component, b: &Component) -> (res: bool)
    ensures
        res == (a@ == b@),
{
    match (a, b) {
        (Component::RootDir, Component::RootDir) => true,
        (Component::CurDir, Component::CurDir) => true,
        (Component::ParentDir, Component::ParentDir) => true,
        (Component::Normal(x), Component::Normal(y)) => text_eq(x.as_str(), y.as_str()),
        _ => false,
    }
}

/// Whether `path` is `root` or lies below it, component by component.
pub fn path_within(path: &str, root: &str) -> (res: bool)
    ensures
        res == is_within(path@, root@),
{
    let p = components(path);
    let r = components(root);
    let ghost pv = path_parts(path@);
    let ghost rv = path_parts(root@);
    assert(views(p@).len() == p@.len() && views(r@).len() == r@.len());
    if p.len() < r.len() {
        return false;
    }
    let mut i: usize = 0;
    while i < r.len()
        invariant
            i <= r@.len() <= p@.len(),
            views(p@) == pv,
            views(r@) == rv,
            pv == path_parts(path@),
            rv == path_parts(root@),
            forall|j: int| 0 <= j < i ==> pv[j] == rv[j],
        decreases r@.len() - i,
    {
        assert(views(p@)[i as int] == p@[i as int]@);
        assert(views(r@)[i as int] == r@[i as int]@);
        if !same_component(&p[i], &r[i]) {
            assert(pv.take(rv.len() as int)[i as int] != rv[i as int]);
            return false;
        }
        i = i + 1;
    }
    assert(pv.take(rv.len() as int) =~= rv);
    true
}

/// A name that a path can hold as one ordinary component.
pub open spec fn is_plain_name(name: Seq<char>) -> bool {
    &&& name.len() > 0
    &&& !name.contains('/')
    &&& name != seq!['.']
    &&& name != seq!['.', '.']
}

pub open spec fn plain_names(list: Seq<Seq<char>>) -> bool {
    forall|i: int| 0 <= i < list.len() ==> is_plain_name(#[trigger] list[i])
}

proof fn lemma_segments_no_slash(s: Seq<char>)
    ensures
        forall|i: int| 0 <= i < segments(s).len() ==> !(#[trigger] segments(s)[i]).contains('/'),
    decreases s.len(),
{
    if s.len() > 0 {
        let before = segments(s.drop_last());
        lemma_segments_no_slash(s.drop_last());
        lemma_segments_nonempty(s.drop_last());
        assert forall|i: int| 0 <= i < segments(s).len() implies !(#[trigger] segments(
            s,
        )[i]).contains('/') by {
            if s.last() == '/' {
                if i < before.len() {
                    assert(segments(s)[i] == before[i]);
                }
            } else if i < before.len() - 1 {
                assert(segments(s)[i] == before[i]);
            } else {
                assert(segments(s)[i] == before.last().push(s.last()));
                assert(!before[before.len() - 1].contains('/'));
                let seg = before.last();
                assert forall|k: int| 0 <= k < seg.push(s.last()).len() implies seg.push(
                    s.last(),
                )[k] != '/' by {
                    if k < seg.len() {
                        assert(seg.contains(seg[k]));
                    }
                }
            }
        }
    }
}

proof fn lemma_segments_join(a: Seq<char>, b: Seq<char>)
    ensures
        segments(a.push('/') + b) == segments(a) + segments(b),
    decreases b.len(),
{
    let s = a.push('/') + b;
    if b.len() == 0 {
        assert(s =~= a.push('/'));
        assert(s.drop_last() =~= a);
        assert(segments(s) =~= segments(a) + segments(b));
    } else {
        lemma_segments_join(a, b.drop_last());
        lemma_segments_nonempty(b.drop_last());
        assert(s.drop_last() =~= a.push('/') + b.drop_last());
        let before = segments(b.drop_last());
        let all = segments(a) + before;
        assert(segments(s.drop_last()) == all);
        assert(all.last() == before.last());
        if b.last() == '/' {
            assert(all.push(Seq::empty()) =~= segments(a) + before.push(Seq::empty()));
        } else {
            assert(all.drop_last().push(all.last().push(b.last())) =~= segments(a)
                + before.drop_last().push(before.last().push(b.last())));
        }
    }
}

proof fn lemma_segments_single(s: Seq<char>)
    requires
        !s.contains('/'),
    ensures
        segments(s) == seq![s],
    decreases s.len(),
{
    if s.len() == 0 {
        assert(s =~= Seq::<char>::empty());
    } else {
        assert(s.contains(s.last()));
        assert forall|c: char| s.drop_last().contains(c) implies s.contains(c) by {
            let k = choose|k: int| 0 <= k < s.drop_last().len() && s.drop_last()[k] == c;
            assert(s[k] == c);
        }
        lemma_segments_single(s.drop_last());
        assert(s.drop_last().push(s.last()) =~= s);
        assert(segments(s) =~= seq![s]);
    }
}

proof fn lemma_lead_segments(s: Seq<char>)
    ensures
        is_absolute(s) ==> segments(s)[0] == Seq::<char>::empty(),
        leading_dot(s) ==> segments(s)[0] == seq!['.'],
{
    if is_absolute(s) {
        let rest = s.drop_first();
        assert(s =~= Seq::<char>::empty().push('/') + rest);
        lemma_segments_join(Seq::empty(), rest);
    } else if leading_dot(s) {
        let dot = seq!['.'];
        lemma_segments_single(dot);
        if s.len() == 1 {
            assert(s =~= dot);
        } else {
            assert(s =~= dot.push('/') + s.skip(2));
            lemma_segments_join(dot, s.skip(2));
        }
    }
}

proof fn lemma_segment_parts_concat(x: Seq<Seq<char>>, y: Seq<Seq<char>>)
    ensures
        segment_parts(x + y) == segment_parts(x) + segment_parts(y),
    decreases y.len(),
{
    if y.len() == 0 {
        assert(x + y =~= x);
        assert(segment_parts(x) + segment_parts(y) =~= segment_parts(x));
    } else {
        lemma_segment_parts_concat(x, y.drop_last());
        assert((x + y).drop_last() =~= x + y.drop_last());
        assert((x + y).last() == y.last());
        assert(segment_parts(x + y) =~= segment_parts(x) + segment_parts(y));
    }
}

/// Joining a relative path that does not begin with a dot adds its components behind those of the
/// base.
pub proof fn law_join_adds_components(base: Seq<char>, rel: Seq<char>)
    requires
        !is_absolute(rel),
        !leading_dot(rel),
    ensures
        path_parts(joined_path(base, rel)) == path_parts(base) + path_parts(rel),
{
    let whole = joined_path(base, rel);
    assert(path_parts(rel) =~= segment_parts(segments(rel)));
    if base.len() == 0 {
        assert(whole =~= rel);
        assert(segments(base) =~= seq![Seq::<char>::empty()]);
        reveal_with_fuel(segment_parts, 2);
        assert(segments(base).drop_last() =~= Seq::<Seq<char>>::empty());
        assert(path_parts(base) =~= Seq::<Part>::empty());
        assert(path_parts(base) + path_parts(rel) =~= path_parts(whole));
    } else {
        let stem = if base.last() == '/' {
            base.drop_last()
        } else {
            base
        };
        assert(whole =~= stem.push('/') + rel);
        lemma_segments_join(stem, rel);
        lemma_segment_parts_concat(segments(stem), segments(rel));
        if base.last() == '/' {
            assert(base =~= stem.push('/') + Seq::<char>::empty());
            lemma_segments_join(stem, Seq::empty());
            lemma_segment_parts_concat(segments(stem), segments(Seq::empty()));
            reveal_with_fuel(segment_parts, 2);
            assert(segments(Seq::<char>::empty()).drop_last() =~= Seq::<Seq<char>>::empty());
            assert(segment_parts(segments(Seq::<char>::empty())) =~= Seq::<Part>::empty());
        }
        assert(segment_parts(segments(base)) =~= segment_parts(segments(stem)));
        assert(lead_part(whole) =~= lead_part(base));
        assert(path_parts(whole) =~= path_parts(base) + path_parts(rel));
    }
}

proof fn lemma_segments_joined(list: Seq<Seq<char>>)
    requires
        list.len() > 0,
        plain_names(list),
    ensures
        segments(joined(list)) == list,
    decreases list.len(),
{
    assert(is_plain_name(list[list.len() - 1]));
    lemma_segments_single(list.last());
    if list.len() == 1 {
        assert(list =~= seq![list[0]]);
    } else {
        lemma_segments_joined(list.drop_last());
        lemma_segments_join(joined(list.drop_last()), list.last());
        assert(list.drop_last() + seq![list.last()] =~= list);
    }
}

pub open spec fn as_normal(list: Seq<Seq<char>>) -> Seq<Part> {
    list.map_values(|name: Seq<char>| Part::Normal(name))
}

proof fn lemma_parts_of_plain_names(list: Seq<Seq<char>>)
    requires
        plain_names(list),
    ensures
        segment_parts(list) == as_normal(list),
    decreases list.len(),
{
    if list.len() == 0 {
        assert(as_normal(list) =~= Seq::<Part>::empty());
    } else {
        lemma_parts_of_plain_names(list.drop_last());
        assert(is_plain_name(list[list.len() - 1]));
        assert(as_normal(list) =~= as_normal(list.drop_last()).push(Part::Normal(list.last())));
    }
}

/// Plain names joined by slashes are, read as a path, exactly those names.
pub proof fn law_joined_names_read_back(list: Seq<Seq<char>>)
    requires
        list.len() > 0,
        plain_names(list),
    ensures
        path_parts(joined(list)) == as_normal(list),
        !is_absolute(joined(list)),
        !leading_dot(joined(list)),
        joined(list).len() > 0,
{
    let s = joined(list);
    lemma_segments_joined(list);
    lemma_parts_of_plain_names(list);
    lemma_lead_segments(s);
    assert(is_plain_name(list[0]));
    assert(path_parts(s) =~= as_normal(list));
    if s.len() == 0 {
        assert(segments(s) =~= seq![Seq::<char>::empty()]);
        assert(list[0] == segments(s)[0]);
    }
}

proof fn lemma_normal_parts_are_plain(segs: Seq<Seq<char>>)
    requires
        forall|i: int| 0 <= i < segs.len() ==> !(#[trigger] segs[i]).contains('/'),
    ensures
        forall|i: int|
            0 <= i < segment_parts(segs).len() && segment_parts(segs)[i] is Normal
                ==> is_plain_name((#[trigger] segment_parts(segs)[i])->Normal_0),
    decreases segs.len(),
{
    if segs.len() > 0 {
        lemma_normal_parts_are_plain(segs.drop_last());
        assert(!segs[segs.len() - 1].contains('/'));
        let before = segment_parts(segs.drop_last());
        assert forall|i: int|
            0 <= i < segment_parts(segs).len()
                && segment_parts(segs)[i] is Normal implies is_plain_name(
            (#[trigger] segment_parts(segs)[i])->Normal_0,
        ) by {
            if i < before.len() {
                assert(segment_parts(segs)[i] == before[i]);
            }
        }
    }
}

/// Every ordinary component of a path is a plain name.
pub proof fn law_normal_components_are_plain(s: Seq<char>, i: int)
    requires
        0 <= i < path_parts(s).len(),
        path_parts(s)[i] is Normal,
    ensures
        is_plain_name(path_parts(s)[i]->Normal_0),
{
    lemma_segments_no_slash(s);
    lemma_normal_parts_are_plain(segments(s));
    let k = i - lead_part(s).len();
    if k >= 0 {
        assert(path_parts(s)[i] == segment_parts(segments(s))[k]);
    }
}

/// A cleaned path has the components of the path that it was made from, all of them ordinary
/// names, and it is neither absolute nor does it begin with a dot.
pub proof fn law_clean_path_keeps_components(rel: Seq<char>)
    requires
        clean_relative(rel) is Some,
    ensures
        path_parts(clean_relative(rel)->0) == path_parts(rel),
        all_normal(path_parts(clean_relative(rel)->0)),
        plain_names(names(path_parts(rel))),
        !is_absolute(clean_relative(rel)->0),
        !leading_dot(clean_relative(rel)->0),
        clean_relative(rel)->0.len() > 0,
{
    let parts = path_parts(rel);
    let list = names(parts);
    assert forall|i: int| 0 <= i < list.len() implies is_plain_name(#[trigger] list[i]) by {
        assert(parts[i] is Normal);
        law_normal_components_are_plain(rel, i);
    }
    law_joined_names_read_back(list);
    assert(as_normal(list) =~= parts) by {
        assert forall|i: int| 0 <= i < parts.len() implies as_normal(list)[i] == parts[i] by {
            assert(parts[i] is Normal);
        }
    }
}

/// However a browser writes a relative path, once cleaned and joined to a directory it stays in
/// that directory: the components of the directory come first and are followed by ordinary names.
pub proof fn law_clean_path_stays_within(base: Seq<char>, rel: Seq<char>)
    requires
        clean_relative(rel) is Some,
    ensures
        path_parts(joined_path(base, clean_relative(rel)->0)) == path_parts(base) + path_parts(rel),
        all_normal(path_parts(rel)),
        is_within(joined_path(base, clean_relative(rel)->0), base),
{
    law_clean_path_keeps_components(rel);
    law_join_adds_components(base, clean_relative(rel)->0);
    let whole = path_parts(base) + path_parts(rel);
    assert(path_parts(base) =~= whole.subrange(0, path_parts(base).len() as int));
}

proof fn lemma_encode_concat(a: Seq<char>, b: Seq<char>)
    ensures
        encode_utf8(a + b) == encode_utf8(a) + encode_utf8(b),
    decreases a.len(),
{
    if a.len() == 0 {
        assert(a + b =~= b);
        assert(encode_utf8(a) + encode_utf8(b) =~= encode_utf8(b));
    } else {
        lemma_encode_concat(a.drop_first(), b);
        assert((a + b).drop_first() =~= a.drop_first() + b);
        assert(encode_utf8(a + b) =~= encode_utf8(a) + encode_utf8(b));
    }
}

proof fn lemma_joined_push(list: Seq<Seq<char>>, c: char)
    requires
        list.len() > 0,
    ensures
        joined(list.drop_last().push(list.last().push(c))) == joined(list).push(c),
{
    let longer = list.drop_last().push(list.last().push(c));
    assert(longer.drop_last() =~= list.drop_last());
    assert(joined(longer) =~= joined(list).push(c));
}

proof fn lemma_joined_segments(s: Seq<char>)
    ensures
        joined(segments(s)) == s,
    decreases s.len(),
{
    if s.len() == 0 {
        assert(s =~= Seq::<char>::empty());
    } else {
        let before = segments(s.drop_last());
        lemma_joined_segments(s.drop_last());
        lemma_segments_nonempty(s.drop_last());
        if s.last() == '/' {
            assert(before.push(Seq::empty()).drop_last() =~= before);
            assert(joined(segments(s)) =~= s);
        } else {
            lemma_joined_push(before, s.last());
            assert(s.drop_last().push(s.last()) =~= s);
        }
    }
}

proof fn lemma_clean_is_shorter(segs: Seq<Seq<char>>)
    requires
        all_normal(segment_parts(segs)),
    ensures
        encode_utf8(joined(names(segment_parts(segs)))).len() <= encode_utf8(joined(segs)).len(),
    decreases segs.len(),
{
    let parts = segment_parts(segs);
    if segs.len() == 0 {
        assert(names(parts) =~= Seq::<Seq<char>>::empty());
    } else {
        let pre = segs.drop_last();
        let x = segs.last();
        let before = segment_parts(pre);
        assert(all_normal(before)) by {
            assert forall|i: int| 0 <= i < before.len() implies (#[trigger] before[i]) is Normal by {
                assert(parts[i] == before[i]);
            }
        }
        lemma_clean_is_shorter(pre);
        if pre.len() > 0 {
            lemma_encode_concat(joined(pre).push('/'), x);
            assert(joined(pre).push('/') =~= joined(pre) + seq!['/']);
            lemma_encode_concat(joined(pre), seq!['/']);
        } else {
            assert(before =~= Seq::<Part>::empty());
            assert(names(before) =~= Seq::<Seq<char>>::empty());
            assert(joined(segs) == x);
        }
        match segment_part(x) {
            Some(part) => {
                assert(parts[parts.len() - 1] is Normal);
                assert(names(parts) =~= names(before).push(x));
                assert(names(parts).drop_last() =~= names(before));
                if before.len() > 0 {
                    let j = joined(names(before));
                    lemma_encode_concat(j.push('/'), x);
                    assert(j.push('/') =~= j + seq!['/']);
                    lemma_encode_concat(j, seq!['/']);
                } else {
                    assert(joined(names(parts)) == x);
                }
            },
            None => {
                assert(names(parts) =~= names(before));
            },
        }
    }
}

/// Cleaning a path that is already clean changes nothing.
pub proof fn law_clean_path_is_stable(rel: Seq<char>)
    requires
        clean_relative(rel) is Some,
    ensures
        clean_relative(clean_relative(rel)->0) == clean_relative(rel),
{
    let clean = clean_relative(rel)->0;
    law_clean_path_keeps_components(rel);
    lemma_joined_segments(rel);
    assert(lead_part(rel).len() == 0) by {
        if lead_part(rel).len() > 0 {
            assert(path_parts(rel)[0] == lead_part(rel)[0]);
            assert(path_parts(rel)[0] is Normal);
        }
    }
    assert(path_parts(rel) =~= segment_parts(segments(rel)));
    lemma_clean_is_shorter(segments(rel));
}

/// A path with a `..` component, an absolute path, and one that begins with a dot are refused.
pub proof fn law_escaping_paths_are_refused(rel: Seq<char>)
    requires
        is_absolute(rel) || leading_dot(rel) || segments(rel).contains(seq!['.', '.']),
    ensures
        clean_relative(rel) is None,
{
    let parts = path_parts(rel);
    if is_absolute(rel) || leading_dot(rel) {
        assert(parts[0] == lead_part(rel)[0]);
        assert(!(parts[0] is Normal));
    } else {
        let segs = segments(rel);
        let k = choose|k: int| 0 <= k < segs.len() && segs[k] == seq!['.', '.'];
        assert(segs =~= segs.take(k + 1) + segs.skip(k + 1));
        lemma_segment_parts_concat(segs.take(k + 1), segs.skip(k + 1));
        assert(segs.take(k + 1).last() == seq!['.', '.']);
        assert(seq!['.', '.'].len() == 2 && seq!['.'].len() == 1);
        let head = segment_parts(segs.take(k + 1));
        assert(head.last() == Part::ParentDir);
        let n = lead_part(rel).len() + head.len() - 1;
        assert(parts[n as int] == Part::ParentDir);
        assert(!(parts[n as int] is Normal));
    }
}

/// A plain name, read as a path, is that one name.
pub proof fn law_plain_name_reads_back(name: Seq<char>)
    requires
        is_plain_name(name),
    ensures
        path_parts(name) == seq![Part::Normal(name)],
        !is_absolute(name),
        !leading_dot(name),
{
    let list = seq![name];
    law_joined_names_read_back(list);
    assert(joined(list) == name);
    assert(as_normal(list) =~= seq![Part::Normal(name)]);
}

proof fn lemma_last_index(s: Seq<char>, c: char)
    ensures
        -1 <= last_index(s, c) < s.len(),
        last_index(s, c) >= 0 ==> s[last_index(s, c)] == c,
        !s.skip(last_index(s, c) + 1).contains(c),
    decreases s.len(),
{
    if s.len() > 0 && s.last() != c {
        lemma_last_index(s.drop_last(), c);
        let k = last_index(s, c);
        let tail = s.skip(k + 1);
        let shorter = s.drop_last().skip(k + 1);
        if tail.contains(c) {
            let j = choose|j: int| 0 <= j < tail.len() && tail[j] == c;
            assert(tail[tail.len() - 1] == s.last());
            assert(shorter[j] == tail[j]);
            assert(shorter.contains(c));
        }
    }
}

/// What follows the last slash of a cleaned path below a directory is a plain name.
pub proof fn law_clean_path_last_name(base: Seq<char>, rel: Seq<char>)
    requires
        clean_relative(rel) is Some,
        base.len() > 0,
    ensures
        ({
            let whole = joined_path(base, clean_relative(rel)->0);
            is_plain_name(whole.skip(last_index(whole, '/') + 1))
        }),
{
    let clean = clean_relative(rel)->0;
    let list = names(path_parts(rel));
    let whole = joined_path(base, clean);
    let stem = if base.last() == '/' {
        base.drop_last()
    } else {
        base
    };
    law_clean_path_keeps_components(rel);
    lemma_segments_joined(list);
    assert(whole =~= stem.push('/') + clean);
    lemma_segments_join(stem, clean);
    let k = last_index(whole, '/');
    lemma_last_index(whole, '/');
    lemma_slash_before_last(whole, stem.len() as int);
    let head = whole.take(k);
    let tail = whole.skip(k + 1);
    assert(whole =~= head.push('/') + tail);
    lemma_segments_join(head, tail);
    lemma_segments_single(tail);
    assert(segments(whole).last() == tail);
    assert(segments(whole).last() == list.last());
    assert(is_plain_name(list[list.len() - 1]));
}

/// A slash at `i` is not behind the last slash.
pub(crate) proof fn lemma_slash_before_last(s: Seq<char>, i: int)
    requires
        0 <= i < s.len(),
        s[i] == '/',
    ensures
        last_index(s, '/') >= i,
    decreases s.len(),
{
    if s.last() != '/' {
        assert(s.drop_last()[i] == s[i]);
        lemma_slash_before_last(s.drop_last(), i);
    }
}

/// Where a path ends in a plain name behind a slash that is not its first character, what stands
/// before that slash has the same components but for the last.
pub proof fn law_path_without_last(s: Seq<char>)
    requires
        last_index(s, '/') > 0,
        is_plain_name(s.skip(last_index(s, '/') + 1)),
    ensures
        path_parts(s.take(last_index(s, '/'))) == path_parts(s).drop_last(),
{
    let k = last_index(s, '/');
    lemma_last_index(s, '/');
    let head = s.take(k);
    let tail = s.skip(k + 1);
    assert(s =~= head.push('/') + tail);
    lemma_segments_join(head, tail);
    lemma_segments_single(tail);
    lemma_segment_parts_concat(segments(head), segments(tail));
    assert(lead_part(s) =~= lead_part(head));
    reveal_with_fuel(segment_parts, 2);
    assert(seq![tail].drop_last() =~= Seq::<Seq<char>>::empty());
    let last = segment_parts(seq![tail]);
    assert(path_parts(s) =~= path_parts(head) + last);
}

/// The components of a path, read segment by segment. A path without a slash is one component, or
/// none where it is empty. Behind a slash an empty segment and a single dot add nothing, two dots add
/// a step upwards, and any other segment adds itself as a name. A slash with nothing before it is the
/// root.
pub proof fn law_components_one_by_one(x: Seq<char>, seg: Seq<char>)
    requires
        !seg.contains('/'),
    ensures
        path_parts(seg) == (if seg.len() == 0 {
            Seq::<Part>::empty()
        } else if seg == seq!['.'] {
            seq![Part::CurDir]
        } else if seg == seq!['.', '.'] {
            seq![Part::ParentDir]
        } else {
            seq![Part::Normal(seg)]
        }),
        path_parts(x.push('/') + seg) == (if x.len() == 0 {
            seq![Part::RootDir]
        } else {
            path_parts(x)
        }) + (if seg.len() == 0 || seg == seq!['.'] {
            Seq::<Part>::empty()
        } else if seg == seq!['.', '.'] {
            seq![Part::ParentDir]
        } else {
            seq![Part::Normal(seg)]
        }),
{
    reveal_with_fuel(segment_parts, 2);
    lemma_segments_single(seg);
    let one = seq![seg];
    assert(one.drop_last() =~= Seq::<Seq<char>>::empty());
    if seg.len() > 0 {
        assert(seg.contains(seg[0]));
    }
    if seg.len() > 1 {
        assert(seg.contains(seg[1]));
    }
    assert(leading_dot(seg) <==> seg == seq!['.']) by {
        if leading_dot(seg) {
            assert(seg =~= seq!['.']);
        }
    }
    assert(seq!['.', '.'].len() == 2 && seq!['.'].len() == 1);
    assert(path_parts(seg) =~= (if seg.len() == 0 {
        Seq::<Part>::empty()
    } else if seg == seq!['.'] {
        seq![Part::CurDir]
    } else if seg == seq!['.', '.'] {
        seq![Part::ParentDir]
    } else {
        seq![Part::Normal(seg)]
    }));
    let whole = x.push('/') + seg;
    lemma_segments_join(x, seg);
    lemma_segment_parts_concat(segments(x), one);
    if x.len() == 0 {
        assert(segments(x) =~= seq![Seq::<char>::empty()]);
        assert(segments(x).drop_last() =~= Seq::<Seq<char>>::empty());
        assert(segment_parts(segments(x)) =~= Seq::<Part>::empty());
        assert(lead_part(whole) =~= seq![Part::RootDir]);
    } else {
        assert(lead_part(whole) =~= lead_part(x));
    }
    assert(path_parts(whole) =~= (if x.len() == 0 {
        seq![Part::RootDir]
    } else {
        path_parts(x)
    }) + segment_parts(one));
}

/// A path is split into its components, in order.
pub proof fn law_split_in_order(path: &str, res: Vec<Component>)
    requires
        call_ensures(components, (path,), res),
    ensures
        res@.len() == path_parts(path@).len(),
        forall|i: int|
            0 <= i < res@.len() ==> match #[trigger] res@[i] {
                Component::RootDir => path_parts(path@)[i] == Part::RootDir,
                Component::CurDir => path_parts(path@)[i] == Part::CurDir,
                Component::ParentDir => path_parts(path@)[i] == Part::ParentDir,
                Component::Normal(name) => path_parts(path@)[i] == Part::Normal(name@),
            },
{
    assert(views(res@).len() == res@.len());
    assert forall|i: int| 0 <= i < res@.len() implies match #[trigger] res@[i] {
        Component::RootDir => path_parts(path@)[i] == Part::RootDir,
        Component::CurDir => path_parts(path@)[i] == Part::CurDir,
        Component::ParentDir => path_parts(path@)[i] == Part::ParentDir,
        Component::Normal(name) => path_parts(path@)[i] == Part::Normal(name@),
    } by {
        assert(views(res@)[i] == res@[i]@);
    }
}

proof fn lemma_some_component(s: Seq<char>)
    requires
        s.len() > 0,
    ensures
        path_parts(s).len() > 0,
    decreases s.len(),
{
    let k = last_index(s, '/');
    law_last_place(s, '/');
    if k < 0 {
        assert(!s.contains('/'));
        law_components_one_by_one(s, s);
    } else {
        let x = s.take(k);
        let seg = s.skip(k + 1);
        assert(!seg.contains('/')) by {
            if seg.contains('/') {
                let j = choose|j: int| 0 <= j < seg.len() && seg[j] == '/';
                assert(s[k + 1 + j] == '/');
            }
        }
        assert(s =~= x.push('/') + seg);
        law_components_one_by_one(x, seg);
        if k > 0 {
            lemma_some_component(x);
        }
    }
}

/// An uploaded path is cleaned segment by segment, up to 1024 bytes. A single name is kept as it is.
/// Behind a clean path, an empty segment and a single dot are dropped, and any other name is kept
/// behind one slash. Two dots, and whatever follows a path that cannot be cleaned, are refused; so
/// are an empty path, a lone dot, and every path beyond 1024 bytes.
pub proof fn law_cleaned_one_by_one(
    before: &str,
    whole: &str,
    seg: &str,
    of_before: Option<String>,
    of_whole: Option<String>,
    of_seg: Option<String>,
)
    requires
        call_ensures(sanitize_upload_rel, (before,), of_before),
        call_ensures(sanitize_upload_rel, (whole,), of_whole),
        call_ensures(sanitize_upload_rel, (seg,), of_seg),
        !seg@.contains('/'),
        whole@ == before@.push('/') + seg@,
    ensures
        encode_utf8(whole@).len() > 1024 ==> of_whole is None,
        encode_utf8(seg@).len() > 1024 ==> of_seg is None,
        encode_utf8(seg@).len() <= 1024 ==> {
            &&& of_seg is Some <==> seg@.len() > 0 && seg@ != seq!['.'] && seg@ != seq!['.', '.']
            &&& of_seg is Some ==> of_seg->0@ == seg@
        },
        encode_utf8(whole@).len() <= 1024 ==> {
            &&& of_whole is Some <==> of_before is Some && seg@ != seq!['.', '.']
            &&& of_whole is Some ==> of_whole->0@ == (if seg@.len() == 0 || seg@ == seq!['.'] {
                of_before->0@
            } else {
                of_before->0@.push('/') + seg@
            })
        },
{
    let x = before@;
    let y = seg@;
    let w = whole@;
    law_components_one_by_one(x, y);
    assert(seq!['.', '.'].len() == 2 && seq!['.'].len() == 1);
    lemma_encode_concat(x.push('/'), y);
    assert(x.push('/') =~= x + seq!['/']);
    lemma_encode_concat(x, seq!['/']);
    if encode_utf8(y).len() <= 1024 {
        let parts = path_parts(y);
        if y.len() > 0 && (y == seq!['.'] || y == seq!['.', '.']) {
            assert(!(parts[0] is Normal));
        } else if y.len() > 0 {
            assert(all_normal(parts));
            assert(names(parts) =~= seq![y]);
            assert(joined(names(parts)) == y);
        }
    }
    if encode_utf8(w).len() <= 1024 {
        let px = path_parts(x);
        let pw = path_parts(w);
        if x.len() == 0 {
            assert(pw[0] == Part::RootDir);
            assert(!(pw[0] is Normal));
        } else {
            lemma_some_component(x);
            if clean_relative(x) is None {
                let i = choose|i: int| 0 <= i < px.len() && !((#[trigger] px[i]) is Normal);
                assert(pw[i] == px[i]);
                assert(!(pw[i] is Normal));
            } else if y == seq!['.', '.'] {
                assert(pw[px.len() as int] == Part::ParentDir);
                assert(!(pw[px.len() as int] is Normal));
            } else if y.len() == 0 || y == seq!['.'] {
                assert(pw =~= px);
            } else {
                assert forall|i: int| 0 <= i < pw.len() implies (#[trigger] pw[i]) is Normal by {
                    if i < px.len() {
                        assert(pw[i] == px[i]);
                        assert(px[i] is Normal);
                    }
                }
                assert(names(pw) =~= names(px).push(y));
                assert(names(px).push(y).drop_last() =~= names(px));
            }
        }
    }
}

/// Joining keeps both paths letter for letter, with one slash between them unless there is one or
/// nothing comes before it. An absolute path stands alone.
pub proof fn law_join_letter_for_letter(base: &str, rel: &str, res: String)
    requires
        call_ensures(join_path, (base, rel), res),
    ensures
        res@ == joined_path(base@, rel@),
        rel@.len() > 0 && rel@[0] == '/' ==> res@ == rel@,
        rel@.len() == 0 || rel@[0] != '/' ==> {
            &&& base@.len() == 0 ==> res@ == rel@
            &&& base@.len() > 0 && base@.last() == '/' ==> res@ == base@ + rel@
            &&& base@.len() > 0 && base@.last() != '/' ==> res@ == base@ + seq!['/'] + rel@
        },
{
    assert(base@ + rel@ =~= rel@ || base@.len() > 0);
    assert(base@.push('/') =~= base@ + seq!['/']);
}

/// A path lies within a directory exactly where its components are those of the directory, followed
/// by any others; names are compared as a whole.
pub proof fn law_within_by_components(path: &str, root: &str, res: bool)
    requires
        call_ensures(path_within, (path, root), res),
    ensures
        res == is_within(path@, root@),
        res <==> exists|rest: Seq<Part>| path_parts(path@) == #[trigger] (path_parts(root@) + rest),
{
    let p = path_parts(path@);
    let r = path_parts(root@);
    if res {
        assert(p =~= r + p.skip(r.len() as int));
    }
    if exists|rest: Seq<Part>| p == #[trigger] (r + rest) {
        let rest = choose|rest: Seq<Part>| p == #[trigger] (r + rest);
        assert((r + rest).subrange(0, r.len() as int) =~= r);
    }
}

} // verus!
