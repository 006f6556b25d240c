//! The manifest editor: reads a TOML manifest into a document, edits the
//! workspace member list or the dependency table, and writes the whole
//! document back.
//!
//! Documents are `toml::Value`s, whose contents Verus does not see. What the
//! editor relies on is stated over names for what toml's accessors return.

use crate::deps::chars_of;
use crate::error::CacheError;
use crate::unique::{dedup_names, texts, with_member};
use vstd::prelude::*;
use vstd::string::StringExecFns;

verus! {

#[verifier::external_type_specification]
#[verifier::external_body]
pub struct ExTomlValue(toml::Value);

#[verifier::external_type_specification]
#[verifier::external_body]
#[verifier::reject_recursive_types(K)]
#[verifier::reject_recursive_types(V)]
pub struct ExTomlMap<K, V>(toml::map::Map<K, V>);

#[verifier::external_type_specification]
#[verifier::external_body]
pub struct ExTomlParseError(toml::de::Error);

#[verifier::external_type_specification]
#[verifier::external_body]
pub struct ExTomlWriteError(toml::ser::Error);

/// The most characters `[`, `{` and `.` that a manifest may hold. toml reads
/// and writes nested values by recursion, one stack frame or more per level,
/// so nesting is bounded; a manifest past the bound is taken as corrupted. At
/// this bound reading and writing fit in a 2 MiB thread stack.
pub const MAX_NESTING_MARKS: usize = 256;

/// A character that every level of nesting below the top-level table needs:
/// `[` opens an array or a table header, `{` an inline table, `.` a dotted key.
pub open spec fn is_nesting_mark(c: char) -> bool {
    c == '[' || c == '{' || c == '.'
}

/// The number of nesting marks in a text.
pub open spec fn nesting_marks(t: Seq<char>) -> nat
    decreases t.len(),
{
    if t.len() == 0 {
        0
    } else {
        nesting_marks(t.drop_last()) + if is_nesting_mark(t.last()) {
            1nat
        } else {
            0nat
        }
    }
}

/// The nesting depth of a `toml::Value`: 0 for a string, number, boolean or
/// date; for an array or a table, one more than the deepest of its elements,
/// and 1 when it has none.
pub uninterp spec fn toml_depth(v: toml::Value) -> nat;

/// The nesting depth of a `toml::value::Table`, as for the value that holds it.
pub uninterp spec fn table_depth(t: toml::value::Table) -> nat;

/// The deepest of a list of values, 0 when there is none.
pub open spec fn max_depth(a: Seq<toml::Value>) -> nat
    decreases a.len(),
{
    if a.len() == 0 {
        0
    } else {
        let m = max_depth(a.drop_last());
        let d = toml_depth(a.last());
        if m >= d {
            m
        } else {
            d
        }
    }
}

/// The document that toml reads from a text, if the text is valid TOML.
pub uninterp spec fn toml_parse(text: Seq<char>) -> Option<toml::Value>;

/// The text that toml writes for a document, if it can write it.
pub uninterp spec fn toml_render(doc: toml::Value) -> Option<Seq<char>>;

/// What `toml::Value::as_table` gives for a value: its table, if it is a table.
pub uninterp spec fn toml_table(v: toml::Value) -> Option<toml::value::Table>;

/// What `toml::Value::as_array` gives for a value: its elements, if it is an array.
pub uninterp spec fn toml_array(v: toml::Value) -> Option<Seq<toml::Value>>;

/// What `toml::Value::as_str` gives for a value: its text, if it is a string.
pub uninterp spec fn toml_str(v: toml::Value) -> Option<Seq<char>>;

/// The entries of a `toml::map::Map`, by key.
pub uninterp spec fn table_entries(t: toml::value::Table) -> Map<Seq<char>, toml::Value>;

/// Relies on `<toml::Value as FromStr>::from_str` (`toml::from_str`): the document
/// that a text holds, or an error where it is not TOML; a function of the text.
/// The parser recurses once per level of nesting, so the text's nesting is
/// bounded; every level below the top-level table takes a nesting mark.
#[verifier::external_body]
fn parse_toml(text: &str) -> (r: Result<toml::Value, toml::de::Error>)
    requires
        nesting_marks(text@) <= MAX_NESTING_MARKS,
    ensures
        match r {
            Ok(v) => toml_parse(text@) == Some(v),
            Err(_) => toml_parse(text@) is None,
        },
        r matches Ok(v) ==> toml_depth(v) <= nesting_marks(text@) + 1,
{
    text.parse::<toml::Value>()
}

/// Relies on `toml::to_string`: the text of a document, or an error where toml
/// cannot write it; a function of the document. The writer recurses once per
/// level of nesting, so the document's depth is bounded.
#[verifier::external_body]
fn render_toml(doc: &toml::Value) -> (r: Result<String, toml::ser::Error>)
    requires
        toml_depth(*doc) <= MAX_NESTING_MARKS + 1,
    ensures
        match r {
            Ok(s) => toml_render(*doc) == Some(s@),
            Err(_) => toml_render(*doc) is None,
        },
{
    toml::to_string(doc)
}

/// Relies on the `toml::Value::Table` variant: it holds the table that
/// `Value::as_table` gives, and only that variant gives one.
#[verifier::external_body]
fn into_table(v: toml::Value) -> (r: Option<toml::value::Table>)
    ensures
        r == toml_table(v),
        r matches Some(t) ==> table_depth(t) == toml_depth(v),
{
    match v {
        toml::Value::Table(t) => Some(t),
        _ => None,
    }
}

/// Relies on the `toml::Value::Array` variant: it holds the elements that
/// `Value::as_array` gives, and only that variant gives them.
#[verifier::external_body]
fn into_array(v: toml::Value) -> (r: Option<Vec<toml::Value>>)
    ensures
        match r {
            Some(a) => toml_array(v) == Some(a@),
            None => toml_array(v) is None,
        },
{
    match v {
        toml::Value::Array(a) => Some(a),
        _ => None,
    }
}

/// Relies on `toml::Value::as_str`: the text of a string value.
#[verifier::external_body]
fn value_as_str(v: &toml::Value) -> (r: Option<&str>)
    ensures
        match r {
            Some(s) => toml_str(*v) == Some(s@),
            None => toml_str(*v) is None,
        },
{
    v.as_str()
}

/// Relies on the `toml::Value::Table` variant: `Value::as_table` gives back the table.
#[verifier::external_body]
fn table_value(t: toml::value::Table) -> (r: toml::Value)
    ensures
        toml_table(r) == Some(t),
        toml_depth(r) == table_depth(t),
{
    toml::Value::Table(t)
}

/// Relies on the `toml::Value::Array` variant: `Value::as_array` gives back the elements.
#[verifier::external_body]
fn array_value(a: Vec<toml::Value>) -> (r: toml::Value)
    ensures
        toml_array(r) == Some(a@),
        toml_depth(r) == max_depth(a@) + 1,
{
    toml::Value::Array(a)
}

/// Relies on the `toml::Value::String` variant: `Value::as_str` gives back the text.
#[verifier::external_body]
fn string_value(s: String) -> (r: toml::Value)
    ensures
        toml_str(r) == Some(s@),
        toml_depth(r) == 0,
{
    toml::Value::String(s)
}

/// Relies on `toml::map::Map::remove`: returns the entry of a key, if any, and
/// drops it from the map.
#[verifier::external_body]
fn table_remove(t: &mut toml::value::Table, key: &str) -> (r: Option<toml::Value>)
    ensures
        r == table_entries(*old(t)).get(key@),
        table_entries(*final(t)) == table_entries(*old(t)).remove(key@),
        r matches Some(v) ==> toml_depth(v) < table_depth(*old(t)),
        table_depth(*final(t)) <= table_depth(*old(t)),
{
    t.remove(key)
}

/// Relies on `toml::map::Map::insert`: sets the entry of a key, replacing any
/// earlier one.
#[verifier::external_body]
fn table_insert(t: &mut toml::value::Table, key: String, v: toml::Value)
    ensures
        table_entries(*final(t)) == table_entries(*old(t)).insert(key@, v),
        table_depth(*final(t)) <= table_depth(*old(t)) || table_depth(*final(t)) <= toml_depth(v) + 1,
{
    t.insert(key, v);
}


/// The key of the workspace table of the root manifest.
pub open spec fn workspace_key() -> Seq<char> {
    "workspace"@
}

/// The key of the member list inside the workspace table.
pub open spec fn members_key() -> Seq<char> {
    "members"@
}

/// The key of the dependency table of a unit manifest.
pub open spec fn dependencies_key() -> Seq<char> {
    "dependencies"@
}

/// The version requirement that every extracted dependency gets: any version.
pub open spec fn any_version() -> Seq<char> {
    "*"@
}

/// The table under `key` in `t`, if there is one.
pub open spec fn sub_table(t: toml::value::Table, key: Seq<char>) -> Option<toml::value::Table> {
    if table_entries(t).dom().contains(key) {
        toml_table(table_entries(t)[key])
    } else {
        None
    }
}

/// The texts of a list of values, if every one of them is a string.
pub open spec fn strings_of(a: Seq<toml::Value>) -> Option<Seq<Seq<char>>> {
    if forall|i: int| 0 <= i < a.len() ==> (#[trigger] toml_str(a[i])) is Some {
        Some(Seq::new(a.len(), |i: int| toml_str(a[i])->0))
    } else {
        None
    }
}

/// The member list of a workspace manifest: the strings of `workspace.members`.
pub open spec fn workspace_members(doc: toml::Value) -> Option<Seq<Seq<char>>> {
    match toml_table(doc) {
        Some(root) => match sub_table(root, workspace_key()) {
            Some(ws) => if table_entries(ws).dom().contains(members_key()) {
                match toml_array(table_entries(ws)[members_key()]) {
                    Some(a) => strings_of(a),
                    None => None,
                }
            } else {
                None
            },
            None => None,
        },
        None => None,
    }
}

/// The dependency table of a unit manifest.
pub open spec fn dependency_table(doc: toml::Value) -> Option<toml::value::Table> {
    match toml_table(doc) {
        Some(root) => sub_table(root, dependencies_key()),
        None => None,
    }
}

/// `b` has the entries of `a`, but perhaps for `key`.
pub open spec fn same_except(a: toml::value::Table, b: toml::value::Table, key: Seq<char>) -> bool {
    table_entries(a).remove(key) == table_entries(b).remove(key)
}

/// `new_doc` is `doc` with the member list set to `members` and nothing else changed.
pub open spec fn members_replaced(doc: toml::Value, new_doc: toml::Value, members: Seq<Seq<char>>) -> bool {
    &&& workspace_members(new_doc) == Some(members)
    &&& toml_table(doc) matches Some(ra)
    &&& toml_table(new_doc) matches Some(rb)
    &&& same_except(ra, rb, workspace_key())
    &&& sub_table(ra, workspace_key()) matches Some(wa)
    &&& sub_table(rb, workspace_key()) matches Some(wb)
    &&& same_except(wa, wb, members_key())
}

/// `new_doc` is `doc` with every name of `names` in its dependency table at
/// any version, and nothing else changed.
pub open spec fn dependencies_added(doc: toml::Value, new_doc: toml::Value, names: Seq<Seq<char>>) -> bool {
    &&& toml_table(doc) matches Some(ra)
    &&& toml_table(new_doc) matches Some(rb)
    &&& same_except(ra, rb, dependencies_key())
    &&& dependency_table(doc) matches Some(da)
    &&& dependency_table(new_doc) matches Some(db)
    &&& forall|k: Seq<char>| #[trigger] table_entries(db).dom().contains(k)
        <==> table_entries(da).dom().contains(k) || names.contains(k)
    &&& forall|k: Seq<char>| names.contains(k)
        ==> toml_str(#[trigger] table_entries(db)[k]) == Some(any_version())
    &&& forall|k: Seq<char>| !names.contains(k) && table_entries(da).dom().contains(k)
        ==> #[trigger] table_entries(db)[k] == table_entries(da)[k]
}

/// The document of a manifest text: what toml reads from it, where it is
/// valid TOML and within the bound on nesting.
pub open spec fn manifest_doc(text: Seq<char>) -> Option<toml::Value> {
    if nesting_marks(text) <= MAX_NESTING_MARKS {
        toml_parse(text)
    } else {
        None
    }
}

/// The larger of a document's depth and 3, the depth of a workspace manifest
/// with its member list.
pub open spec fn depth_after_edit(doc: toml::Value) -> nat {
    if toml_depth(doc) >= 3 {
        toml_depth(doc)
    } else {
        3
    }
}

/// The number of nesting marks in a text.
fn count_nesting_marks(text: &str) -> (r: usize)
    ensures
        r == nesting_marks(text@),
{
    let t = chars_of(text);
    let mut count: usize = 0;
    let mut i: usize = 0;
    while i < t.len()
        invariant
            t@ == text@,
            i <= t@.len(),
            count <= i,
            count == nesting_marks(t@.take(i as int)),
        decreases t@.len() - i,
    {
        assert(t@.take(i as int + 1).drop_last() =~= t@.take(i as int));
        let c = t[i];
        if c == '[' || c == '{' || c == '.' {
            count += 1;
        }
        i += 1;
    }
    assert(t@.take(t@.len() as int) =~= t@);
    count
}

/// Reads a manifest; text that is not TOML, or is nested past the bound, is a
/// corrupted manifest.
pub fn read_manifest(text: &str) -> (r: Result<toml::Value, CacheError>)
    ensures
        match manifest_doc(text@) {
            Some(doc) => r == Ok::<toml::Value, CacheError>(doc),
            None => r == Err::<toml::Value, CacheError>(CacheError::ManifestCorruption),
        },
        r matches Ok(doc) ==> toml_depth(doc) <= MAX_NESTING_MARKS + 1,
{
    if count_nesting_marks(text) > MAX_NESTING_MARKS {
        return Err(CacheError::ManifestCorruption);
    }
    match parse_toml(text) {
        Ok(doc) => Ok(doc),
        Err(_) => Err(CacheError::ManifestCorruption),
    }
}

/// Writes a whole manifest back as text.
pub fn write_manifest(doc: &toml::Value) -> (r: Result<String, CacheError>)
    requires
        toml_depth(*doc) <= MAX_NESTING_MARKS + 1,
    ensures
        match toml_render(*doc) {
            Some(text) => r matches Ok(s) && s@ == text,
            None => r == Err::<String, CacheError>(CacheError::ManifestCorruption),
        },
{
    match render_toml(doc) {
        Ok(text) => Ok(text),
        Err(_) => Err(CacheError::ManifestCorruption),
    }
}

/// The texts of a list of values, if every one of them is a string.
fn texts_of_values(a: &Vec<toml::Value>) -> (r: Option<Vec<String>>)
    ensures
        match strings_of(a@) {
            Some(s) => r matches Some(v) && texts(v@) == s,
            None => r is None,
        },
{
    let mut out: Vec<String> = Vec::new();
    let mut i: usize = 0;
    while i < a.len()
        invariant
            i <= a@.len(),
            out@.len() == i,
            forall|j: int| 0 <= j < i ==> toml_str(a@[j]) == Some(#[trigger] out@[j]@),
        decreases a@.len() - i,
    {
        match value_as_str(&a[i]) {
            Some(s) => {
                out.push(s.to_owned());
            },
            None => {
                return None;
            },
        }
        i += 1;
    }
    assert forall|j: int| 0 <= j < a@.len() implies (#[trigger] toml_str(a@[j])) is Some by {
        assert(toml_str(a@[j]) == Some(out@[j]@));
    }
    assert(texts(out@) =~= Seq::new(a@.len(), |j: int| toml_str(a@[j])->0));
    Some(out)
}

/// String values of the given texts, in order.
fn string_values(names: &Vec<String>) -> (r: Vec<toml::Value>)
    ensures
        strings_of(r@) == Some(texts(names@)),
        max_depth(r@) == 0,
{
    let mut out: Vec<toml::Value> = Vec::new();
    let mut i: usize = 0;
    while i < names.len()
        invariant
            i <= names@.len(),
            out@.len() == i,
            forall|j: int| 0 <= j < i ==> #[trigger] toml_str(out@[j]) == Some(names@[j]@),
            max_depth(out@) == 0,
        decreases names@.len() - i,
    {
        let ghost before = out@;
        out.push(string_value(names[i].clone()));
        assert(out@.drop_last() =~= before);
        i += 1;
    }
    assert(Seq::new(out@.len(), |j: int| toml_str(out@[j])->0) =~= texts(names@));
    out
}

/// Registers `name` in the member list of a workspace manifest: repeats
/// already in the list are dropped, and `name` is appended unless present.
pub fn add_workspace_member(doc: toml::Value, name: &String) -> (r: Result<toml::Value, CacheError>)
    ensures
        match workspace_members(doc) {
            Some(m) => r matches Ok(new_doc) && members_replaced(doc, new_doc, with_member(m, name@)),
            None => r == Err::<toml::Value, CacheError>(CacheError::ManifestCorruption),
        },
        r matches Ok(new_doc) ==> toml_depth(new_doc) <= depth_after_edit(doc),
{
    let ghost d = doc;
    let mut root = match into_table(doc) {
        Some(t) => t,
        None => return Err(CacheError::ManifestCorruption),
    };
    let ghost ra = root;
    let ws_value = match table_remove(&mut root, "workspace") {
        Some(v) => v,
        None => return Err(CacheError::ManifestCorruption),
    };
    let mut ws = match into_table(ws_value) {
        Some(t) => t,
        None => return Err(CacheError::ManifestCorruption),
    };
    let ghost wa = ws;
    let members_value = match table_remove(&mut ws, "members") {
        Some(v) => v,
        None => return Err(CacheError::ManifestCorruption),
    };
    let values = match into_array(members_value) {
        Some(a) => a,
        None => return Err(CacheError::ManifestCorruption),
    };
    let mut members = match texts_of_values(&values) {
        Some(m) => m,
        None => return Err(CacheError::ManifestCorruption),
    };
    let ghost old_members = texts(members@);
    members.push(name.clone());
    assert(texts(members@) =~= old_members.push(name@));
    let unique = dedup_names(&members);
    table_insert(&mut ws, String::from_str("members"), array_value(string_values(&unique)));
    table_insert(&mut root, String::from_str("workspace"), table_value(ws));
    let new_doc = table_value(root);
    proof {
        let rb = root;
        let wb = ws;
        assert(table_entries(ra).remove(workspace_key()) =~= table_entries(rb).remove(workspace_key()));
        assert(table_entries(wa).remove(members_key()) =~= table_entries(wb).remove(members_key()));
        assert(members_replaced(d, new_doc, with_member(old_members, name@)));
    }
    Ok(new_doc)
}


/// Adds every name of `names` to the dependency table of a unit manifest, at
/// any version.
pub fn add_dependencies(doc: toml::Value, names: &Vec<String>) -> (r: Result<toml::Value, CacheError>)
    ensures
        match dependency_table(doc) {
            Some(_) => r matches Ok(new_doc) && dependencies_added(doc, new_doc, texts(names@)),
            None => r == Err::<toml::Value, CacheError>(CacheError::ManifestCorruption),
        },
        r matches Ok(new_doc) ==> toml_depth(new_doc) <= depth_after_edit(doc),
{
    let ghost d = doc;
    let mut root = match into_table(doc) {
        Some(t) => t,
        None => return Err(CacheError::ManifestCorruption),
    };
    let ghost ra = root;
    let deps_value = match table_remove(&mut root, "dependencies") {
        Some(v) => v,
        None => return Err(CacheError::ManifestCorruption),
    };
    let mut deps = match into_table(deps_value) {
        Some(t) => t,
        None => return Err(CacheError::ManifestCorruption),
    };
    let ghost da = deps;
    let mut i: usize = 0;
    while i < names.len()
        invariant
            i <= names@.len(),
            forall|k: Seq<char>| #[trigger] table_entries(deps).dom().contains(k)
                <==> table_entries(da).dom().contains(k) || texts(names@).take(i as int).contains(k),
            forall|k: Seq<char>| texts(names@).take(i as int).contains(k)
                ==> toml_str(#[trigger] table_entries(deps)[k]) == Some(any_version()),
            forall|k: Seq<char>| !texts(names@).take(i as int).contains(k) && table_entries(da).dom().contains(k)
                ==> #[trigger] table_entries(deps)[k] == table_entries(da)[k],
            table_depth(deps) <= table_depth(da) || table_depth(deps) <= 1,
        decreases names@.len() - i,
    {
        let ghost prev = texts(names@).take(i as int);
        let ghost next = texts(names@).take(i as int + 1);
        assert(next =~= prev.push(names@[i as int]@));
        assert forall|k: Seq<char>| next.contains(k) <==> prev.contains(k) || k == names@[i as int]@ by {
            if next.contains(k) {
                let j = choose|j: int| 0 <= j < next.len() && next[j] == k;
                if j < prev.len() {
                    assert(prev[j] == k);
                }
            }
            if prev.contains(k) {
                let j = choose|j: int| 0 <= j < prev.len() && prev[j] == k;
                assert(next[j] == k);
            }
            if k == names@[i as int]@ {
                assert(next[i as int] == k);
            }
        }
        table_insert(&mut deps, names[i].clone(), string_value(String::from_str("*")));
        i += 1;
    }
    assert(texts(names@).take(names@.len() as int) =~= texts(names@));
    table_insert(&mut root, String::from_str("dependencies"), table_value(deps));
    let new_doc = table_value(root);
    proof {
        let rb = root;
        assert(table_entries(ra).remove(dependencies_key()) =~= table_entries(rb).remove(dependencies_key()));
        assert(dependency_table(new_doc) == Some(deps));
    }
    Ok(new_doc)
}

} // verus!
