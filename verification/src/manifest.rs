//! Manifest Dependency Reader: per module and group, the ordered declared
//! dependencies with their optionality flag, and the module-local ignore
//! names.  The structured-text parsing itself is an external collaborator
//! (toml_edit), specified at its interface boundary.

use vstd::prelude::*;
use crate::groups::DependencyGroup;
use crate::groups::spec_dep_group;
use crate::groups::spec_ignore_group;

verus! {

/// One declared dependency, as read from a module's manifest.
#[derive(Debug)]
pub struct DependencyEntry {
    pub name: String,
    pub group: DependencyGroup,
    pub optional: bool,
}

/// The mathematical model of a declared dependency.
pub struct EntryModel {
    pub name: Seq<char>,
    pub group: DependencyGroup,
    pub optional: bool,
}

impl View for DependencyEntry {
    type V = EntryModel;

    open spec fn view(&self) -> EntryModel {
        EntryModel { name: self.name@, group: self.group, optional: self.optional }
    }
}

/// Whether the text is a well-formed manifest.
pub uninterp spec fn manifest_ok(text: Seq<char>) -> bool;

/// The ordered (name, optional) declaration pairs of the named top-level table.
pub uninterp spec fn manifest_deps(text: Seq<char>, table: Seq<char>) -> Seq<(Seq<char>, bool)>;

/// The names listed under the reserved per-module ignore table for a group key.
pub uninterp spec fn manifest_ignores(text: Seq<char>, group_key: Seq<char>) -> Seq<Seq<char>>;

pub open spec fn pairs_view(v: Seq<(String, bool)>) -> Seq<(Seq<char>, bool)> {
    v.map_values(|p: (String, bool)| (p.0@, p.1))
}

pub open spec fn names_view(v: Seq<String>) -> Seq<Seq<char>> {
    v.map_values(|s: String| s@)
}

/// Relies on toml_edit (`DocumentMut::from_str`, `DocumentMut::as_table`,
/// `Table::get`, `Item::as_table`, `Table::iter`, `Item::as_inline_table`,
/// `InlineTable::get`, `Value::as_bool`): parses the manifest text and lists,
/// in declaration order, the keys of the named top-level table, each with
/// whether its entry is an inline table whose `optional` key is boolean
/// `true`.  `None` exactly when the text is not well-formed TOML; an absent or
/// non-table table name yields the empty list.  The result depends on the text
/// and the table name alone.
#[verifier::external_body]
fn read_deps_raw(text: &str, table: &str) -> (r: Option<Vec<(String, bool)>>)
    ensures
        (r is Some) <==> manifest_ok(text@),
        (r matches Some(v) ==> pairs_view(v@) == manifest_deps(text@, table@)),
{
    let doc: toml_edit::DocumentMut = match text.parse() { Ok(d) => d, Err(_) => return None };
    let mut out: Vec<(String, bool)> = Vec::new();
    if let Some(t) = doc.as_table().get(table).and_then(toml_edit::Item::as_table) {
        for (k, v) in t.iter() {
            let optional = v.as_inline_table().and_then(|it| it.get("optional")).and_then(toml_edit::Value::as_bool).unwrap_or(false);
            out.push((k.to_owned(), optional));
        }
    }
    Some(out)
}

/// Relies on toml_edit (`DocumentMut::from_str`, `DocumentMut::as_table`,
/// `Table::get`, `Item::get`, `Item::as_array`, `Array::iter`,
/// `Value::as_str`): parses the manifest text and lists, in order, the string
/// entries of the array under `package.metadata.cargo-udeps.ignore.<group
/// key>`.  `None` exactly when the text is not well-formed TOML; a missing
/// path or a non-array yields the empty list, and non-string entries are
/// passed over.  The result depends on the text and the group key alone.
#[verifier::external_body]
fn read_ignores_raw(text: &str, group_key: &str) -> (r: Option<Vec<String>>)
    ensures
        (r is Some) <==> manifest_ok(text@),
        (r matches Some(v) ==> names_view(v@) == manifest_ignores(text@, group_key@)),
{
    let doc: toml_edit::DocumentMut = match text.parse() { Ok(d) => d, Err(_) => return None };
    let mut out: Vec<String> = Vec::new();
    let found = doc.as_table().get("package").and_then(|i| i.get("metadata")).and_then(
        |i| i.get("cargo-udeps")).and_then(|i| i.get("ignore")).and_then(|i| i.get(group_key));
    if let Some(arr) = found.and_then(toml_edit::Item::as_array) {
        for v in arr.iter() {
            if let Some(s) = v.as_str() { out.push(s.to_owned()); }
        }
    }
    Some(out)
}

/// Structural failure of the dependency manifest; fatal to the whole session.
#[derive(Clone, Copy, Debug, PartialEq, Eq, Structural)]
pub enum ManifestError {
    Invalid,
}

/// What one pass over a module reads for one group.
pub struct GroupReading {
    pub entries: Vec<DependencyEntry>,
    pub local_ignores: Vec<String>,
}

/// The entries the reader owes for one group of a well-formed manifest.
pub open spec fn spec_group_entries(text: Seq<char>, g: DependencyGroup) -> Seq<EntryModel> {
    manifest_deps(text, spec_dep_group(g)).map_values(
        |p: (Seq<char>, bool)| EntryModel { name: p.0, group: g, optional: p.1 },
    )
}

pub open spec fn entries_view(v: Seq<DependencyEntry>) -> Seq<EntryModel> {
    v.map_values(|e: DependencyEntry| e@)
}

/// Reads one group's pass worth of data from a module's manifest: the ordered
/// declarations of the group's table and the module-local ignore names for the
/// group.  Fails exactly when the text is not a well-formed manifest; a module
/// that does not declare the group yields an empty entry list.
pub fn read_group(text: &str, group: DependencyGroup) -> (r: Result<
    GroupReading,
    ManifestError,
>)
    ensures
        (r is Ok) <==> manifest_ok(text@),
        (r matches Ok(g) ==> entries_view(g.entries@) == spec_group_entries(text@, group)),
        (r matches Ok(g) ==> names_view(g.local_ignores@) == manifest_ignores(
            text@,
            spec_ignore_group(group),
        )),
{
    let raw = match read_deps_raw(text, group.dep_group()) {
        Some(v) => v,
        None => {
            return Err(ManifestError::Invalid);
        },
    };
    let local_ignores = match read_ignores_raw(text, group.ignore_group()) {
        Some(v) => v,
        None => {
            return Err(ManifestError::Invalid);
        },
    };
    let mut entries: Vec<DependencyEntry> = Vec::new();
    let mut i: usize = 0;
    while i < raw.len()
        invariant
            i <= raw.len(),
            pairs_view(raw@) == manifest_deps(text@, spec_dep_group(group)),
            entries@.len() == i,
            forall|j: int|
                0 <= j < i ==> #[trigger] entries@[j]@ == spec_group_entries(text@, group)[j],
        decreases raw.len() - i,
    {
        let name = raw[i].0.clone();
        let optional = raw[i].1;
        entries.push(DependencyEntry { name, group, optional });
        assert(pairs_view(raw@)[i as int] == (raw@[i as int].0@, raw@[i as int].1));
        i += 1;
    }
    proof {
        assert(entries_view(entries@) =~= spec_group_entries(text@, group));
    }
    Ok(GroupReading { entries, local_ignores })
}

} // verus!
