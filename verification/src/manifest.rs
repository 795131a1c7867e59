use vstd::prelude::*;

verus! {

use vstd::string::StringExecFns;

use crate::text::str_eq;
use crate::toml_api::manifest_tree_of;
use crate::toml_api::parse_manifest_text;

/// The shapes of a manifest value that dependency extraction distinguishes:
/// a plain string, a table of named sub-values, or anything else.
pub enum ManifestValue {
    Str(String),
    Table(Vec<(String, ManifestValue)>),
    Other,
}

/// One declared dependency: its name and the declared version, where an
/// empty version stands for "unspecified".
#[derive(Debug)]
pub struct DependencyDeclaration {
    pub name: String,
    pub version: String,
}

impl View for DependencyDeclaration {
    type V = (Seq<char>, Seq<char>);

    open spec fn view(&self) -> (Seq<char>, Seq<char>) {
        (self.name@, self.version@)
    }
}

/// Why extraction failed: the manifest text is not valid TOML, or it has no
/// top-level `workspace` table.
#[derive(Debug)]
pub enum ExtractError {
    Parse,
    MissingWorkspace,
}

impl ExtractError {
    pub open spec fn spec_message(&self) -> Seq<char> {
        match self {
            ExtractError::Parse => "manifest is not valid TOML"@,
            ExtractError::MissingWorkspace => "manifest has no workspace table"@,
        }
    }

    /// A displayable description of the failure.
    pub fn message(&self) -> (r: String)
        ensures
            r@ == self.spec_message(),
    {
        match self {
            ExtractError::Parse => String::from_str("manifest is not valid TOML"),
            ExtractError::MissingWorkspace => String::from_str("manifest has no workspace table"),
        }
    }
}

/// The first value bound to `key` in a table's entries, if any.
pub open spec fn spec_table_lookup(entries: Seq<(String, ManifestValue)>, key: Seq<char>) -> Option<
    ManifestValue,
>
    decreases entries.len(),
{
    if entries.len() == 0 {
        None
    } else if entries[0].0@ == key {
        Some(entries[0].1)
    } else {
        spec_table_lookup(entries.drop_first(), key)
    }
}

/// The version that a dependency entry's value declares: an empty version
/// for a plain string (the inline shorthand's content is deliberately not
/// read) and for any other non-table shape; for a table, the string bound
/// to its `version` key, or `None` (entry dropped) when there is none.
pub open spec fn spec_entry_version(v: ManifestValue) -> Option<Seq<char>> {
    match v {
        ManifestValue::Str(_) => Some(Seq::empty()),
        ManifestValue::Table(t) => match spec_table_lookup(t@, "version"@) {
            Some(ManifestValue::Str(s)) => Some(s@),
            _ => None,
        },
        ManifestValue::Other => Some(Seq::empty()),
    }
}

/// What one entry contributes to the extracted sequence: one pair, or
/// nothing when the entry is dropped.
pub open spec fn spec_entry_contrib(name: String, v: ManifestValue) -> Seq<(Seq<char>, Seq<char>)> {
    match spec_entry_version(v) {
        Some(ver) => seq![(name@, ver)],
        None => Seq::empty(),
    }
}

/// The dependencies extracted from a dependency table, in entry order.
pub open spec fn spec_deps_of_entries(entries: Seq<(String, ManifestValue)>) -> Seq<
    (Seq<char>, Seq<char>),
>
    decreases entries.len(),
{
    if entries.len() == 0 {
        Seq::empty()
    } else {
        spec_deps_of_entries(entries.drop_last()) + spec_entry_contrib(
            entries.last().0,
            entries.last().1,
        )
    }
}

/// The dependencies declared under a workspace value: those of its
/// `dependencies` table, or none when that key is absent or not a table.
pub open spec fn spec_workspace_deps(ws: ManifestValue) -> Seq<(Seq<char>, Seq<char>)> {
    match ws {
        ManifestValue::Table(wst) => match spec_table_lookup(wst@, "dependencies"@) {
            Some(ManifestValue::Table(d)) => spec_deps_of_entries(d@),
            _ => Seq::empty(),
        },
        _ => Seq::empty(),
    }
}

/// The outcome of extraction on a parse result: unparsable text fails, a
/// root without a `workspace` table fails, and otherwise the workspace's
/// dependencies are extracted.
pub open spec fn spec_extract(parsed: Option<ManifestValue>) -> Result<
    Seq<(Seq<char>, Seq<char>)>,
    ExtractError,
> {
    match parsed {
        None => Err(ExtractError::Parse),
        Some(root) => match root {
            ManifestValue::Table(top) => match spec_table_lookup(top@, "workspace"@) {
                Some(ws) => Ok(spec_workspace_deps(ws)),
                None => Err(ExtractError::MissingWorkspace),
            },
            _ => Err(ExtractError::MissingWorkspace),
        },
    }
}

/// The view of an extracted dependency list.
pub open spec fn deps_view(ds: Seq<DependencyDeclaration>) -> Seq<(Seq<char>, Seq<char>)> {
    ds.map_values(|d: DependencyDeclaration| d@)
}

/// Law: a dependency table extracts to a sequence no longer than its entry
/// count, since a table-valued entry without a string `version` contributes
/// nothing and every other entry contributes exactly one pair.
pub proof fn lemma_extracted_len_bounded(entries: Seq<(String, ManifestValue)>)
    ensures
        spec_deps_of_entries(entries).len() <= entries.len(),
    decreases entries.len(),
{
    if entries.len() == 0 {
    } else {
        lemma_extracted_len_bounded(entries.drop_last());
    }
}

/// Law: a workspace whose `dependencies` table has some number of entries
/// never yields more extracted dependencies than that.
pub proof fn lemma_workspace_deps_len_bounded(
    wst: Vec<(String, ManifestValue)>,
    d: Vec<(String, ManifestValue)>,
)
    requires
        spec_table_lookup(wst@, "dependencies"@) == Some(ManifestValue::Table(d)),
    ensures
        spec_workspace_deps(ManifestValue::Table(wst)).len() <= d@.len(),
{
    lemma_extracted_len_bounded(d@);
}

/// Law: an entry whose value is a table binding `version` to a string
/// extracts to exactly that entry's name paired with that string.
pub proof fn lemma_table_entry_extracts_version(
    name: String,
    t: Vec<(String, ManifestValue)>,
    ver: String,
)
    requires
        spec_table_lookup(t@, "version"@) == Some(ManifestValue::Str(ver)),
    ensures
        spec_entry_contrib(name, ManifestValue::Table(t)) == seq![(name@, ver@)],
{
    assert(spec_entry_version(ManifestValue::Table(t)) == Some(ver@));
    assert(spec_entry_contrib(name, ManifestValue::Table(t)) =~= seq![(name@, ver@)]);
}

/// Law: an entry whose value is a plain string extracts to that entry's name
/// paired with the empty version, whatever the string's content.
pub proof fn lemma_string_entry_extracts_empty_version(name: String, s: String)
    ensures
        spec_entry_contrib(name, ManifestValue::Str(s)) == seq![(name@, Seq::<char>::empty())],
{
    assert(spec_entry_contrib(name, ManifestValue::Str(s)) =~= seq![
        (name@, Seq::<char>::empty()),
    ]);
}

/// Law: an empty dependency table extracts to the empty sequence.
pub proof fn lemma_empty_table_extracts_nothing()
    ensures
        spec_deps_of_entries(Seq::empty()) == Seq::<(Seq<char>, Seq<char>)>::empty(),
{
}

/// The first value bound to `key` in a table's entries, if any.
fn table_lookup<'a>(entries: &'a Vec<(String, ManifestValue)>, key: &str) -> (r: Option<
    &'a ManifestValue,
>)
    ensures
        r is Some <==> spec_table_lookup(entries@, key@) is Some,
        r is Some ==> *r->0 == spec_table_lookup(entries@, key@)->0,
{
    let n = entries.len();
    proof {
        assert(entries@.skip(0) =~= entries@);
    }
    let mut i: usize = 0;
    while i < n
        invariant
            n == entries@.len(),
            i <= n,
            spec_table_lookup(entries@.skip(i as int), key@) == spec_table_lookup(
                entries@,
                key@,
            ),
        decreases n - i,
    {
        let pair = &entries[i];
        proof {
            assert(entries@.skip(i as int)[0] == entries@[i as int]);
        }
        if str_eq(pair.0.as_str(), key) {
            return Some(&pair.1);
        }
        proof {
            assert(entries@.skip(i as int).drop_first() =~= entries@.skip(i as int + 1));
        }
        i += 1;
    }
    proof {
        assert(entries@.skip(n as int) =~= Seq::<(String, ManifestValue)>::empty());
    }
    None
}

/// The version a dependency entry's value declares, or `None` when the
/// entry is to be dropped.
fn entry_version(v: &ManifestValue) -> (r: Option<String>)
    ensures
        r is Some <==> spec_entry_version(*v) is Some,
        r is Some ==> r->0@ == spec_entry_version(*v)->0,
{
    match v {
        ManifestValue::Str(_) => Some(String::new()),
        ManifestValue::Table(t) => match table_lookup(t, "version") {
            Some(ManifestValue::Str(s)) => Some(s.clone()),
            _ => None,
        },
        ManifestValue::Other => Some(String::new()),
    }
}

/// The dependencies of a dependency table, one entry at a time, in order.
fn deps_of_entries(entries: &Vec<(String, ManifestValue)>) -> (r: Vec<DependencyDeclaration>)
    ensures
        deps_view(r@) == spec_deps_of_entries(entries@),
{
    let n = entries.len();
    let mut acc: Vec<DependencyDeclaration> = Vec::new();
    proof {
        assert(deps_view(acc@) =~= spec_deps_of_entries(entries@.take(0)));
    }
    let mut i: usize = 0;
    while i < n
        invariant
            n == entries@.len(),
            i <= n,
            deps_view(acc@) == spec_deps_of_entries(entries@.take(i as int)),
        decreases n - i,
    {
        let pair = &entries[i];
        match entry_version(&pair.1) {
            Some(version) => {
                let dep = DependencyDeclaration { name: pair.0.clone(), version };
                acc.push(dep);
            },
            None => {},
        }
        proof {
            let prefix = entries@.take(i as int);
            let next = entries@.take(i as int + 1);
            assert(next.drop_last() =~= prefix);
            assert(next.last() == entries@[i as int]);
            assert(deps_view(acc@) =~= spec_deps_of_entries(next));
        }
        i += 1;
    }
    proof {
        assert(entries@.take(n as int) =~= entries@);
    }
    acc
}

/// The dependencies declared under a workspace value.
fn workspace_deps(ws: &ManifestValue) -> (r: Vec<DependencyDeclaration>)
    ensures
        deps_view(r@) == spec_workspace_deps(*ws),
{
    let empty_case: Vec<DependencyDeclaration> = Vec::new();
    proof {
        assert(deps_view(empty_case@) =~= Seq::<(Seq<char>, Seq<char>)>::empty());
    }
    match ws {
        ManifestValue::Table(wst) => match table_lookup(wst, "dependencies") {
            Some(ManifestValue::Table(d)) => deps_of_entries(d),
            _ => empty_case,
        },
        _ => empty_case,
    }
}

/// Extracts the dependencies that a manifest text declares under its
/// workspace's `dependencies` table: for each entry, the name together with
/// the string bound to the `version` key of a table-shaped value, an empty
/// version for every other kept shape, and no pair at all for a
/// table-shaped value without a string `version`. Text that is not valid
/// TOML, or a manifest without a `workspace` table, is rejected.
pub fn get_rust_deps(text: &str) -> (r: Result<Vec<DependencyDeclaration>, ExtractError>)
    ensures
        match r {
            Ok(deps) => spec_extract(manifest_tree_of(text@)) == Ok::<
                Seq<(Seq<char>, Seq<char>)>,
                ExtractError,
            >(deps_view(deps@)),
            Err(e) => spec_extract(manifest_tree_of(text@)) == Err::<
                Seq<(Seq<char>, Seq<char>)>,
                ExtractError,
            >(e),
        },
{
    match parse_manifest_text(text) {
        None => Err(ExtractError::Parse),
        Some(root) => match &root {
            ManifestValue::Table(top) => match table_lookup(top, "workspace") {
                Some(ws) => Ok(workspace_deps(ws)),
                None => Err(ExtractError::MissingWorkspace),
            },
            _ => Err(ExtractError::MissingWorkspace),
        },
    }
}

} // verus!
