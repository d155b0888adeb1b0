//! The manifest model: a project's declared dependency list.
//!
//! A manifest is a TOML document with a single required top-level table
//! `dependencies`, mapping each dependency name to a record with the
//! required string fields `organization` and `version`. This adapter is
//! strict about the document shape: every top-level value must be a
//! table of tables of strings (a wrong-typed field is a syntax error
//! reported by the TOML reader), and `dependencies` must be present.
//! Entry fields beyond the two required ones are ignored.
//!
//! Reading the raw text is the `toml` crate's work, behind one trusted
//! wrapper that returns plain string tables; every schema decision —
//! which table is read, which fields are required, which error comes
//! back — is made in verified code. Table and entry names arrive in the
//! reader's order (sorted by name), so decoding is a function of the
//! document text alone; within a TOML table duplicate keys are a syntax
//! error, so "last write wins" never arises here.

use std::collections::BTreeMap;

use vstd::prelude::*;

use crate::decode::{DecodeError, DecodeErrorModel};
use crate::text::str_eq;

verus! {

/// Mathematical image of a [`TomlEntry`].
pub struct TomlEntryModel {
    pub name: Seq<char>,
    pub fields: Seq<(Seq<char>, Seq<char>)>,
}

/// Mathematical image of a [`TomlTable`].
pub struct TomlTableModel {
    pub name: Seq<char>,
    pub entries: Seq<TomlEntryModel>,
}

/// One entry of a top-level table: its name and its string fields, in
/// the reader's (sorted) key order.
pub struct TomlEntry {
    pub name: String,
    pub fields: Vec<(String, String)>,
}

/// One top-level table of the manifest document.
pub struct TomlTable {
    pub name: String,
    pub entries: Vec<TomlEntry>,
}

impl View for TomlEntry {
    type V = TomlEntryModel;

    open spec fn view(&self) -> TomlEntryModel {
        TomlEntryModel { name: self.name@, fields: self.fields.deep_view() }
    }
}

impl DeepView for TomlEntry {
    type V = TomlEntryModel;

    open spec fn deep_view(&self) -> TomlEntryModel {
        self.view()
    }
}

impl View for TomlTable {
    type V = TomlTableModel;

    open spec fn view(&self) -> TomlTableModel {
        TomlTableModel { name: self.name@, entries: self.entries.deep_view() }
    }
}

impl DeepView for TomlTable {
    type V = TomlTableModel;

    open spec fn deep_view(&self) -> TomlTableModel {
        self.view()
    }
}

/// What the TOML reader yields on a given document text: either every
/// top-level table with its entries and their string fields, or the
/// reader's diagnostic. The value is a function of the text alone.
pub uninterp spec fn toml_tables_of(s: Seq<char>) -> Result<Seq<TomlTableModel>, Seq<char>>;

/// Field keys within one entry are pairwise distinct.
pub open spec fn fields_distinct(fs: Seq<(Seq<char>, Seq<char>)>) -> bool {
    forall|i: int, j: int| 0 <= i < j < fs.len() ==> fs[i].0 != fs[j].0
}

/// Entry names within one table are pairwise distinct, as are the field
/// keys within each entry.
pub open spec fn entries_distinct(es: Seq<TomlEntryModel>) -> bool {
    &&& forall|i: int, j: int| 0 <= i < j < es.len() ==> es[i].name != es[j].name
    &&& forall|k: int| 0 <= k < es.len() ==> fields_distinct(#[trigger] es[k].fields)
}

/// Table names are pairwise distinct, and so are the names inside each
/// table, at every level — what a map-shaped reader guarantees.
pub open spec fn tables_distinct(ts: Seq<TomlTableModel>) -> bool {
    &&& forall|i: int, j: int| 0 <= i < j < ts.len() ==> ts[i].name != ts[j].name
    &&& forall|k: int| 0 <= k < ts.len() ==> entries_distinct(#[trigger] ts[k].entries)
}

/// Relies on `toml::from_str` of the `toml` crate, deserializing into
/// nested `BTreeMap`s of `String`: it decodes a TOML document whose
/// top-level values are tables of tables of strings, or reports the
/// reader's diagnostic. The result depends on the text alone, keys at
/// each level come out sorted and distinct (`BTreeMap` iteration
/// order), and a document of any other shape is an error.
#[verifier::external_body]
fn parse_toml_tables(s: &str) -> (r: Result<Vec<TomlTable>, String>)
    ensures
        r matches Ok(ts) ==> toml_tables_of(s@) matches Ok(m) && ts.deep_view() == m
            && tables_distinct(ts.deep_view()),
        r matches Err(msg) ==> toml_tables_of(s@) matches Err(em) && msg@ == em,
{
    let parsed: Result<BTreeMap<String, BTreeMap<String, BTreeMap<String, String>>>, toml::de::Error> =
        toml::from_str(s);
    match parsed {
        Ok(m) => Ok(
            m.into_iter().map(
                |(name, t)| TomlTable {
                    name,
                    entries: t.into_iter().map(
                        |(name, d)| TomlEntry { name, fields: d.into_iter().collect() },
                    ).collect(),
                },
            ).collect(),
        ),
        Err(e) => Err(e.to_string()),
    }
}

/// Mathematical image of a manifest [`Dependency`] record.
pub struct DependencyModel {
    pub organization: Seq<char>,
    pub version: Seq<char>,
}

/// One declared dependency: the organization (group) identifier and the
/// version, both opaque strings.
#[derive(Debug, PartialEq, Eq)]
pub struct Dependency {
    pub organization: String,
    pub version: String,
}

impl View for Dependency {
    type V = DependencyModel;

    open spec fn view(&self) -> DependencyModel {
        DependencyModel { organization: self.organization@, version: self.version@ }
    }
}

impl DeepView for Dependency {
    type V = DependencyModel;

    open spec fn deep_view(&self) -> DependencyModel {
        self.view()
    }
}

/// A project's declared dependencies: name → record, the names unique,
/// held in the reader's (sorted) order. Constructed once by decoding a
/// document and immutable thereafter.
#[derive(Debug, PartialEq, Eq)]
pub struct Manifest {
    pub dependencies: Vec<(String, Dependency)>,
}

impl View for Manifest {
    type V = Seq<(Seq<char>, DependencyModel)>;

    open spec fn view(&self) -> Seq<(Seq<char>, DependencyModel)> {
        self.dependencies.deep_view()
    }
}

/// Why loading a manifest file failed. The two kinds are never
/// conflated: an I/O failure means the input could not be obtained, a
/// decode failure means it was obtained but does not conform.
#[derive(Debug)]
pub enum ManifestLoadError {
    /// The file could not be read; wraps the underlying I/O failure.
    IoError { io_error: std::io::Error },
    /// The file was read but is not a well-formed manifest.
    DecodeError { decode_error: DecodeError },
}

/// `std::io::Error` carries the I/O diagnostic through unread; the
/// verifier sees it as an opaque value. Declares the type so that it
/// can stand in a field.
#[verifier::external_type_specification]
#[verifier::external_body]
pub struct ExIoError(std::io::Error);

impl From<std::io::Error> for ManifestLoadError {
    fn from(io_error: std::io::Error) -> (r: Self) {
        ManifestLoadError::IoError { io_error }
    }
}

impl vstd::std_specs::convert::FromSpecImpl<std::io::Error> for ManifestLoadError {
    open spec fn obeys_from_spec() -> bool {
        true
    }

    open spec fn from_spec(io_error: std::io::Error) -> Self {
        ManifestLoadError::IoError { io_error }
    }
}

impl From<DecodeError> for ManifestLoadError {
    fn from(decode_error: DecodeError) -> (r: Self) {
        ManifestLoadError::DecodeError { decode_error }
    }
}

impl vstd::std_specs::convert::FromSpecImpl<DecodeError> for ManifestLoadError {
    open spec fn obeys_from_spec() -> bool {
        true
    }

    open spec fn from_spec(decode_error: DecodeError) -> Self {
        ManifestLoadError::DecodeError { decode_error }
    }
}

/// Index of the first table with the given name at or after `k`.
pub open spec fn spec_find_table_from(ts: Seq<TomlTableModel>, name: Seq<char>, k: int) -> Option<
    int,
>
    decreases ts.len() - k,
{
    if !(0 <= k < ts.len()) {
        None
    } else if ts[k].name == name {
        Some(k)
    } else {
        spec_find_table_from(ts, name, k + 1)
    }
}

/// The first table with the given name, if any.
pub open spec fn spec_find_table(ts: Seq<TomlTableModel>, name: Seq<char>) -> Option<
    TomlTableModel,
> {
    match spec_find_table_from(ts, name, 0) {
        Some(k) => Some(ts[k]),
        None => None,
    }
}

/// Value of the first field with the given key at or after `k`.
pub open spec fn spec_field_from(
    fs: Seq<(Seq<char>, Seq<char>)>,
    key: Seq<char>,
    k: int,
) -> Option<Seq<char>>
    decreases fs.len() - k,
{
    if !(0 <= k < fs.len()) {
        None
    } else if fs[k].0 == key {
        Some(fs[k].1)
    } else {
        spec_field_from(fs, key, k + 1)
    }
}

/// The dependency record declared by one entry: requires the fields
/// `organization` and `version`; anything further is ignored.
pub open spec fn spec_dep_of_entry(e: TomlEntryModel) -> Result<
    (Seq<char>, DependencyModel),
    DecodeErrorModel,
> {
    match spec_field_from(e.fields, "organization"@, 0) {
        None => Err(DecodeErrorModel::MissingKey { key: "organization"@ }),
        Some(org) => match spec_field_from(e.fields, "version"@, 0) {
            None => Err(DecodeErrorModel::MissingKey { key: "version"@ }),
            Some(ver) => Ok((e.name, DependencyModel { organization: org, version: ver })),
        },
    }
}

/// The dependency records of the entries from index `k` on, in order;
/// the first ill-formed entry decides the error.
pub open spec fn spec_deps_from(es: Seq<TomlEntryModel>, k: int) -> Result<
    Seq<(Seq<char>, DependencyModel)>,
    DecodeErrorModel,
>
    decreases es.len() - k,
{
    if !(0 <= k < es.len()) {
        Ok(Seq::empty())
    } else {
        match spec_dep_of_entry(es[k]) {
            Err(e) => Err(e),
            Ok(d) => match spec_deps_from(es, k + 1) {
                Err(e) => Err(e),
                Ok(rest) => Ok(seq![d] + rest),
            },
        }
    }
}

/// What the manifest schema makes of the decoded tables: the entries of
/// the required `dependencies` table, each with its two required
/// fields.
pub open spec fn spec_manifest_of(ts: Seq<TomlTableModel>) -> Result<
    Seq<(Seq<char>, DependencyModel)>,
    DecodeErrorModel,
> {
    match spec_find_table(ts, "dependencies"@) {
        None => Err(DecodeErrorModel::MissingKey { key: "dependencies"@ }),
        Some(t) => spec_deps_from(t.entries, 0),
    }
}

fn find_table_from(ts: &Vec<TomlTable>, name: &str, k: usize) -> (r: Option<usize>)
    requires
        k <= ts@.len(),
    ensures
        match r {
            Some(x) => spec_find_table_from(ts.deep_view(), name@, k as int) == Some(x as int)
                && x < ts@.len(),
            None => spec_find_table_from(ts.deep_view(), name@, k as int) is None,
        },
    decreases ts@.len() - k,
{
    if k >= ts.len() {
        None
    } else if str_eq(ts[k].name.as_str(), name) {
        Some(k)
    } else {
        find_table_from(ts, name, k + 1)
    }
}

fn field_from(fs: &Vec<(String, String)>, key: &str, k: usize) -> (r: Option<String>)
    requires
        k <= fs@.len(),
    ensures
        match r {
            Some(v) => spec_field_from(fs.deep_view(), key@, k as int) == Some(v@),
            None => spec_field_from(fs.deep_view(), key@, k as int) is None,
        },
    decreases fs@.len() - k,
{
    if k >= fs.len() {
        None
    } else if str_eq(fs[k].0.as_str(), key) {
        Some(fs[k].1.clone())
    } else {
        field_from(fs, key, k + 1)
    }
}

fn dep_of_entry(e: &TomlEntry) -> (r: Result<(String, Dependency), DecodeError>)
    ensures
        match r {
            Ok(d) => spec_dep_of_entry(e@) == Ok::<_, DecodeErrorModel>((d.0@, d.1@)),
            Err(err) => spec_dep_of_entry(e@) == Err::<(Seq<char>, DependencyModel), _>(err@),
        },
{
    match field_from(&e.fields, "organization", 0) {
        None => Err(DecodeError::missing("organization")),
        Some(org) => match field_from(&e.fields, "version", 0) {
            None => Err(DecodeError::missing("version")),
            Some(ver) => Ok((e.name.clone(), Dependency { organization: org, version: ver })),
        },
    }
}

fn deps_from(es: &Vec<TomlEntry>, k: usize) -> (r: Result<Vec<(String, Dependency)>, DecodeError>)
    requires
        k <= es@.len(),
    ensures
        match r {
            Ok(ds) => spec_deps_from(es.deep_view(), k as int) == Ok::<_, DecodeErrorModel>(
                ds.deep_view(),
            ),
            Err(err) => spec_deps_from(es.deep_view(), k as int) == Err::<
                Seq<(Seq<char>, DependencyModel)>,
                _,
            >(err@),
        },
    decreases es@.len() - k,
{
    if k >= es.len() {
        let out: Vec<(String, Dependency)> = Vec::new();
        proof {
            assert(out.deep_view() =~= Seq::<(Seq<char>, DependencyModel)>::empty());
        }
        Ok(out)
    } else {
        match dep_of_entry(&es[k]) {
            Err(e) => Err(e),
            Ok(d) => match deps_from(es, k + 1) {
                Err(e) => Err(e),
                Ok(rest) => {
                    let ghost dv = (d.0@, d.1@);
                    let ghost restv = rest.deep_view();
                    let mut out = rest;
                    out.insert(0, d);
                    proof {
                        assert(out.deep_view() =~= seq![dv] + restv);
                    }
                    Ok(out)
                },
            },
        }
    }
}

/// The record under the first occurrence of `name` at or after `k`.
pub open spec fn spec_lookup_from(
    ds: Seq<(Seq<char>, DependencyModel)>,
    name: Seq<char>,
    k: int,
) -> Option<DependencyModel>
    decreases ds.len() - k,
{
    if !(0 <= k < ds.len()) {
        None
    } else if ds[k].0 == name {
        Some(ds[k].1)
    } else {
        spec_lookup_from(ds, name, k + 1)
    }
}

/// The record a manifest declares under `name`, if any.
pub open spec fn spec_lookup(ds: Seq<(Seq<char>, DependencyModel)>, name: Seq<char>) -> Option<
    DependencyModel,
> {
    spec_lookup_from(ds, name, 0)
}

fn lookup_from<'a>(deps: &'a Vec<(String, Dependency)>, name: &str, k: usize) -> (r: Option<
    &'a Dependency,
>)
    requires
        k <= deps@.len(),
    ensures
        match r {
            Some(d) => spec_lookup_from(deps.deep_view(), name@, k as int) == Some(d@),
            None => spec_lookup_from(deps.deep_view(), name@, k as int) is None,
        },
    decreases deps@.len() - k,
{
    if k >= deps.len() {
        None
    } else if str_eq(deps[k].0.as_str(), name) {
        Some(&deps[k].1)
    } else {
        lookup_from(deps, name, k + 1)
    }
}

/// Holds exactly when `r` is what decoding the manifest text `s` must
/// yield: the reader's outcome on `s`, put through the manifest schema.
/// A failure is always the decode kind, never the I/O kind.
pub open spec fn decode_result_spec(s: Seq<char>, r: Result<Manifest, ManifestLoadError>) -> bool {
    match toml_tables_of(s) {
        Ok(ts) => match spec_manifest_of(ts) {
            Ok(ds) => r matches Ok(m) && m@ == ds,
            Err(e) => r matches Err(le) && le matches ManifestLoadError::DecodeError {
                decode_error,
            } && decode_error@ == e,
        },
        Err(msg) => r matches Err(le) && le matches ManifestLoadError::DecodeError { decode_error }
            && decode_error@ == (DecodeErrorModel::Syntax { message: msg }),
    }
}

impl Manifest {
    /// Applies the manifest schema to decoded top-level tables: the
    /// `dependencies` table is required, and each of its entries must
    /// declare `organization` and `version`.
    pub fn from_tables(tables: &Vec<TomlTable>) -> (r: Result<Manifest, DecodeError>)
        ensures
            match r {
                Ok(m) => spec_manifest_of(tables.deep_view()) == Ok::<_, DecodeErrorModel>(m@),
                Err(e) => spec_manifest_of(tables.deep_view()) == Err::<
                    Seq<(Seq<char>, DependencyModel)>,
                    _,
                >(e@),
            },
    {
        match find_table_from(tables, "dependencies", 0) {
            None => Err(DecodeError::missing("dependencies")),
            Some(t) => match deps_from(&tables[t].entries, 0) {
                Ok(ds) => Ok(Manifest { dependencies: ds }),
                Err(e) => Err(e),
            },
        }
    }

    /// The record declared under `name`, if the manifest declares one.
    pub fn get(&self, name: &str) -> (r: Option<&Dependency>)
        ensures
            match r {
                Some(d) => spec_lookup(self@, name@) == Some(d@),
                None => spec_lookup(self@, name@) is None,
            },
    {
        lookup_from(&self.dependencies, name, 0)
    }

    /// Decodes a manifest document from its text.
    ///
    /// The result is pinned by [`decode_result_spec`]: the value the
    /// TOML reader and the schema assign to this text, or the error
    /// they report — always the decode kind. A second call on equal
    /// text yields an equal result
    /// ([`lemma_decode_deterministic`]).
    pub fn decode(text: &str) -> (r: Result<Manifest, ManifestLoadError>)
        ensures
            decode_result_spec(text@, r),
            r matches Err(le) ==> le is DecodeError,
    {
        match parse_toml_tables(text) {
            Ok(tables) => match Manifest::from_tables(&tables) {
                Ok(m) => Ok(m),
                Err(e) => Err(ManifestLoadError::DecodeError { decode_error: e }),
            },
            Err(message) => Err(
                ManifestLoadError::DecodeError { decode_error: DecodeError::Syntax { message } },
            ),
        }
    }
}

/// A suffix of entries that are all well formed decodes successfully.
proof fn lemma_deps_from_ok(es: Seq<TomlEntryModel>, k: int)
    requires
        0 <= k <= es.len(),
        forall|m: int| k <= m < es.len() ==> spec_dep_of_entry(#[trigger] es[m]) is Ok,
    ensures
        spec_deps_from(es, k) is Ok,
    decreases es.len() - k,
{
    if 0 <= k < es.len() {
        lemma_deps_from_ok(es, k + 1);
    }
}

/// A suffix of entries that decodes successfully yields one record per
/// entry, in order, each the record its entry declares.
proof fn lemma_deps_from_shape(es: Seq<TomlEntryModel>, k: int)
    requires
        0 <= k <= es.len(),
        spec_deps_from(es, k) is Ok,
    ensures
        spec_deps_from(es, k)->Ok_0.len() == es.len() - k,
        forall|m: int| 0 <= m < es.len() - k ==> spec_dep_of_entry(#[trigger] es[k + m]) is Ok,
        forall|m: int| 0 <= m < es.len() - k ==> #[trigger] spec_deps_from(es, k)->Ok_0[m]
            == spec_dep_of_entry(es[k + m])->Ok_0,
    decreases es.len() - k,
{
    if 0 <= k < es.len() {
        lemma_deps_from_shape(es, k + 1);
        let ds = spec_deps_from(es, k)->Ok_0;
        let rest = spec_deps_from(es, k + 1)->Ok_0;
        assert(ds == seq![spec_dep_of_entry(es[k])->Ok_0] + rest);
        assert forall|m: int| 0 <= m < es.len() - k implies spec_dep_of_entry(
            #[trigger] es[k + m],
        ) is Ok by {
            if m > 0 {
                assert(es[k + m] == es[(k + 1) + (m - 1)]);
            }
        }
        assert forall|m: int| 0 <= m < es.len() - k implies #[trigger] ds[m] == spec_dep_of_entry(
            es[k + m],
        )->Ok_0 by {
            if m == 0 {
                assert(ds[0] == spec_dep_of_entry(es[k])->Ok_0);
            } else {
                assert(ds[m] == rest[m - 1]);
                assert(es[k + m] == es[(k + 1) + (m - 1)]);
            }
        }
    }
}

/// For a decoded document whose `dependencies` table declares N
/// entries, each carrying the required `organization` and `version`
/// fields, the manifest holds exactly N records: the m-th under the
/// m-th declared name, with exactly the declared organization and
/// version strings.
pub proof fn lemma_manifest_entries(ts: Seq<TomlTableModel>, t: TomlTableModel)
    requires
        spec_find_table(ts, "dependencies"@) == Some(t),
        forall|m: int| 0 <= m < t.entries.len() ==> spec_field_from(
            (#[trigger] t.entries[m]).fields,
            "organization"@,
            0,
        ) is Some,
        forall|m: int| 0 <= m < t.entries.len() ==> spec_field_from(
            (#[trigger] t.entries[m]).fields,
            "version"@,
            0,
        ) is Some,
    ensures
        spec_manifest_of(ts) is Ok,
        spec_manifest_of(ts)->Ok_0.len() == t.entries.len(),
        forall|m: int| 0 <= m < t.entries.len() ==> (#[trigger] spec_manifest_of(
            ts,
        )->Ok_0[m]).0 == t.entries[m].name,
        forall|m: int| 0 <= m < t.entries.len() ==> (#[trigger] spec_manifest_of(
            ts,
        )->Ok_0[m]).1.organization == spec_field_from(
            t.entries[m].fields,
            "organization"@,
            0,
        ).unwrap(),
        forall|m: int| 0 <= m < t.entries.len() ==> (#[trigger] spec_manifest_of(
            ts,
        )->Ok_0[m]).1.version == spec_field_from(t.entries[m].fields, "version"@, 0).unwrap(),
{
    assert forall|m: int| 0 <= m < t.entries.len() implies spec_dep_of_entry(
        #[trigger] t.entries[m],
    ) is Ok by {
        assert(spec_field_from(t.entries[m].fields, "organization"@, 0) is Some);
        assert(spec_field_from(t.entries[m].fields, "version"@, 0) is Some);
    }
    lemma_deps_from_ok(t.entries, 0);
    lemma_deps_from_shape(t.entries, 0);
    assert(spec_manifest_of(ts) == spec_deps_from(t.entries, 0));
}

/// The decoded manifest is a genuine mapping: since entry names inside
/// a table are pairwise distinct (the reader's tables are maps), the
/// manifest holds exactly one record per declared name.
pub proof fn lemma_manifest_names_distinct(ts: Seq<TomlTableModel>, t: TomlTableModel)
    requires
        spec_find_table(ts, "dependencies"@) == Some(t),
        forall|i: int, j: int| 0 <= i < j < t.entries.len() ==> (#[trigger] t.entries[i]).name != (
        #[trigger] t.entries[j]).name,
        spec_manifest_of(ts) is Ok,
    ensures
        ({
            let ds = spec_manifest_of(ts)->Ok_0;
            forall|i: int, j: int| 0 <= i < j < ds.len() ==> (#[trigger] ds[i]).0 != (
            #[trigger] ds[j]).0
        }),
{
    lemma_deps_from_shape(t.entries, 0);
    let ds = spec_manifest_of(ts)->Ok_0;
    assert forall|i: int, j: int| 0 <= i < j < ds.len() implies (#[trigger] ds[i]).0 != (
    #[trigger] ds[j]).0 by {
        assert(ds[i] == spec_dep_of_entry(t.entries[i])->Ok_0);
        assert(ds[j] == spec_dep_of_entry(t.entries[j])->Ok_0);
        assert(ds[i].0 == t.entries[i].name);
        assert(ds[j].0 == t.entries[j].name);
    }
}

/// Entries at and after `j` decode to an error whenever the entry at
/// `k` is ill formed.
proof fn lemma_deps_from_err(es: Seq<TomlEntryModel>, j: int, k: int)
    requires
        0 <= j <= k < es.len(),
        spec_dep_of_entry(es[k]) is Err,
    ensures
        spec_deps_from(es, j) is Err,
    decreases k - j,
{
    if spec_dep_of_entry(es[j]) is Err {
    } else {
        lemma_deps_from_err(es, j + 1, k);
    }
}

/// A dependency entry that does not declare `version` makes the whole
/// decode fail: no partial manifest is ever produced.
pub proof fn lemma_missing_version_is_error(ts: Seq<TomlTableModel>, t: TomlTableModel, k: int)
    requires
        spec_find_table(ts, "dependencies"@) == Some(t),
        0 <= k < t.entries.len(),
        spec_field_from(t.entries[k].fields, "version"@, 0) is None,
    ensures
        spec_manifest_of(ts) is Err,
{
    assert(spec_dep_of_entry(t.entries[k]) is Err);
    lemma_deps_from_err(t.entries, 0, k);
}

/// Two load results agree: success together with equal decoded values,
/// or failure together with equal decode errors.
pub open spec fn load_results_agree(
    r1: Result<Manifest, ManifestLoadError>,
    r2: Result<Manifest, ManifestLoadError>,
) -> bool {
    &&& (r1 is Ok <==> r2 is Ok)
    &&& match (r1, r2) {
        (Ok(m1), Ok(m2)) => m1@ == m2@,
        (Err(e1), Err(e2)) => match (e1, e2) {
            (
                ManifestLoadError::DecodeError { decode_error: d1 },
                ManifestLoadError::DecodeError { decode_error: d2 },
            ) => d1@ == d2@,
            _ => false,
        },
        _ => true,
    }
}

/// Round-trip independence: decoding the same well-formed manifest text
/// twice yields equal `Manifest` values, and decoding the same
/// malformed text twice yields equal errors — the outcome is a function
/// of the text alone.
pub proof fn lemma_decode_deterministic(
    s: Seq<char>,
    r1: Result<Manifest, ManifestLoadError>,
    r2: Result<Manifest, ManifestLoadError>,
)
    requires
        decode_result_spec(s, r1),
        decode_result_spec(s, r2),
    ensures
        load_results_agree(r1, r2),
{
    match toml_tables_of(s) {
        Ok(ts) => {
            match spec_manifest_of(ts) {
                Ok(ds) => {},
                Err(e) => {},
            }
        },
        Err(msg) => {},
    }
}

} // verus!
