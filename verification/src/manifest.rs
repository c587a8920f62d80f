//! Editing the project manifest: setting the version of a dependency.

use vstd::prelude::*;
use toml_edit::{DocumentMut, TomlError};

verus! {

#[verifier::external_type_specification]
#[verifier::external_body]
pub struct ExTomlError(toml_edit::TomlError);

/// Whether toml_edit accepts `text` as a TOML document.
pub uninterp spec fn toml_accepts(text: Seq<char>) -> bool;

/// Whether, in the TOML document `text`, the entry `key` of the entry
/// `table` of the root is a table or an inline table.
pub uninterp spec fn toml_table_like(text: Seq<char>, table: Seq<char>, key: Seq<char>) -> bool;

/// The TOML document `text` with the string `value` set under `field` in
/// the table-like entry `key` of the root entry `table`, written out again.
pub uninterp spec fn toml_with_string(
    text: Seq<char>,
    table: Seq<char>,
    key: Seq<char>,
    field: Seq<char>,
    value: Seq<char>,
) -> Seq<char>;

/// Trusted: `<DocumentMut as FromStr>::from_str`. Claims only that it fails
/// exactly where `toml_accepts` says; the parser is deterministic, so the
/// name depends on the text alone.
#[verifier::external_body]
fn toml_parse(text: &str) -> (r: Result<(), TomlError>)
    ensures
        r is Err <==> !toml_accepts(text@),
{
    text.parse::<DocumentMut>().map(|_| ())
}

/// Trusted: `Item::is_table_like` on the entry `key` of the entry `table`
/// of the parsed document (reached with `Table::get` and `Item::get`, which
/// give `None` where the entry is missing or `table` is not a table). The
/// result depends on the arguments alone and is named `toml_table_like`.
#[verifier::external_body]
fn toml_entry_is_table_like(text: &str, table: &str, key: &str) -> (b: bool)
    requires
        toml_accepts(text@),
    ensures
        b == toml_table_like(text@, table@, key@),
{
    let doc = text.parse::<DocumentMut>().expect("accepted by the precondition");
    match doc.get(table) {
        Some(entries) => match entries.get(key) {
            Some(entry) => entry.is_table_like(),
            None => false,
        },
        None => false,
    }
}

/// Trusted: `TableLike::insert` of `toml_edit::value(value)` under `field`
/// in the table-like entry `key` of `table` (reached by indexing the parsed
/// document and `Item::as_table_like_mut`, which the precondition makes
/// succeed), and the document's `Display`. The result depends on the
/// arguments alone and is named `toml_with_string`.
#[verifier::external_body]
fn toml_set_string(text: &str, table: &str, key: &str, field: &str, value: &str) -> (s: String)
    requires
        toml_accepts(text@),
        toml_table_like(text@, table@, key@),
    ensures
        s@ == toml_with_string(text@, table@, key@, field@, value@),
{
    let mut doc = text.parse::<DocumentMut>().expect("accepted by the precondition");
    doc[table][key].as_table_like_mut().expect("table-like by the precondition").insert(field, toml_edit::value(value));
    doc.to_string()
}

/// Why a manifest could not be edited.
#[derive(Debug)]
pub enum ManifestError {
    /// The manifest is not a TOML document; the parser's error.
    Parse(TomlError),
    /// The dependency is missing, or it is not a table.
    DependencyNotFound,
}

impl ManifestError {
    /// The message that the command line shows for this error.
    pub fn message(&self) -> (m: &'static str)
        ensures
            self is Parse ==> m@ == "could not parse Cargo.toml"@,
            self is DependencyNotFound ==> m@
                == "detaxine-ui dependency not found or not a table in Cargo.toml"@,
    {
        match self {
            ManifestError::Parse(_) => "could not parse Cargo.toml",
            ManifestError::DependencyNotFound => "detaxine-ui dependency not found or not a table in Cargo.toml",
        }
    }
}

/// The root table that lists the dependencies.
pub const DEPENDENCIES_TABLE: &'static str = "dependencies";

/// The field of a dependency that holds its version.
pub const VERSION_FIELD: &'static str = "version";

/// Sets `version` on the entry `dependency` of the `dependencies` table of
/// the manifest `contents`, and returns the edited manifest: `Parse` where
/// the text is not TOML, `DependencyNotFound` where that entry is not a
/// table or an inline table, and the edited text otherwise.
pub fn set_dependency_version(contents: &str, dependency: &str, version: &str) -> (r: Result<String, ManifestError>)
    ensures
        r matches Err(ManifestError::Parse(_)) <==> !toml_accepts(contents@),
        toml_accepts(contents@) ==> (r matches Err(ManifestError::DependencyNotFound) <==> !toml_table_like(
            contents@,
            DEPENDENCIES_TABLE@,
            dependency@,
        )),
        r matches Ok(edited) ==> edited@ == toml_with_string(
            contents@,
            DEPENDENCIES_TABLE@,
            dependency@,
            VERSION_FIELD@,
            version@,
        ),
{
    match toml_parse(contents) {
        Err(e) => Err(ManifestError::Parse(e)),
        Ok(()) => {
            if !toml_entry_is_table_like(contents, DEPENDENCIES_TABLE, dependency) {
                Err(ManifestError::DependencyNotFound)
            } else {
                Ok(toml_set_string(contents, DEPENDENCIES_TABLE, dependency, VERSION_FIELD, version))
            }
        },
    }
}

/// The dependency whose version the command line bumps.
pub const COMPONENT_LIBRARY: &'static str = "detaxine-ui";

/// Points the `detaxine-ui` dependency of the manifest `contents` at
/// `version`, and returns the edited manifest.
pub fn bump_detaxine_ui_manifest(contents: &str, version: &str) -> (r: Result<String, ManifestError>)
    ensures
        r matches Err(ManifestError::Parse(_)) <==> !toml_accepts(contents@),
        toml_accepts(contents@) ==> (r matches Err(ManifestError::DependencyNotFound) <==> !toml_table_like(
            contents@,
            DEPENDENCIES_TABLE@,
            COMPONENT_LIBRARY@,
        )),
        r matches Ok(edited) ==> edited@ == toml_with_string(
            contents@,
            DEPENDENCIES_TABLE@,
            COMPONENT_LIBRARY@,
            VERSION_FIELD@,
            version@,
        ),
{
    set_dependency_version(contents, COMPONENT_LIBRARY, version)
}

} // verus!
