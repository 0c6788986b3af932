//! Reading of the package manifest.

use crate::error::{ManifestField, UploadError};
use crate::text::texts;
use crate::toml_table::{
    document_of, parse_table, shapes, table_entries, table_get, value_as_array, value_as_str,
    value_get, value_shape, TomlShape,
};
use vstd::prelude::*;

verus! {

/// What a key of the `package` table holds.
#[derive(Debug, Clone, PartialEq, Eq)]
pub enum Entry {
    /// The table has no such key.
    Absent,
    /// The key holds a string.
    Text(String),
    /// The key holds a value that is not a string.
    Other,
}

/// What the `authors` key of the `package` table holds.
#[derive(Debug, Clone, PartialEq, Eq)]
pub enum Authors {
    /// The table has no such key.
    Absent,
    /// The key holds an array of strings.
    Names(Vec<String>),
    /// The key holds anything else.
    Other,
}

/// The `package` table of a manifest, as far as the reader looks into it.
#[derive(Debug, Clone, PartialEq, Eq)]
pub struct PackageTable {
    pub name: Entry,
    pub version: Entry,
    pub license: Entry,
    pub authors: Authors,
}

/// A parsed manifest, as far as the reader looks into it.
#[derive(Debug, Clone, PartialEq, Eq)]
pub struct Manifest {
    /// The `package` entry, or `None` when the manifest has none. An entry
    /// that is not a table has no keys.
    pub package: Option<PackageTable>,
}

/// The package metadata that a manifest gives.
#[derive(Debug, Clone, PartialEq, Eq)]
pub struct PackageInfo {
    pub name: String,
    pub version: String,
    pub license: String,
    pub authors: Vec<String>,
}

/// The mathematical value of an `Entry`.
pub enum EntryView {
    Absent,
    Text(Seq<char>),
    Other,
}

/// The mathematical value of an `Authors`.
pub enum AuthorsView {
    Absent,
    Names(Seq<Seq<char>>),
    Other,
}

/// The mathematical value of a `PackageTable`.
pub struct PackageTableView {
    pub name: EntryView,
    pub version: EntryView,
    pub license: EntryView,
    pub authors: AuthorsView,
}

/// The mathematical value of a `PackageInfo`.
pub struct PackageInfoView {
    pub name: Seq<char>,
    pub version: Seq<char>,
    pub license: Seq<char>,
    pub authors: Seq<Seq<char>>,
}

impl View for Entry {
    type V = EntryView;

    open spec fn view(&self) -> EntryView {
        match self {
            Entry::Absent => EntryView::Absent,
            Entry::Text(text) => EntryView::Text(text@),
            Entry::Other => EntryView::Other,
        }
    }
}

impl View for Authors {
    type V = AuthorsView;

    open spec fn view(&self) -> AuthorsView {
        match self {
            Authors::Absent => AuthorsView::Absent,
            Authors::Names(names) => AuthorsView::Names(texts(names@)),
            Authors::Other => AuthorsView::Other,
        }
    }
}

impl View for PackageTable {
    type V = PackageTableView;

    open spec fn view(&self) -> PackageTableView {
        PackageTableView {
            name: self.name@,
            version: self.version@,
            license: self.license@,
            authors: self.authors@,
        }
    }
}

impl View for Manifest {
    type V = Option<PackageTableView>;

    open spec fn view(&self) -> Option<PackageTableView> {
        match self.package {
            Some(table) => Some(table@),
            None => None,
        }
    }
}

impl View for PackageInfo {
    type V = PackageInfoView;

    open spec fn view(&self) -> PackageInfoView {
        PackageInfoView {
            name: self.name@,
            version: self.version@,
            license: self.license@,
            authors: texts(self.authors@),
        }
    }
}

impl EntryView {
    /// The text that the entry stands for: its string, or the empty string
    /// when it holds none.
    pub open spec fn text(self) -> Seq<char> {
        match self {
            EntryView::Text(text) => text,
            _ => Seq::empty(),
        }
    }
}

impl AuthorsView {
    /// The author list that the entry stands for: its names, or the empty
    /// list when the key is absent.
    pub open spec fn names(self) -> Seq<Seq<char>> {
        match self {
            AuthorsView::Names(names) => names,
            _ => Seq::empty(),
        }
    }
}

/// The package metadata that a parsed manifest gives, or the reason why it
/// gives none. The parts are looked at in this order: the `package` entry,
/// its name, its version, its authors.
pub open spec fn package_outcome(manifest: Option<PackageTableView>) -> Result<
    PackageInfoView,
    UploadError,
> {
    match manifest {
        None => Err(UploadError::RequiredFieldMissing(ManifestField::Package)),
        Some(table) => if table.name is Absent {
            Err(UploadError::RequiredFieldMissing(ManifestField::Name))
        } else if table.version is Absent {
            Err(UploadError::RequiredFieldMissing(ManifestField::Version))
        } else if table.authors is Other {
            Err(UploadError::ManifestMalformed)
        } else {
            Ok(
                PackageInfoView {
                    name: table.name.text(),
                    version: table.version.text(),
                    license: table.license.text(),
                    authors: table.authors.names(),
                },
            )
        },
    }
}

/// What the key `key` of the `package` entry holds. An entry that is not a
/// table has no keys.
pub open spec fn entry_of(package: TomlShape, key: Seq<char>) -> EntryView {
    match package {
        TomlShape::Table(entries) => if !entries.contains_key(key) {
            EntryView::Absent
        } else {
            match entries[key] {
                TomlShape::Text(text) => EntryView::Text(text),
                _ => EntryView::Other,
            }
        },
        _ => EntryView::Absent,
    }
}

/// Every element of `items` is a string.
pub open spec fn all_strings(items: Seq<TomlShape>) -> bool {
    forall|i: int| 0 <= i < items.len() ==> #[trigger] items[i] is Text
}

/// The strings that the elements of `items` are.
pub open spec fn strings_of(items: Seq<TomlShape>) -> Seq<Seq<char>> {
    Seq::new(items.len(), |i: int| items[i]->Text_0)
}

/// What the `authors` key of the `package` entry holds.
pub open spec fn authors_of(package: TomlShape) -> AuthorsView {
    match package {
        TomlShape::Table(entries) => if !entries.contains_key("authors"@) {
            AuthorsView::Absent
        } else {
            match entries["authors"@] {
                TomlShape::List(items) => if all_strings(items) {
                    AuthorsView::Names(strings_of(items))
                } else {
                    AuthorsView::Other
                },
                _ => AuthorsView::Other,
            }
        },
        _ => AuthorsView::Absent,
    }
}

/// What the reader sees of a document with the top-level entries `entries`.
pub open spec fn manifest_of(entries: Map<Seq<char>, TomlShape>) -> Option<PackageTableView> {
    if !entries.contains_key("package"@) {
        None
    } else {
        let package = entries["package"@];
        Some(
            PackageTableView {
                name: entry_of(package, "name"@),
                version: entry_of(package, "version"@),
                license: entry_of(package, "license"@),
                authors: authors_of(package),
            },
        )
    }
}

/// The package metadata that the text of a manifest gives, or the reason why
/// it gives none.
pub open spec fn manifest_outcome(text: Seq<char>) -> Result<PackageInfoView, UploadError> {
    match document_of(text) {
        None => Err(UploadError::ManifestMalformed),
        Some(entries) => package_outcome(manifest_of(entries)),
    }
}

/// The document with the top-level entries `entries` has a `package` table.
pub open spec fn has_package_table(entries: Map<Seq<char>, TomlShape>) -> bool {
    entries.contains_key("package"@) && entries["package"@] is Table
}

/// A manifest without a `package` table gives no package metadata. The
/// reader fails with `ManifestMalformed` when the text is not a TOML
/// document, and with `RequiredFieldMissing` when it is one: for the package
/// when there is no `package` entry, for the name when that entry is not a
/// table.
pub proof fn lemma_package_table_is_required(text: Seq<char>)
    requires
        document_of(text) matches Some(entries) ==> !has_package_table(entries),
    ensures
        manifest_outcome(text) == (match document_of(text) {
            None => Err::<PackageInfoView, UploadError>(UploadError::ManifestMalformed),
            Some(entries) => if entries.contains_key("package"@) {
                Err(UploadError::RequiredFieldMissing(ManifestField::Name))
            } else {
                Err(UploadError::RequiredFieldMissing(ManifestField::Package))
            },
        }),
{
}

/// Looks up a key of the `package` entry.
fn read_entry(package: &toml::Value, key: &str) -> (r: Entry)
    ensures
        r@ == entry_of(value_shape(*package), key@),
{
    match value_get(package, key) {
        None => Entry::Absent,
        Some(value) => match value_as_str(value) {
            Some(text) => Entry::Text(text.to_owned()),
            None => Entry::Other,
        },
    }
}

/// Reads the elements of an array as strings; `None` when one of them is
/// not a string.
fn read_names(items: &Vec<toml::Value>) -> (r: Option<Vec<String>>)
    ensures
        match r {
            Some(names) => all_strings(shapes(items@)) && texts(names@) == strings_of(
                shapes(items@),
            ),
            None => !all_strings(shapes(items@)),
        },
{
    let mut names: Vec<String> = Vec::new();
    let mut i: usize = 0;
    while i < items.len()
        invariant
            i <= items.len(),
            names.len() == i,
            forall|j: int|
                0 <= j < i ==> value_shape(#[trigger] items@[j]) == TomlShape::Text(names@[j]@),
        decreases items.len() - i,
    {
        match value_as_str(&items[i]) {
            None => {
                proof {
                    assert(!(shapes(items@)[i as int] is Text));
                }
                return None;
            },
            Some(text) => {
                names.push(text.to_owned());
            },
        }
        i += 1;
    }
    proof {
        assert forall|j: int| 0 <= j < items.len() implies #[trigger] shapes(
            items@,
        )[j] is Text by {
            assert(value_shape(items@[j]) == TomlShape::Text(names@[j]@));
        }
        assert(texts(names@) =~= strings_of(shapes(items@)));
    }
    Some(names)
}

/// Looks up the author list of the `package` entry.
fn read_authors(package: &toml::Value) -> (r: Authors)
    ensures
        r@ == authors_of(value_shape(*package)),
{
    match value_get(package, "authors") {
        None => Authors::Absent,
        Some(value) => match value_as_array(value) {
            None => Authors::Other,
            Some(items) => match read_names(items) {
                Some(names) => Authors::Names(names),
                None => Authors::Other,
            },
        },
    }
}

/// Collects from a parsed document what the reader looks at.
fn read_table(table: &toml::Table) -> (r: Manifest)
    ensures
        r@ == manifest_of(table_entries(*table)),
{
    match table_get(table, "package") {
        None => Manifest { package: None },
        Some(package) => Manifest {
            package: Some(
                PackageTable {
                    name: read_entry(package, "name"),
                    version: read_entry(package, "version"),
                    license: read_entry(package, "license"),
                    authors: read_authors(package),
                },
            ),
        },
    }
}

/// Returns the text that an entry stands for.
fn entry_text(entry: Entry) -> (s: String)
    ensures
        s@ == entry@.text(),
{
    match entry {
        Entry::Text(text) => text,
        _ => String::new(),
    }
}

/// Derives the package metadata from a parsed manifest.
///
/// Fails with `RequiredFieldMissing` when the `package` entry, its name or
/// its version is absent, and with `ManifestMalformed` when the author list
/// is not an array of strings. A name, version or license that is not a
/// string counts as the empty string; an absent license is the empty string
/// and an absent author list is the empty list.
pub fn package_info(manifest: Manifest) -> (r: Result<PackageInfo, UploadError>)
    ensures
        match r {
            Ok(info) => package_outcome(manifest@) == Ok::<PackageInfoView, UploadError>(info@),
            Err(e) => package_outcome(manifest@) == Err::<PackageInfoView, UploadError>(e),
        },
{
    match manifest.package {
        None => Err(UploadError::RequiredFieldMissing(ManifestField::Package)),
        Some(table) => {
            if let Entry::Absent = table.name {
                return Err(UploadError::RequiredFieldMissing(ManifestField::Name));
            }
            if let Entry::Absent = table.version {
                return Err(UploadError::RequiredFieldMissing(ManifestField::Version));
            }
            let authors = match table.authors {
                Authors::Other => {
                    return Err(UploadError::ManifestMalformed);
                },
                Authors::Names(names) => names,
                Authors::Absent => {
                    let names: Vec<String> = Vec::new();
                    proof {
                        assert(texts(names@) == Seq::<Seq<char>>::empty());
                    }
                    names
                },
            };
            Ok(
                PackageInfo {
                    name: entry_text(table.name),
                    version: entry_text(table.version),
                    license: entry_text(table.license),
                    authors,
                },
            )
        },
    }
}

/// Parses the text of a manifest into what the reader looks at.
///
/// Fails with `ManifestMalformed` exactly when the text is not a TOML
/// document.
pub fn parse_manifest(text: &str) -> (r: Result<Manifest, UploadError>)
    ensures
        match r {
            Ok(manifest) => document_of(text@) matches Some(entries) && manifest@ == manifest_of(
                entries,
            ),
            Err(e) => document_of(text@) is None && e == UploadError::ManifestMalformed,
        },
{
    match parse_table(text) {
        Err(_) => Err(UploadError::ManifestMalformed),
        Ok(table) => Ok(read_table(&table)),
    }
}

/// Reads the package metadata from the text of a manifest.
///
/// Fails with `ManifestMalformed` when the text is not a TOML document, and
/// otherwise as `package_info` does.
pub fn read_manifest(text: &str) -> (r: Result<PackageInfo, UploadError>)
    ensures
        match r {
            Ok(info) => manifest_outcome(text@) == Ok::<PackageInfoView, UploadError>(info@),
            Err(e) => manifest_outcome(text@) == Err::<PackageInfoView, UploadError>(e),
        },
{
    match parse_manifest(text) {
        Err(e) => Err(e),
        Ok(manifest) => package_info(manifest),
    }
}

} // verus!
