//! Installed extensions: the manifest that lists them, and what can go wrong
//! with it.

use crate::json::{
    error_detail, get_text, items_of, json_document, json_items, parse_document, text_member,
};
use crate::text::push_text;
use crate::version::{Version, VersionError};
use vstd::prelude::*;

verus! {

/// What was looked for and is not there.
#[derive(Debug, Clone, PartialEq, Eq)]
pub enum NotFoundType {
    File(String),
    Directory(String),
    ProjectPath,
}

impl NotFoundType {
    /// What was looked for, in words.
    pub open spec fn spec_describe(self) -> Seq<char> {
        match self {
            NotFoundType::File(name) => "file `"@ + name@ + "`"@,
            NotFoundType::Directory(name) => "directory `"@ + name@ + "`"@,
            NotFoundType::ProjectPath => "project path"@,
        }
    }

    /// What was looked for, in words.
    pub fn describe(&self) -> (s: String)
        ensures
            s@ == self.spec_describe(),
    {
        let mut s = String::new();
        match self {
            NotFoundType::File(name) => {
                push_text(&mut s, "file `");
                push_text(&mut s, name.as_str());
                push_text(&mut s, "`");
            },
            NotFoundType::Directory(name) => {
                push_text(&mut s, "directory `");
                push_text(&mut s, name.as_str());
                push_text(&mut s, "`");
            },
            NotFoundType::ProjectPath => {
                push_text(&mut s, "project path");
            },
        }
        proof {
            assert(s@ =~= self.spec_describe());
        }
        s
    }
}

/// A failure in handling extensions.
#[derive(Debug, Clone, PartialEq, Eq)]
pub enum PluginError {
    NotFound(NotFoundType),
    AlreadyExists(String),
    InvalidFormat(String),
    ActionFailed(String),
}

impl PluginError {
    /// The line shown to the user for this failure.
    pub open spec fn spec_message(self) -> Seq<char> {
        match self {
            PluginError::NotFound(what) => what.spec_describe() + " not found"@,
            PluginError::AlreadyExists(detail) => "Failed to load plugin: "@ + detail@,
            PluginError::InvalidFormat(detail) => "Failed to load plugin: "@ + detail@,
            PluginError::ActionFailed(detail) => detail@,
        }
    }

    /// The line shown to the user for this failure.
    pub fn message(&self) -> (s: String)
        ensures
            s@ == self.spec_message(),
    {
        let mut s = String::new();
        match self {
            PluginError::NotFound(what) => {
                let described = what.describe();
                push_text(&mut s, described.as_str());
                push_text(&mut s, " not found");
            },
            PluginError::AlreadyExists(detail) => {
                push_text(&mut s, "Failed to load plugin: ");
                push_text(&mut s, detail.as_str());
            },
            PluginError::InvalidFormat(detail) => {
                push_text(&mut s, "Failed to load plugin: ");
                push_text(&mut s, detail.as_str());
            },
            PluginError::ActionFailed(detail) => {
                push_text(&mut s, detail.as_str());
            },
        }
        proof {
            assert(s@ =~= self.spec_message());
        }
        s
    }
}

/// One installed extension, as the manifest lists it.
#[derive(Debug, Clone, PartialEq, Eq)]
pub struct ExtensionManifest {
    pub name: String,
    pub version: Version,
    pub author: String,
    pub repository: String,
}

/// An `ExtensionManifest` with its texts as sequences of characters and its
/// version as three numbers.
pub struct ManifestView {
    pub name: Seq<char>,
    pub version: (u32, u32, u32),
    pub author: Seq<char>,
    pub repository: Seq<char>,
}

impl View for ExtensionManifest {
    type V = ManifestView;

    open spec fn view(&self) -> ManifestView {
        ManifestView {
            name: self.name@,
            version: (self.version.major(), self.version.minor(), self.version.patch()),
            author: self.author@,
            repository: self.repository@,
        }
    }
}

/// Why a value is no entry of the manifest.
#[derive(Debug, Clone, Copy, PartialEq, Eq, Structural)]
pub enum EntryFault {
    /// One of the four texts is missing, or is no text.
    MissingText,
    /// The text under `version` writes no version.
    Version(VersionError),
}

impl EntryFault {
    /// The fault in words.
    pub open spec fn spec_message(self) -> Seq<char> {
        match self {
            EntryFault::MissingText => "an extension lacks one of its texts"@,
            EntryFault::Version(e) => e.spec_message(),
        }
    }

    /// The fault in words.
    pub fn message(&self) -> (s: &'static str)
        ensures
            s@ == self.spec_message(),
    {
        match self {
            EntryFault::MissingText => "an extension lacks one of its texts",
            EntryFault::Version(e) => e.message(),
        }
    }
}

/// The entry that a value holds: the texts `name`, `version`, `author` and
/// `repository`, the version written as a version. Where it holds none, the
/// fault says why.
pub open spec fn entry_read(value: serde_json::Value) -> Result<ManifestView, EntryFault> {
    if text_member(value, "name"@) is None || text_member(value, "version"@) is None
        || text_member(value, "author"@) is None || text_member(value, "repository"@) is None {
        Err(EntryFault::MissingText)
    } else {
        match Version::read(text_member(value, "version"@)->Some_0) {
            Ok(numbers) => Ok(
                ManifestView {
                    name: text_member(value, "name"@)->Some_0,
                    version: numbers,
                    author: text_member(value, "author"@)->Some_0,
                    repository: text_member(value, "repository"@)->Some_0,
                },
            ),
            Err(e) => Err(EntryFault::Version(e)),
        }
    }
}

/// The entry that a value holds, if it holds one.
pub open spec fn entry_in(value: serde_json::Value) -> Option<ManifestView> {
    match entry_read(value) {
        Ok(entry) => Some(entry),
        Err(_) => None,
    }
}

/// The entries of a list of values, where every one of them is an entry.
pub open spec fn all_entries(items: Seq<serde_json::Value>) -> Option<Seq<ManifestView>> {
    if forall|i: int| 0 <= i < items.len() ==> entry_in(#[trigger] items[i]) is Some {
        Some(Seq::new(items.len(), |i: int| entry_in(items[i])->Some_0))
    } else {
        None
    }
}

/// The fault of the first value in a list that is no entry.
pub open spec fn first_fault(items: Seq<serde_json::Value>) -> Option<EntryFault>
    decreases items.len(),
{
    if items.len() == 0 {
        None
    } else {
        match entry_read(items[0]) {
            Err(fault) => Some(fault),
            Ok(_) => first_fault(items.drop_first()),
        }
    }
}

/// The manifest that a text holds: a JSON list of entries.
pub open spec fn manifest_in(text: Seq<char>) -> Option<Seq<ManifestView>> {
    match json_document(text) {
        Some(document) => match json_items(document) {
            Some(items) => all_entries(items),
            None => None,
        },
        None => None,
    }
}

/// Why a JSON document is no manifest, in words: it is no list, or the first
/// of its values that is no entry has a fault. `None` for a manifest.
pub open spec fn manifest_fault(document: serde_json::Value) -> Option<Seq<char>> {
    match json_items(document) {
        Some(items) => match first_fault(items) {
            Some(fault) => Some("Failed to parse manifest file: "@ + fault.spec_message()),
            None => None,
        },
        None => Some("Failed to parse manifest file: "@ + "not a list of extensions"@),
    }
}

/// The views of the entries of `v`, in order.
pub open spec fn entry_views(v: Seq<ExtensionManifest>) -> Seq<ManifestView> {
    v.map_values(|e: ExtensionManifest| e@)
}

/// Reads one entry.
pub fn entry_from(value: &serde_json::Value) -> (r: Result<ExtensionManifest, EntryFault>)
    ensures
        r is Ok <==> entry_read(*value) is Ok,
        r is Ok ==> r->Ok_0@ == entry_read(*value)->Ok_0,
        r is Err ==> entry_read(*value) == Err::<ManifestView, EntryFault>(r->Err_0),
{
    let name = get_text(value, "name");
    let version = get_text(value, "version");
    let author = get_text(value, "author");
    let repository = get_text(value, "repository");
    match (name, version, author, repository) {
        (Some(name), Some(version), Some(author), Some(repository)) => match Version::parse(
            version.as_str(),
        ) {
            Ok(version) => Ok(ExtensionManifest { name, version, author, repository }),
            Err(e) => Err(EntryFault::Version(e)),
        },
        _ => Err(EntryFault::MissingText),
    }
}

/// Reads the entries of a list of values, up to the first that is none.
pub fn entries_from(items: &Vec<serde_json::Value>) -> (r: Result<
    Vec<ExtensionManifest>,
    EntryFault,
>)
    ensures
        r is Ok <==> all_entries(items@) is Some,
        r is Ok ==> entry_views(r->Ok_0@) == all_entries(items@)->Some_0,
        r is Ok ==> first_fault(items@) is None,
        r is Err ==> first_fault(items@) == Some(r->Err_0),
{
    let mut found: Vec<ExtensionManifest> = Vec::new();
    let mut i: usize = 0;
    proof {
        assert(items@.skip(0) =~= items@);
    }
    while i < items.len()
        invariant
            i <= items.len(),
            found@.len() == i,
            forall|j: int| 0 <= j < i ==> entry_in(#[trigger] items@[j]) == Some(found@[j]@),
            first_fault(items@) == first_fault(items@.skip(i as int)),
        decreases items.len() - i,
    {
        proof {
            assert(items@.skip(i as int)[0] == items@[i as int]);
            assert(items@.skip(i as int).drop_first() =~= items@.skip(i + 1));
        }
        match entry_from(&items[i]) {
            Ok(entry) => {
                found.push(entry);
            },
            Err(fault) => {
                proof {
                    assert(entry_in(items@[i as int]) is None);
                }
                return Err(fault);
            },
        }
        i += 1;
    }
    proof {
        assert(entry_views(found@) =~= all_entries(items@)->Some_0);
        assert(items@.skip(items.len() as int) =~= Seq::empty());
    }
    Ok(found)
}

/// Reads the manifest from a parsed document.
pub fn manifest_from_document(document: &serde_json::Value) -> (r: Result<
    Vec<ExtensionManifest>,
    PluginError,
>)
    ensures
        r is Ok <==> json_items(*document) is Some && all_entries(json_items(*document)->Some_0)
            is Some,
        r is Ok ==> entry_views(r->Ok_0@) == all_entries(json_items(*document)->Some_0)->Some_0,
        r is Ok ==> manifest_fault(*document) is None,
        r is Err ==> r->Err_0 is InvalidFormat && manifest_fault(*document) == Some(
            r->Err_0->InvalidFormat_0@,
        ),
{
    let fault = match items_of(document) {
        Some(items) => match entries_from(items) {
            Ok(entries) => {
                return Ok(entries);
            },
            Err(fault) => fault.message(),
        },
        None => "not a list of extensions",
    };
    let mut detail = String::from_str("Failed to parse manifest file: ");
    push_text(&mut detail, fault);
    Err(PluginError::InvalidFormat(detail))
}

/// Reads the manifest of the installed extensions. A text that holds none is
/// refused as `InvalidFormat`: with the fault of the document where the text
/// is JSON, and with what the JSON reader said where it is not.
pub fn parse_manifest(text: &str) -> (r: Result<Vec<ExtensionManifest>, PluginError>)
    ensures
        r is Ok <==> manifest_in(text@) is Some,
        r is Ok ==> entry_views(r->Ok_0@) == manifest_in(text@)->Some_0,
        r is Err ==> r->Err_0 is InvalidFormat,
        r is Err && json_document(text@) is Some ==> manifest_fault(json_document(text@)->Some_0)
            == Some(r->Err_0->InvalidFormat_0@),
{
    match parse_document(text) {
        Ok(document) => manifest_from_document(&document),
        Err(e) => {
            let mut detail = String::from_str("Failed to parse manifest file: ");
            let cause = error_detail(&e);
            push_text(&mut detail, cause.as_str());
            Err(PluginError::InvalidFormat(detail))
        },
    }
}

} // verus!
