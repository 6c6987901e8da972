use tsukimi::plugin::{
    entries_from, entry_from, manifest_from_document, parse_manifest, EntryFault,
    ExtensionManifest, NotFoundType, PluginError,
};
use tsukimi::version::{Version, VersionError};

const MANIFEST: &str = "[{\"name\":\"renpy\",\"version\":\"8.2.1\",\"author\":\"tom\",\"repository\":\"https://example.com/renpy\"},{\"name\":\"kirikiri\",\"version\":\"2.0.0\",\"author\":\"w.dee\",\"repository\":\"https://example.com/krkr\",\"extra\":true}]";

#[test]
fn manifest_is_read() {
    assert_eq!(
        parse_manifest(MANIFEST),
        Ok(vec![
            ExtensionManifest {
                name: "renpy".to_string(),
                version: Version::new(8, 2, 1),
                author: "tom".to_string(),
                repository: "https://example.com/renpy".to_string(),
            },
            ExtensionManifest {
                name: "kirikiri".to_string(),
                version: Version::new(2, 0, 0),
                author: "w.dee".to_string(),
                repository: "https://example.com/krkr".to_string(),
            },
        ])
    );
    assert_eq!(parse_manifest("[]"), Ok(Vec::new()));
}

#[test]
fn what_is_no_manifest_is_an_invalid_format() {
    let texts = [
        "",
        "{}",
        "[1]",
        "[{\"name\":\"a\",\"version\":\"1.0\",\"author\":\"b\",\"repository\":\"c\"}]",
        "[{\"name\":\"a\",\"version\":1,\"author\":\"b\",\"repository\":\"c\"}]",
        "[{\"name\":\"a\",\"version\":\"1.0.0\",\"author\":\"b\"}]",
        "[{\"name\":\"a\",\"version\":\"1.0.0\",\"author\":\"b\",\"repository\":\"c\"},null]",
    ];
    for text in texts {
        match parse_manifest(text) {
            Err(PluginError::InvalidFormat(detail)) => {
                assert!(detail.starts_with("Failed to parse manifest file: "), "{}", detail)
            }
            other => panic!("{:?} gave {:?}", text, other),
        }
    }
}

#[test]
fn entries_are_read_from_values() {
    let document: serde_json::Value = serde_json::from_str(MANIFEST).unwrap();
    let items = document.as_array().unwrap();
    assert_eq!(entry_from(&items[0]).unwrap().name, "renpy");
    assert_eq!(entries_from(items).unwrap().len(), 2);
    assert_eq!(entry_from(&document), Err(EntryFault::MissingText));
    assert_eq!(manifest_from_document(&document).unwrap().len(), 2);
}

#[test]
fn the_first_fault_is_reported() {
    let cases = [
        ("{}", "not a list of extensions"),
        ("\"renpy\"", "not a list of extensions"),
        ("[1]", "an extension lacks one of its texts"),
        (
            "[{\"name\":\"a\",\"version\":\"1.0\",\"author\":\"b\",\"repository\":\"c\"}]",
            "Invalid version format",
        ),
        (
            "[{\"name\":\"a\",\"version\":\"x.0.0\",\"author\":\"b\",\"repository\":\"c\"}]",
            "Failed to parse major version",
        ),
        (
            "[{\"name\":\"a\",\"version\":\"1.0.0\",\"author\":\"b\",\"repository\":\"c\"},{\"name\":\"a\",\"version\":\"1.0.z\",\"author\":\"b\",\"repository\":\"c\"},7]",
            "Failed to parse patch version",
        ),
        (
            "[{\"name\":\"a\",\"version\":\"1.y.z\",\"author\":\"b\"}]",
            "an extension lacks one of its texts",
        ),
    ];
    for (text, fault) in cases {
        assert_eq!(
            parse_manifest(text),
            Err(PluginError::InvalidFormat(format!("Failed to parse manifest file: {}", fault))),
            "{}",
            text
        );
    }
    assert_eq!(EntryFault::Version(VersionError::Minor).message(), "Failed to parse minor version");
}

#[test]
fn plugin_errors_have_messages() {
    assert_eq!(
        PluginError::NotFound(NotFoundType::File("extensions.json".to_string())).message(),
        "file `extensions.json` not found"
    );
    assert_eq!(
        PluginError::NotFound(NotFoundType::Directory("plugins".to_string())).message(),
        "directory `plugins` not found"
    );
    assert_eq!(PluginError::NotFound(NotFoundType::ProjectPath).message(), "project path not found");
    assert_eq!(
        PluginError::AlreadyExists("renpy".to_string()).message(),
        "Failed to load plugin: renpy"
    );
    assert_eq!(
        PluginError::InvalidFormat("bad".to_string()).message(),
        "Failed to load plugin: bad"
    );
    assert_eq!(PluginError::ActionFailed("disk full".to_string()).message(), "disk full");
    assert_eq!(NotFoundType::ProjectPath.describe(), "project path");
}
