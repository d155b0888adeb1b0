use onus::decode::DecodeError;
use onus::manifest::{Dependency, Manifest, ManifestLoadError};

fn decode_error_of(r: Result<Manifest, ManifestLoadError>) -> DecodeError {
    match r {
        Err(ManifestLoadError::DecodeError { decode_error }) => decode_error,
        Err(ManifestLoadError::IoError { .. }) => panic!("expected a decode error, got an I/O error"),
        Ok(_) => panic!("expected an error, got a manifest"),
    }
}

#[test]
fn test_load() {
    let text = r#"
[dependencies]
tofu_logging = { organization = "tf.tofu", version = "0.1.0.4" }
tofu = { organization = "tf.tofu", version = "0.1.0.4" }
cats_effect = { organization = "org.typelevel", version = "1.6.0" }
"#;
    let config = Manifest::decode(text).unwrap();

    // Entries come out in the reader's sorted-by-name order.
    let dependencies = vec![
        (
            "cats_effect".to_string(),
            Dependency {
                organization: "org.typelevel".to_string(),
                version: "1.6.0".to_string(),
            },
        ),
        (
            "tofu".to_string(),
            Dependency {
                organization: "tf.tofu".to_string(),
                version: "0.1.0.4".to_string(),
            },
        ),
        (
            "tofu_logging".to_string(),
            Dependency {
                organization: "tf.tofu".to_string(),
                version: "0.1.0.4".to_string(),
            },
        ),
    ];

    assert_eq!(config, Manifest { dependencies });
}

#[test]
fn test_decode_subtable_syntax() {
    let text = "[dependencies.tofu]\norganization = \"tf.tofu\"\nversion = \"0.1.0.4\"\n";
    let config = Manifest::decode(text).unwrap();
    assert_eq!(config.dependencies.len(), 1);
    let dep = config.get("tofu").unwrap();
    assert_eq!(dep.organization, "tf.tofu");
    assert_eq!(dep.version, "0.1.0.4");
    assert!(config.get("cats_effect").is_none());
}

#[test]
fn test_decode_missing_version() {
    let text = "[dependencies]\ntofu = { organization = \"tf.tofu\" }\n";
    let err = decode_error_of(Manifest::decode(text));
    assert_eq!(err, DecodeError::MissingKey { key: "version".to_string() });
}

#[test]
fn test_decode_missing_organization() {
    let text = "[dependencies]\ntofu = { version = \"0.1.0.4\" }\n";
    let err = decode_error_of(Manifest::decode(text));
    assert_eq!(err, DecodeError::MissingKey { key: "organization".to_string() });
}

#[test]
fn test_decode_missing_dependencies_table() {
    let err = decode_error_of(Manifest::decode(""));
    assert_eq!(err, DecodeError::MissingKey { key: "dependencies".to_string() });
}

#[test]
fn test_decode_empty_dependencies_table() {
    let config = Manifest::decode("[dependencies]\n").unwrap();
    assert_eq!(config.dependencies.len(), 0);
}

#[test]
fn test_decode_malformed_toml() {
    let err = decode_error_of(Manifest::decode("[dependencies\n"));
    assert!(matches!(err, DecodeError::Syntax { .. }));
}

#[test]
fn test_decode_wrong_field_type() {
    // A version given as a number instead of a string is refused by the
    // TOML reader itself.
    let text = "[dependencies]\ntofu = { organization = \"tf.tofu\", version = 3 }\n";
    let err = decode_error_of(Manifest::decode(text));
    assert!(matches!(err, DecodeError::Syntax { .. }));
}

#[test]
fn test_decode_extra_entry_field_ignored() {
    let text =
        "[dependencies]\ntofu = { organization = \"tf.tofu\", version = \"0.1.0.4\", note = \"x\" }\n";
    let config = Manifest::decode(text).unwrap();
    assert_eq!(config.dependencies.len(), 1);
    assert_eq!(config.get("tofu").unwrap().version, "0.1.0.4");
}

#[test]
fn test_decode_other_top_level_shape_is_error() {
    // The adapter is strict about the document shape: a top-level value
    // that is not a table of tables of strings is refused by the reader.
    let text = "title = \"x\"\n[dependencies]\n";
    let err = decode_error_of(Manifest::decode(text));
    assert!(matches!(err, DecodeError::Syntax { .. }));
}

#[test]
fn test_decode_twice_yields_equal_manifests() {
    let text = "[dependencies]\ntofu = { organization = \"tf.tofu\", version = \"0.1.0.4\" }\n";
    let first = Manifest::decode(text).unwrap();
    let second = Manifest::decode(text).unwrap();
    assert_eq!(first, second);
}
