use onus::decode::DecodeError;
use onus::maven::{Dependency, MavenMetadata, MavenPom, Versions};

const METADATA: &str = r#"<?xml version="1.0" encoding="UTF-8"?>
<metadata>
  <groupId>dev.zio</groupId>
  <artifactId>zio_3</artifactId>
  <versioning>
    <latest>2.0.0-RC1</latest>
    <release>2.0.0-RC1</release>
    <versions>
      <version>1.0.8</version>
      <version>1.0.9</version>
      <version>1.0.10</version>
      <version>1.0.11</version>
      <version>2.0.0-RC1</version>
    </versions>
    <lastUpdated>20211214233703</lastUpdated>
  </versioning>
</metadata>
"#;

#[test]
fn test_maven_metadata_parse() {
    let metadata: MavenMetadata = MavenMetadata::decode(METADATA).expect("Failed to parse metadata file");
    let versioning = metadata.versioning;

    assert_eq!(metadata.group_id, "dev.zio");
    assert_eq!(metadata.artifact_id, "zio_3");
    assert_eq!(versioning.latest, "2.0.0-RC1");
    assert_eq!(versioning.release, "2.0.0-RC1");
    assert_eq!(
        versioning.versions,
        Versions {
            version: vec![
                "1.0.8".to_string(),
                "1.0.9".to_string(),
                "1.0.10".to_string(),
                "1.0.11".to_string(),
                "2.0.0-RC1".to_string()
            ],
        }
    );
    assert_eq!(versioning.last_updated, "20211214233703");
}

#[test]
fn test_maven_pom_parse() {
    let data = r#"<?xml version="1.0" encoding="UTF-8"?>
<project>
  <dependencies>
    <dependency>
      <groupId>dev.zio</groupId>
      <artifactId>zio-stacktracer_3</artifactId>
      <version>1.0.13</version>
    </dependency>
    <dependency>
      <groupId>org.scala-lang</groupId>
      <artifactId>scala3-library_3</artifactId>
      <version>3.1.0</version>
    </dependency>
    <dependency>
      <groupId>org.openjdk.jcstress</groupId>
      <artifactId>jcstress-core</artifactId>
      <version>0.3</version>
      <scope>test</scope>
    </dependency>
    <dependency>
      <groupId>com.github.ghik</groupId>
      <artifactId>silencer-lib_2.13.7</artifactId>
      <version>1.7.7</version>
      <scope>provided</scope>
    </dependency>
  </dependencies>
</project>
"#;

    let pom: MavenPom = MavenPom::decode(data).expect("Failed to parse pom file");
    let dependencies = pom.dependencies;

    assert_eq!(
        dependencies.dependency,
        vec![
            Dependency {
                group_id: "dev.zio".to_string(),
                artifact_id: "zio-stacktracer_3".to_string(),
                version: "1.0.13".to_string(),
                scope: None
            },
            Dependency {
                group_id: "org.scala-lang".to_string(),
                artifact_id: "scala3-library_3".to_string(),
                version: "3.1.0".to_string(),
                scope: None
            },
            Dependency {
                group_id: "org.openjdk.jcstress".to_string(),
                artifact_id: "jcstress-core".to_string(),
                version: "0.3".to_string(),
                scope: Some("test".to_string())
            },
            Dependency {
                group_id: "com.github.ghik".to_string(),
                artifact_id: "silencer-lib_2.13.7".to_string(),
                version: "1.7.7".to_string(),
                scope: Some("provided".to_string())
            },
        ]
    )
}

#[test]
fn test_metadata_missing_versioning_is_error() {
    // No default or empty Versioning is ever fabricated.
    let data = "<metadata><groupId>dev.zio</groupId><artifactId>zio_3</artifactId></metadata>";
    let err = MavenMetadata::decode(data).unwrap_err();
    assert_eq!(err, DecodeError::MissingKey { key: "versioning".to_string() });
}

#[test]
fn test_metadata_duplicate_group_id_is_error() {
    let data = "<metadata><groupId>a</groupId><groupId>b</groupId></metadata>";
    let err = MavenMetadata::decode(data).unwrap_err();
    assert_eq!(err, DecodeError::DuplicateKey { key: "groupId".to_string() });
}

#[test]
fn test_metadata_unclosed_tag_is_error() {
    let data = "<metadata><groupId>dev.zio</groupId>";
    let err = MavenMetadata::decode(data).unwrap_err();
    assert!(matches!(err, DecodeError::Syntax { .. }));
}

#[test]
fn test_metadata_empty_versions_list() {
    let data = "<metadata><groupId>g</groupId><artifactId>a</artifactId><versioning>\
        <latest>1</latest><release>1</release><versions></versions>\
        <lastUpdated>2</lastUpdated></versioning></metadata>";
    let metadata = MavenMetadata::decode(data).unwrap();
    assert_eq!(metadata.versioning.versions, Versions { version: vec![] });
}

#[test]
fn test_metadata_unknown_elements_skipped() {
    let data = "<metadata modelVersion=\"1.1.0\"><plugins><plugin><name>x</name></plugin></plugins>\
        <groupId>g</groupId><artifactId>a</artifactId><versioning>\
        <latest>1</latest><release>1</release><snapshot/><versions><version>1</version></versions>\
        <lastUpdated>2</lastUpdated></versioning></metadata>";
    let metadata = MavenMetadata::decode(data).unwrap();
    assert_eq!(metadata.group_id, "g");
    assert_eq!(metadata.versioning.versions.version, vec!["1".to_string()]);
}

#[test]
fn test_pom_with_project_attributes_and_extras() {
    let data = r#"<?xml version="1.0" encoding="UTF-8"?>
<project xmlns="http://maven.apache.org/POM/4.0.0" xmlns:xsi="http://www.w3.org/2001/XMLSchema-instance">
  <modelVersion>4.0.0</modelVersion>
  <groupId>dev.zio</groupId>
  <artifactId>zio-stacktracer_3</artifactId>
  <version>1.0.13</version>
  <dependencies>
    <dependency>
      <groupId>org.scala-lang</groupId>
      <artifactId>scala3-library_3</artifactId>
      <version>3.1.0</version>
    </dependency>
  </dependencies>
</project>
"#;
    let pom = MavenPom::decode(data).unwrap();
    assert_eq!(pom.dependencies.dependency.len(), 1);
    assert_eq!(pom.dependencies.dependency[0].group_id, "org.scala-lang");
    assert_eq!(pom.dependencies.dependency[0].scope, None);
}

#[test]
fn test_pom_empty_dependencies() {
    let data = "<project><dependencies/></project>";
    let pom = MavenPom::decode(data).unwrap();
    assert_eq!(pom.dependencies.dependency.len(), 0);
}

#[test]
fn test_pom_missing_dependencies_is_error() {
    let data = "<project><modelVersion>4.0.0</modelVersion></project>";
    let err = MavenPom::decode(data).unwrap_err();
    assert_eq!(err, DecodeError::MissingKey { key: "dependencies".to_string() });
}

#[test]
fn test_pom_dependency_missing_version_is_error() {
    let data = "<project><dependencies><dependency><groupId>g</groupId>\
        <artifactId>a</artifactId></dependency></dependencies></project>";
    let err = MavenPom::decode(data).unwrap_err();
    assert_eq!(err, DecodeError::MissingKey { key: "version".to_string() });
}

#[test]
fn test_metadata_self_closing_root_is_error() {
    let err = MavenMetadata::decode("<metadata/>").unwrap_err();
    assert_eq!(err, DecodeError::MissingKey { key: "groupId".to_string() });
}

#[test]
fn test_metadata_trailing_content_is_error() {
    let data = "<metadata><groupId>g</groupId><artifactId>a</artifactId><versioning>\
        <latest>1</latest><release>1</release><versions></versions>\
        <lastUpdated>2</lastUpdated></versioning></metadata><extra/>";
    let err = MavenMetadata::decode(data).unwrap_err();
    assert!(matches!(err, DecodeError::Syntax { .. }));
}

#[test]
fn test_metadata_decode_twice_yields_equal_values() {
    let first = MavenMetadata::decode(METADATA).unwrap();
    let second = MavenMetadata::decode(METADATA).unwrap();
    assert_eq!(first, second);
}
