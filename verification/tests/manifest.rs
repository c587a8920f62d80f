use detaxine_ui::manifest::{bump_detaxine_ui_manifest, set_dependency_version, ManifestError};
use detaxine_ui::scaffold::{manifest_ssr_text, manifest_text};
use toml_edit::DocumentMut;

fn dependency_version(text: &str) -> Option<String> {
    let doc = text.parse::<DocumentMut>().unwrap();
    doc.get("dependencies")?
        .get("detaxine-ui")?
        .get("version")?
        .as_str()
        .map(|s| s.to_string())
}

#[test]
fn bump_inline_table_dependency() {
    let contents = "[package]\nname = \"demo\"\n\n[dependencies]\ndetaxine-ui = { version = \"0.8.0\", default-features = false }\nleptos = \"0.8\"\n";
    let bumped = bump_detaxine_ui_manifest(contents, "0.9.1").unwrap();
    assert_eq!(dependency_version(&bumped), Some("0.9.1".to_string()));
    assert!(!bumped.contains("0.8.0"));
    assert!(bumped.contains("default-features = false"));
    assert!(bumped.contains("leptos = \"0.8\""));
}

#[test]
fn bump_table_dependency() {
    let contents = "[package]\nname = \"demo\"\n\n[dependencies.detaxine-ui]\nversion = \"0.8.0\"\nfeatures = [\"ssr\"]\n";
    let bumped = bump_detaxine_ui_manifest(contents, "0.9.1").unwrap();
    assert_eq!(dependency_version(&bumped), Some("0.9.1".to_string()));
    assert!(!bumped.contains("0.8.0"));
    assert!(bumped.contains("features = [\"ssr\"]"));
}

#[test]
fn bump_inserts_missing_version() {
    let contents = "[dependencies]\ndetaxine-ui = { path = \"../ui\" }\n";
    let bumped = bump_detaxine_ui_manifest(contents, "1.2.3").unwrap();
    assert_eq!(dependency_version(&bumped), Some("1.2.3".to_string()));
    assert!(bumped.contains("path = \"../ui\""));
}

#[test]
fn bump_keeps_comments_and_order() {
    let contents = "# top comment\n[package]\nname = \"demo\" # the name\n\n[dependencies]\nleptos = \"0.8\"\ndetaxine-ui = { version = \"0.8.0\" }\n";
    let bumped = bump_detaxine_ui_manifest(contents, "0.9.0").unwrap();
    assert!(bumped.starts_with("# top comment\n[package]\nname = \"demo\" # the name\n"));
    assert!(bumped.find("leptos").unwrap() < bumped.find("detaxine-ui").unwrap());
}

#[test]
fn bump_rejects_invalid_toml() {
    assert!(matches!(bump_detaxine_ui_manifest("[package\nname = 1", "1.0.0"), Err(ManifestError::Parse(_))));
}

#[test]
fn bump_rejects_missing_dependency() {
    let contents = "[package]\nname = \"demo\"\n\n[dependencies]\nleptos = \"0.8\"\n";
    assert!(matches!(bump_detaxine_ui_manifest(contents, "1.0.0"), Err(ManifestError::DependencyNotFound)));
    assert!(matches!(
        bump_detaxine_ui_manifest("[package]\nname = \"demo\"\n", "1.0.0"),
        Err(ManifestError::DependencyNotFound)
    ));
}

#[test]
fn bump_rejects_plain_string_dependency() {
    let contents = "[dependencies]\ndetaxine-ui = \"0.8.0\"\n";
    assert!(matches!(bump_detaxine_ui_manifest(contents, "1.0.0"), Err(ManifestError::DependencyNotFound)));
}

#[test]
fn bump_rejects_non_table_dependencies() {
    assert!(matches!(bump_detaxine_ui_manifest("dependencies = 5\n", "1.0.0"), Err(ManifestError::DependencyNotFound)));
}

#[test]
fn bump_fresh_server_manifest() {
    let fresh = manifest_ssr_text("my-app");
    let bumped = bump_detaxine_ui_manifest(&fresh, "0.9.0").unwrap();
    assert_eq!(dependency_version(&bumped), Some("0.9.0".to_string()));
    assert!(bumped.contains("detaxine-ui = { version = \"0.9.0\", default-features = false }"));
    assert_eq!(bumped.replace("\"0.9.0\"", "\"0.8.60\""), fresh);
}

#[test]
fn bump_fresh_client_manifest_fails() {
    let fresh = manifest_text("demo");
    assert!(matches!(bump_detaxine_ui_manifest(&fresh, "0.9.0"), Err(ManifestError::DependencyNotFound)));
}

#[test]
fn bump_twice_is_stable_and_last_wins() {
    let fresh = manifest_ssr_text("my-app");
    let once = bump_detaxine_ui_manifest(&fresh, "0.9.0").unwrap();
    let twice = bump_detaxine_ui_manifest(&once, "0.9.0").unwrap();
    assert_eq!(once, twice);
    let other = bump_detaxine_ui_manifest(&once, "1.0.0").unwrap();
    assert_eq!(other, bump_detaxine_ui_manifest(&fresh, "1.0.0").unwrap());
}

#[test]
fn bump_stores_any_version_text() {
    let contents = "[dependencies]\ndetaxine-ui = { version = \"0.8.0\" }\n";
    for v in ["not-semver", "a\"quote", "back\\slash", ""] {
        let bumped = bump_detaxine_ui_manifest(contents, v).unwrap();
        assert_eq!(dependency_version(&bumped), Some(v.to_string()));
    }
}

#[test]
fn set_version_on_other_dependency() {
    let contents = "[dependencies]\nserde = { version = \"1.0.0\" }\n";
    let bumped = set_dependency_version(contents, "serde", "1.0.200").unwrap();
    assert!(bumped.contains("1.0.200"));
}

#[test]
fn error_messages() {
    let parse_error = "x = ".parse::<DocumentMut>().unwrap_err();
    assert_eq!(ManifestError::Parse(parse_error).message(), "could not parse Cargo.toml");
    assert_eq!(
        ManifestError::DependencyNotFound.message(),
        "detaxine-ui dependency not found or not a table in Cargo.toml"
    );
}
