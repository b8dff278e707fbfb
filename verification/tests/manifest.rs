use cratesup::helpers::update_cargo_toml;
use cratesup::manifest::Manifest;
use cratesup::types::{Crate, UpdateError};

fn found(name: &str, latest: &str, update_available: bool) -> Crate {
    Crate {
        name: name.to_string(),
        local_version: "1.0.0".to_string(),
        latest_version: latest.to_string(),
        update_available,
    }
}

const MANIFEST: &str = r#"# The demo package.
[package]
name = "demo"          # as published
version = "0.1.0"
edition = "2021"

[dependencies]
# pinned by hand
foo = "1.0.0"
bar = { version = "0.3.1", features = ["x", "y"], optional = true }
local = { path = "../local" }

[dependencies.baz]
version = "2.0.0"   # held back
default-features = false

[dev-dependencies]
foo = "0.9.0"
qux = "4"

[features]
default = ["bar"]
"#;

#[test]
fn bare_version_is_replaced_and_the_rest_kept() {
    let manifest = "[package]\nname = \"demo\"\n\n[dependencies]\nfoo = \"1.0.0\"\nbar = \"0.3\"\n";
    let written = update_cargo_toml(manifest, &[found("foo", "1.2.0", true)]);
    assert_eq!(
        written,
        Ok("[package]\nname = \"demo\"\n\n[dependencies]\nfoo = \"1.2.0\"\nbar = \"0.3\"\n".to_string())
    );
}

#[test]
fn bare_version_is_replaced_in_a_manifest_with_comments() {
    let written = update_cargo_toml(MANIFEST, &[found("foo", "1.2.0", true)]).unwrap();
    let expected = MANIFEST.replace("foo = \"1.0.0\"", "foo = \"1.2.0\"");
    assert_ne!(expected, MANIFEST);
    assert_eq!(written, expected);
}

#[test]
fn inline_table_gets_only_its_version_replaced() {
    let manifest = "[dependencies]\nfoo = { version = \"1.0.0\", features = [\"x\"] }\n";
    let written = update_cargo_toml(manifest, &[found("foo", "1.2.0", true)]);
    assert_eq!(
        written,
        Ok("[dependencies]\nfoo = { version = \"1.2.0\", features = [\"x\"] }\n".to_string())
    );
}

#[test]
fn inline_table_in_a_manifest_with_comments() {
    let written = update_cargo_toml(MANIFEST, &[found("bar", "0.4.0", true)]).unwrap();
    let expected = MANIFEST.replace("version = \"0.3.1\"", "version = \"0.4.0\"");
    assert_ne!(expected, MANIFEST);
    assert_eq!(written, expected);
}

#[test]
fn table_under_its_own_header_gets_only_its_version_replaced() {
    let manifest = "[dependencies.baz]\nversion = \"2.0.0\"\ndefault-features = false\nfeatures = [\"a\"]\n";
    let written = update_cargo_toml(manifest, &[found("baz", "2.5.0", true)]);
    assert_eq!(
        written,
        Ok("[dependencies.baz]\nversion = \"2.5.0\"\ndefault-features = false\nfeatures = [\"a\"]\n".to_string())
    );
}

#[test]
fn table_without_version_is_left_alone() {
    let written = update_cargo_toml(MANIFEST, &[found("local", "9.9.9", true)]);
    assert_eq!(written, Ok(MANIFEST.to_string()));
}

#[test]
fn absent_dependency_is_skipped_and_others_applied() {
    let manifest = "[dependencies]\nfoo = \"1.0.0\"\n\n[dev-dependencies]\nghost = \"0.1.0\"\n";
    let written = update_cargo_toml(
        manifest,
        &[found("ghost", "0.2.0", true), found("foo", "1.2.0", true), found("other", "3.0.0", true)],
    );
    assert_eq!(
        written,
        Ok("[dependencies]\nfoo = \"1.2.0\"\n\n[dev-dependencies]\nghost = \"0.1.0\"\n".to_string())
    );
}

#[test]
fn absent_dependency_alone_changes_nothing() {
    let written = update_cargo_toml(MANIFEST, &[found("ghost", "0.2.0", true)]);
    assert_eq!(written, Ok(MANIFEST.to_string()));
}

#[test]
fn crates_without_update_are_ignored() {
    let written = update_cargo_toml(
        MANIFEST,
        &[found("foo", "1.2.0", false), found("bar", "0.4.0", false), found("baz", "2.5.0", false)],
    );
    assert_eq!(written, Ok(MANIFEST.to_string()));
}

#[test]
fn empty_list_changes_nothing() {
    assert_eq!(update_cargo_toml(MANIFEST, &[]), Ok(MANIFEST.to_string()));
    assert_eq!(update_cargo_toml("", &[]), Ok(String::new()));
}

#[test]
fn other_sections_are_not_touched() {
    let written = update_cargo_toml(MANIFEST, &[found("qux", "5.0.0", true)]);
    assert_eq!(written, Ok(MANIFEST.to_string()));
}

#[test]
fn manifest_without_dependencies_section_is_kept() {
    let manifest = "[package]\nname = \"demo\"\n";
    let written = update_cargo_toml(manifest, &[found("foo", "1.2.0", true)]);
    assert_eq!(written, Ok(manifest.to_string()));
}

#[test]
fn several_updates_are_all_applied() {
    let written = update_cargo_toml(
        MANIFEST,
        &[
            found("foo", "1.2.0", true),
            found("bar", "0.4.0", true),
            found("baz", "2.5.0", true),
            found("local", "8.0.0", true),
        ],
    )
    .unwrap();
    let expected = MANIFEST
        .replace("foo = \"1.0.0\"", "foo = \"1.2.0\"")
        .replace("version = \"0.3.1\"", "version = \"0.4.0\"")
        .replace("version = \"2.0.0\"   # held back", "version = \"2.5.0\"");
    assert_eq!(written, expected);
}

#[test]
fn later_update_of_the_same_name_wins() {
    let manifest = "[dependencies]\nfoo = \"1.0.0\"\n";
    let written =
        update_cargo_toml(manifest, &[found("foo", "1.2.0", true), found("foo", "1.3.0", true)]);
    assert_eq!(written, Ok("[dependencies]\nfoo = \"1.3.0\"\n".to_string()));
}

#[test]
fn bare_value_that_is_no_string_is_replaced_as_a_whole() {
    let manifest = "[dependencies]\nfoo = 1\n";
    let written = update_cargo_toml(manifest, &[found("foo", "1.2.0", true)]);
    assert_eq!(written, Ok("[dependencies]\nfoo = \"1.2.0\"\n".to_string()));
}

#[test]
fn invalid_manifest_is_a_parse_error() {
    let written = update_cargo_toml("[dependencies\nfoo = ", &[found("foo", "1.2.0", true)]);
    assert_eq!(written, Err(UpdateError::ManifestParseError));
    let duplicate = update_cargo_toml("a = 1\na = 2\n", &[]);
    assert_eq!(duplicate, Err(UpdateError::ManifestParseError));
}

#[test]
fn set_version_tells_whether_the_section_pins_the_name() {
    let mut manifest = Manifest::parse(MANIFEST).unwrap();
    assert!(manifest.set_version("foo", "1.2.0"));
    assert!(manifest.set_version("bar", "0.4.0"));
    assert!(manifest.set_version("baz", "2.5.0"));
    assert!(!manifest.set_version("local", "1.0.0"));
    assert!(!manifest.set_version("qux", "5.0.0"));
    assert!(!manifest.set_version("ghost", "0.2.0"));
    assert!(!manifest.set_version("dependencies", "0.2.0"));
    let expected = MANIFEST
        .replace("foo = \"1.0.0\"", "foo = \"1.2.0\"")
        .replace("version = \"0.3.1\"", "version = \"0.4.0\"")
        .replace("version = \"2.0.0\"   # held back", "version = \"2.5.0\"");
    assert_eq!(manifest.render(), expected);
}

#[test]
fn parse_then_render_gives_the_text_back() {
    let manifest = Manifest::parse(MANIFEST).unwrap();
    assert_eq!(manifest.render(), MANIFEST);
    assert!(Manifest::parse("= no key").is_err());
}

#[test]
fn apply_updates_on_a_manifest() {
    let mut manifest = Manifest::parse("[dependencies]\na = \"1\"\nb = \"2\"\nc = \"3\"\n").unwrap();
    manifest.apply_updates(&[found("c", "3.1", true), found("b", "2.1", false), found("a", "1.1", true)]);
    assert_eq!(manifest.render(), "[dependencies]\na = \"1.1\"\nb = \"2\"\nc = \"3.1\"\n");
}

#[test]
fn version_text_is_written_as_a_string() {
    let manifest = "[dependencies]\nfoo = \"1.0.0\"\n";
    let written = update_cargo_toml(manifest, &[found("foo", "1.2.0-rc.1+build", true)]);
    assert_eq!(written, Ok("[dependencies]\nfoo = \"1.2.0-rc.1+build\"\n".to_string()));
}

#[test]
fn section_written_as_an_inline_table_is_updated_too() {
    let manifest = "dependencies = { foo = \"1.0.0\", bar = { version = \"0.3\", optional = true } }\n";
    let written = update_cargo_toml(
        manifest,
        &[found("foo", "1.2.0", true), found("bar", "0.4", true), found("ghost", "9", true)],
    )
    .unwrap();
    let document = Manifest::parse(&written).unwrap();
    assert_eq!(document.render(), written);
    assert!(written.contains("foo = \"1.2.0\""));
    assert!(written.contains("version = \"0.4\""));
    assert!(written.contains("optional = true"));
    assert!(!written.contains("ghost"));
    assert!(!written.contains("1.0.0"));
}

#[test]
fn table_written_with_dotted_keys_gets_only_its_version_replaced() {
    let manifest = "[dependencies]\nfoo.version = \"1.0.0\"\nfoo.features = [\"x\"]\n";
    let written = update_cargo_toml(manifest, &[found("foo", "1.2.0", true)]);
    assert_eq!(
        written,
        Ok("[dependencies]\nfoo.version = \"1.2.0\"\nfoo.features = [\"x\"]\n".to_string())
    );
}

#[test]
fn section_that_is_no_table_pins_nothing() {
    for manifest in ["dependencies = 3\n", "dependencies = [\"foo\"]\n", "[[dependencies]]\nfoo = \"1.0.0\"\n"] {
        let written = update_cargo_toml(manifest, &[found("foo", "1.2.0", true)]);
        assert_eq!(written, Ok(manifest.to_string()));
    }
}
