use depsdev::manifest::{ExtractError, get_rust_deps};

#[test]
fn empty_dependency_table_yields_empty_sequence() {
    let text = "[workspace]\n[workspace.dependencies]\n";
    let deps = get_rust_deps(text).unwrap();
    assert_eq!(deps.len(), 0);
}

#[test]
fn workspace_without_dependency_table_yields_empty_sequence() {
    let text = "[workspace]\nmembers = []\n";
    let deps = get_rust_deps(text).unwrap();
    assert_eq!(deps.len(), 0);
}

#[test]
fn table_entry_version_round_trip() {
    let text = "[workspace.dependencies]\nserde = { version = \"1.2.3\" }\n";
    let deps = get_rust_deps(text).unwrap();
    assert_eq!(deps.len(), 1);
    assert_eq!(deps[0].name, "serde");
    assert_eq!(deps[0].version, "1.2.3");
}

#[test]
fn string_shorthand_yields_empty_version() {
    let text = "[workspace.dependencies]\nserde = \"1.0.219\"\n";
    let deps = get_rust_deps(text).unwrap();
    assert_eq!(deps.len(), 1);
    assert_eq!(deps[0].name, "serde");
    assert_eq!(deps[0].version, "");
}

#[test]
fn table_entry_without_version_is_dropped() {
    let text = "[workspace.dependencies]\nserde = { features = [\"derive\"] }\n";
    let deps = get_rust_deps(text).unwrap();
    assert_eq!(deps.len(), 0);
}

#[test]
fn table_entry_with_non_string_version_is_dropped() {
    let text = "[workspace.dependencies]\nserde = { version = 3 }\n";
    let deps = get_rust_deps(text).unwrap();
    assert_eq!(deps.len(), 0);
}

#[test]
fn other_value_shape_yields_empty_version() {
    let text = "[workspace.dependencies]\nserde = 1\n";
    let deps = get_rust_deps(text).unwrap();
    assert_eq!(deps.len(), 1);
    assert_eq!(deps[0].name, "serde");
    assert_eq!(deps[0].version, "");
}

#[test]
fn extracted_count_is_bounded_by_entry_count() {
    let text = "[workspace.dependencies]\n\
                anyhow = \"1\"\n\
                serde = { features = [\"derive\"] }\n\
                tokio = { version = \"1.38.0\" }\n";
    let deps = get_rust_deps(text).unwrap();
    assert!(deps.len() <= 3);
    assert_eq!(deps.len(), 2);
    assert_eq!(deps[0].name, "anyhow");
    assert_eq!(deps[0].version, "");
    assert_eq!(deps[1].name, "tokio");
    assert_eq!(deps[1].version, "1.38.0");
}

#[test]
fn empty_manifest_has_no_workspace() {
    let r = get_rust_deps("");
    assert!(matches!(r, Err(ExtractError::MissingWorkspace)));
}

#[test]
fn invalid_toml_is_a_parse_error() {
    let r = get_rust_deps("this = = is not toml");
    assert!(matches!(r, Err(ExtractError::Parse)));
    assert_eq!(r.unwrap_err().message(), "manifest is not valid TOML");
}

#[test]
fn missing_workspace_table_is_an_error() {
    let text = "[dependencies]\nserde = \"1\"\n";
    let r = get_rust_deps(text);
    assert!(matches!(r, Err(ExtractError::MissingWorkspace)));
    assert_eq!(r.unwrap_err().message(), "manifest has no workspace table");
}
