use depsdev::manifest::DependencyDeclaration;
use depsdev::request::{build_batch_request, prepare_dump_request};

fn dep(name: &str, version: &str) -> DependencyDeclaration {
    DependencyDeclaration { name: name.to_string(), version: version.to_string() }
}

#[test]
fn empty_batch_body() {
    let body = build_batch_request(&vec![]);
    assert_eq!(body, "{\"requests\":[]}");
}

#[test]
fn batch_body_is_exact() {
    let body = build_batch_request(&vec![dep("serde", "1.2.3"), dep("tokio", "")]);
    assert_eq!(
        body,
        "{\"requests\":[\
         {\"versionKey\":{\"system\":\"CARGO\",\"name\":\"serde\",\"version\":\"1.2.3\"}},\
         {\"versionKey\":{\"system\":\"CARGO\",\"name\":\"tokio\",\"version\":\"\"}}\
         ]}"
    );
}

#[test]
fn batch_body_escapes_like_json() {
    let body = build_batch_request(&vec![dep("a\"b\\c\nd\u{1}", "1")]);
    let parsed: serde_json::Value = serde_json::from_str(&body).unwrap();
    let name = parsed["requests"][0]["versionKey"]["name"].as_str().unwrap();
    assert_eq!(name, "a\"b\\c\nd\u{1}");
    assert!(body.contains("a\\\"b\\\\c\\nd\\u0001"));
}

#[test]
fn non_ascii_characters_pass_through_unescaped() {
    let body = build_batch_request(&vec![dep("caf\u{e9}", "1")]);
    assert!(body.contains("\"caf\u{e9}\""));
    let parsed: serde_json::Value = serde_json::from_str(&body).unwrap();
    let name = parsed["requests"][0]["versionKey"]["name"].as_str().unwrap();
    assert_eq!(name, "caf\u{e9}");
}

#[test]
fn batch_body_parses_as_json() {
    let body = build_batch_request(&vec![dep("serde", "1.2.3"), dep("toml", "")]);
    let parsed: serde_json::Value = serde_json::from_str(&body).unwrap();
    let requests = parsed["requests"].as_array().unwrap();
    assert_eq!(requests.len(), 2);
    assert_eq!(requests[0]["versionKey"]["system"].as_str().unwrap(), "CARGO");
    assert_eq!(requests[0]["versionKey"]["name"].as_str().unwrap(), "serde");
    assert_eq!(requests[0]["versionKey"]["version"].as_str().unwrap(), "1.2.3");
    assert_eq!(requests[1]["versionKey"]["name"].as_str().unwrap(), "toml");
    assert_eq!(requests[1]["versionKey"]["version"].as_str().unwrap(), "");
}

#[test]
fn prepare_builds_body_from_manifest_text() {
    let text = "[workspace.dependencies]\nserde = { version = \"1.2.3\" }\n";
    let body = prepare_dump_request(text).unwrap();
    assert_eq!(
        body,
        "{\"requests\":[{\"versionKey\":{\"system\":\"CARGO\",\"name\":\"serde\",\"version\":\"1.2.3\"}}]}"
    );
}

#[test]
fn prepare_rejects_invalid_manifest() {
    assert!(prepare_dump_request("= nope =").is_err());
}
