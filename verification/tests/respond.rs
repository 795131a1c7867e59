use depsdev::response::{decode_body, failure_output, render_response};

#[test]
fn transport_failure_embeds_exact_description() {
    let out = render_response(Err("connection refused".to_string()));
    assert_eq!(out.text, "API request failed. Error: connection refused.");
    assert_eq!(out.sections.len(), 0);
}

#[test]
fn fallback_output_has_no_sections() {
    let out = failure_output("timed out");
    assert_eq!(out.text, "API request failed. Error: timed out.");
    assert_eq!(out.sections.len(), 0);
}

#[test]
fn successful_response_is_pretty_printed_losslessly() {
    let body = b"{\"versions\":[{\"name\":\"serde\",\"isDefault\":true,\"ordinal\":1}]}";
    let out = render_response(Ok(body.to_vec()));
    // The rendering is indented, so it differs from the wire form ...
    assert_ne!(out.text.as_bytes(), &body[..]);
    // ... but parsing it back gives the same document.
    let original: serde_json::Value = serde_json::from_slice(body).unwrap();
    let reparsed: serde_json::Value = serde_json::from_str(&out.text).unwrap();
    assert_eq!(original, reparsed);
    assert_eq!(out.sections.len(), 1);
    assert_eq!(out.sections[0].start, 0);
    assert_eq!(out.sections[0].end, out.text.len());
    assert_eq!(out.sections[0].label, "DepsDev Dump");
}

#[test]
fn nested_document_round_trips_through_rendering() {
    let body = b"{\"a\":{\"b\":[1,2,3],\"c\":\"text\"},\"d\":false}";
    let out = render_response(Ok(body.to_vec()));
    let original: serde_json::Value = serde_json::from_slice(body).unwrap();
    let reparsed: serde_json::Value = serde_json::from_str(&out.text).unwrap();
    assert_eq!(original, reparsed);
}

#[test]
fn unparsable_response_body_falls_back() {
    let out = render_response(Ok(b"not json at all".to_vec()));
    assert_eq!(out.text, "API request failed. Error: invalid response body.");
    assert_eq!(out.sections.len(), 0);
}

#[test]
fn decode_is_one_byte_per_character() {
    let s = decode_body(&vec![72u8, 105u8, 33u8]);
    assert_eq!(s, "Hi!");
    let high = decode_body(&vec![0xE9u8]);
    assert_eq!(high, "\u{e9}");
}
