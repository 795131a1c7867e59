use vstd::prelude::*;

verus! {

use vstd::string::StringExecFns;
use vstd::utf8::encode_utf8;

use crate::text::push_char;
use crate::toml_api::json_document_of;
use crate::toml_api::parse_json_document;
use crate::toml_api::pretty_text_of;
use crate::toml_api::pretty_print_document;

/// One labeled, addressable span of the output text; `start` and `end` are
/// byte offsets into that text.
pub struct OutputSection {
    pub start: usize,
    pub end: usize,
    pub label: String,
}

/// What the command hands back for display: the output text and its
/// labeled sections.
pub struct CommandOutput {
    pub text: String,
    pub sections: Vec<OutputSection>,
}

/// The fallback message shown when no structured output can be produced.
pub open spec fn spec_fallback_text(desc: Seq<char>) -> Seq<char> {
    "API request failed. Error: "@ + desc + "."@
}

/// The response body decoded one byte per character.
pub open spec fn spec_decoded_chars(bytes: Seq<u8>) -> Seq<char> {
    bytes.map_values(|b: u8| b as char)
}

/// Decodes a response body as text, one byte per character: each byte
/// becomes the character with that code, so no byte sequence is rejected.
pub fn decode_body(bytes: &Vec<u8>) -> (s: String)
    ensures
        s@ == spec_decoded_chars(bytes@),
{
    let mut s = String::new();
    proof {
        assert(s@ =~= spec_decoded_chars(bytes@.take(0)));
    }
    let n = bytes.len();
    let mut i: usize = 0;
    while i < n
        invariant
            n == bytes@.len(),
            i <= n,
            s@ == spec_decoded_chars(bytes@.take(i as int)),
        decreases n - i,
    {
        let b = bytes[i];
        push_char(&mut s, b as char);
        proof {
            assert(s@ =~= spec_decoded_chars(bytes@.take(i as int + 1)));
        }
        i += 1;
    }
    proof {
        assert(bytes@.take(n as int) =~= bytes@);
    }
    s
}

/// The output for a failure: the fallback message embedding the failure's
/// description, with no sections.
pub fn failure_output(desc: &str) -> (out: CommandOutput)
    ensures
        out.text@ == spec_fallback_text(desc@),
        out.sections@.len() == 0,
{
    let mut text = String::from_str("API request failed. Error: ");
    text.append(desc);
    text.append(".");
    CommandOutput { text, sections: Vec::new() }
}

/// The output for a successfully rendered response text: the text itself,
/// under a single section that spans all of its bytes and carries the
/// fixed label.
pub fn success_output(text: String) -> (out: CommandOutput)
    ensures
        out.text == text,
        out.sections@.len() == 1,
        out.sections@[0].start == 0,
        out.sections@[0].end == encode_utf8(text@).len() as usize,
        out.sections@[0].label@ == "DepsDev Dump"@,
{
    let end = text.as_str().len();
    let section = OutputSection { start: 0, end, label: String::from_str("DepsDev Dump") };
    let mut sections: Vec<OutputSection> = Vec::new();
    sections.push(section);
    CommandOutput { text, sections }
}

/// Turns the transport outcome into displayable output. A transport
/// failure's description is embedded in the fallback message. A response
/// body is decoded one byte per character and re-rendered as indented
/// JSON under one labeled section; a body that does not parse, or does
/// not re-render, falls back to the same message shape with a fixed
/// description rather than failing.
pub fn render_response(outcome: Result<Vec<u8>, String>) -> (out: CommandOutput)
    ensures
        match outcome {
            Err(e) => out.text@ == spec_fallback_text(e@) && out.sections@.len() == 0,
            Ok(bytes) => match json_document_of(spec_decoded_chars(bytes@)) {
                None => out.text@ == spec_fallback_text("invalid response body"@)
                    && out.sections@.len() == 0,
                Some(doc) => match pretty_text_of(doc) {
                    None => out.text@ == spec_fallback_text("invalid response body"@)
                        && out.sections@.len() == 0,
                    Some(t) => out.text@ == t && out.sections@.len() == 1
                        && out.sections@[0].start == 0 && out.sections@[0].end == encode_utf8(
                        t,
                    ).len() as usize && out.sections@[0].label@ == "DepsDev Dump"@,
                },
            },
        },
{
    match outcome {
        Err(e) => failure_output(e.as_str()),
        Ok(bytes) => {
            let text = decode_body(&bytes);
            match parse_json_document(text.as_str()) {
                None => failure_output("invalid response body"),
                Some(doc) => match pretty_print_document(&doc) {
                    None => failure_output("invalid response body"),
                    Some(rendered) => success_output(rendered),
                },
            }
        },
    }
}

} // verus!
