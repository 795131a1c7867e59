use vstd::prelude::*;

verus! {

use vstd::string::StrSliceExecFns;
use vstd::string::StringExecFns;

use crate::manifest::DependencyDeclaration;
use crate::manifest::ExtractError;
use crate::manifest::deps_view;
use crate::manifest::get_rust_deps;
use crate::manifest::spec_extract;
use crate::text::push_char;
use crate::toml_api::manifest_tree_of;

/// The lower-case hexadecimal digit for a value below sixteen.
pub open spec fn spec_hex_digit(n: int) -> char {
    if n == 0 {
        '0'
    } else if n == 1 {
        '1'
    } else if n == 2 {
        '2'
    } else if n == 3 {
        '3'
    } else if n == 4 {
        '4'
    } else if n == 5 {
        '5'
    } else if n == 6 {
        '6'
    } else if n == 7 {
        '7'
    } else if n == 8 {
        '8'
    } else if n == 9 {
        '9'
    } else if n == 10 {
        'a'
    } else if n == 11 {
        'b'
    } else if n == 12 {
        'c'
    } else if n == 13 {
        'd'
    } else if n == 14 {
        'e'
    } else {
        'f'
    }
}

/// How one character appears inside a JSON string literal: quote and
/// backslash are escaped, the named control characters use their short
/// escapes, the remaining control characters use `\u00XX`, and every other
/// character stands as itself.
pub open spec fn spec_escaped_char(c: char) -> Seq<char> {
    if c == '"' {
        seq!['\\', '"']
    } else if c == '\\' {
        seq!['\\', '\\']
    } else if c == '\u{0008}' {
        seq!['\\', 'b']
    } else if c == '\u{0009}' {
        seq!['\\', 't']
    } else if c == '\u{000A}' {
        seq!['\\', 'n']
    } else if c == '\u{000C}' {
        seq!['\\', 'f']
    } else if c == '\u{000D}' {
        seq!['\\', 'r']
    } else if (c as u32) < 0x20 {
        seq![
            '\\',
            'u',
            '0',
            '0',
            spec_hex_digit((c as u32) as int / 16),
            spec_hex_digit((c as u32) as int % 16),
        ]
    } else {
        seq![c]
    }
}

/// A character sequence escaped for use inside a JSON string literal.
pub open spec fn spec_escaped(s: Seq<char>) -> Seq<char>
    decreases s.len(),
{
    if s.len() == 0 {
        Seq::empty()
    } else {
        spec_escaped(s.drop_last()) + spec_escaped_char(s.last())
    }
}

/// A JSON string literal: the escaped content between double quotes.
pub open spec fn spec_json_string(s: Seq<char>) -> Seq<char> {
    seq!['"'] + spec_escaped(s) + seq!['"']
}

/// The batch entry for one dependency: a `versionKey` object naming the
/// fixed ecosystem, the dependency, and its declared version.
pub open spec fn spec_version_key(dep: (Seq<char>, Seq<char>)) -> Seq<char> {
    "{\"versionKey\":{\"system\":\"CARGO\",\"name\":"@ + spec_json_string(dep.0)
        + ",\"version\":"@ + spec_json_string(dep.1) + "}}"@
}

/// The comma-separated batch entries for a dependency sequence, in order.
pub open spec fn spec_requests_array(deps: Seq<(Seq<char>, Seq<char>)>) -> Seq<char>
    decreases deps.len(),
{
    if deps.len() == 0 {
        Seq::empty()
    } else if deps.len() == 1 {
        spec_version_key(deps[0])
    } else {
        spec_requests_array(deps.drop_last()) + seq![','] + spec_version_key(deps.last())
    }
}

/// The whole batch request body: one `requests` array holding every entry.
pub open spec fn spec_batch_body(deps: Seq<(Seq<char>, Seq<char>)>) -> Seq<char> {
    "{\"requests\":["@ + spec_requests_array(deps) + "]}"@
}

/// The lower-case hexadecimal digit for a value below sixteen.
fn hex_digit(n: u32) -> (c: char)
    requires
        n < 16,
    ensures
        c == spec_hex_digit(n as int),
{
    if n == 0 {
        '0'
    } else if n == 1 {
        '1'
    } else if n == 2 {
        '2'
    } else if n == 3 {
        '3'
    } else if n == 4 {
        '4'
    } else if n == 5 {
        '5'
    } else if n == 6 {
        '6'
    } else if n == 7 {
        '7'
    } else if n == 8 {
        '8'
    } else if n == 9 {
        '9'
    } else if n == 10 {
        'a'
    } else if n == 11 {
        'b'
    } else if n == 12 {
        'c'
    } else if n == 13 {
        'd'
    } else if n == 14 {
        'e'
    } else {
        'f'
    }
}

/// Appends the escaped form of `s` to `out`.
fn append_escaped(out: &mut String, s: &str)
    ensures
        final(out)@ == old(out)@ + spec_escaped(s@),
{
    let n = s.unicode_len();
    proof {
        assert(s@.take(0) =~= Seq::<char>::empty());
        assert(out@ =~= old(out)@ + spec_escaped(s@.take(0)));
    }
    let mut i: usize = 0;
    while i < n
        invariant
            n == s@.len(),
            i <= n,
            out@ == old(out)@ + spec_escaped(s@.take(i as int)),
        decreases n - i,
    {
        let c = s.get_char(i);
        if c == '"' {
            push_char(out, '\\');
            push_char(out, '"');
        } else if c == '\\' {
            push_char(out, '\\');
            push_char(out, '\\');
        } else if c == '\u{0008}' {
            push_char(out, '\\');
            push_char(out, 'b');
        } else if c == '\u{0009}' {
            push_char(out, '\\');
            push_char(out, 't');
        } else if c == '\u{000A}' {
            push_char(out, '\\');
            push_char(out, 'n');
        } else if c == '\u{000C}' {
            push_char(out, '\\');
            push_char(out, 'f');
        } else if c == '\u{000D}' {
            push_char(out, '\\');
            push_char(out, 'r');
        } else if (c as u32) < 0x20 {
            let v = c as u32;
            push_char(out, '\\');
            push_char(out, 'u');
            push_char(out, '0');
            push_char(out, '0');
            assert(v / 16 < 16 && v % 16 < 16);
            push_char(out, hex_digit(v / 16));
            push_char(out, hex_digit(v % 16));
        } else {
            push_char(out, c);
        }
        proof {
            assert(s@.take(i as int + 1).drop_last() =~= s@.take(i as int));
            assert(s@.take(i as int + 1).last() == s@[i as int]);
            assert(out@ =~= old(out)@ + spec_escaped(s@.take(i as int + 1)));
        }
        i += 1;
    }
    proof {
        assert(s@.take(n as int) =~= s@);
    }
}

/// Appends the JSON string literal for `s` to `out`.
fn append_json_string(out: &mut String, s: &str)
    ensures
        final(out)@ == old(out)@ + spec_json_string(s@),
{
    push_char(out, '"');
    append_escaped(out, s);
    push_char(out, '"');
    proof {
        assert(out@ =~= old(out)@ + spec_json_string(s@));
    }
}

/// Appends the batch entry for one dependency to `out`.
fn append_version_key(out: &mut String, dep: &DependencyDeclaration)
    ensures
        final(out)@ == old(out)@ + spec_version_key(dep@),
{
    out.append("{\"versionKey\":{\"system\":\"CARGO\",\"name\":");
    append_json_string(out, dep.name.as_str());
    out.append(",\"version\":");
    append_json_string(out, dep.version.as_str());
    out.append("}}");
    proof {
        assert(out@ =~= old(out)@ + spec_version_key(dep@));
    }
}

/// Serializes the extracted dependencies as the batch request body sent to
/// the metadata service: every dependency becomes one `versionKey` entry,
/// in order, with an empty version forwarded as an empty string.
pub fn build_batch_request(deps: &Vec<DependencyDeclaration>) -> (r: String)
    ensures
        r@ == spec_batch_body(deps_view(deps@)),
{
    let mut out = String::from_str("{\"requests\":[");
    let ghost dv = deps_view(deps@);
    proof {
        assert(dv.take(0) =~= Seq::<(Seq<char>, Seq<char>)>::empty());
        assert(out@ =~= "{\"requests\":["@ + spec_requests_array(dv.take(0)));
    }
    let n = deps.len();
    let mut i: usize = 0;
    while i < n
        invariant
            n == deps@.len(),
            i <= n,
            dv == deps_view(deps@),
            dv.len() == n,
            out@ == "{\"requests\":["@ + spec_requests_array(dv.take(i as int)),
        decreases n - i,
    {
        if i > 0 {
            out.append(",");
            proof {
                reveal_strlit(",");
                assert(","@ =~= seq![',']);
            }
        }
        let dep = &deps[i];
        append_version_key(&mut out, dep);
        proof {
            assert(dv[i as int] == deps@[i as int]@);
            assert(dv.take(i as int + 1).drop_last() =~= dv.take(i as int));
            assert(dv.take(i as int + 1).last() == dv[i as int]);
            assert(out@ =~= "{\"requests\":["@ + spec_requests_array(dv.take(i as int + 1)));
        }
        i += 1;
    }
    out.append("]}");
    proof {
        assert(dv.take(n as int) =~= dv);
        assert(out@ =~= spec_batch_body(dv));
    }
    out
}

/// The computing half of the dump command up to the network: extracts the
/// manifest's dependencies and serializes the batch request body, or says
/// why the manifest yields none.
pub fn prepare_dump_request(manifest_text: &str) -> (r: Result<String, ExtractError>)
    ensures
        match r {
            Ok(body) => spec_extract(manifest_tree_of(manifest_text@)) is Ok && body@
                == spec_batch_body(spec_extract(manifest_tree_of(manifest_text@))->Ok_0),
            Err(e) => spec_extract(manifest_tree_of(manifest_text@)) == Err::<
                Seq<(Seq<char>, Seq<char>)>,
                ExtractError,
            >(e),
        },
{
    match get_rust_deps(manifest_text) {
        Ok(deps) => Ok(build_batch_request(&deps)),
        Err(e) => Err(e),
    }
}

} // verus!
