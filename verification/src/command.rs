use vstd::prelude::*;

verus! {

use vstd::string::StringExecFns;

use crate::text::str_eq;

/// One completion offered for the command's argument; the dump command
/// offers none.
#[derive(Debug)]
pub struct ArgumentCompletion {
    pub label: String,
    pub new_text: String,
    pub run_command: bool,
}

/// The error text for a command name this integration does not know.
pub open spec fn spec_unknown_command_text(name: Seq<char>) -> Seq<char> {
    "unknown slash command: \""@ + name + "\""@
}

/// The error message naming an unrecognized command.
pub fn unknown_command_message(name: &str) -> (r: String)
    ensures
        r@ == spec_unknown_command_text(name@),
{
    let mut s = String::from_str("unknown slash command: \"");
    s.append(name);
    s.append("\"");
    s
}

/// Accepts exactly the dump command's name; any other name is rejected
/// with an error naming it.
pub fn check_slash_command(name: &str) -> (r: Result<(), String>)
    ensures
        name@ == "depsdev-dump"@ ==> r is Ok,
        name@ != "depsdev-dump"@ ==> r is Err && r->Err_0@ == spec_unknown_command_text(name@),
{
    if str_eq(name, "depsdev-dump") {
        Ok(())
    } else {
        Err(unknown_command_message(name))
    }
}

/// The argument completions for a command: the dump command takes no
/// argument, so it completes to nothing; any other name is rejected with
/// an error naming it.
pub fn complete_slash_command_argument(name: &str) -> (r: Result<Vec<ArgumentCompletion>, String>)
    ensures
        name@ == "depsdev-dump"@ ==> r is Ok && r->Ok_0@.len() == 0,
        name@ != "depsdev-dump"@ ==> r is Err && r->Err_0@ == spec_unknown_command_text(name@),
{
    if str_eq(name, "depsdev-dump") {
        Ok(Vec::new())
    } else {
        Err(unknown_command_message(name))
    }
}

} // verus!
