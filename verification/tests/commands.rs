use depsdev::command::{check_slash_command, complete_slash_command_argument};

#[test]
fn known_command_is_accepted() {
    assert!(check_slash_command("depsdev-dump").is_ok());
}

#[test]
fn unknown_command_error_names_the_command() {
    let err = check_slash_command("frobnicate").unwrap_err();
    assert_eq!(err, "unknown slash command: \"frobnicate\"");
}

#[test]
fn near_miss_command_names_are_rejected() {
    assert_eq!(
        check_slash_command("depsdev-dum").unwrap_err(),
        "unknown slash command: \"depsdev-dum\""
    );
    assert_eq!(
        check_slash_command("depsdev-dumpp").unwrap_err(),
        "unknown slash command: \"depsdev-dumpp\""
    );
}

#[test]
fn completion_of_known_command_is_empty() {
    let completions = complete_slash_command_argument("depsdev-dump").unwrap();
    assert_eq!(completions.len(), 0);
}

#[test]
fn completion_of_unknown_command_names_it() {
    let err = complete_slash_command_argument("depsdev-lookup").unwrap_err();
    assert_eq!(err, "unknown slash command: \"depsdev-lookup\"");
}
