use compile_commands::CompileCommand;
use compile_commands::SourceFile;

fn test_args_from_cmd(comp_cmd: &CompileCommand, expected_args: &Vec<&str>) {
    let translated_args = comp_cmd.args_from_cmd().unwrap();

    assert!(expected_args.len() == translated_args.len());
    for (expected, actual) in expected_args.iter().zip(translated_args.iter()) {
        assert!(expected == actual);
    }
}

#[test]
fn it_translates_args_from_empty_cmd() {
    let comp_cmd = CompileCommand {
        directory: String::new(),
        file: SourceFile::All,
        arguments: None,
        command: Some(String::from("")),
        output: None,
    };

    let expected_args: Vec<&str> = Vec::new();
    test_args_from_cmd(&comp_cmd, &expected_args);
}

#[test]
fn it_translates_args_from_cmd_1() {
    let comp_cmd = CompileCommand {
        directory: String::new(),
        file: SourceFile::All,
        arguments: None,
        command: Some(String::from(
            r#"/usr/bin/clang++ -Irelative -DSOMEDEF=\"With spaces, quotes and \\-es.\" -c -o file.o file.cc"#,
        )),
        output: None,
    };

    let expected_args: Vec<&str> = vec![
        "/usr/bin/clang++",
        "-Irelative",
        r#"-DSOMEDEF="With spaces, quotes and \-es.""#,
        "-c",
        "-o",
        "file.o",
        "file.cc",
    ];
    test_args_from_cmd(&comp_cmd, &expected_args);
}

#[test]
fn absent_command_yields_none_not_empty() {
    let comp_cmd = CompileCommand {
        directory: String::from("/proj"),
        file: SourceFile::File(String::from("a.c")),
        arguments: None,
        command: None,
        output: None,
    };
    assert!(comp_cmd.args_from_cmd().is_none());
}

#[test]
fn whitespace_only_command_yields_empty_list() {
    let comp_cmd = CompileCommand {
        directory: String::new(),
        file: SourceFile::All,
        arguments: None,
        command: Some(String::from(" \t\n  ")),
        output: None,
    };
    assert_eq!(comp_cmd.args_from_cmd(), Some(Vec::new()));
}

#[test]
fn quoted_whitespace_stays_inside_one_token() {
    let comp_cmd = CompileCommand {
        directory: String::new(),
        file: SourceFile::All,
        arguments: None,
        command: Some(String::from(r#"cc "a  b" c"#)),
        output: None,
    };
    let args = comp_cmd.args_from_cmd().unwrap();
    assert_eq!(args, vec!["cc", "\"a  b\"", "c"]);
}

#[test]
fn whitespace_runs_collapse_to_one_separator() {
    let comp_cmd = CompileCommand {
        directory: String::new(),
        file: SourceFile::All,
        arguments: None,
        command: Some(String::from("a   b\t\tc")),
        output: None,
    };
    let args = comp_cmd.args_from_cmd().unwrap();
    assert_eq!(args, vec!["a", "b", "c"]);
}

#[test]
fn unterminated_quote_still_emits_trailing_token() {
    let comp_cmd = CompileCommand {
        directory: String::new(),
        file: SourceFile::All,
        arguments: None,
        command: Some(String::from(r#"cc "unterminated span"#)),
        output: None,
    };
    let args = comp_cmd.args_from_cmd().unwrap();
    assert_eq!(args, vec!["cc", "\"unterminated span"]);
}

#[test]
fn escapes_are_undone_in_sequence() {
    // Doubled backslashes collapse first, then escaped quotes lose their
    // backslash. The un-escaped quote then toggles the quoted state, so the
    // rest of the string joins its token.
    let comp_cmd = CompileCommand {
        directory: String::new(),
        file: SourceFile::All,
        arguments: None,
        command: Some(String::from(r#"\\ \" x"#)),
        output: None,
    };
    let args = comp_cmd.args_from_cmd().unwrap();
    assert_eq!(args, vec!["\\", "\" x"]);
}
