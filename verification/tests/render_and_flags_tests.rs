use compile_commands::CompileArgs;
use compile_commands::CompileCommand;
use compile_commands::SourceFile;
use compile_commands::database_from_json_str;
use compile_commands::from_compile_flags_txt;
use compile_commands::split_lines;

#[test]
fn flags_file_builds_one_entry_database() {
    let db = from_compile_flags_txt("/proj", "-Wall\n-O2\n-std=c++17");
    assert_eq!(db.len(), 1);
    assert_eq!(db[0].directory, "/proj");
    assert_eq!(db[0].file, SourceFile::All);
    assert_eq!(
        db[0].arguments,
        Some(CompileArgs::Flags(vec![
            String::from("-Wall"),
            String::from("-O2"),
            String::from("-std=c++17"),
        ]))
    );
    assert!(db[0].command.is_none());
    assert!(db[0].output.is_none());
}

#[test]
fn split_lines_of_empty_text_is_empty() {
    assert_eq!(split_lines(""), Vec::<String>::new());
}

#[test]
fn split_lines_final_line_ending_is_optional() {
    assert_eq!(split_lines("a\nb"), vec!["a", "b"]);
    assert_eq!(split_lines("a\nb\n"), vec!["a", "b"]);
}

#[test]
fn split_lines_keeps_empty_middle_lines() {
    assert_eq!(split_lines("a\n\nb"), vec!["a", "", "b"]);
}

#[test]
fn split_lines_strips_carriage_return_before_line_feed_only() {
    assert_eq!(split_lines("a\r\nb"), vec!["a", "b"]);
    assert_eq!(split_lines("a\rb"), vec!["a\rb"]);
    assert_eq!(split_lines("a\r"), vec!["a\r"]);
}

#[test]
fn split_lines_preserves_line_whitespace_verbatim() {
    assert_eq!(split_lines("  -Wall \n\t-O2"), vec!["  -Wall ", "\t-O2"]);
}

#[test]
fn render_flags_entry_exactly() {
    let db = from_compile_flags_txt("/proj", "-Wall");
    let rendered = db[0].render();
    assert_eq!(
        rendered,
        "{ \"directory\": \"/proj\",\n\"flags\": [\"-Wall\"],\n\"file\": all }"
    );
}

#[test]
fn render_full_entry_exactly() {
    let cmd = CompileCommand {
        directory: String::from("d"),
        file: SourceFile::File(String::from("a.c")),
        arguments: Some(CompileArgs::Arguments(vec![
            String::from("cc"),
            String::from("-c"),
        ])),
        command: Some(String::from("cc -c")),
        output: Some(String::from("a.o")),
    };
    let expected = "{ \"directory\": \"d\",\n\"arguments\": [\"cc\", \n\"-c\"],\n\"command\": \"cc -c\"\"output\": \"a.o\"\n\"file\": \"a.c\" }";
    assert_eq!(cmd.render(), expected);
}

#[test]
fn render_empty_arguments_list_exactly() {
    let cmd = CompileCommand {
        directory: String::from("d"),
        file: SourceFile::File(String::from("a.c")),
        arguments: Some(CompileArgs::Arguments(Vec::new())),
        command: None,
        output: None,
    };
    assert_eq!(
        cmd.render(),
        "{ \"directory\": \"d\",\n\"arguments\": [],\n\"file\": \"a.c\" }"
    );
}

#[test]
fn rendering_is_documented_as_not_round_trippable() {
    // The rendering is a diagnostic dump only: it is documented as lossy and
    // not guaranteed to decode back, so this test shows a rendering that is
    // rejected by the decoder rather than asserting any round-trip equality.
    let db = from_compile_flags_txt("/proj", "-Wall");
    let rendered = db[0].render();
    assert!(database_from_json_str(&rendered).is_err());
}
