use compile_commands::CompileArgs;
use compile_commands::DecodeError;
use compile_commands::JsonValue;
use compile_commands::SourceFile;
use compile_commands::database_from_json_str;
use compile_commands::decode_compile_args;
use compile_commands::decode_compile_command;
use compile_commands::decode_database;
use compile_commands::decode_source_file;

fn jstr(s: &str) -> JsonValue {
    JsonValue::Str(String::from(s))
}

fn entry(fields: Vec<(&str, JsonValue)>) -> JsonValue {
    JsonValue::Object(fields.into_iter().map(|(k, v)| (String::from(k), v)).collect())
}

#[test]
fn well_formed_array_decodes_in_order() {
    let doc = JsonValue::Array(vec![
        entry(vec![("directory", jstr("/a")), ("file", jstr("x.c"))]),
        entry(vec![
            ("directory", jstr("/b")),
            ("file", jstr("y.c")),
            ("command", jstr("cc y.c")),
            ("output", jstr("y.o")),
        ]),
    ]);
    let db = decode_database(&doc).unwrap();
    assert_eq!(db.len(), 2);
    assert_eq!(db[0].directory, "/a");
    assert_eq!(db[0].file, SourceFile::File(String::from("x.c")));
    assert!(db[0].arguments.is_none());
    assert!(db[0].command.is_none());
    assert!(db[0].output.is_none());
    assert_eq!(db[1].directory, "/b");
    assert_eq!(db[1].file, SourceFile::File(String::from("y.c")));
    assert_eq!(db[1].command.as_deref(), Some("cc y.c"));
    assert_eq!(db[1].output.as_deref(), Some("y.o"));
}

#[test]
fn empty_array_decodes_to_empty_database() {
    let db = decode_database(&JsonValue::Array(Vec::new())).unwrap();
    assert!(db.is_empty());
}

#[test]
fn source_file_from_string_is_file() {
    let decoded = decode_source_file(&jstr("m.c")).unwrap();
    assert_eq!(decoded, SourceFile::File(String::from("m.c")));
}

#[test]
fn source_file_from_non_string_is_type_mismatch() {
    let err = decode_source_file(&JsonValue::Number).unwrap_err();
    assert_eq!(
        err,
        DecodeError::TypeMismatch(String::from("a string representing a file path"))
    );
    let err = decode_source_file(&JsonValue::Null).unwrap_err();
    assert!(matches!(err, DecodeError::TypeMismatch(_)));
}

#[test]
fn arguments_preserve_length_and_order() {
    let doc = JsonValue::Array(vec![jstr("g++"), jstr("-O2"), jstr("m.c")]);
    let decoded = decode_compile_args(&doc).unwrap();
    assert_eq!(
        decoded,
        CompileArgs::Arguments(vec![
            String::from("g++"),
            String::from("-O2"),
            String::from("m.c"),
        ])
    );
}

#[test]
fn empty_arguments_array_is_valid() {
    let decoded = decode_compile_args(&JsonValue::Array(Vec::new())).unwrap();
    assert_eq!(decoded, CompileArgs::Arguments(Vec::new()));
}

#[test]
fn non_string_argument_element_is_type_mismatch() {
    let doc = JsonValue::Array(vec![jstr("g++"), JsonValue::Bool(true)]);
    let err = decode_compile_args(&doc).unwrap_err();
    assert_eq!(
        err,
        DecodeError::TypeMismatch(String::from(
            "a string representing a command line argument"
        ))
    );
}

#[test]
fn non_array_arguments_value_is_type_mismatch() {
    let err = decode_compile_args(&jstr("g++ -O2")).unwrap_err();
    assert_eq!(
        err,
        DecodeError::TypeMismatch(String::from("an array of command line arguments"))
    );
}

#[test]
fn missing_directory_is_reported() {
    let err = decode_compile_command(&entry(vec![("file", jstr("x.c"))])).unwrap_err();
    assert_eq!(err, DecodeError::MissingField(String::from("directory")));
}

#[test]
fn missing_file_is_reported() {
    let err = decode_compile_command(&entry(vec![("directory", jstr("/a"))])).unwrap_err();
    assert_eq!(err, DecodeError::MissingField(String::from("file")));
}

#[test]
fn non_string_directory_is_type_mismatch() {
    let err = decode_compile_command(&entry(vec![
        ("directory", JsonValue::Number),
        ("file", jstr("x.c")),
    ]))
    .unwrap_err();
    assert_eq!(
        err,
        DecodeError::TypeMismatch(String::from("a string representing a directory path"))
    );
}

#[test]
fn non_string_command_is_type_mismatch() {
    let err = decode_compile_command(&entry(vec![
        ("directory", jstr("/a")),
        ("file", jstr("x.c")),
        ("command", JsonValue::Array(Vec::new())),
    ]))
    .unwrap_err();
    assert_eq!(
        err,
        DecodeError::TypeMismatch(String::from(
            "a string containing the escaped compile command"
        ))
    );
}

#[test]
fn non_string_output_is_type_mismatch() {
    let err = decode_compile_command(&entry(vec![
        ("directory", jstr("/a")),
        ("file", jstr("x.c")),
        ("output", JsonValue::Bool(false)),
    ]))
    .unwrap_err();
    assert_eq!(
        err,
        DecodeError::TypeMismatch(String::from("a string representing an output file path"))
    );
}

#[test]
fn non_object_entry_is_type_mismatch() {
    let err = decode_compile_command(&jstr("not an object")).unwrap_err();
    assert_eq!(
        err,
        DecodeError::TypeMismatch(String::from("an object describing one compile step"))
    );
}

#[test]
fn non_array_document_is_type_mismatch() {
    let err = decode_database(&entry(vec![("directory", jstr("/a"))])).unwrap_err();
    assert_eq!(
        err,
        DecodeError::TypeMismatch(String::from("an array of compile command entries"))
    );
}

#[test]
fn one_bad_entry_fails_the_whole_decode() {
    let doc = JsonValue::Array(vec![
        entry(vec![("directory", jstr("/a")), ("file", jstr("x.c"))]),
        jstr("broken"),
    ]);
    assert!(decode_database(&doc).is_err());
}

#[test]
fn json_text_decodes_end_to_end() {
    let text = r#"[
        {
            "directory": "/home/user/llvm/build",
            "arguments": ["/usr/bin/clang++", "-Irelative", "-c", "-o", "file.o", "file.cc"],
            "file": "file.cc"
        }
    ]"#;
    let db = database_from_json_str(text).unwrap();
    assert_eq!(db.len(), 1);
    assert_eq!(db[0].directory, "/home/user/llvm/build");
    assert_eq!(db[0].file, SourceFile::File(String::from("file.cc")));
    assert_eq!(
        db[0].arguments,
        Some(CompileArgs::Arguments(vec![
            String::from("/usr/bin/clang++"),
            String::from("-Irelative"),
            String::from("-c"),
            String::from("-o"),
            String::from("file.o"),
            String::from("file.cc"),
        ]))
    );
}

#[test]
fn json_text_with_command_tokenizes_end_to_end() {
    let text = r#"[{"directory": "/d", "file": "a.cc", "command": "cc -DX=\"1 2\" a.cc"}]"#;
    let db = database_from_json_str(text).unwrap();
    assert_eq!(db.len(), 1);
    let args = db[0].args_from_cmd().unwrap();
    assert_eq!(args, vec!["cc", "-DX=\"1 2\"", "a.cc"]);
}

#[test]
fn text_that_is_not_json_is_a_syntax_error() {
    let err = database_from_json_str("not json at all {").unwrap_err();
    assert_eq!(err, DecodeError::Syntax);
}

#[test]
fn json_entry_with_wrong_field_type_fails_end_to_end() {
    let text = r#"[{"directory": "/d", "file": 3}]"#;
    let err = database_from_json_str(text).unwrap_err();
    assert_eq!(
        err,
        DecodeError::TypeMismatch(String::from("a string representing a file path"))
    );
}
