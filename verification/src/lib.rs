//! A verified model of the compilation-database formats used by build tooling:
//! the JSON `compile_commands.json` file and the plain-text `compile_flags.txt`
//! file. The crate decodes entries from a shape-sniffed JSON value, tokenizes
//! shell-escaped command strings, renders entries for diagnostics, and builds a
//! database from a flags file.

pub mod decode;
pub mod flags;
pub mod json;
pub mod model;
pub mod render;
pub mod text;
pub mod tokenize;

pub use decode::DecodeError;
pub use decode::database_from_json_str;
pub use decode::decode_compile_args;
pub use decode::decode_compile_command;
pub use decode::decode_database;
pub use decode::decode_source_file;
pub use flags::from_compile_flags_txt;
pub use flags::split_lines;
pub use json::JsonValue;
pub use model::CompilationDatabase;
pub use model::CompileArgs;
pub use model::CompileCommand;
pub use model::SourceFile;
