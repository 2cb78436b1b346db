//! The data model of a compilation database: which source file an entry
//! applies to, the two kinds of argument lists, one compile command entry, and
//! the database as an ordered sequence of entries. Each executable type has a
//! mathematical view over `Seq<char>` that the contracts speak of.

use vstd::prelude::*;

verus! {

/// Which translation unit a database entry applies to: `All` when the database
/// was synthesized from a flags file and the same flags apply to every file,
/// `File` when the entry names one path (absolute, or relative to the entry's
/// `directory`).
#[derive(Debug, Clone, Hash, PartialEq, Eq)]
pub enum SourceFile {
    All,
    File(String),
}

/// The view of a `SourceFile`: the named path as a character sequence, or the
/// marker for "every file".
pub enum SourceFileView {
    All,
    File(Seq<char>),
}

impl View for SourceFile {
    type V = SourceFileView;

    open spec fn view(&self) -> SourceFileView {
        match self {
            SourceFile::All => SourceFileView::All,
            SourceFile::File(p) => SourceFileView::File(p@),
        }
    }
}

/// The argument list of an entry. `Arguments` is a ready-to-execute argv whose
/// first element is the compiler executable; it is the only variant JSON
/// decoding produces. `Flags` holds one flag per line of a flags file and is
/// not directly executable: the caller must prepend an invocation mechanism.
/// Only the flags-file adapter produces `Flags`.
#[derive(Debug, Clone, Hash, PartialEq, Eq)]
pub enum CompileArgs {
    Arguments(Vec<String>),
    Flags(Vec<String>),
}

/// The view of a `CompileArgs`: the same tag over a sequence of character
/// sequences.
pub enum CompileArgsView {
    Arguments(Seq<Seq<char>>),
    Flags(Seq<Seq<char>>),
}

/// The views of the strings of `items`, in order.
pub open spec fn string_views(items: Seq<String>) -> Seq<Seq<char>> {
    items.map_values(|s: String| s@)
}

impl View for CompileArgs {
    type V = CompileArgsView;

    open spec fn view(&self) -> CompileArgsView {
        match self {
            CompileArgs::Arguments(args) => CompileArgsView::Arguments(string_views(args@)),
            CompileArgs::Flags(flags) => CompileArgsView::Flags(string_views(flags@)),
        }
    }
}

/// One entry of a compilation database: the exact compiler invocation recorded
/// for one compile step.
///
/// At least one of `arguments` and `command` should be present; when both are,
/// `arguments` is authoritative, since it avoids shell re-escaping ambiguity.
/// The type itself does not enforce that convention.
#[derive(Debug, Clone)]
pub struct CompileCommand {
    /// The working directory of the compilation. All paths in the `command` or
    /// `file` fields are either absolute or relative to this directory.
    pub directory: String,
    /// The main translation unit of this compile step, the key tools use into
    /// the database. Several entries may name the same file.
    pub file: SourceFile,
    /// The compile command as an argv list, ready to execute with no further
    /// unescaping; element 0 is the executable name.
    pub arguments: Option<CompileArgs>,
    /// The compile command as a single shell-escaped string, in which `"` and
    /// `\` are the only special characters. Shell expansion is not supported.
    pub command: Option<String>,
    /// The output file of this compile step, which disambiguates entries that
    /// process the same input in different modes.
    pub output: Option<String>,
}

/// The view of a `CompileCommand`: every field as character sequences.
pub struct CompileCommandView {
    pub directory: Seq<char>,
    pub file: SourceFileView,
    pub arguments: Option<CompileArgsView>,
    pub command: Option<Seq<char>>,
    pub output: Option<Seq<char>>,
}

impl View for CompileCommand {
    type V = CompileCommandView;

    open spec fn view(&self) -> CompileCommandView {
        CompileCommandView {
            directory: self.directory@,
            file: self.file@,
            arguments: match &self.arguments {
                Option::None => Option::None,
                Option::Some(a) => Option::Some(a@),
            },
            command: match &self.command {
                Option::None => Option::None,
                Option::Some(c) => Option::Some(c@),
            },
            output: match &self.output {
                Option::None => Option::None,
                Option::Some(o) => Option::Some(o@),
            },
        }
    }
}

/// A whole decoded compilation database: the entries of the source file, in
/// source order. No deduplication or indexing is performed.
pub type CompilationDatabase = Vec<CompileCommand>;

/// The views of the entries of `db`, in order.
pub open spec fn database_view(db: Seq<CompileCommand>) -> Seq<CompileCommandView> {
    db.map_values(|c: CompileCommand| c@)
}

} // verus!
