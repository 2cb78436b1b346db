//! Shape-directed decoding of a compilation database from JSON values.
//!
//! The wire format carries no explicit variant tag, so every decoder inspects
//! the runtime shape of its JSON value and branches: a bare string becomes a
//! `SourceFile`, an array of strings becomes `CompileArgs::Arguments`, an
//! object becomes one `CompileCommand`, and the whole document must be an
//! array of such objects. Any other shape is a type-mismatch error carrying
//! the expected-shape description; an absent `directory` or `file` is a
//! missing-field error. A database decodes atomically: the first failing
//! entry fails the whole decode.

use vstd::prelude::*;

use crate::json::JsonValue;
use crate::json::spec_parse_json;
use crate::json::parse_json;
use crate::model::CompilationDatabase;
use crate::model::CompileArgs;
use crate::model::CompileArgsView;
use crate::model::CompileCommand;
use crate::model::CompileCommandView;
use crate::model::SourceFile;
use crate::model::SourceFileView;
use crate::model::database_view;
use crate::model::string_views;
use crate::text::str_eq;
use vstd::string::StringExecFns;

verus! {

/// Why a decode failed. Decoding has no other error classes: the tokenizer is
/// total and never fails.
#[derive(Debug, Clone, PartialEq, Eq)]
pub enum DecodeError {
    /// A JSON value had the wrong shape for its position; carries the
    /// expected-shape description.
    TypeMismatch(String),
    /// A required field (`directory` or `file`) was absent from an entry
    /// object; carries the field name.
    MissingField(String),
    /// The input text is not a JSON document at all.
    Syntax,
}

/// The view of a `DecodeError`: the same tag over character sequences.
pub enum DecodeErrorView {
    TypeMismatch(Seq<char>),
    MissingField(Seq<char>),
    Syntax,
}

impl View for DecodeError {
    type V = DecodeErrorView;

    open spec fn view(&self) -> DecodeErrorView {
        match self {
            DecodeError::TypeMismatch(m) => DecodeErrorView::TypeMismatch(m@),
            DecodeError::MissingField(f) => DecodeErrorView::MissingField(f@),
            DecodeError::Syntax => DecodeErrorView::Syntax,
        }
    }
}

/// The views of both sides of a decode result.
pub open spec fn res_view<T: View>(r: Result<T, DecodeError>) -> Result<T::V, DecodeErrorView> {
    match r {
        Result::Ok(t) => Result::Ok(t@),
        Result::Err(e) => Result::Err(e@),
    }
}

/// The views of both sides of a whole-database decode result.
pub open spec fn db_res_view(r: Result<CompilationDatabase, DecodeError>) -> Result<
    Seq<CompileCommandView>,
    DecodeErrorView,
> {
    match r {
        Result::Ok(db) => Result::Ok(database_view(db@)),
        Result::Err(e) => Result::Err(e@),
    }
}

/// A type-mismatch error carrying `expected`.
fn type_mismatch(expected: &str) -> (e: DecodeError)
    ensures
        e@ == DecodeErrorView::TypeMismatch(expected@),
{
    DecodeError::TypeMismatch(String::from_str(expected))
}

/// A missing-field error carrying `field`.
fn missing_field(field: &str) -> (e: DecodeError)
    ensures
        e@ == DecodeErrorView::MissingField(field@),
{
    DecodeError::MissingField(String::from_str(field))
}

/// What decoding a `file` field yields: a JSON string `s` becomes `File(s)`;
/// every other shape is a type mismatch.
pub open spec fn spec_decode_source_file(v: JsonValue) -> Result<SourceFileView, DecodeErrorView> {
    match v {
        JsonValue::Str(s) => Result::Ok(SourceFileView::File(s@)),
        _ => Result::Err(
            DecodeErrorView::TypeMismatch("a string representing a file path"@),
        ),
    }
}

/// Decodes one JSON value as a `SourceFile`.
pub fn decode_source_file(v: &JsonValue) -> (r: Result<SourceFile, DecodeError>)
    ensures
        res_view(r) == spec_decode_source_file(*v),
{
    match v {
        JsonValue::Str(s) => Result::Ok(SourceFile::File(s.clone())),
        _ => Result::Err(type_mismatch("a string representing a file path")),
    }
}

/// What decoding the elements of an `arguments` array yields: the strings in
/// array order; the first non-string element is a type mismatch.
pub open spec fn spec_decode_strings(elems: Seq<JsonValue>) -> Result<
    Seq<Seq<char>>,
    DecodeErrorView,
>
    decreases elems.len(),
{
    if elems.len() == 0 {
        Result::Ok(Seq::empty())
    } else {
        match elems[0] {
            JsonValue::Str(s) => match spec_decode_strings(elems.drop_first()) {
                Result::Ok(rest) => Result::Ok(seq![s@] + rest),
                Result::Err(e) => Result::Err(e),
            },
            _ => Result::Err(
                DecodeErrorView::TypeMismatch(
                    "a string representing a command line argument"@,
                ),
            ),
        }
    }
}

/// What decoding an `arguments` value yields: a JSON array of strings becomes
/// the `Arguments` variant (the `Flags` variant is never produced by JSON
/// decoding); any other shape is a type mismatch.
pub open spec fn spec_decode_compile_args(v: JsonValue) -> Result<
    CompileArgsView,
    DecodeErrorView,
> {
    match v {
        JsonValue::Array(elems) => match spec_decode_strings(elems@) {
            Result::Ok(args) => Result::Ok(CompileArgsView::Arguments(args)),
            Result::Err(e) => Result::Err(e),
        },
        _ => Result::Err(
            DecodeErrorView::TypeMismatch("an array of command line arguments"@),
        ),
    }
}

/// Decodes one JSON value as a `CompileArgs`. An empty array is valid and
/// yields an empty `Arguments` list.
pub fn decode_compile_args(v: &JsonValue) -> (r: Result<CompileArgs, DecodeError>)
    ensures
        res_view(r) == spec_decode_compile_args(*v),
{
    match v {
        JsonValue::Array(elems) => {
            let mut out: Vec<String> = Vec::new();
            let mut i: usize = 0;
            assert(elems@.skip(0) =~= elems@);
            assert(string_views(out@) + spec_decode_strings(elems@)->Ok_0 =~= spec_decode_strings(
                elems@,
            )->Ok_0);
            while i < elems.len()
                invariant
                    i <= elems@.len(),
                    *v == JsonValue::Array(*elems),
                    spec_decode_strings(elems@) == (match spec_decode_strings(
                        elems@.skip(i as int),
                    ) {
                        Result::Ok(rest) => Result::Ok::<_, DecodeErrorView>(
                            string_views(out@) + rest,
                        ),
                        Result::Err(e) => Result::Err(e),
                    }),
                decreases elems@.len() - i,
            {
                let ghost tail = elems@.skip(i as int);
                proof {
                    assert(tail.len() > 0);
                    assert(tail[0] == elems@[i as int]);
                    assert(tail.drop_first() =~= elems@.skip(i + 1 as int));
                }
                match &elems[i] {
                    JsonValue::Str(s) => {
                        let ghost sv = s@;
                        let ghost prev = out@;
                        out.push(s.clone());
                        proof {
                            assert(string_views(out@) =~= string_views(prev).push(sv));
                            if spec_decode_strings(elems@.skip(i + 1 as int)) is Ok {
                                let rest = spec_decode_strings(elems@.skip(i + 1 as int))->Ok_0;
                                assert(string_views(prev).push(sv) + rest =~= string_views(prev) + (
                                seq![sv] + rest));
                            }
                        }
                        i = i + 1;
                    },
                    _ => {
                        proof {
                            assert(!(elems@[i as int] is Str));
                            assert(spec_decode_strings(tail) == Result::Err::<Seq<Seq<char>>, _>(
                                DecodeErrorView::TypeMismatch(
                                    "a string representing a command line argument"@,
                                ),
                            ));
                        }
                        return Result::Err(
                            type_mismatch("a string representing a command line argument"),
                        );
                    },
                }
            }
            proof {
                assert(elems@.skip(elems@.len() as int) =~= Seq::<JsonValue>::empty());
                assert(string_views(out@) + Seq::<Seq<char>>::empty() =~= string_views(out@));
            }
            Result::Ok(CompileArgs::Arguments(out))
        },
        _ => Result::Err(type_mismatch("an array of command line arguments")),
    }
}

/// The views of the members of an object: each key as a character sequence,
/// beside its value.
pub open spec fn field_views(fields: Seq<(String, JsonValue)>) -> Seq<(Seq<char>, JsonValue)> {
    fields.map_values(|p: (String, JsonValue)| (p.0@, p.1))
}

/// The value of the first member of `fields` whose key is `key`, if any.
/// Later members under the same key are ignored.
pub open spec fn spec_lookup(fields: Seq<(Seq<char>, JsonValue)>, key: Seq<char>) -> Option<
    JsonValue,
>
    decreases fields.len(),
{
    if fields.len() == 0 {
        Option::None
    } else if fields[0].0 == key {
        Option::Some(fields[0].1)
    } else {
        spec_lookup(fields.drop_first(), key)
    }
}

/// Finds the first member of `fields` named `key`.
fn lookup_field<'a>(fields: &'a Vec<(String, JsonValue)>, key: &str) -> (r: Option<&'a JsonValue>)
    ensures
        match r {
            Option::Some(v) => spec_lookup(field_views(fields@), key@) == Option::Some(*v),
            Option::None => spec_lookup(field_views(fields@), key@) is None,
        },
{
    let mut i: usize = 0;
    assert(field_views(fields@).skip(0) =~= field_views(fields@));
    while i < fields.len()
        invariant
            i <= fields@.len(),
            spec_lookup(field_views(fields@), key@) == spec_lookup(
                field_views(fields@).skip(i as int),
                key@,
            ),
        decreases fields@.len() - i,
    {
        let ghost tail = field_views(fields@).skip(i as int);
        proof {
            assert(tail.len() > 0);
            assert(tail[0] == field_views(fields@)[i as int]);
            assert(tail.drop_first() =~= field_views(fields@).skip(i + 1 as int));
        }
        if str_eq(fields[i].0.as_str(), key) {
            return Option::Some(&fields[i].1);
        }
        i = i + 1;
    }
    Option::None
}

/// What decoding an optional string-valued field yields: an absent field is
/// `None`; a string is kept; any other shape is a type mismatch carrying
/// `expected`.
pub open spec fn spec_decode_opt_string(
    ov: Option<JsonValue>,
    expected: Seq<char>,
) -> Result<Option<Seq<char>>, DecodeErrorView> {
    match ov {
        Option::None => Result::Ok(Option::None),
        Option::Some(JsonValue::Str(s)) => Result::Ok(Option::Some(s@)),
        Option::Some(_) => Result::Err(DecodeErrorView::TypeMismatch(expected)),
    }
}

/// What decoding an optional `arguments` field yields.
pub open spec fn spec_decode_opt_args(ov: Option<JsonValue>) -> Result<
    Option<CompileArgsView>,
    DecodeErrorView,
> {
    match ov {
        Option::None => Result::Ok(Option::None),
        Option::Some(v) => match spec_decode_compile_args(v) {
            Result::Ok(a) => Result::Ok(Option::Some(a)),
            Result::Err(e) => Result::Err(e),
        },
    }
}

/// What decoding the members of one entry object yields. The fields are
/// examined in the order `directory`, `file`, `arguments`, `command`,
/// `output`; the first offending field decides the error. `directory` and
/// `file` are required, the rest are optional.
pub open spec fn spec_decode_entry_fields(fields: Seq<(Seq<char>, JsonValue)>) -> Result<
    CompileCommandView,
    DecodeErrorView,
> {
    match spec_lookup(fields, "directory"@) {
        Option::None => Result::Err(DecodeErrorView::MissingField("directory"@)),
        Option::Some(dv) => match dv {
            JsonValue::Str(dir) => match spec_lookup(fields, "file"@) {
                Option::None => Result::Err(DecodeErrorView::MissingField("file"@)),
                Option::Some(fv) => match spec_decode_source_file(fv) {
                    Result::Err(e) => Result::Err(e),
                    Result::Ok(file) => match spec_decode_opt_args(
                        spec_lookup(fields, "arguments"@),
                    ) {
                        Result::Err(e) => Result::Err(e),
                        Result::Ok(arguments) => match spec_decode_opt_string(
                            spec_lookup(fields, "command"@),
                            "a string containing the escaped compile command"@,
                        ) {
                            Result::Err(e) => Result::Err(e),
                            Result::Ok(command) => match spec_decode_opt_string(
                                spec_lookup(fields, "output"@),
                                "a string representing an output file path"@,
                            ) {
                                Result::Err(e) => Result::Err(e),
                                Result::Ok(output) => Result::Ok(
                                    CompileCommandView {
                                        directory: dir@,
                                        file,
                                        arguments,
                                        command,
                                        output,
                                    },
                                ),
                            },
                        },
                    },
                },
            },
            _ => Result::Err(
                DecodeErrorView::TypeMismatch("a string representing a directory path"@),
            ),
        },
    }
}

/// What decoding one entry yields: an object is decoded field by field; any
/// other shape is a type mismatch.
pub open spec fn spec_decode_entry(v: JsonValue) -> Result<CompileCommandView, DecodeErrorView> {
    match v {
        JsonValue::Object(fields) => spec_decode_entry_fields(field_views(fields@)),
        _ => Result::Err(
            DecodeErrorView::TypeMismatch("an object describing one compile step"@),
        ),
    }
}

/// Decodes one JSON value as a `CompileCommand`.
pub fn decode_compile_command(v: &JsonValue) -> (r: Result<CompileCommand, DecodeError>)
    ensures
        res_view(r) == spec_decode_entry(*v),
{
    let fields = match v {
        JsonValue::Object(fields) => fields,
        _ => {
            return Result::Err(type_mismatch("an object describing one compile step"));
        },
    };
    let directory = match lookup_field(fields, "directory") {
        Option::None => {
            return Result::Err(missing_field("directory"));
        },
        Option::Some(JsonValue::Str(s)) => s.clone(),
        Option::Some(_) => {
            return Result::Err(type_mismatch("a string representing a directory path"));
        },
    };
    let file = match lookup_field(fields, "file") {
        Option::None => {
            return Result::Err(missing_field("file"));
        },
        Option::Some(fv) => match decode_source_file(fv) {
            Result::Ok(f) => f,
            Result::Err(e) => {
                return Result::Err(e);
            },
        },
    };
    let arguments = match lookup_field(fields, "arguments") {
        Option::None => Option::None,
        Option::Some(av) => match decode_compile_args(av) {
            Result::Ok(a) => Option::Some(a),
            Result::Err(e) => {
                return Result::Err(e);
            },
        },
    };
    let command = match lookup_field(fields, "command") {
        Option::None => Option::None,
        Option::Some(JsonValue::Str(s)) => Option::Some(s.clone()),
        Option::Some(_) => {
            return Result::Err(type_mismatch("a string containing the escaped compile command"));
        },
    };
    let output = match lookup_field(fields, "output") {
        Option::None => Option::None,
        Option::Some(JsonValue::Str(s)) => Option::Some(s.clone()),
        Option::Some(_) => {
            return Result::Err(type_mismatch("a string representing an output file path"));
        },
    };
    Result::Ok(CompileCommand { directory, file, arguments, command, output })
}

/// What decoding a sequence of entries yields: each entry in order; the first
/// failing entry fails the whole decode.
pub open spec fn spec_decode_entries(elems: Seq<JsonValue>) -> Result<
    Seq<CompileCommandView>,
    DecodeErrorView,
>
    decreases elems.len(),
{
    if elems.len() == 0 {
        Result::Ok(Seq::empty())
    } else {
        match spec_decode_entry(elems[0]) {
            Result::Err(e) => Result::Err(e),
            Result::Ok(c) => match spec_decode_entries(elems.drop_first()) {
                Result::Err(e) => Result::Err(e),
                Result::Ok(rest) => Result::Ok(seq![c] + rest),
            },
        }
    }
}

/// What decoding a whole database document yields: an array is decoded entry
/// by entry; any other shape is a type mismatch.
pub open spec fn spec_decode_database(v: JsonValue) -> Result<
    Seq<CompileCommandView>,
    DecodeErrorView,
> {
    match v {
        JsonValue::Array(elems) => spec_decode_entries(elems@),
        _ => Result::Err(
            DecodeErrorView::TypeMismatch("an array of compile command entries"@),
        ),
    }
}

/// Decodes one JSON value as a whole `CompilationDatabase`. Decoding is
/// atomic: either every entry decodes, in source order, or the first error is
/// returned and no partial database is produced.
pub fn decode_database(v: &JsonValue) -> (r: Result<CompilationDatabase, DecodeError>)
    ensures
        db_res_view(r) == spec_decode_database(*v),
{
    let elems = match v {
        JsonValue::Array(elems) => elems,
        _ => {
            return Result::Err(type_mismatch("an array of compile command entries"));
        },
    };
    let mut out: Vec<CompileCommand> = Vec::new();
    let mut i: usize = 0;
    assert(elems@.skip(0) =~= elems@);
    assert(database_view(out@) + spec_decode_entries(elems@)->Ok_0 =~= spec_decode_entries(
        elems@,
    )->Ok_0);
    while i < elems.len()
        invariant
            i <= elems@.len(),
            *v == JsonValue::Array(*elems),
            spec_decode_entries(elems@) == (match spec_decode_entries(elems@.skip(i as int)) {
                Result::Ok(rest) => Result::Ok::<_, DecodeErrorView>(database_view(out@) + rest),
                Result::Err(e) => Result::Err(e),
            }),
        decreases elems@.len() - i,
    {
        let ghost tail = elems@.skip(i as int);
        proof {
            assert(tail.len() > 0);
            assert(tail[0] == elems@[i as int]);
            assert(tail.drop_first() =~= elems@.skip(i + 1 as int));
        }
        match decode_compile_command(&elems[i]) {
            Result::Err(e) => {
                return Result::Err(e);
            },
            Result::Ok(c) => {
                let ghost cv = c@;
                let ghost prev = out@;
                out.push(c);
                proof {
                    assert(database_view(out@) =~= database_view(prev).push(cv));
                    if spec_decode_entries(elems@.skip(i + 1 as int)) is Ok {
                        let rest = spec_decode_entries(elems@.skip(i + 1 as int))->Ok_0;
                        assert(database_view(prev).push(cv) + rest =~= database_view(prev) + (
                        seq![cv] + rest));
                    }
                }
                i = i + 1;
            },
        }
    }
    proof {
        assert(elems@.skip(elems@.len() as int) =~= Seq::<JsonValue>::empty());
        assert(database_view(out@) + Seq::<CompileCommandView>::empty() =~= database_view(out@));
    }
    Result::Ok(out)
}

/// Decodes a whole compilation database from JSON text: the text is parsed,
/// and the parsed value decoded as an array of entry objects. Text that is
/// not JSON yields `Syntax`; otherwise the result is exactly that of
/// `decode_database` on the parsed value.
pub fn database_from_json_str(s: &str) -> (r: Result<CompilationDatabase, DecodeError>)
    ensures
        spec_parse_json(s@) is None ==> (r matches Result::Err(e) && e@ == DecodeErrorView::Syntax),
        spec_parse_json(s@) matches Option::Some(v) ==> db_res_view(r) == spec_decode_database(v),
{
    match parse_json(s) {
        Option::None => Result::Err(DecodeError::Syntax),
        Option::Some(v) => decode_database(&v),
    }
}

/// Decoding a sequence of well-formed entry objects succeeds and preserves
/// entry count and order exactly: the result has one decoded entry per input
/// element, in the same position.
pub proof fn lemma_decode_entries_preserve_order(elems: Seq<JsonValue>)
    requires
        forall|i: int| 0 <= i < elems.len() ==> (#[trigger] spec_decode_entry(elems[i])) is Ok,
    ensures
        spec_decode_entries(elems) matches Result::Ok(db) && db.len() == elems.len() && (forall|
            i: int,
        |
            0 <= i < elems.len() ==> #[trigger] db[i] == spec_decode_entry(elems[i])->Ok_0),
    decreases elems.len(),
{
    if elems.len() > 0 {
        let tail = elems.drop_first();
        assert forall|i: int| 0 <= i < tail.len() implies (#[trigger] spec_decode_entry(
            tail[i],
        )) is Ok by {
            assert(tail[i] == elems[i + 1]);
        }
        lemma_decode_entries_preserve_order(tail);
        let c = spec_decode_entry(elems[0])->Ok_0;
        let rest = spec_decode_entries(tail)->Ok_0;
        let db = spec_decode_entries(elems)->Ok_0;
        assert(db == seq![c] + rest);
        assert forall|i: int| 0 <= i < elems.len() implies #[trigger] db[i] == spec_decode_entry(
            elems[i],
        )->Ok_0 by {
            if i > 0 {
                assert(db[i] == rest[i - 1]);
                assert(tail[i - 1] == elems[i]);
            }
        }
    }
}

/// Decoding a `file` field is exact: a JSON string `s` decodes to `File(s)`,
/// and every non-string value fails with the type-mismatch error carrying the
/// expected shape.
pub proof fn lemma_decode_source_file_exact(v: JsonValue)
    ensures
        v matches JsonValue::Str(s) ==> spec_decode_source_file(v) == Result::Ok::<
            _,
            DecodeErrorView,
        >(SourceFileView::File(s@)),
        !(v is Str) ==> spec_decode_source_file(v) == Result::Err::<SourceFileView, _>(
            DecodeErrorView::TypeMismatch("a string representing a file path"@),
        ),
{
}

/// Decoding an `arguments` array of strings is exact: the decoded list has
/// one element per input string, in the same order, each string preserved
/// without transformation.
pub proof fn lemma_decode_arguments_exact(elems: Seq<JsonValue>)
    requires
        forall|i: int| 0 <= i < elems.len() ==> (#[trigger] elems[i]) is Str,
    ensures
        spec_decode_strings(elems) matches Result::Ok(args) && args.len() == elems.len() && (forall|
            i: int,
        |
            0 <= i < elems.len() ==> #[trigger] args[i] == elems[i]->Str_0@),
    decreases elems.len(),
{
    if elems.len() > 0 {
        let tail = elems.drop_first();
        assert forall|i: int| 0 <= i < tail.len() implies (#[trigger] tail[i]) is Str by {
            assert(tail[i] == elems[i + 1]);
        }
        lemma_decode_arguments_exact(tail);
        let rest = spec_decode_strings(tail)->Ok_0;
        let args = spec_decode_strings(elems)->Ok_0;
        assert(args == seq![elems[0]->Str_0@] + rest);
        assert forall|i: int| 0 <= i < elems.len() implies #[trigger] args[i]
            == elems[i]->Str_0@ by {
            if i > 0 {
                assert(args[i] == rest[i - 1]);
                assert(tail[i - 1] == elems[i]);
            }
        }
    }
}

} // verus!

