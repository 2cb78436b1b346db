//! The flags-file adapter. Clang tools also recognize a `compile_flags.txt`
//! file holding one compiler argument per line, applied uniformly to every
//! file of the project. This module splits such contents into lines and
//! builds the equivalent one-entry compilation database.

use vstd::prelude::*;

use crate::model::CompilationDatabase;
use crate::model::CompileArgs;
use crate::model::CompileArgsView;
use crate::model::CompileCommand;
use crate::model::CompileCommandView;
use crate::model::SourceFile;
use crate::model::SourceFileView;
use crate::model::string_views;
use crate::text::chars_of;
use crate::text::string_of_chars;
use vstd::string::StringExecFns;

verus! {

/// The position of the first line feed in `s`, or `s.len()` when there is
/// none.
pub open spec fn first_nl(s: Seq<char>) -> int
    decreases s.len(),
{
    if s.len() == 0 {
        0
    } else if s[0] == '\n' {
        0
    } else {
        1 + first_nl(s.drop_first())
    }
}

/// `first_nl` is the first line feed: no line feed stands before position `k`,
/// and either `k` is the end of `s` or a line feed stands at `k`, so `k` is
/// where the search ends.
pub proof fn lemma_first_nl(s: Seq<char>, k: int)
    requires
        0 <= k <= s.len(),
        forall|j: int| 0 <= j < k ==> s[j] != '\n',
        k == s.len() || s[k] == '\n',
    ensures
        first_nl(s) == k,
    decreases k,
{
    if k == 0 {
        if s.len() > 0 && s[0] != '\n' {
            assert(k < s.len() && s[k] == '\n');
        }
    } else {
        assert(s[0] != '\n');
        let tail = s.drop_first();
        assert forall|j: int| 0 <= j < k - 1 implies tail[j] != '\n' by {
            assert(tail[j] == s[j + 1]);
        }
        if k < s.len() {
            assert(tail[k - 1] == s[k]);
        }
        lemma_first_nl(tail, k - 1);
    }
}

/// The lines of `s`: pieces split at each line feed, a piece's trailing
/// carriage return removed when a line feed followed it, and with no final
/// empty piece when `s` ends in a line feed (so a trailing line ending is
/// optional). A carriage return not followed by a line feed splits nothing
/// and is kept verbatim.
pub open spec fn spec_lines(s: Seq<char>) -> Seq<Seq<char>>
    decreases s.len(),
{
    if s.len() == 0 {
        Seq::empty()
    } else {
        let i = first_nl(s);
        if i < 0 || i >= s.len() {
            seq![s]
        } else {
            let piece = s.subrange(0, i);
            let line = if piece.len() > 0 && piece[piece.len() - 1] == '\r' {
                piece.drop_last()
            } else {
                piece
            };
            seq![line] + spec_lines(s.skip(i + 1))
        }
    }
}

/// Splits `contents` into its lines, each line taken verbatim (no trimming
/// beyond the line ending itself).
pub fn split_lines(contents: &str) -> (r: Vec<String>)
    ensures
        string_views(r@) == spec_lines(contents@),
{
    let cs = chars_of(contents);
    let n = cs.len();
    let mut lines: Vec<String> = Vec::new();
    let mut cur: Vec<char> = Vec::new();
    let mut start: usize = 0;
    let mut i: usize = 0;
    assert(cs@.skip(0) =~= cs@);
    assert(string_views(lines@) + spec_lines(cs@) =~= spec_lines(cs@));
    while i < n
        invariant
            0 <= start <= i <= n,
            n == cs@.len(),
            cs@ == contents@,
            cur@ == cs@.subrange(start as int, i as int),
            forall|j: int| start <= j < i ==> cs@[j] != '\n',
            spec_lines(cs@) == string_views(lines@) + spec_lines(cs@.skip(start as int)),
        decreases n - i,
    {
        let ghost tail = cs@.skip(start as int);
        let c = cs[i];
        if c == '\n' {
            let ghost k = i - start;
            proof {
                assert forall|j: int| 0 <= j < k implies tail[j] != '\n' by {
                    assert(tail[j] == cs@[start + j]);
                }
                assert(tail[k] == cs@[i as int]);
                lemma_first_nl(tail, k);
                assert(tail.subrange(0, k) =~= cur@);
                assert(tail.skip(k + 1) =~= cs@.skip(i + 1 as int));
            }
            if cur.len() > 0 && cur[cur.len() - 1] == '\r' {
                cur.pop();
            }
            let ghost linev = cur@;
            let line = string_of_chars(&cur);
            let ghost prev = lines@;
            lines.push(line);
            proof {
                assert(string_views(lines@) =~= string_views(prev).push(linev));
                assert(spec_lines(tail) == seq![linev] + spec_lines(cs@.skip(i + 1 as int)));
                assert(string_views(prev).push(linev) + spec_lines(cs@.skip(i + 1 as int))
                    =~= string_views(prev) + (seq![linev] + spec_lines(cs@.skip(i + 1 as int))));
            }
            cur = Vec::new();
            start = i + 1;
            proof {
                assert(cur@ =~= cs@.subrange(start as int, i + 1 as int));
            }
        } else {
            cur.push(c);
            proof {
                assert(cur@ =~= cs@.subrange(start as int, i + 1 as int));
            }
        }
        i = i + 1;
    }
    let ghost tail = cs@.skip(start as int);
    proof {
        assert(tail =~= cur@);
        assert forall|j: int| 0 <= j < tail.len() implies tail[j] != '\n' by {
            assert(tail[j] == cs@[start + j]);
        }
    }
    if cur.len() > 0 {
        proof {
            lemma_first_nl(tail, tail.len() as int);
            assert(spec_lines(tail) == seq![tail]);
        }
        let ghost linev = cur@;
        let line = string_of_chars(&cur);
        let ghost prev = lines@;
        lines.push(line);
        proof {
            assert(string_views(lines@) =~= string_views(prev).push(linev));
            assert(string_views(prev).push(linev) =~= string_views(prev) + seq![linev]);
        }
    } else {
        proof {
            assert(string_views(lines@) + spec_lines(tail) =~= string_views(lines@));
        }
    }
    lines
}

/// Builds a one-entry compilation database from the contents of a
/// `compile_flags.txt` file: the entry applies to every file, carries one
/// flag per line of `contents`, each line verbatim, and has no `command` and
/// no `output`; `directory` is the caller-supplied base directory, unchanged.
/// No validation of flag syntax is performed.
#[must_use]
pub fn from_compile_flags_txt(directory: &str, contents: &str) -> (r: CompilationDatabase)
    ensures
        r@.len() == 1,
        r@[0]@ == (CompileCommandView {
            directory: directory@,
            file: SourceFileView::All,
            arguments: Option::Some(CompileArgsView::Flags(spec_lines(contents@))),
            command: Option::None,
            output: Option::None,
        }),
{
    let args = CompileArgs::Flags(split_lines(contents));
    let mut db: Vec<CompileCommand> = Vec::new();
    db.push(
        CompileCommand {
            directory: String::from_str(directory),
            file: SourceFile::All,
            arguments: Option::Some(args),
            command: Option::None,
            output: Option::None,
        },
    );
    db
}

} // verus!
