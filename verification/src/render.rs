//! The diagnostic textual rendering of a compile command: a JSON-like dump of
//! the fields that are present, in a fixed order. The rendering is lossy —
//! string values are not re-escaped — and is meant for human eyes only: it is
//! not guaranteed to be valid JSON and must not be relied on for re-parsing.

use vstd::prelude::*;

use crate::model::CompileArgs;
use crate::model::CompileArgsView;
use crate::model::CompileCommand;
use crate::model::CompileCommandView;
use crate::model::SourceFile;
use crate::model::SourceFileView;
use crate::model::string_views;
use vstd::string::StringExecFns;

verus! {

/// The rendering of the items of an argument or flags list, following the
/// opening bracket: each item quoted and comma-separated, then the closing
/// bracket.
pub open spec fn spec_render_items(items: Seq<Seq<char>>) -> Seq<char>
    decreases items.len(),
{
    if items.len() == 0 {
        "],\n"@
    } else if items.len() == 1 {
        "\""@ + items[0] + "\"],\n"@
    } else {
        "\""@ + items[0] + "\", \n"@ + spec_render_items(items.drop_first())
    }
}

/// The rendering of a whole compile command: `directory`, then the argument
/// or flags list if present, then `command` if present, then `output` if
/// present, then `file` (`All` rendered as the bare token `all`).
pub open spec fn spec_render(c: CompileCommandView) -> Seq<char> {
    "{ \"directory\": \""@ + c.directory + "\",\n"@ + (match c.arguments {
        Option::None => Seq::empty(),
        Option::Some(CompileArgsView::Arguments(args)) => "\"arguments\": ["@ + spec_render_items(
            args,
        ),
        Option::Some(CompileArgsView::Flags(fl)) => "\"flags\": ["@ + spec_render_items(fl),
    }) + (match c.command {
        Option::None => Seq::empty(),
        Option::Some(cmd) => "\"command\": \""@ + cmd + "\""@,
    }) + (match c.output {
        Option::None => Seq::empty(),
        Option::Some(o) => "\"output\": \""@ + o + "\"\n"@,
    }) + (match c.file {
        SourceFileView::All => "\"file\": all }"@,
        SourceFileView::File(f) => "\"file\": \""@ + f + "\" }"@,
    })
}

/// Renders the items of a list from position `i` on.
fn render_items_from(items: &Vec<String>, i: usize) -> (r: String)
    requires
        i <= items@.len(),
    ensures
        r@ == spec_render_items(string_views(items@).skip(i as int)),
    decreases items@.len() - i,
{
    let ghost tail = string_views(items@).skip(i as int);
    if i == items.len() {
        proof {
            assert(tail =~= Seq::<Seq<char>>::empty());
        }
        String::from_str("],\n")
    } else if i + 1 == items.len() {
        proof {
            assert(tail.len() == 1);
            assert(tail[0] == items@[i as int]@);
        }
        let mut s = String::from_str("\"");
        s.append(items[i].as_str());
        s.append("\"],\n");
        s
    } else {
        proof {
            assert(tail.len() >= 2);
            assert(tail[0] == items@[i as int]@);
            assert(tail.drop_first() =~= string_views(items@).skip(i + 1 as int));
        }
        let mut s = String::from_str("\"");
        s.append(items[i].as_str());
        s.append("\", \n");
        let rest = render_items_from(items, i + 1);
        s.append(rest.as_str());
        s
    }
}

impl CompileCommand {
    /// Renders this entry as a JSON-like textual dump for diagnostics and
    /// debugging. The rendering is lossy with respect to escaping inside
    /// string values (none is re-applied), need not be valid JSON — `All` is
    /// rendered as the unquoted token `all` — and is not guaranteed to decode
    /// back; do not rely on it for re-parsing.
    pub fn render(&self) -> (r: String)
        ensures
            r@ == spec_render(self@),
    {
        let mut s = String::from_str("{ \"directory\": \"");
        s.append(self.directory.as_str());
        s.append("\",\n");
        let ghost head = s@;
        match &self.arguments {
            Option::Some(CompileArgs::Arguments(args)) => {
                s.append("\"arguments\": [");
                assert(string_views(args@).skip(0) =~= string_views(args@));
                let t = render_items_from(args, 0);
                s.append(t.as_str());
                assert(s@ =~= head + ("\"arguments\": ["@ + spec_render_items(
                    string_views(args@),
                )));
            },
            Option::Some(CompileArgs::Flags(fl)) => {
                s.append("\"flags\": [");
                assert(string_views(fl@).skip(0) =~= string_views(fl@));
                let t = render_items_from(fl, 0);
                s.append(t.as_str());
                assert(s@ =~= head + ("\"flags\": ["@ + spec_render_items(string_views(fl@))));
            },
            Option::None => {
                assert(s@ =~= head + Seq::<char>::empty());
            },
        }
        let ghost mid1 = s@;
        match &self.command {
            Option::Some(cmd) => {
                s.append("\"command\": \"");
                s.append(cmd.as_str());
                s.append("\"");
                assert(s@ =~= mid1 + ("\"command\": \""@ + cmd@ + "\""@));
            },
            Option::None => {
                assert(s@ =~= mid1 + Seq::<char>::empty());
            },
        }
        let ghost mid2 = s@;
        match &self.output {
            Option::Some(o) => {
                s.append("\"output\": \"");
                s.append(o.as_str());
                s.append("\"\n");
                assert(s@ =~= mid2 + ("\"output\": \""@ + o@ + "\"\n"@));
            },
            Option::None => {
                assert(s@ =~= mid2 + Seq::<char>::empty());
            },
        }
        let ghost mid3 = s@;
        match &self.file {
            SourceFile::All => {
                s.append("\"file\": all }");
                assert(s@ =~= mid3 + "\"file\": all }"@);
            },
            SourceFile::File(f) => {
                s.append("\"file\": \"");
                s.append(f.as_str());
                s.append("\" }");
                assert(s@ =~= mid3 + ("\"file\": \""@ + f@ + "\" }"@));
            },
        }
        proof {
            assert(s@ =~= spec_render(self@));
        }
        s
    }
}

} // verus!
