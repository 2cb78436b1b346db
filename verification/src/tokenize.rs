//! The shell-command tokenizer: converts the single shell-escaped `command`
//! string of an entry into the equivalent ordered argument list.
//!
//! Per the compilation-database format, `"` and `\` are the only special
//! characters and no shell expansion is supported. The string is trimmed, the
//! escape sequences `\\` and `\"` are un-done, and the result is split on
//! unquoted whitespace; a `"` toggles the quoted state (so whitespace between
//! quotes stays inside its token) and is kept in the token text. Runs of
//! unquoted whitespace act as one separator, so no empty token is ever
//! produced. An unterminated quote is not an error: scanning simply ends in
//! the quoted state and the trailing token, if non-empty, is still emitted.

use vstd::prelude::*;

use crate::model::CompileCommand;
use crate::model::string_views;
use crate::text::chars_of;
use crate::text::is_ws;
use crate::text::is_ws_char;
use crate::text::replace_pair;
use crate::text::spec_replace2;
use crate::text::spec_trim;
use crate::text::trim_chars;

verus! {

/// The scanner state after some prefix of the input: the tokens emitted so
/// far, the characters of the token being built, and whether the scanner
/// stands inside a quoted span.
#[verifier::ext_equal]
pub struct TokState {
    pub tokens: Seq<Seq<char>>,
    pub cur: Seq<char>,
    pub in_quotes: bool,
}

/// The scanner state before any input.
pub open spec fn tok_init() -> TokState {
    TokState { tokens: Seq::empty(), cur: Seq::empty(), in_quotes: false }
}

/// One scanner step: a quote toggles the quoted state and joins the current
/// token; unquoted whitespace ends the current token if it is non-empty and is
/// otherwise skipped; every other character joins the current token.
pub open spec fn tok_step(st: TokState, c: char) -> TokState {
    if c == '"' {
        TokState { tokens: st.tokens, cur: st.cur.push('"'), in_quotes: !st.in_quotes }
    } else if is_ws_char(c) && !st.in_quotes {
        if st.cur.len() > 0 {
            TokState { tokens: st.tokens.push(st.cur), cur: Seq::empty(), in_quotes: st.in_quotes }
        } else {
            st
        }
    } else {
        TokState { tokens: st.tokens, cur: st.cur.push(c), in_quotes: st.in_quotes }
    }
}

/// The scanner state after the first `n` characters of `s`.
pub open spec fn tok_run(s: Seq<char>, n: int) -> TokState
    decreases n,
{
    if n <= 0 {
        tok_init()
    } else {
        tok_step(tok_run(s, n - 1), s[n - 1])
    }
}

/// The tokens of `s`: the scanner is run over all of `s` and the final token,
/// if non-empty, is emitted even without trailing whitespace.
pub open spec fn spec_tokenize(s: Seq<char>) -> Seq<Seq<char>> {
    let st = tok_run(s, s.len() as int);
    if st.cur.len() > 0 {
        st.tokens.push(st.cur)
    } else {
        st.tokens
    }
}

/// `s` with its two escape sequences un-done: first every `\\` becomes `\`,
/// then every `\"` of the result becomes `"`.
pub open spec fn spec_unescape(s: Seq<char>) -> Seq<char> {
    spec_replace2(spec_replace2(s, '\\', '\\', '\\'), '\\', '"', '"')
}

/// What `args_from_cmd` yields for a present command string `cmd`: the tokens
/// of the trimmed, un-escaped text.
pub open spec fn spec_args_from_cmd(cmd: Seq<char>) -> Seq<Seq<char>> {
    spec_tokenize(spec_unescape(spec_trim(cmd)))
}

/// Splits the already un-escaped character sequence `u` into tokens on
/// unquoted whitespace.
pub fn tokenize(u: &Vec<char>) -> (tokens: Vec<String>)
    ensures
        string_views(tokens@) == spec_tokenize(u@),
{
    let mut tokens: Vec<String> = Vec::new();
    let mut cur: String = String::new();
    let mut in_q: bool = false;
    let mut i: usize = 0;
    assert(string_views(tokens@) =~= tok_init().tokens);
    while i < u.len()
        invariant
            i <= u@.len(),
            string_views(tokens@) == tok_run(u@, i as int).tokens,
            cur@ == tok_run(u@, i as int).cur,
            in_q == tok_run(u@, i as int).in_quotes,
        decreases u@.len() - i,
    {
        let ghost prev = tok_run(u@, i as int);
        assert(tok_run(u@, i + 1 as int) == tok_step(prev, u@[i as int]));
        let c = u[i];
        if c == '"' {
            cur.push('"');
            in_q = !in_q;
        } else if is_ws(c) && !in_q {
            if !cur.as_str().is_empty() {
                let ghost done = cur@;
                tokens.push(cur);
                cur = String::new();
                assert(string_views(tokens@) =~= prev.tokens.push(done));
            }
        } else {
            cur.push(c);
        }
        i = i + 1;
    }
    if !cur.as_str().is_empty() {
        let ghost done = cur@;
        let ghost st = tok_run(u@, u@.len() as int);
        tokens.push(cur);
        assert(string_views(tokens@) =~= st.tokens.push(done));
    }
    tokens
}

impl CompileCommand {
    /// Transforms the `command` field, if present, into the equivalent
    /// argument list: the string is trimmed, escaped `\` and `"` characters
    /// are replaced with their literals, and the result is split on unquoted
    /// whitespace. An absent `command` yields `None`, which differs from the
    /// empty list that an empty or all-whitespace command string yields.
    pub fn args_from_cmd(&self) -> (r: Option<Vec<String>>)
        ensures
            self.command is None <==> r is None,
            self.command matches Some(cmd) ==> (r matches Some(args) && string_views(args@)
                == spec_args_from_cmd(cmd@)),
    {
        let cmd = match &self.command {
            Option::Some(c) => c,
            Option::None => {
                return Option::None;
            },
        };
        let raw = chars_of(cmd.as_str());
        let trimmed = trim_chars(&raw);
        let unescaped_bs = replace_pair(&trimmed, '\\', '\\', '\\');
        let unescaped = replace_pair(&unescaped_bs, '\\', '"', '"');
        Option::Some(tokenize(&unescaped))
    }
}

} // verus!
