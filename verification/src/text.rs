//! Character-level text utilities shared by the tokenizer, the flags-file
//! adapter and the renderer: whitespace classification, conversions between
//! `&str`/`String` and `Vec<char>`, trimming, and two-character replacement.

use vstd::prelude::*;
use vstd::string::StrSliceExecFns;

verus! {

/// Appends one character to a `String`.
/// Relies on `String::push`: appends the given char to the end of the string.
pub assume_specification[ String::push ](s: &mut String, ch: char)
    ensures
        final(s)@ == old(s)@.push(ch),
;

/// Whether `c` carries the Unicode `White_Space` property, the class of
/// characters that separate tokens in a shell-escaped command string.
pub open spec fn is_ws_char(c: char) -> bool {
    ||| c as u32 == 0x9
    ||| c as u32 == 0xA
    ||| c as u32 == 0xB
    ||| c as u32 == 0xC
    ||| c as u32 == 0xD
    ||| c as u32 == 0x20
    ||| c as u32 == 0x85
    ||| c as u32 == 0xA0
    ||| c as u32 == 0x1680
    ||| (0x2000 <= c as u32 && c as u32 <= 0x200A)
    ||| c as u32 == 0x2028
    ||| c as u32 == 0x2029
    ||| c as u32 == 0x202F
    ||| c as u32 == 0x205F
    ||| c as u32 == 0x3000
}

/// Decides whitespace exactly as `is_ws_char` does.
pub fn is_ws(c: char) -> (r: bool)
    ensures
        r == is_ws_char(c),
{
    let n = c as u32;
    n == 0x9 || n == 0xA || n == 0xB || n == 0xC || n == 0xD || n == 0x20 || n == 0x85
        || n == 0xA0 || n == 0x1680 || (0x2000 <= n && n <= 0x200A) || n == 0x2028
        || n == 0x2029 || n == 0x202F || n == 0x205F || n == 0x3000
}

/// The characters of `s`, in order.
pub fn chars_of(s: &str) -> (r: Vec<char>)
    ensures
        r@ == s@,
{
    let n = s.unicode_len();
    let mut v: Vec<char> = Vec::new();
    let mut i: usize = 0;
    while i < n
        invariant
            i <= n,
            n == s@.len(),
            v@ == s@.take(i as int),
        decreases n - i,
    {
        let c = s.get_char(i);
        v.push(c);
        assert(s@.take(i as int).push(s@[i as int]) =~= s@.take(i + 1 as int));
        i = i + 1;
    }
    assert(s@.take(n as int) =~= s@);
    v
}

/// A `String` holding exactly the characters of `v`, in order.
pub fn string_of_chars(v: &Vec<char>) -> (s: String)
    ensures
        s@ == v@,
{
    let mut s = String::new();
    let mut i: usize = 0;
    while i < v.len()
        invariant
            i <= v@.len(),
            s@ == v@.take(i as int),
        decreases v@.len() - i,
    {
        s.push(v[i]);
        assert(v@.take(i as int).push(v@[i as int]) =~= v@.take(i + 1 as int));
        i = i + 1;
    }
    assert(v@.take(v@.len() as int) =~= v@);
    s
}

/// Whether two string slices hold the same characters.
pub fn str_eq(a: &str, b: &str) -> (r: bool)
    ensures
        r == (a@ == b@),
{
    let n = a.unicode_len();
    let m = b.unicode_len();
    if n != m {
        return false;
    }
    let mut i: usize = 0;
    while i < n
        invariant
            i <= n,
            n == a@.len(),
            n == b@.len(),
            forall|j: int| 0 <= j < i ==> a@[j] == b@[j],
        decreases n - i,
    {
        let ca = a.get_char(i);
        let cb = b.get_char(i);
        if ca != cb {
            return false;
        }
        i = i + 1;
    }
    assert(a@ =~= b@);
    true
}

/// `s` with its leading whitespace removed.
pub open spec fn spec_trim_start(s: Seq<char>) -> Seq<char>
    decreases s.len(),
{
    if s.len() > 0 && is_ws_char(s[0]) {
        spec_trim_start(s.drop_first())
    } else {
        s
    }
}

/// `s` with its trailing whitespace removed.
pub open spec fn spec_trim_end(s: Seq<char>) -> Seq<char>
    decreases s.len(),
{
    if s.len() > 0 && is_ws_char(s.last()) {
        spec_trim_end(s.drop_last())
    } else {
        s
    }
}

/// `s` with leading and trailing whitespace removed.
pub open spec fn spec_trim(s: Seq<char>) -> Seq<char> {
    spec_trim_end(spec_trim_start(s))
}

/// Removes leading and trailing whitespace from `v`.
pub fn trim_chars(v: &Vec<char>) -> (r: Vec<char>)
    ensures
        r@ == spec_trim(v@),
{
    let len = v.len();
    let mut lo: usize = 0;
    assert(v@.skip(0) =~= v@);
    while lo < len && is_ws(v[lo])
        invariant
            lo <= len,
            len == v@.len(),
            spec_trim_start(v@) == spec_trim_start(v@.skip(lo as int)),
        decreases len - lo,
    {
        assert(v@.skip(lo as int).drop_first() =~= v@.skip(lo + 1 as int));
        lo = lo + 1;
    }
    assert(spec_trim_start(v@) =~= v@.skip(lo as int));
    let mut hi: usize = len;
    while hi > lo && is_ws(v[hi - 1])
        invariant
            lo <= hi <= len,
            len == v@.len(),
            spec_trim_start(v@) == v@.skip(lo as int),
            spec_trim(v@) == spec_trim_end(v@.subrange(lo as int, hi as int)),
        decreases hi,
    {
        assert(v@.subrange(lo as int, hi as int).last() == v@[hi - 1]);
        assert(v@.subrange(lo as int, hi as int).drop_last() =~= v@.subrange(
            lo as int,
            hi - 1 as int,
        ));
        hi = hi - 1;
    }
    assert(spec_trim_end(v@.subrange(lo as int, hi as int)) =~= v@.subrange(lo as int, hi as int));
    let mut r: Vec<char> = Vec::new();
    let mut j: usize = lo;
    while j < hi
        invariant
            lo <= j <= hi <= len,
            len == v@.len(),
            r@ == v@.subrange(lo as int, j as int),
        decreases hi - j,
    {
        r.push(v[j]);
        assert(v@.subrange(lo as int, j as int).push(v@[j as int]) =~= v@.subrange(
            lo as int,
            j + 1 as int,
        ));
        j = j + 1;
    }
    r
}

/// `s` with each leftmost, non-overlapping occurrence of the two-character
/// pattern `a b` replaced by the single character `r`.
pub open spec fn spec_replace2(s: Seq<char>, a: char, b: char, r: char) -> Seq<char>
    decreases s.len(),
{
    if s.len() >= 2 && s[0] == a && s[1] == b {
        seq![r] + spec_replace2(s.skip(2), a, b, r)
    } else if s.len() >= 1 {
        seq![s[0]] + spec_replace2(s.skip(1), a, b, r)
    } else {
        Seq::empty()
    }
}

/// Replaces each leftmost, non-overlapping occurrence of the adjacent pair
/// `a b` in `v` by the single character `rep`.
pub fn replace_pair(v: &Vec<char>, a: char, b: char, rep: char) -> (out: Vec<char>)
    ensures
        out@ == spec_replace2(v@, a, b, rep),
{
    let len = v.len();
    let mut out: Vec<char> = Vec::new();
    let mut i: usize = 0;
    assert(v@.skip(0) =~= v@);
    assert(Seq::<char>::empty() + spec_replace2(v@, a, b, rep) =~= spec_replace2(v@, a, b, rep));
    while i < len
        invariant
            i <= len,
            len == v@.len(),
            spec_replace2(v@, a, b, rep) == out@ + spec_replace2(v@.skip(i as int), a, b, rep),
        decreases len - i,
    {
        let ghost tail = v@.skip(i as int);
        if i + 1 < len && v[i] == a && v[i + 1] == b {
            proof {
                assert(tail.len() >= 2);
                assert(tail[0] == v@[i as int]);
                assert(tail[1] == v@[i + 1 as int]);
                assert(tail.skip(2) =~= v@.skip(i + 2 as int));
                assert((out@ + seq![rep]) + spec_replace2(v@.skip(i + 2 as int), a, b, rep) =~= out@
                    + (seq![rep] + spec_replace2(v@.skip(i + 2 as int), a, b, rep)));
            }
            out.push(rep);
            i = i + 2;
        } else {
            proof {
                assert(tail.len() >= 1);
                assert(tail[0] == v@[i as int]);
                if tail.len() >= 2 {
                    assert(tail[1] == v@[i + 1 as int]);
                }
                assert(tail.skip(1) =~= v@.skip(i + 1 as int));
                assert((out@ + seq![v@[i as int]]) + spec_replace2(v@.skip(i + 1 as int), a, b, rep)
                    =~= out@ + (seq![v@[i as int]] + spec_replace2(v@.skip(i + 1 as int), a, b, rep)));
            }
            let c = v[i];
            out.push(c);
            i = i + 1;
        }
    }
    assert(v@.skip(len as int) =~= Seq::<char>::empty());
    assert(out@ + Seq::<char>::empty() =~= out@);
    out
}

} // verus!
