//! Small text helpers: comparing two texts and trimming white space.

use vstd::prelude::*;
use vstd::std_specs::iter::IteratorSpec;

verus! {

/// Whether two texts hold the same characters.
pub fn same_text(a: &str, b: &str) -> (same: bool)
    ensures
        same == (a@ == b@),
{
    broadcast use vstd::string::group_string_axioms;

    let mut left = a.chars();
    let mut right = b.chars();
    let ghost mut seen: int = 0;
    loop
        invariant
            0 <= seen <= a@.len(),
            seen <= b@.len(),
            left.obeys_prophetic_iter_laws(),
            right.obeys_prophetic_iter_laws(),
            left.remaining() == a@.skip(seen),
            right.remaining() == b@.skip(seen),
            a@.take(seen) == b@.take(seen),
        decreases a@.len() - seen,
    {
        let x = left.next();
        let y = right.next();
        match (x, y) {
            (None, None) => {
                assert(a@ == a@.take(seen));
                assert(b@ == b@.take(seen));
                return true;
            },
            (Some(p), Some(q)) => {
                if p != q {
                    return false;
                }
                proof {
                    seen = seen + 1;
                }
            },
            _ => {
                return false;
            },
        }
    }
}

/// The characters with the Unicode property `White_Space`.
pub open spec fn is_white_space(c: char) -> bool {
    let n = c as u32;
    ||| 0x09 <= n <= 0x0D
    ||| n == 0x20
    ||| n == 0x85
    ||| n == 0xA0
    ||| n == 0x1680
    ||| 0x2000 <= n <= 0x200A
    ||| n == 0x2028
    ||| n == 0x2029
    ||| n == 0x202F
    ||| n == 0x205F
    ||| n == 0x3000
}

/// Whether `c` is white space.
pub fn white_space(c: char) -> (w: bool)
    ensures
        w == is_white_space(c),
{
    let n: u32 = c as u32;
    (0x09 <= n && n <= 0x0D) || n == 0x20 || n == 0x85 || n == 0xA0 || n == 0x1680 || (0x2000 <= n
        && n <= 0x200A) || n == 0x2028 || n == 0x2029 || n == 0x202F || n == 0x205F || n == 0x3000
}

/// The number of white-space characters at the front of `s`.
pub open spec fn leading_space(s: Seq<char>) -> nat
    decreases s.len(),
{
    if s.len() > 0 && is_white_space(s.first()) {
        1 + leading_space(s.drop_first())
    } else {
        0
    }
}

/// The number of white-space characters at the back of `s`.
pub open spec fn trailing_space(s: Seq<char>) -> nat
    decreases s.len(),
{
    if s.len() > 0 && is_white_space(s.last()) {
        1 + trailing_space(s.drop_last())
    } else {
        0
    }
}

/// `s` without the white space at its two ends.
pub open spec fn trimmed(s: Seq<char>) -> Seq<char> {
    let rest = s.skip(leading_space(s) as int);
    rest.take(rest.len() - trailing_space(rest))
}

/// A run of `n` white-space characters at the front, followed by something
/// else or by nothing, is the whole leading white space.
pub proof fn lemma_leading_space(s: Seq<char>, n: int)
    requires
        0 <= n <= s.len(),
        forall|k: int| 0 <= k < n ==> is_white_space(#[trigger] s[k]),
        n < s.len() ==> !is_white_space(s[n]),
    ensures
        leading_space(s) == n,
    decreases n,
{
    if n > 0 {
        lemma_leading_space(s.drop_first(), n - 1);
    }
}

/// A run of white-space characters from `n` to the end, preceded by something
/// else or by nothing, is the whole trailing white space.
pub proof fn lemma_trailing_space(s: Seq<char>, n: int)
    requires
        0 <= n <= s.len(),
        forall|k: int| n <= k < s.len() ==> is_white_space(#[trigger] s[k]),
        n > 0 ==> !is_white_space(s[n - 1]),
    ensures
        trailing_space(s) == s.len() - n,
    decreases s.len() - n,
{
    if n < s.len() {
        lemma_trailing_space(s.drop_last(), n);
    }
}

/// The part of `s` between its leading and its trailing white space.
pub fn trim(s: &str) -> (t: &str)
    ensures
        t@ == trimmed(s@),
{
    broadcast use vstd::string::group_string_axioms;

    let total = s.unicode_len();
    let mut rest = s.chars();
    let mut at: usize = 0;
    let mut from: usize = 0;
    let mut to: usize = 0;
    let mut found = false;
    loop
        invariant
            total == s@.len(),
            at <= total,
            rest.obeys_prophetic_iter_laws(),
            rest.remaining() == s@.skip(at as int),
            !found ==> from == 0 && to == 0,
            !found ==> forall|k: int| 0 <= k < at ==> is_white_space(#[trigger] s@[k]),
            found ==> from < to <= at,
            found ==> forall|k: int| 0 <= k < from ==> is_white_space(#[trigger] s@[k]),
            found ==> !is_white_space(s@[from as int]) && !is_white_space(s@[to - 1]),
            found ==> forall|k: int| to <= k < at ==> is_white_space(#[trigger] s@[k]),
        ensures
            at == total,
        decreases total - at,
    {
        match rest.next() {
            Some(c) => {
                if !white_space(c) {
                    if !found {
                        from = at;
                        found = true;
                    }
                    to = at + 1;
                }
                at = at + 1;
            },
            None => {
                break ;
            },
        }
    }
    let t = s.substring_char(from, to);
    proof {
        if found {
            lemma_leading_space(s@, from as int);
            lemma_trailing_space(s@.skip(from as int), to - from);
        } else {
            lemma_leading_space(s@, total as int);
        }
    }
    t
}

/// The value of an optional text.
pub open spec fn text_view(t: Option<String>) -> Option<Seq<char>> {
    match t {
        Some(t) => Some(t@),
        None => None,
    }
}

} // verus!
