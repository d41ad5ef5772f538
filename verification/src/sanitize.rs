//! Making text safe for the medium it is written to: escaping for a JSON
//! string, and flattening to a single line.

use vstd::prelude::*;
use vstd::std_specs::iter::IteratorSpec;
use vstd::string::StringExecFns;

verus! {

/// The control characters: the Unicode category `Cc`.
pub open spec fn is_control(c: char) -> bool {
    c as u32 <= 0x1F || 0x7F <= c as u32 <= 0x9F
}

/// Whether `c` is a control character.
pub fn control(c: char) -> (b: bool)
    ensures
        b == is_control(c),
{
    let n: u32 = c as u32;
    n <= 0x1F || (0x7F <= n && n <= 0x9F)
}

/// Whether `t` holds no control character, so that it is one line.
pub open spec fn is_plain(t: Seq<char>) -> bool {
    forall|i: int| 0 <= i < t.len() ==> !is_control(#[trigger] t[i])
}

/// Two texts without control characters, one behind the other, hold none.
pub proof fn lemma_plain_concat(a: Seq<char>, b: Seq<char>)
    requires
        is_plain(a),
        is_plain(b),
    ensures
        is_plain(a + b),
{
}

/// The lower-case hexadecimal digit for `n`.
pub open spec fn hex_digit(n: int) -> char {
    if n == 0 {
        '0'
    } else if n == 1 {
        '1'
    } else if n == 2 {
        '2'
    } else if n == 3 {
        '3'
    } else if n == 4 {
        '4'
    } else if n == 5 {
        '5'
    } else if n == 6 {
        '6'
    } else if n == 7 {
        '7'
    } else if n == 8 {
        '8'
    } else if n == 9 {
        '9'
    } else if n == 10 {
        'a'
    } else if n == 11 {
        'b'
    } else if n == 12 {
        'c'
    } else if n == 13 {
        'd'
    } else if n == 14 {
        'e'
    } else {
        'f'
    }
}

/// Whether `c` is a lower-case hexadecimal digit.
pub open spec fn is_hex_digit(c: char) -> bool {
    exists|n: int| 0 <= n < 16 && c == #[trigger] hex_digit(n)
}

/// Whether a JSON string can hold `c` as it is.
pub open spec fn is_literal(c: char) -> bool {
    c != '"' && c != '\\' && !is_control(c)
}

/// How a JSON string writes `c`: a quotation mark and a backslash behind a
/// backslash, a control character by its number, any other character as it
/// is.
pub open spec fn escaped_char(c: char) -> Seq<char> {
    if c == '"' {
        seq!['\\', '"']
    } else if c == '\\' {
        seq!['\\', '\\']
    } else if is_control(c) {
        seq!['\\', 'u', '0', '0', hex_digit((c as u32 / 16) as int), hex_digit((c as u32 % 16) as int)]
    } else {
        seq![c]
    }
}

/// How a JSON string writes the text `s`.
pub open spec fn escaped(s: Seq<char>) -> Seq<char>
    decreases s.len(),
{
    if s.len() == 0 {
        Seq::empty()
    } else {
        escaped_char(s.first()) + escaped(s.drop_first())
    }
}

/// Whether `t` can stand between the quotation marks of a JSON string: it
/// holds no control character, no quotation mark but behind a backslash, and
/// every backslash begins an escape.
pub open spec fn well_escaped(t: Seq<char>) -> bool
    decreases t.len(),
{
    if t.len() == 0 {
        true
    } else if t[0] == '\\' {
        if t.len() >= 2 && (t[1] == '"' || t[1] == '\\') {
            well_escaped(t.skip(2))
        } else {
            &&& t.len() >= 6
            &&& t[1] == 'u'
            &&& is_hex_digit(t[2])
            &&& is_hex_digit(t[3])
            &&& is_hex_digit(t[4])
            &&& is_hex_digit(t[5])
            &&& well_escaped(t.skip(6))
        }
    } else {
        is_literal(t[0]) && well_escaped(t.skip(1))
    }
}

/// Escaping goes character by character: the escape of two texts in a row
/// is the two escapes in a row.
pub proof fn lemma_escaped_concat(a: Seq<char>, b: Seq<char>)
    ensures
        escaped(a + b) == escaped(a) + escaped(b),
    decreases a.len(),
{
    if a.len() > 0 {
        assert((a + b).drop_first() =~= a.drop_first() + b);
        lemma_escaped_concat(a.drop_first(), b);
    }
}

/// An escaped text can stand inside a JSON string.
pub proof fn lemma_escaped_is_well_escaped(s: Seq<char>)
    ensures
        well_escaped(escaped(s)),
    decreases s.len(),
{
    if s.len() > 0 {
        let c = s.first();
        let rest = escaped(s.drop_first());
        let t = escaped(s);
        lemma_escaped_is_well_escaped(s.drop_first());
        if c == '"' || c == '\\' {
            assert(t.skip(2) =~= rest);
        } else if is_control(c) {
            assert(is_hex_digit(hex_digit(0)));
            assert(t.skip(6) =~= rest);
        } else {
            assert(t.skip(1) =~= rest);
        }
    }
}

/// No hexadecimal digit is a control character.
proof fn lemma_hex_digit_is_plain(n: int)
    ensures
        !is_control(hex_digit(n)),
{
}

/// An escaped text holds no control character, so no line break.
pub proof fn lemma_escaped_is_plain(s: Seq<char>)
    ensures
        is_plain(escaped(s)),
    decreases s.len(),
{
    if s.len() > 0 {
        let c = s.first();
        lemma_hex_digit_is_plain((c as u32 / 16) as int);
        lemma_hex_digit_is_plain((c as u32 % 16) as int);
        lemma_escaped_is_plain(s.drop_first());
        lemma_plain_concat(escaped_char(c), escaped(s.drop_first()));
    }
}

/// The digit for `n` as a text of its own.
fn hex(n: u32) -> (d: &'static str)
    requires
        n < 16,
    ensures
        d@ == seq![hex_digit(n as int)],
{
    let d = if n == 0 {
        "0"
    } else if n == 1 {
        "1"
    } else if n == 2 {
        "2"
    } else if n == 3 {
        "3"
    } else if n == 4 {
        "4"
    } else if n == 5 {
        "5"
    } else if n == 6 {
        "6"
    } else if n == 7 {
        "7"
    } else if n == 8 {
        "8"
    } else if n == 9 {
        "9"
    } else if n == 10 {
        "a"
    } else if n == 11 {
        "b"
    } else if n == 12 {
        "c"
    } else if n == 13 {
        "d"
    } else if n == 14 {
        "e"
    } else {
        "f"
    };
    proof {
        reveal_strlit("0");
        reveal_strlit("1");
        reveal_strlit("2");
        reveal_strlit("3");
        reveal_strlit("4");
        reveal_strlit("5");
        reveal_strlit("6");
        reveal_strlit("7");
        reveal_strlit("8");
        reveal_strlit("9");
        reveal_strlit("a");
        reveal_strlit("b");
        reveal_strlit("c");
        reveal_strlit("d");
        reveal_strlit("e");
        reveal_strlit("f");
    }
    d
}

/// Writes `s` as a JSON string holds it, without the quotation marks around
/// it.
pub fn escape(s: &str) -> (out: String)
    ensures
        out@ == escaped(s@),
{
    broadcast use vstd::string::group_string_axioms;

    let total = s.unicode_len();
    let mut out = String::new();
    let mut rest = s.chars();
    let mut at: usize = 0;
    let mut done: usize = 0;
    loop
        invariant
            total == s@.len(),
            done <= at <= total,
            rest.obeys_prophetic_iter_laws(),
            rest.remaining() == s@.skip(at as int),
            forall|k: int| done <= k < at ==> is_literal(#[trigger] s@[k]),
            out@ + s@.subrange(done as int, at as int) == escaped(s@.take(at as int)),
        ensures
            at == total,
        decreases total - at,
    {
        match rest.next() {
            Some(c) => {
                let n: u32 = c as u32;
                proof {
                    lemma_escaped_concat(s@.take(at as int), seq![c]);
                    assert(s@.take(at + 1) =~= s@.take(at as int) + seq![c]);
                    assert(escaped(seq![c]) =~= escaped_char(c)) by {
                        assert(seq![c].drop_first() =~= Seq::<char>::empty());
                        assert(escaped(Seq::<char>::empty()) =~= Seq::<char>::empty());
                    }
                }
                if c == '"' || c == '\\' || control(c) {
                    out.append(s.substring_char(done, at));
                    if c == '"' {
                        out.append("\\\"");
                        proof {
                            reveal_strlit("\\\"");
                        }
                    } else if c == '\\' {
                        out.append("\\\\");
                        proof {
                            reveal_strlit("\\\\");
                        }
                    } else {
                        out.append("\\u00");
                        out.append(hex(n / 16));
                        out.append(hex(n % 16));
                        proof {
                            reveal_strlit("\\u00");
                        }
                    }
                    done = at + 1;
                }
                at = at + 1;
            },
            None => {
                break ;
            },
        }
    }
    out.append(s.substring_char(done, at));
    out
}

/// A control character gives way to a space; any other character stays.
pub open spec fn flat_char(c: char) -> char {
    if is_control(c) {
        ' '
    } else {
        c
    }
}

/// The text `s` on one line: every control character, line breaks among
/// them, is replaced by a space.
pub open spec fn flattened(s: Seq<char>) -> Seq<char> {
    s.map_values(|c: char| flat_char(c))
}

/// A flattened text is as long as the text and holds no control character,
/// so no line break.
pub proof fn lemma_flattened_is_plain(s: Seq<char>)
    ensures
        flattened(s).len() == s.len(),
        is_plain(flattened(s)),
{
}

/// Puts `s` on one line: a space stands for every control character.
pub fn flatten(s: &str) -> (out: String)
    ensures
        out@ == flattened(s@),
{
    broadcast use vstd::string::group_string_axioms;

    let total = s.unicode_len();
    let mut out = String::new();
    let mut rest = s.chars();
    let mut at: usize = 0;
    let mut done: usize = 0;
    loop
        invariant
            total == s@.len(),
            done <= at <= total,
            rest.obeys_prophetic_iter_laws(),
            rest.remaining() == s@.skip(at as int),
            forall|k: int| done <= k < at ==> !is_control(#[trigger] s@[k]),
            out@ + s@.subrange(done as int, at as int) == flattened(s@.take(at as int)),
        ensures
            at == total,
        decreases total - at,
    {
        match rest.next() {
            Some(c) => {
                let ghost sofar = out@ + s@.subrange(done as int, at as int);
                if control(c) {
                    out.append(s.substring_char(done, at));
                    out.append(" ");
                    proof {
                        reveal_strlit(" ");
                    }
                    done = at + 1;
                }
                assert(out@ + s@.subrange(done as int, at + 1) =~= sofar.push(flat_char(c)));
                at = at + 1;
            },
            None => {
                break ;
            },
        }
    }
    out.append(s.substring_char(done, at));
    out
}

} // verus!
