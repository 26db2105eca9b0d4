//! Text-building helpers shared by the pretty-printer: decimal rendering of
//! integers, the indentation transformation applied to nested block bodies,
//! and a character-counting function used to state printing laws.

use core::fmt::Write;
use vstd::prelude::*;
use vstd::string::StringExecFns;

verus! {

/// The decimal digit character for a value in `0 ..= 9`.
pub open spec fn dec_digit(d: int) -> char {
    if d == 0 {
        '0'
    } else if d == 1 {
        '1'
    } else if d == 2 {
        '2'
    } else if d == 3 {
        '3'
    } else if d == 4 {
        '4'
    } else if d == 5 {
        '5'
    } else if d == 6 {
        '6'
    } else if d == 7 {
        '7'
    } else if d == 8 {
        '8'
    } else {
        '9'
    }
}

/// The decimal rendering of a non-negative integer, without sign or padding.
pub open spec fn dec_str(n: int) -> Seq<char>
    recommends
        n >= 0,
    decreases n,
{
    if n < 10 {
        seq![dec_digit(n)]
    } else {
        dec_str(n / 10) + seq![dec_digit(n % 10)]
    }
}

/// The decimal rendering of a signed integer: a `-` sign for negative values,
/// then the digits of the magnitude.
pub open spec fn int_str(n: int) -> Seq<char> {
    if n < 0 {
        seq!['-'] + dec_str(-n)
    } else {
        dec_str(n)
    }
}

fn digit_string(d: u32) -> (r: String)
    requires
        d < 10,
    ensures
        r@ == seq![dec_digit(d as int)],
{
    let s: &str = if d == 0 {
        "0"
    } else if d == 1 {
        "1"
    } else if d == 2 {
        "2"
    } else if d == 3 {
        "3"
    } else if d == 4 {
        "4"
    } else if d == 5 {
        "5"
    } else if d == 6 {
        "6"
    } else if d == 7 {
        "7"
    } else if d == 8 {
        "8"
    } else {
        "9"
    };
    proof {
        reveal_strlit("0");
        reveal_strlit("1");
        reveal_strlit("2");
        reveal_strlit("3");
        reveal_strlit("4");
        reveal_strlit("5");
        reveal_strlit("6");
        reveal_strlit("7");
        reveal_strlit("8");
        reveal_strlit("9");
        assert(s@ =~= seq![dec_digit(d as int)]);
    }
    s.to_owned()
}

/// Renders an unsigned 32-bit value in decimal.
pub fn render_u32(n: u32) -> (r: String)
    ensures
        r@ == dec_str(n as int),
    decreases n,
{
    if n < 10 {
        digit_string(n)
    } else {
        let mut s = render_u32(n / 10);
        let d = digit_string(n % 10);
        s.append(d.as_str());
        s
    }
}

/// Renders a signed 32-bit value in decimal, with a leading `-` if negative.
pub fn render_i32(n: i32) -> (r: String)
    ensures
        r@ == int_str(n as int),
{
    if n >= 0 {
        render_u32(n as u32)
    } else {
        let mag_wide: i64 = -(n as i64);
        let mag: u32 = mag_wide as u32;
        let mut s = "-".to_owned();
        let digits = render_u32(mag);
        s.append(digits.as_str());
        proof {
            reveal_strlit("-");
            assert(s@ =~= int_str(n as int));
        }
        s
    }
}

/// The indentation transformation applied to a block's inner statement
/// lines: every non-empty line gains a four-space prefix, empty lines stay
/// empty. `at_line_start` says whether the next character begins a line.
pub open spec fn indent_chars(s: Seq<char>, at_line_start: bool) -> Seq<char>
    decreases s.len(),
{
    if s.len() == 0 {
        Seq::<char>::empty()
    } else if s[0] == '\n' {
        seq!['\n'] + indent_chars(s.skip(1), true)
    } else if at_line_start {
        seq![' ', ' ', ' ', ' ', s[0]] + indent_chars(s.skip(1), false)
    } else {
        seq![s[0]] + indent_chars(s.skip(1), false)
    }
}

/// The text of `s` with each of its non-empty lines indented one level.
pub open spec fn indent_text(s: Seq<char>) -> Seq<char> {
    indent_chars(s, true)
}

/// Appends `s` to `out` with every non-empty line of `s` prefixed by four
/// spaces, followed by a final newline.
///
/// Relies on `indenter::indented`, whose writer inserts a four-space uniform
/// indentation before the first character of each non-empty line and leaves
/// empty lines untouched, and on `writeln!`, which appends `\n`; writing to a
/// `String` sink never fails.
#[verifier::external_body]
pub fn append_indented_line(out: &mut String, s: &str)
    ensures
        final(out)@ == old(out)@ + indent_text(s@) + seq!['\n'],
{
    let _ = writeln!(indenter::indented(out), "{}", s);
}

/// Position `j` begins a line of `s`: it is the first position, or the
/// position right after a newline.
pub open spec fn line_start(s: Seq<char>, j: int) -> bool {
    0 <= j < s.len() && (j == 0 || s[j - 1] == '\n')
}

proof fn lemma_indent_chars_line_prefix(s: Seq<char>, at_line_start: bool, j: int)
    requires
        0 <= j < indent_chars(s, at_line_start).len(),
        (j == 0 && at_line_start) || (j > 0 && indent_chars(s, at_line_start)[j - 1] == '\n'),
        indent_chars(s, at_line_start)[j] != '\n',
    ensures
        j + 4 <= indent_chars(s, at_line_start).len(),
        indent_chars(s, at_line_start)[j] == ' ',
        indent_chars(s, at_line_start)[j + 1] == ' ',
        indent_chars(s, at_line_start)[j + 2] == ' ',
        indent_chars(s, at_line_start)[j + 3] == ' ',
    decreases s.len(),
{
    let t = indent_chars(s, at_line_start);
    if s.len() == 0 {
    } else if s[0] == '\n' {
        let rest = indent_chars(s.skip(1), true);
        assert(t == seq!['\n'] + rest);
        assert(j >= 1);
        if j == 1 {
            lemma_indent_chars_line_prefix(s.skip(1), true, 0);
        } else {
            assert(t[j - 1] == rest[j - 2]);
            lemma_indent_chars_line_prefix(s.skip(1), true, j - 1);
        }
    } else if at_line_start {
        let rest = indent_chars(s.skip(1), false);
        assert(t == seq![' ', ' ', ' ', ' ', s[0]] + rest);
        if j == 0 {
            assert(t[0] == ' ' && t[1] == ' ' && t[2] == ' ' && t[3] == ' ');
        } else {
            assert(j > 5) by {
                if j <= 4 {
                    assert(t[j - 1] == ' ');
                } else if j == 5 {
                    assert(t[4] == s[0]);
                }
            }
            assert(t[j - 1] == rest[j - 6]);
            lemma_indent_chars_line_prefix(s.skip(1), false, j - 5);
        }
    } else {
        let rest = indent_chars(s.skip(1), false);
        assert(t == seq![s[0]] + rest);
        assert(j >= 1);
        assert(j > 1) by {
            if j == 1 {
                assert(t[0] == s[0]);
            }
        }
        assert(t[j - 1] == rest[j - 2]);
        lemma_indent_chars_line_prefix(s.skip(1), false, j - 1);
    }
}

/// Every non-empty line of an indented text begins with four spaces: the
/// indentation transformation puts each such line one level deeper.
pub proof fn lemma_indent_text_line_prefix(s: Seq<char>, j: int)
    requires
        line_start(indent_text(s), j),
        indent_text(s)[j] != '\n',
    ensures
        j + 4 <= indent_text(s).len(),
        indent_text(s)[j] == ' ',
        indent_text(s)[j + 1] == ' ',
        indent_text(s)[j + 2] == ' ',
        indent_text(s)[j + 3] == ' ',
{
    lemma_indent_chars_line_prefix(s, true, j);
}

/// How many times the character `c` occurs in `s`.
pub open spec fn count_char(s: Seq<char>, c: char) -> int
    decreases s.len(),
{
    if s.len() == 0 {
        0
    } else {
        (if s[0] == c {
            1int
        } else {
            0int
        }) + count_char(s.skip(1), c)
    }
}

/// Occurrence counts add up over concatenation.
pub proof fn lemma_count_concat(a: Seq<char>, b: Seq<char>, c: char)
    ensures
        count_char(a + b, c) == count_char(a, c) + count_char(b, c),
    decreases a.len(),
{
    if a.len() == 0 {
        assert(a + b =~= b);
    } else {
        assert((a + b).skip(1) =~= a.skip(1) + b);
        lemma_count_concat(a.skip(1), b, c);
    }
}

/// A character that occurs nowhere in `s` has count zero.
pub proof fn lemma_count_absent(s: Seq<char>, c: char)
    requires
        forall|i: int| 0 <= i < s.len() ==> s[i] != c,
    ensures
        count_char(s, c) == 0,
    decreases s.len(),
{
    if s.len() > 0 {
        lemma_count_absent(s.skip(1), c);
    }
}

/// Indentation inserts only spaces, so it preserves the count of every
/// other character.
pub proof fn lemma_count_indent_chars(s: Seq<char>, at_line_start: bool, c: char)
    requires
        c != ' ',
    ensures
        count_char(indent_chars(s, at_line_start), c) == count_char(s, c),
    decreases s.len(),
{
    if s.len() == 0 {
    } else if s[0] == '\n' {
        lemma_count_indent_chars(s.skip(1), true, c);
        lemma_count_concat(seq!['\n'], indent_chars(s.skip(1), true), c);
        lemma_count_one('\n', c);
        assert(count_char(s, c) == (if '\n' == c { 1int } else { 0int }) + count_char(s.skip(1), c));
    } else if at_line_start {
        lemma_count_indent_chars(s.skip(1), false, c);
        lemma_count_concat(seq![' ', ' ', ' ', ' ', s[0]], indent_chars(s.skip(1), false), c);
        lemma_count_indent_unit(s[0], c);
        assert(count_char(s, c) == (if s[0] == c { 1int } else { 0int }) + count_char(s.skip(1), c));
    } else {
        lemma_count_indent_chars(s.skip(1), false, c);
        lemma_count_concat(seq![s[0]], indent_chars(s.skip(1), false), c);
        lemma_count_one(s[0], c);
        assert(count_char(s, c) == (if s[0] == c { 1int } else { 0int }) + count_char(s.skip(1), c));
    }
}

/// The count over a one-character sequence.
pub proof fn lemma_count_one(x: char, c: char)
    ensures
        count_char(seq![x], c) == if x == c {
            1int
        } else {
            0int
        },
{
    reveal_with_fuel(count_char, 2);
    assert(seq![x].skip(1) =~= Seq::<char>::empty());
}

/// The count over four spaces and one further character, for a character
/// other than a space.
proof fn lemma_count_indent_unit(x: char, c: char)
    requires
        c != ' ',
    ensures
        count_char(seq![' ', ' ', ' ', ' ', x], c) == if x == c {
            1int
        } else {
            0int
        },
{
    reveal_with_fuel(count_char, 6);
    assert(seq![' ', ' ', ' ', ' ', x].skip(1) =~= seq![' ', ' ', ' ', x]);
    assert(seq![' ', ' ', ' ', x].skip(1) =~= seq![' ', ' ', x]);
    assert(seq![' ', ' ', x].skip(1) =~= seq![' ', x]);
    assert(seq![' ', x].skip(1) =~= seq![x]);
    assert(seq![x].skip(1) =~= Seq::<char>::empty());
}

} // verus!
