//! Small text building blocks: decimal numerals, blank detection and
//! character prefixes.

use vstd::prelude::*;

verus! {

/// The decimal digit character for `d` (meaningful for `d < 10`).
pub open spec fn digit_char(d: nat) -> char {
    seq!['0', '1', '2', '3', '4', '5', '6', '7', '8', '9'][d as int]
}

/// The decimal numeral of `n`, most significant digit first, no leading zeros.
pub open spec fn decimal(n: nat) -> Seq<char>
    decreases n,
{
    if n < 10 {
        seq![digit_char(n)]
    } else {
        decimal(n / 10).push(digit_char(n % 10))
    }
}

/// The numeral that `{}` formatting prints for a signed integer.
pub open spec fn signed_decimal(n: int) -> Seq<char> {
    if n < 0 {
        seq!['-'] + decimal((-n) as nat)
    } else {
        decimal(n as nat)
    }
}

fn digit_text(d: u64) -> (s: &'static str)
    requires
        d < 10,
    ensures
        s@ == seq![digit_char(d as nat)],
{
    proof {
        reveal_strlit("0");
        reveal_strlit("1");
        reveal_strlit("2");
        reveal_strlit("3");
        reveal_strlit("4");
        reveal_strlit("5");
        reveal_strlit("6");
        reveal_strlit("7");
        reveal_strlit("8");
        reveal_strlit("9");
    }
    if d == 0 {
        "0"
    } else if d == 1 {
        "1"
    } else if d == 2 {
        "2"
    } else if d == 3 {
        "3"
    } else if d == 4 {
        "4"
    } else if d == 5 {
        "5"
    } else if d == 6 {
        "6"
    } else if d == 7 {
        "7"
    } else if d == 8 {
        "8"
    } else {
        "9"
    }
}

/// Writes `n` in decimal.
pub fn decimal_text(n: u64) -> (s: String)
    ensures
        s@ == decimal(n as nat),
    decreases n,
{
    if n < 10 {
        digit_text(n).to_string()
    } else {
        let mut s = decimal_text(n / 10);
        s.append(digit_text(n % 10));
        s
    }
}

/// Writes `n` in decimal, with a leading `-` when it is negative.
pub fn signed_decimal_text(n: i64) -> (s: String)
    ensures
        s@ == signed_decimal(n as int),
{
    if n < 0 {
        let magnitude: u64 = (-(n as i128)) as u64;
        let mut s = "-".to_string();
        proof {
            reveal_strlit("-");
        }
        s.append(decimal_text(magnitude).as_str());
        s
    } else {
        decimal_text(n as u64)
    }
}

/// Whether two texts hold the same characters.
pub fn str_eq(a: &str, b: &str) -> (r: bool)
    ensures
        r == (a@ == b@),
{
    let n = a.unicode_len();
    if n != b.unicode_len() {
        return false;
    }
    let mut i: usize = 0;
    while i < n
        invariant
            n == a@.len(),
            n == b@.len(),
            i <= n,
            forall|j: int| 0 <= j < i ==> a@[j] == b@[j],
        decreases n - i,
    {
        if a.get_char(i) != b.get_char(i) {
            return false;
        }
        i = i + 1;
    }
    assert(a@ =~= b@);
    true
}

/// The view of an optional text.
pub open spec fn opt_text(o: Option<String>) -> Option<Seq<char>> {
    match o {
        Some(s) => Some(s@),
        None => None,
    }
}

/// The characters with the Unicode `White_Space` property.
pub open spec fn unicode_white_space(c: char) -> bool {
    let u = c as u32;
    ||| 0x9 <= u <= 0xD
    ||| u == 0x20
    ||| u == 0x85
    ||| u == 0xA0
    ||| u == 0x1680
    ||| 0x2000 <= u <= 0x200A
    ||| u == 0x2028
    ||| u == 0x2029
    ||| u == 0x202F
    ||| u == 0x205F
    ||| u == 0x3000
}

/// A text is blank when nothing is left of it once white space is trimmed.
pub open spec fn is_blank_text(s: Seq<char>) -> bool {
    forall|i: int| 0 <= i < s.len() ==> #[trigger] unicode_white_space(s[i])
}

/// Whether `c` has the Unicode `White_Space` property, which is what
/// `char::is_whitespace` and `str::trim` go by.
pub fn is_white_space(c: char) -> (r: bool)
    ensures
        r == unicode_white_space(c),
{
    let u = c as u32;
    (0x9 <= u && u <= 0xD) || u == 0x20 || u == 0x85 || u == 0xA0 || u == 0x1680 || (0x2000 <= u
        && u <= 0x200A) || u == 0x2028 || u == 0x2029 || u == 0x202F || u == 0x205F || u == 0x3000
}

/// Printable ASCII characters (`!` to `~`) and everything after the
/// ideographic space are not white space, so a text holding one is not
/// blank: a chat message such as ":)", "?", "+1" or "10:30" goes through.
pub proof fn visible_character_is_not_blank(s: Seq<char>, i: int)
    requires
        0 <= i < s.len(),
        (0x21 <= s[i] as u32 <= 0x7E) || s[i] as u32 > 0x3000,
    ensures
        !unicode_white_space(s[i]),
        !is_blank_text(s),
{
    assert(!unicode_white_space(s[i]));
}

/// The white space characters are exactly the twenty-five that Unicode
/// lists under `White_Space`: the five controls from tab to carriage
/// return, space, next line, no-break space, Ogham space mark, the eleven
/// spaces from en quad to hair space, the line and paragraph separators,
/// the narrow no-break space, the medium mathematical space and the
/// ideographic space.
pub proof fn white_space_is_the_unicode_list(c: char)
    ensures
        unicode_white_space(c) <==> {
            ||| c == '\t' || c == '\n' || c == '\u{b}' || c == '\u{c}' || c == '\r'
            ||| c == ' ' || c == '\u{85}' || c == '\u{a0}' || c == '\u{1680}'
            ||| c == '\u{2000}' || c == '\u{2001}' || c == '\u{2002}' || c == '\u{2003}'
            ||| c == '\u{2004}' || c == '\u{2005}' || c == '\u{2006}' || c == '\u{2007}'
            ||| c == '\u{2008}' || c == '\u{2009}' || c == '\u{200a}'
            ||| c == '\u{2028}' || c == '\u{2029}' || c == '\u{202f}' || c == '\u{205f}'
            ||| c == '\u{3000}'
        },
{
}

/// Spaces, tabs, line feeds, carriage returns, no-break and ideographic
/// spaces are white space: a text made only of them is blank, and so is
/// the empty text.
pub proof fn layout_only_text_is_blank(s: Seq<char>)
    requires
        forall|i: int|
            0 <= i < s.len() ==> {
                let c = #[trigger] s[i];
                c == ' ' || c == '\t' || c == '\n' || c == '\r' || c == '\u{a0}' || c
                    == '\u{3000}'
            },
    ensures
        is_blank_text(s),
{
    assert forall|i: int| 0 <= i < s.len() implies #[trigger] unicode_white_space(s[i]) by {
        let c = s[i];
        assert(c == ' ' || c == '\t' || c == '\n' || c == '\r' || c == '\u{a0}' || c == '\u{3000}');
    }
}

/// Whether `s.trim()` is empty, that is, whether every character of `s` is
/// white space.
pub fn is_blank(s: &str) -> (r: bool)
    ensures
        r == is_blank_text(s@),
{
    let n = s.unicode_len();
    let mut i: usize = 0;
    while i < n
        invariant
            n == s@.len(),
            i <= n,
            forall|j: int| 0 <= j < i ==> #[trigger] unicode_white_space(s@[j]),
        decreases n - i,
    {
        let c = s.get_char(i);
        if !is_white_space(c) {
            return false;
        }
        i = i + 1;
    }
    true
}

/// The first `n` characters of `s` (all of it when it is shorter), as
/// `s.chars().take(n).collect()` gives them.
pub fn char_prefix(s: &str, n: usize) -> (r: String)
    ensures
        r@ == s@.take(if n < s@.len() { n as int } else { s@.len() as int }),
{
    let len = s.unicode_len();
    let end = if n < len { n } else { len };
    s.substring_char(0, end).to_string()
}

} // verus!
