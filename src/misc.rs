//! Reading the terminal's background color from a hex code, and bracketing
//! the inline styling codes of a rendered prompt for a line editor.

use vstd::prelude::*;
use vstd::string::*;
use crate::style::Color;
use crate::text::chars_of;

verus! {

/// A hexadecimal digit, in either case.
pub open spec fn is_hex_digit(c: char) -> bool {
    ('0' <= c && c <= '9') || ('a' <= c && c <= 'f') || ('A' <= c && c <= 'F')
}

/// The value of a hexadecimal digit.
pub open spec fn hex_value(c: char) -> nat {
    if '0' <= c && c <= '9' {
        (c as int - '0' as int) as nat
    } else if 'a' <= c && c <= 'f' {
        (c as int - 'a' as int + 10) as nat
    } else {
        (c as int - 'A' as int + 10) as nat
    }
}

/// The digits of a color code: what follows a leading `#` of a seven
/// character code, else the whole code.
pub open spec fn hex_digits(s: Seq<char>) -> Seq<char> {
    if s.len() == 7 && s[0] == '#' {
        s.subrange(1, 7)
    } else {
        s
    }
}

/// `s` has the shape `#?[0-9A-Fa-f]{6}`.
pub open spec fn is_hex_color(s: Seq<char>) -> bool {
    let d = hex_digits(s);
    d.len() == 6 && forall|i: int| 0 <= i < 6 ==> is_hex_digit(#[trigger] d[i])
}

/// The byte that the digit pair at `2 * k`, `2 * k + 1` of `d` stands for.
pub open spec fn hex_pair(d: Seq<char>, k: int) -> u8 {
    (16 * hex_value(d[2 * k]) + hex_value(d[2 * k + 1])) as u8
}

/// The color that a code of the shape `#?rrggbb` names, if `s` has it.
pub open spec fn hex_color_of(s: Seq<char>) -> Option<Color> {
    if is_hex_color(s) {
        let d = hex_digits(s);
        Some(Color::Rgb(hex_pair(d, 0), hex_pair(d, 1), hex_pair(d, 2)))
    } else {
        None
    }
}

/// `c`, made lower case if it is an upper case ASCII letter.
pub open spec fn ascii_lower(c: char) -> char {
    if 'A' <= c && c <= 'Z' {
        (c as int + 32) as char
    } else {
        c
    }
}

proof fn lemma_same_up_to_case(c: char, e: char)
    requires
        ascii_lower(c) == ascii_lower(e),
    ensures
        is_hex_digit(c) == is_hex_digit(e),
        is_hex_digit(c) ==> hex_value(c) == hex_value(e),
        c == '#' <==> e == '#',
{
}

/// Two color codes that differ only in the case of their letters name the
/// same color, or are both rejected.
pub proof fn lemma_hex_case_insensitive(s: Seq<char>, t: Seq<char>)
    requires
        s.len() == t.len(),
        forall|i: int| 0 <= i < s.len() ==> ascii_lower(#[trigger] s[i]) == ascii_lower(t[i]),
    ensures
        hex_color_of(s) == hex_color_of(t),
{
    if s.len() > 0 {
        lemma_same_up_to_case(s[0], t[0]);
    }
    let ds = hex_digits(s);
    let dt = hex_digits(t);
    assert forall|i: int| 0 <= i < ds.len() implies is_hex_digit(#[trigger] ds[i]) == is_hex_digit(dt[i])
        && (is_hex_digit(ds[i]) ==> hex_value(ds[i]) == hex_value(dt[i])) by {
        if s.len() == 7 && s[0] == '#' {
            assert(ds[i] == s[i + 1] && dt[i] == t[i + 1]);
            lemma_same_up_to_case(s[i + 1], t[i + 1]);
        } else {
            lemma_same_up_to_case(s[i], t[i]);
        }
    }
    if is_hex_color(s) {
        assert(is_hex_digit(dt[0]) && is_hex_digit(dt[1]) && is_hex_digit(dt[2]));
        assert(is_hex_digit(dt[3]) && is_hex_digit(dt[4]) && is_hex_digit(dt[5]));
        assert(is_hex_color(t));
    } else if is_hex_color(t) {
        assert(is_hex_digit(ds[0]) && is_hex_digit(ds[1]) && is_hex_digit(ds[2]));
        assert(is_hex_digit(ds[3]) && is_hex_digit(ds[4]) && is_hex_digit(ds[5]));
    }
}

/// The value of `c` if it is a hexadecimal digit.
fn hex_digit_value(c: char) -> (r: Option<u8>)
    ensures
        r is Some <==> is_hex_digit(c),
        r is Some ==> r->0 as nat == hex_value(c) && r->0 < 16,
{
    if '0' <= c && c <= '9' {
        Some((c as u32 - '0' as u32) as u8)
    } else if 'a' <= c && c <= 'f' {
        Some((c as u32 - 'a' as u32 + 10) as u8)
    } else if 'A' <= c && c <= 'F' {
        Some((c as u32 - 'A' as u32 + 10) as u8)
    } else {
        None
    }
}

/// Parses an HTML color code, `#rrggbb` or `rrggbb` in either case, into an
/// RGB color; anything else gives `None`.
pub fn parse_hex_color(code: &str) -> (r: Option<Color>)
    ensures
        r == hex_color_of(code@),
{
    let s = chars_of(code);
    let off: usize = if s.len() == 7 && s[0] == '#' { 1 } else { 0 };
    let ghost d = hex_digits(s@);
    assert(d =~= s@.subrange(off as int, s@.len() as int));
    if s.len() - off != 6 {
        return None;
    }
    let mut vals: Vec<u8> = Vec::new();
    let mut k: usize = 0;
    while k < 6
        invariant
            k <= 6,
            off <= 1,
            s@ == code@,
            s@.len() == off + 6,
            d =~= s@.subrange(off as int, s@.len() as int),
            vals@.len() == k,
            forall|i: int| 0 <= i < k ==> is_hex_digit(#[trigger] d[i]),
            forall|i: int| 0 <= i < k ==> vals@[i] as nat == hex_value(#[trigger] d[i]) && vals@[i] < 16,
        decreases 6 - k,
    {
        match hex_digit_value(s[off + k]) {
            Some(v) => {
                assert(d[k as int] == s@[off + k]);
                vals.push(v);
            },
            None => {
                assert(d[k as int] == s@[off + k]);
                return None;
            },
        }
        k += 1;
    }
    Some(Color::Rgb(16 * vals[0] + vals[1], 16 * vals[2] + vals[3], 16 * vals[4] + vals[5]))
}

/// The terminal background color that `raw`, the value of the environment's
/// color setting, names; `None` when it is absent or not a color code.
pub fn resolve_background(raw: Option<&str>) -> (r: Option<Color>)
    ensures
        r == match raw {
            Some(s) => hex_color_of(s@),
            None => None,
        },
{
    match raw {
        Some(s) => parse_hex_color(s),
        None => None,
    }
}

/// The position of the first `m` at or after `j` in `s`, provided no line
/// break comes before it.
pub open spec fn first_m(s: Seq<char>, j: int) -> Option<int>
    decreases s.len() - j,
{
    if j < 0 || j >= s.len() {
        None
    } else if s[j] == 'm' {
        Some(j)
    } else if s[j] == '\n' {
        None
    } else {
        first_m(s, j + 1)
    }
}

/// Where the styling code that starts at `i` ends (one past its `m`), if one
/// starts there: an escape, `[`, then the fewest characters other than a
/// line break up to an `m`.
pub open spec fn code_end(s: Seq<char>, i: int) -> Option<int> {
    if 0 <= i && i + 1 < s.len() && s[i] == '\x1b' && s[i + 1] == '[' {
        match first_m(s, i + 2) {
            Some(j) => Some(j + 1),
            None => None,
        }
    } else {
        None
    }
}

/// The `m` that `first_m` finds lies in `s`, at or after `j`, with no `m`
/// or line break before it.
pub proof fn lemma_first_m_bounds(s: Seq<char>, j: int)
    requires
        0 <= j,
    ensures
        first_m(s, j) matches Some(k) ==> j <= k < s.len() && s[k] == 'm',
        first_m(s, j) matches Some(k) ==> forall|x: int| j <= x < k ==> s[x] != 'm' && s[x] != '\n',
    decreases s.len() - j,
{
    if j < s.len() && s[j] != 'm' && s[j] != '\n' {
        lemma_first_m_bounds(s, j + 1);
    }
}

/// A styling code ends after it starts and within the text.
pub proof fn lemma_code_end_bounds(s: Seq<char>, i: int)
    ensures
        code_end(s, i) matches Some(k) ==> 0 <= i < k <= s.len(),
{
    if 0 <= i && i + 1 < s.len() && s[i] == '\x1b' && s[i + 1] == '[' {
        lemma_first_m_bounds(s, i + 2);
    }
}

/// `s` from position `i` on, each styling code in it put between `start`
/// and `end`, the rest unchanged.
pub open spec fn wrapped_from(s: Seq<char>, start: Seq<char>, end: Seq<char>, i: int) -> Seq<char>
    decreases s.len() - i,
{
    if i < 0 || i >= s.len() {
        Seq::empty()
    } else {
        match code_end(s, i) {
            Some(k) => {
                proof {
                    lemma_code_end_bounds(s, i);
                }
                start + s.subrange(i, k) + end + wrapped_from(s, start, end, k)
            },
            None => seq![s[i]] + wrapped_from(s, start, end, i + 1),
        }
    }
}

/// `s` with each styling code in it put between `start` and `end`.
pub open spec fn wrapped(s: Seq<char>, start: Seq<char>, end: Seq<char>) -> Seq<char> {
    wrapped_from(s, start, end, 0)
}

/// No styling code starts anywhere in `s`.
pub open spec fn has_no_codes(s: Seq<char>) -> bool {
    forall|i: int| 0 <= i < s.len() ==> #[trigger] code_end(s, i) is None
}

/// Where the styling code that starts at `i` ends, if one starts there.
fn code_end_at(s: &Vec<char>, i: usize) -> (r: Option<usize>)
    requires
        i < s@.len(),
    ensures
        r is Some <==> code_end(s@, i as int) is Some,
        r matches Some(k) ==> code_end(s@, i as int) == Some(k as int) && i < k <= s@.len(),
{
    proof {
        lemma_code_end_bounds(s@, i as int);
    }
    let n = s.len();
    if i + 1 < n && s[i] == '\x1b' && s[i + 1] == '[' {
        let mut j: usize = i + 2;
        while j < n
            invariant
                n == s@.len(),
                i + 2 <= j <= n,
                s@[i as int] == '\x1b' && s@[i + 1] == '[',
                first_m(s@, i + 2) == first_m(s@, j as int),
            decreases n - j,
        {
            if s[j] == 'm' {
                return Some(j + 1);
            }
            if s[j] == '\n' {
                return None;
            }
            j += 1;
        }
        None
    } else {
        None
    }
}

/// Wraps each inline styling code (escape, `[`, ..., `m`) of `string` in
/// `start` and `end`, so that a line editor leaves it out of the prompt's
/// width; all other text is kept as it is.
pub fn ansi_escape_wrapper(string: &str, start: &str, end: &str) -> (r: String)
    ensures
        r@ == wrapped(string@, start@, end@),
        has_no_codes(string@) ==> r@ == string@,
{
    proof {
        if has_no_codes(string@) {
            lemma_wrap_without_codes(string@, start@, end@);
        }
    }
    let s = chars_of(string);
    let n = s.len();
    let mut out = String::new();
    let mut i: usize = 0;
    while i < n
        invariant
            n == s@.len(),
            s@ == string@,
            i <= n,
            out@ + wrapped_from(s@, start@, end@, i as int) == wrapped(s@, start@, end@),
        decreases n - i,
    {
        let ghost before = out@;
        match code_end_at(&s, i) {
            Some(k) => {
                out.append(start);
                let mut x: usize = i;
                while x < k
                    invariant
                        i <= x <= k <= n,
                        n == s@.len(),
                        out@ == before + start@ + s@.subrange(i as int, x as int),
                    decreases k - x,
                {
                    out.push(s[x]);
                    assert(s@.subrange(i as int, x + 1) =~= s@.subrange(i as int, x as int).push(s@[x as int]));
                    x += 1;
                }
                out.append(end);
                assert(before + wrapped_from(s@, start@, end@, i as int) =~= out@ + wrapped_from(s@, start@, end@, k as int));
                i = k;
            },
            None => {
                out.push(s[i]);
                assert(before + wrapped_from(s@, start@, end@, i as int) =~= out@ + wrapped_from(s@, start@, end@, i + 1));
                i += 1;
            },
        }
    }
    assert(out@ =~= out@ + wrapped_from(s@, start@, end@, n as int));
    out
}

proof fn lemma_no_codes_from(s: Seq<char>, start: Seq<char>, end: Seq<char>, i: int)
    requires
        has_no_codes(s),
        0 <= i <= s.len(),
    ensures
        wrapped_from(s, start, end, i) == s.subrange(i, s.len() as int),
    decreases s.len() - i,
{
    if i < s.len() {
        assert(code_end(s, i) is None);
        lemma_no_codes_from(s, start, end, i + 1);
        assert(seq![s[i]] + s.subrange(i + 1, s.len() as int) =~= s.subrange(i, s.len() as int));
    } else {
        assert(s.subrange(i, s.len() as int) =~= Seq::<char>::empty());
    }
}

/// Text that holds no styling code comes out of the wrapper unchanged,
/// whatever the markers.
pub proof fn lemma_wrap_without_codes(s: Seq<char>, start: Seq<char>, end: Seq<char>)
    requires
        has_no_codes(s),
    ensures
        wrapped(s, start, end) == s,
{
    lemma_no_codes_from(s, start, end, 0);
    assert(s.subrange(0, s.len() as int) =~= s);
}

} // verus!
