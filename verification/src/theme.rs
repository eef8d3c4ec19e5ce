//! Theme colors: reading `"#rrggbb"` strings from the configuration.
use vstd::prelude::*;
use vstd::utf8::is_ascii_chars;
use vstd::string::{StrSliceExecFns, StringExecFns};
use crate::text::{chars_of, trim, trimmed};
use crate::config::ThemeConfig;

verus! {

/// A color of the interface: a red-green-blue triple, or plain white.
#[derive(Debug, Clone, Copy, PartialEq, Eq, Structural)]
pub enum Color {
    Rgb(u8, u8, u8),
    White,
}

/// Runtime colors, resolved once from a [`ThemeConfig`] at startup.
#[derive(Debug, Clone, Copy, PartialEq, Eq, Structural)]
pub struct Theme {
    pub border: Color,
    pub header: Color,
    pub highlight_bg: Color,
    pub highlight_fg: Color,
}

#[verifier::external_type_specification]
#[verifier::external_body]
pub struct ExParseIntError(std::num::ParseIntError);

/// The value of a digit character in the bases up to 36: `0-9`, then
/// `a-z` or `A-Z` for 10 to 35; `None` for any other character.
pub open spec fn digit_value(c: char) -> Option<nat> {
    if '0' <= c && c <= '9' {
        Some((c as int - '0' as int) as nat)
    } else if 'a' <= c && c <= 'z' {
        Some((c as int - 'a' as int + 10) as nat)
    } else if 'A' <= c && c <= 'Z' {
        Some((c as int - 'A' as int + 10) as nat)
    } else {
        None
    }
}

/// A digit of base `radix`.
pub open spec fn is_radix_digit(c: char, radix: nat) -> bool {
    digit_value(c) matches Some(v) && v < radix
}

/// The number that a string of base-`radix` digits denotes.
pub open spec fn radix_value(d: Seq<char>, radix: nat) -> nat
    decreases d.len(),
{
    if d.len() == 0 {
        0
    } else {
        radix_value(d.drop_last(), radix) * radix + digit_value(d.last()).unwrap_or(0)
    }
}

/// The digits of a number text: what follows an optional leading `'+'`.
pub open spec fn digits_after_sign(s: Seq<char>) -> Seq<char> {
    if s.len() > 0 && s[0] == '+' {
        s.drop_first()
    } else {
        s
    }
}

/// What `u8::from_str_radix(s, radix)` accepts: an optional `'+'`, then at
/// least one digit of the radix, denoting a number that fits in a byte.
pub open spec fn byte_from_str_radix(s: Seq<char>, radix: nat) -> Option<u8> {
    let d = digits_after_sign(s);
    if d.len() > 0 && (forall|i: int| 0 <= i < d.len() ==> is_radix_digit(#[trigger] d[i], radix))
        && radix_value(d, radix) <= 255 {
        Some(radix_value(d, radix) as u8)
    } else {
        None
    }
}

/// Calls `u8::from_str_radix(s, radix)`. As its documentation says, the text
/// is an optional `+` followed by digits of the radix, a value above 255 is an
/// error, and a radix outside 2 to 36 panics (left out by `requires`); the
/// contract states the result exactly over `byte_from_str_radix`.
#[verifier::external_body]
fn u8_from_str_radix(s: &str, radix: u32) -> (r: Result<u8, std::num::ParseIntError>)
    requires
        2 <= radix <= 36,
    ensures
        r is Ok <==> byte_from_str_radix(s@, radix as nat) is Some,
        r matches Ok(v) ==> byte_from_str_radix(s@, radix as nat) == Some(v),
{
    u8::from_str_radix(s, radix)
}

/// The text with every leading `'#'` removed (as `trim_start_matches('#')` does).
pub open spec fn strip_hashes(s: Seq<char>) -> Seq<char>
    decreases s.len(),
{
    if s.len() > 0 && s[0] == '#' {
        strip_hashes(s.drop_first())
    } else {
        s
    }
}

/// The text between the leading `'#'`s and the end of a trimmed color setting.
pub open spec fn color_digits(s: Seq<char>) -> Seq<char> {
    strip_hashes(trimmed(s))
}

/// Every character of `d` is a base-16 digit (`0-9`, `a-f`, `A-F`).
pub open spec fn all_hex_digits(d: Seq<char>) -> bool {
    forall|i: int| 0 <= i < d.len() ==> is_radix_digit(#[trigger] d[i], 16)
}

/// The byte written as the two base-16 digits `hi` and `lo`.
pub open spec fn hex_byte(hi: char, lo: char) -> u8 {
    (digit_value(hi).unwrap_or(0) * 16 + digit_value(lo).unwrap_or(0)) as u8
}

/// The red, green and blue bytes written in `d`, where `d` is the color text
/// after trimming and stripping: exactly six base-16 digits, read in pairs.
pub open spec fn rgb_of_digits(d: Seq<char>) -> Option<(u8, u8, u8)> {
    if d.len() == 6 && all_hex_digits(d) {
        Some((hex_byte(d[0], d[1]), hex_byte(d[2], d[3]), hex_byte(d[4], d[5])))
    } else {
        None
    }
}

/// The color that a setting names: its bytes when they read, else white.
pub open spec fn color_of_setting(s: Seq<char>) -> Color {
    match rgb_of_digits(color_digits(s)) {
        Some((r, g, b)) => Color::Rgb(r, g, b),
        None => Color::White,
    }
}

proof fn lemma_strip_hashes_skip(s: Seq<char>, k: int)
    requires
        0 <= k <= s.len(),
        forall|j: int| 0 <= j < k ==> s[j] == '#',
        k == s.len() || s[k] != '#',
    ensures
        strip_hashes(s) == s.skip(k),
    decreases k,
{
    if k == 0 {
        assert(s.skip(0) =~= s);
    } else {
        lemma_strip_hashes_skip(s.drop_first(), k - 1);
        assert(s.drop_first().skip(k - 1) =~= s.skip(k));
    }
}

/// Removes every leading `'#'` from `t`.
pub fn strip_leading_hashes(t: &str) -> (res: &str)
    ensures
        res@ == strip_hashes(t@),
{
    let cs = chars_of(t);
    let mut k: usize = 0;
    while k < cs.len() && cs[k] == '#'
        invariant
            cs@ == t@,
            k <= cs@.len(),
            forall|j: int| 0 <= j < k ==> t@[j] == '#',
        decreases cs@.len() - k,
    {
        k += 1;
    }
    proof {
        lemma_strip_hashes_skip(t@, k as int);
    }
    let res = t.substring_char(k, cs.len());
    assert(res@ =~= t@.skip(k as int));
    res
}

/// The text of a color setting once trimmed and stripped of leading `'#'`s.
pub fn color_text(s: &str) -> (res: &str)
    ensures
        res@ == color_digits(s@),
{
    strip_leading_hashes(trim(s))
}

/// Whether `c` is a base-16 digit.
fn is_hex_char(c: char) -> (b: bool)
    ensures
        b == is_radix_digit(c, 16),
{
    ('0' <= c && c <= '9') || ('a' <= c && c <= 'f') || ('A' <= c && c <= 'F')
}

proof fn lemma_pair_reads(d: Seq<char>, i: int)
    requires
        0 <= i,
        i + 2 <= d.len(),
        is_radix_digit(d[i], 16),
        is_radix_digit(d[i + 1], 16),
    ensures
        byte_from_str_radix(d.subrange(i, i + 2), 16) == Some(hex_byte(d[i], d[i + 1])),
{
    let p = d.subrange(i, i + 2);
    let hi = digit_value(d[i]).unwrap();
    let lo = digit_value(d[i + 1]).unwrap();
    assert(p[0] == d[i] && p[1] == d[i + 1]);
    assert(digits_after_sign(p) == p);
    assert(p.drop_last().drop_last() =~= Seq::<char>::empty());
    assert(p.drop_last().last() == p[0]);
    assert(radix_value(p.drop_last().drop_last(), 16) == 0);
    assert(radix_value(p.drop_last(), 16) == hi);
    assert(p.last() == p[1]);
    assert(radix_value(p, 16) == hi * 16 + lo);
    assert(forall|k: int| 0 <= k < p.len() ==> is_radix_digit(#[trigger] p[k], 16));
}

/// Reads six base-16 digits as three bytes (red, green, blue); anything else
/// gives `None`.
pub fn parse_hex_digits(d: &str) -> (res: Option<(u8, u8, u8)>)
    ensures
        res == rgb_of_digits(d@),
{
    let cs = chars_of(d);
    if cs.len() != 6 {
        return None;
    }
    let mut i: usize = 0;
    while i < 6
        invariant
            cs@ == d@,
            d@.len() == 6,
            i <= 6,
            forall|k: int| 0 <= k < i ==> is_radix_digit(#[trigger] d@[k], 16),
        decreases 6 - i,
    {
        if !is_hex_char(cs[i]) {
            return None;
        }
        i += 1;
    }
    assert(is_ascii_chars(d@)) by {
        assert forall|k: int| 0 <= k < d@.len() implies '\0' <= #[trigger] d@[k] <= '\u{7f}' by {
            assert(is_radix_digit(d@[k], 16));
        }
    }
    proof {
        lemma_pair_reads(d@, 0);
        lemma_pair_reads(d@, 2);
        lemma_pair_reads(d@, 4);
    }
    let r = u8_from_str_radix(d.substring_ascii(0, 2), 16);
    let g = u8_from_str_radix(d.substring_ascii(2, 4), 16);
    let b = u8_from_str_radix(d.substring_ascii(4, 6), 16);
    match (r, g, b) {
        (Ok(r), Ok(g), Ok(b)) => Some((r, g, b)),
        _ => None,
    }
}

/// Reads a `"#rrggbb"` color setting; anything that does not read falls back to white.
pub fn parse_hex_color(s: &str) -> (c: Color)
    ensures
        c == color_of_setting(s@),
{
    match parse_hex_digits(color_text(s)) {
        Some((r, g, b)) => Color::Rgb(r, g, b),
        None => Color::White,
    }
}

/// The warning text for a color setting that does not read: the setting as
/// trimmed and stripped of its leading `'#'`s; `None` when it reads.
pub fn color_warning(s: &str) -> (w: Option<String>)
    ensures
        w is Some <==> rgb_of_digits(color_digits(s@)) is None,
        w matches Some(t) ==> t@ == color_digits(s@),
{
    let t = color_text(s);
    match parse_hex_digits(t) {
        Some(_) => None,
        None => Some(String::from_str(t)),
    }
}

impl Theme {
    /// Resolves each configured color with [`parse_hex_color`].
    pub fn from_config(cfg: &ThemeConfig) -> (t: Theme)
        ensures
            t.border == color_of_setting(cfg.border@),
            t.header == color_of_setting(cfg.header@),
            t.highlight_bg == color_of_setting(cfg.highlight_bg@),
            t.highlight_fg == color_of_setting(cfg.highlight_fg@),
    {
        Theme {
            border: parse_hex_color(cfg.border.as_str()),
            header: parse_hex_color(cfg.header.as_str()),
            highlight_bg: parse_hex_color(cfg.highlight_bg.as_str()),
            highlight_fg: parse_hex_color(cfg.highlight_fg.as_str()),
        }
    }
}

/// The base-16 digit for a value below 16, in lower or upper case.
pub open spec fn hex_digit_char(v: u8, upper: bool) -> char {
    if v < 10 {
        ('0' as u8 + v) as char
    } else if upper {
        ('A' as u8 + v - 10) as char
    } else {
        ('a' as u8 + v - 10) as char
    }
}

/// A byte written as two base-16 digits.
pub open spec fn hex_pair(b: u8, upper: bool) -> Seq<char> {
    seq![hex_digit_char(b / 16, upper), hex_digit_char(b % 16, upper)]
}

/// A color written `"#rrggbb"`.
pub open spec fn hex_color_text(r: u8, g: u8, b: u8, upper: bool) -> Seq<char> {
    seq!['#'] + hex_pair(r, upper) + hex_pair(g, upper) + hex_pair(b, upper)
}

proof fn lemma_hex_digit(v: u8, upper: bool)
    requires
        v < 16,
    ensures
        is_radix_digit(hex_digit_char(v, upper), 16),
        digit_value(hex_digit_char(v, upper)) == Some(v as nat),
        hex_digit_char(v, upper) != '+',
        hex_digit_char(v, upper) != '#',
        '\0' <= hex_digit_char(v, upper) <= '\u{7f}',
{
}

proof fn lemma_hex_pair(b: u8, upper: bool)
    ensures
        hex_byte(hex_pair(b, upper)[0], hex_pair(b, upper)[1]) == b,
{
    lemma_hex_digit(b / 16, upper);
    lemma_hex_digit(b % 16, upper);
    assert((b / 16) as nat * 16 + (b % 16) as nat == b) by (nonlinear_arith);
}

/// Every color written `"#rrggbb"` in base-16 digits, lower or upper case,
/// reads back as its three bytes.
pub proof fn law_hex_color_round_trip(r: u8, g: u8, b: u8, upper: bool)
    ensures
        rgb_of_digits(strip_hashes(hex_color_text(r, g, b, upper))) == Some((r, g, b)),
{
    let t = hex_color_text(r, g, b, upper);
    let d = hex_pair(r, upper) + hex_pair(g, upper) + hex_pair(b, upper);
    lemma_hex_digit(r / 16, upper);
    lemma_hex_digit(g / 16, upper);
    lemma_hex_digit(b / 16, upper);
    lemma_hex_digit(r % 16, upper);
    lemma_hex_digit(g % 16, upper);
    lemma_hex_digit(b % 16, upper);
    assert(t.drop_first() =~= d);
    assert(strip_hashes(t) == strip_hashes(d));
    assert(strip_hashes(d) == d);
    assert(d[0] == hex_pair(r, upper)[0] && d[1] == hex_pair(r, upper)[1]);
    assert(d[2] == hex_pair(g, upper)[0] && d[3] == hex_pair(g, upper)[1]);
    assert(d[4] == hex_pair(b, upper)[0] && d[5] == hex_pair(b, upper)[1]);
    assert(all_hex_digits(d));
    lemma_hex_pair(r, upper);
    lemma_hex_pair(g, upper);
    lemma_hex_pair(b, upper);
}

/// A color setting reads only when, after trimming and stripping the leading
/// `'#'`s, exactly six characters remain and each is a digit `0-9`, `a-f` or
/// `A-F`; any other setting (a sign, a space, a seventh digit) gives white.
pub proof fn law_only_six_hex_digits_read(s: Seq<char>)
    ensures
        color_of_setting(s) != Color::White <==> ({
            let d = color_digits(s);
            &&& d.len() == 6
            &&& forall|i: int|
                0 <= i < 6 ==> ({
                    let c = #[trigger] d[i];
                    ('0' <= c && c <= '9') || ('a' <= c && c <= 'f') || ('A' <= c && c <= 'F')
                })
        }),
{
}

} // verus!
