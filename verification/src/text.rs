//! Character-level text operations used by search, color parsing and display.
use vstd::prelude::*;
use vstd::utf8::is_ascii_chars;

verus! {

broadcast use vstd::string::group_string_axioms;

/// `needle` sits in `hay` starting at position `i`.
pub open spec fn occurs_at(needle: Seq<char>, hay: Seq<char>, i: int) -> bool {
    &&& 0 <= i
    &&& i + needle.len() <= hay.len()
    &&& hay.subrange(i, i + needle.len()) == needle
}

/// `needle` occurs in `hay` as a contiguous run of characters
/// (the empty needle occurs in every text).
pub open spec fn occurs_in(needle: Seq<char>, hay: Seq<char>) -> bool {
    exists|i: int| #[trigger] occurs_at(needle, hay, i)
}

/// The characters of `s`, in order.
pub fn chars_of(s: &str) -> (v: Vec<char>)
    ensures
        v@ == s@,
{
    let mut v: Vec<char> = Vec::new();
    for c in it: s.chars()
        invariant
            v@ == it.seq().take(it.index() as int),
            it.seq() == s@,
    {
        v.push(c);
        assert(v@ =~= it.seq().take(it.index() + 1));
    }
    assert(v@ =~= s@);
    v
}

/// Whether `needle` appears in `hay` at position `i`.
fn matches_at(needle: &Vec<char>, hay: &Vec<char>, i: usize) -> (b: bool)
    requires
        i + needle@.len() <= hay@.len(),
    ensures
        b == occurs_at(needle@, hay@, i as int),
{
    let n = needle.len();
    let h = hay.len();
    let mut j: usize = 0;
    while j < n
        invariant
            n == needle@.len(),
            h == hay@.len(),
            i + n <= hay@.len(),
            j <= n,
            forall|k: int| 0 <= k < j ==> hay@[i + k] == needle@[k],
        decreases n - j,
    {
        if hay[i + j] != needle[j] {
            assert(hay@.subrange(i as int, i + n)[j as int] != needle@[j as int]);
            return false;
        }
        j += 1;
    }
    assert(hay@.subrange(i as int, i + n) =~= needle@);
    true
}

/// Whether `needle` occurs anywhere in `hay`.
pub fn occurs(needle: &Vec<char>, hay: &Vec<char>) -> (b: bool)
    ensures
        b == occurs_in(needle@, hay@),
{
    let n = needle.len();
    let h = hay.len();
    if n > h {
        assert forall|k: int| !occurs_at(needle@, hay@, k) by {}
        return false;
    }
    let last = h - n;
    let mut i: usize = 0;
    loop
        invariant
            n == needle@.len(),
            h == hay@.len(),
            last == h - n,
            i <= last,
            forall|k: int| 0 <= k < i ==> !occurs_at(needle@, hay@, k),
        ensures
            forall|k: int| 0 <= k <= last ==> !occurs_at(needle@, hay@, k),
        decreases last - i,
    {
        if matches_at(needle, hay, i) {
            return true;
        }
        if i == last {
            break ;
        }
        i += 1;
    }
    assert forall|k: int| !occurs_at(needle@, hay@, k) by {}
    false
}

/// The Unicode lowercase mapping of a text, as `str::to_lowercase` computes it.
pub uninterp spec fn lowercase(s: Seq<char>) -> Seq<char>;

/// An ASCII character in lower case: `A`-`Z` become `a`-`z`, the rest stay.
pub open spec fn ascii_lower_char(c: char) -> char {
    if 'A' <= c && c <= 'Z' {
        ((c as u32) + 32) as char
    } else {
        c
    }
}

/// Each character of a text through [`ascii_lower_char`].
pub open spec fn ascii_lower(s: Seq<char>) -> Seq<char> {
    s.map_values(|c: char| ascii_lower_char(c))
}

/// Calls `str::to_lowercase`. The contract claims that the result is the
/// text named `lowercase` of `s`'s characters, a function of `s` alone, and
/// that on ASCII text it is the ASCII lowercase (Unicode maps `A`-`Z` to
/// `a`-`z` and leaves every other ASCII character as it is). Which non-ASCII
/// characters map to which is left to the Unicode tables of std and unsaid.
#[verifier::external_body]
pub(crate) fn to_lowercase(s: &str) -> (res: String)
    ensures
        res@ == lowercase(s@),
        is_ascii_chars(s@) ==> res@ == ascii_lower(s@),
{
    s.to_lowercase()
}

/// The characters with the Unicode `White_Space` property, which
/// `char::is_whitespace` tests: U+0009 to U+000D, U+0020, U+0085, U+00A0,
/// U+1680, U+2000 to U+200A, U+2028, U+2029, U+202F, U+205F and U+3000.
pub open spec fn is_whitespace(c: char) -> bool {
    ||| '\u{9}' <= c && c <= '\u{d}'
    ||| c == ' '
    ||| c == '\u{85}'
    ||| c == '\u{a0}'
    ||| c == '\u{1680}'
    ||| '\u{2000}' <= c && c <= '\u{200a}'
    ||| c == '\u{2028}'
    ||| c == '\u{2029}'
    ||| c == '\u{202f}'
    ||| c == '\u{205f}'
    ||| c == '\u{3000}'
}

/// The text without its leading whitespace.
pub open spec fn trim_start(s: Seq<char>) -> Seq<char>
    decreases s.len(),
{
    if s.len() > 0 && is_whitespace(s[0]) {
        trim_start(s.drop_first())
    } else {
        s
    }
}

/// The text without its trailing whitespace.
pub open spec fn trim_end(s: Seq<char>) -> Seq<char>
    decreases s.len(),
{
    if s.len() > 0 && is_whitespace(s.last()) {
        trim_end(s.drop_last())
    } else {
        s
    }
}

/// The text with leading and trailing whitespace removed.
pub open spec fn trimmed(s: Seq<char>) -> Seq<char> {
    trim_end(trim_start(s))
}

/// Calls `str::trim`, which, as its documentation says, returns the text with
/// leading and trailing whitespace (`char::is_whitespace`) removed.
#[verifier::external_body]
pub(crate) fn trim(s: &str) -> (res: &str)
    ensures
        res@ == trimmed(s@),
{
    s.trim()
}

/// Calls `String::push`: the character is appended at the end.
#[verifier::external_body]
pub(crate) fn push_char(s: &mut String, c: char)
    ensures
        final(s)@ == old(s)@.push(c),
{
    s.push(c)
}

/// Calls `String::pop`: the last character is removed and returned, and an
/// empty string is left as it is with `None` returned.
#[verifier::external_body]
pub(crate) fn pop_char(s: &mut String) -> (r: Option<char>)
    ensures
        old(s)@.len() == 0 ==> r is None && final(s)@ == old(s)@,
        old(s)@.len() > 0 ==> r == Some(old(s)@.last()) && final(s)@ == old(s)@.drop_last(),
{
    s.pop()
}

/// The text with every line break replaced by `"; "`, so that it fits on one line.
pub open spec fn one_line(s: Seq<char>) -> Seq<char>
    decreases s.len(),
{
    if s.len() == 0 {
        Seq::empty()
    } else {
        one_line(s.drop_last()) + if s.last() == '\n' {
            seq![';', ' ']
        } else {
            seq![s.last()]
        }
    }
}

/// Replaces every `'\n'` in `s` by `"; "`.
pub fn flatten_lines(s: &str) -> (res: String)
    ensures
        res@ == one_line(s@),
{
    let cs = chars_of(s);
    let mut res = String::new();
    let mut i: usize = 0;
    while i < cs.len()
        invariant
            cs@ == s@,
            i <= cs@.len(),
            res@ == one_line(s@.take(i as int)),
        decreases cs@.len() - i,
    {
        assert(s@.take(i + 1).drop_last() =~= s@.take(i as int));
        if cs[i] == '\n' {
            push_char(&mut res, ';');
            push_char(&mut res, ' ');
            assert(res@ =~= one_line(s@.take(i + 1)));
        } else {
            push_char(&mut res, cs[i]);
            assert(res@ =~= one_line(s@.take(i + 1)));
        }
        i += 1;
    }
    assert(s@.take(cs@.len() as int) =~= s@);
    res
}

/// A text occurs in any text that has it between some prefix and suffix.
pub proof fn law_occurs_in_any_context(before: Seq<char>, needle: Seq<char>, after: Seq<char>)
    ensures
        occurs_in(needle, before + needle + after),
{
    let hay = before + needle + after;
    assert(hay.subrange(before.len() as int, before.len() + needle.len() as int) =~= needle);
    assert(occurs_at(needle, hay, before.len() as int));
}

/// A text occurs only in texts at least as long as itself.
pub proof fn law_occurs_needs_room(needle: Seq<char>, hay: Seq<char>)
    requires
        occurs_in(needle, hay),
    ensures
        needle.len() <= hay.len(),
{
}

/// Putting a text on one line handles each character on its own: the result
/// for two texts joined is the two results joined.
pub proof fn law_one_line_joins(a: Seq<char>, b: Seq<char>)
    ensures
        one_line(a + b) == one_line(a) + one_line(b),
    decreases b.len(),
{
    if b.len() == 0 {
        assert(a + b =~= a);
        assert(one_line(a) + one_line(b) =~= one_line(a));
    } else {
        law_one_line_joins(a, b.drop_last());
        assert((a + b).drop_last() =~= a + b.drop_last());
        assert((a + b).last() == b.last());
        assert(one_line(a + b) =~= one_line(a) + one_line(b));
    }
}

/// A line break becomes `"; "`, and every other character is kept as it is.
pub proof fn law_one_line_char(c: char)
    ensures
        c == '\n' ==> one_line(seq![c]) == seq![';', ' '],
        c != '\n' ==> one_line(seq![c]) == seq![c],
{
    let s = seq![c];
    assert(s.drop_last() =~= Seq::<char>::empty());
    assert(one_line(s.drop_last()) == Seq::<char>::empty());
    assert(s.last() == c);
    if c == '\n' {
        assert(one_line(s) =~= seq![';', ' ']);
    } else {
        assert(one_line(s) =~= seq![c]);
    }
}

/// A text without line breaks is shown as it is.
pub proof fn law_one_line_keeps_plain_text(s: Seq<char>)
    requires
        forall|k: int| 0 <= k < s.len() ==> s[k] != '\n',
    ensures
        one_line(s) == s,
    decreases s.len(),
{
    if s.len() > 0 {
        law_one_line_keeps_plain_text(s.drop_last());
        assert(one_line(s) =~= s);
    }
}

/// A text occurs in another exactly when the other is some prefix, then the
/// text, then some suffix.
pub proof fn law_occurs_iff_between(needle: Seq<char>, hay: Seq<char>)
    ensures
        occurs_in(needle, hay) <==> exists|a: Seq<char>, b: Seq<char>| #[trigger] (a + needle + b) == hay,
{
    if occurs_in(needle, hay) {
        let i = choose|i: int| occurs_at(needle, hay, i);
        let a = hay.take(i);
        let b = hay.skip(i + needle.len());
        assert(a + needle + b =~= hay);
    }
    if exists|a: Seq<char>, b: Seq<char>| #[trigger] (a + needle + b) == hay {
        let (a, b) = choose|a: Seq<char>, b: Seq<char>| #[trigger] (a + needle + b) == hay;
        law_occurs_in_any_context(a, needle, b);
    }
}

} // verus!
