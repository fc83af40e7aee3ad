//! Text primitives shared by the rest of the library: characters of a string,
//! UTF-16 measurement and encoding, and character-sequence comparisons.
use vstd::prelude::*;

verus! {

/// The characters of `text`, in order.
pub fn chars_of(text: &str) -> (chars: Vec<char>)
    ensures
        chars@ == text@,
{
    let mut chars: Vec<char> = Vec::new();
    for c in it: text.chars()
        invariant
            chars@ == it.seq().take(it.index() as int),
    {
        chars.push(c);
    }
    chars
}

/// Number of UTF-16 code units that encode `c`: two for characters outside the
/// Basic Multilingual Plane (a surrogate pair), one otherwise.
pub open spec fn utf16_width(c: char) -> nat {
    if (c as u32) >= 0x10000 {
        2
    } else {
        1
    }
}

/// Number of UTF-16 code units that encode `chars`.
pub open spec fn utf16_len(chars: Seq<char>) -> nat
    decreases chars.len(),
{
    if chars.len() == 0 {
        0
    } else {
        utf16_len(chars.drop_last()) + utf16_width(chars.last())
    }
}

/// Number of UTF-16 code units that encode `c`.
pub fn char_utf16_width(c: char) -> (width: usize)
    ensures
        width == utf16_width(c),
{
    if (c as u32) >= 0x10000 {
        2
    } else {
        1
    }
}


/// `String::push` appends one character.
pub assume_specification[ String::push ](string: &mut String, ch: char)
    ensures
        final(string)@ == old(string)@.push(ch),
;

/// A string holding exactly `chars`.
pub fn string_from_chars(chars: &[char]) -> (string: String)
    ensures
        string@ == chars@,
{
    let mut string = String::new();
    let mut i: usize = 0;
    while i < chars.len()
        invariant
            i <= chars@.len(),
            string@ == chars@.take(i as int),
        decreases chars@.len() - i,
    {
        string.push(chars[i]);
        i = i + 1;
        assert(string@ =~= chars@.take(i as int));
    }
    assert(chars@.take(i as int) =~= chars@);
    string
}

/// Whether two character sequences are equal.
pub fn chars_equal(a: &[char], b: &[char]) -> (equal: bool)
    ensures
        equal == (a@ == b@),
{
    if a.len() != b.len() {
        return false;
    }
    let mut i: usize = 0;
    while i < a.len()
        invariant
            a@.len() == b@.len(),
            i <= a@.len(),
            forall|j: int| 0 <= j < i ==> a@[j] == b@[j],
        decreases a@.len() - i,
    {
        if a[i] != b[i] {
            return false;
        }
        i = i + 1;
    }
    assert(a@ =~= b@);
    true
}

/// Whether two strings hold the same characters.
pub fn str_equal(a: &str, b: &str) -> (equal: bool)
    ensures
        equal == (a@ == b@),
{
    let a = chars_of(a);
    let b = chars_of(b);
    chars_equal(a.as_slice(), b.as_slice())
}

/// Whether `needle` occurs in `haystack` starting at position `at`.
pub open spec fn occurs_at(haystack: Seq<char>, needle: Seq<char>, at: int) -> bool {
    0 <= at && at + needle.len() <= haystack.len() && haystack.subrange(at, at + needle.len())
        == needle
}

/// Whether `needle` occurs anywhere in `haystack`, as `str::contains` finds it.
pub open spec fn contains_seq(haystack: Seq<char>, needle: Seq<char>) -> bool {
    exists|at: int| occurs_at(haystack, needle, at)
}

/// Whether `haystack` ends with `suffix`.
pub open spec fn ends_with_seq(haystack: Seq<char>, suffix: Seq<char>) -> bool {
    occurs_at(haystack, suffix, haystack.len() - suffix.len())
}

/// Whether `needle` occurs in `haystack` at `at`.
pub fn occurs_at_exec(haystack: &[char], needle: &[char], at: usize) -> (found: bool)
    ensures
        found == occurs_at(haystack@, needle@, at as int),
{
    if at > haystack.len() || needle.len() > haystack.len() - at {
        return false;
    }
    let haystack_len = haystack.len();
    let mut i: usize = 0;
    while i < needle.len()
        invariant
            haystack_len == haystack@.len(),
            at + needle@.len() <= haystack_len,
            i <= needle@.len(),
            forall|j: int| 0 <= j < i ==> haystack@[at + j] == needle@[j],
        decreases needle@.len() - i,
    {
        if haystack[at + i] != needle[i] {
            assert(haystack@.subrange(at as int, at + needle@.len())[i as int] != needle@[i as int]);
            return false;
        }
        i = i + 1;
    }
    assert(haystack@.subrange(at as int, at + needle@.len()) =~= needle@);
    true
}

/// Whether `needle` occurs anywhere in `haystack`.
pub fn contains_chars(haystack: &[char], needle: &[char]) -> (found: bool)
    ensures
        found == contains_seq(haystack@, needle@),
{
    if needle.len() > haystack.len() {
        return false;
    }
    if needle.len() == 0 {
        assert(haystack@.subrange(0, 0) =~= needle@);
        assert(occurs_at(haystack@, needle@, 0));
        return true;
    }
    let end = haystack.len() - needle.len() + 1;
    let mut at: usize = 0;
    while at < end
        invariant
            end == haystack@.len() - needle@.len() + 1,
            at <= end,
            forall|j: int| 0 <= j < at ==> !occurs_at(haystack@, needle@, j),
        decreases end - at,
    {
        if occurs_at_exec(haystack, needle, at) {
            return true;
        }
        at = at + 1;
    }
    assert forall|j: int| !occurs_at(haystack@, needle@, j) by {
        if 0 <= j && j + needle@.len() <= haystack@.len() {
            assert(j < end);
        }
    }
    false
}

/// Whether `haystack` ends with `suffix`.
pub fn ends_with_chars(haystack: &[char], suffix: &[char]) -> (found: bool)
    ensures
        found == ends_with_seq(haystack@, suffix@),
{
    if suffix.len() > haystack.len() {
        return false;
    }
    occurs_at_exec(haystack, suffix, haystack.len() - suffix.len())
}


/// What `str::to_lowercase` returns for a string with these characters:
/// Unicode lowercase mapping, which is context-sensitive (a final Greek sigma)
/// and may change the length.
pub uninterp spec fn lowercase(text: Seq<char>) -> Seq<char>;

/// What `char::to_uppercase` yields for `c`: one or more characters.
pub uninterp spec fn char_uppercase(c: char) -> Seq<char>;

/// Whether `c` has the Unicode `White_Space` property, by which `str::trim`
/// decides what to remove: the controls U+0009 to U+000D, U+0085, the spaces
/// U+0020, U+00A0, U+1680, U+2000 to U+200A, U+202F, U+205F, U+3000, and the
/// line and paragraph separators U+2028 and U+2029.
pub open spec fn is_white_space(c: char) -> bool {
    let u = c as u32;
    ||| 0x09 <= u <= 0x0D
    ||| u == 0x20
    ||| u == 0x85
    ||| u == 0xA0
    ||| u == 0x1680
    ||| 0x2000 <= u <= 0x200A
    ||| u == 0x2028
    ||| u == 0x2029
    ||| u == 0x202F
    ||| u == 0x205F
    ||| u == 0x3000
}

/// `text` without its leading whitespace.
pub open spec fn trim_start(text: Seq<char>) -> Seq<char>
    decreases text.len(),
{
    if text.len() > 0 && is_white_space(text[0]) {
        trim_start(text.drop_first())
    } else {
        text
    }
}

/// `text` without its trailing whitespace.
pub open spec fn trim_end(text: Seq<char>) -> Seq<char>
    decreases text.len(),
{
    if text.len() > 0 && is_white_space(text.last()) {
        trim_end(text.drop_last())
    } else {
        text
    }
}

/// `text` without its leading and trailing whitespace.
pub open spec fn trimmed(text: Seq<char>) -> Seq<char> {
    trim_end(trim_start(text))
}

/// `str::to_lowercase`: the lowercase form of `text`.
#[verifier::external_body]
pub(crate) fn to_lowercase(text: &str) -> (lower: String)
    ensures
        lower@ == lowercase(text@),
{
    text.to_lowercase()
}

/// `char::to_uppercase`: the characters of the uppercase form of `c`. An
/// ASCII lowercase letter becomes its uppercase letter, and any other ASCII
/// character, having no uppercase mapping, stays as it is.
#[verifier::external_body]
pub(crate) fn uppercase_of(c: char) -> (upper: Vec<char>)
    ensures
        upper@ == char_uppercase(c),
        'a' <= c <= 'z' ==> upper@ == seq![((c as u32) - 32) as char],
        (c as u32) < 128 && !('a' <= c <= 'z') ==> upper@ == seq![c],
{
    c.to_uppercase().collect()
}

/// `str::trim`: `text` without leading and trailing whitespace, as its
/// documentation defines it (the Unicode `White_Space` property).
#[verifier::external_body]
pub(crate) fn trim(text: &str) -> (inner: &str)
    ensures
        inner@ == trimmed(text@),
{
    text.trim()
}


/// The decimal digits of `n`, most significant first, without leading zeros
/// ("0" for zero).
pub open spec fn decimal(n: nat) -> Seq<char>
    decreases n,
{
    if n < 10 {
        seq![digit_char((n % 10) as u8)]
    } else {
        decimal(n / 10).push(digit_char((n % 10) as u8))
    }
}

/// The character of the decimal digit `d`.
pub open spec fn digit_char(d: u8) -> char {
    if d == 0 { '0' } else if d == 1 { '1' } else if d == 2 { '2' } else if d == 3 { '3' }
    else if d == 4 { '4' } else if d == 5 { '5' } else if d == 6 { '6' } else if d == 7 { '7' }
    else if d == 8 { '8' } else { '9' }
}

fn digit_char_exec(d: u8) -> (c: char)
    ensures
        c == digit_char(d),
{
    if d == 0 { '0' } else if d == 1 { '1' } else if d == 2 { '2' } else if d == 3 { '3' }
    else if d == 4 { '4' } else if d == 5 { '5' } else if d == 6 { '6' } else if d == 7 { '7' }
    else if d == 8 { '8' } else { '9' }
}

/// The decimal digits of `n`.
pub fn decimal_digits(n: usize) -> (digits: Vec<char>)
    ensures
        digits@ == decimal(n as nat),
    decreases n,
{
    if n < 10 {
        vec![digit_char_exec((n % 10) as u8)]
    } else {
        let mut digits = decimal_digits(n / 10);
        digits.push(digit_char_exec((n % 10) as u8));
        digits
    }
}

} // verus!
