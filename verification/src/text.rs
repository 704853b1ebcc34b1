//! Text helpers shared by the library: decimal and hexadecimal rendering.

use vstd::prelude::*;

verus! {

/// The ASCII digit for a value below ten.
pub open spec fn digit_char(d: nat) -> char {
    (48 + d) as char
}

/// Decimal rendering of a natural number, most significant digit first,
/// without leading zeros (zero renders as "0").
pub open spec fn decimal(n: nat) -> Seq<char>
    decreases n,
{
    if n < 10 {
        seq![digit_char(n)]
    } else {
        decimal(n / 10).push(digit_char(n % 10))
    }
}

/// Appends one character to a `String` (std's `String::push`).
#[verifier::external_body]
pub(crate) fn string_push(s: &mut String, c: char)
    ensures
        final(s)@ == old(s)@.push(c),
{
    s.push(c);
}

/// Appends the decimal rendering of `n` to `out`.
pub fn push_decimal(out: &mut String, n: u64)
    ensures
        final(out)@ == old(out)@ + decimal(n as nat),
    decreases n,
{
    if n >= 10 {
        push_decimal(out, n / 10);
    }
    let d: u8 = (n % 10) as u8;
    let c: char = (48u8 + d) as char;
    string_push(out, c);
    proof {
        assert(c == digit_char((n % 10) as nat));
    }
}

} // verus!

verus! {

/// The characters of a string slice, in order.
pub fn str_chars(s: &str) -> (v: Vec<char>)
    ensures
        v@ == s@,
{
    let mut v: Vec<char> = Vec::new();
    let n = s.unicode_len();
    let mut i: usize = 0;
    while i < n
        invariant
            n == s@.len(),
            0 <= i <= n,
            v@ == s@.subrange(0, i as int),
        decreases n - i,
    {
        v.push(s.get_char(i));
        i = i + 1;
        assert(v@ =~= s@.subrange(0, i as int));
    }
    assert(s@.subrange(0, n as int) =~= s@);
    v
}

/// ASCII upper-casing of one character; every other character is kept.
pub open spec fn ascii_upper_char(c: char) -> char {
    if 'a' <= c && c <= 'z' {
        ((c as u32) - 32) as char
    } else {
        c
    }
}

/// ASCII upper-casing of a character sequence.
pub open spec fn ascii_upper(s: Seq<char>) -> Seq<char> {
    s.map_values(|c: char| ascii_upper_char(c))
}

/// ASCII upper-casing of one character.
pub fn to_ascii_upper_char(c: char) -> (r: char)
    ensures
        r == ascii_upper_char(c),
{
    if 'a' <= c && c <= 'z' {
        let x: u32 = c as u32;
        let b: u8 = (x - 32) as u8;
        b as char
    } else {
        c
    }
}

/// ASCII upper-casing of a string slice, as characters.
pub fn upper_chars(s: &str) -> (v: Vec<char>)
    ensures
        v@ == ascii_upper(s@),
{
    let src = str_chars(s);
    let mut v: Vec<char> = Vec::new();
    let mut i: usize = 0;
    while i < src.len()
        invariant
            src@ == s@,
            0 <= i <= src@.len(),
            v@ == ascii_upper(s@).subrange(0, i as int),
        decreases src@.len() - i,
    {
        v.push(to_ascii_upper_char(src[i]));
        i = i + 1;
        assert(v@ =~= ascii_upper(s@).subrange(0, i as int));
    }
    assert(ascii_upper(s@).subrange(0, src@.len() as int) =~= ascii_upper(s@));
    v
}

/// Whether a character vector spells exactly the given string slice.
pub fn chars_eq_str(v: &Vec<char>, s: &str) -> (b: bool)
    ensures
        b == (v@ == s@),
{
    let n = s.unicode_len();
    if v.len() != n {
        return false;
    }
    let mut i: usize = 0;
    while i < n
        invariant
            n == s@.len(),
            n == v@.len(),
            0 <= i <= n,
            forall|j: int| 0 <= j < i ==> v@[j] == s@[j],
        decreases n - i,
    {
        if v[i] != s.get_char(i) {
            return false;
        }
        i = i + 1;
    }
    assert(v@ =~= s@);
    true
}

/// `k` occurs in `s` starting at index `i`.
pub open spec fn occurs_at(s: Seq<char>, k: Seq<char>, i: int) -> bool {
    0 <= i && i + k.len() <= s.len() && s.subrange(i, i + k.len()) == k
}

/// `k` occurs somewhere in `s`.
pub open spec fn contains_seq(s: Seq<char>, k: Seq<char>) -> bool {
    exists|i: int| occurs_at(s, k, i)
}

/// Whether `k` occurs in `s` at index `i`.
fn matches_at(s: &Vec<char>, k: &Vec<char>, i: usize) -> (b: bool)
    requires
        i + k@.len() <= s@.len(),
    ensures
        b == occurs_at(s@, k@, i as int),
{
    let n = s.len();
    let mut j: usize = 0;
    while j < k.len()
        invariant
            n == s@.len(),
            i + k@.len() <= s@.len(),
            0 <= j <= k@.len(),
            forall|m: int| 0 <= m < j ==> s@[i + m] == k@[m],
        decreases k@.len() - j,
    {
        if s[i + j] != k[j] {
            assert(s@.subrange(i as int, i + k@.len())[j as int] != k@[j as int]);
            return false;
        }
        j = j + 1;
    }
    assert(s@.subrange(i as int, i + k@.len()) =~= k@);
    true
}

/// Whether `k` occurs anywhere in `s`.
pub fn contains_chars(s: &Vec<char>, k: &Vec<char>) -> (b: bool)
    ensures
        b == contains_seq(s@, k@),
{
    if k.len() > s.len() {
        return false;
    }
    let last = s.len() - k.len();
    let mut i: usize = 0;
    loop
        invariant
            last == s@.len() - k@.len(),
            k@.len() <= s@.len(),
            0 <= i <= last,
            forall|m: int| 0 <= m < i ==> !occurs_at(s@, k@, m),
        decreases last - i,
    {
        if matches_at(s, k, i) {
            return true;
        }
        if i == last {
            return false;
        }
        i = i + 1;
    }
}

/// A `String` holding exactly the given characters.
pub fn string_from_chars(v: &Vec<char>) -> (s: String)
    ensures
        s@ == v@,
{
    let mut s = String::new();
    let mut i: usize = 0;
    while i < v.len()
        invariant
            0 <= i <= v@.len(),
            s@ == v@.subrange(0, i as int),
        decreases v@.len() - i,
    {
        string_push(&mut s, v[i]);
        i = i + 1;
        assert(s@ =~= v@.subrange(0, i as int));
    }
    assert(v@.subrange(0, v@.len() as int) =~= v@);
    s
}

} // verus!

verus! {

/// Decimal rendering of an integer, with a leading '-' when negative.
pub open spec fn signed_decimal(n: int) -> Seq<char> {
    if n < 0 {
        seq!['-'] + decimal((-n) as nat)
    } else {
        decimal(n as nat)
    }
}

/// Appends the signed decimal rendering of `n` to `out`.
pub fn push_signed_decimal(out: &mut String, n: i64)
    ensures
        final(out)@ == old(out)@ + signed_decimal(n as int),
{
    if n < 0 {
        string_push(out, '-');
        let m: u64 = if n == i64::MIN { 0x8000_0000_0000_0000u64 } else { (-n) as u64 };
        push_decimal(out, m);
        proof {
            assert(m as int == -(n as int));
        }
    } else {
        push_decimal(out, n as u64);
    }
}

} // verus!

verus! {

/// Whether a character has the Unicode White_Space property, as
/// `char::is_whitespace` reports it: U+0009 to U+000D, U+0020, U+0085,
/// U+00A0, U+1680, U+2000 to U+200A, U+2028, U+2029, U+202F, U+205F and
/// U+3000.
pub open spec fn white_space(c: char) -> bool {
    let u = c as u32;
    ||| 9 <= u <= 13
    ||| u == 32
    ||| u == 0x85
    ||| u == 0xA0
    ||| u == 0x1680
    ||| 0x2000 <= u <= 0x200A
    ||| u == 0x2028
    ||| u == 0x2029
    ||| u == 0x202F
    ||| u == 0x205F
    ||| u == 0x3000
}

/// A string without its leading White_Space characters.
pub open spec fn trim_start_of(s: Seq<char>) -> Seq<char>
    decreases s.len(),
{
    if s.len() > 0 && white_space(s[0]) {
        trim_start_of(s.drop_first())
    } else {
        s
    }
}

/// A string without its trailing White_Space characters.
pub open spec fn trim_end_of(s: Seq<char>) -> Seq<char>
    decreases s.len(),
{
    if s.len() > 0 && white_space(s.last()) {
        trim_end_of(s.drop_last())
    } else {
        s
    }
}

/// What `str::trim` leaves of a string: the string without its leading
/// and trailing White_Space characters.
pub open spec fn trim_of(s: Seq<char>) -> Seq<char> {
    trim_end_of(trim_start_of(s))
}

/// ASCII lower-casing of one character; every other character is kept.
pub open spec fn ascii_lower_char(c: char) -> char {
    if 'A' <= c && c <= 'Z' {
        ((c as u32) + 32) as char
    } else {
        c
    }
}

/// Every character of the string is ASCII.
pub open spec fn all_ascii(s: Seq<char>) -> bool {
    forall|i: int| 0 <= i < s.len() ==> (#[trigger] s[i] as u32) < 128
}

/// What `str::to_lowercase` makes of a string that is not all ASCII: its
/// Unicode lowercase mapping (which may change the number of characters).
pub uninterp spec fn unicode_lowercase_of(s: Seq<char>) -> Seq<char>;

/// What `str::to_lowercase` makes of a string: for an ASCII string, each
/// capital letter lowered and every other character kept; otherwise the
/// Unicode lowercase mapping.
pub open spec fn lowercase_of(s: Seq<char>) -> Seq<char> {
    if all_ascii(s) {
        s.map_values(|c: char| ascii_lower_char(c))
    } else {
        unicode_lowercase_of(s)
    }
}

/// `str::trim`: the string without leading and trailing whitespace.
#[verifier::external_body]
pub(crate) fn trim_str(s: &str) -> (r: &str)
    ensures
        r@ == trim_of(s@),
{
    s.trim()
}

/// `str::to_lowercase`: the Unicode lowercase mapping of a string; on an
/// ASCII string, ASCII lower-casing.
#[verifier::external_body]
pub(crate) fn to_lowercase_string(s: &str) -> (r: String)
    ensures
        r@ == lowercase_of(s@),
        !all_ascii(s@) ==> r@ == unicode_lowercase_of(s@),
{
    s.to_lowercase()
}

/// `char::is_whitespace`: whether a character has the White_Space property
/// (the list `white_space` gives).
#[verifier::external_body]
pub(crate) fn is_white_space(c: char) -> (b: bool)
    ensures
        b == white_space(c),
{
    c.is_whitespace()
}

/// The number of whitespace-separated words of a string, as
/// `str::split_whitespace` counts them: the characters that are not
/// whitespace and start the string or follow a whitespace character.
pub open spec fn word_count(s: Seq<char>) -> nat
    decreases s.len(),
{
    if s.len() == 0 {
        0
    } else {
        let starts = !white_space(s.last()) && (s.len() == 1 || white_space(s[s.len() - 2]));
        word_count(s.drop_last()) + if starts { 1nat } else { 0nat }
    }
}

/// Counts the whitespace-separated words of a character sequence.
pub fn count_words(s: &Vec<char>) -> (n: usize)
    ensures
        n == word_count(s@),
{
    let mut n: usize = 0;
    let mut i: usize = 0;
    while i < s.len()
        invariant
            0 <= i <= s@.len(),
            n == word_count(s@.subrange(0, i as int)),
            n <= i,
        decreases s@.len() - i,
    {
        let ws = is_white_space(s[i]);
        let starts = !ws && (i == 0 || is_white_space(s[i - 1]));
        if starts {
            n = n + 1;
        }
        i = i + 1;
        proof {
            let t = s@.subrange(0, i as int);
            assert(t.drop_last() =~= s@.subrange(0, i - 1));
            assert(t.last() == s@[i - 1]);
            if i >= 2 {
                assert(t[t.len() - 2] == s@[i - 2]);
            }
        }
    }
    assert(s@.subrange(0, s@.len() as int) =~= s@);
    n
}

} // verus!

verus! {

/// The lowercase hexadecimal digit for a value below sixteen.
pub open spec fn hex_digit(d: nat) -> char {
    if d < 10 {
        (48 + d) as char
    } else {
        (87 + d) as char
    }
}

/// Two lowercase hexadecimal digits of a byte.
pub open spec fn hex_byte(b: u8) -> Seq<char> {
    seq![hex_digit((b / 16) as nat), hex_digit((b % 16) as nat)]
}

/// Lowercase hexadecimal rendering of a byte string, two digits a byte.
pub open spec fn hex_of(bs: Seq<u8>) -> Seq<char>
    decreases bs.len(),
{
    if bs.len() == 0 {
        Seq::empty()
    } else {
        hex_of(bs.drop_last()) + hex_byte(bs.last())
    }
}

/// The hexadecimal digit character of a value below sixteen.
fn hex_digit_char(d: u8) -> (c: char)
    requires
        d < 16,
    ensures
        c == hex_digit(d as nat),
{
    if d < 10 {
        (48u8 + d) as char
    } else {
        (87u8 + d) as char
    }
}

/// Appends the two hexadecimal digits of a byte.
pub fn push_hex_byte(out: &mut String, b: u8)
    ensures
        final(out)@ == old(out)@ + hex_byte(b),
{
    string_push(out, hex_digit_char(b / 16));
    string_push(out, hex_digit_char(b % 16));
    assert(final(out)@ =~= old(out)@ + hex_byte(b));
}

/// Lowercase hexadecimal rendering of bytes.
pub fn hex_encode(bs: &[u8]) -> (s: String)
    ensures
        s@ == hex_of(bs@),
{
    let mut s = String::new();
    let mut i: usize = 0;
    while i < bs.len()
        invariant
            0 <= i <= bs@.len(),
            s@ == hex_of(bs@.subrange(0, i as int)),
        decreases bs@.len() - i,
    {
        push_hex_byte(&mut s, bs[i]);
        i = i + 1;
        proof {
            let t = bs@.subrange(0, i as int);
            assert(t.drop_last() =~= bs@.subrange(0, i - 1));
        }
    }
    assert(bs@.subrange(0, bs@.len() as int) =~= bs@);
    s
}

} // verus!

verus! {

/// Whether a character beyond ASCII has the Unicode Alphabetic property,
/// as `char::is_alphabetic` reports it.
pub uninterp spec fn unicode_alphabetic(c: char) -> bool;

/// Whether a character beyond ASCII is numeric in the sense of
/// `char::is_numeric` (general categories Nd, Nl, No).
pub uninterp spec fn unicode_numeric(c: char) -> bool;

/// `char::is_alphabetic`: among ASCII characters exactly the letters.
pub open spec fn alphabetic(c: char) -> bool {
    if (c as u32) < 128 {
        ('A' <= c && c <= 'Z') || ('a' <= c && c <= 'z')
    } else {
        unicode_alphabetic(c)
    }
}

/// `char::is_numeric`: among ASCII characters exactly the digits.
pub open spec fn numeric(c: char) -> bool {
    if (c as u32) < 128 {
        '0' <= c && c <= '9'
    } else {
        unicode_numeric(c)
    }
}

/// The text `{:?}` renders a character as.
pub uninterp spec fn char_debug_of(c: char) -> Seq<char>;

/// `char::is_alphabetic`.
#[verifier::external_body]
pub(crate) fn is_alphabetic_char(c: char) -> (b: bool)
    ensures
        b == alphabetic(c),
        (c as u32) >= 128 ==> b == unicode_alphabetic(c),
{
    c.is_alphabetic()
}

/// `char::is_alphanumeric`: documented as alphabetic or numeric.
#[verifier::external_body]
pub(crate) fn is_alphanumeric_char(c: char) -> (b: bool)
    ensures
        b == (alphabetic(c) || numeric(c)),
        (c as u32) >= 128 ==> b == (unicode_alphabetic(c) || unicode_numeric(c)),
{
    c.is_alphanumeric()
}

/// The `Debug` rendering of a character: quoted, with escapes.
#[verifier::external_body]
pub(crate) fn char_debug(c: char) -> (s: String)
    ensures
        s@ == char_debug_of(c),
{
    format!("{c:?}")
}

} // verus!
