//! Text helpers: exact comparisons, decimal rendering, truncation and
//! display forms of item codes.

use vstd::prelude::*;
use vstd::string::StringSliceAdditionalSpecFns;

verus! {

broadcast use vstd::string::group_string_axioms;

/// Whether two text slices hold the same characters.
pub(crate) fn same_text(a: &str, b: &str) -> (r: bool)
    ensures
        r == (a@ == b@),
{
    a.to_owned() == b.to_owned()
}

/// Appends one character with `String::push`, which adds the character at
/// the end of the string.
#[verifier::external_body]
pub(crate) fn push_char(s: &mut String, c: char)
    ensures
        final(s)@ == old(s)@.push(c),
{
    s.push(c);
}

/// The characters of a text slice, in order.
pub fn chars_of(s: &str) -> (v: Vec<char>)
    ensures
        v@ == s@,
{
    let mut v: Vec<char> = Vec::new();
    for c in it: s.chars()
        invariant
            v@ == it.seq().take(it.index() as int),
    {
        v.push(c);
    }
    v
}


/// The character for a decimal digit.
pub open spec fn digit_char(d: int) -> char {
    if d == 0 { '0' }
    else if d == 1 { '1' }
    else if d == 2 { '2' }
    else if d == 3 { '3' }
    else if d == 4 { '4' }
    else if d == 5 { '5' }
    else if d == 6 { '6' }
    else if d == 7 { '7' }
    else if d == 8 { '8' }
    else { '9' }
}

/// Decimal rendering of a natural number, most significant digit first.
pub open spec fn decimal(n: nat) -> Seq<char>
    decreases n,
{
    if n < 10 {
        seq![digit_char(n as int)]
    } else {
        decimal(n / 10).push(digit_char((n % 10) as int))
    }
}

/// Decimal rendering of an integer, with a leading `-` when it is negative.
pub open spec fn signed_decimal(v: int) -> Seq<char> {
    if v < 0 {
        seq!['-'] + decimal((-v) as nat)
    } else {
        decimal(v as nat)
    }
}

fn digit(d: u64) -> (c: char)
    requires
        d < 10,
    ensures
        c == digit_char(d as int),
{
    if d == 0 { '0' }
    else if d == 1 { '1' }
    else if d == 2 { '2' }
    else if d == 3 { '3' }
    else if d == 4 { '4' }
    else if d == 5 { '5' }
    else if d == 6 { '6' }
    else if d == 7 { '7' }
    else if d == 8 { '8' }
    else { '9' }
}

/// Appends the decimal rendering of `n`.
pub fn push_decimal(out: &mut String, n: u64)
    ensures
        final(out)@ == old(out)@ + decimal(n as nat),
    decreases n,
{
    if n >= 10 {
        push_decimal(out, n / 10);
    }
    push_char(out, digit(n % 10));
    proof {
        if n >= 10 {
            assert(old(out)@ + decimal(n as nat) =~= old(out)@ + decimal((n / 10) as nat) + seq![
                digit_char((n % 10) as int),
            ]);
        } else {
            assert(decimal(n as nat) == seq![digit_char(n as int)]);
        }
    }
}

/// Appends the decimal rendering of a signed value.
pub fn push_signed(out: &mut String, v: i64)
    ensures
        final(out)@ == old(out)@ + signed_decimal(v as int),
{
    if v < 0 {
        push_char(out, '-');
        let m: u64 = (0i128 - v as i128) as u64;
        push_decimal(out, m);
        assert(old(out)@ + signed_decimal(v as int) =~= old(out)@.push('-') + decimal(m as nat));
    } else {
        push_decimal(out, v as u64);
    }
}

/// The decimal rendering of `n` as a new string.
pub fn decimal_string(n: u64) -> (r: String)
    ensures
        r@ == decimal(n as nat),
{
    let mut r = String::new();
    push_decimal(&mut r, n);
    assert(r@ =~= decimal(n as nat));
    r
}

/// `s` cut to at most `max` characters; a cut string ends in `…` and keeps
/// its first `max - 1` characters.
pub open spec fn truncated(s: Seq<char>, max: nat) -> Seq<char> {
    if max == 0 {
        Seq::empty()
    } else if s.len() <= max {
        s
    } else {
        s.take(max - 1).push('…')
    }
}

/// Truncates `s` to at most `max` characters, appending `…` when it cuts.
pub fn truncate(s: &str, max: usize) -> (r: String)
    ensures
        r@ == truncated(s@, max as nat),
{
    if max == 0 {
        return String::new();
    }
    let n = s.unicode_len();
    if n <= max {
        String::from_str(s)
    } else {
        let mut r = String::from_str(s.substring_char(0, max - 1));
        push_char(&mut r, '…');
        r
    }
}

/// The text of the first `n` bytes of a UTF-8 encoding.
pub open spec fn byte_prefix_text(s: Seq<char>, n: int) -> Seq<char> {
    vstd::utf8::decode_utf8(vstd::utf8::encode_utf8(s).subrange(0, n))
}

/// The first `n` bytes of `s`, which must end on a character boundary.
pub fn byte_prefix(s: &str, n: usize) -> (r: &str)
    requires
        vstd::utf8::is_char_boundary(s.spec_bytes(), n as int),
    ensures
        r.spec_bytes() == s.spec_bytes().subrange(0, n as int),
        r@ == byte_prefix_text(s@, n as int),
{
    let (a, _) = s.split_at(n);
    proof {
        vstd::utf8::encode_utf8_decode_utf8(a@);
    }
    a
}

/// The byte length of the UTF-8 encoding of `s`, as `str::len` reports it.
pub open spec fn byte_len(s: Seq<char>) -> usize {
    vstd::utf8::encode_utf8(s).len() as usize
}

/// Byte-limited truncation: `s` when its UTF-8 encoding is at most `max`
/// bytes, else its first `max - 1` bytes (`max` of zero counts as one)
/// followed by `…`.
pub open spec fn byte_truncated(s: Seq<char>, max: nat) -> Seq<char> {
    if byte_len(s) <= max {
        s
    } else {
        byte_prefix_text(s, if max > 0 { max - 1 } else { 0 }).push('…')
    }
}

/// Whether truncating `s` to `max` bytes cuts at a character boundary.
pub open spec fn byte_cut_ok(s: Seq<char>, max: nat) -> bool {
    byte_len(s) <= max || vstd::utf8::is_char_boundary(
        vstd::utf8::encode_utf8(s),
        if max > 0 { max - 1 } else { 0 },
    )
}

/// Truncates `s` to at most `max` bytes (keeping `max - 1` and appending
/// `…` when it cuts); the cut must fall on a character boundary.
pub fn truncate_bytes(s: &str, max: usize) -> (r: String)
    requires
        byte_cut_ok(s@, max as nat),
    ensures
        r@ == byte_truncated(s@, max as nat),
{
    let n = s.len();
    if n <= max {
        String::from_str(s)
    } else {
        let keep = max.saturating_sub(1);
        let p = byte_prefix(s, keep);
        let mut r = String::from_str(p);
        push_char(&mut r, '…');
        assert(r@ == byte_prefix_text(s@, keep as int).push('…'));
        r
    }
}

/// A truncated string never exceeds the limit, and truncating again with
/// the same limit changes nothing.
pub proof fn truncate_law(s: Seq<char>, max: nat)
    ensures
        truncated(s, max).len() <= max,
        truncated(truncated(s, max), max) == truncated(s, max),
{
}


/// The characters that `char::to_uppercase` yields for `c`.
pub uninterp spec fn uppercase_of(c: char) -> Seq<char>;

/// Whether `c` is an ASCII lowercase letter.
pub open spec fn is_ascii_lower(c: char) -> bool {
    97 <= (c as u32) && (c as u32) <= 122
}

/// `char::to_uppercase`, collected into a string: the uppercase mapping of
/// `c`. For the ASCII letters `a` to `z` this is `A` to `Z`; any other ASCII
/// character has no uppercase mapping and maps to itself. The mapping of
/// other characters (taken from the Unicode tables) is left to the name
/// `uppercase_of`.
#[verifier::external_body]
fn uppercase(c: char) -> (r: String)
    ensures
        r@ == uppercase_of(c),
        is_ascii_lower(c) ==> r@ == seq![((c as u32) - 32) as char],
        ((c as u32) < 128 && !is_ascii_lower(c)) ==> r@ == seq![c],
{
    c.to_uppercase().collect()
}

/// The display form of the first `i` characters of an item code: every `_`
/// becomes a space and the first character of each `_`-separated word is
/// replaced by its uppercase mapping.
pub open spec fn display_prefix(s: Seq<char>, i: nat) -> Seq<char>
    decreases i,
{
    if i == 0 || i > s.len() {
        Seq::empty()
    } else {
        let prev = display_prefix(s, (i - 1) as nat);
        let c = s[i - 1];
        let word_start = i == 1 || s[i - 2] == '_';
        if c == '_' {
            prev.push(' ')
        } else if word_start {
            prev + uppercase_of(c)
        } else {
            prev.push(c)
        }
    }
}

/// The display form of an item code, e.g. `wooden_staff` → `Wooden Staff`.
pub open spec fn display_name(s: Seq<char>) -> Seq<char> {
    display_prefix(s, s.len())
}

/// Whether every character of `s` is ASCII.
pub open spec fn all_ascii(s: Seq<char>) -> bool {
    forall|i: int| 0 <= i < s.len() ==> (s[i] as u32) < 128
}

/// The display form of the ASCII character at `i` of a code: `_` becomes a
/// space, a lowercase letter that starts a word becomes its capital, and
/// any other character stays.
pub open spec fn ascii_display_char(s: Seq<char>, i: int) -> char {
    let c = s[i];
    if c == '_' {
        ' '
    } else if (i == 0 || s[i - 1] == '_') && is_ascii_lower(c) {
        ((c as u32) - 32) as char
    } else {
        c
    }
}

/// Converts a snake_case code such as `wooden_staff` to its title-case
/// display form `Wooden Staff`. For an ASCII code the result has one
/// character per character of the code: `_` becomes a space and the first
/// letter of each word is capitalised.
pub fn normalise_code(code: &str) -> (r: String)
    ensures
        r@ == display_name(code@),
        all_ascii(code@) ==> r@.len() == code@.len() && forall|i: int|
            0 <= i < code@.len() ==> r@[i] == ascii_display_char(code@, i),
{
    let cs = chars_of(code);
    let mut r = String::new();
    let mut i: usize = 0;
    while i < cs.len()
        invariant
            cs@ == code@,
            i <= cs.len(),
            r@ == display_prefix(code@, i as nat),
            all_ascii(code@) ==> r@.len() == i && forall|k: int|
                0 <= k < i ==> r@[k] == ascii_display_char(code@, k),
        decreases cs.len() - i,
    {
        let c = cs[i];
        let word_start = i == 0 || cs[i - 1] == '_';
        let ghost r0 = r@;
        if c == '_' {
            push_char(&mut r, ' ');
        } else if word_start {
            let u = uppercase(c);
            r.append(u.as_str());
        } else {
            push_char(&mut r, c);
        }
        proof {
            if all_ascii(code@) {
                assert((code@[i as int] as u32) < 128);
                assert(r@ =~= r0.push(ascii_display_char(code@, i as int)));
            }
        }
        i = i + 1;
    }
    r
}

/// The first `i` digits of `d` with a `,` before every digit that starts a
/// group of three counted from the right.
pub open spec fn grouped_prefix(d: Seq<char>, i: nat) -> Seq<char>
    decreases i,
{
    if i == 0 || i > d.len() {
        Seq::empty()
    } else {
        let j = i - 1;
        let prev = grouped_prefix(d, j as nat);
        let with_sep = if j > 0 && (d.len() - j) % 3 == 0 {
            prev.push(',')
        } else {
            prev
        };
        with_sep.push(d[j])
    }
}

/// A gold amount with thousands separators, e.g. 1234567 → `1,234,567`.
pub open spec fn gold_text(g: nat) -> Seq<char> {
    grouped_prefix(decimal(g), decimal(g).len())
}

/// Formats a gold value with thousands separators: 1_234_567 → "1,234,567".
pub fn format_gold(g: u64) -> (r: String)
    ensures
        r@ == gold_text(g as nat),
{
    let digits = decimal_string(g);
    let d = chars_of(digits.as_str());
    let n = d.len();
    let mut r = String::new();
    let mut i: usize = 0;
    while i < n
        invariant
            d@ == decimal(g as nat),
            n == d@.len(),
            i <= n,
            r@ == grouped_prefix(d@, i as nat),
        decreases n - i,
    {
        if i > 0 && (n - i) % 3 == 0 {
            push_char(&mut r, ',');
        }
        push_char(&mut r, d[i]);
        i = i + 1;
    }
    r
}

/// `s` without its `,` characters.
pub open spec fn without_commas(s: Seq<char>) -> Seq<char> {
    s.filter(|c: char| c != ',')
}

proof fn lemma_grouped_digits(d: Seq<char>, i: nat)
    requires
        i <= d.len(),
        forall|k: int| 0 <= k < d.len() ==> d[k] != ',',
    ensures
        without_commas(grouped_prefix(d, i)) == d.take(i as int),
    decreases i,
{
    reveal_with_fuel(Seq::filter, 2);
    if i > 0 {
        let j = (i - 1) as nat;
        lemma_grouped_digits(d, j);
        let prev = grouped_prefix(d, j);
        let with_sep = if j > 0 && (d.len() - j) % 3 == 0 { prev.push(',') } else { prev };
        assert(without_commas(with_sep) == without_commas(prev)) by {
            if j > 0 && (d.len() - j) % 3 == 0 {
                assert(prev.push(',').drop_last() =~= prev);
            }
        }
        assert(with_sep.push(d[j as int]).drop_last() =~= with_sep);
        assert(d.take(i as int) =~= d.take(j as int).push(d[j as int]));
    }
}

proof fn lemma_decimal_digits(n: nat)
    ensures
        forall|k: int| 0 <= k < decimal(n).len() ==> decimal(n)[k] != ',',
        decimal(n).len() >= 1,
    decreases n,
{
    if n >= 10 {
        lemma_decimal_digits(n / 10);
    }
}

/// Dropping the separators from a formatted gold amount gives back its
/// plain decimal digits.
pub proof fn gold_text_digits_law(g: nat)
    ensures
        without_commas(gold_text(g)) == decimal(g),
{
    lemma_decimal_digits(g);
    lemma_grouped_digits(decimal(g), decimal(g).len());
    assert(decimal(g).take(decimal(g).len() as int) =~= decimal(g));
}

/// `s` with every trailing `/` removed.
pub open spec fn trim_slashes(s: Seq<char>) -> Seq<char>
    decreases s.len(),
{
    if s.len() > 0 && s.last() == '/' {
        trim_slashes(s.drop_last())
    } else {
        s
    }
}

/// The address of `path` under a server root given with or without
/// trailing slashes: the root with its trailing `/` removed, then `path`.
pub fn endpoint(root: &str, path: &str) -> (r: String)
    ensures
        r@ == trim_slashes(root@) + path@,
{
    let cs = chars_of(root);
    let mut n = cs.len();
    assert(cs@.take(cs.len() as int) =~= cs@);
    while n > 0 && cs[n - 1] == '/'
        invariant
            cs@ == root@,
            n <= cs.len(),
            trim_slashes(cs@.take(n as int)) == trim_slashes(root@),
        decreases n,
    {
        assert(cs@.take(n as int).drop_last() =~= cs@.take(n - 1));
        n = n - 1;
    }
    assert(trim_slashes(cs@.take(n as int)) == cs@.take(n as int));
    assert(root@.subrange(0, n as int) =~= cs@.take(n as int));
    let mut r = String::from_str(root.substring_char(0, n));
    r.append(path);
    r
}

} // verus!
