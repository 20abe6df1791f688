//! Rendering and searching text.

use vstd::prelude::*;
use vstd::string::StrSliceExecFns;
use vstd::string::StringExecFns;

verus! {

/// The character of the decimal digit `d`.
pub open spec fn digit_char(d: nat) -> char
    recommends
        d < 10,
{
    ('0' as nat + d) as char
}

/// `n` in decimal, without leading zeros.
pub open spec fn decimal(n: nat) -> Seq<char>
    decreases n,
{
    if n < 10 {
        seq![digit_char(n)]
    } else {
        decimal(n / 10).push(digit_char(n % 10))
    }
}

/// The number that a sequence of decimal digits stands for.
pub open spec fn decimal_value(digits: Seq<char>) -> int
    decreases digits.len(),
{
    if digits.len() == 0 {
        0
    } else {
        10 * decimal_value(digits.drop_last()) + (digits.last() as int - '0' as int)
    }
}

/// Reading a rendered number back gives the number.
pub proof fn decimal_reads_back(n: nat)
    ensures
        decimal_value(decimal(n)) == n,
    decreases n,
{
    if n < 10 {
        let s = seq![digit_char(n)];
        assert(s.drop_last() =~= Seq::<char>::empty());
        assert(decimal_value(s.drop_last()) == 0);
    } else {
        decimal_reads_back(n / 10);
        assert(decimal(n).drop_last() =~= decimal(n / 10));
        assert(decimal(n).last() == digit_char(n % 10));
    }
}

/// Different numbers are rendered differently.
pub proof fn decimal_is_injective(a: nat, b: nat)
    requires
        decimal(a) == decimal(b),
    ensures
        a == b,
{
    decimal_reads_back(a);
    decimal_reads_back(b);
}

fn digit_text(d: u64) -> (text: &'static str)
    requires
        d < 10,
    ensures
        text@ == seq![digit_char(d as nat)],
{
    proof {
        reveal_strlit("0");
        reveal_strlit("1");
        reveal_strlit("2");
        reveal_strlit("3");
        reveal_strlit("4");
        reveal_strlit("5");
        reveal_strlit("6");
        reveal_strlit("7");
        reveal_strlit("8");
        reveal_strlit("9");
    }
    let text: &'static str = match d {
        0 => "0",
        1 => "1",
        2 => "2",
        3 => "3",
        4 => "4",
        5 => "5",
        6 => "6",
        7 => "7",
        8 => "8",
        _ => "9",
    };
    assert(text@ =~= seq![digit_char(d as nat)]);
    text
}

/// `n` in decimal.
pub fn decimal_text(n: u64) -> (text: String)
    ensures
        text@ == decimal(n as nat),
    decreases n,
{
    if n < 10 {
        digit_text(n).to_owned()
    } else {
        let mut text = decimal_text(n / 10);
        text.append(digit_text(n % 10));
        assert(text@ =~= decimal(n as nat));
        text
    }
}

/// The characters of `text`, one by one.
pub fn characters(text: &str) -> (chars: Vec<char>)
    ensures
        chars@ == text@,
{
    let mut chars: Vec<char> = Vec::new();
    for c in it: text.chars()
        invariant
            chars@ == it.seq().take(it.index()),
            it.seq() == text@,
    {
        chars.push(c);
        assert(it.seq().take(it.index() + 1) =~= it.seq().take(it.index()).push(c));
    }
    assert(text@.take(text@.len() as int) =~= text@);
    chars
}

/// `c` with an ASCII capital letter made small.
pub open spec fn ascii_lower(c: char) -> char {
    if 'A' <= c && c <= 'Z' {
        (c as int + 32) as char
    } else {
        c
    }
}

fn ascii_lowercase_char(c: char) -> (lower: char)
    ensures
        lower == ascii_lower(c),
{
    if 'A' <= c && c <= 'Z' {
        let code: u8 = c as u8;
        let lower: u8 = code + 32;
        lower as char
    } else {
        c
    }
}

/// `chars` with the ASCII capital letters made small.
pub fn ascii_lowercase(chars: &Vec<char>) -> (lower: Vec<char>)
    ensures
        lower@ == chars@.map_values(|c: char| ascii_lower(c)),
{
    let mut lower: Vec<char> = Vec::new();
    for i in 0..chars.len()
        invariant
            lower@ == chars@.take(i as int).map_values(|c: char| ascii_lower(c)),
    {
        lower.push(ascii_lowercase_char(chars[i]));
        assert(lower@ =~= chars@.take(i + 1).map_values(|c: char| ascii_lower(c)));
    }
    assert(chars@.take(chars@.len() as int) =~= chars@);
    lower
}

/// Whether `needle` occurs in `hay` at position `at`.
pub open spec fn occurs_at(hay: Seq<char>, needle: Seq<char>, at: int) -> bool {
    &&& 0 <= at
    &&& at + needle.len() <= hay.len()
    &&& hay.subrange(at, at + needle.len()) == needle
}

/// Whether `needle` occurs anywhere in `hay`.
pub open spec fn occurs(hay: Seq<char>, needle: Seq<char>) -> bool {
    exists|at: int| occurs_at(hay, needle, at)
}

fn occurs_here(hay: &Vec<char>, needle: &Vec<char>, at: usize) -> (found: bool)
    requires
        at + needle@.len() <= hay@.len(),
    ensures
        found == occurs_at(hay@, needle@, at as int),
{
    let ghost part = hay@.subrange(at as int, at + needle@.len());
    let size: usize = hay.len();
    for k in 0..needle.len()
        invariant
            size == hay@.len(),
            at + needle@.len() <= size,
            part == hay@.subrange(at as int, at + needle@.len()),
            forall|j: int| 0 <= j < k ==> part[j] == needle@[j],
    {
        if hay[at + k] != needle[k] {
            assert(part[k as int] != needle@[k as int]);
            return false;
        }
        assert(part[k as int] == needle@[k as int]);
    }
    assert(part =~= needle@);
    true
}

/// Whether `needle` occurs anywhere in `hay`.
pub fn contains_text(hay: &Vec<char>, needle: &Vec<char>) -> (found: bool)
    ensures
        found == occurs(hay@, needle@),
{
    let mut at: usize = 0;
    while at < hay.len() && needle.len() <= hay.len() - at
        invariant
            at <= hay@.len(),
            forall|j: int| 0 <= j < at ==> !occurs_at(hay@, needle@, j),
        decreases hay@.len() - at,
    {
        if occurs_here(hay, needle, at) {
            assert(occurs_at(hay@, needle@, at as int));
            return true;
        }
        at = at + 1;
    }
    if at == hay.len() && needle.len() == 0 {
        assert(hay@.subrange(at as int, at as int) =~= needle@);
        assert(occurs_at(hay@, needle@, at as int));
        return true;
    }
    assert forall|j: int| !occurs_at(hay@, needle@, j) by {
        if occurs_at(hay@, needle@, j) {
            assert(j >= at);
        }
    }
    false
}

/// Whether a UTF-16 unit is the first half of a surrogate pair.
pub open spec fn is_high_surrogate(unit: u16) -> bool {
    0xD800 <= unit <= 0xDBFF
}

/// Whether a UTF-16 unit is the second half of a surrogate pair.
pub open spec fn is_low_surrogate(unit: u16) -> bool {
    0xDC00 <= unit <= 0xDFFF
}

/// The character that a surrogate pair stands for.
pub open spec fn paired_char(high: u16, low: u16) -> char {
    (0x1_0000 + (high - 0xD800) * 0x400 + (low - 0xDC00)) as char
}

/// The text that UTF-16 `units` hold: a surrogate pair is one character, a
/// surrogate without its other half is replaced, and every other unit is the
/// character of the same number.
pub open spec fn utf16_text(units: Seq<u16>) -> Seq<char>
    decreases units.len(),
{
    if units.len() == 0 {
        Seq::empty()
    } else if is_high_surrogate(units[0]) && units.len() > 1 && is_low_surrogate(units[1]) {
        seq![paired_char(units[0], units[1])] + utf16_text(units.skip(2))
    } else if is_high_surrogate(units[0]) || is_low_surrogate(units[0]) {
        seq!['\u{FFFD}'] + utf16_text(units.skip(1))
    } else {
        seq![units[0] as char] + utf16_text(units.skip(1))
    }
}

/// Calls `String::from_utf16_lossy` of the standard library. Claimed: surrogate
/// pairs are put together, each unpaired surrogate becomes the replacement
/// character, and every other unit is the character of the same number.
#[verifier::external_body]
pub(crate) fn text_from_utf16_lossy(units: &[u16]) -> (text: String)
    ensures
        text@ == utf16_text(units@),
{
    String::from_utf16_lossy(units)
}

/// Text without surrogates is decoded unit by unit.
pub proof fn plain_units_are_their_characters(units: Seq<u16>)
    requires
        forall|i: int|
            0 <= i < units.len() ==> !is_high_surrogate(#[trigger] units[i]) && !is_low_surrogate(
                units[i],
            ),
    ensures
        utf16_text(units) == units.map_values(|unit: u16| unit as char),
    decreases units.len(),
{
    if units.len() > 0 {
        let rest = units.skip(1);
        assert forall|i: int| 0 <= i < rest.len() implies !is_high_surrogate(#[trigger] rest[i])
            && !is_low_surrogate(rest[i]) by {
            assert(rest[i] == units[i + 1]);
        }
        assert(!is_high_surrogate(units[0]));
        plain_units_are_their_characters(rest);
        assert(units.map_values(|unit: u16| unit as char) =~= seq![units[0] as char]
            + rest.map_values(|unit: u16| unit as char));
    }
}

/// A number below ten is its digit, and a further digit is written behind the
/// number that comes before it.
pub proof fn digits_are_written_in_order(n: nat, d: nat)
    requires
        d < 10,
    ensures
        decimal(d) == seq![(48 + d) as char],
        n > 0 ==> decimal(10 * n + d) == decimal(n).push((48 + d) as char),
{
}

/// A capital letter becomes the small letter of the same place in the alphabet,
/// and every other character stays.
pub proof fn only_capitals_are_lowered(c: char)
    ensures
        65 <= c as int <= 90 ==> ascii_lower(c) as int == c as int + 32,
        !(65 <= c as int <= 90) ==> ascii_lower(c) == c,
{
}

/// Text that stands between any two others occurs in the whole.
pub proof fn what_stands_between_occurs(before: Seq<char>, needle: Seq<char>, after: Seq<char>)
    ensures
        occurs(before + needle + after, needle),
{
    let hay = before + needle + after;
    let at = before.len() as int;
    assert(hay.subrange(at, at + needle.len()) =~= needle);
    assert(occurs_at(hay, needle, at));
}

/// Text that occurs in another stands between two parts of it.
pub proof fn what_occurs_stands_between(hay: Seq<char>, needle: Seq<char>) -> (parts: (
    Seq<char>,
    Seq<char>,
))
    requires
        occurs(hay, needle),
    ensures
        hay == parts.0 + needle + parts.1,
{
    let at = choose|at: int| occurs_at(hay, needle, at);
    let before = hay.take(at);
    let after = hay.skip(at + needle.len());
    assert(hay =~= before + needle + after) by {
        let part = hay.subrange(at, at + needle.len());
        assert(part == needle);
        assert forall|i: int| 0 <= i < hay.len() implies #[trigger] hay[i] == (before + needle
            + after)[i] by {
            if at <= i < at + needle.len() {
                assert(part[i - at] == needle[i - at]);
            }
        }
    }
    (before, after)
}

/// A surrogate pair is decoded to the one character that it stands for, and a
/// surrogate that is not followed by its other half is replaced, whatever comes
/// behind.
pub proof fn surrogates_are_paired_or_replaced(first: u16, second: u16, rest: Seq<u16>)
    ensures
        0xD800 <= first < 0xDC00 && 0xDC00 <= second < 0xE000 ==> utf16_text(
            seq![first, second] + rest,
        ) == seq![(0x1_0000 + (first - 0xD800) * 0x400 + (second - 0xDC00)) as char] + utf16_text(
            rest,
        ),
        0xD800 <= first < 0xDC00 && !(0xDC00 <= second < 0xE000) ==> utf16_text(
            seq![first, second] + rest,
        ) == seq!['\u{FFFD}'] + utf16_text(seq![second] + rest),
        0xDC00 <= first < 0xE000 ==> utf16_text(seq![first] + rest) == seq!['\u{FFFD}']
            + utf16_text(rest),
        0xD800 <= first < 0xDC00 ==> utf16_text(seq![first]) == seq!['\u{FFFD}'],
        !(0xD800 <= first < 0xE000) ==> utf16_text(seq![first] + rest) == seq![first as char]
            + utf16_text(rest),
{
    let two = seq![first, second] + rest;
    assert(two.skip(2) =~= rest);
    assert(two.skip(1) =~= seq![second] + rest);
    assert((seq![first] + rest).skip(1) =~= rest);
    let one = seq![first];
    assert(one.skip(1) =~= Seq::<u16>::empty());
    assert(utf16_text(one.skip(1)) =~= Seq::<char>::empty());
    assert(seq!['\u{FFFD}'] + Seq::<char>::empty() =~= seq!['\u{FFFD}']);
}

} // verus!
