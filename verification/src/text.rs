//! Character-level helpers for protocol text: white space, words, substring
//! search and decimal numbers, all stated over sequences of characters.

use vstd::prelude::*;

verus! {

/// Whether `c` separates words: the characters Unicode marks as white space.
pub open spec fn is_space(c: char) -> bool {
    let n = c as u32;
    ||| 0x09 <= n <= 0x0D
    ||| n == 0x20
    ||| n == 0x85
    ||| n == 0xA0
    ||| n == 0x1680
    ||| 0x2000 <= n <= 0x200A
    ||| n == 0x2028
    ||| n == 0x2029
    ||| n == 0x202F
    ||| n == 0x205F
    ||| n == 0x3000
}

/// Whether `needle` stands in `hay` starting at index `i`.
pub open spec fn occurs_at(hay: Seq<char>, needle: Seq<char>, i: int) -> bool {
    &&& 0 <= i
    &&& i + needle.len() <= hay.len()
    &&& hay.subrange(i, i + needle.len()) == needle
}

/// Whether `needle` stands somewhere in `hay`.
pub open spec fn contains(hay: Seq<char>, needle: Seq<char>) -> bool {
    exists|i: int| occurs_at(hay, needle, i)
}

/// The first index at or after `i` that does not hold a space.
pub open spec fn skip_spaces(s: Seq<char>, i: int) -> int
    decreases s.len() - i,
{
    if 0 <= i < s.len() && is_space(s[i]) {
        skip_spaces(s, i + 1)
    } else {
        i
    }
}

/// The first index at or after `i` that holds a space, or the end of `s`.
pub open spec fn skip_word(s: Seq<char>, i: int) -> int
    decreases s.len() - i,
{
    if 0 <= i < s.len() && !is_space(s[i]) {
        skip_word(s, i + 1)
    } else {
        i
    }
}

/// Where word number `n` (from zero) begins and ends, counting only the
/// words that begin at or after `i`. A word is a maximal run of characters
/// that are not spaces.
pub open spec fn word_bounds(s: Seq<char>, i: int, n: nat) -> Option<(int, int)>
    decreases n,
{
    let begin = skip_spaces(s, i);
    let end = skip_word(s, begin);
    if begin >= s.len() {
        None
    } else if n == 0 {
        Some((begin, end))
    } else {
        word_bounds(s, end, (n - 1) as nat)
    }
}

/// Word number `n` (from zero) of `s`, if `s` has that many words.
pub open spec fn word(s: Seq<char>, n: nat) -> Option<Seq<char>> {
    match word_bounds(s, 0, n) {
        Some((begin, end)) => Some(s.subrange(begin, end)),
        None => None,
    }
}

/// Whether `c` is one of the ten decimal digits.
pub open spec fn is_digit(c: char) -> bool {
    '0' <= c <= '9'
}

/// The character that writes the digit `d`.
pub open spec fn digit_char(d: nat) -> char {
    (d + 48) as u8 as char
}

/// The number `n` written in decimal, without sign or leading zeros.
pub open spec fn decimal(n: nat) -> Seq<char>
    decreases n,
{
    if n < 10 {
        seq![digit_char(n)]
    } else {
        decimal(n / 10).push(digit_char(n % 10))
    }
}

/// The number that a non-empty run of decimal digits writes.
pub open spec fn digits_value(s: Seq<char>) -> Option<nat>
    decreases s.len(),
{
    if s.len() == 0 || !is_digit(s.last()) {
        None
    } else if s.len() == 1 {
        Some((s.last() as u32 - 48) as nat)
    } else {
        match digits_value(s.drop_last()) {
            Some(v) => Some((v * 10 + (s.last() as u32 - 48)) as nat),
            None => None,
        }
    }
}

/// The integer that `s` writes: decimal digits behind an optional sign.
pub open spec fn signed_value(s: Seq<char>) -> Option<int> {
    if s.len() > 0 && s[0] == '-' {
        match digits_value(s.drop_first()) {
            Some(v) => Some(-(v as int)),
            None => None,
        }
    } else if s.len() > 0 && s[0] == '+' {
        match digits_value(s.drop_first()) {
            Some(v) => Some(v as int),
            None => None,
        }
    } else {
        match digits_value(s) {
            Some(v) => Some(v as int),
            None => None,
        }
    }
}

/// The integer that `s` writes, if it fits in eight bits with a sign.
pub open spec fn small_int(s: Seq<char>) -> Option<i8> {
    match signed_value(s) {
        Some(v) => if -128 <= v <= 127 {
            Some(v as i8)
        } else {
            None
        },
        None => None,
    }
}

/// Decides `is_space` for one character.
pub fn char_is_space(c: char) -> (b: bool)
    ensures
        b == is_space(c),
{
    let n: u32 = c as u32;
    (0x09 <= n && n <= 0x0D) || n == 0x20 || n == 0x85 || n == 0xA0 || n == 0x1680 || (0x2000 <= n
        && n <= 0x200A) || n == 0x2028 || n == 0x2029 || n == 0x202F || n == 0x205F || n == 0x3000
}

/// The characters of `s`, in order.
pub fn chars_of(s: &str) -> (chars: Vec<char>)
    ensures
        chars@ == s@,
{
    broadcast use vstd::string::group_string_axioms;

    let mut chars: Vec<char> = Vec::new();
    let it = s.chars();
    for c in iter: it
        invariant
            iter.seq() == s@,
            chars@ == s@.take(iter.index()),
    {
        chars.push(c);
    }
    chars
}

/// Whether the characters of `hay` from `from` to `to` are exactly `pattern`.
pub fn range_equals(hay: &[char], from: usize, to: usize, pattern: &[char]) -> (same: bool)
    requires
        from <= to <= hay@.len(),
    ensures
        same == (hay@.subrange(from as int, to as int) == pattern@),
{
    if to - from != pattern.len() {
        return false;
    }
    let mut k: usize = 0;
    while k < pattern.len()
        invariant
            from <= to <= hay@.len(),
            to - from == pattern@.len(),
            k <= pattern@.len(),
            hay@.subrange(from as int, from + k) == pattern@.take(k as int),
        decreases pattern@.len() - k,
    {
        if hay[from + k] != pattern[k] {
            assert(hay@.subrange(from as int, to as int)[k as int] != pattern@[k as int]);
            return false;
        }
        assert(hay@.subrange(from as int, from + k + 1) == pattern@.take(k + 1)) by {
            assert(hay@.subrange(from as int, from + k + 1) =~= hay@.subrange(
                from as int,
                from + k,
            ).push(hay@[from + k]));
            assert(pattern@.take(k + 1) =~= pattern@.take(k as int).push(pattern@[k as int]));
        }
        k += 1;
    }
    assert(pattern@.take(k as int) =~= pattern@);
    true
}

/// Whether `needle` stands somewhere in `hay`.
pub fn contains_chars(hay: &[char], needle: &[char]) -> (found: bool)
    ensures
        found == contains(hay@, needle@),
{
    if needle.len() > hay.len() {
        assert(forall|i: int| !occurs_at(hay@, needle@, i));
        return false;
    }
    let last: usize = hay.len() - needle.len();
    let mut i: usize = 0;
    loop
        invariant
            last + needle@.len() == hay@.len(),
            hay@.len() <= usize::MAX,
            i <= last,
            forall|j: int| 0 <= j < i ==> !occurs_at(hay@, needle@, j),
        decreases last - i,
    {
        if range_equals(hay, i, i + needle.len(), needle) {
            assert(occurs_at(hay@, needle@, i as int));
            return true;
        }
        if i == last {
            assert(forall|j: int| !occurs_at(hay@, needle@, j));
            return false;
        }
        i += 1;
    }
}

/// `skip_spaces` stays within `i` and the end of `s`.
pub proof fn lemma_skip_spaces_bounds(s: Seq<char>, i: int)
    requires
        0 <= i <= s.len(),
    ensures
        i <= skip_spaces(s, i) <= s.len(),
    decreases s.len() - i,
{
    if i < s.len() && is_space(s[i]) {
        lemma_skip_spaces_bounds(s, i + 1);
    }
}

/// `skip_word` stays within `i` and the end of `s`.
pub proof fn lemma_skip_word_bounds(s: Seq<char>, i: int)
    requires
        0 <= i <= s.len(),
    ensures
        i <= skip_word(s, i) <= s.len(),
    decreases s.len() - i,
{
    if i < s.len() && !is_space(s[i]) {
        lemma_skip_word_bounds(s, i + 1);
    }
}

/// A word that exists lies within `s` and is not empty.
pub proof fn lemma_word_bounds_within(s: Seq<char>, i: int, n: nat)
    requires
        0 <= i <= s.len(),
    ensures
        match word_bounds(s, i, n) {
            Some((begin, end)) => i <= begin < end <= s.len(),
            None => true,
        },
    decreases n,
{
    lemma_skip_spaces_bounds(s, i);
    let begin = skip_spaces(s, i);
    lemma_skip_word_bounds(s, begin);
    if begin < s.len() {
        lemma_skip_stops_at_non_space(s, i);
        lemma_skip_word_bounds(s, begin + 1);
        if n > 0 {
            lemma_word_bounds_within(s, skip_word(s, begin), (n - 1) as nat);
        }
    }
}

/// Where `skip_spaces` stops short of the end, no space stands.
pub proof fn lemma_skip_stops_at_non_space(s: Seq<char>, i: int)
    requires
        0 <= i <= s.len(),
    ensures
        skip_spaces(s, i) < s.len() ==> !is_space(s[skip_spaces(s, i)]),
    decreases s.len() - i,
{
    if i < s.len() && is_space(s[i]) {
        lemma_skip_stops_at_non_space(s, i + 1);
    }
}

/// The first index at or after `from` that does not hold a space.
pub fn skip_spaces_from(chars: &[char], from: usize) -> (at: usize)
    requires
        from <= chars@.len(),
    ensures
        at == skip_spaces(chars@, from as int),
        from <= at <= chars@.len(),
{
    let mut at: usize = from;
    while at < chars.len() && char_is_space(chars[at])
        invariant
            from <= at <= chars@.len(),
            skip_spaces(chars@, from as int) == skip_spaces(chars@, at as int),
        decreases chars@.len() - at,
    {
        at += 1;
    }
    at
}

/// The first index at or after `from` that holds a space, or the end.
pub fn skip_word_from(chars: &[char], from: usize) -> (at: usize)
    requires
        from <= chars@.len(),
    ensures
        at == skip_word(chars@, from as int),
        from <= at <= chars@.len(),
{
    let mut at: usize = from;
    while at < chars.len() && !char_is_space(chars[at])
        invariant
            from <= at <= chars@.len(),
            skip_word(chars@, from as int) == skip_word(chars@, at as int),
        decreases chars@.len() - at,
    {
        at += 1;
    }
    at
}

/// Where word number `n` (from zero) of `chars` begins and ends.
pub fn find_word(chars: &[char], n: usize) -> (bounds: Option<(usize, usize)>)
    ensures
        match bounds {
            Some((begin, end)) => word_bounds(chars@, 0, n as nat) == Some(
                (begin as int, end as int),
            ) && begin < end <= chars@.len(),
            None => word_bounds(chars@, 0, n as nat) is None,
        },
{
    let mut from: usize = 0;
    let mut left: usize = n;
    loop
        invariant
            from <= chars@.len(),
            left <= n,
            word_bounds(chars@, 0, n as nat) == word_bounds(chars@, from as int, left as nat),
        decreases left,
    {
        let begin = skip_spaces_from(chars, from);
        if begin >= chars.len() {
            return None;
        }
        let end = skip_word_from(chars, begin);
        if left == 0 {
            proof {
                lemma_word_bounds_within(chars@, from as int, 0);
            }
            return Some((begin, end));
        }
        from = end;
        left -= 1;
    }
}

/// The text of one decimal digit.
pub fn digit_str(d: u8) -> (s: &'static str)
    requires
        d < 10,
    ensures
        s@ == seq![digit_char(d as nat)],
{
    proof {
        reveal_strlit("0");
        reveal_strlit("1");
        reveal_strlit("2");
        reveal_strlit("3");
        reveal_strlit("4");
        reveal_strlit("5");
        reveal_strlit("6");
        reveal_strlit("7");
        reveal_strlit("8");
        reveal_strlit("9");
    }
    let s = match d {
        0 => "0",
        1 => "1",
        2 => "2",
        3 => "3",
        4 => "4",
        5 => "5",
        6 => "6",
        7 => "7",
        8 => "8",
        _ => "9",
    };
    assert(s@ =~= seq![digit_char(d as nat)]);
    s
}

/// Appends `n`, written in decimal, to `out`.
pub fn push_decimal(out: &mut String, n: u128)
    ensures
        final(out)@ == old(out)@ + decimal(n as nat),
    decreases n,
{
    if n >= 10 {
        push_decimal(out, n / 10);
    }
    let digit: u8 = (n % 10) as u8;
    out.append(digit_str(digit));
    assert(final(out)@ =~= old(out)@ + decimal(n as nat));
}

/// Bound at which `parse_magnitude` stops counting.
pub const MAGNITUDE_LIMIT: u32 = 1000;

/// The number written by the digits of `chars` from `from` to `to`, held at
/// `MAGNITUDE_LIMIT` where it is larger; `None` where they write no number.
pub fn parse_magnitude(chars: &[char], from: usize, to: usize) -> (value: Option<u32>)
    requires
        from <= to <= chars@.len(),
    ensures
        match digits_value(chars@.subrange(from as int, to as int)) {
            Some(v) => value == Some(
                if v < MAGNITUDE_LIMIT {
                    v as u32
                } else {
                    MAGNITUDE_LIMIT
                },
            ),
            None => value is None,
        },
{
    if from == to {
        return None;
    }
    let mut magnitude: u32 = 0;
    let mut at: usize = from;
    while at < to
        invariant
            from <= at <= to <= chars@.len(),
            magnitude <= MAGNITUDE_LIMIT,
            at == from ==> magnitude == 0,
            at > from ==> digits_value(chars@.subrange(from as int, at as int)) == Some(
                magnitude as nat,
            ) || (magnitude == MAGNITUDE_LIMIT && match digits_value(
                chars@.subrange(from as int, at as int),
            ) {
                Some(v) => v >= MAGNITUDE_LIMIT,
                None => false,
            }),
        decreases to - at,
    {
        let c = chars[at];
        let ghost before = chars@.subrange(from as int, at as int);
        let ghost after = chars@.subrange(from as int, at + 1);
        assert(after.drop_last() =~= before);
        assert(after.last() == c);
        if !('0' <= c && c <= '9') {
            proof {
                lemma_digits_value_needs_digits(
                    chars@.subrange(from as int, to as int),
                    at - from,
                );
            }
            return None;
        }
        let d: u32 = c as u32 - 48;
        let next: u32 = magnitude * 10 + d;
        magnitude =
        if next < MAGNITUDE_LIMIT {
            next
        } else {
            MAGNITUDE_LIMIT
        };
        at += 1;
    }
    assert(chars@.subrange(from as int, at as int) =~= chars@.subrange(from as int, to as int));
    Some(magnitude)
}

/// The integer written by the characters of `chars` from `from` to `to`, if
/// they write one that fits in eight bits with a sign.
pub fn parse_small_int(chars: &[char], from: usize, to: usize) -> (value: Option<i8>)
    requires
        from <= to <= chars@.len(),
    ensures
        value == small_int(chars@.subrange(from as int, to as int)),
{
    let ghost text = chars@.subrange(from as int, to as int);
    if from == to {
        return None;
    }
    let negative = chars[from] == '-';
    let signed = negative || chars[from] == '+';
    let start: usize = if signed {
        from + 1
    } else {
        from
    };
    assert(signed ==> chars@.subrange(start as int, to as int) =~= text.drop_first());
    assert(text[0] == chars@[from as int]);
    match parse_magnitude(chars, start, to) {
        None => None,
        Some(magnitude) => {
            if negative {
                if magnitude <= 128 {
                    Some((0 - magnitude as i32) as i8)
                } else {
                    None
                }
            } else {
                if magnitude <= 127 {
                    Some(magnitude as i8)
                } else {
                    None
                }
            }
        },
    }
}

/// A run that holds something other than a digit writes no number.
pub proof fn lemma_digits_value_needs_digits(s: Seq<char>, k: int)
    requires
        0 <= k < s.len(),
        !is_digit(s[k]),
    ensures
        digits_value(s) is None,
    decreases s.len(),
{
    if k < s.len() - 1 {
        lemma_digits_value_needs_digits(s.drop_last(), k);
    }
}

/// Whether the text `marker` stands somewhere in the text `line`.
pub fn line_contains(line: &str, marker: &str) -> (found: bool)
    ensures
        found == contains(line@, marker@),
{
    let hay = chars_of(line);
    let needle = chars_of(marker);
    contains_chars(hay.as_slice(), needle.as_slice())
}

} // verus!
