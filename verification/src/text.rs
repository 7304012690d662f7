//! Text as sequences of characters: decimal numbers, search, splitting.
//!
//! Every specification here speaks of `Seq<char>`, the view of `str` and
//! `String`. The executable functions work on `&[char]`, which `chars_of`
//! produces from a string slice in one pass.

use vstd::prelude::*;
use vstd::slice::slice_subrange;
use vstd::std_specs::iter::IteratorSpec;

verus! {

/// The characters of `s`, in order.
pub fn chars_of(s: &str) -> (chars: Vec<char>)
    ensures
        chars@ == s@,
{
    let mut chars: Vec<char> = Vec::new();
    for c in it: s.chars()
        invariant
            it.seq() == s@,
            chars@ == it.seq().take(it.index() as int),
    {
        assert(it.seq().take(it.index() + 1) == it.seq().take(it.index() as int).push(c));
        chars.push(c);
    }
    assert(s@.take(s@.len() as int) == s@);
    chars
}

/// Whether `a` and `b` hold the same characters.
pub fn same_chars(a: &[char], b: &[char]) -> (same: bool)
    ensures
        same == (a@ == b@),
{
    if a.len() != b.len() {
        return false;
    }
    let mut i: usize = 0;
    while i < a.len()
        invariant
            a@.len() == b@.len(),
            i <= a@.len(),
            forall|k: int| 0 <= k < i ==> a@[k] == b@[k],
        decreases a@.len() - i,
    {
        if a[i] != b[i] {
            return false;
        }
        i += 1;
    }
    assert(a@ =~= b@);
    true
}

/// `c` is one of the ten ASCII digits.
pub open spec fn is_digit(c: char) -> bool {
    '0' <= c <= '9'
}

/// The number that the ASCII digit `c` stands for.
pub open spec fn digit_value(c: char) -> nat
    recommends
        is_digit(c),
{
    (c as u32 - '0' as u32) as nat
}

/// The number that a run of ASCII digits writes in base ten (0 for the empty
/// run), or `None` where some character is not a digit.
pub open spec fn digits_value(s: Seq<char>) -> Option<nat>
    decreases s.len(),
{
    if s.len() == 0 {
        Some(0)
    } else if !is_digit(s.last()) {
        None
    } else {
        match digits_value(s.drop_last()) {
            Some(high) => Some(high * 10 + digit_value(s.last())),
            None => None,
        }
    }
}

/// The value of a run of digits as a machine integer, where it is one.
pub open spec fn in_range(value: Option<nat>) -> Option<usize> {
    match value {
        Some(v) => if v <= usize::MAX {
            Some(v as usize)
        } else {
            None
        },
        None => None,
    }
}

/// The machine integer that `s` writes in base ten: at least one ASCII digit
/// and nothing else, the value no greater than `usize::MAX`. Anything else is
/// `None`.
pub open spec fn digits_number(s: Seq<char>) -> Option<usize> {
    if s.len() == 0 {
        None
    } else {
        in_range(digits_value(s))
    }
}

/// What reading `s` as an unsigned machine integer gives: the number that the
/// digits write, before which one `+` may stand.
pub open spec fn parse_number(s: Seq<char>) -> Option<usize> {
    if s.len() > 0 && s[0] == '+' {
        digits_number(s.skip(1))
    } else {
        digits_number(s)
    }
}

/// A run of digits is worth at least as much as each of its prefixes, and
/// every prefix of a run of digits is one.
pub proof fn lemma_digits_prefix(s: Seq<char>, n: int)
    requires
        0 <= n <= s.len(),
        digits_value(s) is Some,
    ensures
        digits_value(s.take(n)) is Some,
        digits_value(s.take(n))->0 <= digits_value(s)->0,
    decreases s.len(),
{
    if n == s.len() {
        assert(s.take(n) == s);
    } else {
        assert(s.drop_last().take(n) == s.take(n));
        lemma_digits_prefix(s.drop_last(), n);
    }
}

/// Reads a run of ASCII digits as a machine integer.
pub fn parse_digits(s: &[char]) -> (number: Option<usize>)
    ensures
        number == digits_number(s@),
{
    let n = s.len();
    if n == 0 {
        return None;
    }
    let mut value: usize = 0;
    let mut i: usize = 0;
    assert(s@.take(0) == Seq::<char>::empty());
    while i < n
        invariant
            n == s@.len(),
            i <= n,
            digits_value(s@.take(i as int)) == Some(value as nat),
        decreases n - i,
    {
        let c = s[i];
        let ghost next = s@.take(i + 1);
        proof {
            assert(next.drop_last() == s@.take(i as int));
            assert(next.last() == c);
            if digits_value(s@) is Some {
                lemma_digits_prefix(s@, i + 1);
            }
        }
        if c < '0' || c > '9' {
            return None;
        }
        let d: usize = (c as u32 - '0' as u32) as usize;
        let tens = match value.checked_mul(10) {
            Some(t) => t,
            None => {
                return None;
            },
        };
        value = match tens.checked_add(d) {
            Some(v) => v,
            None => {
                return None;
            },
        };
        i += 1;
    }
    assert(s@.take(n as int) == s@);
    Some(value)
}

/// Reads `s` as an unsigned machine integer: digits, before which one `+` may
/// stand.
pub fn parse_usize(s: &[char]) -> (number: Option<usize>)
    ensures
        number == parse_number(s@),
{
    if s.len() > 0 && s[0] == '+' {
        parse_digits(slice_subrange(s, 1, s.len()))
    } else {
        parse_digits(s)
    }
}

/// The character that writes the one-digit number `d`.
pub open spec fn digit_char(d: nat) -> char
    recommends
        d < 10,
{
    ('0' as u32 + d) as char
}

/// `n` written in base ten, without sign or leading zeros.
pub open spec fn decimal(n: nat) -> Seq<char>
    decreases n,
{
    if n < 10 {
        seq![digit_char(n)]
    } else {
        decimal(n / 10).push(digit_char(n % 10))
    }
}

/// The one-character string of the digit `d`.
fn digit_str(d: u8) -> (s: &'static str)
    requires
        d < 10,
    ensures
        s@ == seq![digit_char(d as nat)],
{
    proof {
        reveal_strlit("0");
        reveal_strlit("1");
        reveal_strlit("2");
        reveal_strlit("3");
        reveal_strlit("4");
        reveal_strlit("5");
        reveal_strlit("6");
        reveal_strlit("7");
        reveal_strlit("8");
        reveal_strlit("9");
    }
    let s = if d == 0 {
        "0"
    } else if d == 1 {
        "1"
    } else if d == 2 {
        "2"
    } else if d == 3 {
        "3"
    } else if d == 4 {
        "4"
    } else if d == 5 {
        "5"
    } else if d == 6 {
        "6"
    } else if d == 7 {
        "7"
    } else if d == 8 {
        "8"
    } else {
        "9"
    };
    assert(s@ =~= seq![digit_char(d as nat)]);
    s
}

/// Appends `n`, written in base ten, to `out`.
pub fn push_decimal(out: &mut String, n: u128)
    ensures
        final(out)@ == old(out)@ + decimal(n as nat),
    decreases n,
{
    if n >= 10 {
        push_decimal(out, n / 10);
    }
    out.append(digit_str((n % 10) as u8));
    assert(out@ =~= old(out)@ + decimal(n as nat));
}

/// Whether `needle` occurs in `haystack` as a run of consecutive characters.
pub open spec fn has_infix(haystack: Seq<char>, needle: Seq<char>) -> bool {
    exists|i: int|
        0 <= i <= haystack.len() - needle.len() && #[trigger] haystack.subrange(
            i,
            i + needle.len(),
        ) == needle
}

/// Whether `needle` stands in `haystack` at position `at`.
fn occurs_at(haystack: &[char], needle: &[char], at: usize) -> (found: bool)
    requires
        at + needle@.len() <= haystack@.len(),
    ensures
        found == (haystack@.subrange(at as int, at + needle@.len()) == needle@),
{
    let ghost window = haystack@.subrange(at as int, at + needle@.len());
    let size = haystack.len();
    let mut k: usize = 0;
    while k < needle.len()
        invariant
            size == haystack@.len(),
            at + needle@.len() <= haystack@.len(),
            k <= needle@.len(),
            window == haystack@.subrange(at as int, at + needle@.len()),
            forall|j: int| 0 <= j < k ==> window[j] == needle@[j],
        decreases needle@.len() - k,
    {
        if haystack[at + k] != needle[k] {
            assert(window[k as int] != needle@[k as int]);
            return false;
        }
        k += 1;
    }
    assert(window =~= needle@);
    true
}

/// Searches `haystack` for `needle`.
pub fn contains(haystack: &[char], needle: &[char]) -> (found: bool)
    ensures
        found == has_infix(haystack@, needle@),
{
    if needle.len() > haystack.len() {
        return false;
    }
    let last: usize = haystack.len() - needle.len();
    let mut i: usize = 0;
    while i < last
        invariant
            last == haystack@.len() - needle@.len(),
            i <= last,
            forall|j: int|
                0 <= j < i ==> #[trigger] haystack@.subrange(j, j + needle@.len()) != needle@,
        decreases last - i,
    {
        if occurs_at(haystack, needle, i) {
            return true;
        }
        i += 1;
    }
    occurs_at(haystack, needle, last)
}

/// `s` without the ending `suffix`, or `s` itself where it does not end so.
pub open spec fn without_suffix(s: Seq<char>, suffix: Seq<char>) -> Seq<char> {
    if suffix.len() <= s.len() && s.subrange(s.len() - suffix.len(), s.len() as int) == suffix {
        s.take(s.len() - suffix.len())
    } else {
        s
    }
}

/// The number of leading characters of `s` that `without_suffix` keeps.
pub fn length_without_suffix(s: &[char], suffix: &[char]) -> (kept: usize)
    ensures
        kept <= s@.len(),
        s@.take(kept as int) == without_suffix(s@, suffix@),
{
    if suffix.len() <= s.len() && occurs_at(s, suffix, s.len() - suffix.len()) {
        s.len() - suffix.len()
    } else {
        assert(s@.take(s@.len() as int) == s@);
        s.len()
    }
}

/// The pieces of `s` between the occurrences of `separator`: one more piece
/// than there are separators, empty pieces included.
pub open spec fn split(s: Seq<char>, separator: char) -> Seq<Seq<char>>
    decreases s.len(),
{
    if s.len() == 0 {
        seq![Seq::<char>::empty()]
    } else {
        let before = split(s.drop_last(), separator);
        if s.last() == separator {
            before.push(Seq::<char>::empty())
        } else {
            before.drop_last().push(before.last().push(s.last()))
        }
    }
}

/// The views of the vectors in `pieces`.
pub open spec fn views_of(pieces: Seq<Vec<char>>) -> Seq<Seq<char>> {
    pieces.map_values(|piece: Vec<char>| piece@)
}

/// Splits `s` at every occurrence of `separator`.
pub fn split_at_each(s: &[char], separator: char) -> (pieces: Vec<Vec<char>>)
    ensures
        views_of(pieces@) == split(s@, separator),
{
    let mut pieces: Vec<Vec<char>> = Vec::new();
    let mut current: Vec<char> = Vec::new();
    let mut i: usize = 0;
    assert(s@.take(0) == Seq::<char>::empty());
    assert(views_of(pieces@).push(current@) =~= split(s@.take(0), separator));
    while i < s.len()
        invariant
            i <= s@.len(),
            views_of(pieces@).push(current@) == split(s@.take(i as int), separator),
        decreases s@.len() - i,
    {
        let c = s[i];
        let ghost done = s@.take(i as int);
        let ghost next = s@.take(i + 1);
        proof {
            assert(next.drop_last() == done);
            assert(next.last() == c);
        }
        if c == separator {
            pieces.push(current);
            current = Vec::new();
            assert(views_of(pieces@).push(current@) =~= split(done, separator).push(
                Seq::<char>::empty(),
            ));
        } else {
            current.push(c);
            assert(views_of(pieces@).push(current@) =~= split(done, separator).drop_last().push(
                split(done, separator).last().push(c),
            ));
        }
        i += 1;
    }
    assert(s@.take(s@.len() as int) == s@);
    let ghost before = views_of(pieces@);
    pieces.push(current);
    assert(views_of(pieces@) =~= before.push(current@));
    pieces
}

} // verus!
