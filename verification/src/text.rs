//! Character-level helpers for the textual formats this crate reads:
//! cutting a text at a separator and comparing its ends.

use vstd::prelude::*;

verus! {

/// The position of the first `c` in `s` at or after `from`, or the length
/// of `s` when there is none.
pub open spec fn find_from(s: Seq<char>, c: char, from: int) -> int
    decreases s.len() - from,
{
    if from < 0 || from >= s.len() {
        s.len() as int
    } else if s[from] == c {
        from
    } else {
        find_from(s, c, from + 1)
    }
}

/// The position of the last `c` in the first `upto` characters of `s`, or
/// -1 when there is none.
pub open spec fn rfind_before(s: Seq<char>, c: char, upto: int) -> int
    decreases upto,
{
    if upto <= 0 || upto > s.len() {
        -1
    } else if s[upto - 1] == c {
        upto - 1
    } else {
        rfind_before(s, c, upto - 1)
    }
}

/// Piece number `n`, counted from zero, of the pieces that cutting `s` at
/// every `sep` from position `start` on gives. A text without separators
/// is one piece; `None` when there are fewer than `n + 1` pieces.
pub open spec fn segment_from(s: Seq<char>, sep: char, n: nat, start: int) -> Option<Seq<char>>
    decreases n,
{
    let end = find_from(s, sep, start);
    if n == 0 {
        Some(s.subrange(start, end))
    } else if end >= s.len() {
        None
    } else {
        segment_from(s, sep, (n - 1) as nat, end + 1)
    }
}

/// Piece number `n`, counted from zero, of `s` cut at every `sep`.
pub open spec fn segment_at(s: Seq<char>, sep: char, n: nat) -> Option<Seq<char>> {
    segment_from(s, sep, n, 0)
}

/// What follows the last `sep` in `s`; all of `s` when it holds no `sep`.
pub open spec fn after_last(s: Seq<char>, sep: char) -> Seq<char> {
    s.skip(rfind_before(s, sep, s.len() as int) + 1)
}

/// Whether `s` ends with `tail`.
pub open spec fn ends_with(s: Seq<char>, tail: Seq<char>) -> bool {
    s.len() >= tail.len() && s.skip(s.len() - tail.len()) == tail
}

/// The characters of an optional text.
pub open spec fn text_of(text: Option<&str>) -> Option<Seq<char>> {
    match text {
        Some(text) => Some(text@),
        None => None,
    }
}

/// The characters of an optional owned text.
pub open spec fn string_of(text: Option<String>) -> Option<Seq<char>> {
    match text {
        Some(text) => Some(text@),
        None => None,
    }
}

/// Whether `c` is one of the ten decimal digits.
pub open spec fn is_digit(c: char) -> bool {
    '0' <= c && c <= '9'
}

/// How many of the characters of `text` are decimal digits.
pub open spec fn digits_in(text: Seq<char>) -> nat {
    text.filter(|c: char| is_digit(c)).len()
}

/// `find_from` gives the least position of `c` from `from` on.
pub proof fn lemma_find_from(s: Seq<char>, c: char, from: int)
    requires
        0 <= from <= s.len(),
    ensures
        from <= find_from(s, c, from) <= s.len(),
        find_from(s, c, from) < s.len() ==> s[find_from(s, c, from)] == c,
        forall|j: int| from <= j < find_from(s, c, from) ==> s[j] != c,
    decreases s.len() - from,
{
    if from < s.len() && s[from] != c {
        lemma_find_from(s, c, from + 1);
    }
}

/// `rfind_before` gives the greatest position of `c` below `upto`.
pub proof fn lemma_rfind_before(s: Seq<char>, c: char, upto: int)
    requires
        0 <= upto <= s.len(),
    ensures
        -1 <= rfind_before(s, c, upto) < upto,
        rfind_before(s, c, upto) >= 0 ==> s[rfind_before(s, c, upto)] == c,
        forall|j: int| rfind_before(s, c, upto) < j < upto ==> s[j] != c,
    decreases upto,
{
    if upto > 0 && s[upto - 1] != c {
        lemma_rfind_before(s, c, upto - 1);
    }
}

/// The characters of `s`, in order.
pub fn chars_of(s: &str) -> (r: Vec<char>)
    ensures
        r@ == s@,
{
    let mut out: Vec<char> = Vec::new();
    let chars = s.chars();
    for c in it: chars
        invariant
            out@ == it.seq().take(it.index() as int),
            it.seq() == s@,
    {
        out.push(c);
    }
    out
}

/// Whether two texts hold the same characters.
pub fn same_text(a: &str, b: &str) -> (r: bool)
    ensures
        r == (a@ == b@),
{
    let x = a.to_owned();
    let y = b.to_owned();
    x == y
}

/// Finds the first `c` in `chars` at or after `from`; the length of
/// `chars` when there is none.
pub fn find_char(chars: &Vec<char>, c: char, from: usize) -> (r: usize)
    ensures
        r == find_from(chars@, c, from as int),
        r <= chars.len(),
        from <= chars.len() ==> from <= r,
{
    if from >= chars.len() {
        return chars.len();
    }
    let mut i: usize = from;
    while i < chars.len() && chars[i] != c
        invariant
            from <= i <= chars.len(),
            find_from(chars@, c, i as int) == find_from(chars@, c, from as int),
        decreases chars.len() - i,
    {
        i = i + 1;
    }
    i
}

/// Finds where the text after the last `c` in `chars` begins.
pub fn start_after_last(chars: &Vec<char>, c: char) -> (r: usize)
    ensures
        r == rfind_before(chars@, c, chars.len() as int) + 1,
        r <= chars.len(),
{
    let mut i: usize = chars.len();
    while i > 0 && chars[i - 1] != c
        invariant
            i <= chars.len(),
            rfind_before(chars@, c, i as int) == rfind_before(chars@, c, chars.len() as int),
        decreases i,
    {
        i = i - 1;
    }
    proof {
        lemma_rfind_before(chars@, c, i as int);
    }
    i
}

/// Piece number `n` of `s` cut at every `sep`, as `str::split` counts them.
pub fn nth_segment<'a>(s: &'a str, sep: char, n: usize) -> (r: Option<&'a str>)
    ensures
        r is Some <==> segment_at(s@, sep, n as nat) is Some,
        r matches Some(piece) ==> segment_at(s@, sep, n as nat) == Some(piece@),
{
    let chars = chars_of(s);
    let mut start: usize = 0;
    let mut left: usize = n;
    loop
        invariant
            chars@ == s@,
            start <= chars.len(),
            left <= n,
            segment_from(s@, sep, left as nat, start as int) == segment_at(s@, sep, n as nat),
        decreases left,
    {
        let end = find_char(&chars, sep, start);
        if left == 0 {
            return Some(s.substring_char(start, end));
        }
        if end >= chars.len() {
            return None;
        }
        start = end + 1;
        left = left - 1;
    }
}

/// What follows the last `sep` in `s`, as the last piece of `str::split`.
pub fn last_segment<'a>(s: &'a str, sep: char) -> (r: &'a str)
    ensures
        r@ == after_last(s@, sep),
{
    let chars = chars_of(s);
    let from = start_after_last(&chars, sep);
    s.substring_char(from, chars.len())
}

/// Counts the decimal digits among the characters of `text`.
pub fn count_digits(text: &str) -> (r: usize)
    ensures
        r == digits_in(text@),
{
    let chars = chars_of(text);
    let ghost digit = |c: char| is_digit(c);
    let mut count: usize = 0;
    let mut i: usize = 0;
    proof {
        reveal(Seq::filter);
    }
    while i < chars.len()
        invariant
            i <= chars.len(),
            chars@ == text@,
            digit == |c: char| is_digit(c),
            count <= i,
            count == chars@.take(i as int).filter(digit).len(),
        decreases chars.len() - i,
    {
        proof {
            reveal(Seq::filter);
            assert(chars@.take(i + 1).drop_last() == chars@.take(i as int));
        }
        let c = chars[i];
        if '0' <= c && c <= '9' {
            count = count + 1;
        }
        i = i + 1;
    }
    assert(chars@.take(i as int) == chars@);
    count
}

/// Whether `chars` ends with the characters of `tail`.
pub fn has_suffix(chars: &Vec<char>, tail: &Vec<char>) -> (r: bool)
    ensures
        r == ends_with(chars@, tail@),
{
    if chars.len() < tail.len() {
        return false;
    }
    let offset: usize = chars.len() - tail.len();
    let mut i: usize = 0;
    while i < tail.len()
        invariant
            offset + tail.len() == chars.len(),
            i <= tail.len(),
            forall|j: int| 0 <= j < i ==> chars@[offset + j] == tail@[j],
        decreases tail.len() - i,
    {
        if chars[offset + i] != tail[i] {
            return false;
        }
        i = i + 1;
    }
    assert(chars@.skip(offset as int) =~= tail@);
    true
}

} // verus!
