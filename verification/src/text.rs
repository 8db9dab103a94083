//! Text primitives: decimal numbers, splitting, trimming and padding.
//!
//! Every executable function here is specified over the sequence of characters of
//! the strings it reads and writes.

use vstd::prelude::*;
use vstd::slice::slice_subrange;

verus! {

/// `String::push` of std appends one character and changes nothing else.
pub assume_specification[ String::push ](s: &mut String, c: char)
    ensures
        final(s)@ == old(s)@.push(c),
;

// ---------------------------------------------------------------------------
// Strings and character slices
// ---------------------------------------------------------------------------

/// The characters of a string.
pub fn chars_of(s: &str) -> (chars: Vec<char>)
    ensures
        chars@ == s@,
{
    let mut chars: Vec<char> = Vec::new();
    for c in it: s.chars()
        invariant
            it.seq() == s@,
            chars@ == s@.take(it.index() as int),
    {
        chars.push(c);
        assert(s@.take(it.index() as int).push(c) =~= s@.take(it.index() + 1));
    }
    assert(s@.take(s@.len() as int) =~= s@);
    chars
}

/// The string made of the given characters.
pub fn string_of(chars: &[char]) -> (s: String)
    ensures
        s@ == chars@,
{
    let mut s = String::new();
    let mut i: usize = 0;
    while i < chars.len()
        invariant
            i <= chars@.len(),
            s@ == chars@.take(i as int),
        decreases chars@.len() - i,
    {
        s.push(chars[i]);
        i += 1;
        assert(chars@.take(i - 1).push(chars@[i - 1]) =~= chars@.take(i as int));
    }
    assert(chars@.take(chars@.len() as int) =~= chars@);
    s
}

/// Whether the characters spell `word`.
pub fn same_text(chars: &[char], word: &str) -> (same: bool)
    ensures
        same == (chars@ == word@),
{
    let expected = chars_of(word);
    if chars.len() != expected.len() {
        return false;
    }
    let mut i: usize = 0;
    while i < chars.len()
        invariant
            i <= chars@.len(),
            chars@.len() == expected@.len(),
            expected@ == word@,
            forall|j: int| 0 <= j < i ==> chars@[j] == expected@[j],
        decreases chars@.len() - i,
    {
        if chars[i] != expected[i] {
            return false;
        }
        i += 1;
    }
    assert(chars@ =~= expected@);
    true
}

// ---------------------------------------------------------------------------
// Decimal numbers
// ---------------------------------------------------------------------------

/// Whether `c` is one of `0` to `9`.
pub open spec fn is_digit(c: char) -> bool {
    '0' <= c <= '9'
}

/// The character of a decimal digit.
pub open spec fn digit_char(d: nat) -> char {
    (('0' as nat) + d) as char
}

/// The number that a digit stands for.
pub open spec fn digit_value(c: char) -> nat {
    (c as int - '0' as int) as nat
}

/// The shortest decimal form of `n`.
pub open spec fn decimal(n: nat) -> Seq<char>
    decreases n,
{
    if n < 10 {
        seq![digit_char(n)]
    } else {
        decimal(n / 10).push(digit_char(n % 10))
    }
}

/// The number that a sequence of digits stands for.
pub open spec fn digits_value(s: Seq<char>) -> nat
    decreases s.len(),
{
    if s.len() == 0 {
        0
    } else {
        10 * digits_value(s.drop_last()) + digit_value(s.last())
    }
}

/// Whether `s` holds digits only.
pub open spec fn all_digits(s: Seq<char>) -> bool {
    forall|i: int| 0 <= i < s.len() ==> is_digit(#[trigger] s[i])
}

/// `s` without one leading plus sign.
pub open spec fn unsigned_digits(s: Seq<char>) -> Seq<char> {
    if s.len() > 0 && s[0] == '+' {
        s.skip(1)
    } else {
        s
    }
}

/// The unsigned number that `s` spells: an optional plus sign, then at least one digit and
/// nothing else, with a value of at most `max`.
pub open spec fn unsigned(s: Seq<char>, max: nat) -> Option<nat> {
    let digits = unsigned_digits(s);
    if digits.len() > 0 && all_digits(digits) && digits_value(digits) <= max {
        Some(digits_value(digits))
    } else {
        None
    }
}

/// Appends the decimal form of `n`.
pub fn push_decimal(out: &mut String, n: u64)
    ensures
        final(out)@ == old(out)@ + decimal(n as nat),
    decreases n,
{
    if n >= 10 {
        push_decimal(out, n / 10);
    }
    let d: u8 = (n % 10) as u8;
    out.push((48u8 + d) as char);
}

/// The decimal form of `n` as a string.
pub fn decimal_string(n: u64) -> (out: String)
    ensures
        out@ == decimal(n as nat),
{
    let mut out = String::new();
    push_decimal(&mut out, n);
    assert(out@ =~= decimal(n as nat));
    out
}

/// The decimal form of `n` is made of digits, at least one of them.
pub proof fn lemma_decimal_digits(n: nat)
    ensures
        decimal(n).len() >= 1,
        all_digits(decimal(n)),
    decreases n,
{
    if n >= 10 {
        lemma_decimal_digits(n / 10);
    }
}

/// Reading the decimal form of a number gives the number back.
pub proof fn lemma_decimal_value(n: nat)
    ensures
        digits_value(decimal(n)) == n,
    decreases n,
{
    if n >= 10 {
        lemma_decimal_value(n / 10);
        assert(decimal(n).drop_last() =~= decimal(n / 10));
    } else {
        assert(decimal(n).drop_last() =~= Seq::<char>::empty());
        reveal_with_fuel(digits_value, 2);
    }
}

/// A number that is at most `max` reads back from its decimal form.
pub proof fn decimal_reads_back(n: nat, max: nat)
    requires
        n <= max,
    ensures
        unsigned(decimal(n), max) == Some(n),
{
    lemma_decimal_digits(n);
    lemma_decimal_value(n);
    assert(is_digit(decimal(n)[0]));
}

/// Two numbers with the same decimal form are the same number.
pub proof fn decimal_is_injective(a: nat, b: nat)
    requires
        decimal(a) == decimal(b),
    ensures
        a == b,
{
    lemma_decimal_value(a);
    lemma_decimal_value(b);
}

/// The value of a sequence of digits is at least that of each of its prefixes.
proof fn lemma_prefix_value(s: Seq<char>, i: int)
    requires
        0 <= i <= s.len(),
    ensures
        digits_value(s.take(i)) <= digits_value(s),
    decreases s.len() - i,
{
    if i < s.len() {
        lemma_prefix_value(s, i + 1);
        assert(s.take(i + 1).drop_last() =~= s.take(i));
    } else {
        assert(s.take(i) =~= s);
    }
}

/// Reads an unsigned number of at most `max`.
pub fn parse_unsigned(s: &[char], max: u64) -> (n: Option<u64>)
    ensures
        match n {
            Some(v) => unsigned(s@, max as nat) == Some(v as nat),
            None => unsigned(s@, max as nat) is None,
        },
{
    let start: usize = if s.len() > 0 && s[0] == '+' { 1 } else { 0 };
    let ghost digits = unsigned_digits(s@);
    assert(digits =~= s@.skip(start as int));
    if s.len() == start {
        return None;
    }
    let mut value: u64 = 0;
    let mut i: usize = start;
    assert(digits.take(0) =~= Seq::<char>::empty());
    while i < s.len()
        invariant
            start <= i <= s@.len(),
            digits == s@.skip(start as int),
            digits == unsigned_digits(s@),
            value == digits_value(digits.take(i - start)),
            value <= max,
            forall|j: int| 0 <= j < i - start ==> is_digit(#[trigger] digits[j]),
        decreases s@.len() - i,
    {
        let c = s[i];
        assert(digits[i - start] == c);
        if c < '0' || c > '9' {
            assert(!all_digits(digits));
            return None;
        }
        let d: u64 = (c as u32 - 48) as u64;
        proof {
            assert(digits.take(i - start + 1).drop_last() =~= digits.take(i - start));
            lemma_prefix_value(digits, i - start + 1);
        }
        let wide: u128 = value as u128 * 10 + d as u128;
        if wide > max as u128 {
            return None;
        }
        value = wide as u64;
        i += 1;
    }
    assert(digits.take(s@.len() - start) =~= digits);
    Some(value)
}

/// The `u64` that `s` spells.
pub open spec fn unsigned_u64(s: Seq<char>) -> Option<u64> {
    match unsigned(s, u64::MAX as nat) {
        Some(n) => Some(n as u64),
        None => None,
    }
}

/// The `u8` that `s` spells.
pub open spec fn unsigned_u8(s: Seq<char>) -> Option<u8> {
    match unsigned(s, u8::MAX as nat) {
        Some(n) => Some(n as u8),
        None => None,
    }
}

/// Reads a `u64`.
pub fn parse_u64(s: &[char]) -> (n: Option<u64>)
    ensures
        n == unsigned_u64(s@),
{
    parse_unsigned(s, u64::MAX)
}

/// Reads a `u8`.
pub fn parse_u8(s: &[char]) -> (n: Option<u8>)
    ensures
        n == unsigned_u8(s@),
{
    match parse_unsigned(s, 255) {
        Some(v) => Some(v as u8),
        None => None,
    }
}

// ---------------------------------------------------------------------------
// Splitting
// ---------------------------------------------------------------------------

/// The position of the first `c` in `s`, or the length of `s` if there is none.
pub open spec fn find(s: Seq<char>, c: char) -> int
    decreases s.len(),
{
    if s.len() == 0 || s[0] == c {
        0
    } else {
        1 + find(s.skip(1), c)
    }
}

/// What stands before and after the first `c`.
pub open spec fn split_once(s: Seq<char>, c: char) -> Option<(Seq<char>, Seq<char>)> {
    let i = find(s, c);
    if i < s.len() {
        Some((s.take(i), s.skip(i + 1)))
    } else {
        None
    }
}

/// The parts of `s` between the occurrences of `c`.
pub open spec fn split(s: Seq<char>, c: char) -> Seq<Seq<char>>
    decreases s.len(),
    via split_decreases
{
    let i = find(s, c);
    if i < s.len() {
        seq![s.take(i)] + split(s.skip(i + 1), c)
    } else {
        seq![s]
    }
}

#[via_fn]
proof fn split_decreases(s: Seq<char>, c: char) {
    lemma_find_bounds(s, c);
}

/// `line` without one trailing carriage return.
pub open spec fn without_carriage_return(line: Seq<char>) -> Seq<char> {
    if line.len() > 0 && line.last() == '\r' {
        line.drop_last()
    } else {
        line
    }
}

/// The lines of `s`. A line ends at a line feed, with or without a carriage return before
/// it. What follows the last line feed is a line of its own, unless it is empty.
pub open spec fn lines(s: Seq<char>) -> Seq<Seq<char>>
    decreases s.len(),
    via lines_decreases
{
    let i = find(s, '\n');
    if i < s.len() {
        seq![without_carriage_return(s.take(i))] + lines(s.skip(i + 1))
    } else if s.len() > 0 {
        seq![s]
    } else {
        Seq::empty()
    }
}

#[via_fn]
proof fn lines_decreases(s: Seq<char>) {
    lemma_find_bounds(s, '\n');
}

/// The text in which each of `lines` ends with a line feed.
pub open spec fn terminated(lines: Seq<Seq<char>>) -> Seq<char>
    decreases lines.len(),
{
    if lines.len() == 0 {
        Seq::empty()
    } else {
        terminated(lines.drop_last()) + lines.last().push('\n')
    }
}

proof fn lemma_find_bounds(s: Seq<char>, c: char)
    ensures
        0 <= find(s, c) <= s.len(),
        find(s, c) < s.len() ==> s[find(s, c)] == c,
        forall|j: int| 0 <= j < find(s, c) ==> s[j] != c,
    decreases s.len(),
{
    if s.len() > 0 && s[0] != c {
        lemma_find_bounds(s.skip(1), c);
        assert forall|j: int| 0 <= j < find(s, c) implies s[j] != c by {
            if j > 0 {
                assert(s.skip(1)[j - 1] == s[j]);
            }
        }
    }
}

/// The first occurrence is where no earlier one is.
pub proof fn lemma_find(s: Seq<char>, c: char, i: int)
    requires
        0 <= i <= s.len(),
        forall|j: int| 0 <= j < i ==> s[j] != c,
        i < s.len() ==> s[i] == c,
    ensures
        find(s, c) == i,
{
    lemma_find_bounds(s, c);
}

/// Finds the first `c` at or after position `from`.
fn find_from(s: &[char], from: usize, c: char) -> (i: usize)
    requires
        from <= s@.len(),
    ensures
        from <= i <= s@.len(),
        i - from == find(s@.skip(from as int), c),
{
    let mut i: usize = from;
    while i < s.len() && s[i] != c
        invariant
            from <= i <= s@.len(),
            forall|j: int| from <= j < i ==> s@[j] != c,
        decreases s@.len() - i,
    {
        i += 1;
    }
    proof {
        lemma_find(s@.skip(from as int), c, i - from);
    }
    i
}

/// Splits at the first `c`.
pub fn split_at_first<'a>(s: &'a [char], c: char) -> (parts: Option<(&'a [char], &'a [char])>)
    ensures
        match parts {
            Some(p) => split_once(s@, c) == Some((p.0@, p.1@)),
            None => split_once(s@, c) is None,
        },
{
    let i: usize = find_from(s, 0, c);
    assert(s@.skip(0) =~= s@);
    if i < s.len() {
        let before = slice_subrange(s, 0, i);
        let after = slice_subrange(s, i + 1, s.len());
        assert(before@ =~= s@.take(i as int));
        assert(after@ =~= s@.skip(i + 1));
        Some((before, after))
    } else {
        None
    }
}

/// The views of a list of character slices.
pub open spec fn slices_view(parts: Seq<&[char]>) -> Seq<Seq<char>> {
    Seq::new(parts.len(), |i: int| parts[i]@)
}

/// The parts between the occurrences of `c`.
pub fn split_parts<'a>(s: &'a [char], c: char) -> (parts: Vec<&'a [char]>)
    ensures
        slices_view(parts@) == split(s@, c),
{
    let mut parts: Vec<&'a [char]> = Vec::new();
    let mut from: usize = 0;
    assert(s@.skip(0) =~= s@);
    assert(slices_view(parts@) + split(s@, c) =~= split(s@, c));
    loop
        invariant
            from <= s@.len(),
            slices_view(parts@) + split(s@.skip(from as int), c) == split(s@, c),
        decreases s@.len() - from,
    {
        let i: usize = find_from(s, from, c);
        let ghost before = parts@;
        let ghost rest = s@.skip(from as int);
        let part = slice_subrange(s, from, i);
        assert(part@ =~= rest.take(i - from));
        parts.push(part);
        assert(slices_view(parts@) =~= slices_view(before).push(part@));
        if i == s.len() {
            assert(rest.take(i - from) =~= rest);
            assert(slices_view(parts@) =~= slices_view(before) + seq![rest]);
            return parts;
        }
        assert(rest.skip(i - from + 1) =~= s@.skip(i + 1));
        assert(slices_view(parts@) + split(s@.skip(i + 1), c) =~= slices_view(before) + (seq![
            part@,
        ] + split(s@.skip(i + 1), c)));
        from = i + 1;
    }
}

/// The lines of a text.
pub fn split_lines<'a>(s: &'a [char]) -> (parts: Vec<&'a [char]>)
    ensures
        slices_view(parts@) == lines(s@),
{
    let mut parts: Vec<&'a [char]> = Vec::new();
    let mut from: usize = 0;
    assert(s@.skip(0) =~= s@);
    assert(slices_view(parts@) + lines(s@) =~= lines(s@));
    loop
        invariant
            from <= s@.len(),
            slices_view(parts@) + lines(s@.skip(from as int)) == lines(s@),
        decreases s@.len() - from,
    {
        let i: usize = find_from(s, from, '\n');
        let ghost before = parts@;
        let ghost rest = s@.skip(from as int);
        if i == s.len() {
            if from < i {
                let part = slice_subrange(s, from, i);
                assert(part@ =~= rest);
                parts.push(part);
                assert(slices_view(parts@) =~= slices_view(before) + seq![rest]);
            } else {
                assert(slices_view(parts@) =~= slices_view(before) + Seq::<Seq<char>>::empty());
            }
            return parts;
        }
        let end: usize = if i > from && s[i - 1] == '\r' { i - 1 } else { i };
        let part = slice_subrange(s, from, end);
        assert(rest.take(i - from).len() > 0 ==> rest.take(i - from).last() == s@[i - 1]);
        assert(part@ =~= without_carriage_return(rest.take(i - from)));
        parts.push(part);
        assert(slices_view(parts@) =~= slices_view(before).push(part@));
        assert(rest.skip(i - from + 1) =~= s@.skip(i + 1));
        assert(slices_view(parts@) + lines(s@.skip(i + 1)) =~= slices_view(before) + (seq![part@]
            + lines(s@.skip(i + 1))));
        from = i + 1;
    }
}

/// What stands before and after a separator reads back when the first part is free of it.
pub proof fn lemma_split_once_joined(before: Seq<char>, c: char, after: Seq<char>)
    requires
        !before.contains(c),
    ensures
        split_once(before.push(c) + after, c) == Some((before, after)),
{
    let s = before.push(c) + after;
    assert forall|j: int| 0 <= j < before.len() implies s[j] != c by {
        assert(before.contains(before[j]));
    }
    lemma_find(s, c, before.len() as int);
    assert(s.take(before.len() as int) =~= before);
    assert(s.skip(before.len() as int + 1) =~= after);
}

/// Splitting a text off its first part.
pub proof fn lemma_split_first(first: Seq<char>, c: char, rest: Seq<char>)
    requires
        !first.contains(c),
    ensures
        split(first.push(c) + rest, c) == seq![first] + split(rest, c),
{
    lemma_split_once_joined(first, c, rest);
}

/// A text free of the separator is its own only part.
pub proof fn lemma_split_single(s: Seq<char>, c: char)
    requires
        !s.contains(c),
    ensures
        split(s, c) == seq![s],
{
    assert forall|j: int| 0 <= j < s.len() implies s[j] != c by {
        assert(s.contains(s[j]));
    }
    lemma_find(s, c, s.len() as int);
}

/// Whether a line survives being written with a line feed behind it.
pub open spec fn is_plain_line(line: Seq<char>) -> bool {
    &&& !line.contains('\n')
    &&& line.len() > 0 ==> line.last() != '\r'
}

proof fn lemma_terminated_first(all: Seq<Seq<char>>)
    requires
        all.len() > 0,
    ensures
        terminated(all) == all[0].push('\n') + terminated(all.skip(1)),
    decreases all.len(),
{
    if all.len() == 1 {
        assert(all.drop_last() =~= Seq::<Seq<char>>::empty());
        assert(all.skip(1) =~= Seq::<Seq<char>>::empty());
        assert(terminated(all) =~= all[0].push('\n') + terminated(all.skip(1)));
    } else {
        lemma_terminated_first(all.drop_last());
        assert(all.drop_last().skip(1) =~= all.skip(1).drop_last());
        assert(terminated(all) =~= all[0].push('\n') + (terminated(all.skip(1).drop_last())
            + all.last().push('\n')));
    }
}

/// Lines that are written with a line feed behind each of them read back as they were.
pub proof fn terminated_lines_read_back(all: Seq<Seq<char>>)
    requires
        forall|i: int| 0 <= i < all.len() ==> is_plain_line(#[trigger] all[i]),
    ensures
        lines(terminated(all)) == all,
    decreases all.len(),
{
    if all.len() == 0 {
        assert(lines(terminated(all)) =~= all);
    } else {
        lemma_terminated_first(all);
        let text = terminated(all);
        assert(is_plain_line(all[0]));
        lemma_split_once_joined(all[0], '\n', terminated(all.skip(1)));
        assert forall|i: int| 0 <= i < all.skip(1).len() implies is_plain_line(
            #[trigger] all.skip(1)[i],
        ) by {
            assert(is_plain_line(all[i + 1]));
        }
        terminated_lines_read_back(all.skip(1));
        assert(seq![all[0]] + all.skip(1) =~= all);
    }
}

/// Adding one line at the end of a terminated text.
pub proof fn lemma_terminated_push(all: Seq<Seq<char>>, line: Seq<char>)
    ensures
        terminated(all.push(line)) == terminated(all) + line.push('\n'),
{
    assert(all.push(line).drop_last() =~= all);
}

// ---------------------------------------------------------------------------
// Trimming
// ---------------------------------------------------------------------------

/// Whether `c` has the Unicode property `White_Space`.
pub open spec fn is_white_space(c: char) -> bool {
    ||| '\t' <= c <= '\r'
    ||| c == ' '
    ||| c == '\u{85}'
    ||| c == '\u{a0}'
    ||| c == '\u{1680}'
    ||| '\u{2000}' <= c <= '\u{200a}'
    ||| c == '\u{2028}'
    ||| c == '\u{2029}'
    ||| c == '\u{202f}'
    ||| c == '\u{205f}'
    ||| c == '\u{3000}'
}

/// `s` without the white space at its start.
pub open spec fn trim_start(s: Seq<char>) -> Seq<char>
    decreases s.len(),
{
    if s.len() > 0 && is_white_space(s[0]) {
        trim_start(s.skip(1))
    } else {
        s
    }
}

/// `s` without the white space at its end.
pub open spec fn trim_end(s: Seq<char>) -> Seq<char>
    decreases s.len(),
{
    if s.len() > 0 && is_white_space(s.last()) {
        trim_end(s.drop_last())
    } else {
        s
    }
}

/// `s` without the white space at either end.
pub open spec fn trim(s: Seq<char>) -> Seq<char> {
    trim_end(trim_start(s))
}

/// Whether `c` is white space.
pub fn white_space(c: char) -> (r: bool)
    ensures
        r == is_white_space(c),
{
    ('\t' <= c && c <= '\r') || c == ' ' || c == '\u{85}' || c == '\u{a0}' || c == '\u{1680}' || (
    '\u{2000}' <= c && c <= '\u{200a}') || c == '\u{2028}' || c == '\u{2029}' || c == '\u{202f}'
        || c == '\u{205f}' || c == '\u{3000}'
}

/// The text without the white space at either end.
pub fn trimmed<'a>(s: &'a [char]) -> (r: &'a [char])
    ensures
        r@ == trim(s@),
{
    let mut start: usize = 0;
    assert(s@.skip(0) =~= s@);
    while start < s.len() && white_space(s[start])
        invariant
            start <= s@.len(),
            trim_start(s@.skip(start as int)) == trim_start(s@),
        decreases s@.len() - start,
    {
        assert(s@.skip(start as int).skip(1) =~= s@.skip(start + 1));
        start += 1;
    }
    let ghost kept = trim_start(s@);
    assert(kept =~= s@.skip(start as int));
    let mut end: usize = s.len();
    assert(s@.subrange(start as int, end as int) =~= kept);
    while end > start && white_space(s[end - 1])
        invariant
            start <= end <= s@.len(),
            trim_end(s@.subrange(start as int, end as int)) == trim_end(kept),
        decreases end - start,
    {
        assert(s@.subrange(start as int, end as int).drop_last() =~= s@.subrange(
            start as int,
            end - 1,
        ));
        end -= 1;
    }
    slice_subrange(s, start, end)
}

// ---------------------------------------------------------------------------
// Repeating, padding and joining
// ---------------------------------------------------------------------------

/// `c`, `n` times.
pub open spec fn repeated(c: char, n: nat) -> Seq<char> {
    Seq::new(n, |i: int| c)
}

/// Appends `c`, `n` times.
pub fn push_repeated(out: &mut String, c: char, n: usize)
    ensures
        final(out)@ == old(out)@ + repeated(c, n as nat),
{
    let mut i: usize = 0;
    assert(out@ + repeated(c, 0) =~= out@);
    while i < n
        invariant
            i <= n,
            out@ == old(out)@ + repeated(c, i as nat),
        decreases n - i,
    {
        out.push(c);
        i += 1;
        assert(out@ =~= old(out)@ + repeated(c, i as nat));
    }
}

/// `s`, filled up with blanks at its end to `width` characters.
pub open spec fn padded(s: Seq<char>, width: nat) -> Seq<char> {
    if s.len() < width {
        s + repeated(' ', (width - s.len()) as nat)
    } else {
        s
    }
}

/// The text, filled up with blanks at its end to `width` characters.
pub fn pad_right(s: &str, width: usize) -> (r: String)
    ensures
        r@ == padded(s@, width as nat),
{
    let len: usize = chars_of(s).len();
    let mut r = s.to_string();
    if len < width {
        push_repeated(&mut r, ' ', width - len);
    }
    r
}

/// The parts one after the other, with `separator` between them.
pub open spec fn joined(parts: Seq<Seq<char>>, separator: Seq<char>) -> Seq<char>
    decreases parts.len(),
{
    if parts.len() == 0 {
        Seq::empty()
    } else if parts.len() == 1 {
        parts[0]
    } else {
        joined(parts.drop_last(), separator) + separator + parts.last()
    }
}

/// The views of a list of strings.
pub open spec fn strings_view(parts: Seq<String>) -> Seq<Seq<char>> {
    Seq::new(parts.len(), |i: int| parts[i]@)
}

/// The view of an optional string.
pub open spec fn option_view(s: Option<String>) -> Option<Seq<char>> {
    match s {
        Some(text) => Some(text@),
        None => None,
    }
}

// ---------------------------------------------------------------------------
// Parts of a text
// ---------------------------------------------------------------------------

/// Whether `part` stands in one piece somewhere in `text`.
pub open spec fn has_part(text: Seq<char>, part: Seq<char>) -> bool {
    exists|i: int|
        0 <= i <= text.len() - part.len() && #[trigger] text.subrange(i, i + part.len()) == part
}

/// A name, a value and the name behind it stand in one piece where they were written one after
/// the other.
pub proof fn lemma_part_stands(
    before: Seq<char>,
    name: Seq<char>,
    value: Seq<char>,
    next: Seq<char>,
)
    ensures
        has_part(before + name + value + next, name + value + next),
{
    let text = before + name + value + next;
    let part = name + value + next;
    let i = before.len() as int;
    assert(text.subrange(i, i + part.len()) =~= part);
}

/// Writing more behind a text leaves all its parts in place.
pub proof fn lemma_parts_stay(text: Seq<char>, more: Seq<char>)
    ensures
        forall|part: Seq<char>| #[trigger] has_part(text, part) ==> has_part(text + more, part),
{
    assert forall|part: Seq<char>| #[trigger] has_part(text, part) implies has_part(
        text + more,
        part,
    ) by {
        let i = choose|i: int|
            0 <= i <= text.len() - part.len() && #[trigger] text.subrange(i, i + part.len())
                == part;
        assert((text + more).subrange(i, i + part.len()) =~= part);
    }
}

// ---------------------------------------------------------------------------
// Laws
// ---------------------------------------------------------------------------

proof fn lemma_trim_start(s: Seq<char>)
    ensures
        ({
            let t = trim_start(s);
            let cut = s.len() - t.len();
            &&& cut >= 0
            &&& t == s.skip(cut)
            &&& forall|j: int| 0 <= j < cut ==> is_white_space(#[trigger] s[j])
            &&& t.len() > 0 ==> !is_white_space(t[0])
        }),
    decreases s.len(),
{
    if s.len() > 0 && is_white_space(s[0]) {
        let rest = s.skip(1);
        lemma_trim_start(rest);
        let t = trim_start(s);
        let cut = s.len() - t.len();
        assert(t =~= s.skip(cut));
        assert forall|j: int| 0 <= j < cut implies is_white_space(#[trigger] s[j]) by {
            if j > 0 {
                assert(rest[j - 1] == s[j]);
            }
        }
    } else {
        assert(s.skip(0) =~= s);
    }
}

proof fn lemma_trim_end(s: Seq<char>)
    ensures
        ({
            let t = trim_end(s);
            &&& t.len() <= s.len()
            &&& t == s.take(t.len() as int)
            &&& forall|j: int| t.len() <= j < s.len() ==> is_white_space(#[trigger] s[j])
            &&& t.len() > 0 ==> !is_white_space(t.last())
        }),
    decreases s.len(),
{
    if s.len() > 0 && is_white_space(s.last()) {
        let rest = s.drop_last();
        lemma_trim_end(rest);
        let t = trim_end(s);
        assert(t =~= s.take(t.len() as int));
        assert forall|j: int| t.len() <= j < s.len() implies is_white_space(#[trigger] s[j]) by {
            if j < s.len() - 1 {
                assert(rest[j] == s[j]);
            }
        }
    } else {
        assert(s.take(s.len() as int) =~= s);
    }
}

/// Trimming takes off nothing but white space, and leaves none at either end.
pub proof fn trimming_takes_off_white_space(s: Seq<char>)
    ensures
        ({
            let t = trim(s);
            let from = s.len() - trim_start(s).len();
            &&& 0 <= from <= s.len() - t.len()
            &&& t == s.subrange(from, from + t.len())
            &&& forall|j: int|
                0 <= j < s.len() && (j < from || from + t.len() <= j) ==> is_white_space(
                    #[trigger] s[j],
                )
            &&& t.len() > 0 ==> !is_white_space(t[0]) && !is_white_space(t.last())
        }),
{
    lemma_trim_start(s);
    let middle = trim_start(s);
    lemma_trim_end(middle);
    let t = trim(s);
    let from = s.len() - middle.len();
    assert(t =~= s.subrange(from, from + t.len()));
    assert forall|j: int|
        0 <= j < s.len() && (j < from || from + t.len() <= j) implies is_white_space(
        #[trigger] s[j],
    ) by {
        if j >= from {
            assert(middle[j - from] == s[j]);
        }
    }
}

/// What stands before the first sign, the sign, and what stands behind it make up the text again,
/// and the first part is free of the sign. A text that cannot be split is free of it.
pub proof fn splitting_once_loses_nothing(s: Seq<char>, c: char)
    ensures
        match split_once(s, c) {
            Some((before, after)) => before.push(c) + after == s && !before.contains(c),
            None => !s.contains(c),
        },
{
    lemma_find_bounds(s, c);
    if let Some((before, after)) = split_once(s, c) {
        assert(before.push(c) + after =~= s);
    }
}

/// The parts of a text with the sign between them make up the text again, and none of them holds
/// the sign.
pub proof fn splitting_loses_nothing(s: Seq<char>, c: char)
    ensures
        split(s, c).len() > 0,
        joined(split(s, c), seq![c]) == s,
        forall|i: int| 0 <= i < split(s, c).len() ==> !(#[trigger] split(s, c)[i]).contains(c),
    decreases s.len(),
{
    lemma_find_bounds(s, c);
    splitting_once_loses_nothing(s, c);
    let i = find(s, c);
    if i < s.len() {
        let rest = s.skip(i + 1);
        splitting_loses_nothing(rest, c);
        lemma_joined_first(s.take(i), split(rest, c), seq![c]);
        assert(s.take(i) + seq![c] + rest =~= s);
        let parts = split(s, c);
        assert forall|k: int| 0 <= k < parts.len() implies !(#[trigger] parts[k]).contains(c) by {
            if k > 0 {
                assert(parts[k] == split(rest, c)[k - 1]);
            }
        }
    }
}

proof fn lemma_joined_first(first: Seq<char>, rest: Seq<Seq<char>>, separator: Seq<char>)
    requires
        rest.len() > 0,
    ensures
        joined(seq![first] + rest, separator) == first + separator + joined(rest, separator),
    decreases rest.len(),
{
    let all = seq![first] + rest;
    assert(all.drop_last() =~= seq![first] + rest.drop_last());
    if rest.len() == 1 {
        assert(all.drop_last() =~= seq![first]);
        assert(joined(seq![first], separator) == first);
        assert(joined(rest, separator) == rest[0]);
        assert(joined(all, separator) =~= first + separator + rest[0]);
    } else {
        lemma_joined_first(first, rest.drop_last(), separator);
        assert(joined(all, separator) =~= first + separator + joined(rest, separator));
    }
}

/// A text is filled up with blanks to its width and is left alone where it is longer.
pub proof fn padding_reaches_the_width(s: Seq<char>, width: nat, i: int)
    requires
        0 <= i < padded(s, width).len(),
    ensures
        padded(s, width).len() == vstd::math::max(s.len() as int, width as int),
        padded(s, width)[i] == (if i < s.len() {
            s[i]
        } else {
            ' '
        }),
{
}

} // verus!
