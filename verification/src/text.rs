//! Text handling: character classes, trimming, lines, substitution, and numerals.

use vstd::prelude::*;

verus! {

/// Appends one character, as `String::push` documents it.
pub assume_specification[ String::push ](s: &mut String, c: char)
    ensures
        final(s)@ == old(s)@.push(c),
;

/// The characters with the Unicode `White_Space` property.
pub open spec fn is_white_space(c: char) -> bool {
    let code = c as u32;
    ||| 0x09 <= code <= 0x0d
    ||| code == 0x20
    ||| code == 0x85
    ||| code == 0xa0
    ||| code == 0x1680
    ||| 0x2000 <= code <= 0x200a
    ||| code == 0x2028
    ||| code == 0x2029
    ||| code == 0x202f
    ||| code == 0x205f
    ||| code == 0x3000
}

/// The characters of Unicode's control category, `Cc`.
pub open spec fn is_control_char(c: char) -> bool {
    let code = c as u32;
    code <= 0x1f || 0x7f <= code <= 0x9f
}

/// The ASCII digits and the letters `a` to `f` in either case.
pub open spec fn is_hex_digit(c: char) -> bool {
    ||| '0' <= c <= '9'
    ||| 'a' <= c <= 'f'
    ||| 'A' <= c <= 'F'
}

/// Whether a character is white space.
pub fn white_space(c: char) -> (found: bool)
    ensures
        found == is_white_space(c),
{
    let code: u32 = c as u32;
    (0x09 <= code && code <= 0x0d) || code == 0x20 || code == 0x85 || code == 0xa0 || code == 0x1680
        || (0x2000 <= code && code <= 0x200a) || code == 0x2028 || code == 0x2029 || code == 0x202f
        || code == 0x205f || code == 0x3000
}

/// Whether a character is a control character.
pub fn control_char(c: char) -> (found: bool)
    ensures
        found == is_control_char(c),
{
    let code: u32 = c as u32;
    code <= 0x1f || (0x7f <= code && code <= 0x9f)
}

/// Whether a character is a hexadecimal digit.
pub fn hex_digit(c: char) -> (found: bool)
    ensures
        found == is_hex_digit(c),
{
    ('0' <= c && c <= '9') || ('a' <= c && c <= 'f') || ('A' <= c && c <= 'F')
}

/// The characters of a text, in order.
pub fn chars_of(text: &str) -> (chars: Vec<char>)
    ensures
        chars@ == text@,
{
    let mut chars: Vec<char> = Vec::new();
    for c in it: text.chars()
        invariant
            it.seq() == text@,
            chars@ == text@.take(it.index() as int),
    {
        chars.push(c);
        assert(text@.take(it.index() + 1) == text@.take(it.index() as int).push(c));
    }
    chars
}

/// The characters of a text from one position up to another.
pub fn text_between(chars: &Vec<char>, from: usize, to: usize) -> (text: String)
    requires
        from <= to <= chars@.len(),
    ensures
        text@ == chars@.subrange(from as int, to as int),
{
    let mut text: String = String::new();
    let mut at: usize = from;
    while at < to
        invariant
            from <= at <= to <= chars@.len(),
            text@ == chars@.subrange(from as int, at as int),
        decreases to - at,
    {
        text.push(chars[at]);
        at = at + 1;
        assert(chars@.subrange(from as int, at as int) == chars@.subrange(
            from as int,
            at - 1,
        ).push(chars@[at - 1]));
    }
    text
}

/// Whether two texts hold the same characters.
pub fn same_text(left: &str, right: &str) -> (same: bool)
    ensures
        same == (left@ == right@),
{
    left.to_owned() == right.to_owned()
}

/// Two texts, one after the other.
pub fn join2(first: &str, second: &str) -> (text: String)
    ensures
        text@ == first@ + second@,
{
    let mut text: String = first.to_owned();
    text.append(second);
    text
}

/// Three texts, one after the other.
pub fn join3(first: &str, second: &str, third: &str) -> (text: String)
    ensures
        text@ == first@ + second@ + third@,
{
    let mut text: String = join2(first, second);
    text.append(third);
    text
}

/// Four texts, one after the other.
pub fn join4(first: &str, second: &str, third: &str, fourth: &str) -> (text: String)
    ensures
        text@ == first@ + second@ + third@ + fourth@,
{
    let mut text: String = join3(first, second, third);
    text.append(fourth);
    text
}

/// Five texts, one after the other.
pub fn join5(first: &str, second: &str, third: &str, fourth: &str, fifth: &str) -> (text: String)
    ensures
        text@ == first@ + second@ + third@ + fourth@ + fifth@,
{
    let mut text: String = join4(first, second, third, fourth);
    text.append(fifth);
    text
}

/// A text without its leading white space.
pub open spec fn trimmed_start(text: Seq<char>) -> Seq<char>
    decreases text.len(),
{
    if text.len() > 0 && is_white_space(text[0]) {
        trimmed_start(text.drop_first())
    } else {
        text
    }
}

/// A text without its trailing white space.
pub open spec fn trimmed_end(text: Seq<char>) -> Seq<char>
    decreases text.len(),
{
    if text.len() > 0 && is_white_space(text.last()) {
        trimmed_end(text.drop_last())
    } else {
        text
    }
}

/// A text without its leading and trailing white space.
pub open spec fn trimmed(text: Seq<char>) -> Seq<char> {
    trimmed_end(trimmed_start(text))
}

/// Removes leading and trailing white space.
pub fn trim(text: &str) -> (kept: String)
    ensures
        kept@ == trimmed(text@),
{
    let chars: Vec<char> = chars_of(text);
    let mut from: usize = 0;
    assert(chars@.skip(0) == chars@);
    while from < chars.len() && white_space(chars[from])
        invariant
            from <= chars@.len(),
            trimmed_start(chars@) == trimmed_start(chars@.skip(from as int)),
        decreases chars.len() - from,
    {
        assert(chars@.skip(from as int).drop_first() == chars@.skip(from + 1));
        from = from + 1;
    }
    assert(trimmed_start(chars@) == chars@.skip(from as int));
    let mut to: usize = chars.len();
    assert(chars@.subrange(from as int, to as int) == chars@.skip(from as int));
    while from < to && white_space(chars[to - 1])
        invariant
            from <= to <= chars@.len(),
            trimmed(chars@) == trimmed_end(chars@.subrange(from as int, to as int)),
        decreases to,
    {
        assert(chars@.subrange(from as int, to as int).drop_last() == chars@.subrange(
            from as int,
            to - 1,
        ));
        to = to - 1;
    }
    text_between(&chars, from, to)
}

/// A text without the carriage returns and line feeds at its end.
pub open spec fn without_line_end(text: Seq<char>) -> Seq<char>
    decreases text.len(),
{
    if text.len() > 0 && (text.last() == '\r' || text.last() == '\n') {
        without_line_end(text.drop_last())
    } else {
        text
    }
}

/// Removes the carriage returns and line feeds at the end of a text.
pub fn trim_line_end(text: &str) -> (kept: String)
    ensures
        kept@ == without_line_end(text@),
{
    let chars: Vec<char> = chars_of(text);
    let mut to: usize = chars.len();
    assert(chars@.subrange(0, to as int) == chars@);
    while 0 < to && (chars[to - 1] == '\r' || chars[to - 1] == '\n')
        invariant
            to <= chars@.len(),
            without_line_end(chars@) == without_line_end(chars@.subrange(0, to as int)),
        decreases to,
    {
        assert(chars@.subrange(0, to as int).drop_last() == chars@.subrange(0, to - 1));
        to = to - 1;
    }
    text_between(&chars, 0, to)
}

/// The position of the first line feed, or the length of a text without one.
pub open spec fn line_feed_at(text: Seq<char>) -> nat
    decreases text.len(),
{
    if text.len() == 0 || text[0] == '\n' {
        0
    } else {
        1 + line_feed_at(text.drop_first())
    }
}

/// A line without the one carriage return that may precede its line feed.
pub open spec fn without_return(line: Seq<char>) -> Seq<char> {
    if line.len() > 0 && line.last() == '\r' {
        line.drop_last()
    } else {
        line
    }
}

proof fn lemma_line_feed_at(text: Seq<char>, at: nat)
    requires
        at <= text.len(),
        at < text.len() ==> text[at as int] == '\n',
        forall|i: int| 0 <= i < at ==> text[i] != '\n',
    ensures
        line_feed_at(text) == at,
    decreases at,
{
    if at > 0 {
        let rest = text.drop_first();
        assert forall|i: int| 0 <= i < at - 1 implies rest[i] != '\n' by {
            assert(rest[i] == text[i + 1]);
        }
        lemma_line_feed_at(rest, (at - 1) as nat);
    }
}

/// The lines of a text: each ends at a line feed, with an optional carriage return before it.
/// The last line's ending is optional.
pub open spec fn lines(text: Seq<char>) -> Seq<Seq<char>>
    decreases text.len(),
{
    let at = line_feed_at(text);
    if text.len() == 0 {
        Seq::empty()
    } else if at >= text.len() {
        seq![text]
    } else {
        seq![without_return(text.take(at as int))] + lines(text.skip((at + 1) as int))
    }
}

/// The texts that a vector of strings holds.
pub open spec fn texts(strings: Seq<String>) -> Seq<Seq<char>> {
    Seq::new(strings.len(), |i: int| strings[i]@)
}

/// Splits a text into its lines.
pub fn split_lines(text: &str) -> (split: Vec<String>)
    ensures
        texts(split@) == lines(text@),
{
    let chars: Vec<char> = chars_of(text);
    let mut split: Vec<String> = Vec::new();
    let mut start: usize = 0;
    assert(chars@.skip(0) == chars@);
    assert(texts(split@) + lines(chars@) == lines(chars@));
    while start < chars.len()
        invariant
            start <= chars@.len(),
            texts(split@) + lines(chars@.skip(start as int)) == lines(chars@),
        decreases chars.len() - start,
    {
        let ghost rest = chars@.skip(start as int);
        let ghost before = texts(split@);
        let mut at: usize = start;
        while at < chars.len() && chars[at] != '\n'
            invariant
                start <= at <= chars@.len(),
                forall|i: int| start <= i < at ==> chars@[i] != '\n',
            decreases chars.len() - at,
        {
            at = at + 1;
        }
        proof {
            assert(at < chars@.len() ==> rest[at - start] == chars@[at as int]);
            lemma_line_feed_at(rest, (at - start) as nat);
        }
        if at < chars.len() {
            let mut end: usize = at;
            if start < end && chars[end - 1] == '\r' {
                end = end - 1;
            }
            let line: String = text_between(&chars, start, end);
            proof {
                let whole = rest.take(at - start);
                assert(whole.len() > 0 ==> whole.last() == chars@[at - 1]);
                assert(line@ == without_return(whole));
                assert(rest.skip(at - start + 1) == chars@.skip(at + 1));
                assert(lines(rest) == seq![line@] + lines(chars@.skip(at + 1)));
            }
            split.push(line);
            assert(texts(split@) == before.push(line@));
            assert(before.push(line@) + lines(chars@.skip(at + 1)) == before + (seq![line@] + lines(
                chars@.skip(at + 1),
            )));
            start = at + 1;
        } else {
            let line: String = text_between(&chars, start, at);
            assert(line@ == rest);
            split.push(line);
            assert(texts(split@) == before.push(line@));
            assert(lines(rest) == seq![rest]);
            start = at;
            assert(chars@.skip(start as int) == Seq::<char>::empty());
            assert(before.push(line@) + lines(chars@.skip(start as int)) == before + seq![rest]);
        }
    }
    assert(chars@.skip(start as int) == Seq::<char>::empty());
    split
}

/// Whether a text begins with another.
pub fn starts_with(text: &str, prefix: &str) -> (found: bool)
    ensures
        found == prefix@.is_prefix_of(text@),
{
    let chars: Vec<char> = chars_of(text);
    let wanted: Vec<char> = chars_of(prefix);
    if wanted.len() > chars.len() {
        return false;
    }
    let mut at: usize = 0;
    while at < wanted.len()
        invariant
            at <= wanted@.len() <= chars@.len(),
            wanted@.take(at as int) == chars@.take(at as int),
            chars@ == text@,
            wanted@ == prefix@,
        decreases wanted.len() - at,
    {
        if chars[at] != wanted[at] {
            assert(text@.subrange(0, prefix@.len() as int)[at as int] != prefix@[at as int]);
            return false;
        }
        assert(wanted@.take(at + 1) == wanted@.take(at as int).push(wanted@[at as int]));
        assert(chars@.take(at + 1) == chars@.take(at as int).push(chars@[at as int]));
        at = at + 1;
    }
    assert(wanted@.take(at as int) == wanted@);
    true
}

/// What follows a prefix of a text, if the text begins with it.
pub fn strip_prefix(text: &str, prefix: &str) -> (rest: Option<String>)
    ensures
        rest is Some <==> prefix@.is_prefix_of(text@),
        rest matches Some(r) ==> r@ == text@.skip(prefix@.len() as int),
{
    if !starts_with(text, prefix) {
        return None;
    }
    let chars: Vec<char> = chars_of(text);
    let skipped: usize = prefix.unicode_len();
    Some(text_between(&chars, skipped, chars.len()))
}

/// Whether a character occurs in a text.
pub fn contains_char(text: &str, wanted: char) -> (found: bool)
    ensures
        found == text@.contains(wanted),
{
    let chars: Vec<char> = chars_of(text);
    let mut at: usize = 0;
    while at < chars.len()
        invariant
            at <= chars@.len(),
            chars@ == text@,
            forall|i: int| 0 <= i < at ==> chars@[i] != wanted,
        decreases chars.len() - at,
    {
        if chars[at] == wanted {
            return true;
        }
        at = at + 1;
    }
    false
}

/// Whether some character of a text is white space.
pub open spec fn has_white_space(text: Seq<char>) -> bool {
    exists|i: int| 0 <= i < text.len() && is_white_space(#[trigger] text[i])
}

/// Whether some character of a text is a control character.
pub open spec fn has_control_char(text: Seq<char>) -> bool {
    exists|i: int| 0 <= i < text.len() && is_control_char(#[trigger] text[i])
}

/// Whether every character of a text is a hexadecimal digit.
pub open spec fn all_hex_digits(text: Seq<char>) -> bool {
    forall|i: int| 0 <= i < text.len() ==> is_hex_digit(#[trigger] text[i])
}

/// Finds white space in a text.
pub fn any_white_space(text: &str) -> (found: bool)
    ensures
        found == has_white_space(text@),
{
    let chars: Vec<char> = chars_of(text);
    let mut at: usize = 0;
    while at < chars.len()
        invariant
            at <= chars@.len(),
            chars@ == text@,
            forall|i: int| 0 <= i < at ==> !is_white_space(#[trigger] chars@[i]),
        decreases chars.len() - at,
    {
        if white_space(chars[at]) {
            return true;
        }
        at = at + 1;
    }
    false
}

/// Finds a control character in a text.
pub fn any_control_char(text: &str) -> (found: bool)
    ensures
        found == has_control_char(text@),
{
    let chars: Vec<char> = chars_of(text);
    let mut at: usize = 0;
    while at < chars.len()
        invariant
            at <= chars@.len(),
            chars@ == text@,
            forall|i: int| 0 <= i < at ==> !is_control_char(#[trigger] chars@[i]),
        decreases chars.len() - at,
    {
        if control_char(chars[at]) {
            return true;
        }
        at = at + 1;
    }
    false
}

/// Checks that a text holds hexadecimal digits alone.
pub fn only_hex_digits(text: &str) -> (only: bool)
    ensures
        only == all_hex_digits(text@),
{
    let chars: Vec<char> = chars_of(text);
    let mut at: usize = 0;
    while at < chars.len()
        invariant
            at <= chars@.len(),
            chars@ == text@,
            forall|i: int| 0 <= i < at ==> is_hex_digit(#[trigger] chars@[i]),
        decreases chars.len() - at,
    {
        if !hex_digit(chars[at]) {
            return false;
        }
        at = at + 1;
    }
    true
}

/// A text with every occurrence of one character exchanged for another.
pub open spec fn char_replaced(text: Seq<char>, from: char, to: char) -> Seq<char> {
    Seq::new(
        text.len(),
        |i: int|
            if text[i] == from {
                to
            } else {
                text[i]
            },
    )
}

/// Exchanges every occurrence of one character for another.
pub fn replace_char(text: &str, from: char, to: char) -> (replaced: String)
    ensures
        replaced@ == char_replaced(text@, from, to),
{
    let chars: Vec<char> = chars_of(text);
    let mut replaced: String = String::new();
    let mut at: usize = 0;
    while at < chars.len()
        invariant
            at <= chars@.len(),
            replaced@ == char_replaced(chars@.take(at as int), from, to),
        decreases chars.len() - at,
    {
        let c: char = chars[at];
        let ghost before = replaced@;
        if c == from {
            replaced.push(to);
        } else {
            replaced.push(c);
        }
        assert(char_replaced(chars@.take(at + 1), from, to) == replaced@) by {
            assert(chars@.take(at + 1).len() == before.len() + 1);
        }
        at = at + 1;
    }
    assert(chars@.take(at as int) == chars@);
    replaced
}

/// A text with each occurrence of a pattern, taken from left to right without overlap, exchanged
/// for a substitute.
pub open spec fn replaced_all(
    text: Seq<char>,
    pattern: Seq<char>,
    substitute: Seq<char>,
) -> Seq<char>
    decreases text.len(),
{
    if pattern.len() == 0 || text.len() < pattern.len() {
        text
    } else if pattern.is_prefix_of(text) {
        substitute + replaced_all(text.skip(pattern.len() as int), pattern, substitute)
    } else {
        seq![text[0]] + replaced_all(text.drop_first(), pattern, substitute)
    }
}

/// Whether a pattern stands at a position of a text.
fn stands_at(chars: &Vec<char>, at: usize, pattern: &Vec<char>) -> (found: bool)
    requires
        at <= chars@.len(),
    ensures
        found == pattern@.is_prefix_of(chars@.skip(at as int)),
{
    let total: usize = chars.len();
    if pattern.len() > total - at {
        return false;
    }
    let mut n: usize = 0;
    while n < pattern.len()
        invariant
            at <= total == chars@.len(),
            n <= pattern@.len() <= total - at,
            forall|i: int| 0 <= i < n ==> chars@[at + i] == pattern@[i],
        decreases pattern.len() - n,
    {
        if chars[at + n] != pattern[n] {
            assert(chars@.skip(at as int).subrange(0, pattern@.len() as int)[n as int]
                != pattern@[n as int]);
            return false;
        }
        n = n + 1;
    }
    assert(chars@.skip(at as int).subrange(0, pattern@.len() as int) == pattern@);
    true
}

/// Exchanges each occurrence of a pattern for a substitute, from left to right without overlap.
pub fn replace_all(text: &str, pattern: &str, substitute: &str) -> (replaced: String)
    requires
        pattern@.len() > 0,
    ensures
        replaced@ == replaced_all(text@, pattern@, substitute@),
{
    let chars: Vec<char> = chars_of(text);
    let wanted: Vec<char> = chars_of(pattern);
    let mut replaced: String = String::new();
    let mut at: usize = 0;
    assert(chars@.skip(0) == chars@);
    assert(replaced@ + replaced_all(chars@, pattern@, substitute@) == replaced_all(
        chars@,
        pattern@,
        substitute@,
    ));
    while at < chars.len()
        invariant
            at <= chars@.len(),
            chars@ == text@,
            wanted@ == pattern@,
            wanted@.len() > 0,
            replaced@ + replaced_all(chars@.skip(at as int), pattern@, substitute@)
                == replaced_all(text@, pattern@, substitute@),
        decreases chars.len() - at,
    {
        let ghost rest = chars@.skip(at as int);
        let ghost before = replaced@;
        if stands_at(&chars, at, &wanted) {
            replaced.append(substitute);
            proof {
                let tail = replaced_all(rest.skip(pattern@.len() as int), pattern@, substitute@);
                assert(rest.skip(pattern@.len() as int) == chars@.skip(at + pattern@.len()));
                assert(before + (substitute@ + tail) == (before + substitute@) + tail);
            }
            at = at + wanted.len();
        } else {
            let c: char = chars[at];
            replaced.push(c);
            proof {
                assert(rest.drop_first() == chars@.skip(at + 1));
                let tail = replaced_all(rest.drop_first(), pattern@, substitute@);
                if rest.len() < pattern@.len() {
                    assert(tail == rest.drop_first());
                    assert(replaced_all(rest, pattern@, substitute@) == seq![c] + tail);
                }
                assert(before + (seq![c] + tail) == before.push(c) + tail);
            }
            at = at + 1;
        }
    }
    assert(chars@.skip(at as int) == Seq::<char>::empty());
    assert(replaced@ + Seq::<char>::empty() == replaced@);
    replaced
}

/// The character of one decimal digit.
pub open spec fn digit_char(digit: nat) -> char {
    (('0' as nat) + digit) as char
}

/// The decimal numeral of a number.
pub open spec fn decimal(n: nat) -> Seq<char>
    decreases n,
{
    if n < 10 {
        seq![digit_char(n)]
    } else {
        decimal(n / 10).push(digit_char(n % 10))
    }
}

/// Different numbers have different numerals.
pub proof fn lemma_decimal_tells_numbers_apart(left: nat, right: nat)
    ensures
        decimal(left) == decimal(right) ==> left == right,
    decreases left,
{
    if decimal(left) == decimal(right) {
        lemma_decimal_is_not_empty(left / 10);
        lemma_decimal_is_not_empty(right / 10);
        assert(decimal(left).last() == digit_char(left % 10));
        assert(decimal(right).last() == digit_char(right % 10));
        if left >= 10 && right >= 10 {
            assert(decimal(left).drop_last() == decimal(left / 10));
            assert(decimal(right).drop_last() == decimal(right / 10));
            lemma_decimal_tells_numbers_apart(left / 10, right / 10);
        } else if left >= 10 {
            assert(decimal(left).len() == decimal(left / 10).len() + 1);
        } else if right >= 10 {
            assert(decimal(right).len() == decimal(right / 10).len() + 1);
        }
    }
}

/// A numeral has a digit.
proof fn lemma_decimal_is_not_empty(n: nat)
    ensures
        decimal(n).len() > 0,
{
}

/// Writes a digit.
fn digit(n: u64) -> (c: char)
    requires
        n < 10,
    ensures
        c == digit_char(n as nat),
{
    match n {
        0 => '0',
        1 => '1',
        2 => '2',
        3 => '3',
        4 => '4',
        5 => '5',
        6 => '6',
        7 => '7',
        8 => '8',
        _ => '9',
    }
}

/// Writes a number in decimal.
pub fn number(n: u64) -> (text: String)
    ensures
        text@ == decimal(n as nat),
    decreases n,
{
    let mut text: String = if n < 10 {
        String::new()
    } else {
        number(n / 10)
    };
    text.push(digit(n % 10));
    assert(n < 10 ==> text@ == seq![digit_char(n as nat)]);
    text
}

/// The decimal numeral of a signed number.
pub open spec fn signed_decimal(n: int) -> Seq<char> {
    if n < 0 {
        "-"@ + decimal((-n) as nat)
    } else {
        decimal(n as nat)
    }
}

/// Writes a signed number in decimal.
pub fn signed_number(n: i32) -> (text: String)
    ensures
        text@ == signed_decimal(n as int),
{
    let wide: i64 = n as i64;
    if wide < 0 {
        let size: u64 = (-wide) as u64;
        join2("-", number(size).as_str())
    } else {
        number(wide as u64)
    }
}

/// Why a text is no unsigned number.
#[derive(Debug, Clone, Copy, PartialEq, Eq, Structural)]
pub enum NumeralFault {
    Empty,
    InvalidDigit,
    TooLarge,
}

impl NumeralFault {
    /// What is wrong with the text.
    pub open spec fn message(self) -> Seq<char> {
        match self {
            NumeralFault::Empty => "cannot parse integer from empty string"@,
            NumeralFault::InvalidDigit => "invalid digit found in string"@,
            NumeralFault::TooLarge => "number too large to fit in target type"@,
        }
    }

    /// Says what is wrong with the text.
    pub fn describe(self) -> (text: &'static str)
        ensures
            text@ == self.message(),
    {
        match self {
            NumeralFault::Empty => "cannot parse integer from empty string",
            NumeralFault::InvalidDigit => "invalid digit found in string",
            NumeralFault::TooLarge => "number too large to fit in target type",
        }
    }
}

/// The number that decimal digits spell, read after the digits of `prefix`; the first character
/// that is no digit, or that takes the number over the limit, decides the fault.
pub open spec fn digits_value(digits: Seq<char>, prefix: nat, limit: nat) -> Result<
    nat,
    NumeralFault,
>
    decreases digits.len(),
{
    if digits.len() == 0 {
        Ok(prefix)
    } else if !('0' <= digits[0] <= '9') {
        Err(NumeralFault::InvalidDigit)
    } else {
        let value = prefix * 10 + (digits[0] as nat - '0' as nat) as nat;
        if value > limit {
            Err(NumeralFault::TooLarge)
        } else {
            digits_value(digits.drop_first(), value, limit)
        }
    }
}

/// The number that a text spells: an optional plus sign, then decimal digits.
pub open spec fn unsigned_value(text: Seq<char>, limit: nat) -> Result<nat, NumeralFault> {
    if text.len() == 0 {
        Err(NumeralFault::Empty)
    } else if text[0] == '+' {
        if text.len() == 1 {
            Err(NumeralFault::InvalidDigit)
        } else {
            digits_value(text.drop_first(), 0, limit)
        }
    } else {
        digits_value(text, 0, limit)
    }
}

/// Reads an unsigned number.
pub fn parse_u32(text: &str) -> (parsed: Result<u32, NumeralFault>)
    ensures
        parsed matches Ok(n) ==> unsigned_value(text@, u32::MAX as nat) == Ok::<nat, NumeralFault>(
            n as nat,
        ),
        parsed matches Err(fault) ==> unsigned_value(text@, u32::MAX as nat) == Err::<
            nat,
            NumeralFault,
        >(fault),
{
    let chars: Vec<char> = chars_of(text);
    if chars.len() == 0 {
        return Err(NumeralFault::Empty);
    }
    let mut at: usize = 0;
    if chars[0] == '+' {
        if chars.len() == 1 {
            return Err(NumeralFault::InvalidDigit);
        }
        at = 1;
    }
    let mut value: u32 = 0;
    assert(chars@.skip(0) == chars@);
    assert(chars@.skip(1) == chars@.drop_first());
    while at < chars.len()
        invariant
            at <= chars@.len(),
            chars@ == text@,
            unsigned_value(text@, u32::MAX as nat) == digits_value(
                chars@.skip(at as int),
                value as nat,
                u32::MAX as nat,
            ),
        decreases chars.len() - at,
    {
        let c: char = chars[at];
        if !('0' <= c && c <= '9') {
            return Err(NumeralFault::InvalidDigit);
        }
        let wide: u64 = value as u64 * 10 + (c as u32 - '0' as u32) as u64;
        if wide > 0xffff_ffff {
            return Err(NumeralFault::TooLarge);
        }
        assert(chars@.skip(at as int).drop_first() == chars@.skip(at + 1));
        value = wide as u32;
        at = at + 1;
    }
    Ok(value)
}

/// Of the ASCII characters, white space is the tab, the line ends, the two other feeds, and the
/// space. The control characters are those before the space and those from delete up to the
/// no-break space. There are twenty-two hexadecimal digits.
pub proof fn law_character_classes(c: char)
    ensures
        (c as u32) < 0x80 ==> (is_white_space(c) <==> seq![
            '\t',
            '\n',
            '\x0b',
            '\x0c',
            '\r',
            ' ',
        ].contains(c)),
        !is_control_char(c) <==> ' ' <= c <= '~' || c as u32 >= 0xa0,
        is_hex_digit(c) <==> "0123456789abcdefABCDEF"@.contains(c),
{
    reveal_strlit("0123456789abcdefABCDEF");
    let digits = "0123456789abcdefABCDEF"@;
    let spaces = seq!['\t', '\n', '\x0b', '\x0c', '\r', ' '];
    assert(digits.len() == 22);
    if is_hex_digit(c) {
        let at: int = if '0' <= c <= '9' {
            c as int - '0' as int
        } else if 'a' <= c <= 'f' {
            10 + (c as int - 'a' as int)
        } else {
            16 + (c as int - 'A' as int)
        };
        assert(digits[at] == c);
    }
    if (c as u32) < 0x80 && is_white_space(c) {
        let at: int = if c == ' ' {
            5
        } else {
            c as int - '\t' as int
        };
        assert(spaces[at] == c);
    }
}

/// Whether every character of a text is white space.
pub open spec fn is_blank(text: Seq<char>) -> bool {
    forall|i: int| 0 <= i < text.len() ==> is_white_space(#[trigger] text[i])
}

/// Trimming takes white space from both ends and nothing else: the text is what was kept between
/// two blank texts, and what was kept neither begins nor ends with white space.
pub proof fn law_trimming_takes_blank_ends(text: Seq<char>)
    ensures
        exists|before: Seq<char>, after: Seq<char>|
            is_blank(before) && is_blank(after) && text == #[trigger] (before + trimmed(text)
                + after),
        trimmed(text).len() > 0 ==> !is_white_space(trimmed(text)[0]) && !is_white_space(
            trimmed(text).last(),
        ),
        trimmed(text).len() == 0 <==> is_blank(text),
{
    let started = trimmed_start(text);
    lemma_trimmed_start(text);
    lemma_trimmed_end(started);
    let before = text.take(text.len() - started.len());
    let after = started.skip(trimmed(text).len() as int);
    assert(text == before + started);
    assert(started == trimmed(text) + after);
    assert(text == before + trimmed(text) + after);
    if trimmed(text).len() > 0 {
        assert(trimmed(text)[0] == started[0]);
        assert(text[before.len() as int] == started[0]);
    } else {
        assert forall|i: int| 0 <= i < text.len() implies is_white_space(#[trigger] text[i]) by {
            if i < before.len() {
                assert(text[i] == before[i]);
            } else {
                assert(text[i] == after[i - before.len()]);
            }
        }
    }
}

/// What is taken from the front is white space.
proof fn lemma_trimmed_start(text: Seq<char>)
    ensures
        trimmed_start(text).len() <= text.len(),
        text.skip(text.len() - trimmed_start(text).len()) == trimmed_start(text),
        is_blank(text.take(text.len() - trimmed_start(text).len())),
        trimmed_start(text).len() > 0 ==> !is_white_space(trimmed_start(text)[0]),
    decreases text.len(),
{
    if text.len() > 0 && is_white_space(text[0]) {
        let rest = text.drop_first();
        lemma_trimmed_start(rest);
        let kept = trimmed_start(text).len();
        assert(text.skip(text.len() - kept) == rest.skip(rest.len() - kept));
        assert forall|i: int| 0 <= i < text.len() - kept implies is_white_space(
            #[trigger] text.take(text.len() - kept)[i],
        ) by {
            if i > 0 {
                assert(rest.take(rest.len() - kept)[i - 1] == text[i]);
            }
        }
    } else {
        assert(text.skip(0) == text);
    }
}

/// What is taken from the end is white space.
proof fn lemma_trimmed_end(text: Seq<char>)
    ensures
        trimmed_end(text).len() <= text.len(),
        text.take(trimmed_end(text).len() as int) == trimmed_end(text),
        is_blank(text.skip(trimmed_end(text).len() as int)),
        trimmed_end(text).len() > 0 ==> !is_white_space(trimmed_end(text).last()),
    decreases text.len(),
{
    if text.len() > 0 && is_white_space(text.last()) {
        let rest = text.drop_last();
        lemma_trimmed_end(rest);
        let kept = trimmed_end(text).len() as int;
        assert(text.take(kept) == rest.take(kept));
        assert forall|i: int| 0 <= i < text.len() - kept implies is_white_space(
            #[trigger] text.skip(kept)[i],
        ) by {
            if i < text.len() - kept - 1 {
                assert(rest.skip(kept)[i] == text[kept + i]);
            }
        }
    } else {
        assert(text.take(text.len() as int) == text);
    }
}

/// A text without surrounding white space is trimmed to itself, whatever white space is put around
/// it.
pub proof fn law_trimming_undoes_padding(before: Seq<char>, text: Seq<char>, after: Seq<char>)
    requires
        is_blank(before),
        is_blank(after),
        text.len() > 0,
        !is_white_space(text[0]),
        !is_white_space(text.last()),
    ensures
        trimmed(before + text + after) == text,
{
    lemma_skips_blank_start(before, text + after);
    assert(before + text + after == before + (text + after));
    assert((text + after)[0] == text[0]);
    lemma_skips_blank_end(text, after);
}

/// Blank text at the front is taken.
proof fn lemma_skips_blank_start(before: Seq<char>, rest: Seq<char>)
    requires
        is_blank(before),
        rest.len() > 0,
        !is_white_space(rest[0]),
    ensures
        trimmed_start(before + rest) == rest,
    decreases before.len(),
{
    if before.len() == 0 {
        assert(before + rest == rest);
    } else {
        assert((before + rest).drop_first() == before.drop_first() + rest);
        assert((before + rest)[0] == before[0]);
        lemma_skips_blank_start(before.drop_first(), rest);
    }
}

/// Blank text at the end is taken.
proof fn lemma_skips_blank_end(text: Seq<char>, after: Seq<char>)
    requires
        is_blank(after),
        text.len() > 0,
        !is_white_space(text.last()),
    ensures
        trimmed_end(text + after) == text,
    decreases after.len(),
{
    if after.len() == 0 {
        assert(text + after == text);
    } else {
        assert((text + after).drop_last() == text + after.drop_last());
        assert((text + after).last() == after.last());
        lemma_skips_blank_end(text, after.drop_last());
    }
}

/// A line's end is all that is taken from it: what was taken holds line ends alone, and what was
/// kept does not end with one.
pub proof fn law_line_ends_are_taken(text: Seq<char>)
    ensures
        without_line_end(text).len() <= text.len(),
        without_line_end(text) == text.take(without_line_end(text).len() as int),
        forall|i: int|
            without_line_end(text).len() <= i < text.len() ==> (#[trigger] text[i] == '\r'
                || text[i] == '\n'),
        without_line_end(text).len() > 0 ==> without_line_end(text).last() != '\r'
            && without_line_end(text).last() != '\n',
    decreases text.len(),
{
    if text.len() > 0 && (text.last() == '\r' || text.last() == '\n') {
        law_line_ends_are_taken(text.drop_last());
        let kept = without_line_end(text).len() as int;
        assert(text.take(kept) == text.drop_last().take(kept));
        assert forall|i: int| kept <= i < text.len() implies (#[trigger] text[i] == '\r' || text[i]
            == '\n') by {
            if i < text.len() - 1 {
                assert(text.drop_last()[i] == text[i]);
            }
        }
    } else {
        assert(text.take(text.len() as int) == text);
    }
}

/// The lines of a text that begins with a line are that line and the lines of the rest, whether the
/// line ends in a line feed alone or in a carriage return and a line feed. A text without line
/// feeds is one line, and no text has no lines.
pub proof fn law_lines_are_split_at_line_feeds(line: Seq<char>, rest: Seq<char>)
    requires
        !line.contains('\n'),
    ensures
        (line.len() == 0 || line.last() != '\r') ==> lines(line + seq!['\n'] + rest) == seq![line]
            + lines(rest),
        lines(line + seq!['\r', '\n'] + rest) == seq![line] + lines(rest),
        line.len() > 0 ==> lines(line) == seq![line],
        lines(Seq::empty()) == Seq::<Seq<char>>::empty(),
{
    assert forall|i: int| 0 <= i < line.len() implies line[i] != '\n' by {
        assert(line.contains(line[i]));
    }
    let plain = line + seq!['\n'] + rest;
    let returned = line + seq!['\r', '\n'] + rest;
    lemma_line_feed_at(line, line.len());
    lemma_line_feed_at(plain, line.len());
    lemma_line_feed_at(returned, line.len() + 1);
    assert(plain.take(line.len() as int) == line);
    assert(plain.skip((line.len() + 1) as int) == rest);
    assert(returned.take((line.len() + 1) as int) == line.push('\r'));
    assert(line.push('\r').drop_last() == line);
    assert(returned.skip((line.len() + 2) as int) == rest);
}

/// A pattern is exchanged where it stands, and nothing else changes: in front of a pattern, text
/// without the pattern's first character stays, and after it the exchange goes on.
pub proof fn law_patterns_are_exchanged(
    prefix: Seq<char>,
    pattern: Seq<char>,
    rest: Seq<char>,
    substitute: Seq<char>,
)
    requires
        pattern.len() > 0,
        !prefix.contains(pattern[0]),
    ensures
        replaced_all(prefix + pattern + rest, pattern, substitute) == prefix + substitute
            + replaced_all(rest, pattern, substitute),
        replaced_all(prefix, pattern, substitute) == prefix,
    decreases prefix.len(),
{
    let whole = prefix + pattern + rest;
    if prefix.len() == 0 {
        assert(whole == pattern + rest);
        assert(whole.subrange(0, pattern.len() as int) == pattern);
        assert(whole.skip(pattern.len() as int) == rest);
        assert(prefix + substitute == substitute);
    } else {
        let shorter = prefix.drop_first();
        assert(!shorter.contains(pattern[0])) by {
            if shorter.contains(pattern[0]) {
                let i = choose|i: int| 0 <= i < shorter.len() && shorter[i] == pattern[0];
                assert(prefix[i + 1] == pattern[0]);
            }
        }
        law_patterns_are_exchanged(shorter, pattern, rest, substitute);
        assert(prefix.contains(prefix[0]));
        assert(whole[0] == prefix[0]);
        assert(!pattern.is_prefix_of(whole)) by {
            if pattern.is_prefix_of(whole) {
                assert(whole.subrange(0, pattern.len() as int)[0] == whole[0]);
            }
        }
        assert(!pattern.is_prefix_of(prefix)) by {
            if pattern.is_prefix_of(prefix) {
                assert(prefix.subrange(0, pattern.len() as int)[0] == prefix[0]);
            }
        }
        assert(whole.drop_first() == shorter + pattern + rest);
        let tail = replaced_all(rest, pattern, substitute);
        assert(seq![prefix[0]] + (shorter + substitute + tail) == prefix + substitute + tail);
        assert(seq![prefix[0]] + shorter == prefix);
    }
}

/// A number that was written is read back, and one over the limit is refused. A plus sign in front
/// changes nothing.
pub proof fn law_numbers_are_read_back(n: nat, limit: nat)
    ensures
        n <= limit ==> unsigned_value(decimal(n), limit) == Ok::<nat, NumeralFault>(n),
        n > limit ==> unsigned_value(decimal(n), limit) == Err::<nat, NumeralFault>(
            NumeralFault::TooLarge,
        ),
        unsigned_value(seq!['+'] + decimal(n), limit) == unsigned_value(decimal(n), limit),
        forall|i: int|
            0 <= i < decimal(n).len() ==> '0' <= (#[trigger] decimal(n)[i]) && decimal(n)[i] <= '9',
        n > 0 ==> decimal(n)[0] != '0',
{
    lemma_decimal_digits(n);
    lemma_decimal_value(n, limit, Seq::empty());
    assert(decimal(n) + Seq::<char>::empty() == decimal(n));
    assert((seq!['+'] + decimal(n)).drop_first() == decimal(n));
}

/// A numeral holds digits, and no zero in front.
proof fn lemma_decimal_digits(n: nat)
    ensures
        decimal(n).len() > 0,
        forall|i: int|
            0 <= i < decimal(n).len() ==> '0' <= (#[trigger] decimal(n)[i]) && decimal(n)[i] <= '9',
        n > 0 ==> decimal(n)[0] != '0',
    decreases n,
{
    if n >= 10 {
        lemma_decimal_digits(n / 10);
    }
}

/// Reading a numeral and then more digits.
proof fn lemma_decimal_value(n: nat, limit: nat, rest: Seq<char>)
    ensures
        n <= limit ==> digits_value(decimal(n) + rest, 0, limit) == digits_value(rest, n, limit),
        n > limit ==> digits_value(decimal(n) + rest, 0, limit) == Err::<nat, NumeralFault>(
            NumeralFault::TooLarge,
        ),
    decreases n,
{
    let last = digit_char(n % 10);
    if n < 10 {
        let whole = decimal(n) + rest;
        assert(whole[0] == last);
        assert(whole.drop_first() == rest);
    } else {
        let more = seq![last] + rest;
        lemma_decimal_value(n / 10, limit, more);
        assert(decimal(n) + rest == decimal(n / 10) + more);
        assert(more[0] == last);
        assert(more.drop_first() == rest);
        assert((n / 10) * 10 + n % 10 == n);
    }
}

/// A text with a character that is no digit is no number, as long as what stands before the
/// character is not too large.
pub proof fn law_only_digits_are_numbers(n: nat, other: char, rest: Seq<char>, limit: nat)
    requires
        n <= limit,
        !('0' <= other <= '9'),
    ensures
        unsigned_value(decimal(n) + seq![other] + rest, limit) == Err::<nat, NumeralFault>(
            NumeralFault::InvalidDigit,
        ),
        unsigned_value(Seq::empty(), limit) == Err::<nat, NumeralFault>(NumeralFault::Empty),
        unsigned_value(seq!['+'], limit) == Err::<nat, NumeralFault>(NumeralFault::InvalidDigit),
{
    let tail = seq![other] + rest;
    lemma_decimal_digits(n);
    lemma_decimal_value(n, limit, tail);
    assert(decimal(n) + seq![other] + rest == decimal(n) + tail);
    assert((decimal(n) + tail)[0] == decimal(n)[0]);
}

/// A negative number is written as a minus sign and the number it is below zero by.
pub proof fn law_signs_are_written(n: nat)
    ensures
        signed_decimal(n as int) == decimal(n),
        n > 0 ==> signed_decimal(-(n as int)) == seq!['-'] + decimal(n),
{
    reveal_strlit("-");
    assert("-"@ == seq!['-']);
}

} // verus!
