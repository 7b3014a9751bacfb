//! Text: comparing, splitting and building strings, over their characters.

use vstd::prelude::*;
use vstd::utf8;

verus! {

broadcast use {
    vstd::utf8::encode_utf8_decode_utf8,
    vstd::utf8::decode_utf8_encode_utf8,
    vstd::utf8::encode_utf8_valid_utf8,
};

/// `std::string::String::push` puts one character behind the text.
pub assume_specification[ String::push ](s: &mut String, c: char)
    ensures
        final(s)@ == old(s)@.push(c),
;

/// The error of `core::str::from_utf8`.
#[verifier::external_type_specification]
#[verifier::external_body]
pub struct ExUtf8Error(core::str::Utf8Error);

/// `core::str::from_utf8` succeeds on exactly the byte strings that are UTF-8, and then gives the
/// text that they encode.
pub assume_specification[ core::str::from_utf8 ](v: &[u8]) -> (r: Result<
    &str,
    core::str::Utf8Error,
>)
    ensures
        r is Ok <==> utf8::valid_utf8(v@),
        r matches Ok(s) ==> utf8::encode_utf8(s@) == v@,
;

/// The text that `bytes` encode, if they are UTF-8.
pub open spec fn utf8_text(bytes: Seq<u8>) -> Option<Seq<char>> {
    if utf8::valid_utf8(bytes) {
        Some(utf8::decode_utf8(bytes))
    } else {
        None
    }
}

/// Reads bytes as UTF-8.
pub fn from_utf8(bytes: &[u8]) -> (r: Option<String>)
    ensures
        r is Some <==> utf8_text(bytes@) is Some,
        r matches Some(s) ==> utf8_text(bytes@) == Some(s@),
        r matches Some(s) ==> utf8::encode_utf8(s@) == bytes@,
{
    match core::str::from_utf8(bytes) {
        Ok(s) => Some(s.to_owned()),
        Err(_) => None,
    }
}

/// Whether two byte strings are the same.
pub fn bytes_eq(a: &[u8], b: &[u8]) -> (r: bool)
    ensures
        r == (a@ == b@),
{
    if a.len() != b.len() {
        return false;
    }
    for i in 0..a.len()
        invariant
            a@.len() == b@.len(),
            forall|j: int| 0 <= j < i ==> a@[j] == b@[j],
    {
        if a[i] != b[i] {
            return false;
        }
    }
    assert(a@ =~= b@);
    true
}

/// Whether two texts are the same.
pub fn str_eq(a: &str, b: &str) -> (r: bool)
    ensures
        r == (a@ == b@),
{
    let r = bytes_eq(a.as_bytes(), b.as_bytes());
    assert(utf8::decode_utf8(utf8::encode_utf8(a@)) == a@);
    assert(utf8::decode_utf8(utf8::encode_utf8(b@)) == b@);
    r
}

/// The characters of a text.
pub fn chars_of(s: &str) -> (r: Vec<char>)
    ensures
        r@ == s@,
{
    let mut r: Vec<char> = Vec::new();
    for c in it: s.chars()
        invariant
            it.seq() == s@,
            r@ == s@.take(it.index() as int),
    {
        r.push(c);
    }
    assert(s@.take(s@.len() as int) =~= s@);
    r
}

/// The text with the characters from `from` up to, but not including, `to`.
pub fn string_of(chars: &Vec<char>, from: usize, to: usize) -> (r: String)
    requires
        from <= to <= chars@.len(),
    ensures
        r@ == chars@.subrange(from as int, to as int),
{
    let mut r = String::new();
    for i in from..to
        invariant
            from <= to <= chars@.len(),
            r@ == chars@.subrange(from as int, i as int),
    {
        r.push(chars[i]);
        assert(r@ =~= chars@.subrange(from as int, i + 1));
    }
    r
}

/// The bytes of a text.
pub fn bytes_of(s: &str) -> (r: Vec<u8>)
    ensures
        r@ == utf8::encode_utf8(s@),
{
    s.as_bytes_vec()
}

/// Whether `s` starts with `prefix`.
pub open spec fn has_prefix(s: Seq<char>, prefix: Seq<char>) -> bool {
    s.len() >= prefix.len() && s.take(prefix.len() as int) == prefix
}

/// Whether `s` starts with `prefix`.
pub fn starts_with(s: &str, prefix: &str) -> (r: bool)
    ensures
        r == has_prefix(s@, prefix@),
{
    let chars = chars_of(s);
    let wanted = chars_of(prefix);
    if chars.len() < wanted.len() {
        return false;
    }
    for i in 0..wanted.len()
        invariant
            chars@ == s@,
            wanted@ == prefix@,
            chars@.len() >= wanted@.len(),
            forall|j: int| 0 <= j < i ==> chars@[j] == wanted@[j],
    {
        if chars[i] != wanted[i] {
            assert(s@.take(prefix@.len() as int)[i as int] != prefix@[i as int]);
            return false;
        }
    }
    assert(s@.take(prefix@.len() as int) =~= prefix@);
    true
}

/// What stands behind a leading `c`, if there is one.
pub open spec fn without_first(s: Seq<char>, c: char) -> Option<Seq<char>> {
    if s.len() > 0 && s[0] == c {
        Some(s.skip(1))
    } else {
        None
    }
}

/// Takes a leading `c` off.
pub fn strip_first(s: &str, c: char) -> (r: Option<String>)
    ensures
        r is Some <==> without_first(s@, c) is Some,
        r matches Some(t) ==> without_first(s@, c) == Some(t@),
{
    let chars = chars_of(s);
    if chars.len() > 0 && chars[0] == c {
        let t = string_of(&chars, 1, chars.len());
        assert(t@ =~= s@.skip(1));
        Some(t)
    } else {
        None
    }
}

/// What stands behind the last `c` in `s`; all of `s` where there is none.
pub open spec fn after_last(s: Seq<char>, c: char) -> Seq<char>
    decreases s.len(),
{
    if s.len() == 0 || s.last() == c {
        Seq::empty()
    } else {
        after_last(s.drop_last(), c).push(s.last())
    }
}

/// What [`after_last`] takes is the longest end of `s` without `c`.
pub proof fn lemma_after_last(s: Seq<char>, c: char, from: int)
    requires
        0 <= from <= s.len(),
        forall|i: int| from <= i < s.len() ==> s[i] != c,
        from == 0 || s[from - 1] == c,
    ensures
        after_last(s, c) == s.skip(from),
    decreases s.len(),
{
    if s.len() == from {
        assert(s.skip(from) =~= Seq::empty());
    } else {
        assert(s.last() == s[s.len() - 1]);
        lemma_after_last(s.drop_last(), c, from);
        assert(s.skip(from) =~= s.drop_last().skip(from).push(s.last()));
    }
}

/// What stands behind the last `c` in `s`; all of `s` where there is none.
pub fn take_after_last(s: &str, c: char) -> (r: String)
    ensures
        r@ == after_last(s@, c),
{
    let chars = chars_of(s);
    let mut from = chars.len();
    while from > 0 && chars[from - 1] != c
        invariant
            from <= chars@.len(),
            forall|i: int| from <= i < chars@.len() ==> chars@[i] != c,
        decreases from,
    {
        from = from - 1;
    }
    proof {
        lemma_after_last(s@, c, from as int);
    }
    let r = string_of(&chars, from, chars.len());
    assert(r@ =~= s@.skip(from as int));
    r
}

/// A line without the carriage return that stands before its line feed.
pub open spec fn without_carriage_return(line: Seq<char>) -> Seq<char> {
    if line.len() > 0 && line.last() == '\r' {
        line.drop_last()
    } else {
        line
    }
}

/// The lines of `s` that a line feed ends, and the characters behind the last line feed.
pub open spec fn ended_lines(s: Seq<char>) -> (Seq<Seq<char>>, Seq<char>)
    decreases s.len(),
{
    if s.len() == 0 {
        (Seq::empty(), Seq::empty())
    } else {
        let (lines, rest) = ended_lines(s.drop_last());
        if s.last() == '\n' {
            (lines.push(without_carriage_return(rest)), Seq::empty())
        } else {
            (lines, rest.push(s.last()))
        }
    }
}

/// The lines of `s`. A line ends with a line feed, or with a carriage return and a line feed; the
/// last line may lack its end.
pub open spec fn lines(s: Seq<char>) -> Seq<Seq<char>> {
    let (lines, rest) = ended_lines(s);
    if rest.len() == 0 {
        lines
    } else {
        lines.push(rest)
    }
}

/// The views of some texts.
pub open spec fn texts(strings: Seq<String>) -> Seq<Seq<char>> {
    strings.map_values(|s: String| s@)
}

/// The bytes of two texts, one behind the other, are the bytes of the first and those of the second.
pub proof fn lemma_encode_concat(a: Seq<char>, b: Seq<char>)
    ensures
        utf8::encode_utf8(a + b) == utf8::encode_utf8(a) + utf8::encode_utf8(b),
    decreases a.len(),
{
    if a.len() == 0 {
        assert(a + b =~= b);
        assert(utf8::encode_utf8(a) =~= Seq::empty());
        assert(utf8::encode_utf8(a) + utf8::encode_utf8(b) =~= utf8::encode_utf8(b));
    } else {
        assert((a + b).drop_first() =~= a.drop_first() + b);
        lemma_encode_concat(a.drop_first(), b);
        assert(utf8::encode_utf8(a + b) =~= utf8::encode_utf8(a) + utf8::encode_utf8(b));
    }
}

/// The `Debug` form of a text: in quotes, with what is special in it escaped.
pub uninterp spec fn quoted(s: Seq<char>) -> Seq<char>;

/// The `Debug` form of `str`.
#[verifier::external_body]
pub(crate) fn quote(s: &str) -> (r: String)
    ensures
        r@ == quoted(s@),
{
    format!("{s:?}")
}

/// The view of an optional text.
pub open spec fn optional(s: Option<String>) -> Option<Seq<char>> {
    match s {
        Some(s) => Some(s@),
        None => None,
    }
}

/// Splits a text into its lines.
pub fn split_lines(s: &str) -> (r: Vec<String>)
    ensures
        texts(r@) == lines(s@),
{
    let chars = chars_of(s);
    let mut r: Vec<String> = Vec::new();
    let mut from: usize = 0;
    for i in 0..chars.len()
        invariant
            chars@ == s@,
            from <= i <= chars@.len(),
            ended_lines(s@.take(i as int)) == (texts(r@), s@.subrange(from as int, i as int)),
    {
        assert(s@.take(i + 1).drop_last() =~= s@.take(i as int));
        assert(s@.take(i + 1).last() == s@[i as int]);
        if chars[i] == '\n' {
            let to: usize = if i > from && chars[i - 1] == '\r' {
                i - 1
            } else {
                i
            };
            let line = string_of(&chars, from, to);
            assert(line@ =~= without_carriage_return(s@.subrange(from as int, i as int)));
            let ghost before = r@;
            r.push(line);
            assert(texts(r@) =~= texts(before).push(line@));
            from = i + 1;
            assert(s@.subrange(from as int, i + 1) =~= Seq::empty());
        } else {
            assert(s@.subrange(from as int, i + 1) =~= s@.subrange(from as int, i as int).push(
                s@[i as int],
            ));
        }
    }
    assert(s@.take(s@.len() as int) =~= s@);
    if from < chars.len() {
        let line = string_of(&chars, from, chars.len());
        let ghost before = r@;
        r.push(line);
        assert(texts(r@) =~= texts(before).push(line@));
    }
    r
}

/// Characters other than line feeds only make the last line longer.
pub proof fn lemma_ended_lines_append(s: Seq<char>, more: Seq<char>)
    requires
        !more.contains('\n'),
    ensures
        ended_lines(s + more) == (ended_lines(s).0, ended_lines(s).1 + more),
    decreases more.len(),
{
    if more.len() == 0 {
        assert(s + more =~= s);
        assert(ended_lines(s).1 + more =~= ended_lines(s).1);
    } else {
        let less = more.drop_last();
        assert forall|c: char| less.contains(c) implies more.contains(c) by {
            let i = choose|i: int| 0 <= i < less.len() && less[i] == c;
            assert(more[i] == c);
        }
        lemma_ended_lines_append(s, less);
        assert((s + more).drop_last() =~= s + less);
        assert(more.contains(more.last()));
        assert((ended_lines(s).1 + less).push(more.last()) =~= ended_lines(s).1 + more);
    }
}

/// A line feed ends the line that stands before it.
pub proof fn lemma_ended_lines_line(s: Seq<char>, line: Seq<char>)
    requires
        !line.contains('\n'),
        ended_lines(s).1.len() == 0,
        line.len() > 0 ==> line.last() != '\r',
    ensures
        ended_lines(s + line.push('\n')) == (ended_lines(s).0.push(line), Seq::<char>::empty()),
{
    lemma_ended_lines_append(s, line);
    assert((s + line.push('\n')).drop_last() =~= s + line);
    assert(ended_lines(s).1 + line =~= line);
}

/// The digit that stands for `d`.
pub open spec fn digit(d: nat) -> char {
    ('0' as nat + d) as char
}

/// `n` in decimal digits, without leading zeros.
pub open spec fn decimal(n: nat) -> Seq<char>
    decreases n,
{
    if n < 10 {
        seq![digit(n)]
    } else {
        decimal(n / 10).push(digit(n % 10))
    }
}

/// Writes `n` in decimal digits.
pub fn to_decimal(n: u64) -> (r: String)
    ensures
        r@ == decimal(n as nat),
    decreases n,
{
    let mut r = if n < 10 {
        String::new()
    } else {
        to_decimal(n / 10)
    };
    let last: u8 = 48 + (n % 10) as u8;
    r.push(last as char);
    assert(n < 10 ==> r@ =~= seq![digit(n as nat)]);
    r
}

/// Whether `c` is a decimal digit.
pub open spec fn is_digit(c: char) -> bool {
    '0' <= c <= '9'
}

/// The number that the digits `s` stand for, read from the left; or what stops the reading first: a
/// character that is no digit, or a number that exceeds `max`.
pub open spec fn digits_read(s: Seq<char>, max: nat) -> Result<nat, Seq<char>>
    decreases s.len(),
{
    if s.len() == 0 {
        Ok(0)
    } else {
        match digits_read(s.drop_last(), max) {
            Err(err) => Err(err),
            Ok(value) => if !is_digit(s.last()) {
                Err("invalid digit found in string"@)
            } else {
                let value = value * 10 + (s.last() as nat - '0' as nat) as nat;
                if value <= max {
                    Ok(value)
                } else {
                    Err("number too large to fit in target type"@)
                }
            },
        }
    }
}

/// The number that `s` stands for: decimal digits, at least one, behind a `+` or not, for a number
/// of at most `max`.
pub open spec fn parsed_unsigned(s: Seq<char>, max: nat) -> Result<nat, Seq<char>> {
    let digits = if s.len() > 0 && s[0] == '+' {
        s.skip(1)
    } else {
        s
    };
    if s.len() == 0 {
        Err("cannot parse integer from empty string"@)
    } else if digits.len() == 0 {
        Err("invalid digit found in string"@)
    } else {
        digits_read(digits, max)
    }
}

/// Reads a number of at most `max`.
pub fn parse_unsigned(s: &str, max: u64) -> (r: Result<u64, &'static str>)
    ensures
        match r {
            Ok(value) => parsed_unsigned(s@, max as nat) == Ok::<nat, Seq<char>>(value as nat)
                && value <= max,
            Err(err) => parsed_unsigned(s@, max as nat) == Err::<nat, Seq<char>>(err@),
        },
{
    let chars = chars_of(s);
    if chars.len() == 0 {
        return Err("cannot parse integer from empty string");
    }
    let from: usize = if chars[0] == '+' {
        1
    } else {
        0
    };
    if from == chars.len() {
        return Err("invalid digit found in string");
    }
    let ghost digits = s@.skip(from as int);
    assert(from == 0 ==> digits =~= s@);
    let mut value: u64 = 0;
    for i in from..chars.len()
        invariant
            chars@ == s@,
            from <= i <= chars@.len(),
            digits == s@.skip(from as int),
            parsed_unsigned(s@, max as nat) == digits_read(digits, max as nat),
            digits_read(digits.take(i - from), max as nat) == Ok::<nat, Seq<char>>(value as nat),
            value <= max,
    {
        let c = chars[i];
        assert(digits.take(i + 1 - from).drop_last() =~= digits.take(i - from));
        assert(digits.take(i + 1 - from).last() == c);
        if c < '0' || c > '9' {
            proof {
                lemma_digits_read_take(digits, max as nat, i + 1 - from);
            }
            return Err("invalid digit found in string");
        }
        let d: u64 = (c as u32 - '0' as u32) as u64;
        if d > max || value > (max - d) / 10 {
            assert(value * 10 + d > max);
            proof {
                lemma_digits_read_take(digits, max as nat, i + 1 - from);
            }
            return Err("number too large to fit in target type");
        }
        value = value * 10 + d;
    }
    assert(digits.take(digits.len() as int) =~= digits);
    Ok(value)
}

/// What stops the reading of a text stops the reading of what it is the start of.
proof fn lemma_digits_read_take(s: Seq<char>, max: nat, n: int)
    requires
        0 <= n <= s.len(),
        digits_read(s.take(n), max) is Err,
    ensures
        digits_read(s, max) == digits_read(s.take(n), max),
    decreases s.len() - n,
{
    if n == s.len() {
        assert(s.take(n) =~= s);
    } else {
        assert(s.take(n + 1).drop_last() =~= s.take(n));
        lemma_digits_read_take(s, max, n + 1);
    }
}

/// Reading a number gives back what writing it wrote.
pub proof fn decimal_reads_back(n: nat, max: nat)
    requires
        n <= max,
    ensures
        parsed_unsigned(decimal(n), max) == Ok::<nat, Seq<char>>(n),
{
    lemma_decimal_digits(n, max);
}

/// The digits of a number stand for the number, and there is at least one.
proof fn lemma_decimal_digits(n: nat, max: nat)
    requires
        n <= max,
    ensures
        digits_read(decimal(n), max) == Ok::<nat, Seq<char>>(n),
        decimal(n).len() > 0,
        is_digit(decimal(n)[0]),
    decreases n,
{
    if n < 10 {
        assert(decimal(n).drop_last() =~= Seq::<char>::empty());
        reveal_with_fuel(digits_read, 2);
    } else {
        lemma_decimal_digits(n / 10, max);
        assert(decimal(n).drop_last() =~= decimal(n / 10));
        assert(decimal(n)[0] == decimal(n / 10)[0]);
    }
}

/// The character in lower case, where it is a letter of ASCII.
pub open spec fn lower(c: char) -> char {
    if 'A' <= c <= 'Z' {
        (c as u32 + 32) as char
    } else {
        c
    }
}

/// Whether two texts are the same but for the case of the letters of ASCII.
pub open spec fn same_but_for_case(a: Seq<char>, b: Seq<char>) -> bool {
    a.map_values(|c: char| lower(c)) == b.map_values(|c: char| lower(c))
}

/// The character in lower case, where it is a letter of ASCII.
fn to_lower(c: char) -> (r: char)
    ensures
        r == lower(c),
{
    if 'A' <= c && c <= 'Z' {
        let code: u8 = c as u8 + 32;
        code as char
    } else {
        c
    }
}

/// Whether two texts are the same but for the case of the letters of ASCII.
pub fn eq_ignore_case(a: &str, b: &str) -> (r: bool)
    ensures
        r == same_but_for_case(a@, b@),
{
    let left = chars_of(a);
    let right = chars_of(b);
    let ghost lowered_left = a@.map_values(|c: char| lower(c));
    let ghost lowered_right = b@.map_values(|c: char| lower(c));
    if left.len() != right.len() {
        assert(lowered_left.len() != lowered_right.len());
        return false;
    }
    for i in 0..left.len()
        invariant
            left@ == a@,
            right@ == b@,
            left@.len() == right@.len(),
            lowered_left == a@.map_values(|c: char| lower(c)),
            lowered_right == b@.map_values(|c: char| lower(c)),
            forall|j: int| 0 <= j < i ==> lowered_left[j] == lowered_right[j],
    {
        if to_lower(left[i]) != to_lower(right[i]) {
            assert(lowered_left[i as int] != lowered_right[i as int]);
            return false;
        }
    }
    assert(lowered_left =~= lowered_right);
    true
}

/// What is wrong with bytes that are not UTF-8.
pub uninterp spec fn utf8_error(bytes: Seq<u8>) -> Seq<char>;

/// The error of `core::str::from_utf8`, as a text.
#[verifier::external_body]
pub(crate) fn describe_utf8_error(bytes: &[u8]) -> (r: String)
    requires
        !utf8::valid_utf8(bytes@),
    ensures
        r@ == utf8_error(bytes@),
{
    core::str::from_utf8(bytes).unwrap_err().to_string()
}

/// A text starts with a prefix if and only if it is the prefix with something behind it.
pub proof fn a_prefix_stands_first(s: Seq<char>, prefix: Seq<char>, rest: Seq<char>)
    ensures
        has_prefix(prefix + rest, prefix),
        has_prefix(s, prefix) <==> prefix.len() <= s.len() && s == prefix + s.skip(
            prefix.len() as int,
        ),
{
    assert((prefix + rest).take(prefix.len() as int) =~= prefix);
    if prefix.len() <= s.len() {
        assert(s =~= s.take(prefix.len() as int) + s.skip(prefix.len() as int));
        assert((prefix + s.skip(prefix.len() as int)).take(prefix.len() as int) =~= prefix);
    }
}

/// What stands behind a leading character is the rest of the text, and only that character comes off.
pub proof fn a_leading_character_comes_off(s: Seq<char>, c: char, other: char)
    ensures
        without_first(seq![c] + s, c) == Some(s),
        c != other ==> without_first(seq![other] + s, c) is None,
        without_first(Seq::<char>::empty(), c) is None,
{
    assert((seq![c] + s).skip(1) =~= s);
}

/// What stands behind the last of some characters holds none of them, and the text before it, if there is
/// one, ends with that character.
pub proof fn what_stands_last_is_taken(before: Seq<char>, last: Seq<char>, c: char)
    requires
        !last.contains(c),
    ensures
        after_last(before + seq![c] + last, c) == last,
        after_last(last, c) == last,
{
    let s = before + seq![c] + last;
    let from = before.len() + 1;
    assert forall|i: int| from <= i < s.len() implies s[i] != c by {
        assert(s[i] == last[i - from]);
        assert(last.contains(last[i - from]));
    }
    lemma_after_last(s, c, from as int);
    assert(s.skip(from as int) =~= last);
    assert forall|i: int| 0 <= i < last.len() implies last[i] != c by {
        assert(last.contains(last[i]));
    }
    lemma_after_last(last, c, 0);
    assert(last.skip(0) =~= last);
}

/// A line ends with a line feed, or with a carriage return and a line feed, and neither belongs to it. The
/// last line may lack its end.
pub proof fn lines_end_with_line_feeds(before: Seq<char>, line: Seq<char>)
    requires
        before.len() == 0 || before.last() == '\n',
        !line.contains('\n'),
    ensures
        lines(Seq::<char>::empty()).len() == 0,
        (line.len() == 0 || line.last() != '\r') ==> lines(before + line + seq!['\n']) == lines(
            before,
        ).push(line),
        lines(before + line + seq!['\r', '\n']) == lines(before).push(line),
        line.len() > 0 ==> lines(before + line) == lines(before).push(line),
{
    assert(ended_lines(before).1.len() == 0);
    lemma_ended_lines_append(before, line);
    assert(ended_lines(before).1 + line =~= line);
    let ended = before + line + seq!['\n'];
    assert(ended.drop_last() =~= before + line);
    let long = line + seq!['\r'];
    assert forall|i: int| 0 <= i < long.len() implies long[i] != '\n' by {
        if i < line.len() {
            assert(line.contains(line[i]));
        }
    }
    lemma_ended_lines_append(before, long);
    assert(ended_lines(before).1 + long =~= long);
    let returned = before + line + seq!['\r', '\n'];
    assert(returned.drop_last() =~= before + long);
    assert(long.drop_last() =~= line);
}

/// The digits of a number: one more digit makes it ten times as large and adds what the digit stands for,
/// and there is no leading zero.
pub proof fn a_number_is_its_digits(n: nat, d: nat)
    requires
        d < 10,
    ensures
        n > 0 ==> decimal(n * 10 + d) == decimal(n).push((48 + d) as char),
        decimal(d) == seq![(48 + d) as char],
        n > 0 ==> decimal(n)[0] != '0',
    decreases n,
{
    if n > 0 {
        assert((n * 10 + d) / 10 == n);
        assert((n * 10 + d) % 10 == d);
        lemma_no_leading_zero(n);
    }
}

/// The first digit of a number that is not zero is not zero.
proof fn lemma_no_leading_zero(n: nat)
    requires
        n > 0,
    ensures
        decimal(n).len() > 0,
        decimal(n)[0] != '0',
    decreases n,
{
    if n >= 10 {
        lemma_no_leading_zero(n / 10);
        assert(decimal(n)[0] == decimal(n / 10)[0]);
    }
}

/// A number is read digit by digit: one more digit makes it ten times as large and adds what the digit
/// stands for. Anything else than a digit, or a number beyond the limit, stops the reading for good. A
/// plus sign may stand in front, and alone it is no number.
pub proof fn a_number_is_read_digit_by_digit(s: Seq<char>, c: char, max: nat)
    ensures
        parsed_unsigned(Seq::<char>::empty(), max) is Err,
        parsed_unsigned(seq!['+'], max) is Err,
        '0' <= c <= '9' && c as nat - 48 <= max ==> parsed_unsigned(seq![c], max) == Ok::<
            nat,
            Seq<char>,
        >((c as nat - 48) as nat),
        s.len() > 0 && s[0] != '+' ==> parsed_unsigned(seq!['+'] + s, max) == parsed_unsigned(s, max),
        parsed_unsigned(s, max) matches Ok(value) ==> value <= max && parsed_unsigned(s.push(c), max)
            == if !('0' <= c <= '9') {
            Err::<nat, Seq<char>>("invalid digit found in string"@)
        } else if value * 10 + (c as nat - 48) > max {
            Err("number too large to fit in target type"@)
        } else {
            Ok((value * 10 + (c as nat - 48)) as nat)
        },
        s.len() > 0 && s != seq!['+'] && parsed_unsigned(s, max) is Err ==> parsed_unsigned(
            s.push(c),
            max,
        ) == parsed_unsigned(s, max),
{
    reveal_with_fuel(digits_read, 2);
    assert(seq![c].drop_last() =~= Seq::<char>::empty());
    assert((seq!['+'] + s).skip(1) =~= s);
    if s.len() > 0 && s[0] == '+' {
        assert(s.push(c).skip(1) =~= s.skip(1).push(c));
        assert(s.skip(1).push(c).drop_last() =~= s.skip(1));
        if s.skip(1).len() == 0 {
            assert(s =~= seq!['+']);
        }
        lemma_digits_bounded(s.skip(1), max);
    } else {
        assert(s.push(c).drop_last() =~= s);
        lemma_digits_bounded(s, max);
    }
}

/// A number that is read is within its limit.
proof fn lemma_digits_bounded(s: Seq<char>, max: nat)
    ensures
        digits_read(s, max) matches Ok(value) ==> value <= max,
    decreases s.len(),
{
    if s.len() > 0 {
        lemma_digits_bounded(s.drop_last(), max);
    }
}

/// Two texts are the same but for case if and only if they are as long as each other, and each character
/// of the one is that of the other, or the same letter of ASCII in the other case.
pub proof fn only_the_case_of_letters_is_passed_over(a: Seq<char>, b: Seq<char>)
    ensures
        same_but_for_case(a, b) <==> a.len() == b.len() && forall|i: int|
            0 <= i < a.len() ==> {
                ||| #[trigger] a[i] == b[i]
                ||| 'A' <= a[i] <= 'Z' && b[i] as u32 == a[i] as u32 + 32
                ||| 'A' <= b[i] <= 'Z' && a[i] as u32 == b[i] as u32 + 32
            },
{
    let la = a.map_values(|c: char| lower(c));
    let lb = b.map_values(|c: char| lower(c));
    if same_but_for_case(a, b) {
        assert(la.len() == lb.len());
        assert forall|i: int| 0 <= i < a.len() implies {
            ||| #[trigger] a[i] == b[i]
            ||| 'A' <= a[i] <= 'Z' && b[i] as u32 == a[i] as u32 + 32
            ||| 'A' <= b[i] <= 'Z' && a[i] as u32 == b[i] as u32 + 32
        } by {
            assert(la[i] == lb[i]);
        }
    } else if a.len() == b.len() {
        assert(!(la =~= lb));
        let i = choose|i: int| 0 <= i < a.len() && la[i] != lb[i];
        assert(a[i] != b[i]);
    }
}

/// Bytes are a text if and only if they are what the text is encoded as.
pub proof fn bytes_are_the_text_that_they_encode(s: Seq<char>, bytes: Seq<u8>)
    ensures
        utf8_text(utf8::encode_utf8(s)) == Some(s),
        utf8_text(bytes) matches Some(t) ==> utf8::encode_utf8(t) == bytes,
        utf8_text(bytes) is Some <==> utf8::valid_utf8(bytes),
{
}

/// The views of some texts are the views of each of them, at its place, and an optional text is there if and
/// only if its view is.
pub proof fn each_text_has_its_view(items: Seq<String>, item: String)
    ensures
        texts(items).len() == items.len(),
        forall|i: int| 0 <= i < items.len() ==> #[trigger] texts(items)[i] == items[i]@,
        optional(Some(item)) == Some(item@),
        optional(None) is None,
{
}

} // verus!
