//! Text: decimal numbers, white space, replacement and the bytes of a text.

use vstd::prelude::*;
use vstd::string::*;
use vstd::utf8::*;

verus! {

/// The bytes of a text: its UTF-8 encoding.
pub open spec fn utf8(text: Seq<char>) -> Seq<u8> {
    encode_utf8(text)
}

/// What bytes that are not UTF-8 are read as: the result of `String::from_utf8_lossy`.
pub uninterp spec fn lossy_text(bytes: Seq<u8>) -> Seq<char>;

/// What bytes are shown as: the text that they encode or, where they are not UTF-8, a text with
/// U+FFFD in place of each fault.
pub open spec fn shown(bytes: Seq<u8>) -> Seq<char> {
    if valid_utf8(bytes) {
        decode_utf8(bytes)
    } else {
        lossy_text(bytes)
    }
}

/// Reads bytes as UTF-8 text, with U+FFFD in place of what is not UTF-8.
///
/// Calls `String::from_utf8_lossy` of std. Trusted: bytes that are UTF-8 throughout are read as
/// the text that they encode, and what any others are read as depends on them alone.
#[verifier::external_body]
fn read_lossily(bytes: &[u8]) -> (r: String)
    ensures
        valid_utf8(bytes@) ==> r@ == decode_utf8(bytes@),
        !valid_utf8(bytes@) ==> r@ == lossy_text(bytes@),
{
    String::from_utf8_lossy(bytes).into_owned()
}

/// The text that bytes are shown as.
pub fn show_bytes(bytes: &Vec<u8>) -> (r: String)
    ensures
        r@ == shown(bytes@),
{
    read_lossily(bytes.as_slice())
}

/// The bytes of a text are shown as that text.
pub proof fn law_text_is_shown_as_written(text: Seq<char>)
    ensures
        shown(utf8(text)) == text,
{
    encode_utf8_valid_utf8(text);
    encode_utf8_decode_utf8(text);
}

/// The views of a list of texts.
pub open spec fn texts(list: Seq<String>) -> Seq<Seq<char>> {
    Seq::new(list.len(), |i: int| list[i]@)
}

/// The view of a text that may be missing.
pub open spec fn text_or_none(text: Option<String>) -> Option<Seq<char>> {
    match text {
        Some(text) => Some(text@),
        None => None,
    }
}

/// A copy of a text that may be missing.
pub(crate) fn copy_text(text: &Option<String>) -> (r: Option<String>)
    ensures
        text_or_none(r) == text_or_none(*text),
{
    match text {
        Some(text) => Some(text.clone()),
        None => None,
    }
}

/// A letter of ASCII in lower case; anything else as it is.
pub open spec fn ascii_lower(c: char) -> char {
    if 'A' <= c <= 'Z' {
        (c as u32 + 32) as char
    } else {
        c
    }
}

/// The decimal digit for a number below ten.
pub open spec fn digit(d: nat) -> char {
    ('0' as int + d) as char
}

/// A natural number in decimal, without leading zeros.
pub open spec fn decimal(n: nat) -> Seq<char>
    decreases n,
{
    if n < 10 {
        seq![digit(n)]
    } else {
        decimal(n / 10).push(digit(n % 10))
    }
}

/// An integer in decimal: a minus sign first where it is negative.
pub open spec fn signed_decimal(n: int) -> Seq<char> {
    if n < 0 {
        seq!['-'] + decimal((-n) as nat)
    } else {
        decimal(n as nat)
    }
}

/// Two texts, one behind the other.
pub fn concat_texts(first: &str, second: &str) -> (r: String)
    ensures
        r@ == first@ + second@,
{
    let mut r = first.to_owned();
    r.append(second);
    r
}

/// Three texts, one behind the other.
pub fn concat_three(first: &str, second: &str, third: &str) -> (r: String)
    ensures
        r@ == first@ + second@ + third@,
{
    let mut r = first.to_owned();
    r.append(second);
    r.append(third);
    r
}

/// The bytes of a text.
pub fn text_bytes(text: &str) -> (r: Vec<u8>)
    ensures
        r@ == utf8(text@),
{
    text.as_bytes_vec()
}

/// The digit for a number below ten, as a text.
fn digit_text(d: u64) -> (r: &'static str)
    requires
        d < 10,
    ensures
        r@ == seq![digit(d as nat)],
{
    proof {
        reveal_strlit("0");
        reveal_strlit("1");
        reveal_strlit("2");
        reveal_strlit("3");
        reveal_strlit("4");
        reveal_strlit("5");
        reveal_strlit("6");
        reveal_strlit("7");
        reveal_strlit("8");
        reveal_strlit("9");
    }
    match d {
        0 => "0",
        1 => "1",
        2 => "2",
        3 => "3",
        4 => "4",
        5 => "5",
        6 => "6",
        7 => "7",
        8 => "8",
        _ => "9",
    }
}

/// Writes a number in decimal.
pub fn decimal_text(n: u64) -> (r: String)
    ensures
        r@ == decimal(n as nat),
    decreases n,
{
    if n < 10 {
        digit_text(n).to_owned()
    } else {
        let mut r = decimal_text(n / 10);
        r.append(digit_text(n % 10));
        r
    }
}

/// Writes a signed number in decimal.
pub fn signed_decimal_text(n: i64) -> (r: String)
    ensures
        r@ == signed_decimal(n as int),
{
    if n < 0 {
        proof {
            reveal_strlit("-");
        }
        let magnitude: u64 = (-(n as i128)) as u64;
        concat_texts("-", decimal_text(magnitude).as_str())
    } else {
        decimal_text(n as u64)
    }
}

/// Unicode's White_Space property.
pub open spec fn is_white_space(c: char) -> bool {
    ||| '\u{9}' <= c <= '\u{d}'
    ||| c == ' '
    ||| c == '\u{85}'
    ||| c == '\u{a0}'
    ||| c == '\u{1680}'
    ||| '\u{2000}' <= c <= '\u{200a}'
    ||| c == '\u{2028}'
    ||| c == '\u{2029}'
    ||| c == '\u{202f}'
    ||| c == '\u{205f}'
    ||| c == '\u{3000}'
}

/// `text` without the white space at its start.
pub open spec fn trimmed_start(text: Seq<char>) -> Seq<char>
    decreases text.len(),
{
    if text.len() > 0 && is_white_space(text[0]) {
        trimmed_start(text.skip(1))
    } else {
        text
    }
}

/// `text` without the white space at its end.
pub open spec fn trimmed_end(text: Seq<char>) -> Seq<char>
    decreases text.len(),
{
    if text.len() > 0 && is_white_space(text.last()) {
        trimmed_end(text.drop_last())
    } else {
        text
    }
}

/// `text` without the white space at its two ends.
pub open spec fn trimmed(text: Seq<char>) -> Seq<char> {
    trimmed_end(trimmed_start(text))
}

/// Tells whether a character is white space.
pub fn white_space(c: char) -> (r: bool)
    ensures
        r == is_white_space(c),
{
    ('\u{9}' <= c && c <= '\u{d}') || c == ' ' || c == '\u{85}' || c == '\u{a0}' || c == '\u{1680}'
        || ('\u{2000}' <= c && c <= '\u{200a}') || c == '\u{2028}' || c == '\u{2029}' || c
        == '\u{202f}' || c == '\u{205f}' || c == '\u{3000}'
}

/// The characters of a text, in order.
fn characters(text: &str) -> (r: Vec<char>)
    ensures
        r@ == text@,
{
    let mut r: Vec<char> = Vec::new();
    for c in it: text.chars()
        invariant
            r@ == it.seq().take(it.index()),
            it.seq() == text@,
    {
        r.push(c);
    }
    r
}

/// Takes the white space off the two ends of a text.
pub fn trim_text(text: &str) -> (r: String)
    ensures
        r@ == trimmed(text@),
{
    let cs = characters(text);
    let n: usize = cs.len();
    let mut i: usize = 0;
    proof {
        assert(cs@.skip(0) =~= cs@);
    }
    while i < n && white_space(cs[i])
        invariant
            i <= n,
            n == cs@.len(),
            trimmed_start(cs@.skip(i as int)) == trimmed_start(cs@),
        decreases n - i,
    {
        proof {
            assert(cs@.skip(i as int).skip(1) =~= cs@.skip(i + 1));
        }
        i = i + 1;
    }
    let mut j: usize = n;
    proof {
        assert(cs@.subrange(i as int, n as int) =~= cs@.skip(i as int));
    }
    while j > i && white_space(cs[j - 1])
        invariant
            i <= j <= n,
            n == cs@.len(),
            trimmed_end(cs@.subrange(i as int, j as int)) == trimmed_end(cs@.skip(i as int)),
        decreases j,
    {
        proof {
            assert(cs@.subrange(i as int, j as int).drop_last() =~= cs@.subrange(i as int, j - 1));
        }
        j = j - 1;
    }
    text.substring_char(i, j).to_owned()
}

/// `text` with `to` in place of each occurrence of `from`, found from left to right and
/// without overlap.
pub open spec fn replaced(text: Seq<char>, from: Seq<char>, to: Seq<char>) -> Seq<char>
    recommends
        from.len() > 0,
    decreases text.len(),
{
    if text.len() == 0 || from.len() == 0 {
        text
    } else if from.is_prefix_of(text) {
        to + replaced(text.skip(from.len() as int), from, to)
    } else {
        seq![text[0]] + replaced(text.skip(1), from, to)
    }
}

/// Tells whether the characters `pattern` stand in `text` at position `at`.
fn stands_at(text: &Vec<char>, at: usize, pattern: &Vec<char>) -> (r: bool)
    requires
        at <= text@.len(),
    ensures
        r == pattern@.is_prefix_of(text@.skip(at as int)),
{
    let n: usize = text.len();
    if pattern.len() > n - at {
        return false;
    }
    let mut k: usize = 0;
    while k < pattern.len()
        invariant
            n == text@.len(),
            k <= pattern@.len() <= n - at,
            forall|m: int| 0 <= m < k ==> pattern@[m] == text@[at + m],
        decreases pattern@.len() - k,
    {
        if pattern[k] != text[at + k] {
            proof {
                assert(text@.skip(at as int)[k as int] != pattern@[k as int]);
            }
            return false;
        }
        k = k + 1;
    }
    proof {
        assert(text@.skip(at as int).take(pattern@.len() as int) =~= pattern@);
    }
    true
}

/// Puts `to` in place of each occurrence of `from`.
pub fn replace_text(text: &str, from: &str, to: &str) -> (r: String)
    requires
        from@.len() > 0,
    ensures
        r@ == replaced(text@, from@, to@),
{
    let cs = characters(text);
    let pattern = characters(from);
    let mut r = String::new();
    let mut i: usize = 0;
    proof {
        assert(cs@.skip(0) =~= cs@);
        assert(r@ + replaced(cs@, from@, to@) =~= replaced(cs@, from@, to@));
    }
    while i < cs.len()
        invariant
            i <= cs@.len(),
            cs@ == text@,
            pattern@ == from@,
            pattern@.len() > 0,
            r@ + replaced(cs@.skip(i as int), from@, to@) == replaced(text@, from@, to@),
        decreases cs@.len() - i,
    {
        let ghost before = r@;
        if stands_at(&cs, i, &pattern) {
            r.append(to);
            proof {
                let rest = cs@.skip(i as int);
                assert(rest.skip(from@.len() as int) =~= cs@.skip(i + from@.len()));
                assert((before + to@) + replaced(cs@.skip(i + from@.len()), from@, to@)
                    =~= before + (to@ + replaced(cs@.skip(i + from@.len()), from@, to@)));
            }
            i = i + pattern.len();
        } else {
            r.append(text.substring_char(i, i + 1));
            proof {
                let rest = cs@.skip(i as int);
                assert(text@.subrange(i as int, i + 1) =~= seq![rest[0]]);
                assert(rest.skip(1) =~= cs@.skip(i + 1));
                assert((before + seq![rest[0]]) + replaced(cs@.skip(i + 1), from@, to@) =~= before
                    + (seq![rest[0]] + replaced(cs@.skip(i + 1), from@, to@)));
            }
            i = i + 1;
        }
    }
    proof {
        assert(cs@.skip(i as int).len() == 0);
        assert(r@ + replaced(cs@.skip(i as int), from@, to@) =~= r@);
    }
    r
}

/// A decimal digit.
pub open spec fn is_digit(c: char) -> bool {
    '0' <= c <= '9'
}

/// The number that decimal digits stand for.
pub open spec fn digits_value(digits: Seq<char>) -> nat
    decreases digits.len(),
{
    if digits.len() == 0 {
        0
    } else {
        digits_value(digits.drop_last()) * 10 + (digits.last() as int - '0' as int) as nat
    }
}

/// What a text holds behind a plus sign at its start, if it has one.
pub open spec fn without_plus(text: Seq<char>) -> Seq<char> {
    if text.len() > 0 && text[0] == '+' {
        text.skip(1)
    } else {
        text
    }
}

/// The 16-bit number that a text stands for: an optional plus sign, then one or more decimal
/// digits and nothing else, of a value that fits.
pub open spec fn parsed_u16(text: Seq<char>) -> Option<u16> {
    let digits = without_plus(text);
    if digits.len() > 0 && (forall|i: int| 0 <= i < digits.len() ==> is_digit(digits[i]))
        && digits_value(digits) <= u16::MAX {
        Some(digits_value(digits) as u16)
    } else {
        None
    }
}

/// More digits do not stand for a smaller number.
proof fn lemma_digits_value_grows(digits: Seq<char>, n: int)
    requires
        0 <= n <= digits.len(),
    ensures
        digits_value(digits.take(n)) <= digits_value(digits),
    decreases digits.len() - n,
{
    if n == digits.len() {
        assert(digits.take(n) =~= digits);
    } else {
        lemma_digits_value_grows(digits, n + 1);
        assert(digits.take(n + 1).drop_last() =~= digits.take(n));
    }
}

/// Reads a 16-bit number.
pub fn parse_u16(text: &str) -> (r: Option<u16>)
    ensures
        r == parsed_u16(text@),
{
    let cs = characters(text);
    let start: usize = if cs.len() > 0 && cs[0] == '+' {
        1
    } else {
        0
    };
    let ghost digits = without_plus(text@);
    proof {
        assert(digits =~= cs@.skip(start as int));
    }
    if cs.len() == start {
        return None;
    }
    let mut value: u32 = 0;
    let mut i: usize = start;
    while i < cs.len()
        invariant
            start <= i <= cs@.len(),
            digits == cs@.skip(start as int),
            digits == without_plus(text@),
            forall|k: int| 0 <= k < i - start ==> is_digit(digits[k]),
            value == digits_value(digits.take(i - start)),
            value <= u16::MAX,
        decreases cs@.len() - i,
    {
        let c = cs[i];
        proof {
            assert(digits[i - start] == c);
            assert(digits.take(i - start + 1).drop_last() =~= digits.take(i - start));
            lemma_digits_value_grows(digits, i - start + 1);
        }
        if !('0' <= c && c <= '9') {
            proof {
                assert(!is_digit(digits[i - start]));
            }
            return None;
        }
        value = value * 10 + (c as u32 - '0' as u32);
        if value > 65535 {
            return None;
        }
        i = i + 1;
    }
    proof {
        assert(digits.take(digits.len() as int) =~= digits);
    }
    Some(value as u16)
}

/// A number written in decimal is read back.
pub proof fn law_decimal_is_read_back(n: u16)
    ensures
        parsed_u16(decimal(n as nat)) == Some(n),
{
    lemma_decimal_digits(n as nat);
}

/// A number in decimal is made of digits, at least one, that stand for the number.
pub proof fn lemma_decimal_digits(n: nat)
    ensures
        decimal(n).len() > 0,
        forall|i: int| 0 <= i < decimal(n).len() ==> is_digit(#[trigger] decimal(n)[i]),
        digits_value(decimal(n)) == n,
    decreases n,
{
    reveal_with_fuel(digits_value, 2);
    if n >= 10 {
        lemma_decimal_digits(n / 10);
        assert(decimal(n).drop_last() =~= decimal(n / 10));
    }
}

/// What is left of a text without the white space at its end does not end in white space, and
/// begins as the text does.
proof fn lemma_trimmed_end(text: Seq<char>)
    ensures
        trimmed_end(text).is_prefix_of(text),
        trimmed_end(text).len() > 0 ==> !is_white_space(trimmed_end(text).last()),
    decreases text.len(),
{
    if text.len() > 0 && is_white_space(text.last()) {
        lemma_trimmed_end(text.drop_last());
    }
}

/// What is left of a text without the white space at its start does not begin with white space.
proof fn lemma_trimmed_start(text: Seq<char>)
    ensures
        trimmed_start(text).len() > 0 ==> !is_white_space(trimmed_start(text)[0]),
    decreases text.len(),
{
    if text.len() > 0 && is_white_space(text[0]) {
        lemma_trimmed_start(text.skip(1));
    }
}

/// A text that has been trimmed has no white space at either end.
pub proof fn law_trimmed_text_has_no_space_around(text: Seq<char>)
    ensures
        trimmed(text).len() > 0 ==> !is_white_space(trimmed(text)[0]) && !is_white_space(
            trimmed(text).last(),
        ),
{
    lemma_trimmed_start(text);
    lemma_trimmed_end(trimmed_start(text));
}

/// The text of bytes is told by the bytes alone: it is read back from them. Bytes that are no text
/// are read as std does.
pub proof fn law_bytes_tell_the_text(text: Seq<char>, bytes: Seq<u8>)
    ensures
        valid_utf8(utf8(text)),
        decode_utf8(utf8(text)) == text,
        valid_utf8(bytes) ==> utf8(shown(bytes)) == bytes,
        !valid_utf8(bytes) ==> shown(bytes) == lossy_text(bytes),
{
    encode_utf8_valid_utf8(text);
    encode_utf8_decode_utf8(text);
    if valid_utf8(bytes) {
        decode_utf8_encode_utf8(bytes);
    }
}

/// A number below ten is one digit in decimal. Any other has its tens before its units.
pub proof fn law_decimal_has_tens_before_units(tens: nat, units: nat)
    requires
        units < 10,
    ensures
        decimal(units).len() == 1,
        decimal(units)[0] as int == 48 + units,
        tens > 0 ==> decimal(10 * tens + units) == decimal(tens) + decimal(units),
{
    if tens > 0 {
        let n = 10 * tens + units;
        assert(n / 10 == tens && n % 10 == units);
        assert(decimal(tens).push(digit(units)) =~= decimal(tens) + decimal(units));
    }
}

/// Different numbers are different in decimal.
pub proof fn law_numbers_are_told_apart(n: nat, other: nat)
    ensures
        decimal(n) == decimal(other) <==> n == other,
{
    lemma_decimal_digits(n);
    lemma_decimal_digits(other);
}

/// A minus sign, and nothing else, tells a negative number from its opposite.
pub proof fn law_minus_sign_tells_negative_numbers(n: nat)
    ensures
        signed_decimal(n as int) == decimal(n),
        n > 0 ==> signed_decimal(-n) == seq!['-'] + signed_decimal(n as int),
        signed_decimal(n as int)[0] != '-',
{
    lemma_decimal_digits(n);
    assert(is_digit(decimal(n)[0]));
}

/// A zero before digits changes nothing of the number that they stand for.
proof fn lemma_leading_zero(digits: Seq<char>)
    ensures
        digits_value(seq!['0'] + digits) == digits_value(digits),
    decreases digits.len(),
{
    let all = seq!['0'] + digits;
    if digits.len() == 0 {
        reveal_with_fuel(digits_value, 2);
        assert(all.drop_last() =~= Seq::<char>::empty());
    } else {
        assert(all.drop_last() =~= seq!['0'] + digits.drop_last());
        lemma_leading_zero(digits.drop_last());
    }
}

/// A number of 16 bits is read from its decimal digits, whatever zeros or one plus sign stand
/// before them, and a greater number is not read.
pub proof fn law_only_numbers_that_fit_are_read(n: nat, text: Seq<char>)
    ensures
        n <= 65535 ==> parsed_u16(decimal(n)) == Some(n as u16),
        n > 65535 ==> parsed_u16(decimal(n)) is None,
        text.len() > 0 && text[0] != '+' ==> parsed_u16(seq!['0'] + text) == parsed_u16(text),
        text.len() > 0 && text[0] != '+' ==> parsed_u16(seq!['+'] + text) == parsed_u16(text),
{
    lemma_decimal_digits(n);
    assert(is_digit(decimal(n)[0]));
    if text.len() > 0 && text[0] != '+' {
        let zero = seq!['0'] + text;
        lemma_leading_zero(text);
        assert((seq!['+'] + text).skip(1) =~= text);
        assert(without_plus(zero) == zero);
        if forall|i: int| 0 <= i < text.len() ==> is_digit(text[i]) {
            assert forall|i: int| 0 <= i < zero.len() implies is_digit(zero[i]) by {
                if i > 0 {
                    assert(zero[i] == text[i - 1]);
                }
            }
        } else {
            let i = choose|i: int| 0 <= i < text.len() && !is_digit(text[i]);
            assert(zero[i + 1] == text[i]);
            assert(!is_digit(zero[i + 1]));
        }
    }
}

/// A text is read as a number only where it is made of the digits from `0` to `9`, at least one,
/// but for a plus sign at its start.
pub proof fn law_only_digits_are_read(text: Seq<char>, at: int)
    requires
        parsed_u16(text) is Some,
        0 <= at < text.len(),
    ensures
        48 <= text[at] as int <= 57 || (at == 0 && text[at] == '+' && text.len() > 1),
{
    let digits = without_plus(text);
    if text[0] == '+' {
        if at > 0 {
            assert(digits[at - 1] == text[at]);
            assert(is_digit(digits[at - 1]));
        }
    } else {
        assert(is_digit(digits[at]));
    }
}

/// The empty text is no number, and neither is a plus sign.
pub proof fn law_number_has_a_digit()
    ensures
        parsed_u16(Seq::empty()) is None,
        parsed_u16(seq!['+']) is None,
{
    assert(seq!['+'].skip(1) =~= Seq::<char>::empty());
}

/// In the range of ASCII, white space is the space and the five controls from the tab on.
pub proof fn law_white_space_of_ascii(c: char)
    requires
        c as int <= 127,
    ensures
        is_white_space(c) <==> c as int == 32 || 9 <= c as int <= 13,
{
}

/// Beyond ASCII, white space is what Unicode's White_Space lists there.
pub proof fn law_white_space_beyond_ascii(c: char)
    requires
        c as int > 127,
    ensures
        is_white_space(c) <==> 0x2000 <= c as int <= 0x200a || seq![
            0x85int,
            0xa0,
            0x1680,
            0x2028,
            0x2029,
            0x202f,
            0x205f,
            0x3000,
        ].contains(c as int),
{
    let listed = seq![0x85int, 0xa0, 0x1680, 0x2028, 0x2029, 0x202f, 0x205f, 0x3000];
    assert(listed[0] == 0x85 && listed[1] == 0xa0 && listed[2] == 0x1680 && listed[3] == 0x2028
        && listed[4] == 0x2029 && listed[5] == 0x202f && listed[6] == 0x205f && listed[7]
        == 0x3000);
}

/// Where the text without the white space at its start begins.
proof fn lemma_start_of_trimmed(text: Seq<char>) -> (i: int)
    ensures
        0 <= i <= text.len(),
        trimmed_start(text) == text.skip(i),
        forall|k: int| 0 <= k < i ==> is_white_space(#[trigger] text[k]),
    decreases text.len(),
{
    if text.len() > 0 && is_white_space(text[0]) {
        let rest = text.skip(1);
        let i = lemma_start_of_trimmed(rest);
        assert(rest.skip(i) =~= text.skip(i + 1));
        assert forall|k: int| 0 <= k < i + 1 implies is_white_space(#[trigger] text[k]) by {
            if k > 0 {
                assert(rest[k - 1] == text[k]);
            }
        }
        i + 1
    } else {
        assert(text.skip(0) =~= text);
        0
    }
}

/// Where the text without the white space at its end ends.
proof fn lemma_end_of_trimmed(text: Seq<char>) -> (j: int)
    ensures
        0 <= j <= text.len(),
        trimmed_end(text) == text.take(j),
        forall|k: int| j <= k < text.len() ==> is_white_space(#[trigger] text[k]),
    decreases text.len(),
{
    if text.len() > 0 && is_white_space(text.last()) {
        let rest = text.drop_last();
        let j = lemma_end_of_trimmed(rest);
        assert(rest.take(j) =~= text.take(j));
        assert forall|k: int| j <= k < text.len() implies is_white_space(#[trigger] text[k]) by {
            if k < rest.len() {
                assert(rest[k] == text[k]);
            }
        }
        j
    } else {
        assert(text.take(text.len() as int) =~= text);
        text.len() as int
    }
}

/// Trimming takes white space and nothing else from a text, and nothing from its middle.
pub proof fn law_trimming_takes_white_space_alone(text: Seq<char>)
    ensures
        exists|i: int, j: int|
            {
                &&& 0 <= i <= j <= text.len()
                &&& trimmed(text) == #[trigger] text.subrange(i, j)
                &&& forall|k: int|
                    0 <= k < i || j <= k < text.len() ==> is_white_space(#[trigger] text[k])
            },
{
    let i = lemma_start_of_trimmed(text);
    let rest = text.skip(i);
    let j = lemma_end_of_trimmed(rest);
    assert(rest.take(j) =~= text.subrange(i, i + j));
    assert forall|k: int| 0 <= k < i || i + j <= k < text.len() implies is_white_space(
        #[trigger] text[k],
    ) by {
        if k >= i {
            assert(rest[k - i] == text[k]);
        }
    }
}

/// Whether `pattern` stands in `text` at a position.
pub open spec fn occurs_at(text: Seq<char>, pattern: Seq<char>, at: int) -> bool {
    0 <= at && at + pattern.len() <= text.len() && text.subrange(at, at + pattern.len()) == pattern
}

/// What stands in a text at its start is a prefix of it.
proof fn lemma_occurs_at_start(text: Seq<char>, pattern: Seq<char>)
    ensures
        occurs_at(text, pattern, 0) <==> pattern.is_prefix_of(text),
{
    if pattern.len() <= text.len() {
        assert(text.subrange(0, pattern.len() as int) =~= text.take(pattern.len() as int));
    }
}

/// What stands in the rest of a text stands one position later in the text.
proof fn lemma_occurs_later(text: Seq<char>, pattern: Seq<char>, at: int)
    requires
        text.len() > 0,
        at >= 0,
    ensures
        occurs_at(text.skip(1), pattern, at) <==> occurs_at(text, pattern, at + 1),
{
    if at + 1 + pattern.len() <= text.len() {
        assert(text.skip(1).subrange(at, at + pattern.len()) =~= text.subrange(
            at + 1,
            at + 1 + pattern.len(),
        ));
    }
}

/// The first occurrence is replaced: what stands before it is kept, and what stands behind it is
/// treated in the same way.
pub proof fn law_first_occurrence_is_replaced(
    text: Seq<char>,
    from: Seq<char>,
    to: Seq<char>,
    at: int,
)
    requires
        from.len() > 0,
        occurs_at(text, from, at),
        forall|k: int| 0 <= k < at ==> !occurs_at(text, from, k),
    ensures
        replaced(text, from, to) == text.take(at) + to + replaced(
            text.skip(at + from.len()),
            from,
            to,
        ),
    decreases text.len(),
{
    lemma_occurs_at_start(text, from);
    if at == 0 {
        assert(text.take(0) + to =~= to);
    } else {
        assert(!occurs_at(text, from, 0));
        let rest = text.skip(1);
        lemma_occurs_later(text, from, at - 1);
        assert forall|k: int| 0 <= k < at - 1 implies !occurs_at(rest, from, k) by {
            lemma_occurs_later(text, from, k);
            assert(!occurs_at(text, from, k + 1));
        }
        law_first_occurrence_is_replaced(rest, from, to, at - 1);
        assert(rest.skip(at - 1 + from.len()) =~= text.skip(at + from.len()));
        assert(seq![text[0]] + (rest.take(at - 1) + to + replaced(
            text.skip(at + from.len()),
            from,
            to,
        )) =~= text.take(at) + to + replaced(text.skip(at + from.len()), from, to));
    }
}

/// A text in which nothing is to be replaced is kept.
pub proof fn law_text_without_occurrence_is_kept(text: Seq<char>, from: Seq<char>, to: Seq<char>)
    requires
        from.len() > 0,
        forall|k: int| !occurs_at(text, from, k),
    ensures
        replaced(text, from, to) == text,
    decreases text.len(),
{
    lemma_occurs_at_start(text, from);
    if text.len() > 0 {
        assert(!occurs_at(text, from, 0));
        let rest = text.skip(1);
        assert forall|k: int| !occurs_at(rest, from, k) by {
            if k >= 0 {
                lemma_occurs_later(text, from, k);
                assert(!occurs_at(text, from, k + 1));
            }
        }
        law_text_without_occurrence_is_kept(rest, from, to);
        assert(seq![text[0]] + rest =~= text);
    }
}

/// A letter from `A` to `Z` is put in lower case, and no other character is changed.
pub proof fn law_lower_case_changes_capitals_alone(c: char)
    ensures
        65 <= c as int <= 90 ==> ascii_lower(c) as int == c as int + 32,
        !(65 <= c as int <= 90) ==> ascii_lower(c) == c,
        ascii_lower(ascii_lower(c)) == ascii_lower(c),
{
}

/// A list of texts is seen item by item, in its order.
pub proof fn law_texts_are_seen_one_by_one(list: Seq<String>, i: int)
    requires
        0 <= i < list.len(),
    ensures
        texts(list).len() == list.len(),
        texts(list)[i] == list[i]@,
        text_or_none(Some(list[i])) == Some(list[i]@),
        text_or_none(None) is None,
{
}

} // verus!
