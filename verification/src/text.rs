//! Characters and texts: character classes, comparison, and the conversion
//! between `String` and sequences of characters.

use vstd::prelude::*;
use vstd::string::*;

verus! {

/// `String::push` appends one character to the end of the string.
pub assume_specification[ std::string::String::push ](s: &mut std::string::String, ch: char)
    ensures
        final(s)@ == old(s)@.push(ch),
;

/// `str`'s `==`: two string slices are equal when they hold the same
/// characters in the same order.
pub assume_specification[ <str as PartialEq>::eq ](a: &str, b: &str) -> (r: bool)
    ensures
        r == (a@ == b@),
;

/// Whether two texts hold the same characters.
pub fn text_eq(a: &str, b: &str) -> (r: bool)
    ensures
        r == (a@ == b@),
{
    a.eq(b)
}

/// The views of a list of texts, in order.
pub open spec fn texts_view(texts: Seq<String>) -> Seq<Seq<char>> {
    Seq::new(texts.len(), |i: int| texts[i]@)
}

/// The characters of a text, in order.
pub fn chars_of(s: &str) -> (v: Vec<char>)
    ensures
        v@ == s@,
{
    broadcast use vstd::string::group_string_axioms;

    let mut v: Vec<char> = Vec::new();
    for c in it: s.chars()
        invariant
            it.seq() == s@,
            v@ == it.seq().subrange(0, it.index() as int),
    {
        v.push(c);
    }
    v
}


/// The low 16 bits of a character's code point.
pub open spec fn char_word(c: char) -> u16 {
    ((c as int) % 0x10000) as u16
}

/// Computes [`char_word`].
pub fn word_of_char(c: char) -> (w: u16)
    ensures
        w == char_word(c),
{
    ((c as u32) % 0x10000) as u16
}

/// The 16-bit word that stands for an integer: its remainder modulo 65536,
/// which for a negative number is its two's-complement encoding.
pub open spec fn int_word(n: int) -> u16 {
    (n % 0x10000) as u16
}

/// Computes [`int_word`] of a 32-bit number.
pub fn word_of_i32(n: i32) -> (w: u16)
    ensures
        w == int_word(n as int),
{
    let shifted: i64 = n as i64 + 0x1_0000_0000;
    (shifted % 0x10000) as u16
}

/// The decimal digits: `0` to `9`.
pub open spec fn is_digit(c: char) -> bool {
    '0' <= c && c <= '9'
}

/// The hexadecimal digits: `0` to `9`, `a` to `f` and `A` to `F`.
pub open spec fn is_hex_digit(c: char) -> bool {
    is_digit(c) || ('a' <= c && c <= 'f') || ('A' <= c && c <= 'F')
}

/// The value of a decimal digit.
pub open spec fn digit_value(c: char) -> int {
    c as int - 48
}

/// The value of a hexadecimal digit, in either case.
pub open spec fn hex_digit_value(c: char) -> int {
    if is_digit(c) {
        c as int - 48
    } else if 'a' <= c && c <= 'f' {
        c as int - 87
    } else {
        c as int - 55
    }
}

/// Whether a text holds decimal digits only.
pub open spec fn all_digits(s: Seq<char>) -> bool {
    forall|i: int| 0 <= i < s.len() ==> is_digit(#[trigger] s[i])
}

/// Whether a text holds hexadecimal digits only.
pub open spec fn all_hex_digits(s: Seq<char>) -> bool {
    forall|i: int| 0 <= i < s.len() ==> is_hex_digit(#[trigger] s[i])
}

/// The number that a row of decimal digits writes, most significant first.
pub open spec fn decimal_value(s: Seq<char>) -> int
    decreases s.len(),
{
    if s.len() == 0 {
        0
    } else {
        decimal_value(s.drop_last()) * 10 + digit_value(s.last())
    }
}

/// The number that a row of hexadecimal digits writes, most significant
/// first.
pub open spec fn hex_value(s: Seq<char>) -> int
    decreases s.len(),
{
    if s.len() == 0 {
        0
    } else {
        hex_value(s.drop_last()) * 16 + hex_digit_value(s.last())
    }
}

/// A text without its leading `+` or `-`, if it has one.
pub open spec fn unsigned_part(s: Seq<char>) -> Seq<char> {
    if s.len() > 0 && (s[0] == '+' || s[0] == '-') {
        s.skip(1)
    } else {
        s
    }
}

/// The 32-bit number that a text writes in decimal: an optional `+` or
/// `-`, at least one digit and nothing else, with a value that fits.
pub open spec fn spec_parse_i32(s: Seq<char>) -> Option<i32> {
    let body = unsigned_part(s);
    let magnitude = decimal_value(body);
    let value = if s.len() > 0 && s[0] == '-' {
        -magnitude
    } else {
        magnitude
    };
    if body.len() > 0 && all_digits(body) && -0x8000_0000 <= value <= 0x7fff_ffff {
        Some(value as i32)
    } else {
        None
    }
}

/// The 16-bit word that a text writes in hexadecimal: an optional `+`, at
/// least one hexadecimal digit and nothing else, with a value that fits.
pub open spec fn spec_parse_hex_u16(s: Seq<char>) -> Option<u16> {
    let body = if s.len() > 0 && s[0] == '+' {
        s.skip(1)
    } else {
        s
    };
    if body.len() > 0 && all_hex_digits(body) && hex_value(body) <= 0xffff {
        Some(hex_value(body) as u16)
    } else {
        None
    }
}

/// Whether a character is a decimal digit.
pub fn char_is_digit(c: char) -> (b: bool)
    ensures
        b == is_digit(c),
{
    '0' <= c && c <= '9'
}

/// Whether a character is a hexadecimal digit.
pub fn char_is_hex_digit(c: char) -> (b: bool)
    ensures
        b == is_hex_digit(c),
{
    ('0' <= c && c <= '9') || ('a' <= c && c <= 'f') || ('A' <= c && c <= 'F')
}

/// Four hexadecimal digits write a number below 65536, and are read as
/// that number.
pub proof fn lemma_hex4_bound(digits: Seq<char>)
    requires
        digits.len() == 4,
        all_hex_digits(digits),
    ensures
        0 <= hex_value(digits) <= 0xffff,
        spec_parse_hex_u16(digits) == Some(hex_value(digits) as u16),
{
    let d3 = digits.drop_last();
    let d2 = d3.drop_last();
    let d1 = d2.drop_last();
    let d0 = d1.drop_last();
    // The value of the four digits, one digit at a time.
    assert(hex_value(d0) == 0);
    assert(hex_value(d1) == hex_value(d0) * 16 + hex_digit_value(d1.last()));
    assert(hex_value(d2) == hex_value(d1) * 16 + hex_digit_value(d2.last()));
    assert(hex_value(d3) == hex_value(d2) * 16 + hex_digit_value(d3.last()));
    assert(hex_value(digits) == hex_value(d3) * 16 + hex_digit_value(digits.last()));
}

/// Reads the characters from `from` up to `to` as a signed decimal number.
pub fn parse_i32(chars: &Vec<char>, from: usize, to: usize) -> (r: Option<i32>)
    requires
        from <= to <= chars.len(),
    ensures
        r == spec_parse_i32(chars@.subrange(from as int, to as int)),
{
    let ghost s = chars@.subrange(from as int, to as int);
    let mut i: usize = from;
    let mut negative = false;
    if i < to && (chars[i] == '-' || chars[i] == '+') {
        negative = chars[i] == '-';
        i += 1;
    }
    let start: usize = i;
    let ghost body = unsigned_part(s);
    if i == to {
        return None;
    }
    // `acc` follows the value of the digits read so far until that value
    // passes every magnitude that fits; from there on it only records that.
    let mut acc: u64 = 0;
    while i < to
        invariant
            from <= start <= i <= to <= chars.len(),
            body == chars@.subrange(start as int, to as int),
            body == unsigned_part(chars@.subrange(from as int, to as int)),
            all_digits(body.subrange(0, i - start)),
            acc <= 0x8000_0000 ==> acc == decimal_value(body.subrange(0, i - start)),
            acc > 0x8000_0000 ==> decimal_value(body.subrange(0, i - start)) > 0x8000_0000,
            acc <= 0x8000_0000 * 10 + 9,
        decreases to - i,
    {
        let c = chars[i];
        if !char_is_digit(c) {
            assert(!is_digit(body[i - start]));
            return None;
        }
        let ghost before = body.subrange(0, i - start);
        let ghost after = body.subrange(0, i - start + 1);
        assert(after.drop_last() == before);
        if acc <= 0x8000_0000 {
            acc = acc * 10 + (c as u64 - 48);
        }
        i += 1;
    }
    assert(body.subrange(0, i - start) == body);
    if negative {
        if acc <= 0x8000_0000 {
            Some((-(acc as i64)) as i32)
        } else {
            None
        }
    } else {
        if acc <= 0x7fff_ffff {
            Some(acc as i32)
        } else {
            None
        }
    }
}

/// Reads the characters from `from` up to `to` as a hexadecimal word.
pub fn parse_hex_u16(chars: &Vec<char>, from: usize, to: usize) -> (r: Option<u16>)
    requires
        from <= to <= chars.len(),
    ensures
        r == spec_parse_hex_u16(chars@.subrange(from as int, to as int)),
{
    let ghost s = chars@.subrange(from as int, to as int);
    let mut i: usize = from;
    if i < to && chars[i] == '+' {
        i += 1;
    }
    let start: usize = i;
    let ghost body = chars@.subrange(start as int, to as int);
    if i == to {
        return None;
    }
    let mut acc: u32 = 0;
    while i < to
        invariant
            from <= start <= i <= to <= chars.len(),
            body == chars@.subrange(start as int, to as int),
            body == if s.len() > 0 && s[0] == '+' {
                s.skip(1)
            } else {
                s
            },
            s == chars@.subrange(from as int, to as int),
            all_hex_digits(body.subrange(0, i - start)),
            acc <= 0xffff ==> acc == hex_value(body.subrange(0, i - start)),
            acc > 0xffff ==> hex_value(body.subrange(0, i - start)) > 0xffff,
            acc <= 0xffff * 16 + 15,
        decreases to - i,
    {
        let c = chars[i];
        if !char_is_hex_digit(c) {
            assert(!is_hex_digit(body[i - start]));
            return None;
        }
        let ghost before = body.subrange(0, i - start);
        let ghost after = body.subrange(0, i - start + 1);
        assert(after.drop_last() == before);
        if acc <= 0xffff {
            let d: u32 = if '0' <= c && c <= '9' {
                c as u32 - 48
            } else if 'a' <= c && c <= 'f' {
                c as u32 - 87
            } else {
                c as u32 - 55
            };
            acc = acc * 16 + d;
        }
        i += 1;
    }
    assert(body.subrange(0, i - start) == body);
    if acc <= 0xffff {
        Some(acc as u16)
    } else {
        None
    }
}

/// The character that writes a digit below 10.
pub open spec fn digit_char(d: int) -> char {
    ((48 + d) as u8) as char
}

/// The character that writes a digit below 16, with capital letters from
/// ten on.
pub open spec fn hex_digit_char(d: int) -> char {
    if d < 10 {
        ((48 + d) as u8) as char
    } else {
        ((55 + d) as u8) as char
    }
}

/// A natural number written in decimal, without leading zeros.
pub open spec fn decimal_text(n: nat) -> Seq<char>
    decreases n,
{
    if n < 10 {
        seq![digit_char(n as int)]
    } else {
        decimal_text(n / 10).push(digit_char((n % 10) as int))
    }
}

/// An integer written in decimal, with `-` before a negative one.
pub open spec fn int_text(n: int) -> Seq<char> {
    if n < 0 {
        seq!['-'] + decimal_text((-n) as nat)
    } else {
        decimal_text(n as nat)
    }
}

/// A word written as four hexadecimal digits, with capital letters.
pub open spec fn hex4_text(w: u16) -> Seq<char> {
    seq![
        hex_digit_char(w as int / 0x1000),
        hex_digit_char(w as int / 0x100 % 16),
        hex_digit_char(w as int / 0x10 % 16),
        hex_digit_char(w as int % 16),
    ]
}

/// Appends [`decimal_text`] of `n` to a string.
pub fn push_decimal(s: &mut String, n: u64)
    ensures
        final(s)@ == old(s)@ + decimal_text(n as nat),
    decreases n,
{
    if n >= 10 {
        push_decimal(s, n / 10);
    }
    let d: u8 = (n % 10) as u8;
    s.push((48 + d) as char);
}

/// Appends [`int_text`] of `n` to a string.
pub fn push_int(s: &mut String, n: i32)
    ensures
        final(s)@ == old(s)@ + int_text(n as int),
{
    if n < 0 {
        s.push('-');
        let magnitude: u64 = (-(n as i64)) as u64;
        push_decimal(s, magnitude);
    } else {
        push_decimal(s, n as u64);
    }
}

fn hex_digit(d: u16) -> (c: char)
    requires
        d < 16,
    ensures
        c == hex_digit_char(d as int),
{
    if d < 10 {
        (48 + d as u8) as char
    } else {
        (55 + d as u8) as char
    }
}

/// Appends [`hex4_text`] of `w` to a string.
pub fn push_hex4(s: &mut String, w: u16)
    ensures
        final(s)@ == old(s)@ + hex4_text(w),
{
    s.push(hex_digit(w / 0x1000));
    s.push(hex_digit(w / 0x100 % 16));
    s.push(hex_digit(w / 0x10 % 16));
    s.push(hex_digit(w % 16));
}

/// A number written in decimal is a row of digits that writes the number.
pub proof fn lemma_decimal_text_value(n: nat)
    ensures
        decimal_text(n).len() > 0,
        all_digits(decimal_text(n)),
        decimal_value(decimal_text(n)) == n,
    decreases n,
{
    if n >= 10 {
        lemma_decimal_text_value(n / 10);
        let front = decimal_text(n / 10);
        let text = decimal_text(n);
        assert(text.drop_last() == front);
    } else {
        let text = decimal_text(n);
        assert(decimal_value(text.drop_last()) == 0);
    }
}

/// An integer of 32 bits written in decimal is read back as itself.
pub proof fn lemma_int_text_parses(n: i32)
    ensures
        spec_parse_i32(int_text(n as int)) == Some(n),
{
    if n < 0 {
        lemma_decimal_text_value((-n) as nat);
        let text = int_text(n as int);
        assert(unsigned_part(text) == decimal_text((-n) as nat));
    } else {
        lemma_decimal_text_value(n as nat);
    }
}

/// The character of a digit below 16 is a hexadecimal digit with that
/// value.
pub proof fn lemma_hex_digit_char_value(d: int)
    requires
        0 <= d < 16,
    ensures
        is_hex_digit(hex_digit_char(d)),
        hex_digit_value(hex_digit_char(d)) == d,
{
}

/// A word written as four hexadecimal digits is read back as itself.
pub proof fn lemma_hex4_text_parses(w: u16)
    ensures
        spec_parse_hex_u16(hex4_text(w)) == Some(w),
{
    let a = w as int / 0x1000;
    let b = w as int / 0x100 % 16;
    let c = w as int / 0x10 % 16;
    let d = w as int % 16;
    assert(w / 0x1000 < 16 && w == (w / 0x1000) * 0x1000 + (w / 0x100 % 16) * 0x100 + (w / 0x10
        % 16) * 0x10 + w % 16) by (bit_vector);
    lemma_hex_digit_char_value(a);
    lemma_hex_digit_char_value(b);
    lemma_hex_digit_char_value(c);
    lemma_hex_digit_char_value(d);
    let text = hex4_text(w);
    assert(text[0] == hex_digit_char(a) && text[1] == hex_digit_char(b) && text[2]
        == hex_digit_char(c) && text[3] == hex_digit_char(d));
    lemma_hex4_bound(text);
    let d3 = text.drop_last();
    let d2 = d3.drop_last();
    let d1 = d2.drop_last();
    let d0 = d1.drop_last();
    // The value of the four digits, one digit at a time.
    assert(hex_value(d0) == 0);
    assert(hex_value(d1) == hex_value(d0) * 16 + hex_digit_value(d1.last()) && d1.last()
        == text[0]);
    assert(hex_value(d2) == hex_value(d1) * 16 + hex_digit_value(d2.last()) && d2.last()
        == text[1]);
    assert(hex_value(d3) == hex_value(d2) * 16 + hex_digit_value(d3.last()) && d3.last()
        == text[2]);
    assert(hex_value(text) == hex_value(d3) * 16 + hex_digit_value(text.last()));
    assert(hex_value(text) == ((a * 16 + b) * 16 + c) * 16 + d);
}

} // verus!
