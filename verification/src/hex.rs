//! Hexadecimal text: the two digits of a byte, read and written, and the
//! numbers in the labels of rows and columns.

use vstd::prelude::*;
use vstd::string::StrSliceExecFns;

verus! {

/// The upper-case glyph of a hexadecimal digit value below sixteen.
pub open spec fn hex_digit_glyph(value: int) -> char {
    if 0 <= value < 10 {
        (value + 48) as char
    } else {
        (value + 55) as char
    }
}

/// Whether a character is one of `0-9`, `a-f`, `A-F`.
pub open spec fn is_hex_glyph(c: char) -> bool {
    ||| '0' <= c <= '9'
    ||| 'a' <= c <= 'f'
    ||| 'A' <= c <= 'F'
}

/// The digit value of a hexadecimal glyph, either case.
pub open spec fn hex_glyph_value(c: char) -> int {
    if '0' <= c <= '9' {
        c as int - 48
    } else if 'a' <= c <= 'f' {
        c as int - 87
    } else {
        c as int - 55
    }
}

/// Gives the upper-case glyph of a digit value below sixteen.
pub(crate) fn hex_digit(value: u8) -> (glyph: char)
    requires
        value < 16,
    ensures
        glyph == hex_digit_glyph(value as int),
{
    if value < 10 {
        (value + 48) as char
    } else {
        (value + 55) as char
    }
}

/// Reads one hexadecimal glyph of either case; `None` for any other character.
pub fn hex_value(c: char) -> (value: Option<u8>)
    ensures
        is_hex_glyph(c) <==> value is Some,
        value matches Some(v) ==> v == hex_glyph_value(c),
{
    if '0' <= c && c <= '9' {
        Some((c as u32 - 48) as u8)
    } else if 'a' <= c && c <= 'f' {
        Some((c as u32 - 87) as u8)
    } else if 'A' <= c && c <= 'F' {
        Some((c as u32 - 55) as u8)
    } else {
        None
    }
}

/// The two upper-case hexadecimal digits that a byte is shown as.
pub open spec fn hex_text_of(byte: u8) -> Seq<char> {
    seq![hex_digit_glyph(byte as int / 16), hex_digit_glyph(byte as int % 16)]
}

/// The byte that a text stands for: exactly two hexadecimal glyphs of either
/// case give their value; any other text gives `None`.
pub open spec fn parse_hex_byte(text: Seq<char>) -> Option<u8> {
    if text.len() == 2 && is_hex_glyph(text[0]) && is_hex_glyph(text[1]) {
        Some((16 * hex_glyph_value(text[0]) + hex_glyph_value(text[1])) as u8)
    } else {
        None
    }
}

/// `String::push` of the standard library: the character is appended at the
/// end, and nothing else about the string changes.
pub assume_specification[ String::push ](text: &mut String, ch: char)
    ensures
        final(text)@ == old(text)@.push(ch),
;

/// Renders a byte as two upper-case hexadecimal digits.
pub fn hex_text(byte: u8) -> (text: String)
    ensures
        text@ == hex_text_of(byte),
{
    let mut text = String::new();
    text.push(hex_digit(byte / 16));
    text.push(hex_digit(byte % 16));
    text
}

/// Parses a text of exactly two hexadecimal digits into the byte it names.
pub fn parse_hex(text: &str) -> (byte: Option<u8>)
    ensures
        byte == parse_hex_byte(text@),
{
    if text.unicode_len() != 2 {
        return None;
    }
    match (hex_value(text.get_char(0)), hex_value(text.get_char(1))) {
        (Some(high), Some(low)) => Some(16 * high + low),
        _ => None,
    }
}

/// A number in upper-case hexadecimal digits, the most significant first,
/// with zeros in front where it has fewer than `min_width` digits. Zero has
/// one digit.
pub open spec fn hex_upper(value: nat, min_width: nat) -> Seq<char>
    decreases value, min_width,
{
    if value < 16 && min_width <= 1 {
        seq![hex_digit_glyph(value as int)]
    } else {
        let width_left = if min_width > 0 {
            (min_width - 1) as nat
        } else {
            0
        };
        hex_upper(value / 16, width_left).push(hex_digit_glyph((value % 16) as int))
    }
}

/// The label of a row: `0x` and the offset of its first byte in at least six
/// digits.
pub open spec fn offset_label_of(offset: nat) -> Seq<char> {
    seq!['0', 'x'] + hex_upper(offset, 6)
}

/// The heading of a column: `+0x` and the column's number in at least two
/// digits.
pub open spec fn column_label_of(column: nat) -> Seq<char> {
    seq!['+', '0', 'x'] + hex_upper(column, 2)
}

/// Appends a number in upper-case hexadecimal digits to a text.
pub fn push_hex(text: &mut String, value: usize, min_width: usize)
    ensures
        final(text)@ == old(text)@ + hex_upper(value as nat, min_width as nat),
{
    let mut low_first: Vec<char> = Vec::new();
    let mut rest: usize = value;
    let mut width: usize = min_width;
    while !(rest < 16 && width <= 1)
        invariant
            hex_upper(value as nat, min_width as nat) == hex_upper(rest as nat, width as nat)
                + low_first@.reverse(),
        decreases rest, width,
    {
        let digit: char = hex_digit((rest % 16) as u8);
        proof {
            let width_left = if width > 0 {
                (width - 1) as nat
            } else {
                0
            };
            let shorter = hex_upper((rest / 16) as nat, width_left);
            assert(hex_upper(rest as nat, width as nat) == shorter.push(digit));
            assert(low_first@.push(digit).reverse() =~= seq![digit] + low_first@.reverse());
            assert(shorter.push(digit) + low_first@.reverse() =~= shorter + (seq![digit]
                + low_first@.reverse()));
        }
        low_first.push(digit);
        rest = rest / 16;
        width = if width > 0 {
            width - 1
        } else {
            0
        };
    }
    let digit: char = hex_digit(rest as u8);
    proof {
        assert(low_first@.push(digit).reverse() =~= seq![digit] + low_first@.reverse());
    }
    low_first.push(digit);
    let ghost digits = low_first@.reverse();
    assert(digits =~= hex_upper(value as nat, min_width as nat));
    let mut left: usize = low_first.len();
    while left > 0
        invariant
            left <= low_first.len(),
            digits == low_first@.reverse(),
            text@ == old(text)@ + digits.subrange(0, low_first.len() - left),
        decreases left,
    {
        left = left - 1;
        let digit: char = low_first[left];
        proof {
            let done = low_first.len() - left - 1;
            assert(digits[done] == digit);
            assert((old(text)@ + digits.subrange(0, done)).push(digit) =~= old(text)@
                + digits.subrange(0, done + 1));
        }
        text.push(digit);
    }
    assert(digits.subrange(0, low_first.len() as int) =~= digits);
}

/// Renders a number in upper-case hexadecimal digits, with zeros in front up
/// to `min_width` digits.
pub fn format_hex(value: usize, min_width: usize) -> (text: String)
    ensures
        text@ == hex_upper(value as nat, min_width as nat),
{
    let mut text = String::new();
    push_hex(&mut text, value, min_width);
    assert(Seq::<char>::empty() + hex_upper(value as nat, min_width as nat) =~= hex_upper(
        value as nat,
        min_width as nat,
    ));
    text
}

/// Renders the label of the row whose first byte lies at `offset`.
pub fn offset_label(offset: usize) -> (label: String)
    ensures
        label@ == offset_label_of(offset as nat),
{
    let mut label = String::new();
    label.push('0');
    label.push('x');
    assert(label@ =~= seq!['0', 'x']);
    push_hex(&mut label, offset, 6);
    label
}

/// Renders the heading of the column with the number `column`.
pub fn column_label(column: usize) -> (label: String)
    ensures
        label@ == column_label_of(column as nat),
{
    let mut label = String::new();
    label.push('+');
    label.push('0');
    label.push('x');
    assert(label@ =~= seq!['+', '0', 'x']);
    push_hex(&mut label, column, 2);
    label
}

/// A glyph with the lower-case digits `a-f` put in upper case.
pub open spec fn upper_glyph(c: char) -> char {
    if 'a' <= c <= 'f' {
        (c as int - 32) as char
    } else {
        c
    }
}

/// A text in canonical form: every lower-case hexadecimal digit in upper
/// case, every other character as it is.
pub open spec fn canonical_hex(text: Seq<char>) -> Seq<char> {
    Seq::new(text.len(), |i: int| upper_glyph(text[i]))
}

/// Rendering and parsing are inverse: the text of a byte parses back to that
/// byte.
pub proof fn hex_text_parses_back(byte: u8)
    ensures
        parse_hex_byte(hex_text_of(byte)) == Some(byte),
{
    let text = hex_text_of(byte);
    assert(text.len() == 2);
    assert(hex_glyph_value(text[0]) == byte as int / 16);
    assert(hex_glyph_value(text[1]) == byte as int % 16);
}

/// A text parses to a byte exactly when its canonical form is the rendering
/// of that byte: the case of the digits is all that parsing overlooks.
pub proof fn parse_accepts_canonical_forms(text: Seq<char>, byte: u8)
    ensures
        parse_hex_byte(text) == Some(byte) <==> canonical_hex(text) == hex_text_of(byte),
{
    let shown = hex_text_of(byte);
    if parse_hex_byte(text) == Some(byte) {
        assert(hex_glyph_value(text[0]) == byte as int / 16);
        assert(hex_glyph_value(text[1]) == byte as int % 16);
        assert(canonical_hex(text) =~= shown);
    }
    if canonical_hex(text) == shown {
        assert(canonical_hex(text).len() == text.len());
        assert(shown.len() == 2);
        assert(upper_glyph(text[0]) == shown[0]);
        assert(upper_glyph(text[1]) == shown[1]);
        assert(is_hex_glyph(text[0]) && hex_glyph_value(text[0]) == byte as int / 16);
        assert(is_hex_glyph(text[1]) && hex_glyph_value(text[1]) == byte as int % 16);
    }
}

/// The text of a byte is its number in two digits.
pub proof fn hex_text_is_two_digit_number(byte: u8)
    ensures
        hex_text_of(byte) == hex_upper(byte as nat, 2),
{
    reveal_with_fuel(hex_upper, 3);
    assert(hex_upper(byte as nat, 2) =~= hex_text_of(byte));
}

/// The number that a text of hexadecimal digits stands for, read with the
/// most significant digit first.
pub open spec fn hex_number(digits: Seq<char>) -> nat
    decreases digits.len(),
{
    if digits.len() == 0 {
        0
    } else {
        (16 * hex_number(digits.drop_last()) + hex_glyph_value(digits.last())) as nat
    }
}

/// Whether a character is one of `0-9`, `A-F`.
pub open spec fn is_upper_hex_glyph(c: char) -> bool {
    '0' <= c <= '9' || 'A' <= c <= 'F'
}

/// The digits of a number are upper-case hexadecimal digits that read back
/// as the number. They are at least `min_width`, and one only for a number
/// below sixteen with a width of at most one; where they are more than one
/// and more than `min_width`, the first of them is not a zero.
pub proof fn hex_upper_reads_back(value: nat, min_width: nat)
    ensures
        hex_number(hex_upper(value, min_width)) == value,
        hex_upper(value, min_width).len() >= min_width,
        hex_upper(value, min_width).len() == 1 <==> value < 16 && min_width <= 1,
        forall|i: int|
            0 <= i < hex_upper(value, min_width).len() ==> is_upper_hex_glyph(
                #[trigger] hex_upper(value, min_width)[i],
            ),
        hex_upper(value, min_width).len() > min_width && hex_upper(value, min_width).len() > 1
            ==> hex_upper(value, min_width)[0] != '0',
    decreases value, min_width,
{
    let digits = hex_upper(value, min_width);
    if value < 16 && min_width <= 1 {
        assert(digits.drop_last() =~= Seq::<char>::empty());
        assert(hex_number(digits) == value) by {
            reveal_with_fuel(hex_number, 2);
        }
    } else {
        let width_left = if min_width > 0 {
            (min_width - 1) as nat
        } else {
            0
        };
        let front = hex_upper(value / 16, width_left);
        let last = hex_digit_glyph((value % 16) as int);
        hex_upper_reads_back(value / 16, width_left);
        assert(digits == front.push(last));
        assert(digits.drop_last() =~= front);
        assert(digits.last() == last);
        assert(hex_glyph_value(last) == value % 16);
        assert forall|i: int| 0 <= i < digits.len() implies is_upper_hex_glyph(
            #[trigger] digits[i],
        ) by {
            if i < front.len() {
                assert(digits[i] == front[i]);
            }
        }
        assert(digits[0] == front[0]);
        if digits.len() > min_width && front.len() == 1 {
            assert(front[0] == hex_digit_glyph((value / 16) as int));
        }
    }
}

} // verus!
