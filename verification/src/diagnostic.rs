//! How a key press is shown: the byte in binary and decimal and, unless it is
//! a control character, the character between quotes.

use vstd::prelude::*;
use vstd::string::StringExecFns;

verus! {

/// `String::push` of the standard library appends the given character to the
/// end of the string. Trusted.
pub assume_specification[ String::push ](s: &mut String, ch: char)
    ensures
        final(s)@ == old(s)@.push(ch),
;

/// The character that a byte stands for: the code point of the same number.
pub open spec fn decoded(b: u8) -> char {
    b as char
}

/// Whether the character of a byte is a control character: code points 0 to
/// 31 and 127 to 159.
pub open spec fn is_control_byte(b: u8) -> bool {
    b < 32 || (127 <= b && b < 160)
}

/// The binary digit of `b` at the place of the given weight: `1` where the
/// bit is set, `0` where it is not.
pub open spec fn bit_char(b: u8, weight: int) -> char {
    if (b as int / weight) % 2 == 1 {
        '1'
    } else {
        '0'
    }
}

/// The eight binary digits of `b`, from the highest place to the lowest.
pub open spec fn binary_field(b: u8) -> Seq<char> {
    seq![
        bit_char(b, 128),
        bit_char(b, 64),
        bit_char(b, 32),
        bit_char(b, 16),
        bit_char(b, 8),
        bit_char(b, 4),
        bit_char(b, 2),
        bit_char(b, 1),
    ]
}

/// The character of a decimal digit.
pub open spec fn digit_char(d: u8) -> char {
    decoded((48 + d) as u8)
}

/// `b` in decimal, without padding: one to three digits.
pub open spec fn decimal_field(b: u8) -> Seq<char> {
    if b < 10 {
        seq![digit_char(b)]
    } else if b < 100 {
        seq![digit_char(b / 10), digit_char(b % 10)]
    } else {
        seq![digit_char(b / 100), digit_char((b / 10) % 10), digit_char(b % 10)]
    }
}

/// The character of a hexadecimal digit, in lower case.
pub open spec fn hex_digit_char(d: u8) -> char {
    if d < 10 {
        decoded((48 + d) as u8)
    } else {
        decoded((87 + d) as u8)
    }
}

/// `b` in hexadecimal, without padding: one or two digits.
pub open spec fn hex_field(b: u8) -> Seq<char> {
    if b < 16 {
        seq![hex_digit_char(b)]
    } else {
        seq![hex_digit_char(b / 16), hex_digit_char(b % 16)]
    }
}

/// Whether the character of `b` is written as itself between quotes. The
/// others are written as an escape: control characters, the quote, the
/// backslash, the no-break space and the soft hyphen.
pub open spec fn is_plain_byte(b: u8) -> bool {
    !is_control_byte(b) && b != 39 && b != 92 && b != 160 && b != 173
}

/// What stands between the quotes for the character of `b`: the character
/// itself, or its escape.
pub open spec fn escaped_char(b: u8) -> Seq<char> {
    if is_plain_byte(b) {
        seq![decoded(b)]
    } else if b == 0 {
        seq!['\\', '0']
    } else if b == 9 {
        seq!['\\', 't']
    } else if b == 10 {
        seq!['\\', 'n']
    } else if b == 13 {
        seq!['\\', 'r']
    } else if b == 39 {
        seq!['\\', '\'']
    } else if b == 92 {
        seq!['\\', '\\']
    } else {
        seq!['\\', 'u', '{'] + hex_field(b) + seq!['}']
    }
}

/// The character of `b` between single quotes.
pub open spec fn quoted_char(b: u8) -> Seq<char> {
    seq!['\''] + escaped_char(b) + seq!['\'']
}

/// The part of a line that every byte gets: the binary and the decimal field.
pub open spec fn line_head(b: u8) -> Seq<char> {
    "Binary: "@ + binary_field(b) + " ASCII: "@ + decimal_field(b)
}

/// The line for one byte. A control character gets the head alone; any other
/// character gets the head and the character field.
pub open spec fn line_text(b: u8) -> Seq<char> {
    if is_control_byte(b) {
        line_head(b)
    } else {
        line_head(b) + " Character: "@ + quoted_char(b)
    }
}

/// The number that a sequence of binary digits stands for, highest place
/// first.
pub open spec fn binary_value(digits: Seq<char>) -> int
    decreases digits.len(),
{
    if digits.len() == 0 {
        0
    } else {
        2 * binary_value(digits.drop_last()) + if digits.last() == '1' {
            1int
        } else {
            0int
        }
    }
}

/// The `len` characters of `text` that start at position `at`.
pub open spec fn window(text: Seq<char>, at: int, len: nat) -> Seq<char> {
    text.subrange(at, at + len)
}

/// Whether `needle` occurs in `text` as a run of neighbouring characters.
pub open spec fn occurs_in(needle: Seq<char>, text: Seq<char>) -> bool {
    exists|at: int|
        0 <= at && at + needle.len() <= text.len() && #[trigger] window(text, at, needle.len())
            == needle
}

/// Decodes a byte as a character.
pub fn decode(b: u8) -> (c: char)
    ensures
        c == decoded(b),
{
    b as char
}

/// Whether the character of `b` is a control character.
pub fn is_control(b: u8) -> (control: bool)
    ensures
        control == is_control_byte(b),
{
    b < 32 || (127 <= b && b < 160)
}

fn binary_digit(b: u8, weight: u8) -> (c: char)
    requires
        weight > 0,
    ensures
        c == bit_char(b, weight as int),
{
    if (b / weight) % 2 == 1 {
        '1'
    } else {
        '0'
    }
}

/// Writes `b` as eight binary digits, padded with zeros on the left.
pub fn format_binary(b: u8) -> (field: String)
    ensures
        field@ == binary_field(b),
        field@.len() == 8,
        forall|i: int| 0 <= i < 8 ==> field@[i] == '0' || field@[i] == '1',
{
    let mut field = String::new();
    field.push(binary_digit(b, 128));
    field.push(binary_digit(b, 64));
    field.push(binary_digit(b, 32));
    field.push(binary_digit(b, 16));
    field.push(binary_digit(b, 8));
    field.push(binary_digit(b, 4));
    field.push(binary_digit(b, 2));
    field.push(binary_digit(b, 1));
    assert(field@ =~= binary_field(b));
    field
}

fn decimal_digit(d: u8) -> (c: char)
    requires
        d < 10,
    ensures
        c == digit_char(d),
{
    decode(48 + d)
}

fn hex_digit(d: u8) -> (c: char)
    requires
        d < 16,
    ensures
        c == hex_digit_char(d),
{
    if d < 10 {
        decode(48 + d)
    } else {
        decode(87 + d)
    }
}

/// Writes `b` in decimal, without padding.
pub fn format_decimal(b: u8) -> (field: String)
    ensures
        field@ == decimal_field(b),
{
    let mut field = String::new();
    if b >= 100 {
        field.push(decimal_digit(b / 100));
    }
    if b >= 10 {
        field.push(decimal_digit((b / 10) % 10));
    }
    field.push(decimal_digit(b % 10));
    assert(field@ =~= decimal_field(b));
    field
}

/// Writes the character of `b` between single quotes, escaped where it
/// cannot stand for itself.
pub fn format_quoted(b: u8) -> (text: String)
    ensures
        text@ == quoted_char(b),
{
    let mut text = String::new();
    text.push('\'');
    if b == 39 || b == 92 {
        text.push('\\');
        text.push(decode(b));
    } else if b == 0 {
        text.push('\\');
        text.push('0');
    } else if b == 9 {
        text.push('\\');
        text.push('t');
    } else if b == 10 {
        text.push('\\');
        text.push('n');
    } else if b == 13 {
        text.push('\\');
        text.push('r');
    } else if is_control(b) || b == 160 || b == 173 {
        text.push('\\');
        text.push('u');
        text.push('{');
        if b >= 16 {
            text.push(hex_digit(b / 16));
        }
        text.push(hex_digit(b % 16));
        text.push('}');
    } else {
        text.push(decode(b));
    }
    text.push('\'');
    assert(text@ =~= quoted_char(b));
    text
}

/// Writes the line for one byte, without a line ending.
pub fn format_line(b: u8) -> (line: String)
    ensures
        line@ == line_text(b),
{
    let mut line = String::from_str("Binary: ");
    let binary = format_binary(b);
    line.append(binary.as_str());
    line.append(" ASCII: ");
    let decimal = format_decimal(b);
    line.append(decimal.as_str());
    if !is_control(b) {
        line.append(" Character: ");
        let quoted = format_quoted(b);
        line.append(quoted.as_str());
    }
    line
}

proof fn lemma_binary_value_push(digits: Seq<char>, c: char)
    ensures
        binary_value(digits.push(c)) == 2 * binary_value(digits) + if c == '1' {
            1int
        } else {
            0int
        },
{
    assert(digits.push(c).drop_last() =~= digits);
}

proof fn lemma_place_digits_sum(b: u8)
    ensures
        b == 128 * ((b / 128) % 2) + 64 * ((b / 64) % 2) + 32 * ((b / 32) % 2) + 16 * ((b / 16)
            % 2) + 8 * ((b / 8) % 2) + 4 * ((b / 4) % 2) + 2 * ((b / 2) % 2) + (b % 2),
{
    assert(b == 128 * ((b / 128) % 2) + 64 * ((b / 64) % 2) + 32 * ((b / 32) % 2) + 16 * ((b / 16)
        % 2) + 8 * ((b / 8) % 2) + 4 * ((b / 4) % 2) + 2 * ((b / 2) % 2) + (b % 2))
        by (bit_vector);
}

/// The binary field always has eight characters, each `0` or `1`, and read as
/// a binary number it is the byte.
pub proof fn lemma_binary_field_is_the_byte(b: u8)
    ensures
        binary_field(b).len() == 8,
        forall|i: int| 0 <= i < 8 ==> binary_field(b)[i] == '0' || binary_field(b)[i] == '1',
        binary_value(binary_field(b)) == b,
{
    let s0 = Seq::<char>::empty();
    let s1 = s0.push(bit_char(b, 128));
    let s2 = s1.push(bit_char(b, 64));
    let s3 = s2.push(bit_char(b, 32));
    let s4 = s3.push(bit_char(b, 16));
    let s5 = s4.push(bit_char(b, 8));
    let s6 = s5.push(bit_char(b, 4));
    let s7 = s6.push(bit_char(b, 2));
    let s8 = s7.push(bit_char(b, 1));
    assert(s8 =~= binary_field(b));
    lemma_binary_value_push(s0, bit_char(b, 128));
    lemma_binary_value_push(s1, bit_char(b, 64));
    lemma_binary_value_push(s2, bit_char(b, 32));
    lemma_binary_value_push(s3, bit_char(b, 16));
    lemma_binary_value_push(s4, bit_char(b, 8));
    lemma_binary_value_push(s5, bit_char(b, 4));
    lemma_binary_value_push(s6, bit_char(b, 2));
    lemma_binary_value_push(s7, bit_char(b, 1));
    lemma_place_digits_sum(b);
}

/// The line of a control character has no character field: `Character:`
/// occurs nowhere in it.
pub proof fn lemma_control_line_has_no_character_field(b: u8)
    requires
        is_control_byte(b),
    ensures
        !occurs_in("Character:"@, line_text(b)),
{
    reveal_strlit("Binary: ");
    reveal_strlit(" ASCII: ");
    reveal_strlit("Character:");
    let text = line_text(b);
    let needle = "Character:"@;
    assert forall|i: int| 0 <= i < text.len() implies text[i] != 'h' by {
        if i < 8 {
            assert(text[i] == "Binary: "@[i]);
        } else if i < 16 {
            assert(text[i] == binary_field(b)[i - 8]);
        } else if i < 24 {
            assert(text[i] == " ASCII: "@[i - 16]);
        } else {
            assert(text[i] == decimal_field(b)[i - 24]);
        }
    }
    assert forall|at: int| 0 <= at && at + needle.len() <= text.len() implies #[trigger] window(
        text,
        at,
        needle.len(),
    ) != needle by {
        assert(window(text, at, needle.len())[1] == text[at + 1]);
        assert(needle[1] == 'h');
    }
}

/// The line of a character that is no control character ends in the
/// character field, which holds the decoded character between quotes: as
/// itself where it is plain, and after a backslash where it is the quote or
/// the backslash. The bytes 32 to 126 are all of one of these two kinds.
pub proof fn lemma_character_line_has_character_field(b: u8)
    requires
        !is_control_byte(b),
    ensures
        line_text(b) == line_head(b) + " Character: "@ + quoted_char(b),
        occurs_in("Character:"@, line_text(b)),
        is_plain_byte(b) ==> quoted_char(b) == seq!['\'', decoded(b), '\''],
        b == 39 || b == 92 ==> quoted_char(b) == seq!['\'', '\\', decoded(b), '\''],
        32 <= b <= 126 ==> is_plain_byte(b) || b == 39 || b == 92,
{
    reveal_strlit("Binary: ");
    reveal_strlit(" ASCII: ");
    reveal_strlit(" Character: ");
    reveal_strlit("Character:");
    let text = line_text(b);
    let needle = "Character:"@;
    let at = line_head(b).len() as int + 1;
    assert(window(text, at, needle.len()) =~= needle);
    if is_plain_byte(b) {
        assert(quoted_char(b) =~= seq!['\'', decoded(b), '\'']);
    } else if b == 39 || b == 92 {
        assert(quoted_char(b) =~= seq!['\'', '\\', decoded(b), '\'']);
    }
}

} // verus!
