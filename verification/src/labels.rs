//! The texts the display shows for numbers: temperatures, durations, the
//! heater power, and fault codes. Each text is written into a fixed-size
//! buffer of ten bytes, the one the display draws from.
use vstd::prelude::*;
use crate::errors::{ErrorType, error_code};

verus! {

/// The character of a decimal digit.
pub open spec fn digit_char(d: nat) -> char {
    (48 + d) as char
}

/// The decimal representation of `n`: no sign, no leading zeros, "0" for zero.
pub open spec fn decimal(n: nat) -> Seq<char>
    decreases n,
{
    if n < 10 {
        seq![digit_char(n)]
    } else {
        decimal(n / 10).push(digit_char(n % 10))
    }
}

/// The character of a hexadecimal digit, upper case.
pub open spec fn hex_char(d: nat) -> char {
    if d < 10 {
        (48 + d) as char
    } else {
        (55 + d) as char
    }
}

/// The unit suffix of a temperature: the degree sign and "C".
pub open spec fn celsius_suffix() -> Seq<char> {
    seq!['\u{b0}', 'C']
}

/// The unit suffix of a duration: " Sec.".
pub open spec fn seconds_suffix() -> Seq<char> {
    seq![' ', 'S', 'e', 'c', '.']
}

/// The number of bytes of `c` in UTF-8.
pub open spec fn char_utf8_len(c: char) -> nat {
    if (c as u32) < 0x80 {
        1
    } else if (c as u32) < 0x800 {
        2
    } else if (c as u32) < 0x1_0000 {
        3
    } else {
        4
    }
}

/// The number of bytes of `cs` in UTF-8.
pub open spec fn utf8_len(cs: Seq<char>) -> nat
    decreases cs.len(),
{
    if cs.len() == 0 {
        0
    } else {
        utf8_len(cs.drop_last()) + char_utf8_len(cs.last())
    }
}

/// The capacity (bytes) of a label buffer.
pub const LABEL_CAPACITY: usize = 10;

/// A text buffer of `LABEL_CAPACITY` bytes.
#[verifier::external_body]
pub struct Label {
    text: heapless::String<LABEL_CAPACITY>,
}

/// The text a label holds.
pub uninterp spec fn label_text(label: Label) -> Seq<char>;

/// Calls `heapless::String::new`: the contract claims the buffer is empty.
#[verifier::external_body]
fn empty_label() -> (l: Label)
    ensures
        label_text(l) == Seq::<char>::empty(),
{
    Label { text: heapless::String::new() }
}

/// Calls `heapless::String::push_str`: the contract claims what its source
/// shows: the text is appended when the byte length of the result stays
/// within the capacity, and the buffer is left as it is otherwise.
#[verifier::external_body]
fn push_str_to_label(label: &mut Label, s: &str) -> (ok: bool)
    ensures
        ok == (utf8_len(label_text(*old(label))) + utf8_len(s@) <= LABEL_CAPACITY),
        ok ==> label_text(*final(label)) == label_text(*old(label)) + s@,
        !ok ==> label_text(*final(label)) == label_text(*old(label)),
{
    label.text.push_str(s).is_ok()
}

/// Calls `heapless::String::push`: the contract claims what its source
/// shows: the character is appended when the byte length of the result stays
/// within the capacity, and the buffer is left as it is otherwise.
#[verifier::external_body]
fn push_char_to_label(label: &mut Label, c: char) -> (ok: bool)
    ensures
        ok == (utf8_len(label_text(*old(label))) + char_utf8_len(c) <= LABEL_CAPACITY),
        ok ==> label_text(*final(label)) == label_text(*old(label)).push(c),
        !ok ==> label_text(*final(label)) == label_text(*old(label)),
{
    label.text.push(c).is_ok()
}

/// Calls `heapless::String::as_str`: the contract claims the text is
/// returned.
#[verifier::external_body]
fn label_str(label: &Label) -> (s: &str)
    ensures
        s@ == label_text(*label),
{
    label.text.as_str()
}

impl Label {
    /// The text of the label.
    pub fn as_str(&self) -> (s: &str)
        ensures
            s@ == label_text(*self),
    {
        label_str(self)
    }
}

/// The digit buffer of the itoa crate.
#[verifier::external_type_specification]
#[verifier::external_body]
pub struct ExDecimalBuffer(itoa::Buffer);

/// Calls `itoa::Buffer::new`: a buffer for formatting one number.
#[verifier::external_body]
fn new_decimal_buffer() -> itoa::Buffer {
    itoa::Buffer::new()
}

/// Calls `itoa::Buffer::format` on `n`. The contract claims what itoa
/// documents: the decimal digits of `n`, without sign or leading zeros ("0"
/// for zero).
#[verifier::external_body]
fn format_decimal<'a>(buffer: &'a mut itoa::Buffer, n: u32) -> (s: &'a str)
    ensures
        s@ == decimal(n as nat),
{
    buffer.format(n)
}

/// Decimal digits take one byte each.
proof fn lemma_decimal_utf8_len(n: nat)
    ensures
        utf8_len(decimal(n)) == decimal(n).len(),
    decreases n,
{
    reveal_with_fuel(utf8_len, 2);
    let d = n % 10;
    assert((digit_char(d) as u32) == 48 + d);
    if n < 10 {
        assert(decimal(n).drop_last() =~= Seq::<char>::empty());
    } else {
        lemma_decimal_utf8_len(n / 10);
        assert(decimal(n).drop_last() =~= decimal(n / 10));
    }
}

/// A number below `10^digits` has at most `digits` decimal digits.
proof fn lemma_decimal_len(n: nat, bound: nat, digits: nat)
    requires
        n < bound,
        digits >= 1,
        bound == pow10(digits),
    ensures
        decimal(n).len() <= digits,
    decreases digits,
{
    if n >= 10 {
        assert(digits > 1) by {
            if digits == 1 {
                reveal_with_fuel(pow10, 2);
                assert(pow10(1) == 10);
            }
        }
        assert(pow10(digits) == 10 * pow10((digits - 1) as nat));
        let p = pow10((digits - 1) as nat);
        assert(n / 10 < p) by (nonlinear_arith)
            requires
                n < 10 * p,
        ;
        lemma_decimal_len(n / 10, pow10((digits - 1) as nat), (digits - 1) as nat);
    }
}

/// Ten to the power `k`.
pub open spec fn pow10(k: nat) -> nat
    decreases k,
{
    if k == 0 {
        1
    } else {
        10 * pow10((k - 1) as nat)
    }
}

/// A temperature text, such as "245°C": the digits, the degree sign (two
/// bytes) and "C", at most seven digits to fit the buffer.
pub fn degrees_label(n: u32) -> (l: Label)
    requires
        n < 10_000_000,
    ensures
        label_text(l) == decimal(n as nat) + celsius_suffix(),
{
    let mut label = empty_label();
    let mut buffer = new_decimal_buffer();
    let digits = format_decimal(&mut buffer, n);
    let suffix = "\u{b0}C";
    proof {
        reveal_strlit("\u{b0}C");
        reveal_with_fuel(pow10, 8);
        assert(pow10(7) == 10_000_000);
        lemma_decimal_len(n as nat, 10_000_000, 7);
        lemma_decimal_utf8_len(n as nat);
        assert(Seq::<char>::empty() + decimal(n as nat) =~= decimal(n as nat));
        reveal_with_fuel(utf8_len, 3);
        assert(suffix@.drop_last().drop_last() =~= Seq::<char>::empty());
        assert(utf8_len(suffix@) == 3);
    }
    let ok_digits = push_str_to_label(&mut label, digits);
    assert(ok_digits);
    let ok_suffix = push_str_to_label(&mut label, suffix);
    assert(ok_suffix);
    label
}

/// A duration text, such as "355 Sec.": at most five digits to fit the
/// buffer.
pub fn seconds_label(n: u32) -> (l: Label)
    requires
        n < 100_000,
    ensures
        label_text(l) == decimal(n as nat) + seconds_suffix(),
{
    let mut label = empty_label();
    let mut buffer = new_decimal_buffer();
    let digits = format_decimal(&mut buffer, n);
    let suffix = " Sec.";
    proof {
        reveal_strlit(" Sec.");
        reveal_with_fuel(pow10, 6);
        assert(pow10(5) == 100_000);
        lemma_decimal_len(n as nat, 100_000, 5);
        lemma_decimal_utf8_len(n as nat);
        assert(Seq::<char>::empty() + decimal(n as nat) =~= decimal(n as nat));
        reveal_with_fuel(utf8_len, 6);
        assert(utf8_len(suffix@) == 5);
    }
    let ok_digits = push_str_to_label(&mut label, digits);
    assert(ok_digits);
    let ok_suffix = push_str_to_label(&mut label, suffix);
    assert(ok_suffix);
    label
}

/// A power text, such as "42%".
pub fn percent_label(n: u8) -> (l: Label)
    ensures
        label_text(l) == decimal(n as nat).push('%'),
{
    let mut label = empty_label();
    let mut buffer = new_decimal_buffer();
    let digits = format_decimal(&mut buffer, n as u32);
    proof {
        reveal_with_fuel(pow10, 4);
        assert(pow10(3) == 1000);
        lemma_decimal_len(n as nat, 1000, 3);
        lemma_decimal_utf8_len(n as nat);
        assert(Seq::<char>::empty() + decimal(n as nat) =~= decimal(n as nat));
    }
    let ok_digits = push_str_to_label(&mut label, digits);
    assert(ok_digits);
    let ok_sign = push_char_to_label(&mut label, '%');
    assert(ok_sign);
    label
}

/// The upper-case hexadecimal digit of `d`.
fn hex_digit(d: u8) -> (c: char)
    requires
        d < 16,
    ensures
        c == hex_char(d as nat),
        char_utf8_len(c) == 1,
{
    if d < 10 {
        (48u8 + d) as char
    } else {
        (55u8 + d) as char
    }
}

/// The code of a fault as shown on screen: "0x" and two upper-case
/// hexadecimal digits, such as "0x04" or "0xF3".
pub fn error_code_label(e: ErrorType) -> (l: Label)
    ensures
        label_text(l) == seq!['0', 'x', hex_char((error_code(e) / 16) as nat), hex_char((error_code(e) % 16) as nat)],
{
    let code = e.code();
    let hi = hex_digit(code / 16);
    let lo = hex_digit(code % 16);
    let mut label = empty_label();
    proof {
        reveal_with_fuel(utf8_len, 5);
    }
    let ok0 = push_char_to_label(&mut label, '0');
    assert(ok0);
    let ok1 = push_char_to_label(&mut label, 'x');
    assert(ok1);
    assert(label_text(label) == seq!['0', 'x']);
    assert(utf8_len(label_text(label)) == 2);
    let ok2 = push_char_to_label(&mut label, hi);
    assert(ok2);
    assert(utf8_len(label_text(label)) == 3) by {
        assert(label_text(label).drop_last() =~= seq!['0', 'x']);
    }
    let ok3 = push_char_to_label(&mut label, lo);
    assert(ok3);
    label
}

} // verus!
