use vstd::prelude::*;
use vstd::string::*;

verus! {

/// The character that stands for `digit` in decimal notation.
pub open spec fn digit_char(digit: nat) -> char
    recommends
        digit < 10,
{
    (('0' as u8) + digit) as char
}

/// The decimal notation of `number`, without a sign and without leading
/// zeros.
pub open spec fn decimal_digits(number: nat) -> Seq<char>
    decreases number,
{
    if number < 10 {
        seq![digit_char(number)]
    } else {
        decimal_digits(number / 10).push(digit_char(number % 10))
    }
}

/// `c` is a printable ASCII character other than the space.
pub open spec fn is_graphic(c: char) -> bool {
    '!' <= c <= '~'
}

/// Appends `c` to `text`. The contract is that of `String::push` of the
/// standard library: the text grows by this one character at its end.
#[verifier::external_body]
pub(crate) fn push_char(text: &mut String, c: char)
    ensures
        final(text)@ == old(text)@.push(c),
{
    text.push(c)
}

/// Appends the decimal notation of `number` to `text`.
pub fn append_decimal(text: &mut String, number: u64)
    ensures
        final(text)@ == old(text)@ + decimal_digits(number as nat),
    decreases number,
{
    if number >= 10 {
        append_decimal(text, number / 10);
    }
    let digit: u8 = (number % 10) as u8;
    push_char(text, (48u8 + digit) as char);
}

/// `message` followed by the decimal notation of `number`.
pub fn append_number(message: &str, number: u64) -> (out: String)
    ensures
        out@ == message@ + decimal_digits(number as nat),
{
    let mut out = String::from_str(message);
    append_decimal(&mut out, number);
    out
}

/// `message` with the character at position `index` replaced by `new_char`.
/// Positions count characters, not bytes.
pub fn replace_char(message: &str, index: usize, new_char: char) -> (out: String)
    requires
        index < message@.len(),
    ensures
        out@ == message@.update(index as int, new_char),
{
    let length = message.unicode_len();
    let mut out = String::from_str(message.substring_char(0, index));
    push_char(&mut out, new_char);
    out.append(message.substring_char(index + 1, length));
    out
}

} // verus!
