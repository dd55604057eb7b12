//! Text for display: numbers in decimal, and names as readable text.

use vstd::prelude::*;
use vstd::string::StringExecFns;
use vstd::utf8::{
    decode_utf8, encode_utf8, encode_utf8_decode_utf8, encode_utf8_valid_utf8, valid_utf8,
};

verus! {

/// The character of the decimal digit `digit`.
pub open spec fn digit_char(digit: nat) -> char {
    if digit == 0 {
        '0'
    } else if digit == 1 {
        '1'
    } else if digit == 2 {
        '2'
    } else if digit == 3 {
        '3'
    } else if digit == 4 {
        '4'
    } else if digit == 5 {
        '5'
    } else if digit == 6 {
        '6'
    } else if digit == 7 {
        '7'
    } else if digit == 8 {
        '8'
    } else {
        '9'
    }
}

/// The decimal numeral of `value`: its digits from the most significant to
/// the last, with no leading zero; zero is the single digit `0`.
pub open spec fn decimal(value: nat) -> Seq<char>
    decreases value,
{
    if value < 10 {
        seq![digit_char(value)]
    } else {
        decimal(value / 10).push(digit_char(value % 10))
    }
}

/// The text that `String::from_utf8_lossy` makes of `bytes`.
pub uninterp spec fn utf8_lossy(bytes: Seq<u8>) -> Seq<char>;

/// The text that the bytes of a name spell: the text that they encode where
/// they are valid UTF-8, and otherwise what `String::from_utf8_lossy` makes
/// of them.
pub open spec fn name_text(bytes: Seq<u8>) -> Seq<char> {
    if valid_utf8(bytes) {
        decode_utf8(bytes)
    } else {
        utf8_lossy(bytes)
    }
}

/// `String::from_utf8_lossy`: the bytes read as UTF-8 text. Bytes that are
/// valid UTF-8 give the text that they encode; what stands in the text for
/// other bytes is left to `utf8_lossy`.
#[verifier::external_body]
fn lossy_text(bytes: &[u8]) -> (text: String)
    ensures
        text@ == utf8_lossy(bytes@),
        valid_utf8(bytes@) ==> text@ == decode_utf8(bytes@),
{
    String::from_utf8_lossy(bytes).into_owned()
}

/// Reads the bytes of a name as text.
pub fn name_to_text(bytes: &[u8]) -> (text: String)
    ensures
        text@ == name_text(bytes@),
{
    lossy_text(bytes)
}

fn digit_text(digit: u32) -> (text: &'static str)
    requires
        digit < 10,
    ensures
        text@ == seq![digit_char(digit as nat)],
{
    proof {
        reveal_strlit("0");
        reveal_strlit("1");
        reveal_strlit("2");
        reveal_strlit("3");
        reveal_strlit("4");
        reveal_strlit("5");
        reveal_strlit("6");
        reveal_strlit("7");
        reveal_strlit("8");
        reveal_strlit("9");
    }
    let text = if digit == 0 {
        "0"
    } else if digit == 1 {
        "1"
    } else if digit == 2 {
        "2"
    } else if digit == 3 {
        "3"
    } else if digit == 4 {
        "4"
    } else if digit == 5 {
        "5"
    } else if digit == 6 {
        "6"
    } else if digit == 7 {
        "7"
    } else if digit == 8 {
        "8"
    } else {
        "9"
    };
    assert(text@ =~= seq![digit_char(digit as nat)]);
    text
}

/// Writes `value` in decimal.
pub fn decimal_text(value: u32) -> (text: String)
    ensures
        text@ == decimal(value as nat),
    decreases value,
{
    if value < 10 {
        digit_text(value).to_owned()
    } else {
        let mut text = decimal_text(value / 10);
        let last = digit_text(value % 10);
        text.append(last);
        assert(text@ =~= decimal(value as nat / 10).push(digit_char(value as nat % 10)));
        text
    }
}

/// Puts four fields in a row with a `|` between each two.
pub fn join_fields(first: &str, second: &str, third: &str, fourth: &str) -> (text: String)
    ensures
        text@ == first@ + "|"@ + second@ + "|"@ + third@ + "|"@ + fourth@,
{
    let mut text = first.to_owned();
    text.append("|");
    text.append(second);
    text.append("|");
    text.append(third);
    text.append("|");
    text.append(fourth);
    text
}

/// Puts two fields in a row with a `|` between them.
pub fn join_pair(first: &str, second: &str) -> (text: String)
    ensures
        text@ == first@ + "|"@ + second@,
{
    let mut text = first.to_owned();
    text.append("|");
    text.append(second);
    text
}

/// A name that was given as text spells that text: reading the UTF-8 bytes
/// of `chars` as a name gives `chars` back.
pub proof fn lemma_name_text_of_encoded(chars: Seq<char>)
    ensures
        name_text(encode_utf8(chars)) == chars,
{
    encode_utf8_valid_utf8(chars);
    encode_utf8_decode_utf8(chars);
}

} // verus!
