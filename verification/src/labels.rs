//! The texts that the panels show: numbers in decimal, and the names of the
//! characters under the bars of the character chart.

use vstd::prelude::*;
use vstd::string::StringExecFns;

verus! {

/// The decimal digit for `d`.
pub open spec fn digit(d: nat) -> char
    recommends
        d < 10,
{
    (('0' as u8) + d) as u8 as char
}

/// `n` in decimal: its digits, the most significant first, without leading
/// zeros, and `0` for zero.
pub open spec fn decimal(n: nat) -> Seq<char>
    decreases n,
{
    if n < 10 {
        seq![digit(n)]
    } else {
        decimal(n / 10).push(digit(n % 10))
    }
}

/// Calls `to_string` of `u128`, which writes the number as `Display` does:
/// in decimal, without sign or leading zeros.
#[verifier::external_body]
fn decimal_text(n: u128) -> (text: String)
    ensures
        text@ == decimal(n as nat),
{
    n.to_string()
}

/// Calls `String::from` on a character: the string of that one character.
#[verifier::external_body]
fn char_text(c: char) -> (text: String)
    ensures
        text@ == seq![c],
{
    String::from(c)
}

/// Whether `c` is a letter or a number by its Unicode properties: the result
/// of `char::is_alphanumeric`, which depends on `c` alone.
pub uninterp spec fn alphanumeric(c: char) -> bool;

/// `char::is_alphanumeric` tells whether a character is alphabetic or
/// numeric; the contract names that result.
pub assume_specification[ char::is_alphanumeric ](c: char) -> (b: bool)
    ensures
        b == alphanumeric(c),
;

/// `caption` followed by `n` in decimal.
pub open spec fn numbered(caption: Seq<char>, n: nat) -> Seq<char> {
    caption + decimal(n)
}

/// Writes `caption` followed by `n` in decimal.
pub fn number_label(caption: &str, n: u128) -> (label: String)
    ensures
        label@ == numbered(caption@, n as nat),
{
    let digits = decimal_text(n);
    String::from_str(caption).concat(digits.as_str())
}

/// The name of a character under its bar: the character itself where it is
/// a letter or a number, else its code point in decimal, as `Code: '..'`.
pub open spec fn char_name(c: char) -> Seq<char> {
    if alphanumeric(c) {
        seq![c]
    } else {
        "Code: '"@ + decimal(c as u32 as nat) + "'"@
    }
}

/// The label under position `index` of the character chart of `table`: the
/// name of the character listed there, and nothing where the table ends
/// before it.
pub open spec fn char_label_of(table: Seq<(char, usize)>, index: int) -> Seq<char> {
    if 0 <= index < table.len() {
        char_name(table[index].0)
    } else {
        Seq::empty()
    }
}

/// Writes the label under position `index` of the character chart of
/// `table`.
pub fn char_label(table: &Vec<(char, usize)>, index: usize) -> (label: String)
    ensures
        label@ == char_label_of(table@, index as int),
{
    if index < table.len() {
        let c = table[index].0;
        if c.is_alphanumeric() {
            char_text(c)
        } else {
            let code = c as u32;
            let digits = decimal_text(code as u128);
            String::from_str("Code: '").concat(digits.as_str()).concat("'")
        }
    } else {
        String::new()
    }
}

} // verus!
