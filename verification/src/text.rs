//! What the editor takes for white space, and how long a text is.

use vstd::prelude::*;
use vstd::utf8::{encode_scalar, encode_utf8};

verus! {

/// Whether `c` has the Unicode property `White_Space`: the only characters
/// that separate words.
pub open spec fn is_white_space(c: char) -> bool {
    let code = c as u32;
    ||| 0x09 <= code <= 0x0D
    ||| code == 0x20
    ||| code == 0x85
    ||| code == 0xA0
    ||| code == 0x1680
    ||| 0x2000 <= code <= 0x200A
    ||| code == 0x2028
    ||| code == 0x2029
    ||| code == 0x202F
    ||| code == 0x205F
    ||| code == 0x3000
}

/// `char::is_whitespace` tells whether a character has the Unicode property
/// `White_Space`, whose members [`is_white_space`] lists.
pub assume_specification[ char::is_whitespace ](c: char) -> (white: bool)
    ensures
        white == is_white_space(c),
;

/// A text has at least as many bytes in UTF-8 as it has characters.
proof fn lemma_chars_within_bytes(text: Seq<char>)
    ensures
        text.len() <= encode_utf8(text).len(),
    decreases text.len(),
{
    if text.len() > 0 {
        lemma_chars_within_bytes(text.drop_first());
    }
}

/// The size of `text` in bytes of UTF-8. No text has more characters than
/// that.
pub fn utf8_len(text: &str) -> (size: usize)
    ensures
        size == encode_utf8(text@).len(),
        text@.len() <= size,
{
    proof {
        lemma_chars_within_bytes(text@);
    }
    text.as_bytes().len()
}

} // verus!
