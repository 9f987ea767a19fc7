//! Text fields: their length in bytes, their bytes as a seed, and the decimal
//! text of an identifier.

use vstd::prelude::*;
use vstd::slice::slice_to_vec;
use vstd::string::StringExecFns;
use vstd::utf8::encode_utf8;

verus! {

/// The most bytes that a role name can hold.
pub const MAX_ROLE_LENGTH: usize = 20;

/// The most bytes that the message of a request can hold.
pub const MAX_MESSAGE_LENGTH: usize = 100;

/// The most bytes that a title can hold.
pub const MAX_TITLE_LENGTH: usize = 100;

/// The most bytes that a description can hold.
pub const MAX_DESCRIPTION_LENGTH: usize = 500;

/// The most bytes that a location can hold.
pub const MAX_LOCATION_LENGTH: usize = 100;

/// The most bytes that the note of a sequenced attendance can hold.
pub const MAX_NOTE_LENGTH: usize = 500;

/// The length of a text in bytes, as it is stored.
pub open spec fn byte_length(text: Seq<char>) -> nat {
    encode_utf8(text).len()
}

/// Whether a text fits its cap.
pub open spec fn fits(text: Seq<char>, cap: usize) -> bool {
    byte_length(text) <= cap
}

/// The length of `text` in bytes.
pub fn text_length(text: &String) -> (n: usize)
    ensures
        n == byte_length(text@),
{
    text.as_str().as_bytes().len()
}

/// Whether `text` holds at most `cap` bytes.
pub fn within_cap(text: &String, cap: usize) -> (ok: bool)
    ensures
        ok == fits(text@, cap),
{
    text.as_str().as_bytes().len() <= cap
}

/// The bytes of `text`, as they enter a derivation.
pub fn text_bytes(text: &String) -> (out: Vec<u8>)
    ensures
        out@ == encode_utf8(text@),
{
    slice_to_vec(text.as_str().as_bytes())
}

/// A field after a patch: an empty text in the patch changes nothing.
pub open spec fn patched(before: Seq<char>, patch: Seq<char>) -> Seq<char> {
    if patch.len() == 0 {
        before
    } else {
        patch
    }
}

/// A field after a patch: an empty text in the patch keeps what was there.
pub fn patch_text(before: &String, patch: String) -> (after: String)
    ensures
        after@ == patched(before@, patch@),
{
    if patch.as_str().is_empty() {
        before.clone()
    } else {
        patch
    }
}

/// The character of a decimal digit.
pub open spec fn digit_char(d: nat) -> char
    recommends
        d < 10,
{
    if d == 0 {
        '0'
    } else if d == 1 {
        '1'
    } else if d == 2 {
        '2'
    } else if d == 3 {
        '3'
    } else if d == 4 {
        '4'
    } else if d == 5 {
        '5'
    } else if d == 6 {
        '6'
    } else if d == 7 {
        '7'
    } else if d == 8 {
        '8'
    } else {
        '9'
    }
}

/// The decimal text of a number: no sign, no leading zero but for zero itself.
pub open spec fn decimal_chars(n: nat) -> Seq<char>
    decreases n,
{
    if n < 10 {
        seq![digit_char(n)]
    } else {
        decimal_chars(n / 10).push(digit_char(n % 10))
    }
}

/// The text of a decimal digit.
fn digit_text(d: u64) -> (text: &'static str)
    requires
        d < 10,
    ensures
        text@ == seq![digit_char(d as nat)],
{
    proof {
        reveal_strlit("0");
        reveal_strlit("1");
        reveal_strlit("2");
        reveal_strlit("3");
        reveal_strlit("4");
        reveal_strlit("5");
        reveal_strlit("6");
        reveal_strlit("7");
        reveal_strlit("8");
        reveal_strlit("9");
    }
    let text = if d == 0 {
        "0"
    } else if d == 1 {
        "1"
    } else if d == 2 {
        "2"
    } else if d == 3 {
        "3"
    } else if d == 4 {
        "4"
    } else if d == 5 {
        "5"
    } else if d == 6 {
        "6"
    } else if d == 7 {
        "7"
    } else if d == 8 {
        "8"
    } else {
        "9"
    };
    assert(text@ =~= seq![digit_char(d as nat)]);
    text
}

/// The decimal text of an identifier.
pub fn decimal_text(n: u64) -> (text: String)
    ensures
        text@ == decimal_chars(n as nat),
    decreases n,
{
    if n < 10 {
        digit_text(n).to_owned()
    } else {
        let mut text = decimal_text(n / 10);
        text.append(digit_text(n % 10));
        assert(text@ =~= decimal_chars((n / 10) as nat).push(digit_char((n % 10) as nat)));
        text
    }
}

} // verus!
