//! Text that X11 properties carry as bytes: window manager and output names.

use vstd::prelude::*;
use vstd::utf8::decode_utf8;
use vstd::utf8::valid_utf8;

verus! {

/// Whether `c` has the Unicode `White_Space` property (PropList.txt).
pub open spec fn is_white_space(c: char) -> bool {
    let v = c as u32;
    ||| 0x9 <= v <= 0xd
    ||| v == 0x20
    ||| v == 0x85
    ||| v == 0xa0
    ||| v == 0x1680
    ||| 0x2000 <= v <= 0x200a
    ||| v == 0x2028
    ||| v == 0x2029
    ||| v == 0x202f
    ||| v == 0x205f
    ||| v == 0x3000
}

/// Whether `bytes` is a name that can be shown: valid UTF-8 that holds no NUL character and is
/// not empty once surrounding whitespace is trimmed.
pub open spec fn is_visible_name(bytes: Seq<u8>) -> bool {
    &&& valid_utf8(bytes)
    &&& !decode_utf8(bytes).contains('\0')
    &&& exists|i: int|
        0 <= i < decode_utf8(bytes).len() && !is_white_space(#[trigger] decode_utf8(bytes)[i])
}

/// Calls `std::str::from_utf8`, which succeeds exactly on valid UTF-8 and then yields the text
/// that the bytes encode; the text is handed back as its characters.
#[verifier::external_body]
fn utf8_chars(bytes: &[u8]) -> (chars: Option<Vec<char>>)
    ensures
        chars is Some <==> valid_utf8(bytes@),
        chars matches Some(c) ==> c@ == decode_utf8(bytes@),
{
    let text = std::str::from_utf8(bytes).ok()?;
    Some(text.chars().collect())
}

/// Calls `char::is_whitespace`, which is true exactly for the characters that have the Unicode
/// `White_Space` property.
#[verifier::external_body]
fn char_is_whitespace(c: char) -> (white: bool)
    ensures
        white == is_white_space(c),
{
    c.is_whitespace()
}

/// Decides whether `bytes` is a visible name, as `std::str::from_utf8` followed by a check that
/// the text has no `'\0'` and that `trim()` leaves something.
pub fn visible_name(bytes: &[u8]) -> (visible: bool)
    ensures
        visible == is_visible_name(bytes@),
{
    let chars = match utf8_chars(bytes) {
        Some(chars) => chars,
        Option::None => return false,
    };
    let mut has_nul = false;
    let mut has_visible = false;
    let mut i: usize = 0;
    while i < chars.len()
        invariant
            i <= chars@.len(),
            has_nul == chars@.take(i as int).contains('\0'),
            has_visible == exists|j: int| 0 <= j < i && !is_white_space(#[trigger] chars@[j]),
        decreases chars@.len() - i,
    {
        let c = chars[i];
        proof {
            assert(chars@.take(i + 1) =~= chars@.take(i as int).push(c));
            if chars@.take(i as int).contains('\0') {
                let j = choose|j: int| 0 <= j < i && chars@.take(i as int)[j] == '\0';
                assert(chars@.take(i + 1)[j] == '\0');
            }
            if c == '\0' {
                assert(chars@.take(i + 1)[i as int] == '\0');
            }
        }
        if c == '\0' {
            has_nul = true;
        }
        if !char_is_whitespace(c) {
            has_visible = true;
        }
        i += 1;
    }
    proof {
        assert(chars@.take(i as int) =~= chars@);
    }
    !has_nul && has_visible
}

} // verus!
