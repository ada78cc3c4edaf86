//! What the patterns of the protocol have in common.

pub mod aio_protocol_error;
pub mod payload_serialize;
pub mod protocol_version;
pub mod topic_processor;
pub mod user_properties;

use vstd::prelude::*;

use crate::text::chars_of;

verus! {

/// Whether a code point must not occur in the strings of MQTT packets: control characters and
/// non-characters.
pub open spec fn is_invalid_code_point(n: u32) -> bool {
    ||| n <= 0x1F
    ||| 0x7F <= n <= 0x9F
    ||| 0xFDD0 <= n <= 0xFDEF
    ||| n % 0x1_0000 >= 0xFFFE
}

/// Whether the text holds a character that must not occur in the strings of MQTT packets.
pub open spec fn has_invalid_utf8(s: Seq<char>) -> bool {
    exists|i: int| 0 <= i < s.len() && is_invalid_code_point(#[trigger] s[i] as u32)
}

/// Returns true if the string contains any characters that are invalid in the UTF-8 strings of MQTT
/// packets: control characters and non-characters.
pub fn is_invalid_utf8(s: &str) -> (r: bool)
    ensures
        r == has_invalid_utf8(s@),
{
    let chars = chars_of(s);
    for i in 0..chars.len()
        invariant
            chars@ == s@,
            forall|j: int| 0 <= j < i ==> !is_invalid_code_point(#[trigger] s@[j] as u32),
    {
        let n: u32 = chars[i] as u32;
        if n <= 0x1F || (0x7F <= n && n <= 0x9F) || (0xFDD0 <= n && n <= 0xFDEF) || n % 0x1_0000
            >= 0xFFFE {
            assert(is_invalid_code_point(s@[i as int] as u32));
            return true;
        }
    }
    false
}

/// A text holds an invalid character exactly if one of its parts does, and the empty text holds none.
pub proof fn law_invalid_if_a_part_is(s: Seq<char>, t: Seq<char>)
    ensures
        has_invalid_utf8(s + t) <==> has_invalid_utf8(s) || has_invalid_utf8(t),
        !has_invalid_utf8(Seq::empty()),
{
    let whole = s + t;
    if has_invalid_utf8(s) {
        let i = choose|i: int| 0 <= i < s.len() && is_invalid_code_point(#[trigger] s[i] as u32);
        assert(is_invalid_code_point(whole[i] as u32));
    }
    if has_invalid_utf8(t) {
        let i = choose|i: int| 0 <= i < t.len() && is_invalid_code_point(#[trigger] t[i] as u32);
        assert(is_invalid_code_point(whole[s.len() + i] as u32));
    }
    if has_invalid_utf8(whole) {
        let i = choose|i: int|
            0 <= i < whole.len() && is_invalid_code_point(#[trigger] whole[i] as u32);
        if i < s.len() {
            assert(is_invalid_code_point(s[i] as u32));
        } else {
            assert(is_invalid_code_point(t[i - s.len()] as u32));
        }
    }
}

/// The characters that are invalid are the control characters, which come before the space and from
/// the delete character on to 0x9F, and the non-characters, which are 32 in one range and the last two
/// of every plane.
pub proof fn law_invalid_characters(c: char)
    ensures
        has_invalid_utf8(seq![c]) <==> {
            let n = c as u32;
            ||| n < ' ' as u32
            ||| '\u{7F}' as u32 <= n < 0xA0
            ||| 0xFDD0 <= n < 0xFDD0 + 32
            ||| n % 0x1_0000 == 0xFFFE
            ||| n % 0x1_0000 == 0xFFFF
        },
{
    assert(seq![c][0] == c);
    if is_invalid_code_point(c as u32) {
        assert(is_invalid_code_point(seq![c][0] as u32));
    }
}

} // verus!
