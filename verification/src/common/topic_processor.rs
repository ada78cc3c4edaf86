//! Rules on the characters of topics.

use vstd::prelude::*;

use crate::text::chars_of;

verus! {

/// Whether a character must not occur in a level of a topic pattern: all but the printable ASCII
/// characters, and `+`, `#`, `{` and `}`.
pub open spec fn is_invalid_char(c: char) -> bool {
    ||| !('!' <= c && c <= '~')
    ||| c == '+'
    ||| c == '#'
    ||| c == '{'
    ||| c == '}'
}

/// Whether the text holds a character that must not occur in a level of a topic pattern.
pub open spec fn has_invalid_char(s: Seq<char>) -> bool {
    exists|i: int| 0 <= i < s.len() && is_invalid_char(#[trigger] s[i])
}

/// Whether the text holds two separators in a row.
pub open spec fn has_empty_level(s: Seq<char>) -> bool {
    exists|i: int| 0 <= i < s.len() - 1 && #[trigger] s[i] == '/' && s[i + 1] == '/'
}

/// Whether the text can stand for a token of a topic pattern: it is not empty, holds no invalid
/// character, neither begins nor ends with a separator, and does not hold two of them in a row.
pub open spec fn can_replace(s: Seq<char>) -> bool {
    &&& s.len() > 0
    &&& !has_invalid_char(s)
    &&& s[0] != '/'
    &&& s.last() != '/'
    &&& !has_empty_level(s)
}

/// Whether the characters hold an invalid one.
fn holds_invalid_char(chars: &Vec<char>) -> (r: bool)
    ensures
        r == has_invalid_char(chars@),
{
    for i in 0..chars.len()
        invariant
            forall|j: int| 0 <= j < i ==> !is_invalid_char(#[trigger] chars@[j]),
    {
        let c = chars[i];
        if !('!' <= c && c <= '~') || c == '+' || c == '#' || c == '{' || c == '}' {
            assert(is_invalid_char(chars@[i as int]));
            return true;
        }
    }
    false
}

/// Check if a string contains characters that are invalid in a level of a topic pattern
///
/// Returns true if the string contains any of the following:
/// - Non-ASCII characters
/// - Characters outside the range of '!' to '~'
/// - Characters '+', '#', '{', '}'
pub fn contains_invalid_char(s: &str) -> (r: bool)
    ensures
        r == has_invalid_char(s@),
{
    holds_invalid_char(&chars_of(s))
}

/// Determine whether a string is valid for use as a replacement string in a custom replacement map
/// or a topic namespace.
///
/// Returns false if the string is empty, contains an invalid character, starts or ends with a '/',
/// or contains "//"
pub fn is_valid_replacement(s: &str) -> (r: bool)
    ensures
        r == can_replace(s@),
{
    let chars = chars_of(s);
    let n = chars.len();
    if n == 0 || holds_invalid_char(&chars) || chars[0] == '/' || chars[n - 1] == '/' {
        return false;
    }
    for i in 0..n - 1
        invariant
            chars@ == s@,
            n == chars@.len(),
            n > 0,
            forall|j: int| 0 <= j < i ==> !(#[trigger] chars@[j] == '/' && chars@[j + 1] == '/'),
    {
        if chars[i] == '/' && chars[i + 1] == '/' {
            assert(s@[i as int] == '/' && s@[i + 1] == '/');
            return false;
        }
    }
    true
}

/// Two texts with a separator between them can stand for a token of a topic pattern exactly if both
/// of them can.
pub proof fn law_replacements_are_put_together(s: Seq<char>, t: Seq<char>)
    ensures
        can_replace(s.push('/') + t) <==> can_replace(s) && can_replace(t),
{
    let whole = s.push('/') + t;
    let n = s.len() as int;
    assert(whole[n] == '/');
    assert forall|i: int| 0 <= i < n implies whole[i] == s[i] by {}
    assert forall|i: int| 0 <= i < t.len() implies whole[n + 1 + i] == t[i] by {}
    assert(!is_invalid_char('/'));
    if can_replace(whole) {
        assert(n > 0 && t.len() > 0);
        assert forall|i: int| 0 <= i < n implies !is_invalid_char(#[trigger] s[i]) by {
            assert(!is_invalid_char(whole[i]));
        }
        assert forall|i: int| 0 <= i < t.len() implies !is_invalid_char(#[trigger] t[i]) by {
            assert(!is_invalid_char(whole[n + 1 + i]));
        }
        assert forall|i: int| 0 <= i < n - 1 implies !(#[trigger] s[i] == '/' && s[i + 1]
            == '/') by {
            assert(!(whole[i] == '/' && whole[i + 1] == '/'));
        }
        assert forall|i: int| 0 <= i < t.len() - 1 implies !(#[trigger] t[i] == '/' && t[i + 1]
            == '/') by {
            assert(!(whole[n + 1 + i] == '/' && whole[n + 2 + i] == '/'));
        }
        assert(whole[n - 1] == s.last());
        assert(!(whole[n - 1] == '/' && whole[n] == '/'));
        assert(!(whole[n] == '/' && whole[n + 1] == '/'));
        assert(whole.last() == t.last());
    }
    if can_replace(s) && can_replace(t) {
        assert forall|i: int| 0 <= i < whole.len() implies !is_invalid_char(#[trigger] whole[i]) by {
            if i < n {
                assert(!is_invalid_char(s[i]));
            } else if i > n {
                assert(!is_invalid_char(t[i - n - 1]));
            }
        }
        assert forall|i: int| 0 <= i < whole.len() - 1 implies !(#[trigger] whole[i] == '/'
            && whole[i + 1] == '/') by {
            if i < n - 1 {
                assert(!(s[i] == '/' && s[i + 1] == '/'));
            } else if i > n {
                assert(!(t[i - n - 1] == '/' && t[i - n] == '/'));
            } else if i == n - 1 {
                assert(whole[i] == s.last());
            } else {
                assert(whole[i + 1] == t[0]);
            }
        }
        assert(whole[0] == s[0]);
        assert(whole.last() == t.last());
    }
}

/// One level can stand for a token of a topic pattern exactly if it is not empty, and each of its
/// characters is a visible one of ASCII that has no meaning in topics.
pub proof fn law_replacements_of_one_level(s: Seq<char>)
    requires
        !s.contains('/'),
    ensures
        can_replace(s) <==> s.len() > 0 && forall|i: int|
            0 <= i < s.len() ==> {
                &&& 0x21 <= (#[trigger] s[i]) as int <= 0x7E
                &&& s[i] != '+'
                &&& s[i] != '#'
                &&& s[i] != '{'
                &&& s[i] != '}'
            },
{
    assert forall|i: int| 0 <= i < s.len() implies s[i] != '/' by {
        assert(s.contains(s[i]));
    }
    assert forall|i: int| 0 <= i < s.len() implies is_invalid_char(#[trigger] s[i]) == !{
        &&& 0x21 <= s[i] as int <= 0x7E
        &&& s[i] != '+'
        &&& s[i] != '#'
        &&& s[i] != '{'
        &&& s[i] != '}'
    } by {}
}

} // verus!
