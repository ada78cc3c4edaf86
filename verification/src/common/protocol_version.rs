//! Versions of the protocol.

use vstd::prelude::*;
use vstd::string::StringExecFns;

use crate::text::{self, chars_of, u16_to_string};

verus! {

/// Struct containing the major and minor version of a protocol.
#[derive(Clone, Copy, Debug, PartialEq, Eq, Structural)]
pub struct ProtocolVersion {
    pub major: u16,
    pub minor: u16,
}

/// Whether the character is a decimal digit.
pub open spec fn is_digit(c: char) -> bool {
    '0' <= c && c <= '9'
}

/// Whether the text is a decimal number.
pub open spec fn is_numeral(s: Seq<char>) -> bool {
    s.len() > 0 && forall|i: int| 0 <= i < s.len() ==> is_digit(#[trigger] s[i])
}

/// The number that decimal digits stand for.
pub open spec fn numeral_value(s: Seq<char>) -> nat
    decreases s.len(),
{
    if s.len() == 0 {
        0
    } else {
        numeral_value(s.drop_last()) * 10 + (s.last() as nat - '0' as nat) as nat
    }
}

/// The number from 0 to 65535 that the text stands for, if it does.
pub open spec fn parsed_u16(s: Seq<char>) -> Option<u16> {
    if is_numeral(s) && numeral_value(s) <= u16::MAX {
        Some(numeral_value(s) as u16)
    } else {
        None
    }
}

/// The version that the text stands for if the point at `i` is what separates its numbers.
pub open spec fn parsed_at(s: Seq<char>, i: int) -> Option<ProtocolVersion> {
    match (parsed_u16(s.take(i)), parsed_u16(s.skip(i + 1))) {
        (Some(major), Some(minor)) => Some(ProtocolVersion { major, minor }),
        _ => None,
    }
}

/// The version that the text stands for: two numbers with a point between them.
pub open spec fn parsed_version(s: Seq<char>) -> Option<ProtocolVersion> {
    if s.contains('.') {
        parsed_at(s, s.index_of_first('.')->0)
    } else {
        None
    }
}

/// The number from 0 to 65535 that a part of the characters stands for, if it does.
fn parse_u16(chars: &Vec<char>, from: usize, to: usize) -> (r: Option<u16>)
    requires
        from <= to <= chars@.len(),
    ensures
        r == parsed_u16(chars@.subrange(from as int, to as int)),
{
    if from == to {
        return None;
    }
    let mut value: u32 = 0;
    let mut too_large = false;
    let ghost part = chars@.subrange(from as int, to as int);
    assert(part.take(0) =~= Seq::<char>::empty());
    for i in from..to
        invariant
            from <= i <= to <= chars@.len(),
            part == chars@.subrange(from as int, to as int),
            forall|j: int| 0 <= j < i - from ==> is_digit(#[trigger] part[j]),
            too_large == (numeral_value(part.take(i - from)) > u16::MAX),
            !too_large ==> value == numeral_value(part.take(i - from)),
    {
        let c = chars[i];
        assert(part[i - from] == c);
        if !('0' <= c && c <= '9') {
            assert(!is_digit(part[i - from]));
            return None;
        }
        proof {
            assert(part.take(i + 1 - from).drop_last() =~= part.take(i - from));
            assert(part.take(i + 1 - from).last() == c);
        }
        if !too_large {
            value = value * 10 + (c as u32 - '0' as u32);
            if value > 65535 {
                too_large = true;
            }
        }
    }
    assert(part.take(to - from) =~= part);
    if too_large {
        None
    } else {
        Some(value as u16)
    }
}

impl ProtocolVersion {
    /// The text of the version.
    pub open spec fn text(self) -> Seq<char> {
        text::decimal(self.major as nat) + "."@ + text::decimal(self.minor as nat)
    }

    /// The text of the version: its numbers with a point between them.
    pub fn to_string(&self) -> (r: String)
        ensures
            r@ == self.text(),
    {
        u16_to_string(self.major).concat(".").concat(u16_to_string(self.minor).as_str())
    }

    /// Parses a protocol version in the format major.minor
    pub fn parse_protocol_version(version: &str) -> (r: Option<ProtocolVersion>)
        ensures
            r == parsed_version(version@),
    {
        let chars = chars_of(version);
        let n = chars.len();
        let mut point: usize = 0;
        while point < n && chars[point] != '.'
            invariant
                point <= n == chars@.len(),
                chars@ == version@,
                forall|j: int| 0 <= j < point ==> chars@[j] != '.',
            decreases n - point,
        {
            point = point + 1;
        }
        if point == n {
            return None;
        }
        proof {
            version@.index_of_first_ensures('.');
            assert(version@[point as int] == '.');
            assert(version@.index_of_first('.') == Some(point as int));
            assert(version@.subrange(0, point as int) =~= version@.take(point as int));
            assert(version@.subrange(point + 1, n as int) =~= version@.skip(point + 1));
        }
        let major = parse_u16(&chars, 0, point);
        let minor = parse_u16(&chars, point + 1, n);
        match (major, minor) {
            (Some(major), Some(minor)) => Some(ProtocolVersion { major, minor }),
            _ => None,
        }
    }

    /// Whether the major version is one of the supported ones.
    pub fn is_supported(&self, supported_major_versions: &Vec<u16>) -> (r: bool)
        ensures
            r == supported_major_versions@.contains(self.major),
    {
        for i in 0..supported_major_versions.len()
            invariant
                forall|j: int| 0 <= j < i ==> supported_major_versions@[j] != self.major,
        {
            if supported_major_versions[i] == self.major {
                return true;
            }
        }
        false
    }
}

/// The decimal notation of a number stands for that number.
proof fn lemma_decimal_value(n: nat)
    ensures
        is_numeral(text::decimal(n)),
        numeral_value(text::decimal(n)) == n,
    decreases n,
{
    let d = text::decimal(n);
    let c = text::digit(n % 10);
    assert(is_digit(c) && c as nat - '0' as nat == n % 10);
    if n < 10 {
        assert(d.drop_last() =~= Seq::<char>::empty());
        assert(numeral_value(d.drop_last()) == 0);
        assert(is_digit(d[0]));
    } else {
        lemma_decimal_value(n / 10);
        assert(d.drop_last() =~= text::decimal(n / 10));
    }
}

/// A version is read from a packet as it was written to it.
pub proof fn law_version_read_as_written(v: ProtocolVersion)
    ensures
        parsed_version(v.text()) == Some(v),
{
    let major = text::decimal(v.major as nat);
    let minor = text::decimal(v.minor as nat);
    let s = v.text();
    reveal_strlit(".");
    lemma_decimal_value(v.major as nat);
    lemma_decimal_value(v.minor as nat);
    let point = major.len() as int;
    assert(s[point] == '.');
    s.index_of_first_ensures('.');
    assert forall|j: int| 0 <= j < point implies s[j] != '.' by {
        assert(is_digit(major[j]));
    }
    assert(s.index_of_first('.') == Some(point));
    assert(s.take(point) =~= major);
    assert(s.skip(point + 1) =~= minor);
}

/// The text of the major versions: their numbers with a space between them.
pub open spec fn major_versions_text(versions: Seq<u16>) -> Seq<char>
    decreases versions.len(),
{
    if versions.len() == 0 {
        Seq::empty()
    } else if versions.len() == 1 {
        text::decimal(versions[0] as nat)
    } else {
        major_versions_text(versions.drop_last()) + " "@ + text::decimal(versions.last() as nat)
    }
}

/// Converts a list of supported protocol major versions to a space-separated string
pub fn supported_protocol_major_versions_to_string(versions: &Vec<u16>) -> (r: String)
    ensures
        r@ == major_versions_text(versions@),
{
    let mut r = String::new();
    for i in 0..versions.len()
        invariant
            r@ == major_versions_text(versions@.take(i as int)),
    {
        if i > 0 {
            r.append(" ");
        }
        r.append(u16_to_string(versions[i]).as_str());
        proof {
            let so_far = versions@.take(i + 1);
            assert(so_far.drop_last() =~= versions@.take(i as int));
            assert(so_far.last() == versions@[i as int]);
            if i == 0 {
                assert(r@ =~= text::decimal(so_far[0] as nat));
            }
        }
    }
    assert(versions@.take(versions@.len() as int) =~= versions@);
    r
}

/// A text is a version exactly if it is two numbers with a point between them: it is read as the
/// number in front of the first point and the number behind it.
pub proof fn law_version_is_two_numbers(major: Seq<char>, minor: Seq<char>)
    requires
        !major.contains('.'),
    ensures
        parsed_version(major.push('.') + minor) == match (parsed_u16(major), parsed_u16(minor)) {
            (Some(a), Some(b)) => Some(ProtocolVersion { major: a, minor: b }),
            _ => None,
        },
        parsed_version(major) is None,
{
    let s = major.push('.') + minor;
    let point = major.len() as int;
    assert(s[point] == '.');
    s.index_of_first_ensures('.');
    assert forall|j: int| 0 <= j < point implies s[j] != '.' by {
        assert(major.contains(major[j]));
    }
    assert(s.index_of_first('.') == Some(point));
    assert(s.take(point) =~= major);
    assert(s.skip(point + 1) =~= minor);
}

/// A number is read exactly from its decimal notation, with any number of zeros in front, as long as
/// it fits 16 bits; nothing that holds another character than a digit, or nothing at all, is a
/// number.
pub proof fn law_numbers_are_decimal(n: nat, s: Seq<char>)
    ensures
        n <= 65535 ==> parsed_u16(text::decimal(n)) == Some(n as u16),
        n > 65535 ==> parsed_u16(text::decimal(n)) is None,
        s.len() > 0 ==> parsed_u16(seq!['0'] + s) == parsed_u16(s),
        s.len() == 0 ==> parsed_u16(s) is None,
        (exists|i: int|
            0 <= i < s.len() && !('0' as u32 <= (#[trigger] s[i]) as u32 <= '9' as u32))
            ==> parsed_u16(s) is None,
{
    lemma_decimal_value(n);
    if s.len() > 0 {
        let longer = seq!['0'] + s;
        assert forall|i: int| 0 <= i < s.len() implies s[i] == longer[i + 1] by {}
        if is_numeral(s) {
            assert forall|i: int| 0 <= i < longer.len() implies is_digit(#[trigger] longer[i]) by {
                if i > 0 {
                    assert(is_digit(s[i - 1]));
                }
            }
        }
        if is_numeral(longer) {
            assert forall|i: int| 0 <= i < s.len() implies is_digit(#[trigger] s[i]) by {
                assert(is_digit(longer[i + 1]));
            }
        }
        lemma_leading_zero(s);
    }
    if exists|i: int|
        0 <= i < s.len() && !('0' as u32 <= (#[trigger] s[i]) as u32 <= '9' as u32) {
        let i = choose|i: int|
            0 <= i < s.len() && !('0' as u32 <= (#[trigger] s[i]) as u32 <= '9' as u32);
        assert(!is_digit(s[i]));
    }
}

/// A zero in front does not change a number.
proof fn lemma_leading_zero(s: Seq<char>)
    ensures
        numeral_value(seq!['0'] + s) == numeral_value(s),
    decreases s.len(),
{
    let longer = seq!['0'] + s;
    if s.len() > 0 {
        lemma_leading_zero(s.drop_last());
        assert(longer.drop_last() =~= seq!['0'] + s.drop_last());
    } else {
        assert(longer.drop_last() =~= Seq::<char>::empty());
        assert(numeral_value(longer.drop_last()) == 0);
    }
}

/// The text of major versions is that of the first of them, a space, and that of the others.
pub proof fn law_major_versions_are_listed(versions: Seq<u16>, more: Seq<u16>)
    requires
        versions.len() > 0,
        more.len() > 0,
    ensures
        major_versions_text(versions + more) == major_versions_text(versions) + " "@
            + major_versions_text(more),
        major_versions_text(seq![versions[0]]) == text::decimal(versions[0] as nat),
        major_versions_text(Seq::empty()).len() == 0,
    decreases more.len(),
{
    let all = versions + more;
    assert(all.drop_last() =~= versions + more.drop_last());
    if more.len() > 1 {
        law_major_versions_are_listed(versions, more.drop_last());
        assert(major_versions_text(all) =~= major_versions_text(versions) + " "@
            + major_versions_text(more));
    } else {
        assert(versions + more.drop_last() =~= versions);
    }
}

/// The text of a version is its two numbers, in decimal notation and with a point between them.
pub proof fn law_text_of_versions(v: ProtocolVersion)
    ensures
        v.text() == text::decimal(v.major as nat).push('.') + text::decimal(v.minor as nat),
{
    reveal_strlit(".");
    assert(v.text() =~= text::decimal(v.major as nat).push('.') + text::decimal(v.minor as nat));
}

} // verus!
