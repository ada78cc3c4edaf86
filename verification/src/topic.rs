//! MQTT topic names and topic filters, and which names a filter matches.
//!
//! Both are made of levels, with `/` between any two. In a filter the level `+` stands for any one
//! level, and the level `#`, which has to be the last, for any number of levels. A filter may be
//! that of a shared subscription, `$share/{name}/{filter}`, and then matches what `{filter}` does.

use std::str::FromStr;

use vstd::prelude::*;

use crate::text::chars_of;

verus! {

/// Why a string is not a topic name or topic filter.
#[derive(Clone, Copy, Debug, PartialEq, Eq, Structural)]
pub enum TopicParseError {
    /// The topic is empty
    Empty,
    /// The topic contains the null character
    NullCharacter,
    /// A topic name contains a wildcard character
    WildcardInTopicName,
    /// A topic filter contains a wildcard character that is not alone on its level, or `#` before
    /// the last level
    MisplacedWildcard,
    /// The filter of a shared subscription lacks its name or its topic filter
    InvalidSharedSubscription,
}

impl TopicParseError {
    /// The message that describes the error.
    pub open spec fn message(self) -> Seq<char> {
        match self {
            TopicParseError::Empty => "topic must be at least one character long"@,
            TopicParseError::NullCharacter => "topic must not contain the null character"@,
            TopicParseError::WildcardInTopicName => "topic name must not contain wildcards"@,
            TopicParseError::MisplacedWildcard => "misplaced wildcard in topic filter"@,
            TopicParseError::InvalidSharedSubscription => {
                "shared subscription must have a name and a topic filter"@
            },
        }
    }

    /// The message that describes the error.
    pub fn to_string(&self) -> (r: String)
        ensures
            r@ == self.message(),
    {
        match self {
            TopicParseError::Empty => "topic must be at least one character long".to_string(),
            TopicParseError::NullCharacter => {
                "topic must not contain the null character".to_string()
            },
            TopicParseError::WildcardInTopicName => {
                "topic name must not contain wildcards".to_string()
            },
            TopicParseError::MisplacedWildcard => "misplaced wildcard in topic filter".to_string(),
            TopicParseError::InvalidSharedSubscription => {
                "shared subscription must have a name and a topic filter".to_string()
            },
        }
    }
}

/// The levels of a topic: the parts between the separators.
pub open spec fn levels(s: Seq<char>) -> Seq<Seq<char>>
    decreases s.len(),
{
    if s.len() == 0 {
        seq![Seq::empty()]
    } else {
        let before = levels(s.drop_last());
        if s.last() == '/' {
            before.push(Seq::empty())
        } else {
            before.drop_last().push(before.last().push(s.last()))
        }
    }
}

/// A topic always has at least one level.
proof fn lemma_levels_not_empty(s: Seq<char>)
    ensures
        levels(s).len() > 0,
    decreases s.len(),
{
    if s.len() > 0 {
        lemma_levels_not_empty(s.drop_last());
    }
}

/// Whether the character is one of the wildcards.
pub open spec fn is_wildcard(c: char) -> bool {
    c == '+' || c == '#'
}

/// Whether a level contains a wildcard character.
pub open spec fn has_wildcard(s: Seq<char>) -> bool {
    exists|i: int| 0 <= i < s.len() && is_wildcard(#[trigger] s[i])
}

/// What is wrong with a topic name, if anything is.
pub open spec fn topic_name_fault(s: Seq<char>) -> Option<TopicParseError> {
    if s.len() == 0 {
        Some(TopicParseError::Empty)
    } else if s.contains('\0') {
        Some(TopicParseError::NullCharacter)
    } else if has_wildcard(s) {
        Some(TopicParseError::WildcardInTopicName)
    } else {
        None
    }
}

/// Whether every wildcard of the levels is alone on its level, and `#` only on the last.
pub open spec fn wildcards_well_placed(l: Seq<Seq<char>>) -> bool {
    forall|i: int|
        0 <= i < l.len() ==> {
            ||| !has_wildcard(#[trigger] l[i])
            ||| l[i] == seq!['+']
            ||| l[i] == seq!['#'] && i == l.len() - 1
        }
}

/// Whether the levels are those of the filter of a shared subscription.
pub open spec fn is_shared(l: Seq<Seq<char>>) -> bool {
    l.len() > 0 && l[0] == seq!['$', 's', 'h', 'a', 'r', 'e']
}

/// Whether the levels of the filter of a shared subscription hold a name and a topic filter.
pub open spec fn shared_is_complete(l: Seq<Seq<char>>) -> bool {
    &&& l.len() >= 3
    &&& l[1].len() > 0
    &&& !has_wildcard(l[1])
    &&& (l.len() == 3 ==> l[2].len() > 0)
}

/// The levels that names are matched against: those behind the name of a shared subscription.
pub open spec fn match_levels(s: Seq<char>) -> Seq<Seq<char>> {
    let l = levels(s);
    if is_shared(l) {
        l.skip(2)
    } else {
        l
    }
}

/// What is wrong with a topic filter, if anything is.
pub open spec fn topic_filter_fault(s: Seq<char>) -> Option<TopicParseError> {
    if s.len() == 0 {
        Some(TopicParseError::Empty)
    } else if s.contains('\0') {
        Some(TopicParseError::NullCharacter)
    } else if is_shared(levels(s)) && !shared_is_complete(levels(s)) {
        Some(TopicParseError::InvalidSharedSubscription)
    } else if !wildcards_well_placed(levels(s)) {
        Some(TopicParseError::MisplacedWildcard)
    } else {
        None
    }
}

/// Whether the levels of a filter end with `#`.
pub open spec fn is_multi_level(f: Seq<Seq<char>>) -> bool {
    f.len() > 0 && f.last() == seq!['#']
}

/// Whether a filter of levels `f` matches a name of levels `n`.
pub open spec fn levels_match(f: Seq<Seq<char>>, n: Seq<Seq<char>>) -> bool {
    let fixed: int = if is_multi_level(f) {
        f.len() - 1
    } else {
        f.len() as int
    };
    &&& if is_multi_level(f) {
        n.len() >= fixed
    } else {
        n.len() == fixed
    }
    &&& forall|i: int| 0 <= i < fixed ==> #[trigger] f[i] == seq!['+'] || f[i] == n[i]
    // A wildcard on the first level does not match names that begin with `$`.
    &&& (n.len() > 0 && n[0].len() > 0 && n[0][0] == '$' && f.len() > 0) ==> f[0] != seq!['+']
        && f[0] != seq!['#']
}

/// Whether a topic filter matches a topic name.
pub open spec fn topic_matches(filter: Seq<char>, name: Seq<char>) -> bool {
    levels_match(match_levels(filter), levels(name))
}

/// The view of a list of levels.
spec fn levels_view(l: Seq<Vec<char>>) -> Seq<Seq<char>> {
    l.map_values(|x: Vec<char>| x@)
}

/// Splits a topic into its levels.
fn split_levels(s: &str) -> (r: Vec<Vec<char>>)
    ensures
        levels_view(r@) == levels(s@),
{
    let chars = chars_of(s);
    let mut done: Vec<Vec<char>> = Vec::new();
    let mut level: Vec<char> = Vec::new();
    let n = chars.len();
    assert(levels_view(done@).push(level@) =~= levels(chars@.take(0)));
    for i in 0..n
        invariant
            n == chars@.len(),
            levels_view(done@).push(level@) == levels(chars@.take(i as int)),
    {
        let ghost so_far = levels_view(done@).push(level@);
        proof {
            assert(chars@.take(i + 1).drop_last() =~= chars@.take(i as int));
            assert(so_far.drop_last() =~= levels_view(done@));
        }
        let c = chars[i];
        if c == '/' {
            let ghost before = done@;
            let ghost ended = level@;
            done.push(level);
            level = Vec::new();
            proof {
                assert(levels_view(done@) =~= levels_view(before).push(ended));
                assert(level@ =~= Seq::<char>::empty());
            }
        } else {
            level.push(c);
        }
    }
    assert(chars@.take(n as int) =~= s@);
    let ghost before = done@;
    let ghost ended = level@;
    done.push(level);
    assert(levels_view(done@) =~= levels_view(before).push(ended));
    done
}

/// Whether a level consists of the one character `c`.
fn is_only(level: &Vec<char>, c: char) -> (r: bool)
    ensures
        r == (level@ == seq![c]),
{
    let r = level.len() == 1 && level[0] == c;
    assert(r ==> level@ =~= seq![c]);
    r
}

/// Whether two levels are the same.
fn same_level(a: &Vec<char>, b: &Vec<char>) -> (r: bool)
    ensures
        r == (a@ == b@),
{
    if a.len() != b.len() {
        return false;
    }
    for i in 0..a.len()
        invariant
            a@.len() == b@.len(),
            forall|j: int| 0 <= j < i ==> a@[j] == b@[j],
    {
        if a[i] != b[i] {
            return false;
        }
    }
    assert(a@ =~= b@);
    true
}

/// Whether the characters contain a wildcard.
fn contains_wildcard(v: &Vec<char>) -> (r: bool)
    ensures
        r == has_wildcard(v@),
{
    for i in 0..v.len()
        invariant
            forall|j: int| 0 <= j < i ==> !is_wildcard(#[trigger] v@[j]),
    {
        if v[i] == '+' || v[i] == '#' {
            assert(is_wildcard(v@[i as int]));
            return true;
        }
    }
    false
}

/// Whether the characters contain the null character.
fn contains_null(v: &Vec<char>) -> (r: bool)
    ensures
        r == v@.contains('\0'),
{
    for i in 0..v.len()
        invariant
            forall|j: int| 0 <= j < i ==> v@[j] != '\0',
    {
        if v[i] == '\0' {
            return true;
        }
    }
    false
}

/// Whether the levels are those of the filter of a shared subscription.
fn check_shared(l: &Vec<Vec<char>>) -> (r: bool)
    ensures
        r == is_shared(levels_view(l@)),
{
    if l.len() == 0 {
        return false;
    }
    let first = &l[0];
    let r = first.len() == 6 && first[0] == '$' && first[1] == 's' && first[2] == 'h' && first[3]
        == 'a' && first[4] == 'r' && first[5] == 'e';
    assert(levels_view(l@)[0] == first@);
    assert(r ==> first@ =~= seq!['$', 's', 'h', 'a', 'r', 'e']);
    r
}

/// What is wrong with a topic filter, if anything is.
fn find_topic_filter_fault(s: &str) -> (r: Option<TopicParseError>)
    ensures
        r == topic_filter_fault(s@),
{
    let chars = chars_of(s);
    if chars.len() == 0 {
        return Some(TopicParseError::Empty);
    }
    if contains_null(&chars) {
        return Some(TopicParseError::NullCharacter);
    }
    let l = split_levels(s);
    let ghost lv = levels(s@);
    assert forall|i: int| 0 <= i < l@.len() implies #[trigger] l@[i]@ == lv[i] by {
        assert(levels_view(l@)[i] == l@[i]@);
    }
    if check_shared(&l) {
        let complete = l.len() >= 3 && l[1].len() > 0 && !contains_wildcard(&l[1]) && (l.len() != 3
            || l[2].len() > 0);
        if !complete {
            return Some(TopicParseError::InvalidSharedSubscription);
        }
    }
    let n = l.len();
    for i in 0..n
        invariant
            n == l@.len() == lv.len(),
            lv == levels(s@),
            s@.len() > 0,
            !s@.contains('\0'),
            !(is_shared(lv) && !shared_is_complete(lv)),
            forall|j: int| 0 <= j < l@.len() ==> #[trigger] l@[j]@ == lv[j],
            forall|j: int|
                0 <= j < i ==> {
                    ||| !has_wildcard(#[trigger] lv[j])
                    ||| lv[j] == seq!['+']
                    ||| lv[j] == seq!['#'] && j == lv.len() - 1
                },
    {
        let level = &l[i];
        assert(level@ == lv[i as int]);
        if contains_wildcard(level) && !is_only(level, '+') && !(is_only(level, '#') && i == n - 1) {
            assert(!wildcards_well_placed(lv));
            return Some(TopicParseError::MisplacedWildcard);
        }
    }
    None
}

/// A valid MQTT topic name
#[derive(Debug, PartialEq, Eq)]
pub struct TopicName {
    name: String,
}

impl View for TopicName {
    type V = Seq<char>;

    closed spec fn view(&self) -> Seq<char> {
        self.name@
    }
}

impl Clone for TopicName {
    fn clone(&self) -> (r: Self)
        ensures
            r@ == self@,
    {
        proof {
            use_type_invariant(self);
        }
        TopicName { name: self.name.clone() }
    }
}

impl TopicName {
    #[verifier::type_invariant]
    spec fn wf(self) -> bool {
        topic_name_fault(self.name@) is None
    }

    /// Whether the string is a valid topic name.
    pub fn is_valid_topic_name(topic: &str) -> (r: bool)
        ensures
            r == (topic_name_fault(topic@) is None),
    {
        let chars = chars_of(topic);
        chars.len() > 0 && !contains_null(&chars) && !contains_wildcard(&chars)
    }

    /// Make a topic name of a string.
    ///
    /// # Errors
    /// Returns a [`TopicParseError`] if the string is not a valid topic name.
    pub fn from_string(topic: String) -> (r: Result<Self, TopicParseError>)
        ensures
            match topic_name_fault(topic@) {
                Some(e) => r == Err::<Self, TopicParseError>(e),
                None => r is Ok && r->Ok_0@ == topic@,
            },
    {
        let chars = chars_of(topic.as_str());
        if chars.len() == 0 {
            Err(TopicParseError::Empty)
        } else if contains_null(&chars) {
            Err(TopicParseError::NullCharacter)
        } else if contains_wildcard(&chars) {
            Err(TopicParseError::WildcardInTopicName)
        } else {
            Ok(TopicName { name: topic })
        }
    }

    /// The topic name as a string.
    pub fn as_str(&self) -> (r: &str)
        ensures
            r@ == self@,
    {
        self.name.as_str()
    }

    /// Whether the topic filter matches this topic name.
    pub fn matches_topic_filter(&self, topic_filter: &TopicFilter) -> (r: bool)
        ensures
            r == topic_matches(topic_filter@, self@),
    {
        topic_filter.matches_topic_name(self)
    }
}

impl FromStr for TopicName {
    type Err = TopicParseError;

    fn from_str(s: &str) -> (r: Result<Self, TopicParseError>)
        ensures
            match topic_name_fault(s@) {
                Some(e) => r == Err::<Self, TopicParseError>(e),
                None => r is Ok && r->Ok_0@ == s@,
            },
    {
        TopicName::from_string(s.to_string())
    }
}

/// A valid MQTT topic filter
#[derive(Debug, PartialEq, Eq)]
pub struct TopicFilter {
    filter: String,
}

impl View for TopicFilter {
    type V = Seq<char>;

    closed spec fn view(&self) -> Seq<char> {
        self.filter@
    }
}

impl Clone for TopicFilter {
    fn clone(&self) -> (r: Self)
        ensures
            r@ == self@,
    {
        proof {
            use_type_invariant(self);
        }
        TopicFilter { filter: self.filter.clone() }
    }
}

impl TopicFilter {
    #[verifier::type_invariant]
    spec fn wf(self) -> bool {
        topic_filter_fault(self.filter@) is None
    }

    /// Whether the string is a valid topic filter.
    pub fn is_valid_topic_filter(topic: &str) -> (r: bool)
        ensures
            r == (topic_filter_fault(topic@) is None),
    {
        find_topic_filter_fault(topic).is_none()
    }

    /// Make a topic filter of a string.
    ///
    /// # Errors
    /// Returns a [`TopicParseError`] if the string is not a valid topic filter.
    pub fn from_string(topic: String) -> (r: Result<Self, TopicParseError>)
        ensures
            match topic_filter_fault(topic@) {
                Some(e) => r == Err::<Self, TopicParseError>(e),
                None => r is Ok && r->Ok_0@ == topic@,
            },
    {
        match find_topic_filter_fault(topic.as_str()) {
            Some(e) => Err(e),
            None => Ok(TopicFilter { filter: topic }),
        }
    }

    /// The topic filter as a string.
    pub fn as_str(&self) -> (r: &str)
        ensures
            r@ == self@,
    {
        self.filter.as_str()
    }

    /// Whether this topic filter matches the topic name.
    pub fn matches_topic_name(&self, topic_name: &TopicName) -> (r: bool)
        ensures
            r == topic_matches(self@, topic_name@),
    {
        let f = split_levels(self.filter.as_str());
        let n = split_levels(topic_name.name.as_str());
        let ghost fv = levels(self@);
        let ghost nv = levels(topic_name@);
        proof {
            use_type_invariant(self);
            lemma_levels_not_empty(self@);
            lemma_levels_not_empty(topic_name@);
            assert forall|i: int| 0 <= i < f@.len() implies #[trigger] f@[i]@ == fv[i] by {
                assert(levels_view(f@)[i] == f@[i]@);
            }
            assert forall|i: int| 0 <= i < n@.len() implies #[trigger] n@[i]@ == nv[i] by {
                assert(levels_view(n@)[i] == n@[i]@);
            }
        }
        let start: usize = if check_shared(&f) {
            2
        } else {
            0
        };
        let ghost mv = match_levels(self@);
        assert(fv.skip(0) =~= fv);
        assert(mv == fv.skip(start as int) && mv.last() == fv.last() && mv[0] == fv[start as int]);
        let multi = is_only(&f[f.len() - 1], '#');
        let fixed: usize = if multi {
            f.len() - start - 1
        } else {
            f.len() - start
        };
        if (multi && n.len() < fixed) || (!multi && n.len() != fixed) {
            return false;
        }
        if n[0].len() > 0 && n[0][0] == '$' && (is_only(&f[start], '+')
            || is_only(&f[start], '#')) {
            return false;
        }
        for i in 0..fixed
            invariant
                fixed + start <= f.len() == fv.len(),
                fixed <= n@.len() == nv.len(),
                start < fv.len(),
                mv == fv.skip(start as int),
                mv == match_levels(self@),
                nv == levels(topic_name@),
                fixed == (if is_multi_level(mv) {
                    mv.len() - 1
                } else {
                    mv.len() as int
                }),
                forall|j: int| 0 <= j < f@.len() ==> #[trigger] f@[j]@ == fv[j],
                forall|j: int| 0 <= j < n@.len() ==> #[trigger] n@[j]@ == nv[j],
                forall|j: int| 0 <= j < i ==> #[trigger] mv[j] == seq!['+'] || mv[j] == nv[j],
        {
            assert(f@[i + start]@ == mv[i as int]);
            assert(n@[i as int]@ == nv[i as int]);
            if !is_only(&f[start + i], '+') && !same_level(&f[start + i], &n[i]) {
                return false;
            }
        }
        true
    }

    /// Whether two topic filters are the same.
    pub fn same_as(&self, other: &TopicFilter) -> (r: bool)
        ensures
            r == (self@ == other@),
    {
        self.filter == other.filter
    }
}

impl FromStr for TopicFilter {
    type Err = TopicParseError;

    fn from_str(s: &str) -> (r: Result<Self, TopicParseError>)
        ensures
            match topic_filter_fault(s@) {
                Some(e) => r == Err::<Self, TopicParseError>(e),
                None => r is Ok && r->Ok_0@ == s@,
            },
    {
        TopicFilter::from_string(s.to_string())
    }
}

/// The topic that consists of these levels.
pub open spec fn joined(l: Seq<Seq<char>>) -> Seq<char>
    decreases l.len(),
{
    if l.len() == 0 {
        Seq::empty()
    } else if l.len() == 1 {
        l[0]
    } else {
        joined(l.drop_last()).push('/') + l.last()
    }
}

/// A topic consists of its levels: two topics with the same levels are the same.
pub proof fn law_topic_consists_of_its_levels(s: Seq<char>)
    ensures
        joined(levels(s)) == s,
    decreases s.len(),
{
    lemma_levels_not_empty(s);
    if s.len() > 0 {
        let before = levels(s.drop_last());
        lemma_levels_not_empty(s.drop_last());
        law_topic_consists_of_its_levels(s.drop_last());
        if s.last() == '/' {
            assert(levels(s).drop_last() =~= before);
            assert(joined(levels(s)) =~= s.drop_last().push('/') + Seq::<char>::empty());
        } else {
            assert(levels(s).drop_last() =~= before.drop_last());
            assert(levels(s).last() == before.last().push(s.last()));
            assert(joined(levels(s)) =~= joined(before).push(s.last())) by {
                if before.len() == 1 {
                    assert(levels(s)[0] == levels(s).last());
                }
            }
            assert(s.drop_last().push(s.last()) =~= s);
        }
        assert(joined(levels(s)) =~= s);
    } else {
        assert(s =~= Seq::empty());
    }
}

/// The characters of the levels are characters of the topic.
proof fn lemma_level_chars(s: Seq<char>, i: int, j: int)
    requires
        0 <= i < levels(s).len(),
        0 <= j < levels(s)[i].len(),
    ensures
        s.contains(levels(s)[i][j]),
    decreases s.len(),
{
    if s.len() > 0 {
        let before = levels(s.drop_last());
        lemma_levels_not_empty(s.drop_last());
        let c = levels(s)[i][j];
        if i < before.len() && j < before[i].len() {
            assert(levels(s)[i][j] == before[i][j]);
            lemma_level_chars(s.drop_last(), i, j);
            let k = s.drop_last().index_of(c);
            assert(s[k] == c);
        } else {
            assert(c == s.last());
            assert(s[s.len() - 1] == c);
        }
    }
}

/// No level of a topic without wildcards contains one.
proof fn lemma_levels_without_wildcards(s: Seq<char>, i: int)
    requires
        !has_wildcard(s),
        0 <= i < levels(s).len(),
    ensures
        !has_wildcard(levels(s)[i]),
        levels(s)[i] != seq!['+'],
        levels(s)[i] != seq!['#'],
{
    let l = levels(s)[i];
    assert forall|j: int| 0 <= j < l.len() implies !is_wildcard(#[trigger] l[j]) by {
        lemma_level_chars(s, i, j);
        let k = s.index_of(l[j]);
        assert(!is_wildcard(s[k]));
    }
    if l == seq!['+'] {
        assert(is_wildcard(l[0]));
    }
    if l == seq!['#'] {
        assert(is_wildcard(l[0]));
    }
}

/// A topic filter without wildcards, other than that of a shared subscription, matches the topic
/// name that it is equal to, and no other.
pub proof fn law_filter_without_wildcards_matches_itself_only(filter: Seq<char>, name: Seq<char>)
    requires
        !has_wildcard(filter),
        !is_shared(levels(filter)),
    ensures
        topic_matches(filter, name) <==> filter == name,
{
    let f = levels(filter);
    let n = levels(name);
    lemma_levels_not_empty(filter);
    lemma_levels_without_wildcards(filter, 0);
    lemma_levels_without_wildcards(filter, f.len() - 1);
    if topic_matches(filter, name) {
        assert forall|i: int| 0 <= i < f.len() implies f[i] == n[i] by {
            lemma_levels_without_wildcards(filter, i);
        }
        assert(f =~= n);
        law_topic_consists_of_its_levels(filter);
        law_topic_consists_of_its_levels(name);
    }
}

/// The topic filter `#` matches every topic name but those that begin with `$`.
pub proof fn law_multi_level_wildcard_matches_all(name: Seq<char>)
    requires
        topic_name_fault(name) is None,
    ensures
        topic_matches(seq!['#'], name) <==> name[0] != '$',
{
    let filter = seq!['#'];
    assert(filter.drop_last() =~= Seq::<char>::empty());
    reveal_with_fuel(levels, 2);
    assert(levels(filter.drop_last()) =~= seq![Seq::<char>::empty()]);
    assert(levels(filter)[0] =~= seq!['#']);
    assert(levels(filter) =~= seq![seq!['#']]);
    assert(!is_shared(levels(filter))) by {
        let share = seq!['$', 's', 'h', 'a', 'r', 'e'];
        assert(share.len() == 6 && levels(filter)[0].len() == 1);
    }
    assert(match_levels(filter) == levels(filter));
    lemma_levels_not_empty(name);
    lemma_first_char(name);
}

/// The first level of a topic begins as the topic does, unless it is empty.
proof fn lemma_first_char(s: Seq<char>)
    requires
        s.len() > 0,
    ensures
        levels(s)[0].len() == 0 ==> s[0] == '/',
        levels(s)[0].len() > 0 ==> levels(s)[0][0] == s[0],
    decreases s.len(),
{
    let before = levels(s.drop_last());
    lemma_levels_not_empty(s.drop_last());
    if s.len() > 1 {
        lemma_first_char(s.drop_last());
        assert(s.drop_last()[0] == s[0]);
        if before.len() == 1 && s.last() != '/' && before[0].len() == 0 {
            lemma_one_empty_level(s.drop_last());
        }
    } else {
        assert(s.drop_last() =~= Seq::<char>::empty());
        reveal_with_fuel(levels, 2);
    }
}

/// A topic whose only level is empty is empty.
proof fn lemma_one_empty_level(s: Seq<char>)
    requires
        levels(s).len() == 1,
        levels(s)[0].len() == 0,
    ensures
        s.len() == 0,
{
    law_topic_consists_of_its_levels(s);
}

/// The levels of two topics with a separator between them are the levels of the one and then those of
/// the other.
pub proof fn law_levels_of_joined_topics(s: Seq<char>, t: Seq<char>)
    ensures
        levels(s.push('/') + t) == levels(s) + levels(t),
    decreases t.len(),
{
    let whole = s.push('/') + t;
    if t.len() == 0 {
        assert(whole =~= s.push('/'));
        assert(whole.drop_last() =~= s);
        assert(levels(whole) =~= levels(s) + levels(t));
    } else {
        law_levels_of_joined_topics(s, t.drop_last());
        assert(whole.drop_last() =~= s.push('/') + t.drop_last());
        let before = levels(t.drop_last());
        lemma_levels_not_empty(t.drop_last());
        assert(levels(whole.drop_last()) == levels(s) + before);
        assert((levels(s) + before).last() == before.last());
        assert((levels(s) + before).drop_last() =~= levels(s) + before.drop_last());
        assert(levels(whole) =~= levels(s) + levels(t));
    }
}

/// A topic without separators is one level.
pub proof fn law_topic_without_separator_is_one_level(s: Seq<char>)
    requires
        !s.contains('/'),
    ensures
        levels(s) == seq![s],
    decreases s.len(),
{
    if s.len() == 0 {
        assert(s =~= Seq::empty());
        assert(levels(s) =~= seq![s]);
    } else {
        assert(s[s.len() - 1] != '/');
        assert forall|i: int| 0 <= i < s.drop_last().len() implies s.drop_last()[i] != '/' by {
            assert(s[i] != '/');
        }
        law_topic_without_separator_is_one_level(s.drop_last());
        assert(s.drop_last().push(s.last()) =~= s);
        assert(levels(s) =~= seq![s]);
    }
}

/// No level of a topic contains a separator.
pub proof fn law_levels_contain_no_separator(s: Seq<char>, i: int)
    requires
        0 <= i < levels(s).len(),
    ensures
        !levels(s)[i].contains('/'),
    decreases s.len(),
{
    if s.len() > 0 {
        let before = levels(s.drop_last());
        lemma_levels_not_empty(s.drop_last());
        if i < before.len() {
            law_levels_contain_no_separator(s.drop_last(), i);
            assert forall|j: int| 0 <= j < levels(s)[i].len() implies levels(s)[i][j] != '/' by {
                if j < before[i].len() {
                    assert(levels(s)[i][j] == before[i][j]);
                    assert(before[i].contains(before[i][j]));
                }
            }
        }
    }
}

/// A topic that is put together from levels has these levels.
proof fn lemma_levels_of_joined(l: Seq<Seq<char>>)
    requires
        l.len() > 0,
        forall|i: int| 0 <= i < l.len() ==> !(#[trigger] l[i]).contains('/'),
    ensures
        levels(joined(l)) == l,
    decreases l.len(),
{
    if l.len() == 1 {
        law_topic_without_separator_is_one_level(l[0]);
        assert(levels(joined(l)) =~= l);
    } else {
        let rest = l.drop_last();
        assert forall|i: int| 0 <= i < rest.len() implies !(#[trigger] rest[i]).contains('/') by {
            assert(rest[i] == l[i]);
        }
        lemma_levels_of_joined(rest);
        law_levels_of_joined_topics(joined(rest), l.last());
        assert(!l[l.len() - 1].contains('/'));
        law_topic_without_separator_is_one_level(l.last());
        assert(levels(joined(l)) =~= l);
    }
}

/// A topic put together from levels begins with the topic put together from the first of them.
proof fn lemma_joined_begins_with(l: Seq<Seq<char>>, n: int)
    requires
        0 < n <= l.len(),
    ensures
        n == l.len() ==> joined(l.take(n)) == joined(l),
        n < l.len() ==> joined(l.take(n)).push('/').is_prefix_of(joined(l)),
    decreases l.len(),
{
    if n == l.len() {
        assert(l.take(n) =~= l);
    } else {
        let rest = l.drop_last();
        assert(rest.take(n) =~= l.take(n));
        lemma_joined_begins_with(rest, n);
        let start = joined(l.take(n)).push('/');
        let whole = joined(rest).push('/') + l.last();
        assert(joined(l) == whole);
        if n == rest.len() {
            assert(start =~= whole.subrange(0, start.len() as int));
        } else {
            assert(start.is_prefix_of(joined(rest)));
            assert forall|i: int| 0 <= i < start.len() implies start[i] == whole[i] by {
                assert(joined(rest).subrange(0, start.len() as int)[i] == joined(rest)[i]);
            }
            assert(start =~= whole.subrange(0, start.len() as int));
        }
    }
}

/// What begins the filter of a shared subscription.
proof fn lemma_share_level(s: Seq<char>)
    ensures
        is_shared(levels(s)) == (levels(s)[0] == "$share"@),
        "$share"@ == seq!['$', 's', 'h', 'a', 'r', 'e'],
{
    lemma_levels_not_empty(s);
    reveal_strlit("$share");
    assert("$share"@ =~= seq!['$', 's', 'h', 'a', 'r', 'e']);
}

/// The wildcard `+` stands for any one level, whichever level of the filter it is: a filter with `+`
/// on some level matches a name exactly if the filter with the level of the name in its place does.
/// On the first level this holds of the names that do not begin with `$`.
pub proof fn law_single_level_wildcard_stands_for_any_level(
    filter: Seq<char>,
    plain: Seq<char>,
    name: Seq<char>,
    i: int,
)
    requires
        topic_name_fault(name) is None,
        levels(filter)[0] != "$share"@,
        0 <= i < levels(filter).len(),
        i < levels(name).len(),
        levels(filter)[i] == seq!['+'],
        levels(plain) == levels(filter).update(i, levels(name)[i]),
        i == 0 ==> name[0] != '$',
    ensures
        topic_matches(filter, name) <==> topic_matches(plain, name),
{
    let f = levels(filter);
    let p = levels(plain);
    let n = levels(name);
    lemma_share_level(filter);
    lemma_share_level(plain);
    lemma_levels_not_empty(name);
    lemma_first_char(name);
    lemma_levels_without_wildcards(name, i);
    assert("$share"@[0] == '$');
    assert(p[0] != "$share"@);
    assert(seq!['+'][0] == '+' && seq!['#'][0] == '#');
    assert(seq!['+'] != seq!['#']);
    assert(is_multi_level(f) == is_multi_level(p)) by {
        if i == f.len() - 1 {
            assert(f.last() == seq!['+']);
            assert(p.last() == n[i]);
        } else {
            assert(p.last() == f.last());
        }
    }
    if topic_matches(filter, name) {
        assert forall|j: int|
            0 <= j < p.len() - (if is_multi_level(p) { 1int } else { 0int }) implies #[trigger] p[j]
            == seq!['+'] || p[j] == n[j] by {
            assert(f[j] == seq!['+'] || f[j] == n[j]);
        }
    }
    if topic_matches(plain, name) {
        assert forall|j: int|
            0 <= j < f.len() - (if is_multi_level(f) { 1int } else { 0int }) implies #[trigger] f[j]
            == seq!['+'] || f[j] == n[j] by {
            assert(p[j] == seq!['+'] || p[j] == n[j]);
        }
    }
}

/// A filter that is made by replacing any levels of a name by `+` matches that name, unless the name
/// begins with `$`.
pub proof fn law_wildcards_in_place_of_levels_match(filter: Seq<char>, name: Seq<char>)
    requires
        topic_name_fault(name) is None,
        name[0] != '$',
        levels(filter).len() == levels(name).len(),
        forall|i: int|
            0 <= i < levels(name).len() ==> #[trigger] levels(filter)[i] == seq!['+']
                || levels(filter)[i] == levels(name)[i],
    ensures
        topic_matches(filter, name),
{
    let f = levels(filter);
    let n = levels(name);
    lemma_share_level(filter);
    lemma_levels_not_empty(name);
    lemma_first_char(name);
    assert(f[0] == seq!['+'] || f[0] == n[0]);
    if f[0] == "$share"@ {
        assert("$share"@[0] == '$');
        assert(seq!['+'].len() == 1);
        assert(f[0] == n[0]);
        assert(false);
    }
    let last = f.len() - 1;
    lemma_levels_without_wildcards(name, last);
    assert(f[last] == seq!['+'] || f[last] == n[last]);
    assert(seq!['+'][0] == '+' && seq!['#'][0] == '#');
    assert(!is_multi_level(f));
}

/// A filter that begins with a wildcard matches no name that begins with `$`.
pub proof fn law_leading_wildcard_spares_dollar_names(filter: Seq<char>, name: Seq<char>)
    requires
        topic_name_fault(name) is None,
        name[0] == '$',
        levels(filter)[0] == seq!['+'] || levels(filter)[0] == seq!['#'],
    ensures
        !topic_matches(filter, name),
{
    lemma_share_level(filter);
    lemma_levels_not_empty(filter);
    lemma_levels_not_empty(name);
    lemma_first_char(name);
    assert(seq!['+'].len() == 1 && seq!['#'].len() == 1);
    assert("$share"@.len() == 6);
}

/// The wildcard `#` stands for any number of levels at the end, and for none: where it stands behind
/// a filter, it matches what that filter matches, and whatever is below that.
pub proof fn law_multi_level_wildcard_stands_for_all_below(
    filter: Seq<char>,
    stem: Seq<char>,
    name: Seq<char>,
)
    requires
        levels(filter) == levels(stem).push(seq!['#']),
        levels(stem)[0] != "$share"@,
        levels(stem).last() != seq!['#'],
    ensures
        topic_matches(filter, name) <==> exists|above: Seq<char>|
            #[trigger] topic_matches(stem, above) && (name == above || above.push(
                '/',
            ).is_prefix_of(name)),
{
    let f = levels(filter);
    let s = levels(stem);
    let n = levels(name);
    lemma_share_level(filter);
    lemma_share_level(stem);
    lemma_levels_not_empty(stem);
    lemma_levels_not_empty(name);
    assert(f[0] == s[0]);
    assert(is_multi_level(f) && !is_multi_level(s));
    if topic_matches(filter, name) {
        let k = s.len() as int;
        let first = n.take(k);
        let above = joined(first);
        assert forall|i: int| 0 <= i < first.len() implies !(#[trigger] first[i]).contains('/') by {
            law_levels_contain_no_separator(name, i);
        }
        lemma_levels_of_joined(first);
        law_topic_consists_of_its_levels(name);
        lemma_joined_begins_with(n, k);
        assert forall|j: int| 0 <= j < s.len() implies #[trigger] s[j] == seq!['+'] || s[j]
            == first[j] by {
            assert(f[j] == seq!['+'] || f[j] == n[j]);
        }
        assert(topic_matches(stem, above));
    }
    if exists|above: Seq<char>|
        #[trigger] topic_matches(stem, above) && (name == above || above.push('/').is_prefix_of(
            name,
        )) {
        let above = choose|above: Seq<char>|
            #[trigger] topic_matches(stem, above) && (name == above || above.push(
                '/',
            ).is_prefix_of(name));
        let a = levels(above);
        if name != above {
            let start = above.push('/');
            let below = name.skip(start.len() as int);
            assert(start + below =~= name);
            law_levels_of_joined_topics(above, below);
            assert(n == a + levels(below));
        }
        assert(n.len() >= s.len());
        assert forall|j: int| 0 <= j < s.len() implies a[j] == n[j] by {}
        assert forall|j: int| 0 <= j < s.len() implies #[trigger] f[j] == seq!['+'] || f[j]
            == n[j] by {
            assert(s[j] == seq!['+'] || s[j] == a[j]);
        }
        assert(a[0] == n[0]);
    }
}

/// The filter of a shared subscription matches what the filter behind its name matches.
pub proof fn law_shared_subscription_matches_as_its_filter(
    group: Seq<char>,
    filter: Seq<char>,
    name: Seq<char>,
)
    requires
        !group.contains('/'),
        levels(filter)[0] != "$share"@,
    ensures
        topic_matches("$share"@.push('/') + (group.push('/') + filter), name) <==> topic_matches(
            filter,
            name,
        ),
{
    let shared = "$share"@.push('/') + (group.push('/') + filter);
    lemma_shared_levels(group, filter);
    lemma_share_level(shared);
    lemma_share_level(filter);
    assert(levels(shared).skip(2) =~= levels(filter));
}

/// The levels of the filter of a shared subscription.
proof fn lemma_shared_levels(group: Seq<char>, filter: Seq<char>)
    requires
        !group.contains('/'),
    ensures
        levels("$share"@.push('/') + (group.push('/') + filter)) == seq!["$share"@, group] + levels(
            filter,
        ),
{
    let inner = group.push('/') + filter;
    reveal_strlit("$share");
    law_levels_of_joined_topics("$share"@, inner);
    law_levels_of_joined_topics(group, filter);
    law_topic_without_separator_is_one_level("$share"@);
    law_topic_without_separator_is_one_level(group);
    assert(levels("$share"@.push('/') + inner) =~= seq!["$share"@, group] + levels(filter));
}

/// A text is a topic name exactly if it is not empty and contains neither the null character nor a
/// wildcard; and the error tells which of these it is, the first of them if there are several.
pub proof fn law_topic_names_are_texts_without_wildcards(s: Seq<char>)
    ensures
        topic_name_fault(s) is None <==> s.len() > 0 && !s.contains('\0') && !s.contains('+')
            && !s.contains('#'),
        topic_name_fault(s) == Some(TopicParseError::Empty) <==> s.len() == 0,
        topic_name_fault(s) == Some(TopicParseError::NullCharacter) <==> s.contains('\0'),
        topic_name_fault(s) == Some(TopicParseError::WildcardInTopicName) <==> !s.contains('\0')
            && (s.contains('+') || s.contains('#')),
{
    lemma_has_wildcard(s);
}

/// What it is to contain a wildcard.
proof fn lemma_has_wildcard(s: Seq<char>)
    ensures
        has_wildcard(s) <==> s.contains('+') || s.contains('#'),
{
    if s.contains('+') {
        let i = s.index_of('+');
        assert(is_wildcard(s[i]));
    }
    if s.contains('#') {
        let i = s.index_of('#');
        assert(is_wildcard(s[i]));
    }
}

/// A topic name is a topic filter too, and it matches itself, unless it looks like the filter of a
/// shared subscription.
pub proof fn law_topic_name_is_a_filter_that_matches_it(name: Seq<char>)
    requires
        topic_name_fault(name) is None,
        levels(name)[0] != "$share"@,
    ensures
        topic_filter_fault(name) is None,
        topic_matches(name, name),
{
    lemma_share_level(name);
    assert forall|i: int| 0 <= i < levels(name).len() implies !has_wildcard(
        #[trigger] levels(name)[i],
    ) by {
        lemma_levels_without_wildcards(name, i);
    }
    law_filter_without_wildcards_matches_itself_only(name, name);
}

/// One level is a topic filter exactly if it is a wildcard, or contains none.
pub proof fn law_filters_of_one_level(s: Seq<char>)
    requires
        s.len() > 0,
        !s.contains('/'),
        s != "$share"@,
    ensures
        topic_filter_fault(s) is None <==> s == seq!['+'] || s == seq!['#'] || (!s.contains('\0')
            && !s.contains('+') && !s.contains('#')),
{
    law_topic_without_separator_is_one_level(s);
    lemma_share_level(s);
    lemma_has_wildcard(s);
    assert(levels(s)[0] == s);
    assert(seq!['+'][0] == '+' && seq!['#'][0] == '#');
    if s == seq!['+'] || s == seq!['#'] {
        assert(s.len() == 1);
        assert(!s.contains('\0'));
    }
}

/// Two topics with a separator between them are a topic filter exactly if both are, or are empty, and
/// the first does not end with `#`.
pub proof fn law_filters_are_put_together(s: Seq<char>, t: Seq<char>)
    requires
        levels(s)[0] != "$share"@,
        levels(t)[0] != "$share"@,
    ensures
        topic_filter_fault(s.push('/') + t) is None <==> {
            &&& s.len() == 0 || topic_filter_fault(s) is None
            &&& t.len() == 0 || topic_filter_fault(t) is None
            &&& levels(s).last() != seq!['#']
        },
{
    let whole = s.push('/') + t;
    let l = levels(s);
    let m = levels(t);
    law_levels_of_joined_topics(s, t);
    lemma_levels_not_empty(s);
    lemma_levels_not_empty(t);
    assert((l + m)[0] == l[0]);
    lemma_share_level(whole);
    lemma_share_level(s);
    lemma_share_level(t);
    lemma_contains_joined(s, t, '\0');
    lemma_well_placed_joined(l, m);
    if s.len() == 0 {
        assert(l =~= seq![Seq::<char>::empty()]);
        assert(!has_wildcard(l[0]));
        assert(wildcards_well_placed(l));
    }
    if t.len() == 0 {
        assert(m =~= seq![Seq::<char>::empty()]);
        assert(!has_wildcard(m[0]));
        assert(wildcards_well_placed(m));
    }
}

/// Which characters two topics with a separator between them contain.
proof fn lemma_contains_joined(s: Seq<char>, t: Seq<char>, c: char)
    requires
        c != '/',
    ensures
        (s.push('/') + t).contains(c) <==> s.contains(c) || t.contains(c),
{
    let whole = s.push('/') + t;
    if s.contains(c) {
        assert(whole[s.index_of(c)] == c);
    }
    if t.contains(c) {
        assert(whole[s.len() + 1 + t.index_of(c)] == c);
    }
    if whole.contains(c) {
        let i = whole.index_of(c);
        if i < s.len() {
            assert(s[i] == c);
        } else {
            assert(t[i - s.len() - 1] == c);
        }
    }
}

/// Where the wildcards of levels are well placed that consist of two parts.
proof fn lemma_well_placed_joined(l: Seq<Seq<char>>, m: Seq<Seq<char>>)
    requires
        l.len() > 0,
        m.len() > 0,
    ensures
        wildcards_well_placed(l + m) <==> wildcards_well_placed(l) && wildcards_well_placed(m)
            && l.last() != seq!['#'],
{
    let whole = l + m;
    assert(seq!['+'][0] == '+' && seq!['#'][0] == '#');
    assert(is_wildcard(seq!['#'][0]));
    if wildcards_well_placed(whole) {
        assert forall|i: int| 0 <= i < l.len() implies !has_wildcard(#[trigger] l[i]) || l[i]
            == seq!['+'] by {
            assert(whole[i] == l[i]);
        }
        assert forall|i: int| 0 <= i < m.len() implies {
            ||| !has_wildcard(#[trigger] m[i])
            ||| m[i] == seq!['+']
            ||| m[i] == seq!['#'] && i == m.len() - 1
        } by {
            assert(whole[l.len() + i] == m[i]);
        }
        assert(l[l.len() - 1] == l.last());
    }
    if wildcards_well_placed(l) && wildcards_well_placed(m) && l.last() != seq!['#'] {
        assert forall|i: int| 0 <= i < whole.len() implies {
            ||| !has_wildcard(#[trigger] whole[i])
            ||| whole[i] == seq!['+']
            ||| whole[i] == seq!['#'] && i == whole.len() - 1
        } by {
            if i < l.len() {
                assert(whole[i] == l[i]);
            } else {
                assert(whole[i] == m[i - l.len()]);
            }
        }
    }
}

/// The filter of a shared subscription needs a name, without wildcards, and a topic filter.
pub proof fn law_shared_subscription_needs_name_and_filter(group: Seq<char>, filter: Seq<char>)
    requires
        !group.contains('/'),
        levels(filter)[0] != "$share"@,
    ensures
        topic_filter_fault("$share"@.push('/') + (group.push('/') + filter)) is None <==> {
            &&& topic_name_fault(group) is None
            &&& topic_filter_fault(filter) is None
        },
{
    let shared = "$share"@.push('/') + (group.push('/') + filter);
    let l = levels(shared);
    let m = levels(filter);
    lemma_shared_levels(group, filter);
    lemma_share_level(shared);
    lemma_share_level(filter);
    lemma_levels_not_empty(filter);
    assert(l[0] == "$share"@ && l[1] == group && l[2] == m[0]);
    lemma_contains_joined("$share"@, group.push('/') + filter, '\0');
    lemma_contains_joined(group, filter, '\0');
    assert(!"$share"@.contains('\0'));
    if filter.len() > 0 && m.len() == 1 {
        law_topic_consists_of_its_levels(filter);
        assert(m[0] == filter);
    }
    if filter.len() == 0 {
        assert(m =~= seq![Seq::<char>::empty()]);
    }
    if group.len() > 0 && !has_wildcard(group) {
        let front = seq!["$share"@, group];
        assert(seq!['#'][0] == '#');
        assert(is_wildcard(seq!['#'][0]));
        assert(has_wildcard(seq!['#']));
        assert(!has_wildcard("$share"@));
        assert(!has_wildcard(front[0]) && !has_wildcard(front[1]));
        assert(wildcards_well_placed(front));
        lemma_well_placed_joined(front, m);
    }
}

/// What is wrong with a topic filter is told in this order: that it is empty, that it contains the
/// null character, and then what is wrong with its shared subscription or its wildcards.
pub proof fn law_faults_of_topic_filters(s: Seq<char>)
    ensures
        topic_filter_fault(s) == Some(TopicParseError::Empty) <==> s.len() == 0,
        topic_filter_fault(s) == Some(TopicParseError::NullCharacter) <==> s.contains('\0'),
        topic_filter_fault(s) == Some(TopicParseError::InvalidSharedSubscription) ==> levels(s)[0]
            == "$share"@,
        topic_filter_fault(s) == Some(TopicParseError::MisplacedWildcard) ==> s.contains('+')
            || s.contains('#'),
        topic_filter_fault(s) != Some(TopicParseError::WildcardInTopicName),
{
    lemma_share_level(s);
    lemma_has_wildcard(s);
    if !has_wildcard(s) {
        assert forall|i: int| 0 <= i < levels(s).len() implies !has_wildcard(
            #[trigger] levels(s)[i],
        ) by {
            lemma_levels_without_wildcards(s, i);
        }
    }
}

} // verus!
