use std::str::FromStr;

use azure_iot_operations::topic::{TopicFilter, TopicName, TopicParseError};

fn matches_name(filter: &str, name: &str) -> bool {
    let filter = TopicFilter::from_str(filter).unwrap();
    let name = TopicName::from_str(name).unwrap();
    let r = filter.matches_topic_name(&name);
    assert_eq!(r, name.matches_topic_filter(&filter));
    r
}

#[test]
fn topic_name_faults() {
    assert_eq!(TopicName::from_str(""), Err(TopicParseError::Empty));
    assert_eq!(
        TopicName::from_str("a\0b"),
        Err(TopicParseError::NullCharacter)
    );
    assert_eq!(
        TopicName::from_str("a/+"),
        Err(TopicParseError::WildcardInTopicName)
    );
    assert_eq!(
        TopicName::from_str("a#"),
        Err(TopicParseError::WildcardInTopicName)
    );
    for name in ["/", "a", "a/b", "a//b", "/a/", " ", "$SYS/a"] {
        assert!(TopicName::is_valid_topic_name(name));
        assert_eq!(TopicName::from_str(name).unwrap().as_str(), name);
    }
}

#[test]
fn topic_filter_faults() {
    assert_eq!(TopicFilter::from_str(""), Err(TopicParseError::Empty));
    assert_eq!(
        TopicFilter::from_str("\0"),
        Err(TopicParseError::NullCharacter)
    );
    for filter in ["a+", "+a/b", "#/a", "a/#/b", "a/b#", "++", "a/+#"] {
        assert_eq!(
            TopicFilter::from_str(filter),
            Err(TopicParseError::MisplacedWildcard)
        );
        assert!(!TopicFilter::is_valid_topic_filter(filter));
    }
    for filter in ["$share", "$share/a", "$share//b", "$share/a/", "$share/+/b"] {
        assert_eq!(
            TopicFilter::from_str(filter),
            Err(TopicParseError::InvalidSharedSubscription)
        );
    }
    for filter in ["#", "+", "/", "a/#", "+/+/#", "a//b", "$share/a/b", "$share/a/#", "$share/a//"] {
        assert!(TopicFilter::is_valid_topic_filter(filter));
        assert_eq!(TopicFilter::from_str(filter).unwrap().as_str(), filter);
    }
}

#[test]
fn filter_without_wildcards_matches_only_itself() {
    for name in ["a", "a/b", "/a", "a/", "$SYS/a"] {
        assert!(matches_name(name, name));
        assert!(!matches_name(name, "x"));
        assert!(!matches_name(name, "a/b/c"));
    }
}

#[test]
fn single_level_wildcard_matches_one_level() {
    assert!(matches_name("sport/+", "sport/tennis"));
    assert!(matches_name("sport/+", "sport/"));
    assert!(!matches_name("sport/+", "sport"));
    assert!(!matches_name("sport/+", "sport/tennis/player1"));
    assert!(matches_name("+/+", "/finance"));
    assert!(matches_name("/+", "/finance"));
    assert!(!matches_name("+", "/finance"));
    assert!(matches_name("+/tennis/#", "sport/tennis"));
}

#[test]
fn multi_level_wildcard_matches_all_but_dollar_names() {
    for name in ["a", "a/b", "/", "a/$b", "/$SYS"] {
        assert!(matches_name("#", name));
    }
    assert!(!matches_name("#", "$SYS/monitor"));
    assert!(!matches_name("+/monitor", "$SYS/monitor"));
    assert!(matches_name("$SYS/#", "$SYS/monitor"));
    assert!(matches_name("$SYS/#", "$SYS"));
    assert!(matches_name("sport/tennis/player1/#", "sport/tennis/player1"));
    assert!(matches_name("sport/tennis/player1/#", "sport/tennis/player1/score/x"));
    assert!(!matches_name("sport/tennis/player1/#", "sport/tennis/player2"));
}

#[test]
fn shared_subscription_matches_what_its_filter_does() {
    assert!(matches_name("$share/group/sport/+", "sport/tennis"));
    assert!(!matches_name("$share/group/sport/+", "sport/tennis/x"));
    assert!(matches_name("$share/group/#", "a/b"));
    assert!(!matches_name("$share/group/#", "$SYS/a"));
    assert!(!matches_name("$share/group/a", "$share/group/a"));
}

#[test]
fn topic_error_messages_differ() {
    let errors = [
        TopicParseError::Empty,
        TopicParseError::NullCharacter,
        TopicParseError::WildcardInTopicName,
        TopicParseError::MisplacedWildcard,
        TopicParseError::InvalidSharedSubscription,
    ];
    let mut messages: Vec<String> = errors.iter().map(|e| e.to_string()).collect();
    assert_eq!(messages[0], "topic must be at least one character long");
    messages.sort();
    messages.dedup();
    assert_eq!(messages.len(), 5);
}
