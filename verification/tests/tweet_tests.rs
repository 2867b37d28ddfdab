use client::get_callback_url;
use client::tweet::{Tweet, TweetError};
use client::text::join_strings;

#[test]
fn callback_url_wraps_host() {
    assert_eq!(get_callback_url("example.com".to_string()), "https://example.com/callback?");
}

#[test]
fn new_tweet_with_text_is_valid() {
    let t = Tweet::new("hello".to_string());
    assert_eq!(t.validate_content(), Ok(()));
    assert_eq!(t.to_json(), "{\"content\":\"hello\"}");
}

#[test]
fn empty_tweet_is_refused() {
    let t = Tweet::new(String::new());
    assert_eq!(t.validate_content(), Err(TweetError::EmptyContent));
    assert_eq!(TweetError::EmptyContent.message(), "Tweet content cannot be empty");
}

#[test]
fn default_tweet_is_empty() {
    let t = Tweet::default();
    assert_eq!(t.validate_content(), Err(TweetError::EmptyContent));
    assert_eq!(t.to_json(), "{\"content\":\"\"}");
}

#[test]
fn quote_and_reply_is_refused() {
    let mut t = Tweet::new("x".to_string());
    t.assign_quote_tweet_id("1".to_string());
    assert_eq!(t.validate_content(), Ok(()));
    t.assign_reply_tweet_id("2".to_string());
    assert_eq!(t.validate_content(), Err(TweetError::QuoteAndReply));
    assert_eq!(TweetError::QuoteAndReply.message(), "Tweet cannot be both a quote and a reply");
}

#[test]
fn empty_content_is_reported_before_quote_and_reply() {
    let mut t = Tweet::new(String::new());
    t.assign_quote_tweet_id("1".to_string());
    t.assign_reply_tweet_id("2".to_string());
    assert_eq!(t.validate_content(), Err(TweetError::EmptyContent));
}

#[test]
fn empty_media_list_is_refused() {
    let mut t = Tweet::new("x".to_string());
    t.assign_media_ids(vec![]);
    assert_eq!(t.validate_content(), Err(TweetError::EmptyMediaIds));
    assert_eq!(TweetError::EmptyMediaIds.message(), "Media IDs cannot be empty");
    t.assign_media_ids(vec!["7".to_string()]);
    assert_eq!(t.validate_content(), Ok(()));
}

#[test]
fn tweet_json_has_all_fields_in_order() {
    let mut t = Tweet::new("hi".to_string());
    t.assign_media_ids(vec!["10".to_string(), "11".to_string()]);
    t.assign_reply_tweet_id("5".to_string());
    t.assign_quote_tweet_id("4".to_string());
    assert_eq!(
        t.to_json(),
        "{\"content\":\"hi\",\"quote_tweet_id\":\"4\",\"reply_data\":{\"in_reply_to_tweet_id\":\"5\"},\"media_data\":{\"media_ids\":[\"10\",\"11\"]}}"
    );
}

#[test]
fn tweet_json_escapes_text() {
    let t = Tweet::new("say \"hi\"\n\\".to_string());
    assert_eq!(t.to_json(), "{\"content\":\"say \\\"hi\\\"\\n\\\\\"}");
}

#[test]
fn tweet_json_matches_serde_field_layout_for_reply() {
    let mut t = Tweet::new("r".to_string());
    t.assign_reply_tweet_id("99".to_string());
    assert_eq!(t.to_json(), "{\"content\":\"r\",\"reply_data\":{\"in_reply_to_tweet_id\":\"99\"}}");
}

#[test]
fn assigning_twice_keeps_the_last() {
    let mut t = Tweet::new("q".to_string());
    t.assign_quote_tweet_id("1".to_string());
    t.assign_quote_tweet_id("2".to_string());
    assert_eq!(t.to_json(), "{\"content\":\"q\",\"quote_tweet_id\":\"2\"}");
}

#[test]
fn join_puts_separator_between() {
    assert_eq!(join_strings(&vec![], ","), "");
    assert_eq!(join_strings(&vec!["a".to_string()], ","), "a");
    assert_eq!(join_strings(&vec!["a".to_string(), "b".to_string(), "c".to_string()], ", "), "a, b, c");
}

#[test]
fn tweet_json_escapes_control_characters() {
    let t = Tweet::new("a\u{1}b\u{1f}\t\r\u{8}\u{c}/\u{7f}".to_string());
    assert_eq!(t.to_json(), "{\"content\":\"a\\u0001b\\u001f\\t\\r\\b\\f/\u{7f}\"}");
}
