use news_relay::dedup::{decide, judge, last_message, link_of, DedupInputError, Verdict};
use news_relay::feed::FeedItem;

fn text(s: &str) -> String {
    s.to_string()
}

#[test]
fn a_channel_without_messages_makes_every_link_new() {
    assert_eq!(judge(&text("https://a/1"), None), Verdict::New);
    assert_eq!(judge(&text(""), None), Verdict::New);
}

#[test]
fn the_same_text_is_a_duplicate() {
    assert_eq!(judge(&text("https://a/1"), Some(&text("https://a/1"))), Verdict::Duplicate);
}

#[test]
fn any_other_text_is_new() {
    assert_eq!(judge(&text("https://a/2"), Some(&text("https://a/1"))), Verdict::New);
    assert_eq!(judge(&text("https://a/1"), Some(&text("https://a/1 "))), Verdict::New);
    assert_eq!(judge(&text("https://a/1"), Some(&text("HTTPS://A/1"))), Verdict::New);
    assert_eq!(judge(&text("https://a/1"), Some(&text("https://a/1/"))), Verdict::New);
    assert_eq!(judge(&text("https://a/1"), Some(&text(""))), Verdict::New);
}

#[test]
fn the_most_recent_message_is_the_first_of_the_reply() {
    let messages = vec![text("newest"), text("older"), text("oldest")];
    assert_eq!(last_message(&messages), Some(&text("newest")));
    assert_eq!(last_message(&vec![]), None);
}

#[test]
fn a_story_without_a_link_has_no_verdict() {
    let story = FeedItem::new(None, Some(text("x")));
    assert_eq!(link_of(&story), Err(DedupInputError {}));
    assert_eq!(decide(&story, None), Err(DedupInputError {}));
    assert_eq!(decide(&story, Some(&text("x"))), Err(DedupInputError {}));
}

#[test]
fn a_story_is_judged_by_its_link_alone() {
    let story = FeedItem::new(Some(text("https://a/1")), Some(text("A title")));
    let retitled = FeedItem::new(Some(text("https://a/1")), Some(text("Another title")));
    let untitled = FeedItem::new(Some(text("https://a/1")), None);
    assert_eq!(link_of(&story), Ok(&text("https://a/1")));
    for s in [&story, &retitled, &untitled] {
        assert_eq!(decide(s, None), Ok(Verdict::New));
        assert_eq!(decide(s, Some(&text("https://a/1"))), Ok(Verdict::Duplicate));
        assert_eq!(decide(s, Some(&text("https://a/0"))), Ok(Verdict::New));
        assert_eq!(decide(s, Some(&text("A title"))), Ok(Verdict::New));
    }
}

#[test]
fn an_older_message_with_the_link_does_not_count() {
    let messages = vec![text("https://a/2"), text("https://a/1")];
    assert_eq!(judge(&text("https://a/1"), last_message(&messages)), Verdict::New);
}
