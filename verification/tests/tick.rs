use news_relay::channel::ChannelReference;
use news_relay::dedup::DedupInputError;
use news_relay::feed::{FeedItem, FeedReply, FetchError};
use news_relay::tick::{
    HistoryQueryError, HistoryReply, JobError, JobRun, PostReply, TickAction, TickEvent,
    TickReport, TickState, HISTORY_LIMIT, POLL_INTERVAL_SECS,
};

const CHANNEL: ChannelReference = ChannelReference { id: 4242 };

fn job() -> JobRun {
    JobRun::new("https://news.example/feed.xml".to_string(), CHANNEL)
}

fn feed_with(items: &str) -> FeedReply {
    FeedReply::Response {
        status: 200,
        body: format!(
            "<rss version=\"2.0\"><channel><title>News</title><link>https://a</link><description>d</description>{}</channel></rss>",
            items
        )
        .into_bytes(),
    }
}

fn awaiting(link: &str) -> TickState {
    TickState::AwaitingHistory { link: link.to_string() }
}

fn failed(e: JobError) -> (TickState, TickAction) {
    (TickState::Finished, TickAction::Conclude(TickReport::Failed(e)))
}

#[test]
fn the_relay_polls_once_a_minute_and_asks_for_one_message() {
    assert_eq!(POLL_INTERVAL_SECS, 60);
    assert_eq!(HISTORY_LIMIT, 1);
}

#[test]
fn a_tick_opens_with_the_request_for_the_feed() {
    assert_eq!(
        job().begin(),
        (
            TickState::AwaitingFeed,
            TickAction::FetchFeed { url: "https://news.example/feed.xml".to_string() }
        )
    );
}

#[test]
fn a_story_with_a_link_leads_to_the_history_query() {
    let reply = feed_with("<item><title>t</title><link>https://a/1</link></item><item><link>https://a/0</link></item>");
    assert_eq!(
        job().step(TickState::AwaitingFeed, TickEvent::Feed(reply)),
        (awaiting("https://a/1"), TickAction::QueryHistory { channel: CHANNEL, limit: 1 })
    );
}

#[test]
fn a_failed_fetch_ends_the_tick() {
    assert_eq!(
        job().step(TickState::AwaitingFeed, TickEvent::Feed(FeedReply::Unreachable)),
        failed(JobError::Fetch(FetchError::Network))
    );
    assert_eq!(
        job().step(
            TickState::AwaitingFeed,
            TickEvent::Feed(FeedReply::Response { status: 500, body: vec![] })
        ),
        failed(JobError::Fetch(FetchError::BadStatus(500)))
    );
    assert_eq!(
        job().step(
            TickState::AwaitingFeed,
            TickEvent::Feed(FeedReply::Response { status: 200, body: b"<html/>".to_vec() })
        ),
        failed(JobError::Fetch(FetchError::Malformed))
    );
    assert_eq!(
        job().step(TickState::AwaitingFeed, TickEvent::Feed(feed_with(""))),
        failed(JobError::Fetch(FetchError::EmptyFeed))
    );
}

#[test]
fn a_newest_story_without_a_link_ends_the_tick() {
    let reply = feed_with("<item><title>x</title></item><item><link>https://a/0</link></item>");
    assert_eq!(
        job().step(TickState::AwaitingFeed, TickEvent::Feed(reply)),
        failed(JobError::DedupInput(DedupInputError {}))
    );
}

#[test]
fn a_new_link_is_sent_as_the_whole_message() {
    for messages in [vec![], vec!["https://a/0".to_string()], vec!["hello".to_string(), "https://a/1".to_string()]] {
        assert_eq!(
            job().step(awaiting("https://a/1"), TickEvent::History(HistoryReply::Messages(messages))),
            (
                TickState::AwaitingPost,
                TickAction::SendMessage { channel: CHANNEL, content: "https://a/1".to_string() }
            )
        );
    }
}

#[test]
fn a_duplicate_ends_the_tick_in_silence() {
    for messages in [
        vec!["https://a/1".to_string()],
        vec!["https://a/1".to_string(), "https://a/0".to_string()],
    ] {
        assert_eq!(
            job().step(awaiting("https://a/1"), TickEvent::History(HistoryReply::Messages(messages))),
            (TickState::Finished, TickAction::Conclude(TickReport::NoNewArticles))
        );
    }
}

#[test]
fn a_failed_history_query_ends_the_tick() {
    for e in [HistoryQueryError::Gateway, HistoryQueryError::NotGuildChannel] {
        assert_eq!(
            job().step(awaiting("https://a/1"), TickEvent::History(HistoryReply::Failed(e))),
            failed(JobError::HistoryQuery(e))
        );
    }
}

#[test]
fn the_answer_to_the_send_ends_the_tick() {
    assert_eq!(
        job().step(TickState::AwaitingPost, TickEvent::Post(PostReply::Delivered)),
        (TickState::Finished, TickAction::Conclude(TickReport::Posted))
    );
    assert_eq!(
        job().step(TickState::AwaitingPost, TickEvent::Post(PostReply::Rejected)),
        failed(JobError::Post)
    );
}

#[test]
fn an_event_that_is_not_awaited_changes_nothing() {
    let history = || TickEvent::History(HistoryReply::Messages(vec![]));
    let feed = || TickEvent::Feed(feed_with("<item><link>https://a/1</link></item>"));
    let post = || TickEvent::Post(PostReply::Delivered);
    assert_eq!(job().step(TickState::AwaitingFeed, history()), (TickState::AwaitingFeed, TickAction::Ignore));
    assert_eq!(job().step(TickState::AwaitingFeed, post()), (TickState::AwaitingFeed, TickAction::Ignore));
    assert_eq!(job().step(awaiting("l"), feed()), (awaiting("l"), TickAction::Ignore));
    assert_eq!(job().step(awaiting("l"), post()), (awaiting("l"), TickAction::Ignore));
    assert_eq!(job().step(TickState::AwaitingPost, feed()), (TickState::AwaitingPost, TickAction::Ignore));
    assert_eq!(job().step(TickState::AwaitingPost, history()), (TickState::AwaitingPost, TickAction::Ignore));
    for event in [feed(), history(), post()] {
        assert_eq!(job().step(TickState::Finished, event), (TickState::Finished, TickAction::Ignore));
    }
}

#[test]
fn the_stage_methods_agree_with_step() {
    let reply = feed_with("<item><link>https://a/1</link></item>");
    assert_eq!(
        job().on_feed(reply.clone()),
        job().step(TickState::AwaitingFeed, TickEvent::Feed(reply))
    );
    let history = HistoryReply::Messages(vec!["https://a/1".to_string()]);
    assert_eq!(
        job().on_history("https://a/1".to_string(), history.clone()),
        job().step(awaiting("https://a/1"), TickEvent::History(history))
    );
    assert_eq!(
        job().on_post(PostReply::Rejected),
        job().step(TickState::AwaitingPost, TickEvent::Post(PostReply::Rejected))
    );
}

#[test]
fn every_report_has_its_line_for_the_log() {
    assert_eq!(TickReport::Posted.message(), "Posted new article");
    assert_eq!(TickReport::NoNewArticles.message(), "No new articles");
    let lines = [
        (JobError::Fetch(FetchError::Network), "Feed request failed"),
        (JobError::Fetch(FetchError::BadStatus(404)), "Feed request returned an error status"),
        (JobError::Fetch(FetchError::Malformed), "Feed could not be parsed"),
        (JobError::Fetch(FetchError::EmptyFeed), "No items in feed"),
        (JobError::DedupInput(DedupInputError {}), "No link found"),
        (JobError::HistoryQuery(HistoryQueryError::Gateway), "Channel history query failed"),
        (JobError::HistoryQuery(HistoryQueryError::NotGuildChannel), "Not a guild channel"),
        (JobError::Post, "Message could not be sent"),
    ];
    for (error, line) in lines {
        assert_eq!(error.message(), line);
        assert_eq!(TickReport::Failed(error).message(), line);
        assert!(TickReport::Failed(error).is_failure());
    }
    assert!(!TickReport::Posted.is_failure());
    assert!(!TickReport::NoNewArticles.is_failure());
}

fn story(link: Option<&str>, title: Option<&str>) -> FeedItem {
    FeedItem::new(link.map(|s| s.to_string()), title.map(|s| s.to_string()))
}

#[test]
fn the_first_of_the_items_leads_to_the_history_query() {
    let items = vec![story(Some("https://a/2"), Some("two")), story(Some("https://a/1"), None)];
    assert_eq!(
        job().on_items(Ok(items)),
        (awaiting("https://a/2"), TickAction::QueryHistory { channel: CHANNEL, limit: 1 })
    );
}

#[test]
fn items_whose_first_has_no_link_end_the_tick() {
    let items = vec![story(None, Some("x")), story(Some("https://a/1"), None)];
    assert_eq!(job().on_items(Ok(items)), failed(JobError::DedupInput(DedupInputError {})));
}

#[test]
fn no_items_end_the_tick() {
    assert_eq!(job().on_items(Ok(vec![])), failed(JobError::Fetch(FetchError::EmptyFeed)));
    for e in [
        FetchError::Network,
        FetchError::BadStatus(301),
        FetchError::Malformed,
        FetchError::EmptyFeed,
    ] {
        assert_eq!(job().on_items(Err(e)), failed(JobError::Fetch(e)));
    }
}

#[test]
fn a_feed_that_nests_too_deep_ends_the_tick() {
    let mut items = String::from("<item><link>https://a/1</link><x:e>");
    for _ in 0..10_000 {
        items.push_str("<a>");
    }
    assert_eq!(
        job().step(TickState::AwaitingFeed, TickEvent::Feed(feed_with(&items))),
        failed(JobError::Fetch(FetchError::Malformed))
    );
}
