//! One tick of the relay as a state machine. The machine decides; its driver
//! performs each action it asks for and hands the reply back as an event.
//!
//! A tick runs fetch, dedup check and post strictly in that order and keeps
//! nothing once it has finished: the next tick starts from the channel's own
//! history again.

use crate::channel::ChannelReference;
use crate::dedup::{judge, last_message, latest, link_of, verdict_of, DedupInputError, Verdict};
use crate::feed::{
    fetched, newest_item, newest_of, read_reply, FeedItem, FeedItemView, FeedReply, FeedReplyView,
    FetchError,
};
use vstd::prelude::*;

verus! {

/// Seconds between two ticks.
pub const POLL_INTERVAL_SECS: u64 = 60;

/// How many messages a tick asks the channel for: the most recent one.
pub const HISTORY_LIMIT: u8 = 1;

/// What a tick works with: where the feed is and which channel gets the
/// posts. The driver holds the gateway connection beside it.
#[derive(Debug, Clone, PartialEq, Eq)]
pub struct JobRun {
    pub feed_url: String,
    pub channel: ChannelReference,
}

pub struct JobRunView {
    pub feed_url: Seq<char>,
    pub channel: ChannelReference,
}

impl View for JobRun {
    type V = JobRunView;

    open spec fn view(&self) -> JobRunView {
        JobRunView { feed_url: self.feed_url@, channel: self.channel }
    }
}

/// Why the channel's recent messages could not be read.
#[derive(Debug, Clone, Copy, PartialEq, Eq, Structural)]
pub enum HistoryQueryError {
    /// The gateway did not answer the query, or refused it.
    Gateway,
    /// The identifier names something else than a guild's text channel.
    NotGuildChannel,
}

/// What came back from the query for the channel's recent messages.
#[derive(Debug, Clone, PartialEq, Eq)]
pub enum HistoryReply {
    Failed(HistoryQueryError),
    /// The text of each message, the most recent first.
    Messages(Vec<String>),
}

pub enum HistoryReplyView {
    Failed(HistoryQueryError),
    Messages(Seq<Seq<char>>),
}

impl View for HistoryReply {
    type V = HistoryReplyView;

    open spec fn view(&self) -> HistoryReplyView {
        match self {
            HistoryReply::Failed(e) => HistoryReplyView::Failed(*e),
            HistoryReply::Messages(messages) => HistoryReplyView::Messages(messages.deep_view()),
        }
    }
}

/// What came back from the request to send a message.
#[derive(Debug, Clone, Copy, PartialEq, Eq, Structural)]
pub enum PostReply {
    Delivered,
    Rejected,
}

/// A reply that the driver hands to the machine.
#[derive(Debug, Clone, PartialEq, Eq)]
pub enum TickEvent {
    Feed(FeedReply),
    History(HistoryReply),
    Post(PostReply),
}

pub enum TickEventView {
    Feed(FeedReplyView),
    History(HistoryReplyView),
    Post(PostReply),
}

impl View for TickEvent {
    type V = TickEventView;

    open spec fn view(&self) -> TickEventView {
        match self {
            TickEvent::Feed(reply) => TickEventView::Feed(reply@),
            TickEvent::History(reply) => TickEventView::History(reply@),
            TickEvent::Post(reply) => TickEventView::Post(*reply),
        }
    }
}

/// Why a tick ended without a verdict or a post, by the stage that failed.
#[derive(Debug, Clone, Copy, PartialEq, Eq, Structural)]
pub enum JobError {
    Fetch(FetchError),
    DedupInput(DedupInputError),
    HistoryQuery(HistoryQueryError),
    Post,
}

/// How a tick ended. Every ending is for the operator's log only; none stops
/// the schedule.
#[derive(Debug, Clone, Copy, PartialEq, Eq, Structural)]
pub enum TickReport {
    Posted,
    NoNewArticles,
    Failed(JobError),
}

impl JobError {
    /// The line that tells the operator which stage failed.
    pub open spec fn message_text(self) -> Seq<char> {
        match self {
            JobError::Fetch(FetchError::Network) => "Feed request failed"@,
            JobError::Fetch(FetchError::BadStatus(_)) => "Feed request returned an error status"@,
            JobError::Fetch(FetchError::Malformed) => "Feed could not be parsed"@,
            JobError::Fetch(FetchError::EmptyFeed) => "No items in feed"@,
            JobError::DedupInput(_) => "No link found"@,
            JobError::HistoryQuery(HistoryQueryError::Gateway) => "Channel history query failed"@,
            JobError::HistoryQuery(HistoryQueryError::NotGuildChannel) => "Not a guild channel"@,
            JobError::Post => "Message could not be sent"@,
        }
    }

    pub fn message(&self) -> (text: &'static str)
        ensures
            text@ == self.message_text(),
    {
        match self {
            JobError::Fetch(FetchError::Network) => "Feed request failed",
            JobError::Fetch(FetchError::BadStatus(_)) => "Feed request returned an error status",
            JobError::Fetch(FetchError::Malformed) => "Feed could not be parsed",
            JobError::Fetch(FetchError::EmptyFeed) => "No items in feed",
            JobError::DedupInput(_) => "No link found",
            JobError::HistoryQuery(HistoryQueryError::Gateway) => "Channel history query failed",
            JobError::HistoryQuery(HistoryQueryError::NotGuildChannel) => "Not a guild channel",
            JobError::Post => "Message could not be sent",
        }
    }
}

impl TickReport {
    /// The line for the operator's log.
    pub open spec fn message_text(self) -> Seq<char> {
        match self {
            TickReport::Posted => "Posted new article"@,
            TickReport::NoNewArticles => "No new articles"@,
            TickReport::Failed(e) => e.message_text(),
        }
    }

    pub fn message(&self) -> (text: &'static str)
        ensures
            text@ == self.message_text(),
    {
        match self {
            TickReport::Posted => "Posted new article",
            TickReport::NoNewArticles => "No new articles",
            TickReport::Failed(e) => e.message(),
        }
    }

    /// Whether the report goes to the log as an error.
    pub fn is_failure(&self) -> (failed: bool)
        ensures
            failed == (self is Failed),
    {
        match self {
            TickReport::Failed(_) => true,
            _ => false,
        }
    }
}

/// Where a tick stands.
#[derive(Debug, Clone, PartialEq, Eq)]
pub enum TickState {
    AwaitingFeed,
    /// The feed gave a story with this link; the channel's history is asked for.
    AwaitingHistory { link: String },
    AwaitingPost,
    Finished,
}

pub enum TickStateView {
    AwaitingFeed,
    AwaitingHistory { link: Seq<char> },
    AwaitingPost,
    Finished,
}

impl View for TickState {
    type V = TickStateView;

    open spec fn view(&self) -> TickStateView {
        match self {
            TickState::AwaitingFeed => TickStateView::AwaitingFeed,
            TickState::AwaitingHistory { link } => TickStateView::AwaitingHistory { link: link@ },
            TickState::AwaitingPost => TickStateView::AwaitingPost,
            TickState::Finished => TickStateView::Finished,
        }
    }
}

/// What the machine asks its driver to do next.
#[derive(Debug, Clone, PartialEq, Eq)]
pub enum TickAction {
    /// Request the feed by HTTP GET and reply with `TickEvent::Feed`.
    FetchFeed { url: String },
    /// Ask for the most recent messages and reply with `TickEvent::History`.
    QueryHistory { channel: ChannelReference, limit: u8 },
    /// Send one message and reply with `TickEvent::Post`.
    SendMessage { channel: ChannelReference, content: String },
    /// The tick is over: log the report.
    Conclude(TickReport),
    /// The event was not the one awaited: nothing to do.
    Ignore,
}

pub enum TickActionView {
    FetchFeed { url: Seq<char> },
    QueryHistory { channel: ChannelReference, limit: u8 },
    SendMessage { channel: ChannelReference, content: Seq<char> },
    Conclude(TickReport),
    Ignore,
}

impl View for TickAction {
    type V = TickActionView;

    open spec fn view(&self) -> TickActionView {
        match self {
            TickAction::FetchFeed { url } => TickActionView::FetchFeed { url: url@ },
            TickAction::QueryHistory { channel, limit } => TickActionView::QueryHistory {
                channel: *channel,
                limit: *limit,
            },
            TickAction::SendMessage { channel, content } => TickActionView::SendMessage {
                channel: *channel,
                content: content@,
            },
            TickAction::Conclude(report) => TickActionView::Conclude(*report),
            TickAction::Ignore => TickActionView::Ignore,
        }
    }
}

/// A tick ends here with the given report.
pub open spec fn concluded(report: TickReport) -> (TickStateView, TickActionView) {
    (TickStateView::Finished, TickActionView::Conclude(report))
}

/// A tick opens by asking for the feed.
pub open spec fn begin_model(job: JobRunView) -> (TickStateView, TickActionView) {
    (TickStateView::AwaitingFeed, TickActionView::FetchFeed { url: job.feed_url })
}

/// What a fetch came to, as sequences of characters.
pub open spec fn fetch_view(items: Result<Vec<FeedItem>, FetchError>) -> Result<
    Seq<FeedItemView>,
    FetchError,
> {
    match items {
        Ok(items) => Ok(items.deep_view()),
        Err(e) => Err(e),
    }
}

/// With the outcome of the fetch in hand: a failed fetch, a feed without
/// items and a newest story without a link each end the tick; otherwise the
/// channel's most recent message is asked for.
pub open spec fn after_items(job: JobRunView, items: Result<Seq<FeedItemView>, FetchError>) -> (
    TickStateView,
    TickActionView,
) {
    match items {
        Err(e) => concluded(TickReport::Failed(JobError::Fetch(e))),
        Ok(items) => match newest_of(items) {
            Err(e) => concluded(TickReport::Failed(JobError::Fetch(e))),
            Ok(story) => match story.link {
                None => concluded(TickReport::Failed(JobError::DedupInput(DedupInputError {  }))),
                Some(link) => (
                    TickStateView::AwaitingHistory { link },
                    TickActionView::QueryHistory { channel: job.channel, limit: HISTORY_LIMIT },
                ),
            },
        },
    }
}

/// With the feed's reply in hand: the tick goes on from what the reply is
/// read to.
pub open spec fn after_feed(job: JobRunView, reply: FeedReplyView) -> (
    TickStateView,
    TickActionView,
) {
    after_items(job, fetched(reply))
}

/// With the channel's history in hand: a failed query ends the tick, a
/// duplicate ends it in silence, and a new link is sent as a message whose
/// content is exactly the link.
pub open spec fn after_history(job: JobRunView, link: Seq<char>, reply: HistoryReplyView) -> (
    TickStateView,
    TickActionView,
) {
    match reply {
        HistoryReplyView::Failed(e) => concluded(TickReport::Failed(JobError::HistoryQuery(e))),
        HistoryReplyView::Messages(messages) => match verdict_of(link, latest(messages)) {
            Verdict::Duplicate => concluded(TickReport::NoNewArticles),
            Verdict::New => (
                TickStateView::AwaitingPost,
                TickActionView::SendMessage { channel: job.channel, content: link },
            ),
        },
    }
}

/// With the gateway's answer to the send in hand, the tick ends either way.
pub open spec fn after_post(reply: PostReply) -> (TickStateView, TickActionView) {
    match reply {
        PostReply::Delivered => concluded(TickReport::Posted),
        PostReply::Rejected => concluded(TickReport::Failed(JobError::Post)),
    }
}

/// The machine: from a state and an event to the next state and the action
/// to perform. An event that the state does not await changes nothing.
pub open spec fn step_model(job: JobRunView, state: TickStateView, event: TickEventView) -> (
    TickStateView,
    TickActionView,
) {
    match (state, event) {
        (TickStateView::AwaitingFeed, TickEventView::Feed(reply)) => after_feed(job, reply),
        (TickStateView::AwaitingHistory { link }, TickEventView::History(reply)) => after_history(
            job,
            link,
            reply,
        ),
        (TickStateView::AwaitingPost, TickEventView::Post(reply)) => after_post(reply),
        _ => (state, TickActionView::Ignore),
    }
}

/// Ends a tick with a report.
fn conclude(report: TickReport) -> (r: (TickState, TickAction))
    ensures
        (r.0@, r.1@) == concluded(report),
{
    (TickState::Finished, TickAction::Conclude(report))
}

impl JobRun {
    pub fn new(feed_url: String, channel: ChannelReference) -> (job: JobRun)
        ensures
            job@ == (JobRunView { feed_url: feed_url@, channel }),
    {
        JobRun { feed_url, channel }
    }

    /// Opens a tick.
    pub fn begin(&self) -> (r: (TickState, TickAction))
        ensures
            (r.0@, r.1@) == begin_model(self@),
    {
        (TickState::AwaitingFeed, TickAction::FetchFeed { url: self.feed_url.clone() })
    }

    /// Takes the reply to the feed request.
    pub fn on_feed(&self, reply: FeedReply) -> (r: (TickState, TickAction))
        ensures
            (r.0@, r.1@) == after_feed(self@, reply@),
    {
        self.on_items(read_reply(reply))
    }

    /// Takes the outcome of the fetch: the feed's items, or why there are
    /// none.
    pub fn on_items(&self, items: Result<Vec<FeedItem>, FetchError>) -> (r: (
        TickState,
        TickAction,
    ))
        ensures
            (r.0@, r.1@) == after_items(self@, fetch_view(items)),
    {
        let items = match items {
            Ok(items) => items,
            Err(e) => {
                return conclude(TickReport::Failed(JobError::Fetch(e)));
            },
        };
        let story = match newest_item(items) {
            Ok(story) => story,
            Err(e) => {
                return conclude(TickReport::Failed(JobError::Fetch(e)));
            },
        };
        match link_of(&story) {
            Err(e) => conclude(TickReport::Failed(JobError::DedupInput(e))),
            Ok(link) => (
                TickState::AwaitingHistory { link: link.clone() },
                TickAction::QueryHistory { channel: self.channel, limit: HISTORY_LIMIT },
            ),
        }
    }

    /// Takes the reply to the history query for a story with the given link.
    pub fn on_history(&self, link: String, reply: HistoryReply) -> (r: (TickState, TickAction))
        ensures
            (r.0@, r.1@) == after_history(self@, link@, reply@),
    {
        match reply {
            HistoryReply::Failed(e) => conclude(TickReport::Failed(JobError::HistoryQuery(e))),
            HistoryReply::Messages(messages) => match judge(&link, last_message(&messages)) {
                Verdict::Duplicate => conclude(TickReport::NoNewArticles),
                Verdict::New => (
                    TickState::AwaitingPost,
                    TickAction::SendMessage { channel: self.channel, content: link },
                ),
            },
        }
    }

    /// Takes the gateway's answer to the send.
    pub fn on_post(&self, reply: PostReply) -> (r: (TickState, TickAction))
        ensures
            (r.0@, r.1@) == after_post(reply),
    {
        match reply {
            PostReply::Delivered => conclude(TickReport::Posted),
            PostReply::Rejected => conclude(TickReport::Failed(JobError::Post)),
        }
    }

    /// Advances a tick by one event.
    pub fn step(&self, state: TickState, event: TickEvent) -> (r: (TickState, TickAction))
        ensures
            (r.0@, r.1@) == step_model(self@, state@, event@),
    {
        match (state, event) {
            (TickState::AwaitingFeed, TickEvent::Feed(reply)) => self.on_feed(reply),
            (TickState::AwaitingHistory { link }, TickEvent::History(reply)) => self.on_history(
                link,
                reply,
            ),
            (TickState::AwaitingPost, TickEvent::Post(reply)) => self.on_post(reply),
            (state, _) => (state, TickAction::Ignore),
        }
    }
}

} // verus!
