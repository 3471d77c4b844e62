//! Ticks run to their end against a model of the world outside: the feed
//! that the URL serves, the gateway, and the channel behind it. The laws of
//! the relay are stated and proved of such runs.

use crate::dedup::{decision, latest, DedupInputError, Verdict};
use crate::feed::{newest_story, FeedItemView, FeedReplyView, FetchError};
use crate::tick::{
    after_history, begin_model, step_model, HistoryQueryError, HistoryReplyView, JobError,
    JobRunView, PostReply, TickActionView, TickEventView, TickReport, TickStateView,
    HISTORY_LIMIT,
};
use vstd::prelude::*;

verus! {

/// What one tick meets outside, but for the channel's messages.
pub struct Conditions {
    /// What the request for the feed comes back with.
    pub feed: FeedReplyView,
    /// Set where the gateway fails the history query, with the failure.
    pub history_failure: Option<HistoryQueryError>,
    /// Whether the gateway refuses to send.
    pub rejects_posts: bool,
}

/// What a tick leaves behind.
pub struct TickOutcome {
    /// The text of the channel's messages after the tick, oldest first.
    pub channel: Seq<Seq<char>>,
    /// The report that the tick concluded with, if it concluded.
    pub report: Option<TickReport>,
}

/// The `limit` most recent messages of a channel, the most recent first.
pub open spec fn recent(channel: Seq<Seq<char>>, limit: nat) -> Seq<Seq<char>> {
    Seq::new(
        if limit <= channel.len() {
            limit
        } else {
            channel.len()
        },
        |i: int| channel[channel.len() - 1 - i],
    )
}

/// The answer to an action, and the channel after it. A delivered message
/// becomes the channel's most recent one. There is no answer to an action
/// that asks for nothing.
pub open spec fn perform(
    action: TickActionView,
    conditions: Conditions,
    channel: Seq<Seq<char>>,
) -> Option<(TickEventView, Seq<Seq<char>>)> {
    match action {
        TickActionView::FetchFeed { url } => Some((TickEventView::Feed(conditions.feed), channel)),
        TickActionView::QueryHistory { channel: _, limit } => Some(
            (
                TickEventView::History(
                    match conditions.history_failure {
                        Some(e) => HistoryReplyView::Failed(e),
                        None => HistoryReplyView::Messages(recent(channel, limit as nat)),
                    },
                ),
                channel,
            ),
        ),
        TickActionView::SendMessage { channel: _, content } => if conditions.rejects_posts {
            Some((TickEventView::Post(PostReply::Rejected), channel))
        } else {
            Some((TickEventView::Post(PostReply::Delivered), channel.push(content)))
        },
        TickActionView::Conclude(_) => None,
        TickActionView::Ignore => None,
    }
}

/// The driver's loop: perform the action, hand the answer to the machine,
/// go on with what it asks for next, for at most `requests` actions.
pub open spec fn drive(
    job: JobRunView,
    state: TickStateView,
    action: TickActionView,
    conditions: Conditions,
    channel: Seq<Seq<char>>,
    requests: nat,
) -> TickOutcome
    decreases requests,
{
    match perform(action, conditions, channel) {
        None => TickOutcome {
            channel,
            report: match action {
                TickActionView::Conclude(report) => Some(report),
                _ => None,
            },
        },
        Some((event, next_channel)) => if requests == 0 {
            TickOutcome { channel, report: None }
        } else {
            let (next_state, next_action) = step_model(job, state, event);
            drive(job, next_state, next_action, conditions, next_channel, (requests - 1) as nat)
        },
    }
}

/// One whole tick: it makes at most three requests.
pub open spec fn run_tick(
    job: JobRunView,
    conditions: Conditions,
    channel: Seq<Seq<char>>,
) -> TickOutcome {
    let (state, action) = begin_model(job);
    drive(job, state, action, conditions, channel, 3)
}

/// The channel after a run of ticks, one after the other, each under its own
/// conditions. No tick hands anything to the next but the channel itself.
pub open spec fn run_ticks(
    job: JobRunView,
    ticks: Seq<Conditions>,
    channel: Seq<Seq<char>>,
) -> Seq<Seq<char>>
    decreases ticks.len(),
{
    if ticks.len() == 0 {
        channel
    } else {
        run_tick(job, ticks.last(), run_ticks(job, ticks.drop_last(), channel)).channel
    }
}

/// The link of the newest story that a feed carries, where it carries a
/// story and the story has a link.
pub open spec fn newest_link(feed: FeedReplyView) -> Option<Seq<char>> {
    match newest_story(feed) {
        Ok(story) => story.link,
        Err(_) => None,
    }
}

/// Whether the channel's most recent message is exactly this text.
pub open spec fn last_message_is(channel: Seq<Seq<char>>, text: Seq<char>) -> bool {
    channel.len() > 0 && channel.last() == text
}

/// Whether no message of the channel repeats the one before it.
pub open spec fn never_repeats(channel: Seq<Seq<char>>) -> bool {
    forall|i: int| 0 < i < channel.len() ==> channel[i - 1] != #[trigger] channel[i]
}

/// Every tick concludes. It adds at most one message to the channel, and
/// only where it reports a post: the link of the newest story, which the
/// channel's most recent message then was not.
pub proof fn law_tick_concludes(job: JobRunView, conditions: Conditions, channel: Seq<Seq<char>>)
    ensures
        run_tick(job, conditions, channel).report is Some,
        run_tick(job, conditions, channel).report == Some(TickReport::Posted) ==> {
            &&& newest_link(conditions.feed) is Some
            &&& !last_message_is(channel, newest_link(conditions.feed)->0)
            &&& run_tick(job, conditions, channel).channel == channel.push(
                newest_link(conditions.feed)->0,
            )
        },
        run_tick(job, conditions, channel).report != Some(TickReport::Posted) ==> run_tick(
            job,
            conditions,
            channel,
        ).channel == channel,
{
    reveal_with_fuel(drive, 4);
}

/// The tick does what the oracle says: where the feed carries a story and
/// the gateway works, the oracle's answer on that story and the channel's
/// most recent message decides between a post, silence and a failure.
pub proof fn law_tick_follows_oracle(
    job: JobRunView,
    conditions: Conditions,
    channel: Seq<Seq<char>>,
    story: FeedItemView,
)
    requires
        newest_story(conditions.feed) == Ok::<FeedItemView, FetchError>(story),
        conditions.history_failure is None,
        !conditions.rejects_posts,
    ensures
        run_tick(job, conditions, channel) == match decision(
            story,
            latest(recent(channel, HISTORY_LIMIT as nat)),
        ) {
            Err(e) => TickOutcome {
                channel,
                report: Some(TickReport::Failed(JobError::DedupInput(e))),
            },
            Ok(Verdict::Duplicate) => TickOutcome {
                channel,
                report: Some(TickReport::NoNewArticles),
            },
            Ok(Verdict::New) => TickOutcome {
                channel: channel.push(story.link->0),
                report: Some(TickReport::Posted),
            },
        },
{
    reveal_with_fuel(drive, 4);
}

/// No duplicate: where the newest story's link is the channel's most recent
/// message, the tick sends nothing.
pub proof fn law_no_duplicate(
    job: JobRunView,
    conditions: Conditions,
    channel: Seq<Seq<char>>,
    link: Seq<char>,
)
    requires
        newest_link(conditions.feed) == Some(link),
        last_message_is(channel, link),
    ensures
        run_tick(job, conditions, channel).channel == channel,
        conditions.history_failure is None ==> run_tick(job, conditions, channel).report == Some(
            TickReport::NoNewArticles,
        ),
{
    reveal_with_fuel(drive, 4);
}

/// New item: where the newest story's link differs from the channel's most
/// recent message, or the channel has none, and the gateway works, the tick
/// adds exactly one message, whose content is the link.
pub proof fn law_new_item(
    job: JobRunView,
    conditions: Conditions,
    channel: Seq<Seq<char>>,
    link: Seq<char>,
)
    requires
        newest_link(conditions.feed) == Some(link),
        !last_message_is(channel, link),
        conditions.history_failure is None,
        !conditions.rejects_posts,
    ensures
        run_tick(job, conditions, channel).channel == channel.push(link),
        run_tick(job, conditions, channel).report == Some(TickReport::Posted),
{
    reveal_with_fuel(drive, 4);
}

/// Missing link: where the newest story has no link, the tick sends nothing
/// and reports the failure, whatever the gateway would have done.
pub proof fn law_missing_link(job: JobRunView, conditions: Conditions, channel: Seq<Seq<char>>)
    requires
        newest_story(conditions.feed) is Ok,
        newest_story(conditions.feed)->Ok_0.link is None,
    ensures
        run_tick(job, conditions, channel).channel == channel,
        run_tick(job, conditions, channel).report == Some(
            TickReport::Failed(JobError::DedupInput(DedupInputError {  })),
        ),
{
    reveal_with_fuel(drive, 4);
}

/// Fetch failure: where the feed cannot be had (no response, a bad status, a
/// body that does not parse, no items), the tick sends nothing and reports
/// which failure it was.
pub proof fn law_fetch_failure(
    job: JobRunView,
    conditions: Conditions,
    channel: Seq<Seq<char>>,
    failure: FetchError,
)
    requires
        newest_story(conditions.feed) == Err::<FeedItemView, FetchError>(failure),
    ensures
        run_tick(job, conditions, channel).channel == channel,
        run_tick(job, conditions, channel).report == Some(
            TickReport::Failed(JobError::Fetch(failure)),
        ),
{
    reveal_with_fuel(drive, 4);
}

/// Isolation: a tick whose fetch failed leaves nothing behind. The tick after
/// it runs as if the failed one had never happened, and where its feed
/// carries a link and the gateway works it ends well.
pub proof fn law_failure_is_isolated(
    job: JobRunView,
    failing: Conditions,
    next: Conditions,
    channel: Seq<Seq<char>>,
)
    requires
        newest_story(failing.feed) is Err,
    ensures
        run_ticks(job, seq![failing, next], channel) == run_ticks(job, seq![next], channel),
        run_tick(job, next, run_tick(job, failing, channel).channel) == run_tick(
            job,
            next,
            channel,
        ),
        newest_link(next.feed) is Some && next.history_failure is None && !next.rejects_posts ==> {
            let report = run_tick(job, next, run_tick(job, failing, channel).channel).report;
            report == Some(TickReport::Posted) || report == Some(TickReport::NoNewArticles)
        },
{
    reveal_with_fuel(drive, 4);
    reveal_with_fuel(run_ticks, 3);
    assert(seq![failing, next].drop_last() =~= seq![failing]);
    assert(seq![failing].drop_last() =~= Seq::<Conditions>::empty());
    assert(seq![next].drop_last() =~= Seq::<Conditions>::empty());
}

/// Only the link counts: two feeds whose newest stories have the same link
/// give the same tick, whatever their titles and the rest of the feed. So a
/// change of title alone, under the link that was posted last, sends nothing.
pub proof fn law_title_is_ignored(
    job: JobRunView,
    conditions: Conditions,
    channel: Seq<Seq<char>>,
    other_feed: FeedReplyView,
)
    requires
        newest_story(conditions.feed) is Ok,
        newest_story(other_feed) is Ok,
        newest_story(conditions.feed)->Ok_0.link == newest_story(other_feed)->Ok_0.link,
    ensures
        run_tick(job, Conditions { feed: other_feed, ..conditions }, channel) == run_tick(
            job,
            conditions,
            channel,
        ),
        newest_link(conditions.feed) is Some && last_message_is(
            channel,
            newest_link(conditions.feed)->0,
        ) ==> run_tick(job, Conditions { feed: other_feed, ..conditions }, channel).channel
            == channel,
{
    reveal_with_fuel(drive, 4);
}

/// Posted once: after a tick that posted, a tick on the same feed sends
/// nothing more.
pub proof fn law_unchanged_feed_is_posted_once(
    job: JobRunView,
    conditions: Conditions,
    again: Conditions,
    channel: Seq<Seq<char>>,
)
    requires
        run_tick(job, conditions, channel).report == Some(TickReport::Posted),
        again.feed == conditions.feed,
    ensures
        run_tick(job, again, run_tick(job, conditions, channel).channel).channel == run_tick(
            job,
            conditions,
            channel,
        ).channel,
{
    reveal_with_fuel(drive, 4);
}

/// Over any run of ticks, whatever the feed serves and however the gateway
/// fails, the channel only grows, and in a channel that nobody else writes
/// to no message ever repeats the one before it.
pub proof fn law_channel_never_repeats(
    job: JobRunView,
    ticks: Seq<Conditions>,
    channel: Seq<Seq<char>>,
)
    requires
        never_repeats(channel),
    ensures
        never_repeats(run_ticks(job, ticks, channel)),
        channel.is_prefix_of(run_ticks(job, ticks, channel)),
    decreases ticks.len(),
{
    if ticks.len() > 0 {
        let before = run_ticks(job, ticks.drop_last(), channel);
        law_channel_never_repeats(job, ticks.drop_last(), channel);
        law_tick_concludes(job, ticks.last(), before);
    }
}

/// Only the most recent message is consulted: two histories that agree on
/// it lead to the same step, whatever older messages they hold.
pub proof fn law_only_latest_message_counts(
    job: JobRunView,
    link: Seq<char>,
    messages: Seq<Seq<char>>,
    others: Seq<Seq<char>>,
)
    requires
        messages.len() > 0,
        others.len() > 0,
        messages[0] == others[0],
    ensures
        after_history(job, link, HistoryReplyView::Messages(messages)) == after_history(
            job,
            link,
            HistoryReplyView::Messages(others),
        ),
{
}

} // verus!
