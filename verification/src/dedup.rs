//! The dedup oracle: is the newest story of the feed new to the channel?

use crate::feed::{FeedItem, FeedItemView};
use vstd::prelude::*;

verus! {

/// What the oracle finds of a story.
#[derive(Debug, Clone, Copy, PartialEq, Eq, Structural)]
pub enum Verdict {
    /// The channel has not seen the story last: post it.
    New,
    /// The story is what the channel got last: stay silent.
    Duplicate,
}

/// The newest story carries no link, so there is nothing to post.
#[derive(Debug, Clone, Copy, PartialEq, Eq, Structural)]
pub struct DedupInputError {}

/// The most recent message among those that a history query returned, which
/// lists the newest first.
pub open spec fn latest(messages: Seq<Seq<char>>) -> Option<Seq<char>> {
    if messages.len() == 0 {
        None
    } else {
        Some(messages[0])
    }
}

/// A link is a duplicate exactly when the channel's most recent message is
/// that link, character for character. A channel without messages has seen
/// nothing.
pub open spec fn verdict_of(link: Seq<char>, last: Option<Seq<char>>) -> Verdict {
    match last {
        None => Verdict::New,
        Some(text) => if text == link {
            Verdict::Duplicate
        } else {
            Verdict::New
        },
    }
}

/// The oracle on a whole story: without a link there is no verdict; with one,
/// only the link counts.
pub open spec fn decision(candidate: FeedItemView, last: Option<Seq<char>>) -> Result<
    Verdict,
    DedupInputError,
> {
    match candidate.link {
        None => Err(DedupInputError {  }),
        Some(link) => Ok(verdict_of(link, last)),
    }
}

/// Picks the most recent of the messages that a history query returned.
pub fn last_message(messages: &Vec<String>) -> (last: Option<&String>)
    ensures
        last.deep_view() == latest(messages.deep_view()),
{
    if messages.len() == 0 {
        None
    } else {
        Some(&messages[0])
    }
}

/// Compares a link with the channel's most recent message.
pub fn judge(link: &String, last: Option<&String>) -> (verdict: Verdict)
    ensures
        verdict == verdict_of(link@, last.deep_view()),
{
    match last {
        None => Verdict::New,
        Some(text) => {
            if *text == *link {
                Verdict::Duplicate
            } else {
                Verdict::New
            }
        },
    }
}

/// The link that a story would be posted under.
pub fn link_of(candidate: &FeedItem) -> (r: Result<&String, DedupInputError>)
    ensures
        match r {
            Ok(link) => candidate@.link == Some(link@),
            Err(_) => candidate@.link is None,
        },
{
    match &candidate.link {
        Some(link) => Ok(link),
        None => Err(DedupInputError {  }),
    }
}

/// Decides whether the newest story of the feed is to be posted, given the
/// channel's most recent message, if it has one.
pub fn decide(candidate: &FeedItem, last: Option<&String>) -> (r: Result<Verdict, DedupInputError>)
    ensures
        r == decision(candidate@, last.deep_view()),
{
    match link_of(candidate) {
        Ok(link) => Ok(judge(link, last)),
        Err(e) => Err(e),
    }
}

} // verus!
