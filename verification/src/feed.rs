//! The feed fetcher, from the reply of the HTTP request onwards: the status
//! check, the parse of the body and the choice of the newest story.

use crate::nesting::{nesting_depth, within_nesting, MAX_NESTING};
use vstd::prelude::*;

verus! {

/// One entry of a feed.
#[derive(Debug, Clone, PartialEq, Eq)]
pub struct FeedItem {
    pub link: Option<String>,
    pub title: Option<String>,
}

/// What a [`FeedItem`] holds, as sequences of characters.
pub struct FeedItemView {
    pub link: Option<Seq<char>>,
    pub title: Option<Seq<char>>,
}

impl View for FeedItem {
    type V = FeedItemView;

    open spec fn view(&self) -> FeedItemView {
        FeedItemView { link: self.link.deep_view(), title: self.title.deep_view() }
    }
}

impl DeepView for FeedItem {
    type V = FeedItemView;

    open spec fn deep_view(&self) -> FeedItemView {
        self.view()
    }
}

impl FeedItem {
    pub fn new(link: Option<String>, title: Option<String>) -> (item: FeedItem)
        ensures
            item.link == link,
            item.title == title,
    {
        FeedItem { link, title }
    }
}

/// Why a tick got no story out of the feed.
#[derive(Debug, Clone, Copy, PartialEq, Eq, Structural)]
pub enum FetchError {
    /// The request did not produce a response.
    Network,
    /// The server answered with a status outside 200..=299.
    BadStatus(u16),
    /// The body is not a feed that can be read: it does not parse, or its
    /// elements nest deeper than a feed is followed.
    Malformed,
    /// The feed holds no item.
    EmptyFeed,
}

/// What came back from the request for the feed.
#[derive(Debug, Clone, PartialEq, Eq)]
pub enum FeedReply {
    /// No response: connection refused, timeout, name not resolved.
    Unreachable,
    /// A response, with its status code and its whole body.
    Response { status: u16, body: Vec<u8> },
}

pub enum FeedReplyView {
    Unreachable,
    Response { status: u16, body: Seq<u8> },
}

impl View for FeedReply {
    type V = FeedReplyView;

    open spec fn view(&self) -> FeedReplyView {
        match self {
            FeedReply::Unreachable => FeedReplyView::Unreachable,
            FeedReply::Response { status, body } => FeedReplyView::Response {
                status: *status,
                body: body@,
            },
        }
    }
}

/// `rss::Error`, the error of the feed parser. It is carried from the parser
/// to the place that maps it, and never looked into.
#[verifier::external_type_specification]
#[verifier::external_body]
pub struct ExRssError(rss::Error);

/// The link and the title of each item that `rss::Channel::read_from` reads
/// out of `body`, in the order of the document, or `None` where it reports an
/// error. Nothing is said here of what a given body parses to.
pub uninterp spec fn parsed_feed(body: Seq<u8>) -> Option<Seq<FeedItemView>>;

/// Calls `rss::Channel::read_from` on the bytes and keeps the link and the
/// title of each item of the channel it returns, in their order.
///
/// Trusted, not proved: that the outcome depends on the bytes alone, so that
/// [`parsed_feed`] can name it, and that the call returns on a body within
/// the nesting bound. The parser reads the elements inside a namespaced
/// element by recursion, one call for each level of nesting, and its reader
/// opens and closes elements on the tokens that the bound is counted on. A
/// body beyond the bound is kept from the call.
#[verifier::external_body]
fn read_channel_items(body: &[u8]) -> (r: Result<Vec<FeedItem>, rss::Error>)
    requires
        within_nesting(body@),
    ensures
        match r {
            Ok(items) => parsed_feed(body@) == Some(items.deep_view()),
            Err(_) => parsed_feed(body@) is None,
        },
{
    let channel = rss::Channel::read_from(body)?;
    Ok(channel.items.into_iter().map(|item| FeedItem::new(item.link, item.title)).collect())
}

/// The items of a document as the relay reads it: none where the document
/// nests too deep to be handed to the parser, else what the parser finds.
pub open spec fn readable(body: Seq<u8>) -> Option<Seq<FeedItemView>> {
    if within_nesting(body) {
        parsed_feed(body)
    } else {
        None
    }
}

pub open spec fn is_success(status: u16) -> bool {
    200 <= status <= 299
}

/// Whether an HTTP status code reports success.
pub fn is_success_status(status: u16) -> (ok: bool)
    ensures
        ok == is_success(status),
{
    200 <= status && status <= 299
}

/// Parses a feed document into its items, newest first as the document lists
/// them. A document that nests too deep is refused unparsed.
pub fn parse_feed(body: &[u8]) -> (r: Result<Vec<FeedItem>, FetchError>)
    ensures
        match r {
            Ok(items) => readable(body@) == Some(items.deep_view()),
            Err(e) => e == FetchError::Malformed && readable(body@) is None,
        },
{
    if nesting_depth(body) > MAX_NESTING {
        return Err(FetchError::Malformed);
    }
    match read_channel_items(body) {
        Ok(items) => Ok(items),
        Err(_) => Err(FetchError::Malformed),
    }
}

/// The items of a reply: the parsed sequence, which holds at least one item,
/// or the reason there is none.
pub open spec fn fetched(reply: FeedReplyView) -> Result<Seq<FeedItemView>, FetchError> {
    match reply {
        FeedReplyView::Unreachable => Err(FetchError::Network),
        FeedReplyView::Response { status, body } => if !is_success(status) {
            Err(FetchError::BadStatus(status))
        } else {
            match readable(body) {
                None => Err(FetchError::Malformed),
                Some(items) => if items.len() == 0 {
                    Err(FetchError::EmptyFeed)
                } else {
                    Ok(items)
                },
            }
        },
    }
}

/// The first item of a parsed feed, which is its newest story.
pub open spec fn newest_of(items: Seq<FeedItemView>) -> Result<FeedItemView, FetchError> {
    if items.len() == 0 {
        Err(FetchError::EmptyFeed)
    } else {
        Ok(items[0])
    }
}

/// The newest story that a reply carries, or the reason it carries none.
pub open spec fn newest_story(reply: FeedReplyView) -> Result<FeedItemView, FetchError> {
    match fetched(reply) {
        Ok(items) => newest_of(items),
        Err(e) => Err(e),
    }
}

/// Turns the reply to the feed request into the feed's items. A missing
/// response, a status that is no success, a body that cannot be read and a
/// feed without items are four distinct failures, looked for in that order.
pub fn read_reply(reply: FeedReply) -> (r: Result<Vec<FeedItem>, FetchError>)
    ensures
        match r {
            Ok(items) => fetched(reply@) == Ok::<Seq<FeedItemView>, FetchError>(items.deep_view()),
            Err(e) => fetched(reply@) == Err::<Seq<FeedItemView>, FetchError>(e),
        },
{
    match reply {
        FeedReply::Unreachable => Err(FetchError::Network),
        FeedReply::Response { status, body } => {
            if !is_success_status(status) {
                return Err(FetchError::BadStatus(status));
            }
            match parse_feed(body.as_slice()) {
                Err(e) => Err(e),
                Ok(items) => {
                    if items.len() == 0 {
                        Err(FetchError::EmptyFeed)
                    } else {
                        Ok(items)
                    }
                },
            }
        },
    }
}

/// Takes the newest story out of a parsed feed: its first item.
pub fn newest_item(items: Vec<FeedItem>) -> (r: Result<FeedItem, FetchError>)
    ensures
        match r {
            Ok(item) => newest_of(items.deep_view()) == Ok::<FeedItemView, FetchError>(item@),
            Err(e) => newest_of(items.deep_view()) == Err::<FeedItemView, FetchError>(e),
        },
{
    let mut items = items;
    if items.len() == 0 {
        Err(FetchError::EmptyFeed)
    } else {
        Ok(items.remove(0))
    }
}

} // verus!
