//! A scheduled news relay: on every tick it reads a syndication feed, takes
//! the newest story and posts its link into a chat channel unless that link is
//! already the channel's most recent message.
//!
//! The library holds the decisions of a tick. Whoever drives it performs the
//! network requests that the tick asks for and hands the replies back.

pub mod channel;
pub mod config;
pub mod dedup;
pub mod feed;
pub mod nesting;
pub mod relay;
pub mod supervision;
pub mod tick;

use vstd::prelude::*;

verus! {

/// State shared by every command handler. The relay rebuilds what it needs
/// from the channel on each tick, so there is nothing to keep here.
pub struct Data {}

} // verus!
