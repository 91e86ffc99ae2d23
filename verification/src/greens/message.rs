//! The messages the game posts to the page that embeds it.
use vstd::prelude::*;

verus! {

/// A message to the embedding page: an operation and its optional details.
#[derive(Debug)]
pub struct Message<'a> {
    pub op: &'a str,
    pub verb: Option<&'a str>,
    pub win: Option<bool>,
    pub score: Option<i32>,
    pub video_url: Option<String>,
}

} // verus!
