//! Post records as extracted from the listing page and as stored.

use crate::timestamp::Timestamp;
use vstd::prelude::*;

verus! {

/// Who wrote a post and when; either part may be missing.
#[derive(Clone, Debug)]
pub struct ForumPostMeta {
    pub poster: Option<String>,
    pub date: Option<Timestamp>,
}

/// One post of the listing; `url` identifies it.
#[derive(Clone, Debug)]
pub struct ForumPost {
    pub url: Option<String>,
    pub title: Option<String>,
    pub meta: ForumPostMeta,
}

/// The mathematical value of a post record.
pub struct PostView {
    pub url: Option<Seq<char>>,
    pub title: Option<Seq<char>>,
    pub poster: Option<Seq<char>>,
    pub date: Option<Timestamp>,
}

pub open spec fn opt_text(o: Option<String>) -> Option<Seq<char>> {
    match o {
        Some(s) => Some(s@),
        None => None,
    }
}

impl View for ForumPost {
    type V = PostView;

    open spec fn view(&self) -> PostView {
        PostView {
            url: opt_text(self.url),
            title: opt_text(self.title),
            poster: opt_text(self.meta.poster),
            date: self.meta.date,
        }
    }
}

/// Copies an optional text so that the copy has the same characters.
pub fn clone_text(o: &Option<String>) -> (r: Option<String>)
    ensures
        opt_text(r) == opt_text(*o),
{
    match o {
        Some(s) => Some(s.clone()),
        None => None,
    }
}

} // verus!
