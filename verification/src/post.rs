//! Post records: a `Subpost` as it appears embedded inside a thread list,
//! and a full `Post` with its reconstructed parents and replies.
//!
//! All records are built fresh from a JSON response and returned by value;
//! converting a `Subpost` back into a full `Post` is a new fetch through the
//! embedding program's transport, never an in-memory link.
use crate::media::{Media, MediaV};
use crate::user::{Author, AuthorV};
use vstd::prelude::*;

verus! {

/// Post contents, metadata, media and interactions.
#[derive(Debug, Clone, PartialEq)]
pub struct Post {
    /// The upstream numeric id, as the decimal text it was scraped as.
    pub id: String,
    pub author: Author,
    /// Creation time, epoch seconds.
    pub date: u64,
    pub body: String,
    pub media: Vec<Media>,
    pub likes: u64,
    /// Ancestors of this post, oldest first.
    pub parents: Vec<Subpost>,
    /// Direct replies to this post's author, in the order returned.
    pub replies: Vec<Subpost>,
}

/// A post embedded within another object.
#[derive(Debug, Clone, PartialEq)]
pub struct Subpost {
    /// The human-facing short code.
    pub code: String,
    pub author: Author,
    /// Creation time, epoch seconds.
    pub date: u64,
    pub body: String,
    pub media: Vec<Media>,
    pub likes: u64,
}

/// The mathematical shadow of `Subpost`.
pub ghost struct SubpostV {
    pub code: Seq<char>,
    pub author: AuthorV,
    pub date: u64,
    pub body: Seq<char>,
    pub media: Seq<MediaV>,
    pub likes: u64,
}

/// The mathematical shadow of `Post`.
pub ghost struct PostV {
    pub id: Seq<char>,
    pub author: AuthorV,
    pub date: u64,
    pub body: Seq<char>,
    pub media: Seq<MediaV>,
    pub likes: u64,
    pub parents: Seq<SubpostV>,
    pub replies: Seq<SubpostV>,
}

impl View for Subpost {
    type V = SubpostV;

    open spec fn view(&self) -> SubpostV {
        SubpostV {
            code: self.code@,
            author: self.author@,
            date: self.date,
            body: self.body@,
            media: self.media.deep_view(),
            likes: self.likes,
        }
    }
}

impl DeepView for Subpost {
    type V = SubpostV;

    open spec fn deep_view(&self) -> SubpostV {
        self.view()
    }
}

impl View for Post {
    type V = PostV;

    open spec fn view(&self) -> PostV {
        PostV {
            id: self.id@,
            author: self.author@,
            date: self.date,
            body: self.body@,
            media: self.media.deep_view(),
            likes: self.likes,
            parents: self.parents.deep_view(),
            replies: self.replies.deep_view(),
        }
    }
}

impl DeepView for Post {
    type V = PostV;

    open spec fn deep_view(&self) -> PostV {
        self.view()
    }
}

} // verus!
