//! User records: the lightweight `Author` identity embedded in posts, and
//! the full `User` profile with its bio, links and recent posts.
use crate::post::{Subpost, SubpostV};
use vstd::prelude::*;

verus! {

/// User information and statistics.
#[derive(Debug, Clone, PartialEq)]
pub struct User {
    /// The upstream numeric identifier, unique and stable.
    pub id: u64,
    /// Display name; empty when upstream left it blank.
    pub name: String,
    /// Profile-picture URL, the highest-quality version offered.
    pub pfp: String,
    pub verified: bool,
    /// Biography text; empty when upstream left it blank.
    pub bio: String,
    pub followers: u64,
    /// Bio link URLs, in order.
    pub links: Vec<String>,
    /// The posts one query page returns, in order.
    pub posts: Vec<Subpost>,
}

/// A user embedded within another object.
#[derive(Debug, Clone, PartialEq)]
pub struct Author {
    pub username: String,
    /// Profile-picture URL.
    pub pfp: String,
    pub verified: bool,
}

/// The mathematical shadow of `Author`.
pub ghost struct AuthorV {
    pub username: Seq<char>,
    pub pfp: Seq<char>,
    pub verified: bool,
}

/// The mathematical shadow of `User`.
pub ghost struct UserV {
    pub id: u64,
    pub name: Seq<char>,
    pub pfp: Seq<char>,
    pub verified: bool,
    pub bio: Seq<char>,
    pub followers: u64,
    pub links: Seq<Seq<char>>,
    pub posts: Seq<SubpostV>,
}

impl View for Author {
    type V = AuthorV;

    open spec fn view(&self) -> AuthorV {
        AuthorV { username: self.username@, pfp: self.pfp@, verified: self.verified }
    }
}

impl DeepView for Author {
    type V = AuthorV;

    open spec fn deep_view(&self) -> AuthorV {
        self.view()
    }
}

impl View for User {
    type V = UserV;

    open spec fn view(&self) -> UserV {
        UserV {
            id: self.id,
            name: self.name@,
            pfp: self.pfp@,
            verified: self.verified,
            bio: self.bio@,
            followers: self.followers,
            links: self.links.deep_view(),
            posts: self.posts.deep_view(),
        }
    }
}

impl DeepView for User {
    type V = UserV;

    open spec fn deep_view(&self) -> UserV {
        self.view()
    }
}

} // verus!
