//! The client facade's fetch-post state machine.
//!
//! Fetching a post is a strictly sequential chain — resolve the numeric id
//! from the post's page, query the thread, map the items, partition them —
//! and every step can fail. The machine keeps those decisions here, where
//! they are verified; the embedding program only performs the actions (an
//! HTTP GET, a form POST) and hands each response body back. No state is
//! retried: a failed fetch ends in `Failed` and the caller decides whether
//! to start over.
use crate::error::SpoolsError;
use crate::json::{json_parse, Json};
use crate::mapper::{spec_thread_items, thread_items};
use crate::partition::{partition, spec_partition};
use crate::post::{Post, PostV, Subpost};
use crate::query::{
    parse_document, post_id_variables, post_page_url, post_thread_doc_id, query_form,
    spec_query_form,
};
use crate::resolve::{extract_post_id, spec_extract_post_id};
use vstd::prelude::*;

verus! {

/// Where a post fetch stands.
pub enum FetchPost {
    /// The short code still has to be resolved into the numeric id.
    ResolvingId { code: String },
    /// The thread query for the resolved id has yet to be answered.
    Querying { code: String, id: String },
    /// The answered document has yet to be mapped into thread items.
    Mapping { code: String, id: String, doc: Json },
    /// The mapped items have yet to be partitioned around the target.
    Partitioning { code: String, id: String, items: Vec<(Subpost, String)> },
    /// The fetch succeeded.
    Done(Post),
    /// The fetch failed; nothing is retried automatically.
    Failed(SpoolsError),
}

/// What the embedding program must do next to drive a fetch.
pub enum FetchAction {
    /// GET this URL and hand the body text to `on_page`.
    FetchPage(String),
    /// POST this form to the GraphQL endpoint — its first field holds the
    /// nonce, which also goes into the `X-FB-LSD` header — and hand the
    /// body text to `on_answer`.
    SendQuery(Vec<(String, String)>),
    /// Call `advance`: the next step needs no outside work.
    Advance,
    /// The fetch has ended in `Done` or `Failed`.
    Stop,
}

impl FetchPost {
    /// Begin fetching the post behind a short code.
    pub fn start(code: &str) -> (s: FetchPost)
        ensures
            match s {
                FetchPost::ResolvingId { code: c } => c@ == code@,
                _ => false,
            },
    {
        FetchPost::ResolvingId { code: String::from_str(code) }
    }

    /// The action this state waits on. `nonce` is the anti-automation token
    /// the next query would carry; it is supplied from outside so that a
    /// caller may draw it from any source — including reusing one.
    pub fn action(&self, nonce: &str) -> (a: FetchAction)
        ensures
            match *self {
                FetchPost::ResolvingId { code: ref c } => match a {
                    FetchAction::FetchPage(u) => u@ == "https://www.threads.net/post/"@ + c@,
                    _ => false,
                },
                FetchPost::Querying { code: ref c, id: ref i } => match a {
                    FetchAction::SendQuery(form) => form.deep_view() == spec_query_form(
                        "\"postID\":\""@ + i@ + "\""@,
                        "26262423843344977"@,
                        nonce@,
                    ),
                    _ => false,
                },
                FetchPost::Mapping { .. } => a is Advance,
                FetchPost::Partitioning { .. } => a is Advance,
                FetchPost::Done(_) => a is Stop,
                FetchPost::Failed(_) => a is Stop,
            },
    {
        match self {
            FetchPost::ResolvingId { code } => FetchAction::FetchPage(post_page_url(code.as_str())),
            FetchPost::Querying { code: _, id } => FetchAction::SendQuery(
                query_form(post_id_variables(id.as_str()).as_str(), post_thread_doc_id(), nonce),
            ),
            FetchPost::Mapping { .. } => FetchAction::Advance,
            FetchPost::Partitioning { .. } => FetchAction::Advance,
            FetchPost::Done(_) => FetchAction::Stop,
            FetchPost::Failed(_) => FetchAction::Stop,
        }
    }

    /// Feed the fetched page back in: the id scrape decides whether the
    /// query can be issued. A state not waiting on a page ignores the text.
    pub fn on_page(self, body: &str) -> (next: FetchPost)
        ensures
            match self {
                FetchPost::ResolvingId { code: c } => match spec_extract_post_id(body@) {
                    Ok(id) => match next {
                        FetchPost::Querying { code: c2, id: i2 } => c2@ == c@ && i2@ == id,
                        _ => false,
                    },
                    Err(e) => match next {
                        FetchPost::Failed(f) => f@ == e,
                        _ => false,
                    },
                },
                _ => next == self,
            },
    {
        match self {
            FetchPost::ResolvingId { code } => match extract_post_id(body) {
                Ok(id) => FetchPost::Querying { code, id },
                Err(e) => FetchPost::Failed(e),
            },
            other => other,
        }
    }

    /// Feed the query answer back in: the body must parse as JSON before
    /// anything can be mapped. A state not waiting on an answer ignores it.
    pub fn on_answer(self, body: &str) -> (next: FetchPost)
        ensures
            match self {
                FetchPost::Querying { code: c, id: i } => match json_parse(body@) {
                    Some(d) => match next {
                        FetchPost::Mapping { code: c2, id: i2, doc } => c2@ == c@ && i2@ == i@
                            && doc == d,
                        _ => false,
                    },
                    None => next == FetchPost::Failed(SpoolsError::InvalidResponse),
                },
                _ => next == self,
            },
    {
        match self {
            FetchPost::Querying { code, id } => match parse_document(body) {
                Ok(doc) => FetchPost::Mapping { code, id, doc },
                Err(e) => FetchPost::Failed(e),
            },
            other => other,
        }
    }

    /// Take the next internal step: map the document into thread items, or
    /// partition them and assemble the post. Other states are left alone.
    pub fn advance(self) -> (next: FetchPost)
        ensures
            match self {
                FetchPost::Mapping { code: c, id: i, doc } => match spec_thread_items(doc) {
                    Ok(its) => match next {
                        FetchPost::Partitioning { code: c2, id: i2, items } => c2@ == c@ && i2@
                            == i@ && items.deep_view() == its,
                        _ => false,
                    },
                    Err(e) => match next {
                        FetchPost::Failed(f) => f@ == e,
                        _ => false,
                    },
                },
                FetchPost::Partitioning { code: c, id: i, items } => match spec_partition(
                    items.deep_view(),
                    c@,
                ) {
                    Ok((parents, target, replies)) => match next {
                        FetchPost::Done(p) => p@ == (PostV {
                            id: i@,
                            author: target.author,
                            date: target.date,
                            body: target.body,
                            media: target.media,
                            likes: target.likes,
                            parents,
                            replies,
                        }),
                        _ => false,
                    },
                    Err(e) => match next {
                        FetchPost::Failed(f) => f@ == e,
                        _ => false,
                    },
                },
                _ => next == self,
            },
    {
        match self {
            FetchPost::Mapping { code, id, doc } => match thread_items(&doc) {
                Ok(items) => FetchPost::Partitioning { code, id, items },
                Err(e) => FetchPost::Failed(e),
            },
            FetchPost::Partitioning { code, id, items } => match partition(items, code.as_str()) {
                Ok((parents, target, replies)) => FetchPost::Done(
                    Post {
                        id,
                        author: target.author,
                        date: target.date,
                        body: target.body,
                        media: target.media,
                        likes: target.likes,
                        parents,
                        replies,
                    },
                ),
                Err(e) => FetchPost::Failed(e),
            },
            other => other,
        }
    }
}

} // verus!
