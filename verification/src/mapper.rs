//! The response mapper: walking JSON documents returned by the query engine
//! into typed `Subpost`, `Author` and `User` records.
use crate::error::{result_view, spec_deserialize_error, ErrorV, SpoolsError, Types};
use crate::json::{
    all_digits, digits_val, parse_u64, spec_bool_or, spec_clean, spec_clean_opt, spec_get,
    spec_get2, spec_get3, spec_u64_or, Json,
};
use crate::media::{spec_image_candidates, spec_media, Media, MediaV};
use crate::post::{Subpost, SubpostV};
use crate::user::{Author, AuthorV, User, UserV};
use vstd::prelude::*;

verus! {

/// Map `f` over `s`, stopping at the first rejected element.
pub open spec fn map_all<A, B>(s: Seq<A>, f: spec_fn(A) -> Result<B, ErrorV>) -> Result<
    Seq<B>,
    ErrorV,
>
    decreases s.len(),
{
    if s.len() == 0 {
        Ok(Seq::empty())
    } else {
        match map_all(s.drop_last(), f) {
            Err(e) => Err(e),
            Ok(pre) => match f(s.last()) {
                Err(e) => Err(e),
                Ok(b) => Ok(pre.push(b)),
            },
        }
    }
}

/// Map `f` over `s` and concatenate the pieces, stopping at the first
/// rejected element.
pub open spec fn flat_map_all<A, B>(s: Seq<A>, f: spec_fn(A) -> Result<Seq<B>, ErrorV>) -> Result<
    Seq<B>,
    ErrorV,
>
    decreases s.len(),
{
    if s.len() == 0 {
        Ok(Seq::empty())
    } else {
        match flat_map_all(s.drop_last(), f) {
            Err(e) => Err(e),
            Ok(pre) => match f(s.last()) {
                Err(e) => Err(e),
                Ok(b) => Ok(pre + b),
            },
        }
    }
}

/// When every element before `i` maps cleanly and `s[i]` is rejected, the
/// whole map is rejected with `s[i]`'s error.
pub proof fn lemma_map_all_err<A, B>(s: Seq<A>, f: spec_fn(A) -> Result<B, ErrorV>, i: int)
    requires
        0 <= i < s.len(),
        map_all(s.take(i), f) is Ok,
        f(s[i]) is Err,
    ensures
        map_all(s, f) == Err::<Seq<B>, ErrorV>(f(s[i])->Err_0),
    decreases s.len(),
{
    if i == s.len() - 1 {
        assert(s.drop_last() =~= s.take(i));
    } else {
        assert(s.drop_last().take(i) =~= s.take(i));
        assert(s.drop_last()[i] == s[i]);
        lemma_map_all_err(s.drop_last(), f, i);
    }
}

/// The `flat_map_all` counterpart of `lemma_map_all_err`.
pub proof fn lemma_flat_map_all_err<A, B>(
    s: Seq<A>,
    f: spec_fn(A) -> Result<Seq<B>, ErrorV>,
    i: int,
)
    requires
        0 <= i < s.len(),
        flat_map_all(s.take(i), f) is Ok,
        f(s[i]) is Err,
    ensures
        flat_map_all(s, f) == Err::<Seq<B>, ErrorV>(f(s[i])->Err_0),
    decreases s.len(),
{
    if i == s.len() - 1 {
        assert(s.drop_last() =~= s.take(i));
    } else {
        assert(s.drop_last().take(i) =~= s.take(i));
        assert(s.drop_last()[i] == s[i]);
        lemma_flat_map_all_err(s.drop_last(), f, i);
    }
}

/// The author fields nested under a post node. Absent or mistyped fields
/// fall back to their defaults: empty strings, unverified.
pub open spec fn spec_author(post: Json) -> AuthorV {
    AuthorV {
        username: spec_clean_opt(spec_get2(post, "user"@, "username"@)),
        pfp: spec_clean_opt(spec_get2(post, "user"@, "profile_pic_url"@)),
        verified: spec_bool_or(spec_get2(post, "user"@, "is_verified"@), false),
    }
}

/// The post body: the caption text when present, the empty string when the
/// caption or its text is absent, and a rejection when the text is present
/// but no string.
pub open spec fn spec_body(post: Json) -> Result<Seq<char>, ErrorV> {
    match spec_get2(post, "caption"@, "text"@) {
        None => Ok(Seq::empty()),
        Some(Json::Str(s)) => Ok(s@),
        Some(_) => Err(ErrorV::InvalidResponse),
    }
}

/// The media carried by a post node: every carousel sibling when the node
/// is a carousel, the node's own single media when it has a non-empty
/// image-candidate array, and nothing otherwise.
pub open spec fn spec_subpost_media(post: Json) -> Result<Seq<MediaV>, ErrorV> {
    match spec_get(post, "carousel_media"@) {
        Some(Json::Arr(nodes)) => map_all(nodes@, |n: Json| spec_media(n)),
        _ => match spec_image_candidates(post) {
            Some(cands) => if cands.len() > 0 {
                match spec_media(post) {
                    Err(e) => Err(e),
                    Ok(m) => Ok(seq![m]),
                }
            } else {
                Ok(Seq::empty())
            },
            None => Ok(Seq::empty()),
        },
    }
}

/// What decoding one thread item into a `Subpost` yields: the item must
/// carry a `post` node with a string `code` and a numeric timestamp; body
/// and media follow `spec_body` and `spec_subpost_media`; the like count
/// defaults to zero.
pub open spec fn spec_subpost(q: Json) -> Result<SubpostV, ErrorV> {
    match spec_get(q, "post"@) {
        None => Err(ErrorV::InvalidResponse),
        Some(post) => match spec_get(post, "code"@) {
            Some(Json::Str(code)) => match spec_get(post, "taken_at"@) {
                Some(Json::Num(date)) => match spec_body(post) {
                    Err(e) => Err(e),
                    Ok(body) => match spec_subpost_media(post) {
                        Err(e) => Err(e),
                        Ok(media) => Ok(
                            SubpostV {
                                code: code@,
                                author: spec_author(post),
                                date,
                                body,
                                media,
                                likes: spec_u64_or(spec_get(post, "like_count"@), 0),
                            },
                        ),
                    },
                },
                _ => Err(ErrorV::InvalidResponse),
            },
            _ => Err(ErrorV::InvalidResponse),
        },
    }
}

fn subpost_media(post: &Json) -> (r: Result<Vec<Media>, SpoolsError>)
    ensures
        match r {
            Ok(ms) => spec_subpost_media(*post) == Ok::<Seq<MediaV>, ErrorV>(ms.deep_view()),
            Err(e) => spec_subpost_media(*post) == Err::<Seq<MediaV>, ErrorV>(e@),
        },
{
    match post.get("carousel_media") {
        Some(Json::Arr(nodes)) => {
            let ghost f = |n: Json| spec_media(n);
            let n = nodes.len();
            let mut ms: Vec<Media> = Vec::new();
            let mut i: usize = 0;
            proof {
                assert(nodes@.take(0) =~= Seq::<Json>::empty());
                assert(ms.deep_view() =~= Seq::<MediaV>::empty());
            }
            while i < n
                invariant
                    n == nodes@.len(),
                    i <= n,
                    spec_subpost_media(*post) == map_all(nodes@, f),
                    f == (|n: Json| spec_media(n)),
                    map_all(nodes@.take(i as int), f) == Ok::<Seq<MediaV>, ErrorV>(ms.deep_view()),
                decreases n - i,
            {
                let ghost old_ms = ms.deep_view();
                proof {
                    assert(nodes@.take(i + 1).drop_last() =~= nodes@.take(i as int));
                    assert(nodes@.take(i + 1).last() == nodes@[i as int]);
                }
                match Media::from(&nodes[i]) {
                    Ok(m) => {
                        ms.push(m);
                        proof {
                            assert(ms.deep_view() =~= old_ms.push(m@));
                        }
                    },
                    Err(e) => {
                        proof {
                            lemma_map_all_err(nodes@, f, i as int);
                        }
                        return Err(e);
                    },
                }
                i += 1;
            }
            proof {
                assert(nodes@.take(n as int) =~= nodes@);
            }
            Ok(ms)
        },
        _ => {
            let single = match post.get2("image_versions2", "candidates") {
                Some(Json::Arr(cands)) => cands.len() > 0,
                _ => false,
            };
            if single {
                match Media::from(post) {
                    Ok(m) => {
                        let ms = vec![m];
                        proof {
                            assert(ms.deep_view() =~= seq![m@]);
                        }
                        Ok(ms)
                    },
                    Err(e) => Err(e),
                }
            } else {
                let ms: Vec<Media> = Vec::new();
                proof {
                    assert(ms.deep_view() =~= Seq::<MediaV>::empty());
                }
                Ok(ms)
            }
        },
    }
}

/// Decode one thread item into a `Subpost`, exactly as `spec_subpost`
/// describes.
pub fn build_subpost(query: &Json) -> (r: Result<Subpost, SpoolsError>)
    ensures
        result_view(r) == spec_subpost(*query),
{
    let post = match query.get("post") {
        Some(p) => p,
        None => return Err(SpoolsError::InvalidResponse),
    };
    let code = match post.get("code") {
        Some(Json::Str(s)) => s.clone(),
        _ => return Err(SpoolsError::InvalidResponse),
    };
    let date = match post.get("taken_at") {
        Some(Json::Num(n)) => *n,
        _ => return Err(SpoolsError::InvalidResponse),
    };
    let body = match post.get2("caption", "text") {
        None => String::new(),
        Some(Json::Str(s)) => s.clone(),
        Some(_) => return Err(SpoolsError::InvalidResponse),
    };
    let username = match post.get2("user", "username") {
        Some(v) => v.clean_string(),
        None => String::new(),
    };
    let pfp = match post.get2("user", "profile_pic_url") {
        Some(v) => v.clean_string(),
        None => String::new(),
    };
    let verified = match post.get2("user", "is_verified") {
        Some(Json::Bool(b)) => *b,
        _ => false,
    };
    let author = Author { username, pfp, verified };
    assert(author@ == spec_author(*post));
    let media = match subpost_media(post) {
        Ok(ms) => ms,
        Err(e) => return Err(e),
    };
    let likes = match post.get("like_count") {
        Some(Json::Num(n)) => *n,
        _ => 0,
    };
    Ok(Subpost { code, author, date, body, media, likes })
}

/// Decoding a thread item, as a function value for the list combinators.
pub open spec fn subpost_of() -> spec_fn(Json) -> Result<SubpostV, ErrorV> {
    |it: Json| spec_subpost(it)
}

/// The thread items listed under one edge node, when it carries any.
pub open spec fn spec_edge_items(node: Json) -> Seq<Json> {
    match spec_get2(node, "node"@, "thread_items"@) {
        Some(Json::Arr(items)) => items@,
        _ => Seq::empty(),
    }
}

/// Decoding every thread item under one edge node, as a function value.
pub open spec fn edge_posts_of() -> spec_fn(Json) -> Result<Seq<SubpostV>, ErrorV> {
    |node: Json| map_all(spec_edge_items(node), subpost_of())
}

/// The user node of a user-lookup response, when it is present and not
/// null.
pub open spec fn spec_user_parent(doc: Json) -> Option<Json> {
    match spec_get2(doc, "data"@, "xdt_user_by_username"@) {
        Some(Json::Null) => None,
        Some(p) => Some(p),
        None => None,
    }
}

/// The error a user-lookup response without a user node explains: the
/// upstream-reported one when there is an `errors` array, else the user was
/// simply not found.
pub open spec fn spec_user_error(doc: Json) -> ErrorV {
    if spec_deserialize_error(doc) is InvalidResponse {
        ErrorV::NotFound(Types::User)
    } else {
        spec_deserialize_error(doc)
    }
}

/// The highest-quality profile-picture URL: the last entry of the version
/// array, empty when the array is absent or empty.
pub open spec fn spec_user_pfp(parent: Json) -> Seq<char> {
    match spec_get(parent, "hd_profile_pic_versions"@) {
        Some(Json::Arr(vs)) => if vs@.len() == 0 {
            Seq::empty()
        } else {
            spec_clean_opt(spec_get(vs@.last(), "url"@))
        },
        _ => Seq::empty(),
    }
}

/// The URL of one bio-link entry, as a function value.
pub open spec fn link_url_of() -> spec_fn(Json) -> Seq<char> {
    |l: Json| spec_clean_opt(spec_get(l, "url"@))
}

/// The bio-link URLs of a link-enrichment response, in order; empty when
/// the response carries none.
pub open spec fn spec_links(doc: Json) -> Seq<Seq<char>> {
    match spec_get3(doc, "data"@, "user"@, "bio_links"@) {
        Some(Json::Arr(ls)) => ls@.map_values(link_url_of()),
        _ => Seq::empty(),
    }
}

/// The posts of a post-enrichment response: every thread item under every
/// edge, in order; empty when the response carries no edges.
pub open spec fn spec_user_posts(doc: Json) -> Result<Seq<SubpostV>, ErrorV> {
    match spec_get3(doc, "data"@, "mediaData"@, "edges"@) {
        Some(Json::Arr(nodes)) => flat_map_all(nodes@, edge_posts_of()),
        _ => Ok(Seq::empty()),
    }
}

/// What mapping a user out of the three query responses yields: the
/// profile-lookup document must carry a user node whose `id` is a decimal
/// numeral that fits 64 bits; name, bio and picture default to empty, the
/// verified flag to false and the follower count to zero; links and posts
/// come from the two enrichment documents.
pub open spec fn spec_map_user(d1: Json, d2: Json, d3: Json) -> Result<UserV, ErrorV> {
    match spec_user_parent(d1) {
        None => Err(spec_user_error(d1)),
        Some(parent) => match spec_user_posts(d3) {
            Err(e) => Err(e),
            Ok(posts) => {
                let id_str = spec_clean_opt(spec_get(parent, "id"@));
                if id_str.len() > 0 && all_digits(id_str) && digits_val(id_str) <= u64::MAX {
                    Ok(
                        UserV {
                            id: digits_val(id_str) as u64,
                            name: spec_clean_opt(spec_get(parent, "full_name"@)),
                            pfp: spec_user_pfp(parent),
                            verified: spec_bool_or(spec_get(parent, "is_verified"@), false),
                            bio: spec_clean_opt(spec_get(parent, "biography"@)),
                            followers: spec_u64_or(spec_get(parent, "follower_count"@), 0),
                            links: spec_links(d2),
                            posts,
                        },
                    )
                } else {
                    Err(ErrorV::InvalidResponse)
                }
            },
        },
    }
}

fn user_parent<'a>(doc: &'a Json) -> (r: Option<&'a Json>)
    ensures
        match r {
            Some(p) => spec_user_parent(*doc) == Some(*p),
            None => spec_user_parent(*doc) is None,
        },
{
    match doc.get2("data", "xdt_user_by_username") {
        Some(Json::Null) => None,
        Some(p) => Some(p),
        None => None,
    }
}

fn user_lookup_error(doc: &Json) -> (r: SpoolsError)
    ensures
        r@ == spec_user_error(*doc),
{
    let e = SpoolsError::deserialize_error(doc);
    match e {
        SpoolsError::InvalidResponse => SpoolsError::NotFound(Types::User),
        _ => e,
    }
}

fn subposts_of_items(items: &Vec<Json>) -> (r: Result<Vec<Subpost>, SpoolsError>)
    ensures
        match r {
            Ok(v) => map_all(items@, subpost_of()) == Ok::<Seq<SubpostV>, ErrorV>(v.deep_view()),
            Err(e) => map_all(items@, subpost_of()) == Err::<Seq<SubpostV>, ErrorV>(e@),
        },
{
    let n = items.len();
    let mut out: Vec<Subpost> = Vec::new();
    let mut i: usize = 0;
    proof {
        assert(items@.take(0) =~= Seq::<Json>::empty());
        assert(out.deep_view() =~= Seq::<SubpostV>::empty());
    }
    while i < n
        invariant
            n == items@.len(),
            i <= n,
            map_all(items@.take(i as int), subpost_of()) == Ok::<Seq<SubpostV>, ErrorV>(
                out.deep_view(),
            ),
        decreases n - i,
    {
        let ghost old_out = out.deep_view();
        proof {
            assert(items@.take(i + 1).drop_last() =~= items@.take(i as int));
            assert(items@.take(i + 1).last() == items@[i as int]);
        }
        match build_subpost(&items[i]) {
            Ok(s) => {
                out.push(s);
                proof {
                    assert(out.deep_view() =~= old_out.push(s@));
                }
            },
            Err(e) => {
                proof {
                    lemma_map_all_err(items@, subpost_of(), i as int);
                }
                return Err(e);
            },
        }
        i += 1;
    }
    proof {
        assert(items@.take(n as int) =~= items@);
    }
    Ok(out)
}

fn edge_posts(node: &Json) -> (r: Result<Vec<Subpost>, SpoolsError>)
    ensures
        match r {
            Ok(v) => edge_posts_of()(*node) == Ok::<Seq<SubpostV>, ErrorV>(v.deep_view()),
            Err(e) => edge_posts_of()(*node) == Err::<Seq<SubpostV>, ErrorV>(e@),
        },
{
    match node.get2("node", "thread_items") {
        Some(Json::Arr(items)) => subposts_of_items(items),
        _ => {
            let out: Vec<Subpost> = Vec::new();
            proof {
                assert(out.deep_view() =~= Seq::<SubpostV>::empty());
            }
            Ok(out)
        },
    }
}

fn user_posts(doc: &Json) -> (r: Result<Vec<Subpost>, SpoolsError>)
    ensures
        match r {
            Ok(v) => spec_user_posts(*doc) == Ok::<Seq<SubpostV>, ErrorV>(v.deep_view()),
            Err(e) => spec_user_posts(*doc) == Err::<Seq<SubpostV>, ErrorV>(e@),
        },
{
    match doc.get3("data", "mediaData", "edges") {
        Some(Json::Arr(nodes)) => {
            let n = nodes.len();
            let mut out: Vec<Subpost> = Vec::new();
            let mut i: usize = 0;
            proof {
                assert(nodes@.take(0) =~= Seq::<Json>::empty());
                assert(out.deep_view() =~= Seq::<SubpostV>::empty());
            }
            while i < n
                invariant
                    n == nodes@.len(),
                    i <= n,
                    spec_user_posts(*doc) == flat_map_all(nodes@, edge_posts_of()),
                    flat_map_all(nodes@.take(i as int), edge_posts_of()) == Ok::<
                        Seq<SubpostV>,
                        ErrorV,
                    >(out.deep_view()),
                decreases n - i,
            {
                let ghost old_out = out.deep_view();
                proof {
                    assert(nodes@.take(i + 1).drop_last() =~= nodes@.take(i as int));
                    assert(nodes@.take(i + 1).last() == nodes@[i as int]);
                }
                match edge_posts(&nodes[i]) {
                    Ok(mut chunk) => {
                        let ghost chunk_view = chunk.deep_view();
                        out.append(&mut chunk);
                        proof {
                            assert(out.deep_view() =~= old_out + chunk_view);
                        }
                    },
                    Err(e) => {
                        proof {
                            lemma_flat_map_all_err(nodes@, edge_posts_of(), i as int);
                        }
                        return Err(e);
                    },
                }
                i += 1;
            }
            proof {
                assert(nodes@.take(n as int) =~= nodes@);
            }
            Ok(out)
        },
        _ => {
            let out: Vec<Subpost> = Vec::new();
            proof {
                assert(out.deep_view() =~= Seq::<SubpostV>::empty());
            }
            Ok(out)
        },
    }
}

fn bio_links(doc: &Json) -> (r: Vec<String>)
    ensures
        r.deep_view() == spec_links(*doc),
{
    match doc.get3("data", "user", "bio_links") {
        Some(Json::Arr(ls)) => {
            let n = ls.len();
            let mut out: Vec<String> = Vec::new();
            let mut i: usize = 0;
            proof {
                assert(ls@.take(0) =~= Seq::<Json>::empty());
                assert(out.deep_view() =~= ls@.take(0).map_values(link_url_of()));
            }
            while i < n
                invariant
                    n == ls@.len(),
                    i <= n,
                    out.deep_view() == ls@.take(i as int).map_values(link_url_of()),
                decreases n - i,
            {
                let ghost old_out = out.deep_view();
                let url = match ls[i].get("url") {
                    Some(v) => v.clean_string(),
                    None => String::new(),
                };
                assert(url@ == link_url_of()(ls@[i as int]));
                out.push(url);
                proof {
                    assert(out.deep_view() =~= old_out.push(url@));
                    assert(ls@.take(i + 1).map_values(link_url_of()) =~= ls@.take(
                        i as int,
                    ).map_values(link_url_of()).push(link_url_of()(ls@[i as int])));
                }
                i += 1;
            }
            proof {
                assert(ls@.take(n as int) =~= ls@);
            }
            out
        },
        _ => {
            let out: Vec<String> = Vec::new();
            proof {
                assert(out.deep_view() =~= Seq::<Seq<char>>::empty());
            }
            out
        },
    }
}

/// The target user's numeric id, exactly as the lookup response spells it
/// (a decimal string): what the two enrichment queries are keyed by. When
/// the response holds no user node, the error it explains instead.
pub fn user_id(doc: &Json) -> (r: Result<String, SpoolsError>)
    ensures
        match r {
            Ok(s) => spec_user_parent(*doc) is Some && s@ == spec_clean_opt(
                spec_get(spec_user_parent(*doc)->0, "id"@),
            ),
            Err(e) => spec_user_parent(*doc) is None && e@ == spec_user_error(*doc),
        },
{
    match user_parent(doc) {
        Some(parent) => match parent.get("id") {
            Some(v) => Ok(v.clean_string()),
            None => Ok(String::new()),
        },
        None => Err(user_lookup_error(doc)),
    }
}

/// Map the three user-query responses — profile lookup, bio-link
/// enrichment, post enrichment — into a `User`, exactly as `spec_map_user`
/// describes.
pub fn map_user(profile_doc: &Json, links_doc: &Json, posts_doc: &Json) -> (r: Result<
    User,
    SpoolsError,
>)
    ensures
        result_view(r) == spec_map_user(*profile_doc, *links_doc, *posts_doc),
{
    let parent = match user_parent(profile_doc) {
        Some(p) => p,
        None => return Err(user_lookup_error(profile_doc)),
    };
    let posts = match user_posts(posts_doc) {
        Ok(p) => p,
        Err(e) => return Err(e),
    };
    let id_str = match parent.get("id") {
        Some(v) => v.clean_string(),
        None => String::new(),
    };
    let id = match parse_u64(id_str.as_str()) {
        Some(v) => v,
        None => return Err(SpoolsError::InvalidResponse),
    };
    let name = match parent.get("full_name") {
        Some(v) => v.clean_string(),
        None => String::new(),
    };
    let bio = match parent.get("biography") {
        Some(v) => v.clean_string(),
        None => String::new(),
    };
    let pfp = match parent.get("hd_profile_pic_versions") {
        Some(Json::Arr(vs)) => {
            if vs.len() == 0 {
                String::new()
            } else {
                match vs[vs.len() - 1].get("url") {
                    Some(u) => u.clean_string(),
                    None => String::new(),
                }
            }
        },
        _ => String::new(),
    };
    let verified = match parent.get("is_verified") {
        Some(Json::Bool(b)) => *b,
        _ => false,
    };
    let followers = match parent.get("follower_count") {
        Some(Json::Num(n)) => *n,
        _ => 0,
    };
    let links = bio_links(links_doc);
    Ok(User { id, name, pfp, verified, bio, followers, links, posts })
}

/// The "replying to" username annotation a thread item carries, empty when
/// it carries none.
pub open spec fn spec_reply_to(item: Json) -> Seq<char> {
    match spec_get2(item, "post"@, "text_post_app_info"@) {
        Some(info) => spec_clean_opt(spec_get2(info, "reply_to_author"@, "username"@)),
        None => Seq::empty(),
    }
}

/// Decoding one thread item together with its reply-to annotation, as a
/// function value.
pub open spec fn thread_item_of() -> spec_fn(Json) -> Result<(SubpostV, Seq<char>), ErrorV> {
    |it: Json|
        match spec_subpost(it) {
            Err(e) => Err(e),
            Ok(s) => Ok((s, spec_reply_to(it))),
        }
}

/// Decoding every annotated thread item under one edge node, as a function
/// value.
pub open spec fn edge_thread_items_of() -> spec_fn(Json) -> Result<
    Seq<(SubpostV, Seq<char>)>,
    ErrorV,
> {
    |node: Json| map_all(spec_edge_items(node), thread_item_of())
}

/// The flat, ordered thread-item list of a post-thread response, each item
/// paired with its reply-to annotation; a response without the edge array
/// explains its own error.
pub open spec fn spec_thread_items(doc: Json) -> Result<Seq<(SubpostV, Seq<char>)>, ErrorV> {
    match spec_get3(doc, "data"@, "data"@, "edges"@) {
        Some(Json::Arr(nodes)) => flat_map_all(nodes@, edge_thread_items_of()),
        _ => Err(spec_deserialize_error(doc)),
    }
}

fn reply_to(item: &Json) -> (r: String)
    ensures
        r@ == spec_reply_to(*item),
{
    match item.get2("post", "text_post_app_info") {
        Some(info) => match info.get2("reply_to_author", "username") {
            Some(v) => v.clean_string(),
            None => String::new(),
        },
        None => String::new(),
    }
}

fn thread_items_of_list(items: &Vec<Json>) -> (r: Result<Vec<(Subpost, String)>, SpoolsError>)
    ensures
        match r {
            Ok(v) => map_all(items@, thread_item_of()) == Ok::<Seq<(SubpostV, Seq<char>)>, ErrorV>(
                v.deep_view(),
            ),
            Err(e) => map_all(items@, thread_item_of()) == Err::<
                Seq<(SubpostV, Seq<char>)>,
                ErrorV,
            >(e@),
        },
{
    let n = items.len();
    let mut out: Vec<(Subpost, String)> = Vec::new();
    let mut i: usize = 0;
    proof {
        assert(items@.take(0) =~= Seq::<Json>::empty());
        assert(out.deep_view() =~= Seq::<(SubpostV, Seq<char>)>::empty());
    }
    while i < n
        invariant
            n == items@.len(),
            i <= n,
            map_all(items@.take(i as int), thread_item_of()) == Ok::<
                Seq<(SubpostV, Seq<char>)>,
                ErrorV,
            >(out.deep_view()),
        decreases n - i,
    {
        let ghost old_out = out.deep_view();
        proof {
            assert(items@.take(i + 1).drop_last() =~= items@.take(i as int));
            assert(items@.take(i + 1).last() == items@[i as int]);
        }
        match build_subpost(&items[i]) {
            Ok(s) => {
                let rel = reply_to(&items[i]);
                let ghost pair_view = (s@, rel@);
                out.push((s, rel));
                proof {
                    assert(out.deep_view() =~= old_out.push(pair_view));
                }
            },
            Err(e) => {
                proof {
                    lemma_map_all_err(items@, thread_item_of(), i as int);
                }
                return Err(e);
            },
        }
        i += 1;
    }
    proof {
        assert(items@.take(n as int) =~= items@);
    }
    Ok(out)
}

fn edge_thread_items(node: &Json) -> (r: Result<Vec<(Subpost, String)>, SpoolsError>)
    ensures
        match r {
            Ok(v) => edge_thread_items_of()(*node) == Ok::<Seq<(SubpostV, Seq<char>)>, ErrorV>(
                v.deep_view(),
            ),
            Err(e) => edge_thread_items_of()(*node) == Err::<Seq<(SubpostV, Seq<char>)>, ErrorV>(
                e@,
            ),
        },
{
    match node.get2("node", "thread_items") {
        Some(Json::Arr(items)) => thread_items_of_list(items),
        _ => {
            let out: Vec<(Subpost, String)> = Vec::new();
            proof {
                assert(out.deep_view() =~= Seq::<(SubpostV, Seq<char>)>::empty());
            }
            Ok(out)
        },
    }
}

/// The flat, ordered thread-item list of a post-thread response, each item
/// paired with its reply-to annotation, exactly as `spec_thread_items`
/// describes.
pub fn thread_items(doc: &Json) -> (r: Result<Vec<(Subpost, String)>, SpoolsError>)
    ensures
        match r {
            Ok(v) => spec_thread_items(*doc) == Ok::<Seq<(SubpostV, Seq<char>)>, ErrorV>(
                v.deep_view(),
            ),
            Err(e) => spec_thread_items(*doc) == Err::<Seq<(SubpostV, Seq<char>)>, ErrorV>(e@),
        },
{
    match doc.get3("data", "data", "edges") {
        Some(Json::Arr(nodes)) => {
            let n = nodes.len();
            let mut out: Vec<(Subpost, String)> = Vec::new();
            let mut i: usize = 0;
            proof {
                assert(nodes@.take(0) =~= Seq::<Json>::empty());
                assert(out.deep_view() =~= Seq::<(SubpostV, Seq<char>)>::empty());
            }
            while i < n
                invariant
                    n == nodes@.len(),
                    i <= n,
                    spec_thread_items(*doc) == flat_map_all(nodes@, edge_thread_items_of()),
                    flat_map_all(nodes@.take(i as int), edge_thread_items_of()) == Ok::<
                        Seq<(SubpostV, Seq<char>)>,
                        ErrorV,
                    >(out.deep_view()),
                decreases n - i,
            {
                let ghost old_out = out.deep_view();
                proof {
                    assert(nodes@.take(i + 1).drop_last() =~= nodes@.take(i as int));
                    assert(nodes@.take(i + 1).last() == nodes@[i as int]);
                }
                match edge_thread_items(&nodes[i]) {
                    Ok(mut chunk) => {
                        let ghost chunk_view = chunk.deep_view();
                        out.append(&mut chunk);
                        proof {
                            assert(out.deep_view() =~= old_out + chunk_view);
                        }
                    },
                    Err(e) => {
                        proof {
                            lemma_flat_map_all_err(nodes@, edge_thread_items_of(), i as int);
                        }
                        return Err(e);
                    },
                }
                i += 1;
            }
            proof {
                assert(nodes@.take(n as int) =~= nodes@);
            }
            Ok(out)
        },
        _ => Err(SpoolsError::deserialize_error(doc)),
    }
}

} // verus!
