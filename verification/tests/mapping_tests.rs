//! Mapping tests: media resolution and the subpost/user mappers, on fixture
//! documents built by hand — no live network.
use spools::mapper::{build_subpost, map_user, user_id};
use spools::{Json, Media, MediaKind, SpoolsError, Types};

fn s(x: &str) -> Json {
    Json::Str(x.to_string())
}

fn obj(pairs: Vec<(&str, Json)>) -> Json {
    Json::Obj(pairs.into_iter().map(|(k, v)| (k.to_string(), v)).collect())
}

fn candidate(url: &str, w: u64, h: u64) -> Json {
    obj(vec![("url", s(url)), ("width", Json::Num(w)), ("height", Json::Num(h))])
}

fn image_node(cands: Vec<Json>) -> Json {
    obj(vec![("image_versions2", obj(vec![("candidates", Json::Arr(cands))]))])
}

#[test]
fn image_single_candidate_has_no_thumbnail() {
    let node = image_node(vec![candidate("https://img/a", 640, 640)]);
    let m = Media::from(&node).unwrap();
    assert!(matches!(m.kind, MediaKind::Image));
    assert_eq!(m.content, "https://img/a");
    assert_eq!(m.thumbnail, None);
    assert_eq!(m.alt, None);
}

#[test]
fn image_multi_resolution_thumbnail_from_same_candidates() {
    // three candidates share the rounded ratio 10; bucket index 3/3 = 1
    let node = image_node(vec![
        candidate("https://img/full", 1000, 1000),
        candidate("https://img/mid", 500, 500),
        candidate("https://img/small", 100, 100),
    ]);
    let m = Media::from(&node).unwrap();
    assert!(matches!(m.kind, MediaKind::Image));
    assert_eq!(m.content, "https://img/full");
    assert_eq!(m.thumbnail, Some("https://img/mid".to_string()));
}

#[test]
fn image_ratio_bucket_excludes_other_ratios() {
    // 200x100 rounds to 20, not 10: it is no thumbnail candidate
    let node = image_node(vec![
        candidate("https://img/a", 100, 100),
        candidate("https://img/wide", 200, 100),
        candidate("https://img/b", 300, 300),
    ]);
    let m = Media::from(&node).unwrap();
    // bucket is [a, b], index 2/3 = 0
    assert_eq!(m.thumbnail, Some("https://img/a".to_string()));
}

#[test]
fn video_node_gets_poster_thumbnail() {
    let mut pairs = vec![
        ("image_versions2", obj(vec![("candidates", Json::Arr(vec![candidate(
            "https://img/poster",
            640,
            360,
        )]))])),
        ("video_versions", Json::Arr(vec![obj(vec![("url", s("https://vid/main"))])])),
    ];
    pairs.push(("accessibility_caption", s("a demo clip")));
    let node = obj(pairs);
    let m = Media::from(&node).unwrap();
    assert!(matches!(m.kind, MediaKind::Video));
    assert_eq!(m.content, "https://vid/main");
    assert_eq!(m.thumbnail, Some("https://img/poster".to_string()));
    assert_eq!(m.alt, Some("a demo clip".to_string()));
}

#[test]
fn media_rejects_malformed_nodes() {
    // no candidates at all
    assert_eq!(Media::from(&obj(vec![])), Err(SpoolsError::InvalidResponse));
    // empty candidate array
    assert_eq!(Media::from(&image_node(vec![])), Err(SpoolsError::InvalidResponse));
    // candidate without a url
    let bad = image_node(vec![obj(vec![("width", Json::Num(10)), ("height", Json::Num(10))])]);
    assert_eq!(Media::from(&bad), Err(SpoolsError::InvalidResponse));
    // zero height cannot set a ratio bucket
    let flat = image_node(vec![candidate("https://img/a", 10, 0)]);
    assert_eq!(Media::from(&flat), Err(SpoolsError::InvalidResponse));
    // a video array that is present but empty
    let novid = obj(vec![
        ("image_versions2", obj(vec![("candidates", Json::Arr(vec![candidate(
            "https://img/a",
            10,
            10,
        )]))])),
        ("video_versions", Json::Arr(vec![])),
    ]);
    assert_eq!(Media::from(&novid), Err(SpoolsError::InvalidResponse));
}

fn post_node(code: &str, username: &str, caption: Option<Json>) -> Json {
    let mut inner = vec![
        ("code", s(code)),
        (
            "user",
            obj(vec![
                ("username", s(username)),
                ("profile_pic_url", s("https://pfp/u")),
                ("is_verified", Json::Bool(true)),
            ]),
        ),
        ("taken_at", Json::Num(1700000000)),
        ("like_count", Json::Num(42)),
    ];
    if let Some(c) = caption {
        inner.push(("caption", c));
    }
    obj(vec![("post", obj(inner))])
}

#[test]
fn subpost_maps_every_field() {
    let item = post_node("AbC123", "zuck", Some(obj(vec![("text", s("hello world"))])));
    let sp = build_subpost(&item).unwrap();
    assert_eq!(sp.code, "AbC123");
    assert_eq!(sp.author.username, "zuck");
    assert_eq!(sp.author.pfp, "https://pfp/u");
    assert!(sp.author.verified);
    assert_eq!(sp.date, 1700000000);
    assert_eq!(sp.body, "hello world");
    assert_eq!(sp.media, vec![]);
    assert_eq!(sp.likes, 42);
}

#[test]
fn subpost_body_empty_when_caption_absent() {
    let item = post_node("AbC123", "zuck", None);
    let sp = build_subpost(&item).unwrap();
    assert_eq!(sp.body, "");
}

#[test]
fn subpost_rejects_caption_text_of_wrong_type() {
    let item = post_node("AbC123", "zuck", Some(obj(vec![("text", Json::Num(3))])));
    assert_eq!(build_subpost(&item), Err(SpoolsError::InvalidResponse));
}

#[test]
fn subpost_requires_post_node() {
    let item = obj(vec![("other", Json::Null)]);
    assert_eq!(build_subpost(&item), Err(SpoolsError::InvalidResponse));
}

#[test]
fn subpost_maps_carousel_media_in_order() {
    let car = Json::Arr(vec![
        image_node(vec![candidate("https://img/1", 10, 10)]),
        image_node(vec![candidate("https://img/2", 10, 10)]),
        image_node(vec![candidate("https://img/3", 10, 10)]),
    ]);
    let item = obj(vec![("post", obj(vec![
        ("code", s("Car")),
        ("taken_at", Json::Num(5)),
        ("carousel_media", car),
    ]))]);
    let sp = build_subpost(&item).unwrap();
    assert_eq!(sp.media.len(), 3);
    for (i, url) in ["https://img/1", "https://img/2", "https://img/3"].iter().enumerate() {
        assert!(matches!(sp.media[i].kind, MediaKind::Image));
        assert_eq!(sp.media[i].content, *url);
        assert_eq!(sp.media[i].thumbnail, None);
    }
}

fn user_lookup_doc(parent: Json) -> Json {
    obj(vec![("data", obj(vec![("xdt_user_by_username", parent)]))])
}

#[test]
fn missing_user_node_is_not_found() {
    let d = user_lookup_doc(Json::Null);
    let empty = obj(vec![]);
    assert_eq!(user_id(&d), Err(SpoolsError::NotFound(Types::User)));
    assert_eq!(map_user(&d, &empty, &empty), Err(SpoolsError::NotFound(Types::User)));
}

#[test]
fn upstream_errors_array_becomes_response_error() {
    let d = obj(vec![
        ("data", obj(vec![("xdt_user_by_username", Json::Null)])),
        ("errors", Json::Arr(vec![obj(vec![("summary", s("rate limited"))])])),
    ]);
    assert_eq!(user_id(&d), Err(SpoolsError::ResponseError("rate limited;".to_string())));
}

#[test]
fn error_summaries_join_with_description_fallback() {
    let d = obj(vec![("errors", Json::Arr(vec![
        obj(vec![("summary", s("first"))]),
        obj(vec![("description", s("second"))]),
        obj(vec![("neither", Json::Null)]),
    ]))]);
    assert_eq!(
        SpoolsError::deserialize_error(&d),
        SpoolsError::ResponseError("first;second;;".to_string())
    );
}

fn full_user_docs() -> (Json, Json, Json) {
    let parent = obj(vec![
        ("id", s("314216")),
        ("full_name", s("Mark")),
        ("biography", s("likes threads")),
        ("is_verified", Json::Bool(true)),
        ("follower_count", Json::Num(99)),
        ("hd_profile_pic_versions", Json::Arr(vec![
            obj(vec![("url", s("https://pfp/low"))]),
            obj(vec![("url", s("https://pfp/high"))]),
        ])),
    ]);
    let d1 = user_lookup_doc(parent);
    let d2 = obj(vec![("data", obj(vec![("user", obj(vec![("bio_links", Json::Arr(vec![
        obj(vec![("url", s("https://example.com"))]),
        obj(vec![("url", s("https://example.org"))]),
    ]))]))]))]);
    let edge = obj(vec![("node", obj(vec![("thread_items", Json::Arr(vec![post_node(
        "AbC123",
        "zuck",
        Some(obj(vec![("text", s("hi"))])),
    )]))]))]);
    let d3 = obj(vec![("data", obj(vec![("mediaData", obj(vec![("edges", Json::Arr(vec![
        edge,
    ]))]))]))]);
    (d1, d2, d3)
}

#[test]
fn user_maps_every_field() {
    let (d1, d2, d3) = full_user_docs();
    assert_eq!(user_id(&d1), Ok("314216".to_string()));
    let u = map_user(&d1, &d2, &d3).unwrap();
    assert_eq!(u.id, 314216);
    assert_eq!(u.name, "Mark");
    assert_eq!(u.bio, "likes threads");
    assert_eq!(u.pfp, "https://pfp/high");
    assert!(u.verified);
    assert_eq!(u.followers, 99);
    assert_eq!(u.links, vec!["https://example.com".to_string(), "https://example.org".to_string()]);
    assert_eq!(u.posts.len(), 1);
    assert_eq!(u.posts[0].code, "AbC123");
}

#[test]
fn user_with_unparseable_id_is_invalid() {
    let d1 = user_lookup_doc(obj(vec![("id", s("not-numeric"))]));
    let empty = obj(vec![]);
    assert_eq!(map_user(&d1, &empty, &empty), Err(SpoolsError::InvalidResponse));
}

#[test]
fn mapping_twice_yields_identical_records() {
    let (d1, d2, d3) = full_user_docs();
    let once = map_user(&d1, &d2, &d3);
    let twice = map_user(&d1, &d2, &d3);
    assert_eq!(once, twice);
    let item = post_node("AbC123", "zuck", None);
    assert_eq!(build_subpost(&item), build_subpost(&item));
    let node = image_node(vec![candidate("https://img/a", 10, 10)]);
    assert_eq!(Media::from(&node), Media::from(&node));
}
