//! Resolution of one media-bearing JSON node into a typed `Media` record:
//! image or video, primary content URL, optional alt text, and a thumbnail
//! chosen by the aspect-ratio heuristic.
use crate::error::{result_view, ErrorV, SpoolsError};
use crate::json::{spec_get, spec_get2, Json};
use vstd::prelude::*;

verus! {

/// Whether media is image or video.
#[derive(Debug, Clone, Copy, PartialEq, Eq, Structural)]
pub enum MediaKind {
    Image,
    Video,
}

/// Media location and metadata.
#[derive(Debug, Clone, PartialEq)]
pub struct Media {
    pub kind: MediaKind,
    /// Accessibility caption, copied verbatim when present.
    pub alt: Option<String>,
    /// Primary content URL: the first video variant for a video, the first
    /// (highest-quality) image candidate for an image.
    pub content: String,
    /// A still image for a video's poster frame, always present for videos;
    /// for an image, an alternate-resolution URL of the same image, present
    /// only when the candidate set offered more than one resolution.
    pub thumbnail: Option<String>,
}

/// The mathematical shadow of `Media`.
pub ghost struct MediaV {
    pub kind: MediaKind,
    pub alt: Option<Seq<char>>,
    pub content: Seq<char>,
    pub thumbnail: Option<Seq<char>>,
}

impl View for Media {
    type V = MediaV;

    open spec fn view(&self) -> MediaV {
        MediaV {
            kind: self.kind,
            alt: match self.alt {
                Some(s) => Some(s@),
                None => None,
            },
            content: self.content@,
            thumbnail: match self.thumbnail {
                Some(s) => Some(s@),
                None => None,
            },
        }
    }
}

impl DeepView for Media {
    type V = MediaV;

    open spec fn deep_view(&self) -> MediaV {
        self.view()
    }
}

/// The `url` string of a candidate or variant entry.
pub open spec fn spec_url(c: Json) -> Option<Seq<char>> {
    match spec_get(c, "url"@) {
        Some(Json::Str(s)) => Some(s@),
        _ => None,
    }
}

/// The `width` of a candidate entry.
pub open spec fn spec_width(c: Json) -> Option<u64> {
    match spec_get(c, "width"@) {
        Some(Json::Num(n)) => Some(n),
        _ => None,
    }
}

/// The `height` of a candidate entry.
pub open spec fn spec_height(c: Json) -> Option<u64> {
    match spec_get(c, "height"@) {
        Some(Json::Num(n)) => Some(n),
        _ => None,
    }
}

/// A usable image candidate: a URL and positive pixel dimensions.
pub open spec fn candidate_ok(c: Json) -> bool {
    &&& spec_url(c) is Some
    &&& spec_width(c) is Some
    &&& spec_height(c) is Some
    &&& spec_height(c)->0 > 0
}

/// The aspect ratio `w / h` scaled by ten and rounded to the nearest
/// integer (halves up): the bucket the thumbnail heuristic filters by.
pub open spec fn ratio10(w: u64, h: u64) -> int
    recommends
        h > 0,
{
    (20 * w + h) / (2 * h)
}

/// The rounded, scaled aspect ratio of a usable candidate.
pub open spec fn candidate_ratio(c: Json) -> int
    recommends
        candidate_ok(c),
{
    ratio10(spec_width(c)->0, spec_height(c)->0)
}

/// Whether every entry of the candidate array is usable.
pub open spec fn all_candidates_ok(cands: Seq<Json>) -> bool {
    forall|i: int| 0 <= i < cands.len() ==> candidate_ok(#[trigger] cands[i])
}

/// The URLs of the candidates whose rounded ratio equals `r0`, in order.
pub open spec fn matching_urls(cands: Seq<Json>, r0: int) -> Seq<Seq<char>>
    decreases cands.len(),
{
    if cands.len() == 0 {
        Seq::empty()
    } else {
        matching_urls(cands.drop_last(), r0) + if candidate_ok(cands.last()) && candidate_ratio(
            cands.last(),
        ) == r0 {
            seq![spec_url(cands.last())->0]
        } else {
            Seq::empty()
        }
    }
}

/// The node's image-candidate array, when it has one.
pub open spec fn spec_image_candidates(node: Json) -> Option<Seq<Json>> {
    match spec_get2(node, "image_versions2"@, "candidates"@) {
        Some(Json::Arr(v)) => Some(v@),
        _ => None,
    }
}

/// The node's video-variant array, when it has one.
pub open spec fn spec_video_versions(node: Json) -> Option<Seq<Json>> {
    match spec_get(node, "video_versions"@) {
        Some(Json::Arr(v)) => Some(v@),
        _ => None,
    }
}

/// The node's accessibility caption, when it is a string.
pub open spec fn spec_alt(node: Json) -> Option<Seq<char>> {
    match spec_get(node, "accessibility_caption"@) {
        Some(Json::Str(s)) => Some(s@),
        _ => None,
    }
}

/// What resolving one media node yields.
///
/// A node must offer a non-empty array of usable image candidates; the
/// first (highest-quality) candidate sets the aspect-ratio bucket, and the
/// thumbnail is the bucket's entry at a third of its length — a deliberate
/// "medium resolution" heuristic. A node with a non-empty video-variant
/// array is a video whose content is the first variant's URL and whose
/// thumbnail (the poster frame) is always present; any other node is an
/// image whose content is the first candidate's URL and whose thumbnail is
/// present only when the bucket offered an alternative.
pub open spec fn spec_media(node: Json) -> Result<MediaV, ErrorV> {
    match spec_image_candidates(node) {
        None => Err(ErrorV::InvalidResponse),
        Some(cands) => {
            if cands.len() == 0 || !all_candidates_ok(cands) {
                Err(ErrorV::InvalidResponse)
            } else {
                let r0 = candidate_ratio(cands[0]);
                let bucket = matching_urls(cands, r0);
                let thumb = bucket[bucket.len() as int / 3];
                let alt = spec_alt(node);
                match spec_video_versions(node) {
                    Some(vids) => {
                        if vids.len() == 0 {
                            Err(ErrorV::InvalidResponse)
                        } else {
                            match spec_url(vids[0]) {
                                None => Err(ErrorV::InvalidResponse),
                                Some(vu) => Ok(
                                    MediaV {
                                        kind: MediaKind::Video,
                                        alt,
                                        content: vu,
                                        thumbnail: Some(thumb),
                                    },
                                ),
                            }
                        }
                    },
                    None => Ok(
                        MediaV {
                            kind: MediaKind::Image,
                            alt,
                            content: spec_url(cands[0])->0,
                            thumbnail: if bucket.len() >= 2 {
                                Some(thumb)
                            } else {
                                None
                            },
                        },
                    ),
                }
            }
        },
    }
}

/// A bucket that some usable candidate falls into is not empty.
proof fn lemma_matching_urls_nonempty(cands: Seq<Json>, r0: int, i: int)
    requires
        0 <= i < cands.len(),
        candidate_ok(cands[i]),
        candidate_ratio(cands[i]) == r0,
    ensures
        matching_urls(cands, r0).len() >= 1,
    decreases cands.len(),
{
    if i == cands.len() - 1 {
    } else {
        assert(cands.drop_last()[i] == cands[i]);
        lemma_matching_urls_nonempty(cands.drop_last(), r0, i);
    }
}

/// Every URL in a bucket is the URL of one of the candidates.
proof fn lemma_matching_urls_member(cands: Seq<Json>, r0: int, k: int)
    requires
        0 <= k < matching_urls(cands, r0).len(),
    ensures
        exists|i: int|
            0 <= i < cands.len() && spec_url(#[trigger] cands[i]) == Some(
                matching_urls(cands, r0)[k],
            ),
    decreases cands.len(),
{
    let pre = matching_urls(cands.drop_last(), r0);
    if k < pre.len() {
        lemma_matching_urls_member(cands.drop_last(), r0, k);
        let i = choose|i: int|
            0 <= i < cands.drop_last().len() && spec_url(#[trigger] cands.drop_last()[i]) == Some(
                pre[k],
            );
        assert(cands.drop_last()[i] == cands[i]);
        assert(spec_url(cands[i]) == Some(matching_urls(cands, r0)[k]));
    } else {
        let i = cands.len() - 1;
        assert(spec_url(cands[i]) == Some(matching_urls(cands, r0)[k]));
    }
}

fn ratio10_exec(w: u64, h: u64) -> (r: u128)
    requires
        h > 0,
    ensures
        r as int == ratio10(w, h),
{
    ((20 as u128) * (w as u128) + (h as u128)) / ((2 as u128) * (h as u128))
}

fn candidate_fields(c: &Json) -> (r: Option<(String, u64, u64)>)
    ensures
        match r {
            Some(t) => candidate_ok(*c) && t.0@ == spec_url(*c)->0 && t.1 == spec_width(*c)->0
                && t.2 == spec_height(*c)->0,
            None => !candidate_ok(*c),
        },
{
    let url = match c.get("url") {
        Some(Json::Str(s)) => s.clone(),
        _ => return None,
    };
    let w = match c.get("width") {
        Some(Json::Num(n)) => *n,
        _ => return None,
    };
    let h = match c.get("height") {
        Some(Json::Num(n)) => *n,
        _ => return None,
    };
    if h == 0 {
        return None;
    }
    Some((url, w, h))
}

impl Media {
    /// Resolve one media-bearing node, exactly as `spec_media` describes.
    pub fn from(object: &Json) -> (r: Result<Media, SpoolsError>)
        ensures
            result_view(r) == spec_media(*object),
    {
        let cands: &Vec<Json> = match object.get2("image_versions2", "candidates") {
            Some(Json::Arr(c)) => c,
            _ => return Err(SpoolsError::InvalidResponse),
        };
        let n = cands.len();
        if n == 0 {
            return Err(SpoolsError::InvalidResponse);
        }
        let mut infos: Vec<(String, u64, u64)> = Vec::new();
        let mut i: usize = 0;
        while i < n
            invariant
                n == cands@.len(),
                n > 0,
                spec_image_candidates(*object) == Some(cands@),
                i <= n,
                infos@.len() == i,
                forall|j: int|
                    0 <= j < i ==> candidate_ok(#[trigger] cands@[j]) && infos@[j].0@ == spec_url(
                        cands@[j],
                    )->0 && infos@[j].1 == spec_width(cands@[j])->0 && infos@[j].2 == spec_height(
                        cands@[j],
                    )->0,
            decreases n - i,
        {
            match candidate_fields(&cands[i]) {
                Some(t) => infos.push(t),
                None => {
                    assert(!candidate_ok(cands@[i as int]));
                    return Err(SpoolsError::InvalidResponse);
                },
            }
            i += 1;
        }
        assert(all_candidates_ok(cands@));
        let ghost r0_spec = candidate_ratio(cands@[0]);
        let w0 = infos[0].1;
        let h0 = infos[0].2;
        let r0 = ratio10_exec(w0, h0);
        let mut bucket: Vec<String> = Vec::new();
        let mut j: usize = 0;
        proof {
            assert(cands@.take(0) =~= Seq::<Json>::empty());
            assert(bucket@.map_values(|s: String| s@) =~= matching_urls(cands@.take(0), r0_spec));
        }
        while j < n
            invariant
                n == cands@.len(),
                j <= n,
                infos@.len() == n,
                all_candidates_ok(cands@),
                r0 as int == r0_spec,
                forall|k: int|
                    0 <= k < n ==> candidate_ok(#[trigger] cands@[k]) && infos@[k].0@ == spec_url(
                        cands@[k],
                    )->0 && infos@[k].1 == spec_width(cands@[k])->0 && infos@[k].2 == spec_height(
                        cands@[k],
                    )->0,
                bucket@.map_values(|s: String| s@) == matching_urls(
                    cands@.take(j as int),
                    r0_spec,
                ),
            decreases n - j,
        {
            let rj = ratio10_exec(infos[j].1, infos[j].2);
            proof {
                assert(cands@.take(j + 1).drop_last() =~= cands@.take(j as int));
                assert(cands@.take(j + 1).last() == cands@[j as int]);
            }
            let ghost old_bucket = bucket@;
            if rj == r0 {
                bucket.push(infos[j].0.clone());
                proof {
                    assert(bucket@.map_values(|s: String| s@) =~= old_bucket.map_values(
                        |s: String| s@,
                    ) + seq![spec_url(cands@[j as int])->0]);
                }
            } else {
                proof {
                    assert(matching_urls(cands@.take(j + 1), r0_spec) =~= matching_urls(
                        cands@.take(j as int),
                        r0_spec,
                    ));
                }
            }
            j += 1;
        }
        proof {
            assert(cands@.take(n as int) =~= cands@);
            lemma_matching_urls_nonempty(cands@, r0_spec, 0);
        }
        let bn = bucket.len();
        let thumb = bucket[bn / 3].clone();
        proof {
            assert(thumb@ == matching_urls(cands@, r0_spec)[bn as int / 3]);
        }
        let alt: Option<String> = match object.get("accessibility_caption") {
            Some(Json::Str(s)) => Some(s.clone()),
            _ => None,
        };
        match object.get("video_versions") {
            Some(Json::Arr(vids)) => {
                if vids.len() == 0 {
                    return Err(SpoolsError::InvalidResponse);
                }
                match vids[0].get("url") {
                    Some(Json::Str(u)) => Ok(
                        Media {
                            kind: MediaKind::Video,
                            alt,
                            content: u.clone(),
                            thumbnail: Some(thumb),
                        },
                    ),
                    _ => Err(SpoolsError::InvalidResponse),
                }
            },
            _ => {
                let thumbnail = if bn >= 2 {
                    Some(thumb)
                } else {
                    None
                };
                Ok(Media { kind: MediaKind::Image, alt, content: infos[0].0.clone(), thumbnail })
            },
        }
    }
}

/// A node with image candidates and no video-variant array resolves, when it
/// resolves at all, to an image whose thumbnail is either absent or the URL
/// of one of that node's own candidates — never drawn from another node.
pub proof fn lemma_image_media_thumbnail(node: Json)
    requires
        spec_video_versions(node) is None,
        spec_media(node) is Ok,
    ensures
        spec_media(node)->Ok_0.kind == MediaKind::Image,
        match spec_media(node)->Ok_0.thumbnail {
            Some(t) => exists|i: int|
                0 <= i < spec_image_candidates(node)->0.len() && spec_url(
                    #[trigger] spec_image_candidates(node)->0[i],
                ) == Some(t),
            None => true,
        },
        spec_media(node)->Ok_0.content == spec_url(spec_image_candidates(node)->0[0])->0,
{
    let cands = spec_image_candidates(node)->0;
    let r0 = candidate_ratio(cands[0]);
    let bucket = matching_urls(cands, r0);
    if spec_media(node)->Ok_0.thumbnail is Some {
        lemma_matching_urls_member(cands, r0, bucket.len() as int / 3);
    }
}

/// A node with a non-empty video-variant array resolves, when it resolves at
/// all, to a video with a poster-frame thumbnail always present.
pub proof fn lemma_video_media_thumbnail(node: Json)
    requires
        spec_video_versions(node) is Some,
        spec_video_versions(node)->0.len() > 0,
        spec_media(node) is Ok,
    ensures
        spec_media(node)->Ok_0.kind == MediaKind::Video,
        spec_media(node)->Ok_0.thumbnail is Some,
        spec_media(node)->Ok_0.content == spec_url(spec_video_versions(node)->0[0])->0,
{
}

} // verus!
