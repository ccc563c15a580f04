//! The id resolver: scraping a post's numeric id out of the HTML page for
//! its short code.
//!
//! The page embeds a JSON blob holding `"post_id":"<digits>"`; the id is
//! the quoted value at a fixed distance after the first `post_id` marker,
//! running up to the next `"`. This is a best-effort scrape of page markup,
//! not a stable interface: the marker and the offset are tied to the
//! upstream page structure and are a compatibility risk by design.
use crate::error::{ErrorV, SpoolsError, Types};
use crate::json::str_eq;
use vstd::prelude::*;
use vstd::string::*;

verus! {

/// How far the quoted value starts after the marker: past `post_id":"`.
pub const ID_OFFSET: usize = 10;

/// Whether the marker `post_id` stands at position `i` of `s`.
pub open spec fn is_marker_at(s: Seq<char>, i: int) -> bool {
    0 <= i && i + 7 <= s.len() && s.subrange(i, i + 7) == "post_id"@
}

/// The first marker position at or after `from`, when there is one.
pub open spec fn spec_find_marker(s: Seq<char>, from: int) -> Option<int>
    recommends
        0 <= from,
    decreases s.len() - from,
{
    if from + 7 > s.len() {
        None
    } else if is_marker_at(s, from) {
        Some(from)
    } else {
        spec_find_marker(s, from + 1)
    }
}

/// The first `"` at or after `from`, when there is one.
pub open spec fn spec_find_quote(s: Seq<char>, from: int) -> Option<int>
    recommends
        0 <= from,
    decreases s.len() - from,
{
    if from >= s.len() {
        None
    } else if s[from] == '"' {
        Some(from)
    } else {
        spec_find_quote(s, from + 1)
    }
}

/// What scanning a page for the post id yields: a page without the marker
/// does not show the post; a page where the quoted value never closes — or
/// where the marker stands too close to the end for the value to start —
/// is malformed.
pub open spec fn spec_extract_post_id(s: Seq<char>) -> Result<Seq<char>, ErrorV> {
    match spec_find_marker(s, 0) {
        None => Err(ErrorV::NotFound(Types::Post)),
        Some(i) => match spec_find_quote(s, i + ID_OFFSET) {
            None => Err(ErrorV::InvalidResponse),
            Some(j) => Ok(s.subrange(i + ID_OFFSET, j)),
        },
    }
}

proof fn lemma_find_marker_some(s: Seq<char>, a: int, i: int)
    requires
        0 <= a <= i,
        forall|k: int| a <= k < i ==> !is_marker_at(s, k),
        is_marker_at(s, i),
    ensures
        spec_find_marker(s, a) == Some(i),
    decreases i - a,
{
    if a < i {
        lemma_find_marker_some(s, a + 1, i);
    }
}

proof fn lemma_find_marker_none(s: Seq<char>, a: int)
    requires
        0 <= a,
        forall|k: int| a <= k ==> !is_marker_at(s, k),
    ensures
        spec_find_marker(s, a) is None,
    decreases s.len() - a,
{
    if a + 7 <= s.len() {
        lemma_find_marker_none(s, a + 1);
    }
}

proof fn lemma_find_quote_some(s: Seq<char>, a: int, j: int)
    requires
        0 <= a <= j < s.len(),
        forall|k: int| a <= k < j ==> s[k] != '"',
        s[j] == '"',
    ensures
        spec_find_quote(s, a) == Some(j),
    decreases j - a,
{
    if a < j {
        lemma_find_quote_some(s, a + 1, j);
    }
}

proof fn lemma_find_quote_none(s: Seq<char>, a: int)
    requires
        0 <= a,
        forall|k: int| a <= k < s.len() ==> s[k] != '"',
    ensures
        spec_find_quote(s, a) is None,
    decreases s.len() - a,
{
    if a < s.len() {
        lemma_find_quote_none(s, a + 1);
    }
}

fn find_marker(page: &str) -> (r: Option<usize>)
    ensures
        match r {
            Some(i) => spec_find_marker(page@, 0) == Some(i as int) && is_marker_at(
                page@,
                i as int,
            ),
            None => spec_find_marker(page@, 0) is None,
        },
{
    let n = page.unicode_len();
    if n < 7 {
        proof {
            lemma_find_marker_none(page@, 0);
        }
        return None;
    }
    let mut i: usize = 0;
    while i <= n - 7
        invariant
            n == page@.len(),
            7 <= n,
            i <= n - 7 + 1,
            forall|k: int| 0 <= k < i ==> !is_marker_at(page@, k),
        decreases n - i,
    {
        let w = page.substring_char(i, i + 7);
        if str_eq(w, "post_id") {
            proof {
                lemma_find_marker_some(page@, 0, i as int);
            }
            return Some(i);
        }
        i += 1;
    }
    proof {
        assert forall|k: int| 0 <= k implies !is_marker_at(page@, k) by {
            if k < i {
            } else {
                assert(k + 7 > page@.len());
            }
        }
        lemma_find_marker_none(page@, 0);
    }
    None
}

fn find_quote(page: &str, start: usize) -> (r: Option<usize>)
    ensures
        match r {
            Some(j) => spec_find_quote(page@, start as int) == Some(j as int) && start <= j
                < page@.len(),
            None => spec_find_quote(page@, start as int) is None,
        },
{
    let n = page.unicode_len();
    let mut j: usize = start;
    while j < n
        invariant
            n == page@.len(),
            start <= j,
            forall|k: int| start <= k < j ==> page@[k] != '"',
        decreases n - j,
    {
        let c = page.get_char(j);
        if c == '"' {
            proof {
                lemma_find_quote_some(page@, start as int, j as int);
            }
            return Some(j);
        }
        j += 1;
    }
    proof {
        lemma_find_quote_none(page@, start as int);
    }
    None
}

/// Scan a fetched page for the quoted numeric id that follows the first
/// `post_id` marker, exactly as `spec_extract_post_id` describes.
pub fn extract_post_id(page: &str) -> (r: Result<String, SpoolsError>)
    ensures
        match r {
            Ok(id) => spec_extract_post_id(page@) == Ok::<Seq<char>, ErrorV>(id@),
            Err(e) => spec_extract_post_id(page@) == Err::<Seq<char>, ErrorV>(e@),
        },
{
    let mi = match find_marker(page) {
        Some(i) => i,
        None => return Err(SpoolsError::NotFound(Types::Post)),
    };
    let n = page.unicode_len();
    if n - mi <= ID_OFFSET {
        proof {
            assert(spec_find_quote(page@, mi + ID_OFFSET) is None);
        }
        return Err(SpoolsError::InvalidResponse);
    }
    let start = mi + ID_OFFSET;
    let qi = match find_quote(page, start) {
        Some(j) => j,
        None => return Err(SpoolsError::InvalidResponse),
    };
    let id = page.substring_char(start, qi);
    Ok(String::from_str(id))
}

} // verus!
