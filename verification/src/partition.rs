//! The thread partitioner: splitting the flat, temporally-ordered item list
//! of a thread response into the target post's ancestors, the target
//! itself, and its direct replies.
use crate::error::{result_view, ErrorV, SpoolsError, Types};
use crate::json::{str_eq, Json};
use crate::mapper::{spec_map_user, spec_subpost, spec_thread_items, thread_items};
use crate::media::{spec_media, MediaV};
use crate::post::{Post, PostV, Subpost, SubpostV};
use crate::user::UserV;
use vstd::prelude::*;

verus! {

/// The index of the first item whose code is `code`, or the list's length
/// when no item matches.
pub open spec fn spec_find_code(items: Seq<(SubpostV, Seq<char>)>, code: Seq<char>) -> int
    decreases items.len(),
{
    if items.len() == 0 {
        0
    } else if items[0].0.code == code {
        0
    } else {
        1 + spec_find_code(items.drop_first(), code)
    }
}

/// `spec_find_code` finds the first match: nothing before it matches, and
/// it matches unless nothing does.
pub proof fn lemma_find_code(items: Seq<(SubpostV, Seq<char>)>, code: Seq<char>)
    ensures
        0 <= spec_find_code(items, code) <= items.len(),
        spec_find_code(items, code) < items.len() ==> items[spec_find_code(items, code)].0.code
            == code,
        forall|j: int| 0 <= j < spec_find_code(items, code) ==> items[j].0.code != code,
    decreases items.len(),
{
    if items.len() > 0 && items[0].0.code != code {
        lemma_find_code(items.drop_first(), code);
        assert forall|j: int| 0 <= j < spec_find_code(items, code) implies items[j].0.code
            != code by {
            if j > 0 {
                assert(items.drop_first()[j - 1] == items[j]);
            }
        }
    }
}

/// The subpost of an annotated thread item, as a function value.
pub open spec fn first_of() -> spec_fn((SubpostV, Seq<char>)) -> SubpostV {
    |p: (SubpostV, Seq<char>)| p.0
}

/// Whether an annotated item replies directly to `uname`, as a function
/// value.
pub open spec fn reply_pred(uname: Seq<char>) -> spec_fn((SubpostV, Seq<char>)) -> bool {
    |p: (SubpostV, Seq<char>)| p.1 == uname
}

/// What partitioning an annotated thread-item list around `code` yields.
///
/// Every item before the first occurrence of `code` is a parent, in order;
/// the first occurrence is the target; every later item — later duplicates
/// of the code included — is a reply candidate, retained exactly when its
/// reply-to annotation names the target's author. A list without the code
/// means the thread did not contain the requested post.
pub open spec fn spec_partition(items: Seq<(SubpostV, Seq<char>)>, code: Seq<char>) -> Result<
    (Seq<SubpostV>, SubpostV, Seq<SubpostV>),
    ErrorV,
> {
    let f = spec_find_code(items, code);
    if f == items.len() {
        Err(ErrorV::NotFound(Types::Post))
    } else {
        let target = items[f].0;
        Ok(
            (
                items.take(f).map_values(first_of()),
                target,
                items.skip(f + 1).filter(reply_pred(target.author.username)).map_values(
                    first_of(),
                ),
            ),
        )
    }
}

/// Split an annotated thread-item list into parents, target and direct
/// replies, exactly as `spec_partition` describes.
#[verifier::rlimit(50)]
pub fn partition(items: Vec<(Subpost, String)>, code: &str) -> (r: Result<
    (Vec<Subpost>, Subpost, Vec<Subpost>),
    SpoolsError,
>)
    ensures
        match r {
            Ok(t) => spec_partition(items.deep_view(), code@) == Ok::<
                (Seq<SubpostV>, SubpostV, Seq<SubpostV>),
                ErrorV,
            >((t.0.deep_view(), t.1@, t.2.deep_view())),
            Err(e) => spec_partition(items.deep_view(), code@) == Err::<
                (Seq<SubpostV>, SubpostV, Seq<SubpostV>),
                ErrorV,
            >(e@),
        },
{
    let ghost orig = items.deep_view();
    proof {
        lemma_find_code(orig, code@);
    }
    let n = items.len();
    // find the first occurrence of the code
    let mut fi: usize = n;
    let mut i: usize = 0;
    while i < n
        invariant_except_break
            fi == n,
        invariant
            n == orig.len(),
            orig == items.deep_view(),
            i <= n,
            forall|j: int| 0 <= j < i ==> orig[j].0.code != code@,
        ensures
            n == orig.len(),
            orig == items.deep_view(),
            fi <= n,
            fi < n ==> orig[fi as int].0.code == code@,
            forall|j: int| 0 <= j < fi ==> orig[j].0.code != code@,
            fi == n ==> forall|j: int| 0 <= j < n ==> orig[j].0.code != code@,
        decreases n - i,
    {
        if str_eq(items[i].0.code.as_str(), code) {
            fi = i;
            assert(orig[fi as int].0.code == code@);
            break ;
        }
        i += 1;
    }
    if fi == n {
        proof {
            if spec_find_code(orig, code@) < orig.len() {
                assert(orig[spec_find_code(orig, code@)].0.code == code@);
            }
        }
        return Err(SpoolsError::NotFound(Types::Post));
    }
    proof {
        // fi is the first match, so it is what spec_find_code names
        let f = spec_find_code(orig, code@);
        if f < fi {
            assert(orig[f].0.code != code@);
        }
        if fi < f {
            assert(orig[fi as int].0.code != code@);
        }
        assert(f == fi);
    }
    // everything before the match is a parent, in order
    let mut rest = items;
    let mut parents: Vec<Subpost> = Vec::new();
    let mut k: usize = 0;
    proof {
        assert(rest.deep_view() =~= orig.skip(0));
        assert(parents.deep_view() =~= orig.take(0).map_values(first_of()));
    }
    while k < fi
        invariant
            n == orig.len(),
            fi < n,
            k <= fi,
            rest@.len() == n - k,
            rest.deep_view() == orig.skip(k as int),
            parents.deep_view() == orig.take(k as int).map_values(first_of()),
        decreases fi - k,
    {
        let ghost old_parents = parents.deep_view();
        let ghost old_dv = rest.deep_view();
        let ghost old_v = rest@;
        let pr = rest.remove(0);
        proof {
            assert(old_dv[0] == old_v[0].deep_view());
            assert(pr@ == orig[k as int]);
            assert forall|i: int| 0 <= i < rest.deep_view().len() implies rest.deep_view()[i]
                == orig.skip(k + 1)[i] by {
                assert(rest@[i] == old_v[i + 1]);
                assert(old_dv[i + 1] == old_v[i + 1].deep_view());
                assert(orig.skip(k as int)[i + 1] == orig[k + 1 + i]);
            }
            assert(rest.deep_view() =~= orig.skip(k + 1));
        }
        parents.push(pr.0);
        proof {
            assert(parents.deep_view() =~= old_parents.push(orig[k as int].0));
            assert(orig.take(k + 1).map_values(first_of()) =~= orig.take(k as int).map_values(
                first_of(),
            ).push(first_of()(orig[k as int])));
        }
        k += 1;
    }
    // the match itself is the target
    let ghost pre_dv = rest.deep_view();
    let ghost pre_v = rest@;
    let target_pair = rest.remove(0);
    let target = target_pair.0;
    proof {
        assert(pre_dv[0] == pre_v[0].deep_view());
        assert(target@ == orig[fi as int].0);
        assert forall|i: int| 0 <= i < rest.deep_view().len() implies rest.deep_view()[i]
            == orig.skip(fi + 1)[i] by {
            assert(rest@[i] == pre_v[i + 1]);
            assert(pre_dv[i + 1] == pre_v[i + 1].deep_view());
            assert(orig.skip(fi as int)[i + 1] == orig[fi + 1 + i]);
        }
        assert(rest.deep_view() =~= orig.skip(fi + 1));
    }
    // everything after is a candidate, kept when it replies to the target's
    // author
    let ghost cands = orig.skip(fi + 1);
    let ghost uname = orig[fi as int].0.author.username;
    let mut replies: Vec<Subpost> = Vec::new();
    let m = rest.len();
    let mut j: usize = 0;
    proof {
        reveal(Seq::filter);
        assert(cands.take(0) =~= Seq::<(SubpostV, Seq<char>)>::empty());
        assert(replies.deep_view() =~= cands.take(0).filter(reply_pred(uname)).map_values(
            first_of(),
        ));
    }
    while j < m
        invariant
            m == cands.len(),
            j <= m,
            uname == target@.author.username,
            rest@.len() == m - j,
            rest.deep_view() == cands.skip(j as int),
            replies.deep_view() == cands.take(j as int).filter(reply_pred(uname)).map_values(
                first_of(),
            ),
        decreases m - j,
    {
        let ghost old_replies = replies.deep_view();
        let ghost old_dv = rest.deep_view();
        let ghost old_v = rest@;
        let pr = rest.remove(0);
        proof {
            assert(old_dv[0] == old_v[0].deep_view());
            assert(pr@ == cands[j as int]);
            assert forall|i: int| 0 <= i < rest.deep_view().len() implies rest.deep_view()[i]
                == cands.skip(j + 1)[i] by {
                assert(rest@[i] == old_v[i + 1]);
                assert(old_dv[i + 1] == old_v[i + 1].deep_view());
                assert(cands.skip(j as int)[i + 1] == cands[j + 1 + i]);
            }
            assert(rest.deep_view() =~= cands.skip(j + 1));
            reveal(Seq::filter);
            assert(cands.take(j + 1).drop_last() =~= cands.take(j as int));
            assert(cands.take(j + 1).last() == cands[j as int]);
        }
        if str_eq(pr.1.as_str(), target.author.username.as_str()) {
            replies.push(pr.0);
            proof {
                assert(replies.deep_view() =~= old_replies.push(cands[j as int].0));
                assert(cands.take(j + 1).filter(reply_pred(uname)).map_values(first_of())
                    =~= cands.take(j as int).filter(reply_pred(uname)).map_values(first_of()).push(
                    first_of()(cands[j as int]),
                ));
            }
        } else {
            proof {
                assert(cands.take(j + 1).filter(reply_pred(uname)) == cands.take(
                    j as int,
                ).filter(reply_pred(uname)));
            }
        }
        j += 1;
    }
    proof {
        assert(cands.take(m as int) =~= cands);
    }
    Ok((parents, target, replies))
}

/// Partitioning reconstructs the thread: the parents, the target and the
/// post-target candidates together are exactly the original items in their
/// original order, and the replies are exactly the candidates whose
/// reply-to annotation names the target's author — a subsequence of the
/// candidates, drawn from nowhere else.
pub proof fn lemma_partition_reconstructs(items: Seq<(SubpostV, Seq<char>)>, code: Seq<char>)
    requires
        spec_partition(items, code) is Ok,
    ensures
        ({
            let (parents, target, replies) = spec_partition(items, code)->Ok_0;
            let f = spec_find_code(items, code);
            let cands = items.skip(f + 1);
            &&& parents + seq![target] + cands.map_values(first_of()) == items.map_values(
                first_of(),
            )
            &&& replies == cands.filter(reply_pred(target.author.username)).map_values(first_of())
            &&& forall|k: int|
                0 <= k < replies.len() ==> #[trigger] cands.contains(
                    (replies[k], target.author.username),
                )
        }),
{
    let (parents, target, replies) = spec_partition(items, code)->Ok_0;
    let f = spec_find_code(items, code);
    lemma_find_code(items, code);
    let cands = items.skip(f + 1);
    assert(parents + seq![target] + cands.map_values(first_of()) =~= items.map_values(first_of()));
    let uname = target.author.username;
    let kept = cands.filter(reply_pred(uname));
    assert forall|k: int| 0 <= k < replies.len() implies #[trigger] cands.contains(
        (replies[k], uname),
    ) by {
        lemma_filter_is_subsequence(cands, reply_pred(uname), k);
        let j = choose|j: int| 0 <= j < cands.len() && #[trigger] cands[j] == kept[k];
        assert(replies[k] == kept[k].0);
        assert(cands[j] == (replies[k], uname));
    }
}

/// What mapping a post-thread response around a target code yields: the
/// thread items in order, partitioned into parents, target and direct
/// replies, with the target's own fields and the scraped numeric id on the
/// assembled post.
pub open spec fn spec_map_post(doc: Json, id: Seq<char>, code: Seq<char>) -> Result<
    PostV,
    ErrorV,
> {
    match spec_thread_items(doc) {
        Err(e) => Err(e),
        Ok(items) => match spec_partition(items, code) {
            Err(e) => Err(e),
            Ok((parents, target, replies)) => Ok(
                PostV {
                    id: id,
                    author: target.author,
                    date: target.date,
                    body: target.body,
                    media: target.media,
                    likes: target.likes,
                    parents,
                    replies,
                },
            ),
        },
    }
}

/// Map a post-thread response into a `Post`, exactly as `spec_map_post`
/// describes: `id` is the numeric id the page scrape resolved, `code` the
/// short code whose first occurrence marks the target.
pub fn map_post(doc: &Json, id: String, code: &str) -> (r: Result<Post, SpoolsError>)
    ensures
        result_view(r) == spec_map_post(*doc, id@, code@),
{
    let items = match thread_items(doc) {
        Ok(v) => v,
        Err(e) => return Err(e),
    };
    let (parents, target, replies) = match partition(items, code) {
        Ok(t) => t,
        Err(e) => return Err(e),
    };
    Ok(
        Post {
            id,
            author: target.author,
            date: target.date,
            body: target.body,
            media: target.media,
            likes: target.likes,
            parents,
            replies,
        },
    )
}

/// Mapping and partitioning are idempotent and hide no state: every
/// contract in the pipeline pins its result to a function of the input
/// documents alone, so mapping the same documents twice — media node,
/// thread item, user-query responses, or a whole post thread — yields
/// structurally identical records.
pub proof fn lemma_mapping_idempotent(
    node: Json,
    item: Json,
    d1: Json,
    d2: Json,
    d3: Json,
    doc: Json,
    id: Seq<char>,
    code: Seq<char>,
    m1: Result<MediaV, ErrorV>,
    m2: Result<MediaV, ErrorV>,
    s1: Result<SubpostV, ErrorV>,
    s2: Result<SubpostV, ErrorV>,
    u1: Result<UserV, ErrorV>,
    u2: Result<UserV, ErrorV>,
    p1: Result<PostV, ErrorV>,
    p2: Result<PostV, ErrorV>,
)
    requires
        m1 == spec_media(node),
        m2 == spec_media(node),
        s1 == spec_subpost(item),
        s2 == spec_subpost(item),
        u1 == spec_map_user(d1, d2, d3),
        u2 == spec_map_user(d1, d2, d3),
        p1 == spec_map_post(doc, id, code),
        p2 == spec_map_post(doc, id, code),
    ensures
        m1 == m2,
        s1 == s2,
        u1 == u2,
        p1 == p2,
{
}

/// Every element a filter keeps is an element of the filtered sequence.
proof fn lemma_filter_is_subsequence<A>(s: Seq<A>, pred: spec_fn(A) -> bool, k: int)
    requires
        0 <= k < s.filter(pred).len(),
    ensures
        exists|j: int| 0 <= j < s.len() && #[trigger] s[j] == s.filter(pred)[k],
        pred(s.filter(pred)[k]),
    decreases s.len(),
{
    reveal(Seq::filter);
    if s.len() > 0 {
        let pre = s.drop_last().filter(pred);
        if k < pre.len() {
            lemma_filter_is_subsequence(s.drop_last(), pred, k);
            let j = choose|j: int|
                0 <= j < s.drop_last().len() && #[trigger] s.drop_last()[j] == pre[k];
            assert(s[j] == s.filter(pred)[k]);
        } else {
            assert(s[s.len() - 1] == s.filter(pred)[k]);
        }
    }
}

} // verus!
