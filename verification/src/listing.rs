//! The listing handlers: frontpage, /recent and /comments.
//!
//! Each selects a capped window of rows — the frontpage the 51 hottest
//! stories, /recent the 51 newest stories, /comments the 40 newest comments —
//! and then issues batched look-ups over the window's deduplicated id sets.
//! The listings never write; they fault when the primary window is empty,
//! because an empty window means an unprimed database, never a legitimate
//! empty page.

use vstd::prelude::*;
use crate::request::{Fault, Outcome};
use crate::stmt::Stmt;
use crate::store::{Store, StoreView, StoryRowV, CommentRowV, TaggingRow, TagFilterRow};
use crate::view::contains_u64;

verus! {

/// How many entries of a flag sequence are set.
pub open spec fn count_true(bs: Seq<bool>) -> int
    decreases bs.len(),
{
    if bs.len() == 0 {
        0
    } else {
        count_true(bs.drop_last()) + if bs.last() {
            1int
        } else {
            0int
        }
    }
}

/// Setting one unset flag raises the count by one.
pub proof fn lemma_count_true_update(bs: Seq<bool>, i: int)
    requires
        0 <= i < bs.len(),
        !bs[i],
    ensures
        count_true(bs.update(i, true)) == count_true(bs) + 1,
    decreases bs.len(),
{
    let t = bs.update(i, true);
    if i == bs.len() - 1 {
        assert(t.drop_last() =~= bs.drop_last());
    } else {
        assert(t.drop_last() =~= bs.drop_last().update(i, true));
        lemma_count_true_update(bs.drop_last(), i);
    }
}

/// A pointwise-weaker flag sequence has no larger count.
pub proof fn lemma_count_true_le(a: Seq<bool>, b: Seq<bool>)
    requires
        a.len() == b.len(),
        forall|j: int| 0 <= j < a.len() && a[j] ==> b[j],
    ensures
        count_true(a) <= count_true(b),
    decreases a.len(),
{
    if a.len() > 0 {
        lemma_count_true_le(a.drop_last(), b.drop_last());
    }
}

/// Select, from the rows whose flag is set, (up to) the `k` with the smallest
/// keys, in ascending key order.  Ties leave the choice between equally-keyed
/// rows open, as the unstable SQL sort does.
pub fn top_k_asc(keys: &Vec<i128>, elig: &Vec<bool>, k: usize) -> (r: Vec<usize>)
    requires
        keys@.len() == elig@.len(),
    ensures
        r@.len() == if (k as int) <= count_true(elig@) {
            k as int
        } else {
            count_true(elig@)
        },
        forall|a: int|
            0 <= a < r@.len() ==> (#[trigger] r@[a]) < keys@.len() && elig@[r@[a] as int],
        forall|a: int, b: int| 0 <= a < b < r@.len() ==> r@[a] != r@[b],
        forall|a: int, b: int|
            0 <= a < b < r@.len() ==> keys@[r@[a] as int] <= keys@[r@[b] as int],
        forall|a: int, e: int|
            0 <= a < r@.len() && 0 <= e < keys@.len() && elig@[e] && !r@.contains(e as usize)
                ==> keys@[e] >= keys@[r@[a] as int],
{
    let n = keys.len();
    let mut used: Vec<bool> = vec![false; n];
    let mut chosen: Vec<usize> = Vec::new();
    let mut done: bool = false;
    proof {
        assert(count_true(used@) == 0) by {
            lemma_count_all_false(used@);
        }
    }
    while !done && chosen.len() < k
        invariant
            used@.len() == n,
            keys@.len() == n,
            elig@.len() == n,
            chosen@.len() == count_true(used@),
            chosen@.len() <= k,
            forall|j: int| 0 <= j < n ==> (used@[j] <==> chosen@.contains(j as usize)),
            forall|j: int| 0 <= j < n && used@[j] ==> elig@[j],
            forall|a: int|
                0 <= a < chosen@.len() ==> (#[trigger] chosen@[a]) < n && elig@[chosen@[a] as int],
            forall|a: int, b: int| 0 <= a < b < chosen@.len() ==> chosen@[a] != chosen@[b],
            forall|a: int, b: int|
                0 <= a < b < chosen@.len() ==> keys@[chosen@[a] as int] <= keys@[chosen@[b] as int],
            forall|a: int, e: int|
                0 <= a < chosen@.len() && 0 <= e < n && elig@[e] && !used@[e] ==> keys@[e]
                    >= keys@[chosen@[a] as int],
            done ==> forall|j: int| 0 <= j < n && elig@[j] ==> used@[j],
        decreases (if done {
            0int
        } else {
            1int
        }) + k - chosen.len(),
    {
        let mut best: usize = 0;
        let mut have: bool = false;
        let mut j: usize = 0;
        while j < n
            invariant
                j <= n,
                have ==> best < j && elig@[best as int] && !used@[best as int],
                forall|m: int|
                    0 <= m < j && elig@[m] && !used@[m] ==> have && keys@[m] >= keys@[best as int],
            decreases n - j,
        {
            if elig[j] && !used[j] && (!have || keys[j] < keys[best]) {
                best = j;
                have = true;
            }
            j += 1;
        }
        if have {
            proof {
                lemma_count_true_update(used@, best as int);
            }
            let ghost prev = chosen@;
            used[best] = true;
            chosen.push(best);
            proof {
                assert forall|x: usize| #[trigger] chosen@.contains(x) == (prev.contains(x) || x
                    == best) by {
                    if chosen@.contains(x) {
                        let a = choose|a: int| 0 <= a < chosen@.len() && chosen@[a] == x;
                        if a < prev.len() {
                            assert(prev[a] == x);
                        }
                    }
                    if prev.contains(x) {
                        let a = choose|a: int| 0 <= a < prev.len() && prev[a] == x;
                        assert(chosen@[a] == x);
                    }
                    if x == best {
                        assert(chosen@[prev.len() as int] == x);
                    }
                }
            }
        } else {
            done = true;
        }
    }
    proof {
        lemma_count_true_le(used@, elig@);
        if done {
            assert(used@ =~= elig@);
        }
    }
    chosen
}

/// An all-false flag sequence counts zero.
pub proof fn lemma_count_all_false(bs: Seq<bool>)
    requires
        forall|j: int| 0 <= j < bs.len() ==> !bs[j],
    ensures
        count_true(bs) == 0,
    decreases bs.len(),
{
    if bs.len() > 0 {
        lemma_count_all_false(bs.drop_last());
    }
}

/// A copy of an id list.
pub fn clone_ids(v: &Vec<u64>) -> (r: Vec<u64>)
    ensures
        r@ == v@,
{
    let mut r: Vec<u64> = Vec::new();
    let mut i: usize = 0;
    while i < v.len()
        invariant
            i <= v.len(),
            r@ == v@.take(i as int),
        decreases v.len() - i,
    {
        proof {
            assert(v@.take(i + 1) =~= v@.take(i as int).push(v@[i as int]));
        }
        r.push(v[i]);
        i += 1;
    }
    proof {
        assert(v@.take(v@.len() as int) =~= v@);
    }
    r
}

/// A story qualifies for the frontpage: not merged away, not expired, and
/// with a non-negative net score.
pub open spec fn frontpage_eligible(r: StoryRowV) -> bool {
    r.merged_into is None && !r.expired && r.upvotes >= r.downvotes
}

/// A story qualifies for /recent: not merged away and not expired.
pub open spec fn recent_eligible(r: StoryRowV) -> bool {
    r.merged_into is None && !r.expired
}

/// A comment qualifies for /comments: neither deleted nor moderated.
pub open spec fn comments_eligible(c: CommentRowV) -> bool {
    !c.deleted && !c.moderated
}

/// The frontpage eligibility flags of the story table.
pub open spec fn frontpage_elig_seq(ss: Seq<StoryRowV>) -> Seq<bool> {
    ss.map_values(|r: StoryRowV| frontpage_eligible(r))
}

/// The /recent eligibility flags of the story table.
pub open spec fn recent_elig_seq(ss: Seq<StoryRowV>) -> Seq<bool> {
    ss.map_values(|r: StoryRowV| recent_eligible(r))
}

/// The /comments eligibility flags of the comment table.
pub open spec fn comments_elig_seq(cs: Seq<CommentRowV>) -> Seq<bool> {
    cs.map_values(|c: CommentRowV| comments_eligible(c))
}

/// A valid frontpage window: indices of eligible stories, distinct, in
/// ascending hotness order, of maximal size up to the cap, and containing
/// only stories no eligible outsider is hotter than.
pub open spec fn frontpage_window_ok(ch: Seq<usize>, s: StoreView, k: int) -> bool {
    &&& forall|a: int|
        0 <= a < ch.len() ==> (#[trigger] ch[a]) < s.stories.len() && frontpage_eligible(
            s.stories[ch[a] as int],
        )
    &&& forall|a: int, b: int| 0 <= a < b < ch.len() ==> ch[a] != ch[b]
    &&& forall|a: int, b: int|
        0 <= a < b < ch.len() ==> s.stories[ch[a] as int].hotness <= s.stories[ch[b] as int].hotness
    &&& ch.len() == if k <= count_true(frontpage_elig_seq(s.stories)) {
        k
    } else {
        count_true(frontpage_elig_seq(s.stories))
    }
    &&& forall|a: int, e: int|
        0 <= a < ch.len() && 0 <= e < s.stories.len() && frontpage_eligible(s.stories[e])
            && !ch.contains(e as usize) ==> s.stories[e].hotness >= s.stories[ch[a] as int].hotness
}

/// A valid /recent window: eligible stories, distinct, newest (largest id)
/// first, maximal up to the cap.
pub open spec fn recent_window_ok(ch: Seq<usize>, s: StoreView, k: int) -> bool {
    &&& forall|a: int|
        0 <= a < ch.len() ==> (#[trigger] ch[a]) < s.stories.len() && recent_eligible(
            s.stories[ch[a] as int],
        )
    &&& forall|a: int, b: int| 0 <= a < b < ch.len() ==> ch[a] != ch[b]
    &&& forall|a: int, b: int|
        0 <= a < b < ch.len() ==> s.stories[ch[a] as int].id >= s.stories[ch[b] as int].id
    &&& ch.len() == if k <= count_true(recent_elig_seq(s.stories)) {
        k
    } else {
        count_true(recent_elig_seq(s.stories))
    }
    &&& forall|a: int, e: int|
        0 <= a < ch.len() && 0 <= e < s.stories.len() && recent_eligible(s.stories[e])
            && !ch.contains(e as usize) ==> s.stories[e].id <= s.stories[ch[a] as int].id
}

/// A valid /comments window: eligible comments, distinct, newest first,
/// maximal up to the cap.
pub open spec fn comments_window_ok(ch: Seq<usize>, s: StoreView, k: int) -> bool {
    &&& forall|a: int|
        0 <= a < ch.len() ==> (#[trigger] ch[a]) < s.comments.len() && comments_eligible(
            s.comments[ch[a] as int],
        )
    &&& forall|a: int, b: int| 0 <= a < b < ch.len() ==> ch[a] != ch[b]
    &&& forall|a: int, b: int|
        0 <= a < b < ch.len() ==> s.comments[ch[a] as int].id >= s.comments[ch[b] as int].id
    &&& ch.len() == if k <= count_true(comments_elig_seq(s.comments)) {
        k
    } else {
        count_true(comments_elig_seq(s.comments))
    }
    &&& forall|a: int, e: int|
        0 <= a < ch.len() && 0 <= e < s.comments.len() && comments_eligible(s.comments[e])
            && !ch.contains(e as usize) ==> s.comments[e].id <= s.comments[ch[a] as int].id
}

/// The ids of the windowed stories, in window order.
pub open spec fn window_story_ids(ss: Seq<StoryRowV>, ch: Seq<usize>) -> Seq<u64> {
    ch.map_values(|i: usize| ss[i as int].id)
}

/// The distinct submitters of the windowed stories, in first-occurrence
/// order.
pub open spec fn window_story_users(ss: Seq<StoryRowV>, ch: Seq<usize>) -> Seq<u64>
    decreases ch.len(),
{
    if ch.len() == 0 {
        Seq::empty()
    } else {
        let pre = window_story_users(ss, ch.drop_last());
        let u = ss[ch.last() as int].user_id;
        if pre.contains(u) {
            pre
        } else {
            pre.push(u)
        }
    }
}

/// The distinct tags attached to any story of the id set, in tagging-table
/// order.
pub open spec fn tags_in_stories(ts: Seq<TaggingRow>, ids: Seq<u64>) -> Seq<u64>
    decreases ts.len(),
{
    if ts.len() == 0 {
        Seq::empty()
    } else {
        let pre = tags_in_stories(ts.drop_last(), ids);
        let t = ts.last();
        if ids.contains(t.story_id) && !pre.contains(t.tag_id) {
            pre.push(t.tag_id)
        } else {
            pre
        }
    }
}

/// The tag filters of one user, in table order.
pub open spec fn user_tag_filter_ids(tf: Seq<TagFilterRow>, uid: u64) -> Seq<u64>
    decreases tf.len(),
{
    if tf.len() == 0 {
        Seq::empty()
    } else {
        let pre = user_tag_filter_ids(tf.drop_last(), uid);
        let t = tf.last();
        if t.user_id == uid {
            pre.push(t.tag_id)
        } else {
            pre
        }
    }
}

/// The ids of the windowed comments, in window order.
pub open spec fn window_comment_ids(cs: Seq<CommentRowV>, ch: Seq<usize>) -> Seq<u64> {
    ch.map_values(|i: usize| cs[i as int].id)
}

/// The distinct authors of the windowed comments, in first-occurrence order.
pub open spec fn window_comment_users(cs: Seq<CommentRowV>, ch: Seq<usize>) -> Seq<u64>
    decreases ch.len(),
{
    if ch.len() == 0 {
        Seq::empty()
    } else {
        let pre = window_comment_users(cs, ch.drop_last());
        let u = cs[ch.last() as int].user_id;
        if pre.contains(u) {
            pre
        } else {
            pre.push(u)
        }
    }
}

/// The distinct stories of the windowed comments, in first-occurrence order.
pub open spec fn window_comment_stories(cs: Seq<CommentRowV>, ch: Seq<usize>) -> Seq<u64>
    decreases ch.len(),
{
    if ch.len() == 0 {
        Seq::empty()
    } else {
        let pre = window_comment_stories(cs, ch.drop_last());
        let sid = cs[ch.last() as int].story_id;
        if pre.contains(sid) {
            pre
        } else {
            pre.push(sid)
        }
    }
}

/// The distinct submitters of the stories in the id set, in story-table
/// order.
pub open spec fn authors_of_stories(ss: Seq<StoryRowV>, ids: Seq<u64>) -> Seq<u64>
    decreases ss.len(),
{
    if ss.len() == 0 {
        Seq::empty()
    } else {
        let pre = authors_of_stories(ss.drop_last(), ids);
        let r = ss.last();
        if ids.contains(r.id) && !pre.contains(r.user_id) {
            pre.push(r.user_id)
        } else {
            pre
        }
    }
}

/// The exact statement trace of a frontpage listing, relative to the chosen
/// window `ch`.
pub open spec fn frontpage_trace_ok(
    tr: Seq<Stmt>,
    s: StoreView,
    acting: Option<u64>,
    ch: Seq<usize>,
) -> bool {
    let uid = acting->0;
    let ids = window_story_ids(s.stories, ch);
    let users = window_story_users(s.stories, ch);
    let tfids = user_tag_filter_ids(s.tag_filters, uid);
    let au: int = if acting is Some {
        1
    } else {
        0
    };
    let tf: int = if acting is Some && tfids.len() > 0 {
        1
    } else {
        0
    };
    let off = 1 + 2 * au + tf;
    &&& tr.len() == 6 + 5 * au + tf
    &&& tr[0] == Stmt::SelectFrontpageStories
    &&& (acting is Some ==> {
        &&& tr[1] == (Stmt::SelectHiddenStoriesOfUser { user_id: uid })
        &&& tr[2] == (Stmt::SelectTagFiltersOfUser { user_id: uid })
    })
    &&& (tf == 1 ==> (tr[3] matches Stmt::SelectTaggingsFiltered { story_ids, tag_ids }
        && story_ids@ == ids && tag_ids@ == tfids))
    &&& (tr[off] matches Stmt::SelectUsersByIds { user_ids } && user_ids@ == users)
    &&& (tr[off + 1] matches Stmt::SelectSuggestedTitles { story_ids } && story_ids@ == ids)
    &&& (tr[off + 2] matches Stmt::SelectSuggestedTaggings { story_ids } && story_ids@ == ids)
    &&& (tr[off + 3] matches Stmt::SelectTaggingsForStories { story_ids } && story_ids@ == ids)
    &&& (tr[off + 4] matches Stmt::SelectTagsByIds { tag_ids } && tag_ids@ == tags_in_stories(
        s.taggings,
        ids,
    ))
    &&& (acting is Some ==> {
        &&& (tr[off + 5] matches Stmt::SelectUserVotesForStories { user_id, story_ids } && user_id
            == uid && story_ids@ == ids)
        &&& (tr[off + 6] matches Stmt::SelectHiddenForStories { user_id, story_ids } && user_id
            == uid && story_ids@ == ids)
        &&& (tr[off + 7] matches Stmt::SelectSavedForStories { user_id, story_ids } && user_id
            == uid && story_ids@ == ids)
    })
}

/// The exact statement trace of a /recent listing, relative to the chosen
/// window `ch`.
pub open spec fn recent_trace_ok(
    tr: Seq<Stmt>,
    s: StoreView,
    acting: Option<u64>,
    ch: Seq<usize>,
) -> bool {
    let uid = acting->0;
    let ids = window_story_ids(s.stories, ch);
    let users = window_story_users(s.stories, ch);
    let au: int = if acting is Some {
        1
    } else {
        0
    };
    let off = 1 + 3 * au;
    &&& tr.len() == 6 + 6 * au
    &&& tr[0] == Stmt::SelectRecentStories
    &&& (acting is Some ==> {
        &&& tr[1] == (Stmt::SelectHiddenStoriesOfUser { user_id: uid })
        &&& tr[2] == (Stmt::SelectTagFiltersOfUser { user_id: uid })
        &&& (tr[3] matches Stmt::SelectTaggingsForStories { story_ids } && story_ids@ == ids)
    })
    &&& (tr[off] matches Stmt::SelectUsersByIds { user_ids } && user_ids@ == users)
    &&& (tr[off + 1] matches Stmt::SelectSuggestedTitles { story_ids } && story_ids@ == ids)
    &&& (tr[off + 2] matches Stmt::SelectSuggestedTaggings { story_ids } && story_ids@ == ids)
    &&& (tr[off + 3] matches Stmt::SelectTaggingsForStories { story_ids } && story_ids@ == ids)
    &&& (tr[off + 4] matches Stmt::SelectTagsByIds { tag_ids } && tag_ids@ == tags_in_stories(
        s.taggings,
        ids,
    ))
    &&& (acting is Some ==> {
        &&& (tr[off + 5] matches Stmt::SelectUserVotesForStories { user_id, story_ids } && user_id
            == uid && story_ids@ == ids)
        &&& (tr[off + 6] matches Stmt::SelectHiddenForStories { user_id, story_ids } && user_id
            == uid && story_ids@ == ids)
        &&& (tr[off + 7] matches Stmt::SelectSavedForStories { user_id, story_ids } && user_id
            == uid && story_ids@ == ids)
    })
}

/// The exact statement trace of a /comments listing, relative to the chosen
/// window `ch`.
pub open spec fn comments_trace_ok(
    tr: Seq<Stmt>,
    s: StoreView,
    acting: Option<u64>,
    ch: Seq<usize>,
) -> bool {
    let uid = acting->0;
    let cids = window_comment_ids(s.comments, ch);
    let users = window_comment_users(s.comments, ch);
    let sids = window_comment_stories(s.comments, ch);
    let au: int = if acting is Some {
        1
    } else {
        0
    };
    &&& tr.len() == 4 + 2 * au
    &&& tr[0] == Stmt::SelectRecentComments
    &&& (acting is Some ==> (tr[1] matches Stmt::SelectHiddenForStories { user_id, story_ids }
        && user_id == uid && story_ids@ == sids))
    &&& (tr[1 + au] matches Stmt::SelectUsersByIds { user_ids } && user_ids@ == users)
    &&& (tr[2 + au] matches Stmt::SelectStoriesByIds { story_ids } && story_ids@ == sids)
    &&& (acting is Some ==> (tr[4] matches Stmt::SelectUserVotesForComments {
        user_id,
        comment_ids,
    } && user_id == uid && comment_ids@ == cids))
    &&& (tr[3 + 2 * au] matches Stmt::SelectUsersByIds { user_ids } && user_ids@
        == authors_of_stories(s.stories, sids))
}

impl Store {
    /// Hotness keys and frontpage eligibility flags of the story table.
    fn frontpage_flags(&self) -> (r: (Vec<i128>, Vec<bool>))
        ensures
            r.0@.len() == self@.stories.len(),
            forall|i: int| 0 <= i < r.0@.len() ==> r.0@[i] == self@.stories[i].hotness as i128,
            r.1@ == frontpage_elig_seq(self@.stories),
    {
        let mut keys: Vec<i128> = Vec::new();
        let mut elig: Vec<bool> = Vec::new();
        let mut i: usize = 0;
        while i < self.stories.len()
            invariant
                i <= self.stories.len(),
                keys@.len() == i,
                elig@.len() == i,
                forall|j: int| 0 <= j < i ==> keys@[j] == self@.stories[j].hotness as i128,
                forall|j: int| 0 <= j < i ==> elig@[j] == frontpage_eligible(self@.stories[j]),
            decreases self.stories.len() - i,
        {
            keys.push(self.stories[i].hotness as i128);
            let r = &self.stories[i];
            elig.push(r.merged_into.is_none() && !r.expired && r.upvotes >= r.downvotes);
            i += 1;
        }
        proof {
            assert(elig@ =~= frontpage_elig_seq(self@.stories));
        }
        (keys, elig)
    }

    /// Newest-first keys and /recent eligibility flags of the story table.
    fn recent_flags(&self) -> (r: (Vec<i128>, Vec<bool>))
        ensures
            r.0@.len() == self@.stories.len(),
            forall|i: int| 0 <= i < r.0@.len() ==> r.0@[i] == -(self@.stories[i].id as i128),
            r.1@ == recent_elig_seq(self@.stories),
    {
        let mut keys: Vec<i128> = Vec::new();
        let mut elig: Vec<bool> = Vec::new();
        let mut i: usize = 0;
        while i < self.stories.len()
            invariant
                i <= self.stories.len(),
                keys@.len() == i,
                elig@.len() == i,
                forall|j: int| 0 <= j < i ==> keys@[j] == -(self@.stories[j].id as i128),
                forall|j: int| 0 <= j < i ==> elig@[j] == recent_eligible(self@.stories[j]),
            decreases self.stories.len() - i,
        {
            keys.push(-(self.stories[i].id as i128));
            let r = &self.stories[i];
            elig.push(r.merged_into.is_none() && !r.expired);
            i += 1;
        }
        proof {
            assert(elig@ =~= recent_elig_seq(self@.stories));
        }
        (keys, elig)
    }

    /// Newest-first keys and /comments eligibility flags of the comment table.
    fn comments_flags(&self) -> (r: (Vec<i128>, Vec<bool>))
        ensures
            r.0@.len() == self@.comments.len(),
            forall|i: int| 0 <= i < r.0@.len() ==> r.0@[i] == -(self@.comments[i].id as i128),
            r.1@ == comments_elig_seq(self@.comments),
    {
        let mut keys: Vec<i128> = Vec::new();
        let mut elig: Vec<bool> = Vec::new();
        let mut i: usize = 0;
        while i < self.comments.len()
            invariant
                i <= self.comments.len(),
                keys@.len() == i,
                elig@.len() == i,
                forall|j: int| 0 <= j < i ==> keys@[j] == -(self@.comments[j].id as i128),
                forall|j: int| 0 <= j < i ==> elig@[j] == comments_eligible(self@.comments[j]),
            decreases self.comments.len() - i,
        {
            keys.push(-(self.comments[i].id as i128));
            let c = &self.comments[i];
            elig.push(!c.deleted && !c.moderated);
            i += 1;
        }
        proof {
            assert(elig@ =~= comments_elig_seq(self@.comments));
        }
        (keys, elig)
    }

    /// The ids of the windowed stories, in window order.
    fn window_ids(&self, ch: &Vec<usize>) -> (r: Vec<u64>)
        requires
            forall|a: int| 0 <= a < ch@.len() ==> (#[trigger] ch@[a]) < self.stories.len(),
        ensures
            r@ == window_story_ids(self@.stories, ch@),
    {
        let mut out: Vec<u64> = Vec::new();
        let mut i: usize = 0;
        while i < ch.len()
            invariant
                i <= ch.len(),
                out@.len() == i,
                forall|j: int| 0 <= j < i ==> out@[j] == self@.stories[ch@[j] as int].id,
            decreases ch.len() - i,
        {
            out.push(self.stories[ch[i]].id);
            i += 1;
        }
        proof {
            assert(out@ =~= window_story_ids(self@.stories, ch@));
        }
        out
    }

    /// The distinct submitters of the windowed stories.
    fn window_users(&self, ch: &Vec<usize>) -> (r: Vec<u64>)
        requires
            forall|a: int| 0 <= a < ch@.len() ==> (#[trigger] ch@[a]) < self.stories.len(),
        ensures
            r@ == window_story_users(self@.stories, ch@),
    {
        let mut out: Vec<u64> = Vec::new();
        let mut i: usize = 0;
        proof {
            assert(ch@.take(0) =~= Seq::<usize>::empty());
        }
        while i < ch.len()
            invariant
                i <= ch.len(),
                out@ == window_story_users(self@.stories, ch@.take(i as int)),
            decreases ch.len() - i,
        {
            proof {
                assert(ch@.take(i + 1).drop_last() =~= ch@.take(i as int));
                assert(ch@.take(i + 1).last() == ch@[i as int]);
            }
            let u = self.stories[ch[i]].user_id;
            if !contains_u64(&out, u) {
                out.push(u);
            }
            i += 1;
        }
        proof {
            assert(ch@.take(ch@.len() as int) =~= ch@);
        }
        out
    }

    /// The distinct tags attached to any story of the id set.
    fn tags_in_story_set(&self, ids: &Vec<u64>) -> (r: Vec<u64>)
        ensures
            r@ == tags_in_stories(self@.taggings, ids@),
    {
        let ghost ts = self@.taggings;
        let mut out: Vec<u64> = Vec::new();
        let mut i: usize = 0;
        proof {
            assert(ts.take(0) =~= Seq::<TaggingRow>::empty());
        }
        while i < self.taggings.len()
            invariant
                i <= self.taggings.len(),
                ts == self@.taggings,
                ts.len() == self.taggings.len(),
                out@ == tags_in_stories(ts.take(i as int), ids@),
            decreases self.taggings.len() - i,
        {
            proof {
                assert(ts.take(i + 1).drop_last() =~= ts.take(i as int));
                assert(ts.take(i + 1).last() == ts[i as int]);
            }
            if contains_u64(ids, self.taggings[i].story_id) {
                let t = self.taggings[i].tag_id;
                if !contains_u64(&out, t) {
                    out.push(t);
                }
            }
            i += 1;
        }
        proof {
            assert(ts.take(ts.len() as int) =~= ts);
        }
        out
    }

    /// The tag filters of one user, in table order.
    fn tag_filters_of(&self, uid: u64) -> (r: Vec<u64>)
        ensures
            r@ == user_tag_filter_ids(self@.tag_filters, uid),
    {
        let ghost tf = self@.tag_filters;
        let mut out: Vec<u64> = Vec::new();
        let mut i: usize = 0;
        proof {
            assert(tf.take(0) =~= Seq::<TagFilterRow>::empty());
        }
        while i < self.tag_filters.len()
            invariant
                i <= self.tag_filters.len(),
                tf == self@.tag_filters,
                tf.len() == self.tag_filters.len(),
                out@ == user_tag_filter_ids(tf.take(i as int), uid),
            decreases self.tag_filters.len() - i,
        {
            proof {
                assert(tf.take(i + 1).drop_last() =~= tf.take(i as int));
                assert(tf.take(i + 1).last() == tf[i as int]);
            }
            if self.tag_filters[i].user_id == uid {
                out.push(self.tag_filters[i].tag_id);
            }
            i += 1;
        }
        proof {
            assert(tf.take(tf.len() as int) =~= tf);
        }
        out
    }

    /// The ids of the windowed comments, in window order.
    fn comment_window_ids(&self, ch: &Vec<usize>) -> (r: Vec<u64>)
        requires
            forall|a: int| 0 <= a < ch@.len() ==> (#[trigger] ch@[a]) < self.comments.len(),
        ensures
            r@ == window_comment_ids(self@.comments, ch@),
    {
        let mut out: Vec<u64> = Vec::new();
        let mut i: usize = 0;
        while i < ch.len()
            invariant
                i <= ch.len(),
                out@.len() == i,
                forall|j: int| 0 <= j < i ==> out@[j] == self@.comments[ch@[j] as int].id,
            decreases ch.len() - i,
        {
            out.push(self.comments[ch[i]].id);
            i += 1;
        }
        proof {
            assert(out@ =~= window_comment_ids(self@.comments, ch@));
        }
        out
    }

    /// The distinct authors of the windowed comments.
    fn comment_window_users(&self, ch: &Vec<usize>) -> (r: Vec<u64>)
        requires
            forall|a: int| 0 <= a < ch@.len() ==> (#[trigger] ch@[a]) < self.comments.len(),
        ensures
            r@ == window_comment_users(self@.comments, ch@),
    {
        let mut out: Vec<u64> = Vec::new();
        let mut i: usize = 0;
        proof {
            assert(ch@.take(0) =~= Seq::<usize>::empty());
        }
        while i < ch.len()
            invariant
                i <= ch.len(),
                out@ == window_comment_users(self@.comments, ch@.take(i as int)),
            decreases ch.len() - i,
        {
            proof {
                assert(ch@.take(i + 1).drop_last() =~= ch@.take(i as int));
                assert(ch@.take(i + 1).last() == ch@[i as int]);
            }
            let u = self.comments[ch[i]].user_id;
            if !contains_u64(&out, u) {
                out.push(u);
            }
            i += 1;
        }
        proof {
            assert(ch@.take(ch@.len() as int) =~= ch@);
        }
        out
    }

    /// The distinct stories of the windowed comments.
    fn comment_window_stories(&self, ch: &Vec<usize>) -> (r: Vec<u64>)
        requires
            forall|a: int| 0 <= a < ch@.len() ==> (#[trigger] ch@[a]) < self.comments.len(),
        ensures
            r@ == window_comment_stories(self@.comments, ch@),
    {
        let mut out: Vec<u64> = Vec::new();
        let mut i: usize = 0;
        proof {
            assert(ch@.take(0) =~= Seq::<usize>::empty());
        }
        while i < ch.len()
            invariant
                i <= ch.len(),
                out@ == window_comment_stories(self@.comments, ch@.take(i as int)),
            decreases ch.len() - i,
        {
            proof {
                assert(ch@.take(i + 1).drop_last() =~= ch@.take(i as int));
                assert(ch@.take(i + 1).last() == ch@[i as int]);
            }
            let sid = self.comments[ch[i]].story_id;
            if !contains_u64(&out, sid) {
                out.push(sid);
            }
            i += 1;
        }
        proof {
            assert(ch@.take(ch@.len() as int) =~= ch@);
        }
        out
    }

    /// The frontpage handler: the 51 hottest eligible stories, then the
    /// viewer's filters and the batched per-window look-ups.
    pub fn handle_frontpage(&self, acting: Option<u64>) -> (r: Result<Outcome, Fault>)
        ensures
            match r {
                Ok(out) => {
                    &&& out.notify
                    &&& count_true(frontpage_elig_seq(self@.stories)) > 0
                    &&& exists|ch: Seq<usize>|
                        #[trigger] frontpage_window_ok(ch, self@, 51) && frontpage_trace_ok(
                            out.trace@,
                            self@,
                            acting,
                            ch,
                        )
                },
                Err(f) => {
                    &&& f == Fault::EmptyListing
                    &&& count_true(frontpage_elig_seq(self@.stories)) == 0
                },
            },
    {
        let (keys, elig) = self.frontpage_flags();
        let win = top_k_asc(&keys, &elig, 51);
        if win.len() == 0 {
            return Err(Fault::EmptyListing);
        }
        let ids = self.window_ids(&win);
        let users = self.window_users(&win);
        let mut tr: Vec<Stmt> = Vec::new();
        tr.push(Stmt::SelectFrontpageStories);
        if let Some(uid) = acting {
            tr.push(Stmt::SelectHiddenStoriesOfUser { user_id: uid });
            tr.push(Stmt::SelectTagFiltersOfUser { user_id: uid });
            let tfids = self.tag_filters_of(uid);
            if tfids.len() > 0 {
                tr.push(
                    Stmt::SelectTaggingsFiltered { story_ids: clone_ids(&ids), tag_ids: tfids },
                );
            }
        }
        tr.push(Stmt::SelectUsersByIds { user_ids: users });
        tr.push(Stmt::SelectSuggestedTitles { story_ids: clone_ids(&ids) });
        tr.push(Stmt::SelectSuggestedTaggings { story_ids: clone_ids(&ids) });
        tr.push(Stmt::SelectTaggingsForStories { story_ids: clone_ids(&ids) });
        tr.push(Stmt::SelectTagsByIds { tag_ids: self.tags_in_story_set(&ids) });
        if let Some(uid) = acting {
            tr.push(
                Stmt::SelectUserVotesForStories { user_id: uid, story_ids: clone_ids(&ids) },
            );
            tr.push(Stmt::SelectHiddenForStories { user_id: uid, story_ids: clone_ids(&ids) });
            tr.push(Stmt::SelectSavedForStories { user_id: uid, story_ids: ids });
        }
        proof {
            assert forall|a: int|
                0 <= a < win@.len() implies (#[trigger] win@[a]) < self@.stories.len()
                && frontpage_eligible(self@.stories[win@[a] as int]) by {
                assert(elig@[win@[a] as int]);
            }
            assert forall|a: int, b: int|
                0 <= a < b < win@.len() implies self@.stories[win@[a] as int].hotness
                <= self@.stories[win@[b] as int].hotness by {
                assert(keys@[win@[a] as int] <= keys@[win@[b] as int]);
            }
            assert forall|a: int, e: int|
                0 <= a < win@.len() && 0 <= e < self@.stories.len() && frontpage_eligible(
                    self@.stories[e],
                ) && !win@.contains(e as usize) implies self@.stories[e].hotness
                >= self@.stories[win@[a] as int].hotness by {
                assert(elig@[e]);
                assert(keys@[e] >= keys@[win@[a] as int]);
            }
            assert(frontpage_window_ok(win@, self@, 51));
            assert(frontpage_trace_ok(tr@, self@, acting, win@));
        }
        Ok(Outcome { trace: tr, notify: true })
    }

    /// The /recent handler: the 51 newest eligible stories, then the batched
    /// per-window look-ups.
    pub fn handle_recent(&self, acting: Option<u64>) -> (r: Result<Outcome, Fault>)
        ensures
            match r {
                Ok(out) => {
                    &&& out.notify
                    &&& count_true(recent_elig_seq(self@.stories)) > 0
                    &&& exists|ch: Seq<usize>|
                        #[trigger] recent_window_ok(ch, self@, 51) && recent_trace_ok(
                            out.trace@,
                            self@,
                            acting,
                            ch,
                        )
                },
                Err(f) => {
                    &&& f == Fault::EmptyListing
                    &&& count_true(recent_elig_seq(self@.stories)) == 0
                },
            },
    {
        let (keys, elig) = self.recent_flags();
        let win = top_k_asc(&keys, &elig, 51);
        if win.len() == 0 {
            return Err(Fault::EmptyListing);
        }
        let ids = self.window_ids(&win);
        let users = self.window_users(&win);
        let mut tr: Vec<Stmt> = Vec::new();
        tr.push(Stmt::SelectRecentStories);
        if let Some(uid) = acting {
            tr.push(Stmt::SelectHiddenStoriesOfUser { user_id: uid });
            tr.push(Stmt::SelectTagFiltersOfUser { user_id: uid });
            tr.push(Stmt::SelectTaggingsForStories { story_ids: clone_ids(&ids) });
        }
        tr.push(Stmt::SelectUsersByIds { user_ids: users });
        tr.push(Stmt::SelectSuggestedTitles { story_ids: clone_ids(&ids) });
        tr.push(Stmt::SelectSuggestedTaggings { story_ids: clone_ids(&ids) });
        tr.push(Stmt::SelectTaggingsForStories { story_ids: clone_ids(&ids) });
        tr.push(Stmt::SelectTagsByIds { tag_ids: self.tags_in_story_set(&ids) });
        if let Some(uid) = acting {
            tr.push(
                Stmt::SelectUserVotesForStories { user_id: uid, story_ids: clone_ids(&ids) },
            );
            tr.push(Stmt::SelectHiddenForStories { user_id: uid, story_ids: clone_ids(&ids) });
            tr.push(Stmt::SelectSavedForStories { user_id: uid, story_ids: ids });
        }
        proof {
            assert forall|a: int|
                0 <= a < win@.len() implies (#[trigger] win@[a]) < self@.stories.len()
                && recent_eligible(self@.stories[win@[a] as int]) by {
                assert(elig@[win@[a] as int]);
            }
            assert forall|a: int, b: int|
                0 <= a < b < win@.len() implies self@.stories[win@[a] as int].id
                >= self@.stories[win@[b] as int].id by {
                assert(keys@[win@[a] as int] <= keys@[win@[b] as int]);
            }
            assert forall|a: int, e: int|
                0 <= a < win@.len() && 0 <= e < self@.stories.len() && recent_eligible(
                    self@.stories[e],
                ) && !win@.contains(e as usize) implies self@.stories[e].id
                <= self@.stories[win@[a] as int].id by {
                assert(elig@[e]);
                assert(keys@[e] >= keys@[win@[a] as int]);
            }
            assert(recent_window_ok(win@, self@, 51));
            assert(recent_trace_ok(tr@, self@, acting, win@));
        }
        Ok(Outcome { trace: tr, notify: true })
    }

    /// The /comments handler: the 40 newest eligible comments, then the
    /// batched look-ups over their stories and authors.  Like the story
    /// listings it faults on an empty primary window, which indicates an
    /// unprimed database.
    pub fn handle_comments(&self, acting: Option<u64>) -> (r: Result<Outcome, Fault>)
        ensures
            match r {
                Ok(out) => {
                    &&& out.notify
                    &&& count_true(comments_elig_seq(self@.comments)) > 0
                    &&& exists|ch: Seq<usize>|
                        #[trigger] comments_window_ok(ch, self@, 40) && comments_trace_ok(
                            out.trace@,
                            self@,
                            acting,
                            ch,
                        )
                },
                Err(f) => {
                    &&& f == Fault::EmptyListing
                    &&& count_true(comments_elig_seq(self@.comments)) == 0
                },
            },
    {
        let (keys, elig) = self.comments_flags();
        let win = top_k_asc(&keys, &elig, 40);
        if win.len() == 0 {
            return Err(Fault::EmptyListing);
        }
        let cids = self.comment_window_ids(&win);
        let users = self.comment_window_users(&win);
        let sids = self.comment_window_stories(&win);
        let mut tr: Vec<Stmt> = Vec::new();
        tr.push(Stmt::SelectRecentComments);
        if let Some(uid) = acting {
            tr.push(Stmt::SelectHiddenForStories { user_id: uid, story_ids: clone_ids(&sids) });
        }
        tr.push(Stmt::SelectUsersByIds { user_ids: users });
        let authors = self.authors_of(&sids);
        tr.push(Stmt::SelectStoriesByIds { story_ids: sids });
        if let Some(uid) = acting {
            tr.push(Stmt::SelectUserVotesForComments { user_id: uid, comment_ids: cids });
        }
        tr.push(Stmt::SelectUsersByIds { user_ids: authors });
        proof {
            assert forall|a: int|
                0 <= a < win@.len() implies (#[trigger] win@[a]) < self@.comments.len()
                && comments_eligible(self@.comments[win@[a] as int]) by {
                assert(elig@[win@[a] as int]);
            }
            assert forall|a: int, b: int|
                0 <= a < b < win@.len() implies self@.comments[win@[a] as int].id
                >= self@.comments[win@[b] as int].id by {
                assert(keys@[win@[a] as int] <= keys@[win@[b] as int]);
            }
            assert forall|a: int, e: int|
                0 <= a < win@.len() && 0 <= e < self@.comments.len() && comments_eligible(
                    self@.comments[e],
                ) && !win@.contains(e as usize) implies self@.comments[e].id
                <= self@.comments[win@[a] as int].id by {
                assert(elig@[e]);
                assert(keys@[e] >= keys@[win@[a] as int]);
            }
            assert(comments_window_ok(win@, self@, 40));
            assert(comments_trace_ok(tr@, self@, acting, win@));
        }
        Ok(Outcome { trace: tr, notify: true })
    }

    /// The distinct submitters of the stories in the id set.
    fn authors_of(&self, ids: &Vec<u64>) -> (r: Vec<u64>)
        ensures
            r@ == authors_of_stories(self@.stories, ids@),
    {
        let ghost ss = self@.stories;
        let mut out: Vec<u64> = Vec::new();
        let mut i: usize = 0;
        proof {
            assert(ss.take(0) =~= Seq::<StoryRowV>::empty());
        }
        while i < self.stories.len()
            invariant
                i <= self.stories.len(),
                ss == self@.stories,
                ss.len() == self.stories.len(),
                out@ == authors_of_stories(ss.take(i as int), ids@),
            decreases self.stories.len() - i,
        {
            proof {
                assert(ss.take(i + 1).drop_last() =~= ss.take(i as int));
                assert(ss.take(i + 1).last() == ss[i as int]);
            }
            if contains_u64(ids, self.stories[i].id) {
                let u = self.stories[i].user_id;
                if !contains_u64(&out, u) {
                    out.push(u);
                }
            }
            i += 1;
        }
        proof {
            assert(ss.take(ss.len() as int) =~= ss);
        }
        out
    }
}

} // verus!
