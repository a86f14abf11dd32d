//! The two detail pages: a story with its comment thread, and a user profile.
//!
//! Both are read paths; the story view additionally stamps the viewer's
//! read ribbon.  The auxiliary id lists that parameterize the batched
//! `IN (...)` look-ups are deduplicated in first-occurrence order, the
//! library's canonical stand-in for the unordered id sets the emulated
//! application collects.

use vstd::prelude::*;
use crate::request::{Fault, Outcome};
use crate::stmt::{Stmt, CounterKind};
use crate::store::{Store, StoreView, CommentRowV, TaggingRow, StoryRowV, RibbonRow, find_story,
    find_user_by_name, find_ribbon, find_story_by_id, clone_bytes};
use crate::trans::{ribbon_post, lemma_ribbon_post_wf};

verus! {

/// Does a value occur in an id list?
pub fn contains_u64(v: &Vec<u64>, x: u64) -> (r: bool)
    ensures
        r <==> v@.contains(x),
{
    let mut i: usize = 0;
    while i < v.len()
        invariant
            i <= v.len(),
            forall|j: int| 0 <= j < i ==> v@[j] != x,
        decreases v.len() - i,
    {
        if v[i] == x {
            return true;
        }
        i += 1;
    }
    false
}

/// The ids of the story's comments, in table order (comment ids are unique,
/// so no deduplication is needed).
pub open spec fn comment_ids_of(cs: Seq<CommentRowV>, sid: u64) -> Seq<u64>
    decreases cs.len(),
{
    if cs.len() == 0 {
        Seq::empty()
    } else {
        let pre = comment_ids_of(cs.drop_last(), sid);
        if cs.last().story_id == sid {
            pre.push(cs.last().id)
        } else {
            pre
        }
    }
}

/// The distinct commenters of the story, in first-occurrence order.
pub open spec fn commenters_of(cs: Seq<CommentRowV>, sid: u64) -> Seq<u64>
    decreases cs.len(),
{
    if cs.len() == 0 {
        Seq::empty()
    } else {
        let pre = commenters_of(cs.drop_last(), sid);
        let c = cs.last();
        if c.story_id == sid && !pre.contains(c.user_id) {
            pre.push(c.user_id)
        } else {
            pre
        }
    }
}

/// The distinct tags of the story's taggings, in first-occurrence order.
pub open spec fn story_tag_ids(ts: Seq<TaggingRow>, sid: u64) -> Seq<u64>
    decreases ts.len(),
{
    if ts.len() == 0 {
        Seq::empty()
    } else {
        let pre = story_tag_ids(ts.drop_last(), sid);
        let t = ts.last();
        if t.story_id == sid && !pre.contains(t.tag_id) {
            pre.push(t.tag_id)
        } else {
            pre
        }
    }
}

impl Store {
    /// The ids of the story's comments, in table order.
    pub fn comment_ids_of_story(&self, sid: u64) -> (r: Vec<u64>)
        ensures
            r@ == comment_ids_of(self@.comments, sid),
    {
        let ghost cs = self@.comments;
        let mut out: Vec<u64> = Vec::new();
        let mut i: usize = 0;
        proof {
            assert(cs.take(0) =~= Seq::<CommentRowV>::empty());
        }
        while i < self.comments.len()
            invariant
                i <= self.comments.len(),
                cs == self@.comments,
                cs.len() == self.comments.len(),
                out@ == comment_ids_of(cs.take(i as int), sid),
            decreases self.comments.len() - i,
        {
            proof {
                assert(cs.take(i + 1).drop_last() =~= cs.take(i as int));
                assert(cs.take(i + 1).last() == cs[i as int]);
            }
            if self.comments[i].story_id == sid {
                out.push(self.comments[i].id);
            }
            i += 1;
        }
        proof {
            assert(cs.take(cs.len() as int) =~= cs);
        }
        out
    }

    /// The distinct commenters of the story, in first-occurrence order.
    pub fn commenters_of_story(&self, sid: u64) -> (r: Vec<u64>)
        ensures
            r@ == commenters_of(self@.comments, sid),
    {
        let ghost cs = self@.comments;
        let mut out: Vec<u64> = Vec::new();
        let mut i: usize = 0;
        proof {
            assert(cs.take(0) =~= Seq::<CommentRowV>::empty());
        }
        while i < self.comments.len()
            invariant
                i <= self.comments.len(),
                cs == self@.comments,
                cs.len() == self.comments.len(),
                out@ == commenters_of(cs.take(i as int), sid),
            decreases self.comments.len() - i,
        {
            proof {
                assert(cs.take(i + 1).drop_last() =~= cs.take(i as int));
                assert(cs.take(i + 1).last() == cs[i as int]);
            }
            if self.comments[i].story_id == sid {
                let u = self.comments[i].user_id;
                if !contains_u64(&out, u) {
                    out.push(u);
                }
            }
            i += 1;
        }
        proof {
            assert(cs.take(cs.len() as int) =~= cs);
        }
        out
    }

    /// The distinct tags of the story's taggings, in first-occurrence order.
    pub fn tag_ids_of_story(&self, sid: u64) -> (r: Vec<u64>)
        ensures
            r@ == story_tag_ids(self@.taggings, sid),
    {
        let ghost ts = self@.taggings;
        let mut out: Vec<u64> = Vec::new();
        let mut i: usize = 0;
        proof {
            assert(ts.take(0) =~= Seq::<TaggingRow>::empty());
        }
        while i < self.taggings.len()
            invariant
                i <= self.taggings.len(),
                ts == self@.taggings,
                ts.len() == self.taggings.len(),
                out@ == story_tag_ids(ts.take(i as int), sid),
            decreases self.taggings.len() - i,
        {
            proof {
                assert(ts.take(i + 1).drop_last() =~= ts.take(i as int));
                assert(ts.take(i + 1).last() == ts[i as int]);
            }
            if self.taggings[i].story_id == sid {
                let t = self.taggings[i].tag_id;
                if !contains_u64(&out, t) {
                    out.push(t);
                }
            }
            i += 1;
        }
        proof {
            assert(ts.take(ts.len() as int) =~= ts);
        }
        out
    }
}

/// The exact statement trace of a story view.
pub open spec fn story_view_trace_ok(
    tr: Seq<Stmt>,
    s: StoreView,
    acting: Option<u64>,
    short: Seq<u8>,
    now: i64,
) -> bool {
    let sidx = find_story(s.stories, short)->0;
    let st = s.stories[sidx];
    let au: int = if acting is Some {
        1
    } else {
        0
    };
    let uid = acting->0;
    &&& tr.len() == 8 + 5 * au
    &&& (tr[0] matches Stmt::SelectStoryByShortId { short_id } && short_id@ == short)
    &&& tr[1] == (Stmt::SelectUserById { user_id: st.user_id })
    &&& (acting is Some ==> {
        &&& tr[2] == (Stmt::SelectReadRibbon { user_id: uid, story_id: st.id })
        &&& tr[3] == match find_ribbon(s.ribbons, uid, st.id) {
            Some(i) => Stmt::UpdateReadRibbon { now, ribbon_id: s.ribbons[i].id },
            None => Stmt::InsertReadRibbon { now, user_id: uid, story_id: st.id },
        }
    })
    &&& tr[2 + 2 * au] == (Stmt::SelectMergedStories { story_id: st.id })
    &&& tr[3 + 2 * au] == (Stmt::SelectStoryComments { story_id: st.id })
    &&& (tr[4 + 2 * au] matches Stmt::SelectUsersByIds { user_ids } && user_ids@ == commenters_of(
        s.comments,
        st.id,
    ))
    &&& (tr[5 + 2 * au] matches Stmt::SelectVotesForComments { comment_ids } && comment_ids@
        == comment_ids_of(s.comments, st.id))
    &&& (acting is Some ==> {
        &&& tr[8] == (Stmt::SelectStoryVote { user_id: uid, story_id: st.id })
        &&& tr[9] == (Stmt::SelectHiddenStory { user_id: uid, story_id: st.id })
        &&& tr[10] == (Stmt::SelectSavedStory { user_id: uid, story_id: st.id })
    })
    &&& tr[6 + 5 * au] == (Stmt::SelectTaggingsOfStory { story_id: st.id })
    &&& (tr[7 + 5 * au] matches Stmt::SelectTagsByIds { tag_ids } && tag_ids@ == story_tag_ids(
        s.taggings,
        st.id,
    ))
}

/// View a story: resolve it, stamp the viewer's read ribbon, and load the
/// ordered comment thread with its per-viewer vote/hide/save state.
pub fn handle_story(s: &mut Store, acting: Option<u64>, short: &Vec<u8>, now: i64) -> (r: Result<
    Outcome,
    Fault,
>)
    requires
        old(s)@.wf(),
        old(s)@.next_ribbon_id < u64::MAX,
    ensures
        final(s)@.wf(),
        match r {
            Ok(out) => {
                let fs = find_story(old(s)@.stories, short@);
                &&& fs is Some
                &&& final(s)@ == match acting {
                    Some(uid) => ribbon_post(old(s)@, uid, old(s)@.stories[fs->0].id, now),
                    None => old(s)@,
                }
                &&& out.notify
                &&& story_view_trace_ok(out.trace@, old(s)@, acting, short@, now)
            },
            Err(f) => {
                &&& final(s)@ == old(s)@
                &&& find_story(old(s)@.stories, short@) is None
                &&& f == Fault::UnknownStory
            },
        },
{
    let sidx = match s.story_index(short) {
        Some(i) => i,
        None => {
            return Err(Fault::UnknownStory);
        },
    };
    let story_id = s.stories[sidx].id;
    let author = s.stories[sidx].user_id;

    let mut tr: Vec<Stmt> = Vec::new();
    tr.push(Stmt::SelectStoryByShortId { short_id: clone_bytes(short) });
    tr.push(Stmt::SelectUserById { user_id: author });
    if let Some(uid) = acting {
        tr.push(Stmt::SelectReadRibbon { user_id: uid, story_id });
        match s.ribbon_index(uid, story_id) {
            Some(ri) => {
                let rid = s.ribbons[ri].id;
                tr.push(Stmt::UpdateReadRibbon { now, ribbon_id: rid });
                s.ribbons[ri].updated_at = now;
            },
            None => {
                tr.push(Stmt::InsertReadRibbon { now, user_id: uid, story_id });
                let rid = s.next_ribbon_id;
                s.ribbons.push(
                    RibbonRow { id: rid, user_id: uid, story_id, created_at: now, updated_at: now },
                );
                s.next_ribbon_id = rid + 1;
            },
        }
        proof {
            assert(s@ =~~= ribbon_post(old(s)@, uid, story_id, now));
            lemma_ribbon_post_wf(old(s)@, uid, story_id, now);
        }
    }
    tr.push(Stmt::SelectMergedStories { story_id });
    tr.push(Stmt::SelectStoryComments { story_id });
    tr.push(Stmt::SelectUsersByIds { user_ids: s.commenters_of_story(story_id) });
    tr.push(Stmt::SelectVotesForComments { comment_ids: s.comment_ids_of_story(story_id) });
    if let Some(uid) = acting {
        tr.push(Stmt::SelectStoryVote { user_id: uid, story_id });
        tr.push(Stmt::SelectHiddenStory { user_id: uid, story_id });
        tr.push(Stmt::SelectSavedStory { user_id: uid, story_id });
    }
    tr.push(Stmt::SelectTaggingsOfStory { story_id });
    tr.push(Stmt::SelectTagsByIds { tag_ids: s.tag_ids_of_story(story_id) });
    Ok(Outcome { trace: tr, notify: true })
}

/// How many of the user's stories carry the given tag.
pub open spec fn count_user_tag(
    ts: Seq<TaggingRow>,
    ss: Seq<StoryRowV>,
    user_db: u64,
    tag: u64,
) -> int
    decreases ts.len(),
{
    if ts.len() == 0 {
        0
    } else {
        let pre = count_user_tag(ts.drop_last(), ss, user_db, tag);
        let t = ts.last();
        pre + if t.tag_id == tag && (find_story_by_id(ss, t.story_id) matches Some(k)
            && ss[k].user_id == user_db) {
            1int
        } else {
            0int
        }
    }
}

/// The tag-use count is never negative.
pub proof fn lemma_count_user_tag_nonneg(ts: Seq<TaggingRow>, ss: Seq<StoryRowV>, user_db: u64, tag: u64)
    ensures
        count_user_tag(ts, ss, user_db, tag) >= 0,
    decreases ts.len(),
{
    if ts.len() > 0 {
        lemma_count_user_tag_nonneg(ts.drop_last(), ss, user_db, tag);
    }
}

impl Store {
    /// How many of the user's stories carry the given tag.
    fn count_user_tag_of(&self, user_db: u64, tag: u64) -> (r: u64)
        ensures
            r == count_user_tag(self@.taggings, self@.stories, user_db, tag),
            r <= self.taggings.len(),
    {
        let ghost ts = self@.taggings;
        let mut n: u64 = 0;
        let mut i: usize = 0;
        proof {
            assert(ts.take(0) =~= Seq::<TaggingRow>::empty());
        }
        while i < self.taggings.len()
            invariant
                i <= self.taggings.len(),
                ts == self@.taggings,
                ts.len() == self.taggings.len(),
                n == count_user_tag(ts.take(i as int), self@.stories, user_db, tag),
                n <= i,
            decreases self.taggings.len() - i,
        {
            proof {
                assert(ts.take(i + 1).drop_last() =~= ts.take(i as int));
                assert(ts.take(i + 1).last() == ts[i as int]);
            }
            if self.taggings[i].tag_id == tag {
                match self.story_index_by_id(self.taggings[i].story_id) {
                    Some(k) => {
                        if self.stories[k].user_id == user_db {
                            n += 1;
                        }
                    },
                    None => {},
                }
            }
            i += 1;
        }
        proof {
            assert(ts.take(ts.len() as int) =~= ts);
        }
        n
    }

    /// The user's most used active tag: an active tag with at least one use
    /// whose use count no other active tag exceeds, or nothing when the user
    /// has no tagged story.  Ties fall to the earliest such tag, standing in
    /// for the unspecified tie-break of the grouped SQL query.
    pub fn most_popular_tag(&self, user_db: u64) -> (r: Option<u64>)
        ensures
            match r {
                Some(tid) => {
                    &&& exists|i: int|
                        0 <= i < self@.tags.len() && (#[trigger] self@.tags[i]).id == tid
                            && !self@.tags[i].inactive
                    &&& count_user_tag(self@.taggings, self@.stories, user_db, tid) >= 1
                    &&& forall|j: int|
                        0 <= j < self@.tags.len() && !(#[trigger] self@.tags[j]).inactive
                            ==> count_user_tag(
                            self@.taggings,
                            self@.stories,
                            user_db,
                            self@.tags[j].id,
                        ) <= count_user_tag(self@.taggings, self@.stories, user_db, tid)
                },
                None => forall|j: int|
                    0 <= j < self@.tags.len() && !(#[trigger] self@.tags[j]).inactive
                        ==> count_user_tag(self@.taggings, self@.stories, user_db, self@.tags[j].id)
                        == 0,
            },
    {
        let mut best: Option<u64> = None;
        let mut best_count: u64 = 0;
        let mut i: usize = 0;
        while i < self.tags.len()
            invariant
                i <= self.tags.len(),
                self@.tags.len() == self.tags.len(),
                best is None ==> best_count == 0,
                match best {
                    Some(tid) => {
                        &&& exists|k: int|
                            0 <= k < i && (#[trigger] self@.tags[k]).id == tid
                                && !self@.tags[k].inactive
                        &&& count_user_tag(self@.taggings, self@.stories, user_db, tid)
                            == best_count
                        &&& best_count >= 1
                    },
                    None => true,
                },
                forall|j: int|
                    0 <= j < i && !(#[trigger] self@.tags[j]).inactive ==> count_user_tag(
                        self@.taggings,
                        self@.stories,
                        user_db,
                        self@.tags[j].id,
                    ) <= best_count,
            decreases self.tags.len() - i,
        {
            if !self.tags[i].inactive {
                let c = self.count_user_tag_of(user_db, self.tags[i].id);
                if c > best_count {
                    best = Some(self.tags[i].id);
                    best_count = c;
                    proof {
                        assert((#[trigger] self@.tags[i as int]).id == self.tags@[i as int].id
                            && !self@.tags[i as int].inactive);
                    }
                }
            }
            i += 1;
        }
        proof {
            match best {
                Some(tid) => {
                    assert(exists|k: int|
                        0 <= k < self@.tags.len() && (#[trigger] self@.tags[k]).id == tid
                            && !self@.tags[k].inactive);
                    assert(count_user_tag(self@.taggings, self@.stories, user_db, tid) >= 1);
                },
                None => {
                    assert forall|j: int|
                        0 <= j < self@.tags.len() && !(#[trigger] self@.tags[j]).inactive
                            implies count_user_tag(
                        self@.taggings,
                        self@.stories,
                        user_db,
                        self@.tags[j].id,
                    ) == 0 by {
                        lemma_count_user_tag_nonneg(
                            self@.taggings,
                            self@.stories,
                            user_db,
                            self@.tags[j].id,
                        );
                    }
                },
            }
        }
        best
    }
}

/// The exact statement trace of a user-profile view.
pub open spec fn user_trace_ok(tr: Seq<Stmt>, s: StoreView, uid: u64) -> bool {
    &&& tr.len() >= 1
    &&& tr[0] == (Stmt::SelectUserByUsername { uid })
    &&& match find_user_by_name(s.users, uid) {
        None => tr.len() == 1,
        Some(ui) => {
            let udb = s.users[ui].id;
            let pop: int = if exists|i: int|
                0 <= i < s.tags.len() && !(#[trigger] s.tags[i]).inactive && count_user_tag(
                    s.taggings,
                    s.stories,
                    udb,
                    s.tags[i].id,
                ) >= 1 {
                1
            } else {
                0
            };
            &&& tr.len() == 5 + pop
            &&& tr[1] == (Stmt::SelectMostPopularTag { user_id: udb })
            &&& (pop == 1 ==> (tr[2] matches Stmt::SelectTagById { tag_id } && exists|i: int|
                0 <= i < s.tags.len() && (#[trigger] s.tags[i]).id == tag_id && !s.tags[i].inactive
                    && count_user_tag(s.taggings, s.stories, udb, tag_id) >= 1))
            &&& (pop == 0 ==> forall|j: int|
                0 <= j < s.tags.len() && !(#[trigger] s.tags[j]).inactive ==> count_user_tag(
                    s.taggings,
                    s.stories,
                    udb,
                    s.tags[j].id,
                ) == 0)
            &&& tr[2 + pop] == (Stmt::SelectKeystore {
                kind: CounterKind::StoriesSubmitted,
                user_id: udb,
            })
            &&& tr[3 + pop] == (Stmt::SelectKeystore {
                kind: CounterKind::CommentsPosted,
                user_id: udb,
            })
            &&& tr[4 + pop] == (Stmt::SelectHat { user_id: udb })
        },
    }
}

/// View a user profile, resolved by the derived username.  A username that
/// does not resolve returns with `notify == false` and no further queries;
/// nothing is ever written.
pub fn handle_user(s: &Store, uid: u64) -> (r: Outcome)
    requires
        s@.wf(),
    ensures
        r.notify <==> find_user_by_name(s@.users, uid) is Some,
        user_trace_ok(r.trace@, s@, uid),
{
    let mut tr: Vec<Stmt> = Vec::new();
    tr.push(Stmt::SelectUserByUsername { uid });
    let ui = match s.user_index_by_name(uid) {
        Some(i) => i,
        None => {
            return Outcome { trace: tr, notify: false };
        },
    };
    let udb = s.users[ui].id;
    tr.push(Stmt::SelectMostPopularTag { user_id: udb });
    match s.most_popular_tag(udb) {
        Some(tid) => {
            tr.push(Stmt::SelectTagById { tag_id: tid });
        },
        None => {},
    }
    tr.push(Stmt::SelectKeystore { kind: CounterKind::StoriesSubmitted, user_id: udb });
    tr.push(Stmt::SelectKeystore { kind: CounterKind::CommentsPosted, user_id: udb });
    tr.push(Stmt::SelectHat { user_id: udb });
    Outcome { trace: tr, notify: true }
}

} // verus!
