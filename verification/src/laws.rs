//! Laws relating sequences of handler transitions.
//!
//! Each proof function here states a property of the store transitions that
//! the handlers' contracts equate the handlers with, so the property carries
//! over to any sequence of handler calls.

use vstd::prelude::*;
use crate::num::{spec_inc_u64, HOTNESS_UNIT, Ratio};
use crate::stmt::CounterKind;
use crate::store::{StoreView, StoryRowV, KeystoreRow, UserRow, find_story, find_story_from,
    find_keystore, find_keystore_from, count_story_comments, lemma_find_keystore_from,
    lemma_count_story_comments_bounds};
use crate::trans::{story_vote_post, comment_vote_post, submit_post, comment_post_post,
    keystore_bumped, stale_confidence, submitted_story};

verus! {

/// A vote sequence: each entry is the voting user and the direction.
pub open spec fn count_ups(vs: Seq<(u64, bool)>) -> int
    decreases vs.len(),
{
    if vs.len() == 0 {
        0
    } else {
        count_ups(vs.drop_last()) + if vs.last().1 {
            1int
        } else {
            0int
        }
    }
}

/// How many entries of a vote sequence point down.
pub open spec fn count_downs(vs: Seq<(u64, bool)>) -> int
    decreases vs.len(),
{
    if vs.len() == 0 {
        0
    } else {
        count_downs(vs.drop_last()) + if vs.last().1 {
            0int
        } else {
            1int
        }
    }
}

/// The counts are bounded by the length.
pub proof fn lemma_vote_count_bounds(vs: Seq<(u64, bool)>)
    ensures
        0 <= count_ups(vs) <= vs.len(),
        0 <= count_downs(vs) <= vs.len(),
        count_ups(vs) + count_downs(vs) == vs.len(),
    decreases vs.len(),
{
    if vs.len() > 0 {
        lemma_vote_count_bounds(vs.drop_last());
    }
}

/// The store after a sequence of story votes on the story with the given
/// short id, each processed by the story-vote transition.
pub open spec fn apply_story_votes(s: StoreView, short: Seq<u8>, vs: Seq<(u64, bool)>) -> StoreView
    decreases vs.len(),
{
    if vs.len() == 0 {
        s
    } else {
        let prev = apply_story_votes(s, short, vs.drop_last());
        let v = vs.last();
        match find_story(prev.stories, short) {
            Some(i) => story_vote_post(prev, v.0, i, v.1),
            None => prev,
        }
    }
}

/// Searching two story tables whose short ids agree pointwise finds the same
/// index.
pub proof fn lemma_find_story_pointwise(a: Seq<StoryRowV>, b: Seq<StoryRowV>, short: Seq<u8>, i: int)
    requires
        0 <= i <= a.len(),
        a.len() == b.len(),
        forall|j: int| 0 <= j < a.len() ==> (#[trigger] a[j]).short_id == b[j].short_id,
    ensures
        find_story_from(a, short, i) == find_story_from(b, short, i),
    decreases a.len() - i,
{
    if i < a.len() && a[i].short_id != short {
        lemma_find_story_pointwise(a, b, short, i + 1);
    }
}

/// After any interleaving of N up-votes and M down-votes on one story,
/// processed sequentially, the story's up-vote counter has grown by N, the
/// down-vote counter by M, and the hotness has moved N − M units down, as
/// long as no counter saturates.  Every other story is untouched.
pub proof fn lemma_sequential_story_votes(s: StoreView, short: Seq<u8>, vs: Seq<(u64, bool)>)
    requires
        find_story(s.stories, short) is Some,
        s.stories[find_story(s.stories, short)->0].upvotes + count_ups(vs) <= u64::MAX,
        s.stories[find_story(s.stories, short)->0].downvotes + count_downs(vs) <= u64::MAX,
        i64::MIN <= s.stories[find_story(s.stories, short)->0].hotness - count_ups(vs)
            * HOTNESS_UNIT,
        s.stories[find_story(s.stories, short)->0].hotness + count_downs(vs) * HOTNESS_UNIT
            <= i64::MAX,
    ensures
        ({
            let t = apply_story_votes(s, short, vs);
            let idx = find_story(s.stories, short)->0;
            &&& t.stories.len() == s.stories.len()
            &&& forall|j: int|
                0 <= j < s.stories.len() ==> (#[trigger] t.stories[j]).short_id
                    == s.stories[j].short_id
            &&& find_story(t.stories, short) == find_story(s.stories, short)
            &&& t.stories[idx].upvotes == s.stories[idx].upvotes + count_ups(vs)
            &&& t.stories[idx].downvotes == s.stories[idx].downvotes + count_downs(vs)
            &&& t.stories[idx].hotness == s.stories[idx].hotness - (count_ups(vs) - count_downs(
                vs,
            )) * HOTNESS_UNIT
            &&& forall|j: int|
                0 <= j < s.stories.len() && j != idx ==> #[trigger] t.stories[j] == s.stories[j]
        }),
    decreases vs.len(),
{
    lemma_vote_count_bounds(vs);
    if vs.len() > 0 {
        lemma_vote_count_bounds(vs.drop_last());
        lemma_sequential_story_votes(s, short, vs.drop_last());
        let prev = apply_story_votes(s, short, vs.drop_last());
        lemma_find_story_pointwise(s.stories, prev.stories, short, 0);
        crate::store::lemma_find_story_from(s.stories, short, 0);
        let idx = find_story(s.stories, short)->0;
        let v = vs.last();
        let row = prev.stories[idx];
        let cu = count_ups(vs.drop_last());
        let cd = count_downs(vs.drop_last());
        let t = apply_story_votes(s, short, vs);
        assert(t == story_vote_post(prev, v.0, idx, v.1));
        assert(row.upvotes == s.stories[idx].upvotes + cu);
        assert(row.downvotes == s.stories[idx].downvotes + cd);
        assert(row.hotness == s.stories[idx].hotness - (cu - cd) * HOTNESS_UNIT);
        if v.1 {
            assert(count_ups(vs) == cu + 1 && count_downs(vs) == cd);
            assert(row.upvotes < u64::MAX);
            assert(row.hotness - HOTNESS_UNIT == s.stories[idx].hotness - (count_ups(vs)
                - count_downs(vs)) * HOTNESS_UNIT);
            assert(row.hotness >= i64::MIN + HOTNESS_UNIT) by {
                assert((cu - cd) * HOTNESS_UNIT <= (count_ups(vs) - 1) * HOTNESS_UNIT + cd * 0);
            }
        } else {
            assert(count_ups(vs) == cu && count_downs(vs) == cd + 1);
            assert(row.downvotes < u64::MAX);
            assert(row.hotness + HOTNESS_UNIT == s.stories[idx].hotness - (count_ups(vs)
                - count_downs(vs)) * HOTNESS_UNIT);
            assert(row.hotness <= i64::MAX - HOTNESS_UNIT) by {
                assert((cu - cd) * HOTNESS_UNIT >= -((count_downs(vs) - 1) * HOTNESS_UNIT));
            }
        }
        assert forall|j: int|
            0 <= j < s.stories.len() implies (#[trigger] t.stories[j]).short_id
            == s.stories[j].short_id by {
            if j != idx {
                assert(t.stories[j] == prev.stories[j]);
            }
        }
        lemma_find_story_pointwise(s.stories, t.stories, short, 0);
    }
}

/// After a comment vote, the stored confidence is exactly the ratio of the
/// vote counts the handler observed: numerator the up-votes, denominator the
/// sum of both, which is positive because every comment is created with one
/// up-vote.
pub proof fn lemma_comment_vote_confidence(s: StoreView, user: u64, cidx: int, sidx: int, up: bool)
    requires
        s.wf(),
        0 <= cidx < s.comments.len(),
        0 <= sidx < s.stories.len(),
        s.comments[cidx].upvotes + s.comments[cidx].downvotes <= u64::MAX,
    ensures
        ({
            let c = comment_vote_post(s, user, cidx, sidx, up).comments[cidx];
            let pre = s.comments[cidx];
            &&& c.confidence.num == pre.upvotes
            &&& c.confidence.den == pre.upvotes + pre.downvotes
            &&& c.confidence.den > 0
            &&& c.confidence.wf()
        }),
{
    assert(s.comments[cidx].upvotes >= 1);
}

/// Posting a comment sets the story's comment counter to exactly the number
/// of comment rows of that story at that instant, the fresh row included.
pub proof fn lemma_comment_count_exact(
    s: StoreView,
    user: u64,
    short: Seq<u8>,
    sidx: int,
    parent: Option<u64>,
    thread: Option<u64>,
    now: i64,
)
    requires
        s.wf(),
        0 <= sidx < s.stories.len(),
        s.comments.len() < u64::MAX,
    ensures
        ({
            let t = comment_post_post(s, user, short, sidx, parent, thread, now);
            t.stories[sidx].comments_count == count_story_comments(t.comments, s.stories[sidx].id)
        }),
{
    let t = comment_post_post(s, user, short, sidx, parent, thread, now);
    lemma_count_story_comments_bounds(t.comments, s.stories[sidx].id);
}

/// Searching a keystore whose row at `m` matches, with no match before it
/// from `i` on, finds exactly `m`.
pub proof fn lemma_find_keystore_at(t: Seq<KeystoreRow>, kind: CounterKind, user_id: u64, i: int, m: int)
    requires
        0 <= i <= m < t.len(),
        t[m].kind == kind && t[m].user_id == user_id,
        forall|j: int| i <= j < m ==> !((#[trigger] t[j]).kind == kind && t[j].user_id == user_id),
    ensures
        find_keystore_from(t, kind, user_id, i) == Some(m),
    decreases m - i,
{
    if i < m {
        lemma_find_keystore_at(t, kind, user_id, i + 1, m);
    }
}

/// The keystore upsert leaves the (kind, user) counter findable, one higher
/// than before, or at one when it was absent; no other counter moves.
pub proof fn lemma_keystore_bumped_value(ks: Seq<KeystoreRow>, kind: CounterKind, user_id: u64)
    ensures
        ({
            let t = keystore_bumped(ks, kind, user_id);
            match find_keystore(ks, kind, user_id) {
                Some(i) => find_keystore(t, kind, user_id) == Some(i) && t[i].value == spec_inc_u64(
                    ks[i].value,
                ),
                None => find_keystore(t, kind, user_id) == Some(ks.len() as int) && t[ks.len()
                    as int].value == 1,
            }
        }),
{
    let t = keystore_bumped(ks, kind, user_id);
    lemma_find_keystore_from(ks, kind, user_id, 0);
    match find_keystore(ks, kind, user_id) {
        Some(i) => {
            lemma_find_keystore_at(t, kind, user_id, 0, i);
        },
        None => {
            lemma_find_keystore_at(t, kind, user_id, 0, ks.len() as int);
        },
    }
}

/// Submitting a story creates exactly one story row (with one up-vote and
/// the seed hotness), one tagging row and one self-vote row, and moves the
/// submitter's story counter up by exactly one, seeding it at one if absent.
pub proof fn lemma_submit_effects(
    s: StoreView,
    user: u64,
    short: Seq<u8>,
    title: Seq<u8>,
    now: i64,
    tag_idx: int,
    priming: bool,
)
    requires
        s.wf(),
        s.next_story_id < u64::MAX,
        0 <= tag_idx < s.tags.len(),
        match find_keystore(s.keystores, CounterKind::StoriesSubmitted, user) {
            Some(i) => s.keystores[i].value < u64::MAX,
            None => true,
        },
    ensures
        ({
            let t = submit_post(s, user, short, title, now, tag_idx, priming);
            &&& t.stories.len() == s.stories.len() + 1
            &&& t.stories.drop_last() == s.stories
            &&& t.stories.last() == (StoryRowV {
                hotness: t.stories.last().hotness,
                ..submitted_story(s, user, short, title, now)
            })
            &&& t.stories.last().upvotes == 1
            &&& t.stories.last().downvotes == 0
            &&& t.taggings.len() == s.taggings.len() + 1
            &&& t.taggings.drop_last() == s.taggings
            &&& t.taggings.last().story_id == s.next_story_id
            &&& t.taggings.last().tag_id == s.tags[tag_idx].id
            &&& t.votes.len() == s.votes.len() + 1
            &&& t.votes.drop_last() == s.votes
            &&& t.votes.last().user_id == user
            &&& t.votes.last().story_id == s.next_story_id
            &&& t.votes.last().comment_id is None
            &&& t.votes.last().up
            &&& match find_keystore(s.keystores, CounterKind::StoriesSubmitted, user) {
                Some(i) => find_keystore(t.keystores, CounterKind::StoriesSubmitted, user) == Some(
                    i,
                ) && t.keystores[i].value == s.keystores[i].value + 1,
                None => find_keystore(t.keystores, CounterKind::StoriesSubmitted, user) == Some(
                    s.keystores.len() as int,
                ) && t.keystores[s.keystores.len() as int].value == 1,
            }
        }),
{
    let t = submit_post(s, user, short, title, now, tag_idx, priming);
    lemma_keystore_bumped_value(s.keystores, CounterKind::StoriesSubmitted, user);
    lemma_find_keystore_from(s.keystores, CounterKind::StoriesSubmitted, user, 0);
    assert(t.stories.drop_last() =~= s.stories);
    assert(t.taggings.drop_last() =~= s.taggings);
    assert(t.votes.drop_last() =~= s.votes);
}

/// Logging in twice is the same as logging in once: the user row is created
/// on first sight of the username, and a later login finds it and changes
/// nothing.
pub proof fn lemma_login_idempotent(s: StoreView, uid: u64)
    ensures
        crate::trans::login_post(crate::trans::login_post(s, uid), uid) == crate::trans::login_post(
            s,
            uid,
        ),
{
    let t = crate::trans::login_post(s, uid);
    crate::store::lemma_find_user_by_name_from(s.users, uid, 0);
    if crate::store::find_user_by_name(s.users, uid) is None {
        lemma_find_user_by_name_at(t.users, uid, 0, s.users.len() as int);
    }
}

/// Searching a user table whose row at `m` carries the username, with no
/// match before it from `i` on, finds exactly `m`.
proof fn lemma_find_user_by_name_at(us: Seq<UserRow>, uid: u64, i: int, m: int)
    requires
        0 <= i <= m < us.len(),
        us[m].name_uid == uid,
        forall|j: int| i <= j < m ==> (#[trigger] us[j]).name_uid != uid,
    ensures
        crate::store::find_user_by_name_from(us, uid, i) == Some(m),
    decreases m - i,
{
    if i < m {
        lemma_find_user_by_name_at(us, uid, i + 1, m);
    }
}

/// The stale-ratio form of the confidence write, as a rational identity:
/// numerator and denominator are exactly the observed counts.
pub proof fn lemma_stale_confidence_exact(c: crate::store::CommentRowV)
    requires
        c.upvotes >= 1,
        c.upvotes + c.downvotes <= u64::MAX,
    ensures
        stale_confidence(c) == (Ratio { num: c.upvotes, den: (c.upvotes + c.downvotes) as u64 }),
        stale_confidence(c).wf(),
{
}

} // verus!
