//! The store transitions of the write handlers, as spec functions.
//!
//! Every write handler's contract equates the store after the call with one
//! of these functions of the store before it, so that laws about sequences of
//! requests can be stated and proved purely at the specification level.

use vstd::prelude::*;
use crate::num::{
    spec_inc_i64, spec_dec_i64, spec_inc_u64, spec_sat_add_u64, spec_hot_down, spec_hot_up, Ratio,
    HOTNESS_SUBMIT_SEED, HOTNESS_SUBMIT_REWRITE,
};
use crate::stmt::CounterKind;
use crate::store::{
    StoreView, UserRow, StoryRowV, CommentRowV, VoteRow, TaggingRow, KeystoreRow, RibbonRow,
    find_keystore, find_user_by_name, find_ribbon, find_story_comment, count_story_comments,
    lemma_find_keystore_from, lemma_find_user_by_name_from, lemma_find_ribbon_from,
};

verus! {

/// All users with the given database id (at most one in a well-formed store)
/// get their karma moved one step in the direction of the vote.
pub open spec fn karma_bumped(us: Seq<UserRow>, author: u64, up: bool) -> Seq<UserRow> {
    us.map_values(
        |u: UserRow|
            if u.id == author {
                UserRow {
                    karma: if up {
                        spec_inc_i64(u.karma)
                    } else {
                        spec_dec_i64(u.karma)
                    },
                    ..u
                }
            } else {
                u
            },
    )
}

/// A story row after one vote: the matching counter goes up by one and the
/// hotness moves one unit against the vote direction (the frontpage orders by
/// ascending hotness, so an up-vote lowers the score).
pub open spec fn story_voted(r: StoryRowV, up: bool) -> StoryRowV {
    StoryRowV {
        upvotes: if up {
            spec_inc_u64(r.upvotes)
        } else {
            r.upvotes
        },
        downvotes: if up {
            r.downvotes
        } else {
            spec_inc_u64(r.downvotes)
        },
        hotness: if up {
            spec_hot_down(r.hotness)
        } else {
            spec_hot_up(r.hotness)
        },
        ..r
    }
}

/// The confidence written by a comment vote: the ratio of the counts the
/// handler read *before* bumping them — the emulated application computes
/// the ratio from the stale row it loaded.
pub open spec fn stale_confidence(r: CommentRowV) -> Ratio {
    Ratio { num: r.upvotes, den: spec_sat_add_u64(r.upvotes, r.downvotes) }
}

/// A comment row after one vote.
pub open spec fn comment_voted(r: CommentRowV, up: bool) -> CommentRowV {
    CommentRowV {
        upvotes: if up {
            spec_inc_u64(r.upvotes)
        } else {
            r.upvotes
        },
        downvotes: if up {
            r.downvotes
        } else {
            spec_inc_u64(r.downvotes)
        },
        confidence: stale_confidence(r),
        ..r
    }
}

/// The store after a story vote on the story at index `idx`.
pub open spec fn story_vote_post(s: StoreView, user: u64, idx: int, up: bool) -> StoreView {
    let row = s.stories[idx];
    StoreView {
        votes: s.votes.push(
            VoteRow { user_id: user, story_id: row.id, comment_id: None, up },
        ),
        users: karma_bumped(s.users, row.user_id, up),
        stories: s.stories.update(idx, story_voted(row, up)),
        ..s
    }
}

/// The store after a comment vote on the comment at index `cidx`, whose story
/// sits at index `sidx`.
pub open spec fn comment_vote_post(s: StoreView, user: u64, cidx: int, sidx: int, up: bool) -> StoreView {
    let c = s.comments[cidx];
    let st = s.stories[sidx];
    StoreView {
        votes: s.votes.push(
            VoteRow { user_id: user, story_id: c.story_id, comment_id: Some(c.id), up },
        ),
        users: karma_bumped(s.users, c.user_id, up),
        comments: s.comments.update(cidx, comment_voted(c, up)),
        stories: s.stories.update(sidx, story_voted(st, up)),
        ..s
    }
}

/// The keystore after an upsert that increments the (kind, user) counter,
/// inserting it at one if absent.
pub open spec fn keystore_bumped(ks: Seq<KeystoreRow>, kind: CounterKind, user_id: u64) -> Seq<
    KeystoreRow,
> {
    match find_keystore(ks, kind, user_id) {
        Some(i) => ks.update(i, KeystoreRow { value: spec_inc_u64(ks[i].value), ..ks[i] }),
        None => ks.push(KeystoreRow { kind, user_id, value: 1 }),
    }
}

/// The store after a login request: the user row is created if the username
/// does not resolve yet, and nothing else changes.
pub open spec fn login_post(s: StoreView, uid: u64) -> StoreView {
    if find_user_by_name(s.users, uid) is Some {
        s
    } else {
        StoreView {
            users: s.users.push(UserRow { id: s.next_user_id, name_uid: uid, karma: 0 }),
            next_user_id: (s.next_user_id + 1) as u64,
            ..s
        }
    }
}

/// The new story row a submit inserts.
pub open spec fn submitted_story(s: StoreView, user: u64, short: Seq<u8>, title: Seq<u8>, now: i64) -> StoryRowV {
    StoryRowV {
        id: s.next_story_id,
        short_id: short,
        user_id: user,
        title: title,
        upvotes: 1,
        downvotes: 0,
        hotness: HOTNESS_SUBMIT_SEED,
        comments_count: 0,
        merged_into: None,
        expired: false,
        created_at: now,
    }
}

/// The store after a story submission.  A non-priming run overwrites the
/// fresh story's hotness a second time with a fixed constant, mimicking a
/// double write of the original application.
pub open spec fn submit_post(
    s: StoreView,
    user: u64,
    short: Seq<u8>,
    title: Seq<u8>,
    now: i64,
    tag_idx: int,
    priming: bool,
) -> StoreView {
    let story = StoryRowV {
        hotness: if priming {
            HOTNESS_SUBMIT_SEED
        } else {
            HOTNESS_SUBMIT_REWRITE
        },
        ..submitted_story(s, user, short, title, now)
    };
    StoreView {
        stories: s.stories.push(story),
        taggings: s.taggings.push(TaggingRow { story_id: s.next_story_id, tag_id: s.tags[tag_idx].id }),
        keystores: keystore_bumped(s.keystores, CounterKind::StoriesSubmitted, user),
        votes: s.votes.push(
            VoteRow { user_id: user, story_id: s.next_story_id, comment_id: None, up: true },
        ),
        next_story_id: (s.next_story_id + 1) as u64,
        ..s
    }
}

/// The new comment row a comment post inserts.  It inherits the thread id of
/// the resolved parent, if one was found.
pub open spec fn posted_comment(
    s: StoreView,
    user: u64,
    short: Seq<u8>,
    story_id: u64,
    parent: Option<u64>,
    thread: Option<u64>,
    now: i64,
) -> CommentRowV {
    CommentRowV {
        id: s.next_comment_id,
        short_id: short,
        story_id: story_id,
        user_id: user,
        parent: parent,
        thread: thread,
        upvotes: 1,
        downvotes: 0,
        confidence: Ratio::spec_seed(),
        deleted: false,
        moderated: false,
        created_at: now,
        updated_at: now,
    }
}

/// What a requested parent comment resolves to: its id and its thread id, or
/// nothing when no parent was named or the named one is missing from the
/// story (worth a log line, then the comment is posted at top level).
pub open spec fn resolved_parent(
    cs: Seq<CommentRowV>,
    story_id: u64,
    pshort: Option<Seq<u8>>,
) -> Option<(u64, Option<u64>)> {
    match pshort {
        Some(ps) => match find_story_comment(cs, story_id, ps) {
            Some(i) => Some((cs[i].id, cs[i].thread)),
            None => None,
        },
        None => None,
    }
}

/// The parent comment id a resolution yields.
pub open spec fn parent_id_of(rp: Option<(u64, Option<u64>)>) -> Option<u64> {
    match rp {
        Some(p) => Some(p.0),
        None => None,
    }
}

/// The thread id a resolution yields.
pub open spec fn thread_of(rp: Option<(u64, Option<u64>)>) -> Option<u64> {
    match rp {
        Some(p) => p.1,
        None => None,
    }
}

/// The store after a comment post on the story at index `sidx`.  The story's
/// comment count is recomputed from the comment table (new row included) and
/// its hotness drops by one fixed unit.
pub open spec fn comment_post_post(
    s: StoreView,
    user: u64,
    short: Seq<u8>,
    sidx: int,
    parent: Option<u64>,
    thread: Option<u64>,
    now: i64,
) -> StoreView {
    let st = s.stories[sidx];
    let comments = s.comments.push(posted_comment(s, user, short, st.id, parent, thread, now));
    let count = count_story_comments(comments, st.id);
    StoreView {
        comments: comments,
        votes: s.votes.push(
            VoteRow {
                user_id: user,
                story_id: st.id,
                comment_id: Some(s.next_comment_id),
                up: true,
            },
        ),
        stories: s.stories.update(
            sidx,
            StoryRowV {
                comments_count: count as u64,
                hotness: spec_hot_down(st.hotness),
                ..st
            },
        ),
        keystores: keystore_bumped(s.keystores, CounterKind::CommentsPosted, user),
        next_comment_id: (s.next_comment_id + 1) as u64,
        ..s
    }
}

/// The store after a story view by a logged-in user: the (user, story) read
/// ribbon is stamped `now`, created first if absent.
pub open spec fn ribbon_post(s: StoreView, user: u64, story_id: u64, now: i64) -> StoreView {
    match find_ribbon(s.ribbons, user, story_id) {
        Some(i) => StoreView {
            ribbons: s.ribbons.update(i, RibbonRow { updated_at: now, ..s.ribbons[i] }),
            ..s
        },
        None => StoreView {
            ribbons: s.ribbons.push(
                RibbonRow {
                    id: s.next_ribbon_id,
                    user_id: user,
                    story_id: story_id,
                    created_at: now,
                    updated_at: now,
                },
            ),
            next_ribbon_id: (s.next_ribbon_id + 1) as u64,
            ..s
        },
    }
}

/// Bumping karma changes no user's identity.
pub proof fn lemma_karma_bumped_ids(us: Seq<UserRow>, author: u64, up: bool)
    ensures
        karma_bumped(us, author, up).len() == us.len(),
        forall|i: int|
            0 <= i < us.len() ==> (#[trigger] karma_bumped(us, author, up)[i]).id == us[i].id
                && karma_bumped(us, author, up)[i].name_uid == us[i].name_uid,
{
}

/// A story vote preserves well-formedness.
pub proof fn lemma_story_vote_post_wf(s: StoreView, user: u64, idx: int, up: bool)
    requires
        s.wf(),
        0 <= idx < s.stories.len(),
    ensures
        story_vote_post(s, user, idx, up).wf(),
{
    let t = story_vote_post(s, user, idx, up);
    lemma_karma_bumped_ids(s.users, s.stories[idx].user_id, up);
    assert(forall|i: int| 0 <= i < t.stories.len() ==> (#[trigger] t.stories[i]).id == s.stories[i].id);
}

/// A comment vote preserves well-formedness.
pub proof fn lemma_comment_vote_post_wf(s: StoreView, user: u64, cidx: int, sidx: int, up: bool)
    requires
        s.wf(),
        0 <= cidx < s.comments.len(),
        0 <= sidx < s.stories.len(),
    ensures
        comment_vote_post(s, user, cidx, sidx, up).wf(),
{
    let t = comment_vote_post(s, user, cidx, sidx, up);
    lemma_karma_bumped_ids(s.users, s.comments[cidx].user_id, up);
    assert(forall|i: int| 0 <= i < t.stories.len() ==> (#[trigger] t.stories[i]).id == s.stories[i].id);
    assert(forall|i: int| 0 <= i < t.comments.len() ==> (#[trigger] t.comments[i]).id == s.comments[i].id);
    assert(forall|i: int|
        0 <= i < t.comments.len() ==> (#[trigger] t.comments[i]).upvotes >= s.comments[i].upvotes);
    assert(t.comments[cidx].confidence.wf()) by {
        assert(s.comments[cidx].upvotes >= 1);
    }
}

/// A keystore upsert keeps the (kind, user) keys unique.
pub proof fn lemma_keystore_bumped_wf(ks: Seq<KeystoreRow>, kind: CounterKind, user_id: u64)
    requires
        forall|i: int, j: int|
            0 <= i < j < ks.len() ==> !((#[trigger] ks[i]).kind == (#[trigger] ks[j]).kind
                && ks[i].user_id == ks[j].user_id),
    ensures
        forall|i: int, j: int|
            0 <= i < j < keystore_bumped(ks, kind, user_id).len() ==> !((#[trigger] keystore_bumped(
                ks,
                kind,
                user_id,
            )[i]).kind == (#[trigger] keystore_bumped(ks, kind, user_id)[j]).kind
                && keystore_bumped(ks, kind, user_id)[i].user_id == keystore_bumped(
                ks,
                kind,
                user_id,
            )[j].user_id),
{
    let t = keystore_bumped(ks, kind, user_id);
    lemma_find_keystore_from(ks, kind, user_id, 0);
    match find_keystore(ks, kind, user_id) {
        Some(i) => {
            assert(forall|j: int|
                0 <= j < t.len() ==> (#[trigger] t[j]).kind == ks[j].kind && t[j].user_id
                    == ks[j].user_id);
        },
        None => {
            lemma_find_keystore_from(ks, kind, user_id, 0);
        },
    }
}

/// A login preserves well-formedness.
pub proof fn lemma_login_post_wf(s: StoreView, uid: u64)
    requires
        s.wf(),
        s.next_user_id < u64::MAX,
    ensures
        login_post(s, uid).wf(),
{
    if find_user_by_name(s.users, uid) is None {
        lemma_find_user_by_name_from(s.users, uid, 0);
    }
}

/// A submission preserves well-formedness.
pub proof fn lemma_submit_post_wf(
    s: StoreView,
    user: u64,
    short: Seq<u8>,
    title: Seq<u8>,
    now: i64,
    tag_idx: int,
    priming: bool,
)
    requires
        s.wf(),
        s.next_story_id < u64::MAX,
        0 <= tag_idx < s.tags.len(),
    ensures
        submit_post(s, user, short, title, now, tag_idx, priming).wf(),
{
    lemma_keystore_bumped_wf(s.keystores, CounterKind::StoriesSubmitted, user);
}

/// A comment post preserves well-formedness.
pub proof fn lemma_comment_post_post_wf(
    s: StoreView,
    user: u64,
    short: Seq<u8>,
    sidx: int,
    parent: Option<u64>,
    thread: Option<u64>,
    now: i64,
)
    requires
        s.wf(),
        s.next_comment_id < u64::MAX,
        0 <= sidx < s.stories.len(),
    ensures
        comment_post_post(s, user, short, sidx, parent, thread, now).wf(),
{
    let t = comment_post_post(s, user, short, sidx, parent, thread, now);
    lemma_keystore_bumped_wf(s.keystores, CounterKind::CommentsPosted, user);
    assert(forall|i: int| 0 <= i < t.stories.len() ==> (#[trigger] t.stories[i]).id == s.stories[i].id);
    assert(t.comments[t.comments.len() - 1].confidence.wf());
}

/// Stamping a read ribbon preserves well-formedness.
pub proof fn lemma_ribbon_post_wf(s: StoreView, user: u64, story_id: u64, now: i64)
    requires
        s.wf(),
        s.next_ribbon_id < u64::MAX,
    ensures
        ribbon_post(s, user, story_id, now).wf(),
{
    lemma_find_ribbon_from(s.ribbons, user, story_id, 0);
    match find_ribbon(s.ribbons, user, story_id) {
        Some(i) => {
            let t = ribbon_post(s, user, story_id, now);
            assert(forall|j: int|
                0 <= j < t.ribbons.len() ==> (#[trigger] t.ribbons[j]).id == s.ribbons[j].id
                    && t.ribbons[j].user_id == s.ribbons[j].user_id && t.ribbons[j].story_id
                    == s.ribbons[j].story_id);
        },
        None => {
            lemma_find_ribbon_from(s.ribbons, user, story_id, 0);
        },
    }
}

} // verus!
