//! The two vote handlers.
//!
//! A vote inserts a vote row unconditionally — the original application does
//! not check for duplicate votes, and that gap is preserved deliberately —
//! then moves the author's karma by one, and rewrites the derived scores: a
//! comment vote recomputes the comment's confidence from the counts it read
//! (before bumping them), and both paths overwrite the story's hotness by one
//! fixed unit against the vote direction.

use vstd::prelude::*;
use crate::num::{inc_u64, inc_i64, dec_i64, hot_down, hot_up, sat_add_u64, Ratio, spec_hot_down,
    spec_hot_up};
use crate::request::{VoteDir, Fault, Outcome};
use crate::stmt::Stmt;
use crate::store::{Store, StoreView, UserRow, VoteRow, find_story, find_comment, find_story_by_id,
    clone_bytes};
use crate::trans::{karma_bumped, story_vote_post, comment_vote_post, stale_confidence,
    lemma_story_vote_post_wf, lemma_comment_vote_post_wf};

verus! {

/// Move the karma of every user with the given id (at most one in a
/// well-formed store) one step in the vote's direction.
pub fn bump_karma(users: &mut Vec<UserRow>, author: u64, up: bool)
    ensures
        final(users)@ == karma_bumped(old(users)@, author, up),
{
    let ghost u0 = users@;
    let n = users.len();
    let mut i: usize = 0;
    while i < n
        invariant
            i <= n,
            users@.len() == u0.len(),
            n == u0.len(),
            forall|j: int| 0 <= j < i ==> users@[j] == karma_bumped(u0, author, up)[j],
            forall|j: int| i <= j < u0.len() ==> users@[j] == u0[j],
        decreases n - i,
    {
        if users[i].id == author {
            let k = users[i].karma;
            users[i].karma = if up {
                inc_i64(k)
            } else {
                dec_i64(k)
            };
        }
        i += 1;
    }
    proof {
        assert(users@ =~= karma_bumped(u0, author, up));
    }
}

/// The exact statement trace of a story vote, relative to the store it ran
/// against.
pub open spec fn story_vote_trace_ok(
    tr: Seq<Stmt>,
    s: StoreView,
    user: u64,
    short: Seq<u8>,
    idx: int,
    up: bool,
) -> bool {
    let row = s.stories[idx];
    &&& tr.len() == 8
    &&& (tr[0] matches Stmt::SelectStoryByShortId { short_id } && short_id@ == short)
    &&& tr[1] == (Stmt::SelectStoryVote { user_id: user, story_id: row.id })
    &&& tr[2] == (Stmt::InsertStoryVote { user_id: user, story_id: row.id, up })
    &&& tr[3] == (Stmt::UpdateKarma { user_id: row.user_id, up })
    &&& tr[4] == (Stmt::SelectStoryTags { story_id: row.id })
    &&& tr[5] == (Stmt::SelectCommentKarma { story_id: row.id })
    &&& tr[6] == (Stmt::SelectMergedStories { story_id: row.id })
    &&& tr[7] == (Stmt::UpdateStoryVotes {
        story_id: row.id,
        up,
        hotness: if up {
            spec_hot_down(row.hotness)
        } else {
            spec_hot_up(row.hotness)
        },
    })
}

/// Vote on a story, identified by its short id.
pub fn handle_story_vote(
    s: &mut Store,
    acting: Option<u64>,
    short: &Vec<u8>,
    dir: VoteDir,
) -> (r: Result<Outcome, Fault>)
    requires
        old(s)@.wf(),
    ensures
        final(s)@.wf(),
        match r {
            Ok(out) => {
                let fs = find_story(old(s)@.stories, short@);
                &&& acting is Some
                &&& fs is Some
                &&& final(s)@ == story_vote_post(old(s)@, acting->0, fs->0, dir is Up)
                &&& !out.notify
                &&& story_vote_trace_ok(out.trace@, old(s)@, acting->0, short@, fs->0, dir is Up)
            },
            Err(f) => {
                &&& final(s)@ == old(s)@
                &&& if acting is None {
                    f == Fault::NoActingUser
                } else {
                    find_story(old(s)@.stories, short@) is None && f == Fault::UnknownStory
                }
            },
        },
{
    let user = match acting {
        Some(u) => u,
        None => {
            return Err(Fault::NoActingUser);
        },
    };
    let idx = match s.story_index(short) {
        Some(i) => i,
        None => {
            return Err(Fault::UnknownStory);
        },
    };
    let up = match dir {
        VoteDir::Up => true,
        VoteDir::Down => false,
    };
    let story_id = s.stories[idx].id;
    let author = s.stories[idx].user_id;
    let hot = s.stories[idx].hotness;
    let new_hot = if up {
        hot_down(hot)
    } else {
        hot_up(hot)
    };

    let mut tr: Vec<Stmt> = Vec::new();
    tr.push(Stmt::SelectStoryByShortId { short_id: clone_bytes(short) });
    tr.push(Stmt::SelectStoryVote { user_id: user, story_id });
    tr.push(Stmt::InsertStoryVote { user_id: user, story_id, up });
    tr.push(Stmt::UpdateKarma { user_id: author, up });
    tr.push(Stmt::SelectStoryTags { story_id });
    tr.push(Stmt::SelectCommentKarma { story_id });
    tr.push(Stmt::SelectMergedStories { story_id });
    tr.push(Stmt::UpdateStoryVotes { story_id, up, hotness: new_hot });

    s.votes.push(VoteRow { user_id: user, story_id, comment_id: None, up });
    bump_karma(&mut s.users, author, up);
    if up {
        let v = s.stories[idx].upvotes;
        s.stories[idx].upvotes = inc_u64(v);
    } else {
        let v = s.stories[idx].downvotes;
        s.stories[idx].downvotes = inc_u64(v);
    }
    s.stories[idx].hotness = new_hot;

    proof {
        let t = story_vote_post(old(s)@, user, idx as int, up);
        assert forall|j: int| 0 <= j < s@.stories.len() implies s@.stories[j] == t.stories[j] by {
            if j == idx {
                assert(s@.stories[j] =~= t.stories[j]);
            }
        }
        assert(s@.stories =~= t.stories);
        assert(s@.votes =~= t.votes);
        assert(s@ =~~= t);
        lemma_story_vote_post_wf(old(s)@, user, idx as int, up);
    }
    Ok(Outcome { trace: tr, notify: false })
}

/// The exact statement trace of a comment vote, relative to the store it ran
/// against.
pub open spec fn comment_vote_trace_ok(
    tr: Seq<Stmt>,
    s: StoreView,
    user: u64,
    short: Seq<u8>,
    cidx: int,
    sidx: int,
    up: bool,
) -> bool {
    let c = s.comments[cidx];
    let st = s.stories[sidx];
    &&& tr.len() == 10
    &&& (tr[0] matches Stmt::SelectCommentByShortId { short_id } && short_id@ == short)
    &&& tr[1] == (Stmt::SelectCommentVote { user_id: user, story_id: c.story_id, comment_id: c.id })
    &&& tr[2] == (Stmt::InsertCommentVote {
        user_id: user,
        story_id: c.story_id,
        comment_id: c.id,
        up,
    })
    &&& tr[3] == (Stmt::UpdateKarma { user_id: c.user_id, up })
    &&& tr[4] == (Stmt::UpdateCommentVotes { comment_id: c.id, up, confidence: stale_confidence(c) })
    &&& tr[5] == (Stmt::SelectStoryById { story_id: c.story_id })
    &&& tr[6] == (Stmt::SelectStoryTags { story_id: c.story_id })
    &&& tr[7] == (Stmt::SelectCommentKarma { story_id: c.story_id })
    &&& tr[8] == (Stmt::SelectMergedStories { story_id: c.story_id })
    &&& tr[9] == (Stmt::UpdateStoryVotes {
        story_id: c.story_id,
        up,
        hotness: if up {
            spec_hot_down(st.hotness)
        } else {
            spec_hot_up(st.hotness)
        },
    })
}

/// Vote on a comment, identified by its short id.  The story the comment
/// belongs to gets the same counter bump and hotness overwrite as a story
/// vote; the comment's confidence is rewritten with the ratio of the counts
/// the handler read before bumping them.
pub fn handle_comment_vote(
    s: &mut Store,
    acting: Option<u64>,
    short: &Vec<u8>,
    dir: VoteDir,
) -> (r: Result<Outcome, Fault>)
    requires
        old(s)@.wf(),
    ensures
        final(s)@.wf(),
        match r {
            Ok(out) => {
                let fc = find_comment(old(s)@.comments, short@);
                let fs = find_story_by_id(old(s)@.stories, old(s)@.comments[fc->0].story_id);
                &&& acting is Some
                &&& fc is Some
                &&& fs is Some
                &&& final(s)@ == comment_vote_post(old(s)@, acting->0, fc->0, fs->0, dir is Up)
                &&& !out.notify
                &&& comment_vote_trace_ok(
                    out.trace@,
                    old(s)@,
                    acting->0,
                    short@,
                    fc->0,
                    fs->0,
                    dir is Up,
                )
            },
            Err(f) => {
                let fc = find_comment(old(s)@.comments, short@);
                &&& final(s)@ == old(s)@
                &&& if acting is None {
                    f == Fault::NoActingUser
                } else if fc is None {
                    f == Fault::UnknownComment
                } else {
                    find_story_by_id(old(s)@.stories, old(s)@.comments[fc->0].story_id) is None
                        && f == Fault::UnknownStory
                }
            },
        },
{
    let user = match acting {
        Some(u) => u,
        None => {
            return Err(Fault::NoActingUser);
        },
    };
    let cidx = match s.comment_index(short) {
        Some(i) => i,
        None => {
            return Err(Fault::UnknownComment);
        },
    };
    let comment_id = s.comments[cidx].id;
    let story_id = s.comments[cidx].story_id;
    let author = s.comments[cidx].user_id;
    let c_up = s.comments[cidx].upvotes;
    let c_down = s.comments[cidx].downvotes;
    let sidx = match s.story_index_by_id(story_id) {
        Some(i) => i,
        None => {
            return Err(Fault::UnknownStory);
        },
    };
    let up = match dir {
        VoteDir::Up => true,
        VoteDir::Down => false,
    };
    let conf = Ratio { num: c_up, den: sat_add_u64(c_up, c_down) };
    let hot = s.stories[sidx].hotness;
    let new_hot = if up {
        hot_down(hot)
    } else {
        hot_up(hot)
    };

    let mut tr: Vec<Stmt> = Vec::new();
    tr.push(Stmt::SelectCommentByShortId { short_id: clone_bytes(short) });
    tr.push(Stmt::SelectCommentVote { user_id: user, story_id, comment_id });
    tr.push(Stmt::InsertCommentVote { user_id: user, story_id, comment_id, up });
    tr.push(Stmt::UpdateKarma { user_id: author, up });
    tr.push(Stmt::UpdateCommentVotes { comment_id, up, confidence: conf });
    tr.push(Stmt::SelectStoryById { story_id });
    tr.push(Stmt::SelectStoryTags { story_id });
    tr.push(Stmt::SelectCommentKarma { story_id });
    tr.push(Stmt::SelectMergedStories { story_id });
    tr.push(Stmt::UpdateStoryVotes { story_id, up, hotness: new_hot });

    s.votes.push(VoteRow { user_id: user, story_id, comment_id: Some(comment_id), up });
    bump_karma(&mut s.users, author, up);
    if up {
        s.comments[cidx].upvotes = inc_u64(c_up);
    } else {
        s.comments[cidx].downvotes = inc_u64(c_down);
    }
    s.comments[cidx].confidence = conf;
    if up {
        let v = s.stories[sidx].upvotes;
        s.stories[sidx].upvotes = inc_u64(v);
    } else {
        let v = s.stories[sidx].downvotes;
        s.stories[sidx].downvotes = inc_u64(v);
    }
    s.stories[sidx].hotness = new_hot;

    proof {
        let t = comment_vote_post(old(s)@, user, cidx as int, sidx as int, up);
        assert forall|j: int| 0 <= j < s@.comments.len() implies s@.comments[j] == t.comments[j] by {
            if j == cidx {
                assert(s@.comments[j] =~= t.comments[j]);
            }
        }
        assert(s@.comments =~= t.comments);
        assert forall|j: int| 0 <= j < s@.stories.len() implies s@.stories[j] == t.stories[j] by {
            if j == sidx {
                assert(s@.stories[j] =~= t.stories[j]);
            }
        }
        assert(s@.stories =~= t.stories);
        assert(s@.votes =~= t.votes);
        assert(s@ =~~= t);
        lemma_comment_vote_post_wf(old(s)@, user, cidx as int, sidx as int, up);
    }
    Ok(Outcome { trace: tr, notify: false })
}

} // verus!
