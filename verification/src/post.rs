//! The two content-creating handlers: submitting a story and posting a
//! comment.
//!
//! Both insert their row with fixed synthetic content, add a self-up-vote,
//! bump the author's activity counter through a keystore upsert, and rewrite
//! the story's hotness.  A non-priming run additionally issues the read
//! round-trips the original application performs, and a non-priming submit
//! overwrites the fresh story's hotness a second time with a fixed constant.

use vstd::prelude::*;
use crate::num::{inc_u64, Ratio, HOTNESS_SUBMIT_SEED, HOTNESS_SUBMIT_REWRITE, hot_down,
    spec_hot_down};
use crate::request::{Fault, Outcome};
use crate::stmt::{Stmt, CounterKind};
use crate::store::{Store, StoreView, StoryRow, CommentRow, VoteRow, TaggingRow, KeystoreRow,
    find_story, find_test_tag, find_keystore_from, find_keystore, count_story_comments,
    lemma_count_story_comments_bounds, clone_bytes};
use crate::trans::{keystore_bumped, submit_post, comment_post_post, resolved_parent, parent_id_of,
    thread_of, lemma_submit_post_wf, lemma_comment_post_post_wf};

verus! {

/// Increment the (kind, user) keystore counter, creating it at one if it is
/// absent — the upsert-with-increment of the keystore table.
pub fn upsert_keystore(ks: &mut Vec<KeystoreRow>, kind: CounterKind, user_id: u64)
    ensures
        final(ks)@ == keystore_bumped(old(ks)@, kind, user_id),
{
    let ghost k0 = ks@;
    let n = ks.len();
    let mut i: usize = 0;
    while i < n
        invariant
            i <= n,
            ks@ == k0,
            n == k0.len(),
            find_keystore_from(k0, kind, user_id, 0) == find_keystore_from(
                k0,
                kind,
                user_id,
                i as int,
            ),
        decreases n - i,
    {
        if ks[i].kind == kind && ks[i].user_id == user_id {
            let v = ks[i].value;
            ks[i].value = inc_u64(v);
            proof {
                assert(ks@ =~= keystore_bumped(k0, kind, user_id));
            }
            return ;
        }
        i += 1;
    }
    ks.push(KeystoreRow { kind, user_id, value: 1 });
    proof {
        assert(ks@ =~= keystore_bumped(k0, kind, user_id));
    }
}

/// The exact statement trace of a story submission.
pub open spec fn submit_trace_ok(
    tr: Seq<Stmt>,
    s: StoreView,
    user: u64,
    short: Seq<u8>,
    title: Seq<u8>,
    now: i64,
    priming: bool,
) -> bool {
    let np: int = if priming {
        0
    } else {
        1
    };
    let story_id = s.next_story_id;
    let tag_id = s.tags[find_test_tag(s.tags)->0].id;
    &&& tr.len() == 5 + 5 * np
    &&& tr[0] == Stmt::SelectActiveTestTag
    &&& (!priming ==> (tr[1] matches Stmt::SelectStoryShortIdFree { short_id } && short_id@
        == short))
    &&& (tr[1 + np] matches Stmt::InsertStory { now: n2, user_id, title: t2, short_id, hotness }
        && n2 == now && user_id == user && t2@ == title && short_id@ == short && hotness
        == HOTNESS_SUBMIT_SEED)
    &&& tr[2 + np] == (Stmt::InsertTagging { story_id, tag_id })
    &&& tr[3 + np] == (Stmt::UpsertKeystoreIncrement {
        kind: CounterKind::StoriesSubmitted,
        user_id: user,
    })
    &&& (!priming ==> tr[5] == (Stmt::SelectKeystore {
        kind: CounterKind::StoriesSubmitted,
        user_id: user,
    }))
    &&& (!priming ==> tr[6] == (Stmt::SelectStoryVote { user_id: user, story_id }))
    &&& tr[4 + 3 * np] == (Stmt::InsertStoryVote { user_id: user, story_id, up: true })
    &&& (!priming ==> tr[8] == (Stmt::SelectCommentKarma { story_id }))
    &&& (!priming ==> tr[9] == (Stmt::UpdateStoryHotness {
        story_id,
        hotness: HOTNESS_SUBMIT_REWRITE,
    }))
}

/// Submit a new story.  The submission is validated against the one fixed
/// active tag; a missing or inactive tag row is a fatal configuration fault.
pub fn handle_submit(
    s: &mut Store,
    acting: Option<u64>,
    id: &Vec<u8>,
    title: &Vec<u8>,
    now: i64,
    priming: bool,
) -> (r: Result<Outcome, Fault>)
    requires
        old(s)@.wf(),
        old(s)@.next_story_id < u64::MAX,
    ensures
        final(s)@.wf(),
        match r {
            Ok(out) => {
                let ft = find_test_tag(old(s)@.tags);
                &&& acting is Some
                &&& ft is Some
                &&& final(s)@ == submit_post(
                    old(s)@,
                    acting->0,
                    id@,
                    title@,
                    now,
                    ft->0,
                    priming,
                )
                &&& !out.notify
                &&& submit_trace_ok(out.trace@, old(s)@, acting->0, id@, title@, now, priming)
            },
            Err(f) => {
                &&& final(s)@ == old(s)@
                &&& if acting is None {
                    f == Fault::NoActingUser
                } else {
                    find_test_tag(old(s)@.tags) is None && f == Fault::NoActiveTag
                }
            },
        },
{
    let user = match acting {
        Some(u) => u,
        None => {
            return Err(Fault::NoActingUser);
        },
    };
    let tagidx = match s.test_tag_index() {
        Some(i) => i,
        None => {
            return Err(Fault::NoActiveTag);
        },
    };
    let tag_id = s.tags[tagidx].id;
    let story_id = s.next_story_id;

    let mut tr: Vec<Stmt> = Vec::new();
    tr.push(Stmt::SelectActiveTestTag);
    if !priming {
        tr.push(Stmt::SelectStoryShortIdFree { short_id: clone_bytes(id) });
    }
    tr.push(
        Stmt::InsertStory {
            now,
            user_id: user,
            title: clone_bytes(title),
            short_id: clone_bytes(id),
            hotness: HOTNESS_SUBMIT_SEED,
        },
    );
    tr.push(Stmt::InsertTagging { story_id, tag_id });
    tr.push(
        Stmt::UpsertKeystoreIncrement { kind: CounterKind::StoriesSubmitted, user_id: user },
    );
    if !priming {
        tr.push(Stmt::SelectKeystore { kind: CounterKind::StoriesSubmitted, user_id: user });
        tr.push(Stmt::SelectStoryVote { user_id: user, story_id });
    }
    tr.push(Stmt::InsertStoryVote { user_id: user, story_id, up: true });
    if !priming {
        tr.push(Stmt::SelectCommentKarma { story_id });
        tr.push(Stmt::UpdateStoryHotness { story_id, hotness: HOTNESS_SUBMIT_REWRITE });
    }

    s.stories.push(
        StoryRow {
            id: story_id,
            short_id: clone_bytes(id),
            user_id: user,
            title: clone_bytes(title),
            upvotes: 1,
            downvotes: 0,
            hotness: if priming {
                HOTNESS_SUBMIT_SEED
            } else {
                HOTNESS_SUBMIT_REWRITE
            },
            comments_count: 0,
            merged_into: None,
            expired: false,
            created_at: now,
        },
    );
    s.taggings.push(TaggingRow { story_id, tag_id });
    upsert_keystore(&mut s.keystores, CounterKind::StoriesSubmitted, user);
    s.votes.push(VoteRow { user_id: user, story_id, comment_id: None, up: true });
    s.next_story_id = story_id + 1;

    proof {
        let t = submit_post(old(s)@, user, id@, title@, now, tagidx as int, priming);
        assert(s@.stories[s@.stories.len() - 1] =~= t.stories[t.stories.len() - 1]);
        assert(s@.stories =~= t.stories);
        assert(s@.taggings =~= t.taggings);
        assert(s@.votes =~= t.votes);
        assert(s@ =~~= t);
        lemma_submit_post_wf(old(s)@, user, id@, title@, now, tagidx as int, priming);
    }
    Ok(Outcome { trace: tr, notify: false })
}

/// The exact statement trace of a comment post.
pub open spec fn comment_post_trace_ok(
    tr: Seq<Stmt>,
    s: StoreView,
    user: u64,
    id_short: Seq<u8>,
    story_short: Seq<u8>,
    pshort: Option<Seq<u8>>,
    now: i64,
    priming: bool,
) -> bool {
    let sidx = find_story(s.stories, story_short)->0;
    let st = s.stories[sidx];
    let np: int = if priming {
        0
    } else {
        1
    };
    let par: int = if pshort is Some {
        1
    } else {
        0
    };
    let rp = resolved_parent(s.comments, st.id, pshort);
    let comment_id = s.next_comment_id;
    let count = count_story_comments(s.comments, st.id) + 1;
    &&& tr.len() == 8 + 6 * np + par
    &&& (tr[0] matches Stmt::SelectStoryByShortId { short_id } && short_id@ == story_short)
    &&& (!priming ==> tr[1] == (Stmt::SelectUserById { user_id: st.user_id }))
    &&& (pshort is Some ==> (tr[1 + np] matches Stmt::SelectCommentByStoryShortId {
        story_id,
        short_id,
    } && story_id == st.id && short_id@ == pshort->0))
    &&& (!priming ==> (tr[1 + np + par] matches Stmt::SelectCommentShortIdFree { short_id }
        && short_id@ == id_short))
    &&& (tr[1 + 2 * np + par] matches Stmt::InsertComment {
        now: n2,
        short_id,
        story_id,
        user_id,
        parent,
        thread,
        confidence,
    } && n2 == now && short_id@ == id_short && story_id == st.id && user_id == user && parent
        == parent_id_of(rp) && thread == thread_of(rp) && confidence == Ratio::spec_seed())
    &&& (!priming ==> tr[2 + 2 * np + par] == (Stmt::SelectCommentVote {
        user_id: user,
        story_id: st.id,
        comment_id,
    }))
    &&& tr[2 + 3 * np + par] == (Stmt::InsertCommentVote {
        user_id: user,
        story_id: st.id,
        comment_id,
        up: true,
    })
    &&& tr[3 + 3 * np + par] == (Stmt::SelectMergedStories { story_id: st.id })
    &&& tr[4 + 3 * np + par] == (Stmt::SelectStoryComments { story_id: st.id })
    &&& tr[5 + 3 * np + par] == (Stmt::UpdateCommentsCount { story_id: st.id, count: count as u64 })
    &&& (!priming ==> tr[6 + 3 * np + par] == (Stmt::SelectStoryTags { story_id: st.id }))
    &&& (!priming ==> tr[7 + 3 * np + par] == (Stmt::SelectCommentKarma { story_id: st.id }))
    &&& (!priming ==> tr[8 + 3 * np + par] == (Stmt::SelectMergedStories { story_id: st.id }))
    &&& tr[6 + 6 * np + par] == (Stmt::UpdateStoryHotness {
        story_id: st.id,
        hotness: spec_hot_down(st.hotness),
    })
    &&& tr[7 + 6 * np + par] == (Stmt::UpsertKeystoreIncrement {
        kind: CounterKind::CommentsPosted,
        user_id: user,
    })
}

/// Post a comment on a story.  A named parent comment that does not resolve
/// is not a fault: the miss is only worth a log line, and the comment is
/// posted at top level.
pub fn handle_comment(
    s: &mut Store,
    acting: Option<u64>,
    id: &Vec<u8>,
    story_short: &Vec<u8>,
    parent: Option<&Vec<u8>>,
    now: i64,
    priming: bool,
) -> (r: Result<Outcome, Fault>)
    requires
        old(s)@.wf(),
        old(s)@.next_comment_id < u64::MAX,
    ensures
        final(s)@.wf(),
        match r {
            Ok(out) => {
                let fs = find_story(old(s)@.stories, story_short@);
                let st = old(s)@.stories[fs->0];
                let rp = resolved_parent(old(s)@.comments, st.id, opt_bytes_view(parent));
                &&& acting is Some
                &&& fs is Some
                &&& final(s)@ == comment_post_post(
                    old(s)@,
                    acting->0,
                    id@,
                    fs->0,
                    parent_id_of(rp),
                    thread_of(rp),
                    now,
                )
                &&& !out.notify
                &&& comment_post_trace_ok(
                    out.trace@,
                    old(s)@,
                    acting->0,
                    id@,
                    story_short@,
                    opt_bytes_view(parent),
                    now,
                    priming,
                )
            },
            Err(f) => {
                &&& final(s)@ == old(s)@
                &&& if acting is None {
                    f == Fault::NoActingUser
                } else {
                    find_story(old(s)@.stories, story_short@) is None && f == Fault::UnknownStory
                }
            },
        },
{
    let user = match acting {
        Some(u) => u,
        None => {
            return Err(Fault::NoActingUser);
        },
    };
    let sidx = match s.story_index(story_short) {
        Some(i) => i,
        None => {
            return Err(Fault::UnknownStory);
        },
    };
    let story_id = s.stories[sidx].id;
    let author = s.stories[sidx].user_id;
    let hot = s.stories[sidx].hotness;
    let comment_id = s.next_comment_id;

    let mut tr: Vec<Stmt> = Vec::new();
    tr.push(Stmt::SelectStoryByShortId { short_id: clone_bytes(story_short) });
    if !priming {
        tr.push(Stmt::SelectUserById { user_id: author });
    }
    let resolved: Option<(u64, Option<u64>)> = match parent {
        Some(ps) => {
            tr.push(
                Stmt::SelectCommentByStoryShortId { story_id, short_id: clone_bytes(ps) },
            );
            match s.story_comment_index(story_id, ps) {
                Some(p) => Some((s.comments[p].id, s.comments[p].thread)),
                None => None,
            }
        },
        None => None,
    };
    let (parent_id, thread): (Option<u64>, Option<u64>) = match resolved {
        Some(p) => (Some(p.0), p.1),
        None => (None, None),
    };
    if !priming {
        tr.push(Stmt::SelectCommentShortIdFree { short_id: clone_bytes(id) });
    }
    tr.push(
        Stmt::InsertComment {
            now,
            short_id: clone_bytes(id),
            story_id,
            user_id: user,
            parent: parent_id,
            thread,
            confidence: Ratio::seed(),
        },
    );
    if !priming {
        tr.push(Stmt::SelectCommentVote { user_id: user, story_id, comment_id });
    }
    tr.push(Stmt::InsertCommentVote { user_id: user, story_id, comment_id, up: true });
    tr.push(Stmt::SelectMergedStories { story_id });

    s.comments.push(
        CommentRow {
            id: comment_id,
            short_id: clone_bytes(id),
            story_id,
            user_id: user,
            parent: parent_id,
            thread,
            upvotes: 1,
            downvotes: 0,
            confidence: Ratio::seed(),
            deleted: false,
            moderated: false,
            created_at: now,
            updated_at: now,
        },
    );
    tr.push(Stmt::SelectStoryComments { story_id });
    let count = s.count_comments_of(story_id);
    proof {
        lemma_count_story_comments_bounds(s@.comments, story_id);
    }
    tr.push(Stmt::UpdateCommentsCount { story_id, count });
    if !priming {
        tr.push(Stmt::SelectStoryTags { story_id });
        tr.push(Stmt::SelectCommentKarma { story_id });
        tr.push(Stmt::SelectMergedStories { story_id });
    }
    let new_hot = hot_down(hot);
    tr.push(Stmt::UpdateStoryHotness { story_id, hotness: new_hot });
    tr.push(
        Stmt::UpsertKeystoreIncrement { kind: CounterKind::CommentsPosted, user_id: user },
    );

    s.votes.push(VoteRow { user_id: user, story_id, comment_id: Some(comment_id), up: true });
    s.stories[sidx].comments_count = count;
    s.stories[sidx].hotness = new_hot;
    upsert_keystore(&mut s.keystores, CounterKind::CommentsPosted, user);
    s.next_comment_id = comment_id + 1;

    proof {
        let rp = resolved_parent(old(s)@.comments, story_id, opt_bytes_view(parent));
        let t = comment_post_post(
            old(s)@,
            user,
            id@,
            sidx as int,
            parent_id_of(rp),
            thread_of(rp),
            now,
        );
        assert(s@.comments[s@.comments.len() - 1] =~= t.comments[t.comments.len() - 1]);
        assert(s@.comments =~= t.comments);
        assert(t.comments.drop_last() =~= old(s)@.comments);
        assert(count == count_story_comments(t.comments, story_id));
        assert forall|j: int| 0 <= j < s@.stories.len() implies s@.stories[j] == t.stories[j] by {
            if j == sidx {
                assert(s@.stories[j] =~= t.stories[j]);
            }
        }
        assert(s@.stories =~= t.stories);
        assert(s@.votes =~= t.votes);
        assert(s@ =~~= t);
        lemma_comment_post_post_wf(
            old(s)@,
            user,
            id@,
            sidx as int,
            parent_id_of(rp),
            thread_of(rp),
            now,
        );
    }
    Ok(Outcome { trace: tr, notify: false })
}

/// The view of an optional byte string.
pub open spec fn opt_bytes_view(p: Option<&Vec<u8>>) -> Option<Seq<u8>> {
    match p {
        Some(v) => Some(v@),
        None => None,
    }
}

} // verus!
