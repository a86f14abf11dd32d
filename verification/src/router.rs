//! The request router: one dispatch from page kind to handler, followed by
//! the conditional notifications step.
//!
//! The notifications step runs exactly when the handler asked for it, a user
//! is acting, and the run is not priming; it appends the variant's
//! unread-count query and the unread-messages keystore read to the trace.
//! The contract pins the whole returned trace: the prefix is the dispatched
//! handler's exact trace, and the two reads stand at the end if and only if
//! the step runs.

use vstd::prelude::*;
use crate::request::{Request, PageKind, Variant, Fault, Outcome};
use crate::stmt::{Stmt, CounterKind};
use crate::store::{Store, StoreView, find_story, find_comment, find_story_by_id, find_test_tag,
    find_user_by_name};
use crate::trans::{login_post, ribbon_post, story_vote_post, comment_vote_post, submit_post,
    comment_post_post, resolved_parent, parent_id_of, thread_of};
use crate::listing::{count_true, frontpage_elig_seq, recent_elig_seq, comments_elig_seq,
    frontpage_window_ok, recent_window_ok, comments_window_ok, frontpage_trace_ok, recent_trace_ok,
    comments_trace_ok};
use crate::session::{handle_login, handle_logout, login_trace_ok};
use crate::view::{handle_story, handle_user, story_view_trace_ok, user_trace_ok};
use crate::vote::{handle_story_vote, handle_comment_vote, story_vote_trace_ok,
    comment_vote_trace_ok};
use crate::post::{handle_submit, handle_comment, opt_bytes_view, submit_trace_ok,
    comment_post_trace_ok};

verus! {

/// The view of an optional owned byte string.
pub open spec fn opt_owned_bytes_view(p: Option<Vec<u8>>) -> Option<Seq<u8>> {
    match p {
        Some(v) => Some(v@),
        None => None,
    }
}

/// The variant's unread-notification count query.
pub open spec fn notification_stmt(variant: Variant, uid: u64) -> Stmt {
    match variant {
        Variant::Original => Stmt::SelectNotificationCountOriginal { user_id: uid },
        Variant::Denorm => Stmt::SelectNotificationCountDenorm { user_id: uid },
    }
}

/// Whether the dispatched handler asks for the notifications step: the
/// listings, the story view, and a resolved user profile do; write paths,
/// login/logout and an unresolved profile do not.  The flag itself is never
/// exposed to the driver's caller; the router consumes it.
pub open spec fn dispatched_notify(s: StoreView, page: PageKind) -> bool {
    match page {
        PageKind::User(uid) => find_user_by_name(s.users, uid) is Some,
        PageKind::Frontpage | PageKind::Comments | PageKind::Recent => true,
        PageKind::Story(_) => true,
        PageKind::Login | PageKind::Logout => false,
        PageKind::StoryVote(..) | PageKind::CommentVote(..) => false,
        PageKind::Submit { .. } | PageKind::Comment { .. } => false,
    }
}

/// The dispatched handler's exact statement trace for one page kind, against
/// the store the request ran on.  The listing arms leave the choice within
/// equal sort keys open, exactly as the handlers' own contracts do.
pub open spec fn dispatched_trace_ok(tr: Seq<Stmt>, s: StoreView, req: Request, now: i64) -> bool {
    match req.page {
        PageKind::User(uid) => user_trace_ok(tr, s, uid),
        PageKind::Frontpage => exists|ch: Seq<usize>|
            #[trigger] frontpage_window_ok(ch, s, 51) && frontpage_trace_ok(
                tr,
                s,
                req.acting_user,
                ch,
            ),
        PageKind::Comments => exists|ch: Seq<usize>|
            #[trigger] comments_window_ok(ch, s, 40) && comments_trace_ok(
                tr,
                s,
                req.acting_user,
                ch,
            ),
        PageKind::Recent => exists|ch: Seq<usize>|
            #[trigger] recent_window_ok(ch, s, 51) && recent_trace_ok(tr, s, req.acting_user, ch),
        PageKind::Login => login_trace_ok(tr, s, req.acting_user->0),
        PageKind::Logout => tr.len() == 0,
        PageKind::Story(short) => story_view_trace_ok(tr, s, req.acting_user, short@, now),
        PageKind::StoryVote(short, dir) => story_vote_trace_ok(
            tr,
            s,
            req.acting_user->0,
            short@,
            find_story(s.stories, short@)->0,
            dir is Up,
        ),
        PageKind::CommentVote(short, dir) => {
            let fc = find_comment(s.comments, short@);
            comment_vote_trace_ok(
                tr,
                s,
                req.acting_user->0,
                short@,
                fc->0,
                find_story_by_id(s.stories, s.comments[fc->0].story_id)->0,
                dir is Up,
            )
        },
        PageKind::Submit { id, title } => submit_trace_ok(
            tr,
            s,
            req.acting_user->0,
            id@,
            title@,
            now,
            req.is_priming,
        ),
        PageKind::Comment { id, story, parent } => comment_post_trace_ok(
            tr,
            s,
            req.acting_user->0,
            id@,
            story@,
            opt_owned_bytes_view(parent),
            now,
            req.is_priming,
        ),
    }
}

/// Dispatch one request to its handler and run the conditional notifications
/// step.  The store transition and the whole statement trace are pinned per
/// page kind: the trace is the dispatched handler's, with the two
/// notification reads appended if and only if the handler asked for them, a
/// user is acting, and the run is not priming.
pub fn process_request(s: &mut Store, req: &Request, variant: Variant, now: i64) -> (r: Result<
    Outcome,
    Fault,
>)
    requires
        old(s)@.wf(),
        old(s)@.next_user_id < u64::MAX,
        old(s)@.next_story_id < u64::MAX,
        old(s)@.next_comment_id < u64::MAX,
        old(s)@.next_ribbon_id < u64::MAX,
    ensures
        final(s)@.wf(),
        r is Err ==> final(s)@ == old(s)@,
        r is Ok <==> match req.page {
            PageKind::User(_) | PageKind::Logout => true,
            PageKind::Frontpage => count_true(frontpage_elig_seq(old(s)@.stories)) > 0,
            PageKind::Recent => count_true(recent_elig_seq(old(s)@.stories)) > 0,
            PageKind::Comments => count_true(comments_elig_seq(old(s)@.comments)) > 0,
            PageKind::Login => req.acting_user is Some,
            PageKind::Story(short) => find_story(old(s)@.stories, short@) is Some,
            PageKind::StoryVote(short, _) => req.acting_user is Some && find_story(
                old(s)@.stories,
                short@,
            ) is Some,
            PageKind::CommentVote(short, _) => {
                let fc = find_comment(old(s)@.comments, short@);
                req.acting_user is Some && fc is Some && find_story_by_id(
                    old(s)@.stories,
                    old(s)@.comments[fc->0].story_id,
                ) is Some
            },
            PageKind::Submit { .. } => req.acting_user is Some && find_test_tag(
                old(s)@.tags,
            ) is Some,
            PageKind::Comment { story, .. } => req.acting_user is Some && find_story(
                old(s)@.stories,
                story@,
            ) is Some,
        },
        r matches Ok(out) ==> {
            let uid = req.acting_user->0;
            let nc = out.notify && req.acting_user is Some && !req.is_priming;
            let core = if nc {
                out.trace@.take(out.trace@.len() - 2)
            } else {
                out.trace@
            };
            &&& out.notify == dispatched_notify(old(s)@, req.page)
            &&& dispatched_trace_ok(core, old(s)@, *req, now)
            &&& (nc ==> {
                &&& out.trace@.len() == core.len() + 2
                &&& out.trace@[out.trace@.len() - 2] == notification_stmt(variant, uid)
                &&& out.trace@[out.trace@.len() - 1] == (Stmt::SelectKeystore {
                    kind: CounterKind::UnreadMessages,
                    user_id: uid,
                })
            })
            &&& match req.page {
                PageKind::User(_) | PageKind::Frontpage | PageKind::Comments | PageKind::Recent
                    | PageKind::Logout => final(s)@ == old(s)@,
                PageKind::Login => final(s)@ == login_post(old(s)@, req.acting_user->0),
                PageKind::Story(short) => final(s)@ == match req.acting_user {
                    Some(uid2) => ribbon_post(
                        old(s)@,
                        uid2,
                        old(s)@.stories[find_story(old(s)@.stories, short@)->0].id,
                        now,
                    ),
                    None => old(s)@,
                },
                PageKind::StoryVote(short, dir) => final(s)@ == story_vote_post(
                    old(s)@,
                    req.acting_user->0,
                    find_story(old(s)@.stories, short@)->0,
                    dir is Up,
                ),
                PageKind::CommentVote(short, dir) => {
                    let fc = find_comment(old(s)@.comments, short@);
                    final(s)@ == comment_vote_post(
                        old(s)@,
                        req.acting_user->0,
                        fc->0,
                        find_story_by_id(old(s)@.stories, old(s)@.comments[fc->0].story_id)->0,
                        dir is Up,
                    )
                },
                PageKind::Submit { id, title } => final(s)@ == submit_post(
                    old(s)@,
                    req.acting_user->0,
                    id@,
                    title@,
                    now,
                    find_test_tag(old(s)@.tags)->0,
                    req.is_priming,
                ),
                PageKind::Comment { id, story, parent } => {
                    let fs = find_story(old(s)@.stories, story@);
                    let rp = resolved_parent(
                        old(s)@.comments,
                        old(s)@.stories[fs->0].id,
                        opt_owned_bytes_view(parent),
                    );
                    final(s)@ == comment_post_post(
                        old(s)@,
                        req.acting_user->0,
                        id@,
                        fs->0,
                        parent_id_of(rp),
                        thread_of(rp),
                        now,
                    )
                },
            }
        },
{
    let ghost s0 = old(s)@;
    let acting = req.acting_user;
    let dispatched: Result<Outcome, Fault> = match &req.page {
        PageKind::User(uid) => Ok(handle_user(s, *uid)),
        PageKind::Frontpage => s.handle_frontpage(acting),
        PageKind::Comments => s.handle_comments(acting),
        PageKind::Recent => s.handle_recent(acting),
        PageKind::Login => handle_login(s, acting),
        PageKind::Logout => Ok(handle_logout()),
        PageKind::Story(short) => handle_story(s, acting, short, now),
        PageKind::StoryVote(short, dir) => handle_story_vote(s, acting, short, *dir),
        PageKind::CommentVote(short, dir) => handle_comment_vote(s, acting, short, *dir),
        PageKind::Submit { id, title } => handle_submit(s, acting, id, title, now, req.is_priming),
        PageKind::Comment { id, story, parent } => {
            let p: Option<&Vec<u8>> = match parent {
                Some(v) => Some(v),
                None => None,
            };
            proof {
                assert(opt_bytes_view(p) == opt_owned_bytes_view(req.page->Comment_parent));
            }
            handle_comment(s, acting, id, story, p, now, req.is_priming)
        },
    };
    let mut out = match dispatched {
        Ok(o) => o,
        Err(f) => {
            return Err(f);
        },
    };
    let ghost base = out.trace@;
    proof {
        assert(dispatched_trace_ok(base, s0, *req, now));
        assert(out.notify == dispatched_notify(s0, req.page));
    }
    if out.notify && acting.is_some() && !req.is_priming {
        let uid = acting.unwrap();
        match variant {
            Variant::Original => out.trace.push(
                Stmt::SelectNotificationCountOriginal { user_id: uid },
            ),
            Variant::Denorm => out.trace.push(
                Stmt::SelectNotificationCountDenorm { user_id: uid },
            ),
        }
        out.trace.push(Stmt::SelectKeystore { kind: CounterKind::UnreadMessages, user_id: uid });
        proof {
            assert(out.trace@.take(out.trace@.len() - 2) =~= base);
        }
    }
    Ok(out)
}

} // verus!
