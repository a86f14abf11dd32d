use lobsters_bench::num::{Ratio, HOTNESS_SUBMIT_SEED, HOTNESS_SUBMIT_REWRITE, HOTNESS_UNIT,
    CONFIDENCE_SEED_NUM, CONFIDENCE_SEED_DEN};
use lobsters_bench::request::{VoteDir, Fault};
use lobsters_bench::stmt::{Stmt, CounterKind};
use lobsters_bench::store::{Store, UserRow, StoryRow, CommentRow, TagRow, KeystoreRow};
use lobsters_bench::vote::{handle_story_vote, handle_comment_vote};
use lobsters_bench::post::{handle_submit, handle_comment};
use lobsters_bench::session::handle_login;

fn bytes(s: &str) -> Vec<u8> {
    s.as_bytes().to_vec()
}

fn store_with_test_tag() -> Store {
    let mut s = Store::new();
    s.tags.push(TagRow { id: 1, name: bytes("test"), inactive: false });
    s.users.push(UserRow { id: 1, name_uid: 1, karma: 0 });
    s.users.push(UserRow { id: 2, name_uid: 2, karma: 0 });
    s.next_user_id = 3;
    s
}

fn story(s: &mut Store, id: u64, short: &str, user: u64, hotness: i64) {
    s.stories.push(StoryRow {
        id,
        short_id: bytes(short),
        user_id: user,
        title: bytes("T"),
        upvotes: 1,
        downvotes: 0,
        hotness,
        comments_count: 0,
        merged_into: None,
        expired: false,
        created_at: 0,
    });
    if s.next_story_id <= id {
        s.next_story_id = id + 1;
    }
}

fn comment(s: &mut Store, id: u64, short: &str, story_id: u64, user: u64, up: u64, down: u64) {
    s.comments.push(CommentRow {
        id,
        short_id: bytes(short),
        story_id,
        user_id: user,
        parent: None,
        thread: None,
        upvotes: up,
        downvotes: down,
        confidence: Ratio { num: up, den: up + down },
        deleted: false,
        moderated: false,
        created_at: 0,
        updated_at: 0,
    });
    if s.next_comment_id <= id {
        s.next_comment_id = id + 1;
    }
}

#[test]
fn submit_then_upvote_scenario() {
    // Submit short_id "abc12", title "T" as user 1 during priming, then an
    // up-vote by user 2.
    let mut s = store_with_test_tag();
    let r = handle_submit(&mut s, Some(1), &bytes("abc12"), &bytes("T"), 100, true);
    assert!(r.is_ok());
    assert_eq!(s.stories.len(), 1);
    assert_eq!(s.stories[0].short_id, bytes("abc12"));
    assert_eq!(s.stories[0].upvotes, 1);
    assert_eq!(s.stories[0].downvotes, 0);
    // -19216.2884921 in fixed-point units of 1e-7.
    assert_eq!(s.stories[0].hotness, -192_162_884_921);
    assert_eq!(s.stories[0].hotness, HOTNESS_SUBMIT_SEED);

    let r = handle_story_vote(&mut s, Some(2), &bytes("abc12"), VoteDir::Up);
    assert!(r.is_ok());
    assert_eq!(s.stories[0].upvotes, 2);
    // An up-vote moves hotness one unit down (ascending order is hotter).
    assert_eq!(s.stories[0].hotness, HOTNESS_SUBMIT_SEED - HOTNESS_UNIT);
    // The author's karma went up by one.
    assert_eq!(s.users[0].karma, 1);
    assert_eq!(s.users[1].karma, 0);
}

#[test]
fn vote_counters_accumulate() {
    // Two up-votes and one down-vote processed sequentially.
    let mut s = store_with_test_tag();
    story(&mut s, 1, "s1000", 1, 0);
    assert!(handle_story_vote(&mut s, Some(2), &bytes("s1000"), VoteDir::Up).is_ok());
    assert!(handle_story_vote(&mut s, Some(1), &bytes("s1000"), VoteDir::Up).is_ok());
    assert!(handle_story_vote(&mut s, Some(2), &bytes("s1000"), VoteDir::Down).is_ok());
    assert_eq!(s.stories[0].upvotes, 1 + 2);
    assert_eq!(s.stories[0].downvotes, 1);
    assert_eq!(s.stories[0].hotness, -(2 - 1) * HOTNESS_UNIT);
    assert_eq!(s.votes.len(), 3);
}

#[test]
fn story_vote_trace_shape() {
    let mut s = store_with_test_tag();
    story(&mut s, 7, "s7000", 1, 0);
    let out = handle_story_vote(&mut s, Some(2), &bytes("s7000"), VoteDir::Down).unwrap();
    assert_eq!(out.trace.len(), 8);
    assert_eq!(out.trace[0], Stmt::SelectStoryByShortId { short_id: bytes("s7000") });
    assert_eq!(out.trace[2], Stmt::InsertStoryVote { user_id: 2, story_id: 7, up: false });
    assert_eq!(out.trace[3], Stmt::UpdateKarma { user_id: 1, up: false });
    assert_eq!(
        out.trace[7],
        Stmt::UpdateStoryVotes { story_id: 7, up: false, hotness: HOTNESS_UNIT }
    );
    assert!(!out.notify);
}

#[test]
fn comment_vote_confidence_ratio() {
    // The written confidence is the exact ratio of the counts the handler
    // read before bumping them.
    let mut s = store_with_test_tag();
    story(&mut s, 1, "s1000", 1, 0);
    comment(&mut s, 5, "c5000", 1, 2, 3, 1);
    let out = handle_comment_vote(&mut s, Some(1), &bytes("c5000"), VoteDir::Down).unwrap();
    assert_eq!(s.comments[0].upvotes, 3);
    assert_eq!(s.comments[0].downvotes, 2);
    assert_eq!(s.comments[0].confidence, Ratio { num: 3, den: 4 });
    assert!(s.comments[0].confidence.den > 0);
    // The comment's author lost one karma; the story took the down-vote too.
    assert_eq!(s.users[1].karma, -1);
    assert_eq!(s.stories[0].downvotes, 1);
    assert_eq!(s.stories[0].hotness, HOTNESS_UNIT);
    assert_eq!(out.trace.len(), 10);
    assert_eq!(
        out.trace[4],
        Stmt::UpdateCommentVotes {
            comment_id: 5,
            up: false,
            confidence: Ratio { num: 3, den: 4 },
        }
    );
}

#[test]
fn fresh_comment_confidence_never_divides_by_zero() {
    // Every comment is created with one up-vote, so the first vote's ratio
    // has a positive denominator.
    let mut s = store_with_test_tag();
    story(&mut s, 1, "s1000", 1, 0);
    let r = handle_comment(&mut s, Some(2), &bytes("c1000"), &bytes("s1000"), None, 50, true);
    assert!(r.is_ok());
    assert_eq!(s.comments[0].upvotes, 1);
    let _ = handle_comment_vote(&mut s, Some(1), &bytes("c1000"), VoteDir::Down).unwrap();
    assert_eq!(s.comments[0].confidence, Ratio { num: 1, den: 1 });
}

#[test]
fn comment_count_matches_rows() {
    let mut s = store_with_test_tag();
    story(&mut s, 1, "s1000", 1, 0);
    story(&mut s, 2, "s2000", 2, 0);
    comment(&mut s, 10, "ca000", 1, 2, 1, 0);
    comment(&mut s, 11, "cb000", 1, 1, 1, 0);
    comment(&mut s, 12, "cc000", 2, 1, 1, 0);
    let r = handle_comment(&mut s, Some(2), &bytes("cd000"), &bytes("s1000"), None, 60, true);
    assert!(r.is_ok());
    // Exactly the comment rows with story_id == 1, the new one included.
    assert_eq!(s.stories[0].comments_count, 3);
    let rows = s.comments.iter().filter(|c| c.story_id == 1).count();
    assert_eq!(s.stories[0].comments_count as usize, rows);
}

#[test]
fn comment_inherits_parent_thread() {
    let mut s = store_with_test_tag();
    story(&mut s, 1, "s1000", 1, 0);
    s.comments.push(CommentRow {
        id: 10,
        short_id: bytes("ca000"),
        story_id: 1,
        user_id: 2,
        parent: None,
        thread: Some(77),
        upvotes: 1,
        downvotes: 0,
        confidence: Ratio { num: 1, den: 1 },
        deleted: false,
        moderated: false,
        created_at: 0,
        updated_at: 0,
    });
    s.next_comment_id = 11;
    let parent = bytes("ca000");
    let r = handle_comment(&mut s, Some(1), &bytes("cb000"), &bytes("s1000"), Some(&parent), 70, true);
    assert!(r.is_ok());
    let new = s.comments.last().unwrap();
    assert_eq!(new.parent, Some(10));
    assert_eq!(new.thread, Some(77));
    assert_eq!(new.confidence, Ratio { num: CONFIDENCE_SEED_NUM, den: CONFIDENCE_SEED_DEN });
}

#[test]
fn comment_with_unknown_parent_posts_top_level() {
    let mut s = store_with_test_tag();
    story(&mut s, 1, "s1000", 1, 0);
    let parent = bytes("zz000");
    let r = handle_comment(&mut s, Some(1), &bytes("cb000"), &bytes("s1000"), Some(&parent), 70, true);
    assert!(r.is_ok());
    let new = s.comments.last().unwrap();
    assert_eq!(new.parent, None);
    assert_eq!(new.thread, None);
}

#[test]
fn submit_creates_rows() {
    let mut s = store_with_test_tag();
    s.keystores.push(KeystoreRow { kind: CounterKind::StoriesSubmitted, user_id: 1, value: 4 });
    let out = handle_submit(&mut s, Some(1), &bytes("ab000"), &bytes("T"), 100, false).unwrap();
    assert_eq!(s.stories.len(), 1);
    assert_eq!(s.taggings.len(), 1);
    assert_eq!(s.taggings[0].story_id, 1);
    assert_eq!(s.taggings[0].tag_id, 1);
    assert_eq!(s.votes.len(), 1);
    assert!(s.votes[0].up);
    assert_eq!(s.votes[0].comment_id, None);
    assert_eq!(s.keystores[0].value, 5);
    // The non-priming run overwrites the seed hotness a second time.
    assert_eq!(s.stories[0].hotness, HOTNESS_SUBMIT_REWRITE);
    assert_eq!(out.trace.len(), 10);
    assert_eq!(out.trace[0], Stmt::SelectActiveTestTag);
    assert_eq!(
        out.trace[9],
        Stmt::UpdateStoryHotness { story_id: 1, hotness: HOTNESS_SUBMIT_REWRITE }
    );
}

#[test]
fn submit_priming_trace_is_short() {
    let mut s = store_with_test_tag();
    let out = handle_submit(&mut s, Some(1), &bytes("ab000"), &bytes("T"), 100, true).unwrap();
    assert_eq!(out.trace.len(), 5);
    assert_eq!(s.stories[0].hotness, HOTNESS_SUBMIT_SEED);
    assert_eq!(s.keystores[0].value, 1);
}

#[test]
fn login_creates_user_once() {
    let mut s = Store::new();
    let out = handle_login(&mut s, Some(9)).unwrap();
    assert_eq!(out.trace.len(), 2);
    assert_eq!(out.trace[0], Stmt::SelectUsernameExists { uid: 9 });
    assert_eq!(out.trace[1], Stmt::InsertUser { uid: 9 });
    assert_eq!(s.users.len(), 1);
    assert_eq!(s.users[0].name_uid, 9);
    let out = handle_login(&mut s, Some(9)).unwrap();
    assert_eq!(out.trace.len(), 1);
    assert_eq!(s.users.len(), 1);
}

#[test]
fn faults_on_bad_inputs() {
    let mut s = store_with_test_tag();
    story(&mut s, 1, "s1000", 1, 0);
    assert_eq!(
        handle_story_vote(&mut s, None, &bytes("s1000"), VoteDir::Up).unwrap_err(),
        Fault::NoActingUser
    );
    assert_eq!(
        handle_story_vote(&mut s, Some(1), &bytes("zz999"), VoteDir::Up).unwrap_err(),
        Fault::UnknownStory
    );
    assert_eq!(
        handle_comment_vote(&mut s, Some(1), &bytes("zz999"), VoteDir::Up).unwrap_err(),
        Fault::UnknownComment
    );
    let mut no_tag = Store::new();
    assert_eq!(
        handle_submit(&mut no_tag, Some(1), &bytes("ab000"), &bytes("T"), 0, true).unwrap_err(),
        Fault::NoActiveTag
    );
    let mut inactive = Store::new();
    inactive.tags.push(TagRow { id: 1, name: bytes("test"), inactive: true });
    assert_eq!(
        handle_submit(&mut inactive, Some(1), &bytes("ab000"), &bytes("T"), 0, true).unwrap_err(),
        Fault::NoActiveTag
    );
}
