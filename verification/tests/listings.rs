use lobsters_bench::num::Ratio;
use lobsters_bench::request::Fault;
use lobsters_bench::stmt::Stmt;
use lobsters_bench::store::{Store, UserRow, StoryRow, CommentRow, TagRow, TaggingRow,
    TagFilterRow, RibbonRow};
use lobsters_bench::view::{handle_story, handle_user};

fn bytes(s: &str) -> Vec<u8> {
    s.as_bytes().to_vec()
}

fn story(s: &mut Store, id: u64, short: &str, user: u64, hotness: i64) {
    s.stories.push(StoryRow {
        id,
        short_id: bytes(short),
        user_id: user,
        title: bytes("T"),
        upvotes: 1,
        downvotes: 0,
        hotness,
        comments_count: 0,
        merged_into: None,
        expired: false,
        created_at: 0,
    });
    if s.next_story_id <= id {
        s.next_story_id = id + 1;
    }
}

fn comment(s: &mut Store, id: u64, short: &str, story_id: u64, user: u64) {
    s.comments.push(CommentRow {
        id,
        short_id: bytes(short),
        story_id,
        user_id: user,
        parent: None,
        thread: None,
        upvotes: 1,
        downvotes: 0,
        confidence: Ratio { num: 1, den: 1 },
        deleted: false,
        moderated: false,
        created_at: 0,
        updated_at: 0,
    });
    if s.next_comment_id <= id {
        s.next_comment_id = id + 1;
    }
}

#[test]
fn frontpage_on_empty_store_faults() {
    // An empty window means an unprimed database: a fault, never a silently
    // empty page.
    let s = Store::new();
    assert_eq!(s.handle_frontpage(None).unwrap_err(), Fault::EmptyListing);
    assert_eq!(s.handle_recent(None).unwrap_err(), Fault::EmptyListing);
    assert_eq!(s.handle_comments(None).unwrap_err(), Fault::EmptyListing);
}

#[test]
fn frontpage_excludes_and_orders() {
    let mut s = Store::new();
    story(&mut s, 1, "s1000", 1, -50);
    story(&mut s, 2, "s2000", 2, -90);
    story(&mut s, 3, "s3000", 1, -70);
    // A story with more down- than up-votes is not eligible.
    story(&mut s, 4, "s4000", 2, -999);
    s.stories[3].downvotes = 5;
    // Neither is an expired or merged-away one.
    story(&mut s, 5, "s5000", 1, -999);
    s.stories[4].expired = true;
    story(&mut s, 6, "s6000", 1, -999);
    s.stories[5].merged_into = Some(1);
    let out = s.handle_frontpage(None).unwrap();
    assert!(out.notify);
    assert_eq!(out.trace[0], Stmt::SelectFrontpageStories);
    // Ascending hotness: story 2, then 3, then 1.
    assert_eq!(
        out.trace[2],
        Stmt::SelectSuggestedTitles { story_ids: vec![2, 3, 1] }
    );
    // Distinct submitters in first-occurrence order: 2 (story 2), 1.
    assert_eq!(out.trace[1], Stmt::SelectUsersByIds { user_ids: vec![2, 1] });
}

#[test]
fn frontpage_viewer_filters_and_highlights() {
    let mut s = Store::new();
    story(&mut s, 1, "s1000", 1, -50);
    s.taggings.push(TaggingRow { story_id: 1, tag_id: 3 });
    s.tag_filters.push(TagFilterRow { user_id: 7, tag_id: 3 });
    let out = s.handle_frontpage(Some(7)).unwrap();
    assert_eq!(out.trace.len(), 12);
    assert_eq!(out.trace[1], Stmt::SelectHiddenStoriesOfUser { user_id: 7 });
    assert_eq!(out.trace[2], Stmt::SelectTagFiltersOfUser { user_id: 7 });
    assert_eq!(
        out.trace[3],
        Stmt::SelectTaggingsFiltered { story_ids: vec![1], tag_ids: vec![3] }
    );
    assert_eq!(
        out.trace[8],
        Stmt::SelectTagsByIds { tag_ids: vec![3] }
    );
    assert_eq!(
        out.trace[11],
        Stmt::SelectSavedForStories { user_id: 7, story_ids: vec![1] }
    );
    // A viewer without filters skips the filtered taggings query.
    let out = s.handle_frontpage(Some(8)).unwrap();
    assert_eq!(out.trace.len(), 11);
}

#[test]
fn recent_orders_newest_first() {
    let mut s = Store::new();
    story(&mut s, 1, "s1000", 1, 0);
    story(&mut s, 2, "s2000", 2, 0);
    story(&mut s, 3, "s3000", 1, 0);
    let out = s.handle_recent(None).unwrap();
    assert_eq!(out.trace[0], Stmt::SelectRecentStories);
    assert_eq!(
        out.trace[2],
        Stmt::SelectSuggestedTitles { story_ids: vec![3, 2, 1] }
    );
}

#[test]
fn comments_listing_windows_and_authors() {
    let mut s = Store::new();
    story(&mut s, 1, "s1000", 4, 0);
    story(&mut s, 2, "s2000", 5, 0);
    comment(&mut s, 10, "ca000", 1, 8);
    comment(&mut s, 11, "cb000", 2, 9);
    comment(&mut s, 12, "cc000", 1, 8);
    // Deleted and moderated comments are not listed.
    comment(&mut s, 13, "cd000", 1, 8);
    s.comments[3].deleted = true;
    let out = s.handle_comments(Some(7)).unwrap();
    assert!(out.notify);
    assert_eq!(out.trace.len(), 6);
    assert_eq!(out.trace[0], Stmt::SelectRecentComments);
    // Newest first: 12, 11, 10; stories deduplicated in that order.
    assert_eq!(
        out.trace[1],
        Stmt::SelectHiddenForStories { user_id: 7, story_ids: vec![1, 2] }
    );
    assert_eq!(out.trace[2], Stmt::SelectUsersByIds { user_ids: vec![8, 9] });
    assert_eq!(out.trace[3], Stmt::SelectStoriesByIds { story_ids: vec![1, 2] });
    assert_eq!(
        out.trace[4],
        Stmt::SelectUserVotesForComments { user_id: 7, comment_ids: vec![12, 11, 10] }
    );
    // The submitters of the windowed stories, in story-table order.
    assert_eq!(out.trace[5], Stmt::SelectUsersByIds { user_ids: vec![4, 5] });
}

#[test]
fn story_view_stamps_ribbon() {
    let mut s = Store::new();
    s.users.push(UserRow { id: 1, name_uid: 1, karma: 0 });
    s.next_user_id = 2;
    story(&mut s, 1, "s1000", 1, 0);
    comment(&mut s, 10, "ca000", 1, 2);
    let out = handle_story(&mut s, Some(6), &bytes("s1000"), 500).unwrap();
    assert!(out.notify);
    assert_eq!(out.trace.len(), 13);
    assert_eq!(out.trace[2], Stmt::SelectReadRibbon { user_id: 6, story_id: 1 });
    assert_eq!(out.trace[3], Stmt::InsertReadRibbon { now: 500, user_id: 6, story_id: 1 });
    assert_eq!(s.ribbons.len(), 1);
    assert_eq!(s.ribbons[0], RibbonRow {
        id: 1,
        user_id: 6,
        story_id: 1,
        created_at: 500,
        updated_at: 500,
    });
    // A second view only bumps the timestamp.
    let out = handle_story(&mut s, Some(6), &bytes("s1000"), 900).unwrap();
    assert_eq!(out.trace[3], Stmt::UpdateReadRibbon { now: 900, ribbon_id: 1 });
    assert_eq!(s.ribbons.len(), 1);
    assert_eq!(s.ribbons[0].updated_at, 900);
    assert_eq!(s.ribbons[0].created_at, 500);
    // An anonymous view touches nothing.
    let out = handle_story(&mut s, None, &bytes("s1000"), 1000).unwrap();
    assert_eq!(out.trace.len(), 8);
    assert_eq!(s.ribbons[0].updated_at, 900);
}

#[test]
fn story_view_unknown_story_faults() {
    let mut s = Store::new();
    assert_eq!(
        handle_story(&mut s, Some(1), &bytes("zz999"), 0).unwrap_err(),
        Fault::UnknownStory
    );
}

#[test]
fn unknown_user_profile_issues_single_query() {
    // A username that does not resolve: found == false and no further
    // queries.
    let mut s = Store::new();
    s.users.push(UserRow { id: 1, name_uid: 1, karma: 0 });
    s.next_user_id = 2;
    let out = handle_user(&s, 999);
    assert!(!out.notify);
    assert_eq!(out.trace.len(), 1);
    assert_eq!(out.trace[0], Stmt::SelectUserByUsername { uid: 999 });
}

#[test]
fn user_profile_with_popular_tag() {
    let mut s = Store::new();
    s.users.push(UserRow { id: 3, name_uid: 42, karma: 0 });
    s.next_user_id = 4;
    s.tags.push(TagRow { id: 1, name: bytes("test"), inactive: false });
    s.tags.push(TagRow { id: 2, name: bytes("meta"), inactive: false });
    story(&mut s, 1, "s1000", 3, 0);
    story(&mut s, 2, "s2000", 3, 0);
    s.taggings.push(TaggingRow { story_id: 1, tag_id: 2 });
    s.taggings.push(TaggingRow { story_id: 2, tag_id: 2 });
    s.taggings.push(TaggingRow { story_id: 1, tag_id: 1 });
    let out = handle_user(&s, 42);
    assert!(out.notify);
    assert_eq!(out.trace.len(), 6);
    assert_eq!(out.trace[0], Stmt::SelectUserByUsername { uid: 42 });
    assert_eq!(out.trace[1], Stmt::SelectMostPopularTag { user_id: 3 });
    assert_eq!(out.trace[2], Stmt::SelectTagById { tag_id: 2 });
    assert_eq!(out.trace[5], Stmt::SelectHat { user_id: 3 });
}

#[test]
fn user_profile_without_tagged_stories() {
    let mut s = Store::new();
    s.users.push(UserRow { id: 3, name_uid: 42, karma: 0 });
    s.next_user_id = 4;
    s.tags.push(TagRow { id: 1, name: bytes("test"), inactive: false });
    let out = handle_user(&s, 42);
    assert!(out.notify);
    assert_eq!(out.trace.len(), 5);
    assert_eq!(out.trace[1], Stmt::SelectMostPopularTag { user_id: 3 });
    assert_eq!(out.trace[2], Stmt::SelectKeystore {
        kind: lobsters_bench::stmt::CounterKind::StoriesSubmitted,
        user_id: 3,
    });
}

#[test]
fn frontpage_caps_at_51_hottest() {
    let mut s = Store::new();
    // Sixty stories with descending hotness: ids 1..=60, hotness -1..=-60.
    for n in 1..=60u64 {
        story(&mut s, n, &format!("s{:04}", n), 1, -(n as i64));
    }
    let out = s.handle_frontpage(None).unwrap();
    let ids = match &out.trace[2] {
        Stmt::SelectSuggestedTitles { story_ids } => story_ids.clone(),
        other => panic!("unexpected statement: {:?}", other),
    };
    assert_eq!(ids.len(), 51);
    // The 51 hottest are the ones with the lowest hotness: ids 60 down to 10.
    let expected: Vec<u64> = (10..=60).rev().collect();
    assert_eq!(ids, expected);
}

#[test]
fn comments_listing_caps_at_40() {
    let mut s = Store::new();
    story(&mut s, 1, "s1000", 1, 0);
    for n in 1..=45u64 {
        comment(&mut s, n, &format!("c{:04}", n), 1, 2);
    }
    let out = s.handle_comments(None).unwrap();
    let ids = match &out.trace[3] {
        Stmt::SelectUsersByIds { user_ids } => user_ids.clone(),
        other => panic!("unexpected statement: {:?}", other),
    };
    assert_eq!(ids, vec![1]);
    match &out.trace[1] {
        Stmt::SelectUsersByIds { user_ids } => assert_eq!(user_ids, &vec![2]),
        other => panic!("unexpected statement: {:?}", other),
    }
}

#[test]
fn frontpage_ties_keep_table_order() {
    let mut s = Store::new();
    story(&mut s, 1, "s1000", 1, -5);
    story(&mut s, 2, "s2000", 1, -5);
    story(&mut s, 3, "s3000", 1, -9);
    let out = s.handle_frontpage(None).unwrap();
    match &out.trace[2] {
        Stmt::SelectSuggestedTitles { story_ids } => assert_eq!(story_ids, &vec![3, 1, 2]),
        other => panic!("unexpected statement: {:?}", other),
    }
}
