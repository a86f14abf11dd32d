use lobsters_bench::admission::{Admission, CheckoutPoll};
use lobsters_bench::bootstrap::{schema_statements, bootstrap_plan};
use lobsters_bench::request::{Request, PageKind, Variant, VoteDir};
use lobsters_bench::stmt::{Stmt, CounterKind};
use lobsters_bench::store::{Store, UserRow, StoryRow, TagRow};

fn bytes(s: &str) -> Vec<u8> {
    s.as_bytes().to_vec()
}

#[test]
fn splitter_joins_lines_and_skips_comments() {
    let schema = bytes(
        "-- the schema\n\nCREATE TABLE stories (\n  id int,\n  title text\n);\nDROP TABLE x;\nleftover without end\n",
    );
    let stmts = schema_statements(&schema);
    assert_eq!(stmts.len(), 2);
    assert_eq!(
        stmts[0],
        bytes("CREATE TABLE stories (   id int,   title text );")
    );
    assert_eq!(stmts[1], bytes("DROP TABLE x;"));
}

#[test]
fn splitter_strips_carriage_returns() {
    // Lines may end in \r\n; the carriage return belongs to the terminator,
    // so a statement ending ";\r\n" still terminates.
    let schema = bytes("-- c\r\nCREATE TABLE a (\r\n  x int\r\n);\r\nDROP y;\r\n");
    let stmts = schema_statements(&schema);
    assert_eq!(stmts.len(), 2);
    assert_eq!(stmts[0], bytes("CREATE TABLE a (   x int );"));
    assert_eq!(stmts[1], bytes("DROP y;"));
}

#[test]
fn splitter_handles_text_without_trailing_newline() {
    let stmts = schema_statements(&bytes("CREATE TABLE a (x int);"));
    assert_eq!(stmts.len(), 1);
    assert_eq!(stmts[0], bytes("CREATE TABLE a (x int);"));
}

#[test]
fn bootstrap_plan_is_reproducible() {
    // Priming twice builds the identical plan: same database, same
    // statements in the same order (drop + recreate semantics).
    let schema = bytes("CREATE TABLE a (x int);\nCREATE TABLE b (y int);\n");
    let once = bootstrap_plan(&bytes("soup"), &schema);
    let twice = bootstrap_plan(&bytes("soup"), &schema);
    assert_eq!(once.db, twice.db);
    assert_eq!(once.statements, twice.statements);
    assert_eq!(once.statements.len(), 2);
}

#[test]
fn admission_protocol() {
    // Polling while the checkout is outstanding reports NotReady and keeps
    // acquiring; a completed checkout is held until taken.
    let st: Admission<u32> = Admission::Empty;
    let (st, ready) = st.try_admit(CheckoutPoll::Pending);
    assert!(!ready);
    let (st, ready) = st.try_admit(CheckoutPoll::Pending);
    assert!(!ready);
    let (st, ready) = st.try_admit(CheckoutPoll::Acquired(17));
    assert!(ready);
    // A held connection is kept, whatever a later poll says.
    let (st, ready) = st.try_admit(CheckoutPoll::Pending);
    assert!(ready);
    let (conn, st) = st.take();
    assert_eq!(conn, 17);
    let (_, ready) = st.try_admit(CheckoutPoll::Pending);
    assert!(!ready);
}

#[test]
fn router_appends_notifications() {
    let mut s = Store::new();
    s.users.push(UserRow { id: 1, name_uid: 1, karma: 0 });
    s.next_user_id = 2;
    s.stories.push(StoryRow {
        id: 1,
        short_id: bytes("s1000"),
        user_id: 1,
        title: bytes("T"),
        upvotes: 1,
        downvotes: 0,
        hotness: 0,
        comments_count: 0,
        merged_into: None,
        expired: false,
        created_at: 0,
    });
    s.next_story_id = 2;
    let req = Request { acting_user: Some(1), page: PageKind::Frontpage, is_priming: false };
    let out = lobsters_bench::router::process_request(&mut s, &req, Variant::Original, 0).unwrap();
    let n = out.trace.len();
    assert_eq!(out.trace[n - 2], Stmt::SelectNotificationCountOriginal { user_id: 1 });
    assert_eq!(
        out.trace[n - 1],
        Stmt::SelectKeystore { kind: CounterKind::UnreadMessages, user_id: 1 }
    );
    // The denormalized variant counts through its own table.
    let out = lobsters_bench::router::process_request(&mut s, &req, Variant::Denorm, 0).unwrap();
    let n = out.trace.len();
    assert_eq!(out.trace[n - 2], Stmt::SelectNotificationCountDenorm { user_id: 1 });
}

#[test]
fn router_skips_notifications_when_priming_or_anonymous() {
    let mut s = Store::new();
    s.stories.push(StoryRow {
        id: 1,
        short_id: bytes("s1000"),
        user_id: 1,
        title: bytes("T"),
        upvotes: 1,
        downvotes: 0,
        hotness: 0,
        comments_count: 0,
        merged_into: None,
        expired: false,
        created_at: 0,
    });
    s.next_story_id = 2;
    let anon = Request { acting_user: None, page: PageKind::Frontpage, is_priming: false };
    let out = lobsters_bench::router::process_request(&mut s, &anon, Variant::Original, 0).unwrap();
    assert_eq!(out.trace.len(), 6);
    let priming = Request { acting_user: Some(1), page: PageKind::Frontpage, is_priming: true };
    let out = lobsters_bench::router::process_request(&mut s, &priming, Variant::Original, 0)
        .unwrap();
    assert_eq!(out.trace.len(), 11);
    // Vote pages never ask for notifications.
    let vote = Request {
        acting_user: Some(1),
        page: PageKind::StoryVote(bytes("s1000"), VoteDir::Up),
        is_priming: false,
    };
    let out = lobsters_bench::router::process_request(&mut s, &vote, Variant::Original, 0).unwrap();
    assert_eq!(out.trace.len(), 8);
}

#[test]
fn router_dispatches_submit() {
    let mut s = Store::new();
    s.tags.push(TagRow { id: 1, name: bytes("test"), inactive: false });
    let req = Request {
        acting_user: Some(4),
        page: PageKind::Submit { id: bytes("ab000"), title: bytes("hello") },
        is_priming: true,
    };
    let out = lobsters_bench::router::process_request(&mut s, &req, Variant::Original, 9).unwrap();
    assert!(!out.notify);
    assert_eq!(s.stories.len(), 1);
    assert_eq!(s.stories[0].user_id, 4);
    assert_eq!(s.stories[0].created_at, 9);
}
