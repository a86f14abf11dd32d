//! The relational store, modelled as plain data.
//!
//! Handlers never cache state across requests in the original application;
//! everything lives in the database.  The library models exactly the columns
//! that the handlers read or write: identifiers, counters, flags, fixed-point
//! hotness and rational confidence.  Usernames are always of the shape
//! `user{n}`, so a row stores the number `n` it encodes; keystore keys are
//! always `user:{n}:<counter>`, so a row stores the counter kind and `n`.

use vstd::prelude::*;
use crate::num::Ratio;
use crate::stmt::CounterKind;

verus! {

/// A user row: the database id, the number its username encodes, and karma.
#[derive(Clone, Copy, Debug, PartialEq, Eq)]
pub struct UserRow {
    pub id: u64,
    pub name_uid: u64,
    pub karma: i64,
}

/// A story row.
#[derive(Clone, Debug, PartialEq, Eq)]
pub struct StoryRow {
    pub id: u64,
    pub short_id: Vec<u8>,
    pub user_id: u64,
    pub title: Vec<u8>,
    pub upvotes: u64,
    pub downvotes: u64,
    pub hotness: i64,
    pub comments_count: u64,
    pub merged_into: Option<u64>,
    pub expired: bool,
    pub created_at: i64,
}

/// The mathematical image of a story row.
#[verifier::ext_equal]
pub struct StoryRowV {
    pub id: u64,
    pub short_id: Seq<u8>,
    pub user_id: u64,
    pub title: Seq<u8>,
    pub upvotes: u64,
    pub downvotes: u64,
    pub hotness: i64,
    pub comments_count: u64,
    pub merged_into: Option<u64>,
    pub expired: bool,
    pub created_at: i64,
}

impl View for StoryRow {
    type V = StoryRowV;

    open spec fn view(&self) -> StoryRowV {
        StoryRowV {
            id: self.id,
            short_id: self.short_id@,
            user_id: self.user_id,
            title: self.title@,
            upvotes: self.upvotes,
            downvotes: self.downvotes,
            hotness: self.hotness,
            comments_count: self.comments_count,
            merged_into: self.merged_into,
            expired: self.expired,
            created_at: self.created_at,
        }
    }
}

/// A comment row.
#[derive(Clone, Debug, PartialEq, Eq)]
pub struct CommentRow {
    pub id: u64,
    pub short_id: Vec<u8>,
    pub story_id: u64,
    pub user_id: u64,
    pub parent: Option<u64>,
    pub thread: Option<u64>,
    pub upvotes: u64,
    pub downvotes: u64,
    pub confidence: Ratio,
    pub deleted: bool,
    pub moderated: bool,
    pub created_at: i64,
    pub updated_at: i64,
}

/// The mathematical image of a comment row.
#[verifier::ext_equal]
pub struct CommentRowV {
    pub id: u64,
    pub short_id: Seq<u8>,
    pub story_id: u64,
    pub user_id: u64,
    pub parent: Option<u64>,
    pub thread: Option<u64>,
    pub upvotes: u64,
    pub downvotes: u64,
    pub confidence: Ratio,
    pub deleted: bool,
    pub moderated: bool,
    pub created_at: i64,
    pub updated_at: i64,
}

impl View for CommentRow {
    type V = CommentRowV;

    open spec fn view(&self) -> CommentRowV {
        CommentRowV {
            id: self.id,
            short_id: self.short_id@,
            story_id: self.story_id,
            user_id: self.user_id,
            parent: self.parent,
            thread: self.thread,
            upvotes: self.upvotes,
            downvotes: self.downvotes,
            confidence: self.confidence,
            deleted: self.deleted,
            moderated: self.moderated,
            created_at: self.created_at,
            updated_at: self.updated_at,
        }
    }
}

/// A vote row; `comment_id` is `None` for a story vote.
#[derive(Clone, Copy, Debug, PartialEq, Eq)]
pub struct VoteRow {
    pub user_id: u64,
    pub story_id: u64,
    pub comment_id: Option<u64>,
    pub up: bool,
}

/// A tag row.
#[derive(Clone, Debug, PartialEq, Eq)]
pub struct TagRow {
    pub id: u64,
    pub name: Vec<u8>,
    pub inactive: bool,
}

/// The mathematical image of a tag row.
#[verifier::ext_equal]
pub struct TagRowV {
    pub id: u64,
    pub name: Seq<u8>,
    pub inactive: bool,
}

impl View for TagRow {
    type V = TagRowV;

    open spec fn view(&self) -> TagRowV {
        TagRowV { id: self.id, name: self.name@, inactive: self.inactive }
    }
}

/// A story/tag association.
#[derive(Clone, Copy, Debug, PartialEq, Eq)]
pub struct TaggingRow {
    pub story_id: u64,
    pub tag_id: u64,
}

/// A keystore counter row, standing for the key `user:{user_id}:<kind>`.
#[derive(Clone, Copy, Debug, PartialEq, Eq)]
pub struct KeystoreRow {
    pub kind: CounterKind,
    pub user_id: u64,
    pub value: u64,
}

/// A read-ribbon row: when a user last saw a story.
#[derive(Clone, Copy, Debug, PartialEq, Eq)]
pub struct RibbonRow {
    pub id: u64,
    pub user_id: u64,
    pub story_id: u64,
    pub created_at: i64,
    pub updated_at: i64,
}

/// A (user, story) membership row, used for hidden and saved stories.
#[derive(Clone, Copy, Debug, PartialEq, Eq)]
pub struct UserStoryRow {
    pub user_id: u64,
    pub story_id: u64,
}

/// A tag filter row.
#[derive(Clone, Copy, Debug, PartialEq, Eq)]
pub struct TagFilterRow {
    pub user_id: u64,
    pub tag_id: u64,
}

/// A hat row: the user owns a hat.
#[derive(Clone, Copy, Debug, PartialEq, Eq)]
pub struct HatRow {
    pub user_id: u64,
}

/// The whole store.  Auto-increment cursors are kept alongside the tables.
#[derive(Clone, Debug, PartialEq, Eq)]
pub struct Store {
    pub users: Vec<UserRow>,
    pub stories: Vec<StoryRow>,
    pub comments: Vec<CommentRow>,
    pub votes: Vec<VoteRow>,
    pub tags: Vec<TagRow>,
    pub taggings: Vec<TaggingRow>,
    pub keystores: Vec<KeystoreRow>,
    pub ribbons: Vec<RibbonRow>,
    pub hidden: Vec<UserStoryRow>,
    pub saved: Vec<UserStoryRow>,
    pub tag_filters: Vec<TagFilterRow>,
    pub hats: Vec<HatRow>,
    pub next_user_id: u64,
    pub next_story_id: u64,
    pub next_comment_id: u64,
    pub next_ribbon_id: u64,
}

/// The mathematical image of the store.
#[verifier::ext_equal]
pub struct StoreView {
    pub users: Seq<UserRow>,
    pub stories: Seq<StoryRowV>,
    pub comments: Seq<CommentRowV>,
    pub votes: Seq<VoteRow>,
    pub tags: Seq<TagRowV>,
    pub taggings: Seq<TaggingRow>,
    pub keystores: Seq<KeystoreRow>,
    pub ribbons: Seq<RibbonRow>,
    pub hidden: Seq<UserStoryRow>,
    pub saved: Seq<UserStoryRow>,
    pub tag_filters: Seq<TagFilterRow>,
    pub hats: Seq<HatRow>,
    pub next_user_id: u64,
    pub next_story_id: u64,
    pub next_comment_id: u64,
    pub next_ribbon_id: u64,
}

impl View for Store {
    type V = StoreView;

    open spec fn view(&self) -> StoreView {
        StoreView {
            users: self.users@,
            stories: self.stories@.map_values(|r: StoryRow| r@),
            comments: self.comments@.map_values(|r: CommentRow| r@),
            votes: self.votes@,
            tags: self.tags@.map_values(|r: TagRow| r@),
            taggings: self.taggings@,
            keystores: self.keystores@,
            ribbons: self.ribbons@,
            hidden: self.hidden@,
            saved: self.saved@,
            tag_filters: self.tag_filters@,
            hats: self.hats@,
            next_user_id: self.next_user_id,
            next_story_id: self.next_story_id,
            next_comment_id: self.next_comment_id,
            next_ribbon_id: self.next_ribbon_id,
        }
    }
}

impl StoreView {
    /// Well-formedness: ids are unique and below their cursors, every comment
    /// carries at least its own self-up-vote, confidence denominators are
    /// positive, usernames are unique, and per-(user, story) and per-counter
    /// rows are unique.
    pub open spec fn wf(self) -> bool {
        &&& forall|i: int, j: int|
            0 <= i < j < self.stories.len() ==> #[trigger] self.stories[i].id != #[trigger] self.stories[j].id
        &&& forall|i: int| 0 <= i < self.stories.len() ==> #[trigger] self.stories[i].id < self.next_story_id
        &&& forall|i: int, j: int|
            0 <= i < j < self.comments.len() ==> #[trigger] self.comments[i].id != #[trigger] self.comments[j].id
        &&& forall|i: int| 0 <= i < self.comments.len() ==> #[trigger] self.comments[i].id < self.next_comment_id
        &&& forall|i: int| 0 <= i < self.comments.len() ==> (#[trigger] self.comments[i]).upvotes >= 1
        &&& forall|i: int| 0 <= i < self.comments.len() ==> (#[trigger] self.comments[i]).confidence.wf()
        &&& forall|i: int, j: int|
            0 <= i < j < self.users.len() ==> #[trigger] self.users[i].id != #[trigger] self.users[j].id
        &&& forall|i: int, j: int|
            0 <= i < j < self.users.len()
                ==> (#[trigger] self.users[i]).name_uid != (#[trigger] self.users[j]).name_uid
        &&& forall|i: int| 0 <= i < self.users.len() ==> #[trigger] self.users[i].id < self.next_user_id
        &&& forall|i: int, j: int|
            0 <= i < j < self.ribbons.len() ==> #[trigger] self.ribbons[i].id != #[trigger] self.ribbons[j].id
        &&& forall|i: int| 0 <= i < self.ribbons.len() ==> #[trigger] self.ribbons[i].id < self.next_ribbon_id
        &&& forall|i: int, j: int|
            0 <= i < j < self.ribbons.len()
                ==> !((#[trigger] self.ribbons[i]).user_id == (#[trigger] self.ribbons[j]).user_id
                    && self.ribbons[i].story_id == self.ribbons[j].story_id)
        &&& forall|i: int, j: int|
            0 <= i < j < self.keystores.len()
                ==> !((#[trigger] self.keystores[i]).kind == (#[trigger] self.keystores[j]).kind
                    && self.keystores[i].user_id == self.keystores[j].user_id)
    }
}

/// First story whose short id matches, searching from position `i`.
pub open spec fn find_story_from(ss: Seq<StoryRowV>, short: Seq<u8>, i: int) -> Option<int>
    decreases ss.len() - i when 0 <= i <= ss.len()
{
    if i >= ss.len() {
        None
    } else if ss[i].short_id == short {
        Some(i)
    } else {
        find_story_from(ss, short, i + 1)
    }
}

/// First story whose short id matches.
pub open spec fn find_story(ss: Seq<StoryRowV>, short: Seq<u8>) -> Option<int> {
    find_story_from(ss, short, 0)
}

/// First story with the given database id, searching from position `i`.
pub open spec fn find_story_by_id_from(ss: Seq<StoryRowV>, id: u64, i: int) -> Option<int>
    decreases ss.len() - i when 0 <= i <= ss.len()
{
    if i >= ss.len() {
        None
    } else if ss[i].id == id {
        Some(i)
    } else {
        find_story_by_id_from(ss, id, i + 1)
    }
}

/// First story with the given database id.
pub open spec fn find_story_by_id(ss: Seq<StoryRowV>, id: u64) -> Option<int> {
    find_story_by_id_from(ss, id, 0)
}

/// First comment whose short id matches, searching from position `i`.
pub open spec fn find_comment_from(cs: Seq<CommentRowV>, short: Seq<u8>, i: int) -> Option<int>
    decreases cs.len() - i when 0 <= i <= cs.len()
{
    if i >= cs.len() {
        None
    } else if cs[i].short_id == short {
        Some(i)
    } else {
        find_comment_from(cs, short, i + 1)
    }
}

/// First comment whose short id matches.
pub open spec fn find_comment(cs: Seq<CommentRowV>, short: Seq<u8>) -> Option<int> {
    find_comment_from(cs, short, 0)
}

/// First comment of the given story whose short id matches, from position `i`.
pub open spec fn find_story_comment_from(
    cs: Seq<CommentRowV>,
    story_id: u64,
    short: Seq<u8>,
    i: int,
) -> Option<int>
    decreases cs.len() - i when 0 <= i <= cs.len()
{
    if i >= cs.len() {
        None
    } else if cs[i].story_id == story_id && cs[i].short_id == short {
        Some(i)
    } else {
        find_story_comment_from(cs, story_id, short, i + 1)
    }
}

/// First comment of the given story whose short id matches.
pub open spec fn find_story_comment(cs: Seq<CommentRowV>, story_id: u64, short: Seq<u8>) -> Option<
    int,
> {
    find_story_comment_from(cs, story_id, short, 0)
}

/// First user with the given database id, searching from position `i`.
pub open spec fn find_user_from(us: Seq<UserRow>, id: u64, i: int) -> Option<int>
    decreases us.len() - i when 0 <= i <= us.len()
{
    if i >= us.len() {
        None
    } else if us[i].id == id {
        Some(i)
    } else {
        find_user_from(us, id, i + 1)
    }
}

/// First user with the given database id.
pub open spec fn find_user(us: Seq<UserRow>, id: u64) -> Option<int> {
    find_user_from(us, id, 0)
}

/// First user whose username encodes `uid`, searching from position `i`.
pub open spec fn find_user_by_name_from(us: Seq<UserRow>, uid: u64, i: int) -> Option<int>
    decreases us.len() - i when 0 <= i <= us.len()
{
    if i >= us.len() {
        None
    } else if us[i].name_uid == uid {
        Some(i)
    } else {
        find_user_by_name_from(us, uid, i + 1)
    }
}

/// First user whose username encodes `uid`.
pub open spec fn find_user_by_name(us: Seq<UserRow>, uid: u64) -> Option<int> {
    find_user_by_name_from(us, uid, 0)
}

/// First read ribbon of (user, story), searching from position `i`.
pub open spec fn find_ribbon_from(rs: Seq<RibbonRow>, user_id: u64, story_id: u64, i: int) -> Option<
    int,
>
    decreases rs.len() - i when 0 <= i <= rs.len()
{
    if i >= rs.len() {
        None
    } else if rs[i].user_id == user_id && rs[i].story_id == story_id {
        Some(i)
    } else {
        find_ribbon_from(rs, user_id, story_id, i + 1)
    }
}

/// First read ribbon of (user, story).
pub open spec fn find_ribbon(rs: Seq<RibbonRow>, user_id: u64, story_id: u64) -> Option<int> {
    find_ribbon_from(rs, user_id, story_id, 0)
}

/// First keystore row of (kind, user), searching from position `i`.
pub open spec fn find_keystore_from(
    ks: Seq<KeystoreRow>,
    kind: CounterKind,
    user_id: u64,
    i: int,
) -> Option<int>
    decreases ks.len() - i when 0 <= i <= ks.len()
{
    if i >= ks.len() {
        None
    } else if ks[i].kind == kind && ks[i].user_id == user_id {
        Some(i)
    } else {
        find_keystore_from(ks, kind, user_id, i + 1)
    }
}

/// First keystore row of (kind, user).
pub open spec fn find_keystore(ks: Seq<KeystoreRow>, kind: CounterKind, user_id: u64) -> Option<
    int,
> {
    find_keystore_from(ks, kind, user_id, 0)
}

/// The name of the fixed tag every submission is validated against.
pub open spec fn test_tag_name() -> Seq<u8> {
    seq![116u8, 101u8, 115u8, 116u8]
}

/// First active tag carrying the fixed submission tag name, from position `i`.
pub open spec fn find_test_tag_from(ts: Seq<TagRowV>, i: int) -> Option<int>
    decreases ts.len() - i when 0 <= i <= ts.len()
{
    if i >= ts.len() {
        None
    } else if !ts[i].inactive && ts[i].name == test_tag_name() {
        Some(i)
    } else {
        find_test_tag_from(ts, i + 1)
    }
}

/// First active tag carrying the fixed submission tag name.
pub open spec fn find_test_tag(ts: Seq<TagRowV>) -> Option<int> {
    find_test_tag_from(ts, 0)
}

/// What a story search result means: a hit is the first match, a miss means
/// no match from the start position on.
pub proof fn lemma_find_story_from(ss: Seq<StoryRowV>, short: Seq<u8>, i: int)
    requires
        0 <= i <= ss.len(),
    ensures
        match find_story_from(ss, short, i) {
            Some(k) => i <= k < ss.len() && ss[k].short_id == short && forall|j: int|
                i <= j < k ==> (#[trigger] ss[j]).short_id != short,
            None => forall|j: int| i <= j < ss.len() ==> (#[trigger] ss[j]).short_id != short,
        },
    decreases ss.len() - i,
{
    if i < ss.len() && ss[i].short_id != short {
        lemma_find_story_from(ss, short, i + 1);
    }
}

/// What a story-by-id search result means.
pub proof fn lemma_find_story_by_id_from(ss: Seq<StoryRowV>, id: u64, i: int)
    requires
        0 <= i <= ss.len(),
    ensures
        match find_story_by_id_from(ss, id, i) {
            Some(k) => i <= k < ss.len() && ss[k].id == id && forall|j: int|
                i <= j < k ==> (#[trigger] ss[j]).id != id,
            None => forall|j: int| i <= j < ss.len() ==> (#[trigger] ss[j]).id != id,
        },
    decreases ss.len() - i,
{
    if i < ss.len() && ss[i].id != id {
        lemma_find_story_by_id_from(ss, id, i + 1);
    }
}

/// What a comment search result means.
pub proof fn lemma_find_comment_from(cs: Seq<CommentRowV>, short: Seq<u8>, i: int)
    requires
        0 <= i <= cs.len(),
    ensures
        match find_comment_from(cs, short, i) {
            Some(k) => i <= k < cs.len() && cs[k].short_id == short && forall|j: int|
                i <= j < k ==> (#[trigger] cs[j]).short_id != short,
            None => forall|j: int| i <= j < cs.len() ==> (#[trigger] cs[j]).short_id != short,
        },
    decreases cs.len() - i,
{
    if i < cs.len() && cs[i].short_id != short {
        lemma_find_comment_from(cs, short, i + 1);
    }
}

/// What a user-by-id search result means.
pub proof fn lemma_find_user_from(us: Seq<UserRow>, id: u64, i: int)
    requires
        0 <= i <= us.len(),
    ensures
        match find_user_from(us, id, i) {
            Some(k) => i <= k < us.len() && us[k].id == id && forall|j: int|
                i <= j < k ==> (#[trigger] us[j]).id != id,
            None => forall|j: int| i <= j < us.len() ==> (#[trigger] us[j]).id != id,
        },
    decreases us.len() - i,
{
    if i < us.len() && us[i].id != id {
        lemma_find_user_from(us, id, i + 1);
    }
}

/// What a user-by-username search result means.
pub proof fn lemma_find_user_by_name_from(us: Seq<UserRow>, uid: u64, i: int)
    requires
        0 <= i <= us.len(),
    ensures
        match find_user_by_name_from(us, uid, i) {
            Some(k) => i <= k < us.len() && us[k].name_uid == uid && forall|j: int|
                i <= j < k ==> (#[trigger] us[j]).name_uid != uid,
            None => forall|j: int| i <= j < us.len() ==> (#[trigger] us[j]).name_uid != uid,
        },
    decreases us.len() - i,
{
    if i < us.len() && us[i].name_uid != uid {
        lemma_find_user_by_name_from(us, uid, i + 1);
    }
}

/// What a ribbon search result means.
pub proof fn lemma_find_ribbon_from(rs: Seq<RibbonRow>, user_id: u64, story_id: u64, i: int)
    requires
        0 <= i <= rs.len(),
    ensures
        match find_ribbon_from(rs, user_id, story_id, i) {
            Some(k) => i <= k < rs.len() && rs[k].user_id == user_id && rs[k].story_id == story_id
                && forall|j: int|
                i <= j < k ==> !((#[trigger] rs[j]).user_id == user_id && rs[j].story_id
                    == story_id),
            None => forall|j: int|
                i <= j < rs.len() ==> !((#[trigger] rs[j]).user_id == user_id && rs[j].story_id
                    == story_id),
        },
    decreases rs.len() - i,
{
    if i < rs.len() && !(rs[i].user_id == user_id && rs[i].story_id == story_id) {
        lemma_find_ribbon_from(rs, user_id, story_id, i + 1);
    }
}

/// What a keystore search result means.
pub proof fn lemma_find_keystore_from(ks: Seq<KeystoreRow>, kind: CounterKind, user_id: u64, i: int)
    requires
        0 <= i <= ks.len(),
    ensures
        match find_keystore_from(ks, kind, user_id, i) {
            Some(k) => i <= k < ks.len() && ks[k].kind == kind && ks[k].user_id == user_id
                && forall|j: int|
                i <= j < k ==> !((#[trigger] ks[j]).kind == kind && ks[j].user_id == user_id),
            None => forall|j: int|
                i <= j < ks.len() ==> !((#[trigger] ks[j]).kind == kind && ks[j].user_id
                    == user_id),
        },
    decreases ks.len() - i,
{
    if i < ks.len() && !(ks[i].kind == kind && ks[i].user_id == user_id) {
        lemma_find_keystore_from(ks, kind, user_id, i + 1);
    }
}

/// Number of comment rows belonging to the story, deleted ones included —
/// the emulated count query does not filter.
pub open spec fn count_story_comments(cs: Seq<CommentRowV>, story_id: u64) -> int
    decreases cs.len()
{
    if cs.len() == 0 {
        0
    } else {
        count_story_comments(cs.drop_last(), story_id) + if cs.last().story_id == story_id {
            1int
        } else {
            0int
        }
    }
}

/// The comment count never exceeds the table length.
pub proof fn lemma_count_story_comments_bounds(cs: Seq<CommentRowV>, story_id: u64)
    ensures
        0 <= count_story_comments(cs, story_id) <= cs.len(),
    decreases cs.len(),
{
    if cs.len() > 0 {
        lemma_count_story_comments_bounds(cs.drop_last(), story_id);
    }
}

/// Byte-string equality, stated over the views.
pub fn bytes_eq(a: &Vec<u8>, b: &Vec<u8>) -> (r: bool)
    ensures
        r <==> a@ == b@,
{
    if a.len() != b.len() {
        proof {
            assert(a@.len() != b@.len());
        }
        return false;
    }
    let mut i: usize = 0;
    while i < a.len()
        invariant
            i <= a.len(),
            a.len() == b.len(),
            forall|j: int| 0 <= j < i ==> a@[j] == b@[j],
        decreases a.len() - i,
    {
        if a[i] != b[i] {
            proof {
                assert(a@[i as int] != b@[i as int]);
            }
            return false;
        }
        i += 1;
    }
    proof {
        assert(a@ =~= b@);
    }
    true
}

/// A copy of a byte string whose view is the original's.
pub fn clone_bytes(v: &Vec<u8>) -> (r: Vec<u8>)
    ensures
        r@ == v@,
{
    let r = v.clone();
    proof {
        assert(r@ =~= v@);
    }
    r
}

impl Store {
    /// An empty store with all cursors at one.
    pub fn new() -> (s: Store)
        ensures
            s@.wf(),
            s@.users =~= Seq::<UserRow>::empty(),
            s@.stories =~= Seq::<StoryRowV>::empty(),
            s@.comments =~= Seq::<CommentRowV>::empty(),
            s@.votes =~= Seq::<VoteRow>::empty(),
            s@.tags =~= Seq::<TagRowV>::empty(),
            s@.taggings =~= Seq::<TaggingRow>::empty(),
            s@.keystores =~= Seq::<KeystoreRow>::empty(),
            s@.ribbons =~= Seq::<RibbonRow>::empty(),
            s@.hidden =~= Seq::<UserStoryRow>::empty(),
            s@.saved =~= Seq::<UserStoryRow>::empty(),
            s@.tag_filters =~= Seq::<TagFilterRow>::empty(),
            s@.hats =~= Seq::<HatRow>::empty(),
            s@.next_user_id == 1 && s@.next_story_id == 1 && s@.next_comment_id == 1
                && s@.next_ribbon_id == 1,
    {
        Store {
            users: Vec::new(),
            stories: Vec::new(),
            comments: Vec::new(),
            votes: Vec::new(),
            tags: Vec::new(),
            taggings: Vec::new(),
            keystores: Vec::new(),
            ribbons: Vec::new(),
            hidden: Vec::new(),
            saved: Vec::new(),
            tag_filters: Vec::new(),
            hats: Vec::new(),
            next_user_id: 1,
            next_story_id: 1,
            next_comment_id: 1,
            next_ribbon_id: 1,
        }
    }

    /// Index of the first story with the given short id.
    pub fn story_index(&self, short: &Vec<u8>) -> (r: Option<usize>)
        ensures
            match r {
                Some(i) => i < self.stories.len() && find_story(self@.stories, short@) == Some(
                    i as int,
                ),
                None => find_story(self@.stories, short@) is None,
            },
    {
        let ghost ss = self@.stories;
        let mut i: usize = 0;
        while i < self.stories.len()
            invariant
                i <= self.stories.len(),
                ss == self@.stories,
                ss.len() == self.stories.len(),
                find_story_from(ss, short@, 0) == find_story_from(ss, short@, i as int),
            decreases self.stories.len() - i,
        {
            if bytes_eq(&self.stories[i].short_id, short) {
                proof {
                    assert(ss[i as int].short_id == short@);
                }
                return Some(i);
            }
            proof {
                assert(ss[i as int].short_id != short@);
            }
            i += 1;
        }
        None
    }

    /// Index of the first story with the given database id.
    pub fn story_index_by_id(&self, id: u64) -> (r: Option<usize>)
        ensures
            match r {
                Some(i) => i < self.stories.len() && find_story_by_id(self@.stories, id) == Some(
                    i as int,
                ),
                None => find_story_by_id(self@.stories, id) is None,
            },
    {
        let ghost ss = self@.stories;
        let mut i: usize = 0;
        while i < self.stories.len()
            invariant
                i <= self.stories.len(),
                ss == self@.stories,
                ss.len() == self.stories.len(),
                find_story_by_id_from(ss, id, 0) == find_story_by_id_from(ss, id, i as int),
            decreases self.stories.len() - i,
        {
            if self.stories[i].id == id {
                proof {
                    assert(ss[i as int].id == id);
                }
                return Some(i);
            }
            proof {
                assert(ss[i as int].id != id);
            }
            i += 1;
        }
        None
    }

    /// Index of the first comment with the given short id.
    pub fn comment_index(&self, short: &Vec<u8>) -> (r: Option<usize>)
        ensures
            match r {
                Some(i) => i < self.comments.len() && find_comment(self@.comments, short@) == Some(
                    i as int,
                ),
                None => find_comment(self@.comments, short@) is None,
            },
    {
        let ghost cs = self@.comments;
        let mut i: usize = 0;
        while i < self.comments.len()
            invariant
                i <= self.comments.len(),
                cs == self@.comments,
                cs.len() == self.comments.len(),
                find_comment_from(cs, short@, 0) == find_comment_from(cs, short@, i as int),
            decreases self.comments.len() - i,
        {
            if bytes_eq(&self.comments[i].short_id, short) {
                proof {
                    assert(cs[i as int].short_id == short@);
                }
                return Some(i);
            }
            proof {
                assert(cs[i as int].short_id != short@);
            }
            i += 1;
        }
        None
    }

    /// Index of the first comment of the story with the given short id.
    pub fn story_comment_index(&self, story_id: u64, short: &Vec<u8>) -> (r: Option<usize>)
        ensures
            match r {
                Some(i) => i < self.comments.len() && find_story_comment(
                    self@.comments,
                    story_id,
                    short@,
                ) == Some(i as int),
                None => find_story_comment(self@.comments, story_id, short@) is None,
            },
    {
        let ghost cs = self@.comments;
        let mut i: usize = 0;
        while i < self.comments.len()
            invariant
                i <= self.comments.len(),
                cs == self@.comments,
                cs.len() == self.comments.len(),
                find_story_comment_from(cs, story_id, short@, 0) == find_story_comment_from(
                    cs,
                    story_id,
                    short@,
                    i as int,
                ),
            decreases self.comments.len() - i,
        {
            if self.comments[i].story_id == story_id && bytes_eq(&self.comments[i].short_id, short) {
                proof {
                    assert(cs[i as int].story_id == story_id && cs[i as int].short_id == short@);
                }
                return Some(i);
            }
            proof {
                assert(!(cs[i as int].story_id == story_id && cs[i as int].short_id == short@));
            }
            i += 1;
        }
        None
    }

    /// Index of the first user with the given database id.
    pub fn user_index(&self, id: u64) -> (r: Option<usize>)
        ensures
            match r {
                Some(i) => i < self.users.len() && find_user(self@.users, id) == Some(i as int),
                None => find_user(self@.users, id) is None,
            },
    {
        let mut i: usize = 0;
        while i < self.users.len()
            invariant
                i <= self.users.len(),
                find_user_from(self@.users, id, 0) == find_user_from(self@.users, id, i as int),
            decreases self.users.len() - i,
        {
            if self.users[i].id == id {
                return Some(i);
            }
            i += 1;
        }
        None
    }

    /// Index of the first user whose username encodes `uid`.
    pub fn user_index_by_name(&self, uid: u64) -> (r: Option<usize>)
        ensures
            match r {
                Some(i) => i < self.users.len() && find_user_by_name(self@.users, uid) == Some(
                    i as int,
                ),
                None => find_user_by_name(self@.users, uid) is None,
            },
    {
        let mut i: usize = 0;
        while i < self.users.len()
            invariant
                i <= self.users.len(),
                find_user_by_name_from(self@.users, uid, 0) == find_user_by_name_from(
                    self@.users,
                    uid,
                    i as int,
                ),
            decreases self.users.len() - i,
        {
            if self.users[i].name_uid == uid {
                return Some(i);
            }
            i += 1;
        }
        None
    }

    /// Index of the read ribbon of (user, story).
    pub fn ribbon_index(&self, user_id: u64, story_id: u64) -> (r: Option<usize>)
        ensures
            match r {
                Some(i) => i < self.ribbons.len() && find_ribbon(self@.ribbons, user_id, story_id)
                    == Some(i as int),
                None => find_ribbon(self@.ribbons, user_id, story_id) is None,
            },
    {
        let mut i: usize = 0;
        while i < self.ribbons.len()
            invariant
                i <= self.ribbons.len(),
                find_ribbon_from(self@.ribbons, user_id, story_id, 0) == find_ribbon_from(
                    self@.ribbons,
                    user_id,
                    story_id,
                    i as int,
                ),
            decreases self.ribbons.len() - i,
        {
            if self.ribbons[i].user_id == user_id && self.ribbons[i].story_id == story_id {
                return Some(i);
            }
            i += 1;
        }
        None
    }

    /// Index of the keystore row of (kind, user).
    pub fn keystore_index(&self, kind: CounterKind, user_id: u64) -> (r: Option<usize>)
        ensures
            match r {
                Some(i) => i < self.keystores.len() && find_keystore(self@.keystores, kind, user_id)
                    == Some(i as int),
                None => find_keystore(self@.keystores, kind, user_id) is None,
            },
    {
        let mut i: usize = 0;
        while i < self.keystores.len()
            invariant
                i <= self.keystores.len(),
                find_keystore_from(self@.keystores, kind, user_id, 0) == find_keystore_from(
                    self@.keystores,
                    kind,
                    user_id,
                    i as int,
                ),
            decreases self.keystores.len() - i,
        {
            if self.keystores[i].kind == kind && self.keystores[i].user_id == user_id {
                return Some(i);
            }
            i += 1;
        }
        None
    }

    /// Index of the first active tag carrying the fixed submission tag name.
    pub fn test_tag_index(&self) -> (r: Option<usize>)
        ensures
            match r {
                Some(i) => i < self.tags.len() && find_test_tag(self@.tags) == Some(i as int),
                None => find_test_tag(self@.tags) is None,
            },
    {
        let mut name: Vec<u8> = Vec::new();
        name.push(116);
        name.push(101);
        name.push(115);
        name.push(116);
        proof {
            assert(name@ =~= test_tag_name());
        }
        let ghost ts = self@.tags;
        let mut i: usize = 0;
        while i < self.tags.len()
            invariant
                i <= self.tags.len(),
                name@ == test_tag_name(),
                ts == self@.tags,
                ts.len() == self.tags.len(),
                find_test_tag_from(ts, 0) == find_test_tag_from(ts, i as int),
            decreases self.tags.len() - i,
        {
            if !self.tags[i].inactive && bytes_eq(&self.tags[i].name, &name) {
                proof {
                    assert(!ts[i as int].inactive && ts[i as int].name == test_tag_name());
                }
                return Some(i);
            }
            proof {
                assert(!(!ts[i as int].inactive && ts[i as int].name == test_tag_name()));
            }
            i += 1;
        }
        None
    }

    /// Number of comment rows belonging to the story.
    pub fn count_comments_of(&self, story_id: u64) -> (r: u64)
        ensures
            r == count_story_comments(self@.comments, story_id),
    {
        let ghost cs = self@.comments;
        let mut n: u64 = 0;
        let mut i: usize = 0;
        proof {
            assert(cs.take(0) =~= Seq::<CommentRowV>::empty());
        }
        while i < self.comments.len()
            invariant
                i <= self.comments.len(),
                cs == self@.comments,
                cs.len() == self.comments.len(),
                n == count_story_comments(cs.take(i as int), story_id),
                n <= i,
            decreases self.comments.len() - i,
        {
            proof {
                assert(cs.take(i + 1).drop_last() =~= cs.take(i as int));
                assert(cs.take(i + 1).last() == cs[i as int]);
            }
            if self.comments[i].story_id == story_id {
                n += 1;
            }
            i += 1;
        }
        proof {
            assert(cs.take(cs.len() as int) =~= cs);
        }
        n
    }
}

} // verus!
