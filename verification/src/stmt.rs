//! The statements a handler issues against the backing store, as plain data.
//!
//! Every page handler returns the ordered trace of statements it would run,
//! parameters included.  The unverified driver renders each entry to SQL for
//! the chosen backend and executes it; the library itself decides what is
//! issued, in which order, and with which values.  Read-only entries whose
//! results the original application never used are kept, because reproducing
//! those round-trips is part of the workload.

use vstd::prelude::*;
use crate::num::Ratio;

verus! {

/// The per-user activity counters kept in the keystore table, identified by
/// the key string `user:{id}:<counter>` in the real schema.
#[derive(Clone, Copy, Debug, PartialEq, Eq, Structural)]
pub enum CounterKind {
    StoriesSubmitted,
    CommentsPosted,
    UnreadMessages,
}

/// One statement of a handler's trace.  `Select*` entries read, the rest
/// write.  Identifier lists stand for `IN (...)` predicates over the
/// deduplicated id set of a primary query.
#[derive(Clone, Debug, PartialEq, Eq)]
pub enum Stmt {
    /// `SELECT 1 FROM users WHERE username = 'user{uid}'` (login check).
    SelectUsernameExists { uid: u64 },
    /// `INSERT INTO users (username) VALUES ('user{uid}')`.
    InsertUser { uid: u64 },
    /// `SELECT users.* FROM users WHERE username = 'user{uid}'` (profile).
    SelectUserByUsername { uid: u64 },
    /// Grouped count of the user's most used active tag.
    SelectMostPopularTag { user_id: u64 },
    /// `SELECT tags.* WHERE id = ?`.
    SelectTagById { tag_id: u64 },
    /// `SELECT keystores.* WHERE key = 'user:{user_id}:...'`.
    SelectKeystore { kind: CounterKind, user_id: u64 },
    /// `SELECT 1 FROM hats WHERE user_id = ? LIMIT 1`.
    SelectHat { user_id: u64 },

    /// `SELECT stories.* WHERE short_id = ?`.
    SelectStoryByShortId { short_id: Vec<u8> },
    /// `SELECT votes.* WHERE user_id = ? AND story_id = ? AND comment_id IS NULL`.
    SelectStoryVote { user_id: u64, story_id: u64 },
    /// `INSERT INTO votes (user_id, story_id, vote)`.
    InsertStoryVote { user_id: u64, story_id: u64, up: bool },
    /// `UPDATE users SET karma = karma +/- 1 WHERE id = ?`.
    UpdateKarma { user_id: u64, up: bool },
    /// Tags of a story, via the taggings join.
    SelectStoryTags { story_id: u64 },
    /// Up/down totals of the story's comments by other users.
    SelectCommentKarma { story_id: u64 },
    /// `SELECT stories.id WHERE merged_story_id = ?`.
    SelectMergedStories { story_id: u64 },
    /// Vote-count bump plus hotness overwrite on a story row.
    UpdateStoryVotes { story_id: u64, up: bool, hotness: i64 },

    /// `SELECT comments.* WHERE short_id = ?`.
    SelectCommentByShortId { short_id: Vec<u8> },
    /// `SELECT votes.* WHERE user_id = ? AND story_id = ? AND comment_id = ?`.
    SelectCommentVote { user_id: u64, story_id: u64, comment_id: u64 },
    /// `INSERT INTO votes (user_id, story_id, comment_id, vote)`.
    InsertCommentVote { user_id: u64, story_id: u64, comment_id: u64, up: bool },
    /// Vote-count bump plus confidence overwrite on a comment row.
    UpdateCommentVotes { comment_id: u64, up: bool, confidence: Ratio },
    /// `SELECT stories.* WHERE id = ?`.
    SelectStoryById { story_id: u64 },

    /// `SELECT tags.* WHERE inactive = 0 AND tag IN ('test')`.
    SelectActiveTestTag,
    /// Short-id availability check for a new story.
    SelectStoryShortIdFree { short_id: Vec<u8> },
    /// `INSERT INTO stories (...)` with the fixed synthetic body.
    InsertStory { now: i64, user_id: u64, title: Vec<u8>, short_id: Vec<u8>, hotness: i64 },
    /// `INSERT INTO taggings (story_id, tag_id)`.
    InsertTagging { story_id: u64, tag_id: u64 },
    /// Keystore upsert that increments the counter by one.
    UpsertKeystoreIncrement { kind: CounterKind, user_id: u64 },
    /// `UPDATE stories SET hotness = ? WHERE id = ?`.
    UpdateStoryHotness { story_id: u64, hotness: i64 },

    /// `SELECT users.* WHERE id = ?`.
    SelectUserById { user_id: u64 },
    /// Parent lookup: `SELECT comments.* WHERE story_id = ? AND short_id = ?`.
    SelectCommentByStoryShortId { story_id: u64, short_id: Vec<u8> },
    /// Short-id availability check for a new comment.
    SelectCommentShortIdFree { short_id: Vec<u8> },
    /// `INSERT INTO comments (...)` with the fixed synthetic body.
    InsertComment {
        now: i64,
        short_id: Vec<u8>,
        story_id: u64,
        user_id: u64,
        parent: Option<u64>,
        thread: Option<u64>,
        confidence: Ratio,
    },
    /// Ordered comments of one story (net score ascending, confidence
    /// descending); the poster only counts the rows.
    SelectStoryComments { story_id: u64 },
    /// `UPDATE stories SET comments_count = ? WHERE id = ?`.
    UpdateCommentsCount { story_id: u64, count: u64 },

    /// `SELECT read_ribbons.* WHERE user_id = ? AND story_id = ?`.
    SelectReadRibbon { user_id: u64, story_id: u64 },
    /// `INSERT INTO read_ribbons (...)`.
    InsertReadRibbon { now: i64, user_id: u64, story_id: u64 },
    /// `UPDATE read_ribbons SET updated_at = ? WHERE id = ?`.
    UpdateReadRibbon { now: i64, ribbon_id: u64 },
    /// `SELECT votes.* WHERE comment_id IN (...)`.
    SelectVotesForComments { comment_ids: Vec<u64> },
    /// `SELECT users.* WHERE id IN (...)`.
    SelectUsersByIds { user_ids: Vec<u64> },
    /// `SELECT hidden_stories.* WHERE user_id = ? AND story_id = ?`.
    SelectHiddenStory { user_id: u64, story_id: u64 },
    /// `SELECT saved_stories.* WHERE user_id = ? AND story_id = ?`.
    SelectSavedStory { user_id: u64, story_id: u64 },
    /// `SELECT taggings.* WHERE story_id = ?`.
    SelectTaggingsOfStory { story_id: u64 },
    /// `SELECT tags.* WHERE id IN (...)`.
    SelectTagsByIds { tag_ids: Vec<u64> },

    /// The capped, hotness-ordered frontpage window.
    SelectFrontpageStories,
    /// The capped, newest-first story window of /recent.
    SelectRecentStories,
    /// The capped, newest-first comment window of /comments.
    SelectRecentComments,
    /// `SELECT hidden_stories.story_id WHERE user_id = ?`.
    SelectHiddenStoriesOfUser { user_id: u64 },
    /// `SELECT tag_filters.* WHERE user_id = ?`.
    SelectTagFiltersOfUser { user_id: u64 },
    /// Taggings restricted to both a story set and a tag set.
    SelectTaggingsFiltered { story_ids: Vec<u64>, tag_ids: Vec<u64> },
    /// `SELECT taggings.* WHERE story_id IN (...)`.
    SelectTaggingsForStories { story_ids: Vec<u64> },
    /// `SELECT suggested_titles.* WHERE story_id IN (...)`.
    SelectSuggestedTitles { story_ids: Vec<u64> },
    /// `SELECT suggested_taggings.* WHERE story_id IN (...)`.
    SelectSuggestedTaggings { story_ids: Vec<u64> },
    /// `SELECT stories.* WHERE id IN (...)`.
    SelectStoriesByIds { story_ids: Vec<u64> },
    /// `SELECT votes.* WHERE user_id = ? AND story_id IN (...) AND comment_id IS NULL`.
    SelectUserVotesForStories { user_id: u64, story_ids: Vec<u64> },
    /// `SELECT hidden_stories.* WHERE user_id = ? AND story_id IN (...)`.
    SelectHiddenForStories { user_id: u64, story_ids: Vec<u64> },
    /// `SELECT saved_stories.* WHERE user_id = ? AND story_id IN (...)`.
    SelectSavedForStories { user_id: u64, story_ids: Vec<u64> },
    /// `SELECT votes.* WHERE user_id = ? AND comment_id IN (...)`.
    SelectUserVotesForComments { user_id: u64, comment_ids: Vec<u64> },

    /// Unread-reply count of the original schema variant.
    SelectNotificationCountOriginal { user_id: u64 },
    /// Unread-reply count of the denormalized schema variant.
    SelectNotificationCountDenorm { user_id: u64 },
}

} // verus!
