//! Requests, faults and handler outcomes.

use vstd::prelude::*;
use crate::stmt::Stmt;

verus! {

/// Direction of a vote.
#[derive(Clone, Copy, Debug, PartialEq, Eq, Structural)]
pub enum VoteDir {
    Up,
    Down,
}

/// Which interchangeable query strategy is active.  Both strategies share the
/// page handlers; they differ in the schema text and in the shape of the
/// notification count query.
#[derive(Clone, Copy, Debug, PartialEq, Eq, Structural)]
pub enum Variant {
    /// The normalized schema of the original application.
    Original,
    /// The denormalized/materialized schema variant.
    Denorm,
}

/// One page request, as handed over by the workload generator.  Short
/// identifiers arrive as raw bytes.
#[derive(Clone, Debug, PartialEq, Eq)]
pub enum PageKind {
    User(u64),
    Frontpage,
    Comments,
    Recent,
    Login,
    Logout,
    Story(Vec<u8>),
    StoryVote(Vec<u8>, VoteDir),
    CommentVote(Vec<u8>, VoteDir),
    Submit { id: Vec<u8>, title: Vec<u8> },
    Comment { id: Vec<u8>, story: Vec<u8>, parent: Option<Vec<u8>> },
}

/// A request record: the acting user (if logged in), the page, and whether
/// this runs during the priming phase.
#[derive(Clone, Debug, PartialEq, Eq)]
pub struct Request {
    pub acting_user: Option<u64>,
    pub page: PageKind,
    pub is_priming: bool,
}

/// Fatal data-integrity and configuration faults.  The original application
/// crashes on each of these; this library returns them explicitly and the
/// surrounding driver aborts.
#[derive(Clone, Copy, Debug, PartialEq, Eq, Structural)]
pub enum Fault {
    /// A handler that requires a logged-in user was called without one.
    NoActingUser,
    /// A story referenced by short id does not resolve.
    UnknownStory,
    /// A comment referenced by short id does not resolve.
    UnknownComment,
    /// The fixed submission tag is missing or inactive.
    NoActiveTag,
    /// A listing's primary query returned zero rows, which indicates an
    /// unprimed or broken database, never a legitimate empty page.
    EmptyListing,
}

/// What a handler hands back: the ordered statement trace to issue, and
/// whether the notifications step should run afterwards.
#[derive(Clone, Debug, PartialEq, Eq)]
pub struct Outcome {
    pub trace: Vec<Stmt>,
    pub notify: bool,
}

} // verus!
