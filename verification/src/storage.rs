//! The storage hand-off.
//!
//! A storage backend is an external collaborator: this crate only declares
//! the narrow two-method capability it calls into, one insertion per record
//! kind, each returning the backend's reported outcome. Each backend states
//! its behaviour as a specification function of its own, and its insertions
//! must follow it; a record's `store` dispatches to the kind-appropriate
//! insertion and returns the outcome unchanged.

use vstd::prelude::*;

verus! {

use crate::comment::Comment;
use crate::submission::Submission;

/// A storage backend able to persist both record kinds.
pub trait Storage: Sized {
    /// The backend's own failure type, propagated unchanged.
    type Err;

    /// What inserting a comment does: the backend afterwards, and the
    /// reported outcome.
    spec fn comment_insert(self, c: Comment) -> (Self, Result<usize, Self::Err>);

    /// What inserting a submission does.
    spec fn submission_insert(self, s: Submission) -> (Self, Result<usize, Self::Err>);

    fn insert_comment(&mut self, c: &Comment) -> (r: Result<usize, Self::Err>)
        ensures
            ((*final(self), r)) == old(self).comment_insert(*c),
    ;

    fn insert_submission(&mut self, s: &Submission) -> (r: Result<usize, Self::Err>)
        ensures
            ((*final(self), r)) == old(self).submission_insert(*s),
    ;
}

/// A trivial in-memory backend that counts what it is handed and reports
/// one affected row per insertion. The counters saturate instead of
/// wrapping.
#[derive(Debug, Clone, Copy, PartialEq, Eq, Structural)]
pub struct CountingStorage {
    pub comments: u64,
    pub submissions: u64,
}

impl CountingStorage {
    pub fn new() -> (r: CountingStorage)
        ensures
            r.comments == 0 && r.submissions == 0,
    {
        CountingStorage { comments: 0, submissions: 0 }
    }
}

impl Storage for CountingStorage {
    type Err = ();

    open spec fn comment_insert(self, c: Comment) -> (Self, Result<usize, ()>) {
        (
            CountingStorage {
                comments: if self.comments < u64::MAX {
                    (self.comments + 1) as u64
                } else {
                    u64::MAX
                },
                submissions: self.submissions,
            },
            Ok(1),
        )
    }

    open spec fn submission_insert(self, s: Submission) -> (Self, Result<usize, ()>) {
        (
            CountingStorage {
                comments: self.comments,
                submissions: if self.submissions < u64::MAX {
                    (self.submissions + 1) as u64
                } else {
                    u64::MAX
                },
            },
            Ok(1),
        )
    }

    fn insert_comment(&mut self, c: &Comment) -> (r: Result<usize, ()>) {
        if self.comments < u64::MAX {
            self.comments = self.comments + 1;
        }
        Ok(1)
    }

    fn insert_submission(&mut self, s: &Submission) -> (r: Result<usize, ()>) {
        if self.submissions < u64::MAX {
            self.submissions = self.submissions + 1;
        }
        Ok(1)
    }
}

} // verus!
