//! The per-thread diagnostic message store.
//!
//! One store exists per execution context (the embedder keeps one per calling
//! thread), so concurrent callers never observe each other's messages. The
//! store holds the diagnostic of the most recent failing call; a successful
//! call leaves it untouched, so a stale message may remain visible.

use vstd::prelude::*;

verus! {

/// Holds the diagnostic message of the most recent failing call on one
/// execution context.
pub struct DiagnosticStore {
    last: Option<String>,
}

impl DiagnosticStore {
    /// The message of the most recent failure, or `None` when no call has
    /// failed yet on this context.
    pub closed spec fn last_message(&self) -> Option<Seq<char>> {
        match self.last {
            Some(m) => Some(m@),
            None => None,
        }
    }

    /// The placeholder handed out before any call has failed.
    pub open spec fn spec_placeholder() -> Seq<char> {
        "no error recorded on this thread"@
    }

    /// A fresh store, with no failure recorded yet.
    pub fn new() -> (store: Self)
        ensures
            store.last_message() is None,
    {
        DiagnosticStore { last: None }
    }

    /// Overwrites the stored diagnostic with the message of a new failure.
    pub(crate) fn record(&mut self, message: String)
        ensures
            final(self).last_message() == Some(message@),
    {
        self.last = Some(message);
    }

    /// The diagnostic of the most recent failure on this context. Never
    /// fails: before any failure it returns a non-empty placeholder.
    pub fn last_error(&self) -> (message: String)
        ensures
            match self.last_message() {
                Some(m) => message@ == m,
                None => message@ == Self::spec_placeholder() && message@.len() > 0,
            },
    {
        match &self.last {
            Some(m) => m.clone(),
            None => {
                proof {
                    reveal_strlit("no error recorded on this thread");
                }
                "no error recorded on this thread".to_owned()
            }
        }
    }
}

} // verus!
