//! The translation step of the fault-catching call wrapper.
//!
//! Every exported operation runs inside a wrapper that intercepts internal
//! faults at the boundary. The wrapper itself performs no business logic: it
//! observes how the operation body ended — completed, failed explicitly, or
//! was cut short by an intercepted fault — and translates that outcome into a
//! status code, recording the diagnostic message for any failure.

use vstd::prelude::*;

use crate::diagnostics::DiagnosticStore;
use crate::status::Error;
use crate::status::EQS_INTERNAL_ERROR;
use crate::status::EQS_SUCCESS;

verus! {

/// How the body of one boundary-crossing operation ended.
pub enum CallOutcome {
    /// The body ran to completion; its documented postconditions hold.
    Completed,
    /// The body's own logic detected a problem and signalled a typed error.
    Failed(Error),
    /// An internal fault cut the body short and was intercepted at the
    /// boundary; the payload is the message the fault carried, if any.
    Panicked(Option<String>),
}

/// An outcome is well formed when an explicit failure carries a well-formed
/// error; an intercepted fault may carry anything, or nothing.
pub open spec fn outcome_wf(outcome: CallOutcome) -> bool {
    match outcome {
        CallOutcome::Failed(e) => e.wf(),
        _ => true,
    }
}

/// The status code an outcome is reported as: zero exactly for a completed
/// body, the error's own code for an explicit failure, and
/// `EQS_INTERNAL_ERROR` for an intercepted fault.
pub open spec fn spec_status(outcome: CallOutcome) -> i32 {
    match outcome {
        CallOutcome::Completed => EQS_SUCCESS,
        CallOutcome::Failed(e) => e.spec_code(),
        CallOutcome::Panicked(_) => EQS_INTERNAL_ERROR,
    }
}

/// The generic diagnostic used when an intercepted fault carried no message.
pub open spec fn spec_generic_fault_message() -> Seq<char> {
    "internal fault with no diagnostic message"@
}

/// The diagnostic recorded for a failing outcome: the error's own message for
/// an explicit failure, and the fault's payload — or the generic fallback when
/// the payload is absent or empty — for an intercepted fault.
pub open spec fn spec_diagnostic(outcome: CallOutcome) -> Seq<char> {
    match outcome {
        CallOutcome::Completed => Seq::empty(),
        CallOutcome::Failed(e) => e.spec_message(),
        CallOutcome::Panicked(payload) => match payload {
            Some(m) => if m@.len() > 0 {
                m@
            } else {
                spec_generic_fault_message()
            },
            None => spec_generic_fault_message(),
        },
    }
}

impl DiagnosticStore {
    /// The single translation point of the call boundary: turns the outcome
    /// of an operation body into the status code handed back to the caller,
    /// recording the diagnostic of a failure in this store. A completed body
    /// leaves the store untouched, so a stale message may remain.
    pub fn finish_call(&mut self, outcome: CallOutcome) -> (status: i32)
        requires
            outcome_wf(outcome),
        ensures
            status == spec_status(outcome),
            (status == EQS_SUCCESS) <==> (outcome is Completed),
            outcome is Completed ==> *final(self) == *old(self),
            !(outcome is Completed) ==> {
                &&& final(self).last_message() == Some(spec_diagnostic(outcome))
                &&& spec_diagnostic(outcome).len() > 0
            },
    {
        match outcome {
            CallOutcome::Completed => EQS_SUCCESS,
            CallOutcome::Failed(e) => {
                let status = e.code();
                self.record(e.into_message());
                status
            }
            CallOutcome::Panicked(payload) => {
                proof {
                    reveal_strlit("internal fault with no diagnostic message");
                }
                match payload {
                    Some(m) => {
                        if m.as_str().unicode_len() > 0 {
                            self.record(m);
                        } else {
                            self.record("internal fault with no diagnostic message".to_owned());
                        }
                    }
                    None => {
                        self.record("internal fault with no diagnostic message".to_owned());
                    }
                }
                EQS_INTERNAL_ERROR
            }
        }
    }
}

} // verus!
