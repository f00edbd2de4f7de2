//! The status protocol and the fault-catching translation step.

use equistore_core::boundary::Boundary;
use equistore_core::diagnostics::DiagnosticStore;
use equistore_core::status::Error;
use equistore_core::wrapper::CallOutcome;
use equistore_core::EQS_BUFFER_SIZE_ERROR;
use equistore_core::EQS_INTERNAL_ERROR;
use equistore_core::EQS_INVALID_PARAMETER_ERROR;
use equistore_core::EQS_SUCCESS;

#[test]
fn success_is_zero() {
    assert_eq!(EQS_SUCCESS, 0);
    assert_ne!(EQS_INVALID_PARAMETER_ERROR, 0);
    assert_ne!(EQS_BUFFER_SIZE_ERROR, 0);
    assert_ne!(EQS_INTERNAL_ERROR, 0);
}

#[test]
fn error_codes_are_distinct() {
    let invalid = Error::InvalidParameter("bad argument".to_string());
    let buffer = Error::BufferSize("buffer too small".to_string());
    let internal = Error::Internal("invariant breached".to_string());
    let domain = Error::Domain(42, "domain problem".to_string());
    assert_eq!(invalid.code(), EQS_INVALID_PARAMETER_ERROR);
    assert_eq!(buffer.code(), EQS_BUFFER_SIZE_ERROR);
    assert_eq!(internal.code(), EQS_INTERNAL_ERROR);
    assert_eq!(domain.code(), 42);
}

#[test]
fn completed_call_returns_success_and_keeps_stale_message() {
    let mut store = DiagnosticStore::new();
    let status = store.finish_call(CallOutcome::Failed(Error::BufferSize(
        "buffer too small".to_string(),
    )));
    assert_eq!(status, EQS_BUFFER_SIZE_ERROR);
    assert_eq!(store.last_error(), "buffer too small");

    // a later successful call does not clear the stale diagnostic
    let status = store.finish_call(CallOutcome::Completed);
    assert_eq!(status, EQS_SUCCESS);
    assert_eq!(store.last_error(), "buffer too small");
}

#[test]
fn intercepted_fault_returns_internal_error() {
    let mut store = DiagnosticStore::new();
    let status = store.finish_call(CallOutcome::Panicked(Some(
        "index out of bounds".to_string(),
    )));
    assert_eq!(status, EQS_INTERNAL_ERROR);
    assert_eq!(store.last_error(), "index out of bounds");
}

#[test]
fn intercepted_fault_without_payload_still_has_a_message() {
    let mut store = DiagnosticStore::new();
    let status = store.finish_call(CallOutcome::Panicked(None));
    assert_eq!(status, EQS_INTERNAL_ERROR);
    assert!(!store.last_error().is_empty());

    let mut store = DiagnosticStore::new();
    let status = store.finish_call(CallOutcome::Panicked(Some(String::new())));
    assert_eq!(status, EQS_INTERNAL_ERROR);
    assert!(!store.last_error().is_empty());
}

#[test]
fn diagnostic_query_never_fails() {
    let store = DiagnosticStore::new();
    assert!(!store.last_error().is_empty());
}

#[test]
fn diagnostics_are_scoped_per_context() {
    // one store per calling thread: a failure recorded on one context is
    // invisible on the other
    let mut context_a = Boundary::new();
    let context_b = Boundary::new();
    let placeholder = context_b.last_error();

    let mut out: u64 = 0;
    let status = context_a.labels_create(-1, 0, &mut out);
    assert_eq!(status, EQS_INVALID_PARAMETER_ERROR);
    assert_ne!(context_a.last_error(), placeholder);
    assert_eq!(context_b.last_error(), placeholder);
}

#[test]
fn fault_reporting_survives_hook_toggling() {
    let mut boundary = Boundary::new();
    boundary.disable_panic_printing();
    boundary.configure_panic_printing(false);
    boundary.disable_panic_printing();

    // rendering is suppressed, yet the status protocol is intact
    let (status, render) = boundary.intercept_fault(Some("injected fault".to_string()), &None);
    assert_eq!(status, EQS_INTERNAL_ERROR);
    assert!(!render);
    assert_eq!(boundary.last_error(), "injected fault");
}

#[test]
fn override_forces_rendering_at_fault_time() {
    let mut boundary = Boundary::new();

    // the default renders, with or without the override
    let (status, render) = boundary.intercept_fault(None, &None);
    assert_eq!(status, EQS_INTERNAL_ERROR);
    assert!(render);

    boundary.disable_panic_printing();
    let (_, render) = boundary.intercept_fault(None, &None);
    assert!(!render);
    let (_, render) = boundary.intercept_fault(None, &Some("0".to_string()));
    assert!(!render);
    let (status, render) = boundary.intercept_fault(None, &Some("full".to_string()));
    assert_eq!(status, EQS_INTERNAL_ERROR);
    assert!(render);
}
