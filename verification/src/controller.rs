//! The per-page upload affordance: decides whether a transfer may start,
//! keeps the most recent progress and the last outcome for display, and maps
//! terminal outcomes to the callback the embedding page must invoke.
//!
//! The embedding page runs the event loop: it performs the actual transfer,
//! hands every event to this controller, and invokes the callback the
//! controller returns. The controller classifies and forwards exactly once
//! per started transfer; after a cancellation, no callback is returned at
//! all.
use vstd::prelude::*;

use crate::progress::Progress;
use crate::session::{
    classifies, is_success_status, is_transport_failure, ProgressSample, SessionHandle, StartError,
    TransferOutcome, TransferRequest, TransferSession,
};

verus! {

/// The callback the embedding page must invoke after a terminal outcome.
#[allow(inconsistent_fields)]
#[derive(Clone, Debug, PartialEq, Eq)]
pub enum CallbackInvocation {
    /// Call the success callback with the raw response body; callers
    /// deserialize it themselves.
    Success { body_text: String },
    /// Call the failure callback. Status and body are those of the response
    /// when one arrived; both are absent after a transport error.
    Failure { status_code: Option<u16>, body_text: Option<String> },
}

/// Drives one embedding page's transfer affordance.
pub struct UploadController {
    pub session: TransferSession,
    /// The most recent progress sample of the running transfer, for display.
    pub latest_sample: Option<ProgressSample>,
    /// The last transfer's outcome, for display; cleared when a new
    /// transfer starts.
    pub last_outcome: Option<TransferOutcome>,
}

impl UploadController {
    pub open spec fn wf(&self) -> bool {
        self.session.wf()
    }

    /// A fresh controller around a fresh idle session.
    pub fn new() -> (c: UploadController)
        ensures
            c.wf(),
            c.session.state is Idle,
            c.session.next_handle == 0,
            c.latest_sample is None,
            c.last_outcome is None,
    {
        UploadController { session: TransferSession::new(), latest_sample: None, last_outcome: None }
    }

    /// The user asks to start a transfer. Rejected as a no-op, with
    /// `AlreadyActive`, unless the session is idle; otherwise the previous
    /// outcome is cleared from the display and the transfer starts under a
    /// fresh handle.
    pub fn on_user_requests_start(&mut self, request: TransferRequest) -> (r: Result<
        SessionHandle,
        StartError,
    >)
        requires
            old(self).wf(),
        ensures
            final(self).wf(),
            old(self).session.state is Idle ==> {
                &&& r == Ok::<SessionHandle, StartError>(
                    SessionHandle { id: old(self).session.next_handle },
                )
                &&& final(self).session.state is Sending
                &&& final(self).session.handle == old(self).session.next_handle
                &&& final(self).session.last_loaded == 0
                &&& final(self).session.history@.len() == 0
                &&& final(self).session.request == Some(request)
                &&& final(self).last_outcome is None
                &&& final(self).latest_sample == old(self).latest_sample
            },
            !(old(self).session.state is Idle) ==> r == Err::<SessionHandle, StartError>(
                StartError::AlreadyActive,
            ) && *final(self) == *old(self),
    {
        if self.session.is_idle() {
            let handle = self.session.start(request);
            self.last_outcome = None;
            handle
        } else {
            Err(StartError::AlreadyActive)
        }
    }

    /// The user asks to cancel. While a transfer is in flight the session
    /// aborts, the progress display is cleared, the abort is recorded as
    /// the last outcome and the session returns to idle silently — no
    /// callback is returned, so neither callback fires. Otherwise nothing
    /// happens.
    pub fn on_user_requests_abort(&mut self) -> (aborted: bool)
        requires
            old(self).wf(),
        ensures
            final(self).wf(),
            aborted == (old(self).session.state is Sending),
            aborted ==> {
                &&& final(self).session.state is Idle
                &&& final(self).session.next_handle == old(self).session.next_handle
                &&& final(self).latest_sample is None
                &&& final(self).last_outcome == Some(TransferOutcome::Aborted)
            },
            !aborted ==> *final(self) == *old(self),
    {
        if self.session.is_sending() {
            self.session.abort();
            self.session.reset();
            self.latest_sample = None;
            self.last_outcome = Some(TransferOutcome::Aborted);
            true
        } else {
            false
        }
    }

    /// A progress event arrives from the transfer primitive. Accepted only
    /// for the live transfer, in which case it becomes the displayed
    /// sample; a stale or late event changes nothing. The host delivers
    /// samples of one transfer in non-decreasing `loaded` order, which the
    /// precondition reflects.
    pub fn on_progress_event(&mut self, handle: SessionHandle, sample: ProgressSample) -> (accepted:
        bool)
        requires
            old(self).wf(),
            old(self).session.accepts(handle) ==> sample.loaded >= old(self).session.last_loaded,
        ensures
            final(self).wf(),
            accepted == old(self).session.accepts(handle),
            accepted ==> {
                &&& final(self).latest_sample == Some(sample)
                &&& final(self).session.state == old(self).session.state
                &&& final(self).session.history@ == old(self).session.history@.push(sample)
                &&& final(self).session.handle == old(self).session.handle
                &&& final(self).session.next_handle == old(self).session.next_handle
                &&& final(self).last_outcome == old(self).last_outcome
            },
            !accepted ==> *final(self) == *old(self),
    {
        let accepted = self.session.on_progress(handle, sample);
        if accepted {
            self.latest_sample = Some(sample);
        }
        accepted
    }

    /// A completion event arrives: for the live transfer the response is
    /// classified, the outcome recorded for display, the session reset to
    /// idle, and the one callback to invoke is returned — the success
    /// callback for a status in the success set, the failure callback with
    /// status and body otherwise. A stale or late completion is ignored and
    /// returns no callback.
    pub fn on_completion_event(&mut self, handle: SessionHandle, status_code: u16, body_text: String) -> (r:
        Option<CallbackInvocation>)
        requires
            old(self).wf(),
        ensures
            final(self).wf(),
            old(self).session.accepts(handle) ==> {
                &&& is_success_status(status_code) ==> {
                    &&& r matches Some(CallbackInvocation::Success { body_text: bt })
                    &&& bt@ == body_text@
                }
                &&& !is_success_status(status_code) ==> {
                    &&& r matches Some(
                        CallbackInvocation::Failure { status_code: sc, body_text: bt },
                    )
                    &&& sc == Some(status_code)
                    &&& bt matches Some(b)
                    &&& b@ == body_text@
                }
                &&& final(self).session.state is Idle
                &&& final(self).session.next_handle == old(self).session.next_handle
                &&& final(self).latest_sample is None
                &&& final(self).last_outcome matches Some(oc) && classifies(
                    status_code,
                    body_text@,
                    oc,
                )
            },
            !old(self).session.accepts(handle) ==> r is None && *final(self) == *old(self),
    {
        match self.session.on_completion(handle, status_code, body_text) {
            Some(outcome) => {
                let invocation = match &outcome {
                    TransferOutcome::Success { status_code: _, body_text } => {
                        CallbackInvocation::Success { body_text: body_text.clone() }
                    },
                    TransferOutcome::Failure { status_code, body_text } => {
                        CallbackInvocation::Failure {
                            status_code: *status_code,
                            body_text: match body_text {
                                Some(b) => Some(b.clone()),
                                None => None,
                            },
                        }
                    },
                    TransferOutcome::Aborted => {
                        proof {
                            assert(false);
                        }
                        CallbackInvocation::Failure { status_code: None, body_text: None }
                    },
                };
                self.last_outcome = Some(outcome);
                self.latest_sample = None;
                self.session.reset();
                Some(invocation)
            },
            None => None,
        }
    }

    /// A transport error arrives — no response could be obtained: for the
    /// live transfer it is recorded as a failure with neither status nor
    /// body, the session resets to idle, and the failure callback is
    /// returned with both fields absent, distinguishable from a response
    /// failure. Stale or late events are ignored.
    pub fn on_transport_error_event(&mut self, handle: SessionHandle) -> (r: Option<
        CallbackInvocation,
    >)
        requires
            old(self).wf(),
        ensures
            final(self).wf(),
            old(self).session.accepts(handle) ==> {
                &&& r matches Some(CallbackInvocation::Failure { status_code: sc, body_text: bt })
                &&& sc is None
                &&& bt is None
                &&& final(self).session.state is Idle
                &&& final(self).session.next_handle == old(self).session.next_handle
                &&& final(self).latest_sample is None
                &&& final(self).last_outcome matches Some(oc)
                &&& is_transport_failure(oc)
            },
            !old(self).session.accepts(handle) ==> r is None && *final(self) == *old(self),
    {
        match self.session.on_transport_error(handle) {
            Some(outcome) => {
                self.last_outcome = Some(outcome);
                self.latest_sample = None;
                self.session.reset();
                Some(CallbackInvocation::Failure { status_code: None, body_text: None })
            },
            None => None,
        }
    }

    /// The formatted rendering of the displayed progress sample, if any: the
    /// loaded and total byte counts each with their display unit and
    /// integer string.
    pub fn progress_display(&self) -> (r: Option<Progress>)
        ensures
            self.latest_sample matches Some(s) ==> r matches Some(p) && p.wf() && p.spec_loaded()
                == s.loaded && p.spec_total() == s.total,
            self.latest_sample is None ==> r is None,
    {
        match self.latest_sample {
            Some(sample) => Some(Progress::new(sample.loaded, sample.total)),
            None => None,
        }
    }
}

} // verus!
