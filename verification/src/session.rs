//! One outbound multipart transfer's lifecycle: a state machine over the
//! events the host's transfer primitive delivers (progress, completion,
//! transport error) and the operations the caller may invoke (start, abort,
//! reset).
//!
//! Events carry the handle under which the transfer was started; an event
//! whose handle no longer matches the session's live handle, or that arrives
//! after a terminal transition, is ignored.
use vstd::prelude::*;

verus! {

/// What the transfer primitive is asked to send: the target URL, a
/// caller-owned reference to the form whose fields and files make up the
/// multipart body, and whether several files may be submitted at once.
pub struct TransferRequest {
    pub target_url: String,
    pub form_reference: String,
    pub is_multiple: bool,
}

/// One byte-progress report for a running transfer. A `total` of zero means
/// the overall size is not (yet) known.
#[derive(Clone, Copy, Debug, PartialEq, Eq, Structural)]
pub struct ProgressSample {
    pub loaded: u64,
    pub total: u64,
}

/// The in-flight reference a live transfer is identified by. Events carry
/// it back; a stale one no longer matches the session.
#[derive(Clone, Copy, Debug, PartialEq, Eq, Structural)]
pub struct SessionHandle {
    pub id: u64,
}

/// How one transfer ended.
#[allow(inconsistent_fields)]
#[derive(Clone, Debug, PartialEq, Eq)]
pub enum TransferOutcome {
    /// A response with a status code in the success set arrived.
    Success { status_code: u16, body_text: String },
    /// A response with any other status arrived, or — with both fields
    /// absent — no response could be obtained at all.
    Failure { status_code: Option<u16>, body_text: Option<String> },
    /// The caller cancelled the transfer.
    Aborted,
}

/// The session's lifecycle state.
pub enum SessionState {
    Idle,
    Sending,
    Aborted,
    Completed(TransferOutcome),
}

/// The one way starting a transfer can fail.
#[derive(Clone, Copy, Debug, PartialEq, Eq, Structural)]
pub enum StartError {
    /// A transfer is already in flight; the session is left untouched.
    AlreadyActive,
}

/// The response status codes that count as success: 200, 201, 203 and 304.
pub open spec fn is_success_status(status_code: u16) -> bool {
    status_code == 200 || status_code == 201 || status_code == 203 || status_code == 304
}

/// How a received response is classified: a status in the success set makes
/// a `Success` carrying the status and the raw body, any other status a
/// `Failure` carrying both.
pub open spec fn classifies(status_code: u16, body: Seq<char>, outcome: TransferOutcome) -> bool {
    if is_success_status(status_code) {
        &&& outcome matches TransferOutcome::Success { status_code: sc, body_text: bt }
        &&& sc == status_code
        &&& bt@ == body
    } else {
        &&& outcome matches TransferOutcome::Failure { status_code: sc, body_text: bt }
        &&& sc == Some(status_code)
        &&& bt matches Some(b)
        &&& b@ == body
    }
}

/// The outcome of a transport error: a failure with neither status nor body.
pub open spec fn is_transport_failure(outcome: TransferOutcome) -> bool {
    outcome matches TransferOutcome::Failure { status_code: sc, body_text: bt } && sc is None
        && bt is None
}

/// Owns one outbound transfer's lifecycle. `history` records the progress
/// samples accepted for the current transfer, oldest first.
pub struct TransferSession {
    pub state: SessionState,
    /// Identifier of the live transfer; meaningful while `Sending`.
    pub handle: u64,
    /// Identifier the next started transfer will get.
    pub next_handle: u64,
    /// `loaded` of the most recently accepted sample; zero before the first.
    pub last_loaded: u64,
    /// The request a transfer was started with; `Some` from `start` until
    /// `reset`.
    pub request: Option<TransferRequest>,
    pub history: Ghost<Seq<ProgressSample>>,
}

impl TransferSession {
    /// Well-formedness: the recorded progress is non-decreasing in `loaded`,
    /// `last_loaded` bounds it from above, and an idle session holds neither
    /// a request nor progress.
    pub open spec fn wf(&self) -> bool {
        &&& forall|i: int, j: int|
            0 <= i <= j < self.history@.len() ==> self.history@[i].loaded
                <= self.history@[j].loaded
        &&& forall|i: int| 0 <= i < self.history@.len() ==> self.history@[i].loaded <= self.last_loaded
        &&& self.history@.len() > 0 ==> self.last_loaded == self.history@.last().loaded
        &&& self.state is Idle ==> self.history@.len() == 0 && self.request is None
        &&& self.state is Sending ==> self.request is Some
    }

    /// A fresh session: idle, with nothing recorded.
    pub fn new() -> (s: Self)
        ensures
            s.wf(),
            s.state is Idle,
            s.next_handle == 0,
            s.last_loaded == 0,
            s.history@.len() == 0,
    {
        TransferSession {
            state: SessionState::Idle,
            handle: 0,
            next_handle: 0,
            last_loaded: 0,
            request: None,
            history: Ghost(Seq::empty()),
        }
    }

    /// Starts a transfer. Fails with `AlreadyActive`, leaving the session
    /// untouched, whenever the session is not idle; otherwise transitions
    /// to `Sending` under a fresh handle and hands that handle back.
    pub fn start(&mut self, request: TransferRequest) -> (r: Result<SessionHandle, StartError>)
        requires
            old(self).wf(),
        ensures
            final(self).wf(),
            old(self).state is Idle ==> {
                &&& r == Ok::<SessionHandle, StartError>(
                    SessionHandle { id: old(self).next_handle },
                )
                &&& final(self).state is Sending
                &&& final(self).handle == old(self).next_handle
                &&& final(self).next_handle == (if old(self).next_handle == u64::MAX {
                    0u64
                } else {
                    (old(self).next_handle + 1) as u64
                })
                &&& final(self).last_loaded == 0
                &&& final(self).history@.len() == 0
                &&& final(self).request == Some(request)
            },
            !(old(self).state is Idle) ==> r == Err::<SessionHandle, StartError>(
                StartError::AlreadyActive,
            ) && *final(self) == *old(self),
    {
        match self.state {
            SessionState::Idle => {
                let id = self.next_handle;
                self.next_handle = self.next_handle.wrapping_add(1);
                self.handle = id;
                self.last_loaded = 0;
                self.history = Ghost(Seq::empty());
                self.request = Some(request);
                self.state = SessionState::Sending;
                Ok(SessionHandle { id })
            },
            _ => Err(StartError::AlreadyActive),
        }
    }

    /// Whether an event under `handle` belongs to the live transfer.
    pub open spec fn accepts(&self, handle: SessionHandle) -> bool {
        self.state is Sending && handle.id == self.handle
    }

    /// Records a progress sample of the live transfer; does not change the
    /// state. A sample of a stale handle, or one arriving after a terminal
    /// transition, leaves the session untouched. The host delivers samples
    /// of one transfer in non-decreasing `loaded` order, which the
    /// precondition reflects.
    pub fn on_progress(&mut self, handle: SessionHandle, sample: ProgressSample) -> (accepted:
        bool)
        requires
            old(self).wf(),
            old(self).accepts(handle) ==> sample.loaded >= old(self).last_loaded,
        ensures
            final(self).wf(),
            accepted == old(self).accepts(handle),
            accepted ==> {
                &&& final(self).state == old(self).state
                &&& final(self).history@ == old(self).history@.push(sample)
                &&& final(self).last_loaded == sample.loaded
                &&& final(self).handle == old(self).handle
                &&& final(self).next_handle == old(self).next_handle
                &&& final(self).request == old(self).request
            },
            !accepted ==> *final(self) == *old(self),
    {
        let live = match self.state {
            SessionState::Sending => true,
            _ => false,
        };
        if live && handle.id == self.handle {
            self.last_loaded = sample.loaded;
            self.history = Ghost(self.history@.push(sample));
            true
        } else {
            false
        }
    }

    /// Takes the one completion event of the live transfer: classifies the
    /// response, transitions to `Completed`, and returns the outcome to
    /// forward. A completion of a stale handle, or one arriving after a
    /// terminal transition, is ignored and returns nothing.
    pub fn on_completion(&mut self, handle: SessionHandle, status_code: u16, body_text: String) -> (r:
        Option<TransferOutcome>)
        requires
            old(self).wf(),
        ensures
            final(self).wf(),
            old(self).accepts(handle) ==> {
                &&& r matches Some(oc) && classifies(status_code, body_text@, oc)
                &&& final(self).state matches SessionState::Completed(oc2) && classifies(
                    status_code,
                    body_text@,
                    oc2,
                )
                &&& final(self).history@ == old(self).history@
                &&& final(self).last_loaded == old(self).last_loaded
                &&& final(self).handle == old(self).handle
                &&& final(self).next_handle == old(self).next_handle
                &&& final(self).request == old(self).request
            },
            !old(self).accepts(handle) ==> r is None && *final(self) == *old(self),
    {
        let live = match self.state {
            SessionState::Sending => true,
            _ => false,
        };
        if live && handle.id == self.handle {
            let success = status_code == 200 || status_code == 201 || status_code == 203
                || status_code == 304;
            if success {
                let stored = TransferOutcome::Success {
                    status_code,
                    body_text: body_text.clone(),
                };
                self.state = SessionState::Completed(stored);
                Some(TransferOutcome::Success { status_code, body_text })
            } else {
                let stored = TransferOutcome::Failure {
                    status_code: Some(status_code),
                    body_text: Some(body_text.clone()),
                };
                self.state = SessionState::Completed(stored);
                Some(
                    TransferOutcome::Failure {
                        status_code: Some(status_code),
                        body_text: Some(body_text),
                    },
                )
            }
        } else {
            None
        }
    }

    /// Takes a transport error of the live transfer — no response could be
    /// obtained at all: transitions to `Completed` with a failure that has
    /// neither status nor body, and returns that outcome. Stale or late
    /// events are ignored.
    pub fn on_transport_error(&mut self, handle: SessionHandle) -> (r: Option<TransferOutcome>)
        requires
            old(self).wf(),
        ensures
            final(self).wf(),
            old(self).accepts(handle) ==> {
                &&& r matches Some(oc) && is_transport_failure(oc)
                &&& final(self).state matches SessionState::Completed(oc2) && is_transport_failure(
                    oc2,
                )
                &&& final(self).history@ == old(self).history@
                &&& final(self).last_loaded == old(self).last_loaded
                &&& final(self).handle == old(self).handle
                &&& final(self).next_handle == old(self).next_handle
                &&& final(self).request == old(self).request
            },
            !old(self).accepts(handle) ==> r is None && *final(self) == *old(self),
    {
        let live = match self.state {
            SessionState::Sending => true,
            _ => false,
        };
        if live && handle.id == self.handle {
            self.state = SessionState::Completed(
                TransferOutcome::Failure { status_code: None, body_text: None },
            );
            Some(TransferOutcome::Failure { status_code: None, body_text: None })
        } else {
            None
        }
    }

    /// Cancels the live transfer: legal only while `Sending`; transitions to
    /// `Aborted` at once and discards the buffered progress. Late events of
    /// the cancelled handle are ignored from here on (see the stale-event
    /// clauses of the event functions).
    pub fn abort(&mut self)
        requires
            old(self).wf(),
            old(self).state is Sending,
        ensures
            final(self).wf(),
            final(self).state is Aborted,
            final(self).last_loaded == 0,
            final(self).history@.len() == 0,
            final(self).handle == old(self).handle,
            final(self).next_handle == old(self).next_handle,
            final(self).request == old(self).request,
    {
        self.state = SessionState::Aborted;
        self.last_loaded = 0;
        self.history = Ghost(Seq::empty());
    }

    /// Returns to `Idle` from a terminal state, releasing the handle and the
    /// request. A new transfer may then be started.
    pub fn reset(&mut self)
        requires
            old(self).wf(),
            old(self).state is Aborted || old(self).state is Completed,
        ensures
            final(self).wf(),
            final(self).state is Idle,
            final(self).last_loaded == 0,
            final(self).history@.len() == 0,
            final(self).request is None,
            final(self).handle == old(self).handle,
            final(self).next_handle == old(self).next_handle,
    {
        self.state = SessionState::Idle;
        self.last_loaded = 0;
        self.history = Ghost(Seq::empty());
        self.request = None;
    }

    /// After a terminal transition — a cancellation as well as a completion
    /// — the session accepts no event at all, under any handle: late
    /// progress or completion reports of that transfer are ignored, and
    /// neither outcome nor callback can arise from them.
    pub proof fn lemma_no_events_after_terminal(&self, handle: SessionHandle)
        requires
            self.state is Aborted || self.state is Completed,
        ensures
            !self.accepts(handle),
    {
    }

    /// The `loaded` values of the samples accepted for one transfer are
    /// non-decreasing in the order of their delivery.
    pub proof fn lemma_progress_monotone(&self, i: int, j: int)
        requires
            self.wf(),
            0 <= i <= j < self.history@.len(),
        ensures
            self.history@[i].loaded <= self.history@[j].loaded,
    {
    }

    /// Whether the session is idle.
    pub fn is_idle(&self) -> (r: bool)
        ensures
            r == (self.state is Idle),
    {
        match self.state {
            SessionState::Idle => true,
            _ => false,
        }
    }

    /// Whether a transfer is in flight.
    pub fn is_sending(&self) -> (r: bool)
        ensures
            r == (self.state is Sending),
    {
        match self.state {
            SessionState::Sending => true,
            _ => false,
        }
    }

    /// Whether the last transfer was cancelled and the session not yet reset.
    pub fn is_aborted(&self) -> (r: bool)
        ensures
            r == (self.state is Aborted),
    {
        match self.state {
            SessionState::Aborted => true,
            _ => false,
        }
    }

    /// Whether the last transfer completed and the session was not yet reset.
    pub fn is_completed(&self) -> (r: bool)
        ensures
            r == (self.state is Completed),
    {
        match self.state {
            SessionState::Completed(_) => true,
            _ => false,
        }
    }
}

} // verus!
