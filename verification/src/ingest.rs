//! The ingestion controller: drag-and-drop bookkeeping, and the one load
//! that may be under way.
//!
//! The controller reads no file. A drop of a plain-text file hands out a
//! [`LoadTicket`]; whoever loads the file reports back under that ticket, once
//! per frame, and a report under any other ticket is passed over.

use vstd::prelude::*;
use crate::error::ReaderError;
use crate::strings::same_text;

verus! {

/// Names one requested load.
#[derive(Clone, Copy, PartialEq, Eq, Debug, Structural)]
pub struct LoadTicket {
    pub id: u64,
}

/// How far a load has come.
#[derive(Clone, PartialEq, Eq, Debug)]
pub enum LoadProgress {
    /// Not finished yet.
    InFlight,
    /// Finished: the text of the file.
    Loaded(String),
    /// Finished: the bytes of the file were not well-formed UTF-8.
    Failed,
}

/// What the loader says of the load that a ticket names.
#[derive(Clone, PartialEq, Eq, Debug)]
pub struct LoadReport {
    pub ticket: LoadTicket,
    pub progress: LoadProgress,
}

/// The one content type that a drop may declare to be loaded.
pub open spec fn is_plain_text(mime: Seq<char>) -> bool {
    mime == "text/plain"@
}

/// The drag counter after one more drag-enter notification: one more, but
/// the counter stops at the top of its range.
pub open spec fn count_after_enter(count: nat) -> nat {
    if count < usize::MAX {
        count + 1
    } else {
        count
    }
}

/// The number of the ticket that follows the one numbered `last`: the next
/// number, beginning again at zero after the largest.
pub open spec fn ticket_after(last: nat) -> nat {
    if last < u64::MAX {
        last + 1
    } else {
        0
    }
}

/// The text inside the result of a poll.
pub open spec fn polled_text(polled: Result<Option<String>, ReaderError>) -> Result<
    Option<Seq<char>>,
    ReaderError,
> {
    match polled {
        Ok(Some(text)) => Ok(Some(text@)),
        Ok(None) => Ok(None),
        Err(e) => Err(e),
    }
}

/// What the ingestion controller holds, as plain values.
pub struct IngestionModel {
    /// Drag-enter notifications since the last leave or drop.
    pub drag_count: nat,
    /// The load that is waited for, if any.
    pub pending: Option<LoadTicket>,
    /// The number of the ticket handed out last (zero before the first).
    pub last_ticket: nat,
}

impl IngestionModel {
    /// The state in which a controller starts.
    pub open spec fn initial() -> IngestionModel {
        IngestionModel { drag_count: 0, pending: None, last_ticket: 0 }
    }

    /// The counters are in range, and a load that is waited for is the one
    /// requested last.
    pub open spec fn wf(self) -> bool {
        &&& self.drag_count <= usize::MAX
        &&& self.last_ticket <= u64::MAX
        &&& self.pending matches Some(ticket) ==> ticket.id == self.last_ticket
    }

    /// A drag-enter notification counts one drag more, and changes nothing
    /// else.
    pub open spec fn after_drag_enter(self) -> IngestionModel {
        IngestionModel { drag_count: count_after_enter(self.drag_count), ..self }
    }

    /// The state after `count` drag-enter notifications in a row.
    pub open spec fn after_drag_enters(self, count: nat) -> IngestionModel
        decreases count,
    {
        if count == 0 {
            self
        } else {
            self.after_drag_enters((count - 1) as nat).after_drag_enter()
        }
    }

    /// A drag-leave notification ends every drag, and changes nothing else.
    pub open spec fn after_drag_leave(self) -> IngestionModel {
        IngestionModel { drag_count: 0, ..self }
    }

    /// The ticket that a drop of a plain-text file hands out.
    pub open spec fn next_ticket(self) -> LoadTicket {
        LoadTicket { id: ticket_after(self.last_ticket) as u64 }
    }

    /// A drop ends the drag. One of a plain-text file requests a load, in
    /// place of any that was waited for; any other changes nothing else.
    pub open spec fn after_drop(self, mime: Seq<char>) -> IngestionModel {
        if is_plain_text(mime) {
            IngestionModel {
                drag_count: 0,
                pending: Some(self.next_ticket()),
                last_ticket: ticket_after(self.last_ticket),
            }
        } else {
            IngestionModel { drag_count: 0, ..self }
        }
    }

    /// What a drop answers: the ticket of the requested load, or that the
    /// content type is not supported.
    pub open spec fn drop_result(self, mime: Seq<char>) -> Result<LoadTicket, ReaderError> {
        if is_plain_text(mime) {
            Ok(self.next_ticket())
        } else {
            Err(ReaderError::UnsupportedMime)
        }
    }

    /// Whether the report speaks of the load that is waited for and says
    /// that it has finished.
    pub open spec fn completes(self, report: LoadReport) -> bool {
        self.pending == Some(report.ticket) && !(report.progress is InFlight)
    }

    /// A finished load is no longer waited for; any other report changes
    /// nothing.
    pub open spec fn after_poll(self, report: LoadReport) -> IngestionModel {
        if self.completes(report) {
            IngestionModel { pending: None, ..self }
        } else {
            self
        }
    }

    /// What a poll answers: the text of a load that finished well, the
    /// decoding failure of one that did not, and nothing otherwise.
    pub open spec fn poll_result(self, report: LoadReport) -> Result<
        Option<Seq<char>>,
        ReaderError,
    > {
        if self.completes(report) {
            match report.progress {
                LoadProgress::Loaded(text) => Ok(Some(text@)),
                _ => Err(ReaderError::DecodeError),
            }
        } else {
            Ok(None)
        }
    }
}

/// `count` drag-enter notifications in a row count the drags up by
/// `count`, as far as the counter's range goes, and change nothing else.
pub proof fn lemma_drag_enters_count(state: IngestionModel, count: nat)
    requires
        state.drag_count <= usize::MAX,
    ensures
        state.after_drag_enters(count) == (IngestionModel {
            drag_count: if state.drag_count + count <= usize::MAX {
                (state.drag_count + count) as nat
            } else {
                usize::MAX as nat
            },
            ..state
        }),
    decreases count,
{
    if count > 0 {
        lemma_drag_enters_count(state, (count - 1) as nat);
    }
}

/// However many drag-enter notifications came before it, one drag-leave
/// brings the drag counter back to zero, and changes nothing else.
pub proof fn lemma_drag_leave_resets(state: IngestionModel, count: nat)
    ensures
        state.after_drag_enters(count).after_drag_leave() == (IngestionModel {
            drag_count: 0,
            ..state
        }),
    decreases count,
{
    if count > 0 {
        lemma_drag_leave_resets(state, (count - 1) as nat);
    }
}

/// Every step of the controller leaves a well-formed state well-formed.
pub proof fn lemma_ingestion_stays_wf(state: IngestionModel, mime: Seq<char>, report: LoadReport)
    requires
        state.wf(),
    ensures
        state.after_drag_enter().wf(),
        state.after_drag_leave().wf(),
        state.after_drop(mime).wf(),
        state.after_poll(report).wf(),
{
}

/// A drop that requests a load hands out a ticket other than the one that
/// was waited for, so that a late report of the load it replaces is passed
/// over.
pub proof fn lemma_replaced_load_is_passed_over(
    state: IngestionModel,
    mime: Seq<char>,
    late: LoadReport,
)
    requires
        state.wf(),
        is_plain_text(mime),
        state.pending == Some(late.ticket),
    ensures
        state.after_drop(mime).after_poll(late) == state.after_drop(mime),
        state.after_drop(mime).poll_result(late) == Ok::<Option<Seq<char>>, ReaderError>(None),
{
}

/// Tracks drags and drops, and the load that the last accepted drop asked
/// for.
pub struct Ingestion {
    drag_count: usize,
    pending: Option<LoadTicket>,
    last_ticket: u64,
}

impl View for Ingestion {
    type V = IngestionModel;

    closed spec fn view(&self) -> IngestionModel {
        IngestionModel {
            drag_count: self.drag_count as nat,
            pending: self.pending,
            last_ticket: self.last_ticket as nat,
        }
    }
}

impl Ingestion {
    #[verifier::type_invariant]
    pub open spec fn inv(self) -> bool {
        self@.wf()
    }

    /// A controller with no drag under way and no load waited for.
    pub fn new() -> (controller: Self)
        ensures
            controller@ == IngestionModel::initial(),
    {
        Ingestion { drag_count: 0, pending: None, last_ticket: 0 }
    }

    /// Drag-enter notifications since the last leave or drop.
    pub fn drag_count(&self) -> (count: usize)
        ensures
            count == self@.drag_count,
            self@.wf(),
    {
        proof {
            use_type_invariant(self);
        }
        self.drag_count
    }

    /// The load that is waited for, if any.
    pub fn pending(&self) -> (pending: Option<LoadTicket>)
        ensures
            pending == self@.pending,
            self@.wf(),
    {
        proof {
            use_type_invariant(self);
        }
        self.pending
    }

    /// A file was dragged over the window.
    pub fn on_drag_enter(&mut self)
        ensures
            final(self)@ == old(self)@.after_drag_enter(),
            final(self)@.wf(),
    {
        proof {
            use_type_invariant(&*self);
        }
        if self.drag_count < usize::MAX {
            self.drag_count = self.drag_count + 1;
        }
    }

    /// The drag left the window.
    pub fn on_drag_leave(&mut self)
        ensures
            final(self)@ == old(self)@.after_drag_leave(),
            final(self)@.wf(),
    {
        proof {
            use_type_invariant(&*self);
        }
        self.drag_count = 0;
    }

    /// A file that declares the content type `mime` was dropped.
    ///
    /// Answers with the ticket under which its text is to be loaded and
    /// reported, or with [`ReaderError::UnsupportedMime`] where nothing is to
    /// be loaded.
    pub fn on_drop(&mut self, mime: &str) -> (requested: Result<LoadTicket, ReaderError>)
        ensures
            final(self)@ == old(self)@.after_drop(mime@),
            requested == old(self)@.drop_result(mime@),
            requested matches Ok(ticket) ==> old(self)@.pending != Some(ticket),
            final(self)@.wf(),
    {
        proof {
            use_type_invariant(&*self);
        }
        if same_text(mime, "text/plain") {
            let id: u64 = if self.last_ticket < u64::MAX {
                self.last_ticket + 1
            } else {
                0
            };
            let ticket = LoadTicket { id };
            *self = Ingestion { drag_count: 0, pending: Some(ticket), last_ticket: id };
            Ok(ticket)
        } else {
            self.drag_count = 0;
            Err(ReaderError::UnsupportedMime)
        }
    }

    /// Takes the loader's report of this frame.
    ///
    /// Answers `Ok(Some(text))` where the load that is waited for has
    /// finished with `text`, [`ReaderError::DecodeError`] where it has
    /// finished without, and `Ok(None)` where it is still under way, or
    /// where the report speaks of a load that is not waited for.
    pub fn poll_completed_load(&mut self, report: LoadReport) -> (polled: Result<
        Option<String>,
        ReaderError,
    >)
        ensures
            final(self)@ == old(self)@.after_poll(report),
            polled_text(polled) == old(self)@.poll_result(report),
            final(self)@.wf(),
    {
        proof {
            use_type_invariant(&*self);
        }
        let waited_for = match self.pending {
            Some(ticket) => ticket.id == report.ticket.id,
            None => false,
        };
        if !waited_for {
            return Ok(None);
        }
        match report.progress {
            LoadProgress::InFlight => Ok(None),
            LoadProgress::Loaded(text) => {
                self.pending = None;
                Ok(Some(text))
            },
            LoadProgress::Failed => {
                self.pending = None;
                Err(ReaderError::DecodeError)
            },
        }
    }
}

} // verus!
