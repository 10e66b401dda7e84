//! The reader: ingestion, document and playback in one owned state, with the
//! entry points that a window's event loop calls.

use vstd::prelude::*;
use crate::error::ReaderError;
use crate::ingest::{
    lemma_drag_enters_count,
    lemma_drag_leave_resets,
    Ingestion,
    IngestionModel,
    LoadReport,
    LoadTicket,
};
use crate::playback::{
    index_at,
    lemma_position_never_decreases,
    Direction,
    Playback,
    PlaybackModel,
};
use crate::render::{
    display_mode,
    intents_of,
    mode_of,
    select_intents,
    DisplayMode,
    DrawIntent,
    DrawIntentModel,
};
use crate::words::{all_words, is_delimiter, lemma_no_words, lemma_words_are_words, words_of};
use crate::document::{load_result, Document};

verus! {

/// What the window tells the reader.
#[derive(Clone, PartialEq, Eq, Debug)]
pub enum Event {
    /// A file is dragged over the window.
    DragEnter,
    /// The drag has left the window.
    DragLeft,
    /// A file was dropped that declares this content type.
    Drop { mime: String },
    /// The wheel was turned.
    MouseWheel(Direction),
}

/// What the reader holds, as plain values.
pub struct ReaderModel {
    /// Drags, and the load that is waited for.
    pub ingestion: IngestionModel,
    /// Speed and position.
    pub playback: PlaybackModel,
    /// The words of the document; none where no document is loaded.
    pub words: Seq<Seq<char>>,
}

impl ReaderModel {
    /// The state in which a reader starts.
    pub open spec fn initial() -> ReaderModel {
        ReaderModel {
            ingestion: IngestionModel::initial(),
            playback: PlaybackModel::initial(),
            words: Seq::empty(),
        }
    }

    /// Both parts are well-formed, and the document holds words only.
    pub open spec fn wf(self) -> bool {
        &&& self.ingestion.wf()
        &&& self.playback.wf()
        &&& all_words(self.words)
    }

    /// The display mode: derived from the drag counter and the document,
    /// never stored.
    pub open spec fn mode(self) -> DisplayMode {
        mode_of(self.ingestion.drag_count, self.words.len())
    }

    /// The index of the word to show, where there are words.
    pub open spec fn displayed_index(self) -> nat
        recommends
            self.words.len() > 0,
    {
        index_at(self.playback.position, self.words.len())
    }

    /// The word to show, where there are words.
    pub open spec fn current_word(self) -> Seq<char>
        recommends
            self.words.len() > 0,
    {
        self.words[self.displayed_index() as int]
    }

    /// What is to be drawn.
    pub open spec fn intents(self) -> Seq<DrawIntentModel> {
        intents_of(self.mode(), self.current_word(), self.playback.speed)
    }

    /// A drag-enter notification goes to the ingestion controller.
    pub open spec fn after_drag_enter(self) -> ReaderModel {
        ReaderModel { ingestion: self.ingestion.after_drag_enter(), ..self }
    }

    /// A drag-leave notification goes to the ingestion controller.
    pub open spec fn after_drag_leave(self) -> ReaderModel {
        ReaderModel { ingestion: self.ingestion.after_drag_leave(), ..self }
    }

    /// A drop goes to the ingestion controller: the document stays until
    /// the load that it requests has finished.
    pub open spec fn after_drop(self, mime: Seq<char>) -> ReaderModel {
        ReaderModel { ingestion: self.ingestion.after_drop(mime), ..self }
    }

    /// A turn of the wheel goes to the playback engine.
    pub open spec fn after_adjust(self, direction: Direction) -> ReaderModel {
        ReaderModel { playback: self.playback.after_adjust(direction), ..self }
    }

    /// Each event goes to its handler.
    pub open spec fn after_event(self, event: Event) -> ReaderModel {
        match event {
            Event::DragEnter => self.after_drag_enter(),
            Event::DragLeft => self.after_drag_leave(),
            Event::Drop { mime } => self.after_drop(mime@),
            Event::MouseWheel(direction) => self.after_adjust(direction),
        }
    }

    /// The state after the events of `events`, taken in order.
    pub open spec fn after_events(self, events: Seq<Event>) -> ReaderModel
        decreases events.len(),
    {
        if events.len() == 0 {
            self
        } else {
            self.after_events(events.drop_last()).after_event(events.last())
        }
    }

    /// The ticket that an event hands out: that of the load which a drop of
    /// a plain-text file requests.
    pub open spec fn event_result(self, event: Event) -> Option<LoadTicket> {
        match event {
            Event::Drop { mime } => match self.ingestion.drop_result(mime@) {
                Ok(ticket) => Some(ticket),
                Err(_) => None,
            },
            _ => None,
        }
    }

    /// The text that the report brings: that of the load which is waited
    /// for, where the report says that it has finished well.
    pub open spec fn loaded_text(self, report: Option<LoadReport>) -> Option<Seq<char>> {
        match report {
            Some(report) => match self.ingestion.poll_result(report) {
                Ok(Some(text)) => Some(text),
                _ => None,
            },
            None => None,
        }
    }

    /// The loader's report is taken, and the text that it brings becomes
    /// the document. Without a report nothing changes.
    pub open spec fn after_report(self, report: Option<LoadReport>) -> ReaderModel {
        match report {
            None => self,
            Some(polled) => ReaderModel {
                ingestion: self.ingestion.after_poll(polled),
                words: match self.loaded_text(report) {
                    Some(text) => words_of(text),
                    None => self.words,
                },
                ..self
            },
        }
    }

    /// What taking the report answers: the number of words of a document
    /// that was loaded, nothing where none was, or why the load that
    /// finished gave no words.
    pub open spec fn report_result(self, report: Option<LoadReport>) -> Result<
        Option<usize>,
        ReaderError,
    > {
        match report {
            None => Ok(None),
            Some(report) => match self.ingestion.poll_result(report) {
                Ok(Some(text)) => match load_result(text) {
                    Ok(count) => Ok(Some(count)),
                    Err(e) => Err(e),
                },
                Ok(None) => Ok(None),
                Err(e) => Err(e),
            },
        }
    }

    /// The reading goes on for `delta_nanos` nanoseconds where the mode is
    /// `Playing`, and stays where it is in any other mode.
    pub open spec fn after_advance(self, delta_nanos: nat) -> ReaderModel {
        if self.mode() is Playing {
            ReaderModel { playback: self.playback.after_advance(delta_nanos), ..self }
        } else {
            self
        }
    }

    /// One frame: first the loader's report, then the advance.
    pub open spec fn after_frame(
        self,
        report: Option<LoadReport>,
        delta_nanos: nat,
    ) -> ReaderModel {
        self.after_report(report).after_advance(delta_nanos)
    }
}

/// Every event of `events` is a drag-enter notification.
pub open spec fn all_drag_enters(events: Seq<Event>) -> bool {
    forall|i: int| 0 <= i < events.len() ==> #[trigger] events[i] is DragEnter
}

/// Drag-enter notifications count the drags up, as far as the counter's
/// range goes, and change nothing else; while any is counted, the mode is
/// `Dragging`.
pub proof fn lemma_drag_enters(state: ReaderModel, enters: Seq<Event>)
    requires
        all_drag_enters(enters),
    ensures
        state.after_events(enters) == (ReaderModel {
            ingestion: state.ingestion.after_drag_enters(enters.len()),
            ..state
        }),
        state.ingestion.drag_count <= usize::MAX ==> state.after_events(
            enters,
        ).ingestion.drag_count == if state.ingestion.drag_count + enters.len() <= usize::MAX {
            (state.ingestion.drag_count + enters.len()) as nat
        } else {
            usize::MAX as nat
        },
        state.ingestion.drag_count <= usize::MAX && enters.len() > 0 ==> state.after_events(
            enters,
        ).mode() is Dragging,
    decreases enters.len(),
{
    if enters.len() > 0 {
        let before = enters.drop_last();
        assert(enters.last() is DragEnter);
        assert forall|i: int| 0 <= i < before.len() implies #[trigger] before[i] is DragEnter by {
            assert(before[i] == enters[i]);
        }
        lemma_drag_enters(state, before);
    }
    if state.ingestion.drag_count <= usize::MAX {
        lemma_drag_enters_count(state.ingestion, enters.len());
    }
}

/// However many drag-enter notifications came before it, one drag-leave
/// brings the drag counter back to zero and changes nothing else: the mode
/// is again what the document makes it, `Idle` without words and `Playing`
/// with them.
pub proof fn lemma_drag_enters_then_leave(state: ReaderModel, enters: Seq<Event>)
    requires
        all_drag_enters(enters),
    ensures
        state.after_events(enters.push(Event::DragLeft)) == (ReaderModel {
            ingestion: IngestionModel { drag_count: 0, ..state.ingestion },
            ..state
        }),
        state.after_events(enters.push(Event::DragLeft)).ingestion.drag_count == 0,
        state.after_events(enters.push(Event::DragLeft)).mode() == mode_of(0, state.words.len()),
        state.ingestion.drag_count == 0 ==> state.after_events(enters.push(Event::DragLeft))
            == state,
{
    let events = enters.push(Event::DragLeft);
    assert(events.drop_last() =~= enters);
    assert(events.last() == Event::DragLeft);
    lemma_drag_enters(state, enters);
    lemma_drag_leave_resets(state.ingestion, enters.len());
}

/// Every event leaves a well-formed state well-formed.
pub proof fn lemma_event_keeps_wf(state: ReaderModel, event: Event)
    requires
        state.wf(),
    ensures
        state.after_event(event).wf(),
{
}

/// A frame leaves a well-formed state well-formed. It touches neither the
/// drag counter nor the speed, and it never moves the position back: not at
/// all unless the mode is then `Playing`. The document is that of the text
/// which the report brings, and stays as it was where the report brings
/// none.
pub proof fn lemma_frame(state: ReaderModel, report: Option<LoadReport>, delta_nanos: nat)
    requires
        state.wf(),
    ensures
        state.after_frame(report, delta_nanos).wf(),
        state.after_frame(report, delta_nanos).ingestion.drag_count == state.ingestion.drag_count,
        state.after_frame(report, delta_nanos).playback.speed == state.playback.speed,
        state.after_frame(report, delta_nanos).playback.position >= state.playback.position,
        !(state.after_frame(report, delta_nanos).mode() is Playing) ==> state.after_frame(
            report,
            delta_nanos,
        ).playback == state.playback,
        state.after_frame(report, delta_nanos).words == match state.loaded_text(report) {
            Some(text) => words_of(text),
            None => state.words,
        },
{
    let taken = state.after_report(report);
    lemma_position_never_decreases(taken.playback.position, taken.playback.speed, delta_nanos);
    if let Some(text) = state.loaded_text(report) {
        lemma_words_are_words(text);
    }
}

/// Playing begins in the frame in which a text with at least one word
/// arrives, unless a drag is under way; and it ends only when a text
/// arrives that holds nothing but delimiters.
pub proof fn lemma_playing_begins_and_ends(
    state: ReaderModel,
    report: Option<LoadReport>,
    delta_nanos: nat,
)
    ensures
        state.ingestion.drag_count == 0 ==> (state.after_frame(report, delta_nanos).mode()
            is Playing <==> match state.loaded_text(report) {
            Some(text) => words_of(text).len() > 0,
            None => state.words.len() > 0,
        }),
        state.mode() is Playing && !(state.after_frame(report, delta_nanos).mode() is Playing)
            ==> state.loaded_text(report) is Some && forall|i: int|
            0 <= i < state.loaded_text(report)->0.len() ==> is_delimiter(
                #[trigger] state.loaded_text(report)->0[i],
            ),
{
    if let Some(text) = state.loaded_text(report) {
        lemma_no_words(text);
    }
}

/// The whole state of the viewer, owned by the one loop that drives it.
pub struct Reader {
    ingestion: Ingestion,
    playback: Playback,
    document: Document,
}

impl View for Reader {
    type V = ReaderModel;

    closed spec fn view(&self) -> ReaderModel {
        ReaderModel {
            ingestion: self.ingestion@,
            playback: self.playback@,
            words: self.document@,
        }
    }
}

impl Reader {
    /// A reader with no document, no drag and no load, at the initial speed.
    pub fn new() -> (reader: Self)
        ensures
            reader@ == ReaderModel::initial(),
            reader@.wf(),
    {
        Reader { ingestion: Ingestion::new(), playback: Playback::new(), document: Document::new() }
    }

    /// Drag-enter notifications since the last leave or drop.
    pub fn drag_count(&self) -> (count: usize)
        ensures
            count == self@.ingestion.drag_count,
            self@.wf(),
    {
        proof {
            use_type_invariant(&self.playback);
            use_type_invariant(&self.document);
        }
        self.ingestion.drag_count()
    }

    /// The load that is waited for, if any.
    pub fn pending(&self) -> (pending: Option<LoadTicket>)
        ensures
            pending == self@.ingestion.pending,
            self@.wf(),
    {
        proof {
            use_type_invariant(&self.playback);
            use_type_invariant(&self.document);
        }
        self.ingestion.pending()
    }

    /// The speed, in words per minute.
    pub fn speed(&self) -> (speed: u64)
        ensures
            speed == self@.playback.speed,
            self@.wf(),
    {
        proof {
            use_type_invariant(&self.ingestion);
            use_type_invariant(&self.document);
        }
        self.playback.speed()
    }

    /// The position, in ticks.
    pub fn position(&self) -> (position: u128)
        ensures
            position == self@.playback.position,
            self@.wf(),
    {
        proof {
            use_type_invariant(&self.ingestion);
            use_type_invariant(&self.document);
        }
        self.playback.position()
    }

    /// The words of the document, in order.
    pub fn words(&self) -> (words: &Vec<String>)
        ensures
            words.deep_view() == self@.words,
            self@.wf(),
    {
        proof {
            use_type_invariant(&self.ingestion);
            use_type_invariant(&self.playback);
        }
        self.document.words()
    }

    /// A file was dragged over the window.
    pub fn on_drag_enter(&mut self)
        ensures
            final(self)@ == old(self)@.after_drag_enter(),
            final(self)@.wf(),
    {
        self.ingestion.on_drag_enter();
        proof {
            use_type_invariant(&self.ingestion);
            use_type_invariant(&self.playback);
            use_type_invariant(&self.document);
        }
    }

    /// The drag left the window.
    pub fn on_drag_leave(&mut self)
        ensures
            final(self)@ == old(self)@.after_drag_leave(),
            final(self)@.wf(),
    {
        self.ingestion.on_drag_leave();
        proof {
            use_type_invariant(&self.ingestion);
            use_type_invariant(&self.playback);
            use_type_invariant(&self.document);
        }
    }

    /// A file that declares the content type `mime` was dropped.
    ///
    /// Answers with the ticket under which its text is to be loaded and
    /// reported, or with [`ReaderError::UnsupportedMime`] where nothing is to
    /// be loaded.
    pub fn on_drop(&mut self, mime: &str) -> (requested: Result<LoadTicket, ReaderError>)
        ensures
            final(self)@ == old(self)@.after_drop(mime@),
            requested == old(self)@.ingestion.drop_result(mime@),
            requested matches Ok(ticket) ==> old(self)@.ingestion.pending != Some(ticket),
            final(self)@.wf(),
    {
        let requested = self.ingestion.on_drop(mime);
        proof {
            use_type_invariant(&self.ingestion);
            use_type_invariant(&self.playback);
            use_type_invariant(&self.document);
        }
        requested
    }

    /// The wheel was turned: one step faster or slower.
    pub fn adjust_speed(&mut self, direction: Direction)
        ensures
            final(self)@ == old(self)@.after_adjust(direction),
            final(self)@.wf(),
    {
        self.playback.adjust_speed(direction);
        proof {
            use_type_invariant(&self.ingestion);
            use_type_invariant(&self.playback);
            use_type_invariant(&self.document);
        }
    }

    /// Takes one event of the window. Answers with the ticket of the load
    /// that the event requests, if it requests one.
    pub fn handle_event(&mut self, event: Event) -> (requested: Option<LoadTicket>)
        ensures
            final(self)@ == old(self)@.after_event(event),
            requested == old(self)@.event_result(event),
            final(self)@.wf(),
    {
        match event {
            Event::DragEnter => {
                self.on_drag_enter();
                None
            },
            Event::DragLeft => {
                self.on_drag_leave();
                None
            },
            Event::Drop { mime } => {
                match self.on_drop(mime.as_str()) {
                    Ok(ticket) => Some(ticket),
                    Err(_) => None,
                }
            },
            Event::MouseWheel(direction) => {
                self.adjust_speed(direction);
                None
            },
        }
    }

    /// Takes the loader's report of this frame, and makes the text of a
    /// load that finished well the document.
    ///
    /// Answers with the number of words of a document that was loaded, with
    /// nothing where none was, with [`ReaderError::DecodeError`] where the
    /// load finished without a text, and with
    /// [`ReaderError::EmptyDocument`] where its text holds no word.
    pub fn take_report(&mut self, report: Option<LoadReport>) -> (taken: Result<
        Option<usize>,
        ReaderError,
    >)
        ensures
            final(self)@ == old(self)@.after_report(report),
            taken == old(self)@.report_result(report),
            final(self)@.wf(),
    {
        let taken = match report {
            None => Ok(None),
            Some(report) => {
                match self.ingestion.poll_completed_load(report) {
                    Ok(Some(text)) => {
                        match self.document.load(text.as_str()) {
                            Ok(count) => Ok(Some(count)),
                            Err(e) => Err(e),
                        }
                    },
                    Ok(None) => Ok(None),
                    Err(e) => Err(e),
                }
            },
        };
        proof {
            use_type_invariant(&self.ingestion);
            use_type_invariant(&self.playback);
            use_type_invariant(&self.document);
        }
        taken
    }

    /// The display mode.
    pub fn mode(&self) -> (mode: DisplayMode)
        ensures
            mode == self@.mode(),
    {
        display_mode(self.ingestion.drag_count(), self.document.len())
    }

    /// Reads on for a frame of `delta_nanos` nanoseconds, where the mode is
    /// `Playing`.
    pub fn advance(&mut self, delta_nanos: u64)
        ensures
            final(self)@ == old(self)@.after_advance(delta_nanos as nat),
            final(self)@.wf(),
    {
        match self.mode() {
            DisplayMode::Playing => {
                self.playback.advance(delta_nanos);
            },
            _ => {},
        }
        proof {
            use_type_invariant(&self.ingestion);
            use_type_invariant(&self.playback);
            use_type_invariant(&self.document);
        }
    }

    /// The index of the word to show; none where there is no word.
    pub fn displayed_index(&self) -> (index: Option<usize>)
        ensures
            self@.words.len() == 0 ==> index is None,
            self@.words.len() > 0 ==> index is Some && index->0 == self@.displayed_index(),
            index matches Some(i) ==> i < self@.words.len(),
    {
        self.playback.displayed_index(self.document.len())
    }

    /// The word to show; none where there is no word.
    pub fn current_word(&self) -> (word: Option<&str>)
        ensures
            self@.words.len() == 0 ==> word is None,
            self@.words.len() > 0 ==> word is Some && word->0@ == self@.current_word(),
    {
        match self.displayed_index() {
            Some(index) => self.document.word(index),
            None => None,
        }
    }

    /// What is to be drawn for the state as it is.
    pub fn draw_intents(&self) -> (intents: Vec<DrawIntent>)
        ensures
            intents.deep_view() == self@.intents(),
    {
        let mode = self.mode();
        let word: &str = match self.current_word() {
            Some(word) => word,
            None => "",
        };
        select_intents(mode, word, self.playback.speed())
    }

    /// One frame: takes the loader's report, reads on for `delta_nanos`
    /// nanoseconds where the mode is then `Playing`, and answers with what
    /// is to be drawn for the state that results.
    pub fn render(&mut self, report: Option<LoadReport>, delta_nanos: u64) -> (intents: Vec<
        DrawIntent,
    >)
        ensures
            final(self)@ == old(self)@.after_frame(report, delta_nanos as nat),
            intents.deep_view() == final(self)@.intents(),
            final(self)@.wf(),
    {
        let _ = self.take_report(report);
        self.advance(delta_nanos);
        self.draw_intents()
    }
}

} // verus!
