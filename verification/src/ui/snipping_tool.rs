//! The overlay's controller: it follows the drag gesture, hands requests to
//! background workers, and merges what the workers report into the display.
//!
//! Every request gets a generation number. A worker tags each event with the
//! generation it serves, and the controller applies only events of the latest
//! generation, so that a superseded worker, which is never stopped, cannot
//! disturb what is shown.

use vstd::prelude::*;
use vstd::string::*;
use crate::config::{Config, ConfigView};
use crate::geometry::{Point, Rect, Size};
use crate::ui::selection::{drag_outcome, process_drag_event, DragInput, SelectionEvent};
use crate::ui::settings::{Settings, SettingsView};
use crate::ui::state::{event_views, StreamEvent, StreamEventView, UiState, UiStateView};
use crate::text::{is_blank, text_is_blank};

verus! {

/// The prompt that is sent where the user typed none.
pub const DEFAULT_PROMPT: &'static str = "Explain this image in detail.";

/// The state of one overlay session.
pub struct SnippingTool {
    /// Where the drag began.
    pub selection_start: Option<Point>,
    /// Where the drag is now, or where it ended.
    pub current_pos: Option<Point>,
    /// Whether the selection is frozen.
    pub is_selection_finalized: bool,
    /// What the user typed into the prompt field.
    pub chat_input: String,
    /// The configuration that the session started with.
    pub config: Config,
    /// What the interaction panel shows.
    pub state: UiState,
    /// The generation of the latest request; zero before the first.
    pub generation: u64,
    /// The user's preferences.
    pub settings: Settings,
    /// Whether the settings panel is open.
    pub show_settings: bool,
}

/// The mathematical value of a [`SnippingTool`].
pub struct SnippingToolView {
    pub selection_start: Option<Point>,
    pub current_pos: Option<Point>,
    pub is_selection_finalized: bool,
    pub chat_input: Seq<char>,
    pub config: ConfigView,
    pub state: UiStateView,
    pub generation: u64,
    pub settings: SettingsView,
    pub show_settings: bool,
}

impl View for SnippingTool {
    type V = SnippingToolView;

    open spec fn view(&self) -> SnippingToolView {
        SnippingToolView {
            selection_start: self.selection_start,
            current_pos: self.current_pos,
            is_selection_finalized: self.is_selection_finalized,
            chat_input: self.chat_input@,
            config: self.config@,
            state: self.state@,
            generation: self.generation,
            settings: self.settings@,
            show_settings: self.show_settings,
        }
    }
}

/// What a background worker is given: its own copies of everything it needs,
/// and the generation with which it tags its events.
#[derive(Debug)]
pub struct WorkerRequest {
    /// The generation of this request.
    pub generation: u64,
    /// The selected area on the overlay.
    pub selection: Rect,
    /// The overlay's size.
    pub ui_size: Size,
    /// The user's question.
    pub prompt: String,
    /// The settings at the time of the request.
    pub settings: Settings,
}

/// What one frame's input holds.
#[derive(Clone, Copy, Debug, PartialEq, Eq, Structural)]
pub struct FrameInput {
    /// What the pointer did.
    pub drag: DragInput,
    /// Whether the escape key was pressed.
    pub escape_pressed: bool,
}

/// Which panel goes with a finalized selection.
#[derive(Clone, Copy, Debug, PartialEq, Eq, Structural)]
pub enum Panel {
    /// The prompt field.
    Prompt,
    /// The notice that a request is being prepared.
    Progress,
    /// The answer.
    Answer,
    /// The failure.
    Failure,
}

/// What is to be drawn after one frame, and whether the overlay closes.
#[derive(Clone, Copy, Debug, PartialEq, Eq, Structural)]
pub struct Frame {
    /// What the pointer input meant.
    pub event: SelectionEvent,
    /// Whether the overlay closes without a selection.
    pub close: bool,
    /// The selection to draw, if there is one.
    pub selection: Option<Rect>,
    /// The panel to show, once the selection is finalized.
    pub panel: Option<Panel>,
}

impl SnippingToolView {
    /// A session that has just begun: no selection, no request, the prompt
    /// field empty.
    pub open spec fn initial(settings: SettingsView, config: ConfigView) -> SnippingToolView {
        SnippingToolView {
            selection_start: None,
            current_pos: None,
            is_selection_finalized: false,
            chat_input: Seq::empty(),
            config,
            state: UiStateView::Idle,
            generation: 0,
            settings,
            show_settings: false,
        }
    }

    /// What holds of every session: a finalized selection has both its ends,
    /// and they are farther apart than the threshold.
    pub open spec fn wf(self) -> bool {
        self.is_selection_finalized ==> self.selection_start is Some && self.current_pos is Some
            && crate::geometry::exceeds_threshold(self.selection_start->0, self.current_pos->0)
    }

    /// What the pointer input of one frame means in this state.
    pub open spec fn pointer_event(self, input: DragInput) -> SelectionEvent {
        if self.state is Loading {
            SelectionEvent::NoEvent
        } else {
            drag_outcome(
                input,
                self.selection_start,
                self.current_pos,
                self.is_selection_finalized,
            ).0
        }
    }

    /// The session after the pointer input of one frame.
    ///
    /// While a request is being prepared the pointer is ignored. Otherwise the
    /// ends of the selection follow the gesture; a new drag unfreezes the
    /// selection, empties the prompt field and puts an answer or a failure
    /// away; a completed drag freezes the selection.
    pub open spec fn after_pointer(self, input: DragInput) -> SnippingToolView {
        if self.state is Loading {
            self
        } else {
            let outcome = drag_outcome(
                input,
                self.selection_start,
                self.current_pos,
                self.is_selection_finalized,
            );
            match outcome.0 {
                SelectionEvent::Started => SnippingToolView {
                    selection_start: outcome.1,
                    current_pos: outcome.2,
                    is_selection_finalized: false,
                    chat_input: Seq::empty(),
                    state: if self.state is Response || self.state is Error {
                        UiStateView::Idle
                    } else {
                        self.state
                    },
                    ..self
                },
                SelectionEvent::Completed => SnippingToolView {
                    selection_start: outcome.1,
                    current_pos: outcome.2,
                    is_selection_finalized: true,
                    ..self
                },
                _ => SnippingToolView {
                    selection_start: outcome.1,
                    current_pos: outcome.2,
                    ..self
                },
            }
        }
    }

    /// The session after a request was submitted: the next generation is
    /// current and an empty answer is shown.
    pub open spec fn after_submit(self) -> SnippingToolView {
        SnippingToolView {
            generation: (self.generation + 1) as u64,
            state: UiStateView::Response { text: Seq::empty(), thoughts: Seq::empty() },
            ..self
        }
    }

    /// The session after a batch of events from the workers.
    pub open spec fn after_events(self, events: Seq<StreamEventView>) -> SnippingToolView {
        SnippingToolView { state: self.state.drain(self.generation, events), ..self }
    }

    /// The session after the user asked to go back to the prompt.
    pub open spec fn after_back(self) -> SnippingToolView {
        SnippingToolView { state: UiStateView::Idle, ..self }
    }

    /// The selection to draw while the pointer is at `pointer`.
    pub open spec fn drawn_selection(self, pointer: Option<Point>) -> Option<Rect> {
        let end = if self.is_selection_finalized || pointer is None {
            self.current_pos
        } else {
            pointer
        };
        if self.selection_start is Some && end is Some {
            Some(crate::geometry::spanning(self.selection_start->0, end->0))
        } else {
            None
        }
    }

    /// The panel to show: none until a selection is finalized and can be
    /// drawn, then the one that goes with the state.
    pub open spec fn panel(self, pointer: Option<Point>) -> Option<Panel> {
        if self.is_selection_finalized && self.drawn_selection(pointer) is Some {
            Some(
                match self.state {
                    UiStateView::Idle => Panel::Prompt,
                    UiStateView::Loading => Panel::Progress,
                    UiStateView::Response { .. } => Panel::Answer,
                    UiStateView::Error(_) => Panel::Failure,
                },
            )
        } else {
            None
        }
    }
}

/// The prompt to send for what the user typed: the text itself, or the
/// default question where the text is blank.
pub open spec fn effective_prompt(chat_input: Seq<char>) -> Seq<char> {
    if is_blank(chat_input) {
        DEFAULT_PROMPT@
    } else {
        chat_input
    }
}

impl SnippingTool {
    /// Begins a session. `stored` holds the settings kept from an earlier
    /// session, if any could be read; the configuration supplies the model
    /// where there are none, and the API key where the settings hold none.
    pub fn new(stored: Option<Settings>, config: Config) -> (tool: SnippingTool)
        ensures
            tool@ == SnippingToolView::initial(
                (match stored {
                    Some(s) => s@,
                    None => SettingsView::defaults(config@.model_name),
                }).with_key_fallback(config@.gemini_api_key),
                config@,
            ),
    {
        let settings = Settings::load(stored, config.model_name.as_str()).with_key_fallback(
            config.gemini_api_key.as_str(),
        );
        SnippingTool {
            selection_start: None,
            current_pos: None,
            is_selection_finalized: false,
            chat_input: String::new(),
            config,
            state: UiState::Idle,
            generation: 0,
            settings,
            show_settings: false,
        }
    }

    /// Follows the pointer input of one frame.
    ///
    /// A new drag always puts an answer or a failure away and shows the
    /// prompt again, whatever a worker may still have to report.
    pub fn handle_pointer(&mut self, input: &DragInput) -> (event: SelectionEvent)
        ensures
            event == old(self)@.pointer_event(*input),
            final(self)@ == old(self)@.after_pointer(*input),
            input.drag_started && (old(self)@.state is Response || old(self)@.state is Error)
                ==> final(self)@.state is Idle,
    {
        if matches!(self.state, UiState::Loading) {
            return SelectionEvent::NoEvent;
        }
        let event = process_drag_event(
            input,
            &mut self.selection_start,
            &mut self.current_pos,
            self.is_selection_finalized,
        );
        match event {
            SelectionEvent::Started => {
                self.is_selection_finalized = false;
                self.chat_input = String::new();
                if matches!(self.state, UiState::Response { .. } | UiState::Error(_)) {
                    self.state = UiState::Idle;
                }
            },
            SelectionEvent::Completed => {
                self.is_selection_finalized = true;
            },
            _ => {},
        }
        event
    }

    /// The prompt to send for what the user typed.
    pub fn prompt_for(chat_input: &str) -> (prompt: String)
        ensures
            prompt@ == effective_prompt(chat_input@),
    {
        if text_is_blank(chat_input) {
            DEFAULT_PROMPT.to_owned()
        } else {
            chat_input.to_owned()
        }
    }

    /// Submits a request: makes the next generation current, shows an empty
    /// answer, and returns what the worker for this request is to be given.
    /// It starts nothing itself and so never waits.
    pub fn submit_request(&mut self, selection: Rect, ui_size: Size, prompt: String) -> (request:
        WorkerRequest)
        requires
            old(self).generation < u64::MAX,
        ensures
            final(self)@ == old(self)@.after_submit(),
            request.generation == old(self).generation + 1,
            request.selection == selection,
            request.ui_size == ui_size,
            request.prompt@ == prompt@,
            request.settings@ == old(self)@.settings,
    {
        self.generation = self.generation + 1;
        self.state = UiState::Response { text: String::new(), thoughts: String::new() };
        WorkerRequest {
            generation: self.generation,
            selection,
            ui_size,
            prompt,
            settings: self.settings.clone(),
        }
    }

    /// Applies the events that have arrived since the last frame, in the
    /// order in which they arrived. Events of a superseded request are
    /// dropped.
    pub fn process_stream_events(&mut self, events: &Vec<StreamEvent>)
        ensures
            final(self)@ == old(self)@.after_events(event_views(events@)),
    {
        let ghost all = event_views(events@);
        let ghost start = self@;
        let mut i: usize = 0;
        assert(all.skip(0) =~= all);
        while i < events.len()
            invariant
                i <= events.len(),
                all == event_views(events@),
                self@ == (SnippingToolView { state: self@.state, ..start }),
                self@.state.drain(start.generation, all.skip(i as int)) == start.state.drain(
                    start.generation,
                    all,
                ),
            decreases events.len() - i,
        {
            proof {
                let rest = all.skip(i as int);
                assert(rest[0] == events@[i as int]@);
                assert(rest.drop_first() =~= all.skip(i + 1));
            }
            self.state.apply(self.generation, &events[i]);
            i += 1;
        }
        assert(all.skip(i as int).len() == 0);
    }

    /// Goes back to the prompt from an answer or a failure. A worker that is
    /// still running is not told; what it reports from now on changes
    /// nothing.
    pub fn go_back(&mut self)
        ensures
            final(self)@ == old(self)@.after_back(),
    {
        self.state = UiState::Idle;
    }

    /// Opens the settings panel, or closes it where it is open.
    pub fn toggle_settings(&mut self)
        ensures
            final(self)@ == (SnippingToolView {
                show_settings: !old(self)@.show_settings,
                ..old(self)@
            }),
    {
        self.show_settings = !self.show_settings;
    }

    /// One frame of the overlay: applies the events that arrived, follows the
    /// pointer, and says what is to be drawn and whether the overlay closes.
    pub fn update(&mut self, events: &Vec<StreamEvent>, input: &FrameInput) -> (frame: Frame)
        ensures
            final(self)@ == old(self)@.after_events(event_views(events@)).after_pointer(
                input.drag,
            ),
            frame.event == old(self)@.after_events(event_views(events@)).pointer_event(
                input.drag,
            ),
            frame.close == input.escape_pressed,
            frame.selection == final(self)@.drawn_selection(input.drag.pointer),
            frame.panel == final(self)@.panel(input.drag.pointer),
    {
        self.process_stream_events(events);
        let event = self.handle_pointer(&input.drag);
        let end = crate::ui::selection::get_interaction_position(
            self.selection_start,
            self.current_pos,
            self.is_selection_finalized,
            input.drag.pointer,
        );
        let selection = match (self.selection_start, end) {
            (Some(a), Some(b)) => Some(crate::geometry::normalize_selection(a, b)),
            _ => None,
        };
        let panel = if self.is_selection_finalized && selection.is_some() {
            Some(
                match &self.state {
                    UiState::Idle => Panel::Prompt,
                    UiState::Loading => Panel::Progress,
                    UiState::Response { .. } => Panel::Answer,
                    UiState::Error(_) => Panel::Failure,
                },
            )
        } else {
            None
        };
        Frame { event, close: input.escape_pressed, selection, panel }
    }
}

/// A new drag puts an answer or a failure away at once, whatever events are
/// still pending, and what the superseded request reports afterwards does not
/// bring it back.
pub proof fn lemma_new_drag_resets(
    session: SnippingToolView,
    pending: Seq<StreamEventView>,
    input: DragInput,
    later: Seq<StreamEventView>,
)
    requires
        input.drag_started,
        session.state is Response || session.state is Error,
    ensures
        session.after_pointer(input).state is Idle,
        session.after_events(pending).after_pointer(input).state is Idle,
        session.after_events(pending).after_pointer(input).after_events(later).state is Idle,
{
    if session.state is Response {
        crate::ui::state::lemma_answer_only_grows(session.state, session.generation, pending);
    } else {
        crate::ui::state::lemma_drain_when_not_receiving(session.state, session.generation, pending);
    }
    let reset = session.after_events(pending).after_pointer(input);
    crate::ui::state::lemma_drain_when_not_receiving(reset.state, reset.generation, later);
}

/// Requests do not mix. After a request is submitted, what is shown depends
/// only on the events of its own generation: the message of its first
/// failure, or else its text chunks and its thought chunks, each joined in
/// the order of arrival. Events that an earlier request still sends leave no
/// trace, and neither does whatever was shown before.
pub proof fn lemma_generation_isolation(session: SnippingToolView, events: Seq<StreamEventView>)
    requires
        session.generation < u64::MAX,
    ensures
        session.after_submit().generation == session.generation + 1,
        session.after_submit().after_events(events).state == (match crate::ui::state::first_failure(
            events,
            session.after_submit().generation,
        ) {
            Some(m) => UiStateView::Error(m),
            None => UiStateView::Response {
                text: crate::ui::state::streamed_text(events, session.after_submit().generation),
                thoughts: crate::ui::state::streamed_thoughts(
                    events,
                    session.after_submit().generation,
                ),
            },
        }),
{
    let current = session.after_submit().generation;
    crate::ui::state::lemma_drain_while_streaming(Seq::empty(), Seq::empty(), current, events);
    assert(Seq::<char>::empty() + crate::ui::state::streamed_text(events, current)
        =~= crate::ui::state::streamed_text(events, current));
    assert(Seq::<char>::empty() + crate::ui::state::streamed_thoughts(events, current)
        =~= crate::ui::state::streamed_thoughts(events, current));
}

/// Every step keeps a session well formed: a new session is, and so is the
/// session after any pointer input, any request, any batch of events and any
/// return to the prompt.
pub proof fn lemma_session_stays_well_formed(
    session: SnippingToolView,
    input: DragInput,
    events: Seq<StreamEventView>,
)
    requires
        session.wf(),
    ensures
        SnippingToolView::initial(session.settings, session.config).wf(),
        session.after_pointer(input).wf(),
        session.after_submit().wf(),
        session.after_events(events).wf(),
        session.after_back().wf(),
{
}

/// A finalized selection is frozen: until a new drag starts, no pointer
/// input moves either of its ends or unfreezes it.
pub proof fn lemma_finalized_selection_is_frozen(session: SnippingToolView, input: DragInput)
    requires
        session.is_selection_finalized,
        !input.drag_started,
    ensures
        session.after_pointer(input) == session,
        session.pointer_event(input) == SelectionEvent::NoEvent,
{
}

} // verus!
