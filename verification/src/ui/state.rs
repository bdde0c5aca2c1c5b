//! What the overlay shows, and the events by which a background worker
//! changes it.

use vstd::prelude::*;
use vstd::string::*;
use crate::geometry::{Rect, Size};

verus! {

/// What the user selected when the overlay closed.
#[derive(Debug, Default)]
pub struct SelectionResult {
    /// The selected area on the overlay.
    pub selected_area: Option<Rect>,
    /// The overlay's size when the selection was made.
    pub screen_size: Option<Size>,
    /// The question that goes with the selection.
    pub user_prompt: Option<String>,
}

impl SelectionResult {
    /// What the overlay hands back when it closes: the selected area, the
    /// overlay's size and the prompt, where both an area and a size were
    /// recorded; nothing where the user left without a selection.
    pub fn into_selection(self) -> (r: Option<(Rect, Size, Option<String>)>)
        ensures
            r == match (self.selected_area, self.screen_size) {
                (Some(area), Some(size)) => Some((area, size, self.user_prompt)),
                _ => None,
            },
    {
        match (self.selected_area, self.screen_size) {
            (Some(area), Some(size)) => Some((area, size, self.user_prompt)),
            _ => None,
        }
    }
}

/// What the interaction panel shows.
///
/// `Idle` waits for a prompt; `Response` shows an answer while it streams in
/// and after it is complete; `Error` shows a failure. From `Response` and
/// `Error` the user gets back to `Idle`.
#[derive(Debug)]
pub enum UiState {
    /// Waiting for the user's prompt.
    Idle,
    /// A request is being prepared and nothing has arrived yet.
    Loading,
    /// The answer received so far.
    Response {
        /// The answer's text.
        text: String,
        /// The model's reasoning, shown apart from the answer.
        thoughts: String,
    },
    /// The request failed with this message.
    Error(String),
}

/// The mathematical value of a [`UiState`].
pub enum UiStateView {
    Idle,
    Loading,
    Response { text: Seq<char>, thoughts: Seq<char> },
    Error(Seq<char>),
}

impl View for UiState {
    type V = UiStateView;

    open spec fn view(&self) -> UiStateView {
        match self {
            UiState::Idle => UiStateView::Idle,
            UiState::Loading => UiStateView::Loading,
            UiState::Response { text, thoughts } => UiStateView::Response {
                text: text@,
                thoughts: thoughts@,
            },
            UiState::Error(m) => UiStateView::Error(m@),
        }
    }
}

impl Clone for UiState {
    fn clone(&self) -> (r: Self)
        ensures
            r@ == self@,
    {
        match self {
            UiState::Idle => UiState::Idle,
            UiState::Loading => UiState::Loading,
            UiState::Response { text, thoughts } => UiState::Response {
                text: text.clone(),
                thoughts: thoughts.clone(),
            },
            UiState::Error(m) => UiState::Error(m.clone()),
        }
    }
}

/// A notification from a background worker, tagged with the generation of the
/// request that the worker serves.
#[derive(Debug)]
pub enum StreamEvent {
    /// A piece of the answer's text arrived.
    TextChunk(u64, String),
    /// A piece of the model's reasoning arrived.
    ThoughtChunk(u64, String),
    /// The request failed; the message says why.
    Failed(u64, String),
    /// The stream ended.
    Finished(u64),
}

/// The mathematical value of a [`StreamEvent`].
pub enum StreamEventView {
    TextChunk(u64, Seq<char>),
    ThoughtChunk(u64, Seq<char>),
    Failed(u64, Seq<char>),
    Finished(u64),
}

impl StreamEventView {
    /// The generation of the request that the event belongs to.
    pub open spec fn generation(self) -> u64 {
        match self {
            StreamEventView::TextChunk(g, _) => g,
            StreamEventView::ThoughtChunk(g, _) => g,
            StreamEventView::Failed(g, _) => g,
            StreamEventView::Finished(g) => g,
        }
    }
}

impl View for StreamEvent {
    type V = StreamEventView;

    open spec fn view(&self) -> StreamEventView {
        match self {
            StreamEvent::TextChunk(g, s) => StreamEventView::TextChunk(*g, s@),
            StreamEvent::ThoughtChunk(g, s) => StreamEventView::ThoughtChunk(*g, s@),
            StreamEvent::Failed(g, s) => StreamEventView::Failed(*g, s@),
            StreamEvent::Finished(g) => StreamEventView::Finished(*g),
        }
    }
}

impl StreamEvent {
    /// The generation of the request that the event belongs to.
    pub fn generation(&self) -> (g: u64)
        ensures
            g == self@.generation(),
    {
        match self {
            StreamEvent::TextChunk(g, _) => *g,
            StreamEvent::ThoughtChunk(g, _) => *g,
            StreamEvent::Failed(g, _) => *g,
            StreamEvent::Finished(g) => *g,
        }
    }
}

/// The views of a sequence of events, in order.
pub open spec fn event_views(events: Seq<StreamEvent>) -> Seq<StreamEventView> {
    events.map_values(|e: StreamEvent| e@)
}

impl UiStateView {
    /// Whether a request is awaiting events in this state.
    pub open spec fn is_receiving(self) -> bool {
        self is Response || self is Loading
    }

    /// The answer's text so far; empty where none is shown.
    pub open spec fn text(self) -> Seq<char> {
        match self {
            UiStateView::Response { text, .. } => text,
            _ => Seq::empty(),
        }
    }

    /// The reasoning so far; empty where none is shown.
    pub open spec fn thoughts(self) -> Seq<char> {
        match self {
            UiStateView::Response { thoughts, .. } => thoughts,
            _ => Seq::empty(),
        }
    }

    /// The state after one event, where `current` is the generation of the
    /// latest request.
    ///
    /// An event of another generation is stale and changes nothing. So does
    /// any event while no request is awaiting events: after a failure, and
    /// after the user went back to `Idle`. Otherwise text is appended to the
    /// text, reasoning to the reasoning, a failure shows its message, and the
    /// end of the stream changes nothing.
    pub open spec fn step(self, current: u64, event: StreamEventView) -> UiStateView {
        if event.generation() != current || !self.is_receiving() {
            self
        } else {
            match event {
                StreamEventView::TextChunk(_, s) => UiStateView::Response {
                    text: self.text() + s,
                    thoughts: self.thoughts(),
                },
                StreamEventView::ThoughtChunk(_, s) => UiStateView::Response {
                    text: self.text(),
                    thoughts: self.thoughts() + s,
                },
                StreamEventView::Failed(_, m) => UiStateView::Error(m),
                StreamEventView::Finished(_) => self,
            }
        }
    }

    /// The state after a sequence of events, applied in order.
    pub open spec fn drain(self, current: u64, events: Seq<StreamEventView>) -> UiStateView
        decreases events.len(),
    {
        if events.len() == 0 {
            self
        } else {
            self.step(current, events[0]).drain(current, events.drop_first())
        }
    }
}

impl UiState {
    /// Applies one event from a worker; `current` is the generation of the
    /// latest request.
    pub fn apply(&mut self, current: u64, event: &StreamEvent)
        ensures
            final(self)@ == old(self)@.step(current, event@),
    {
        if event.generation() != current {
            return ;
        }
        match event {
            StreamEvent::TextChunk(_, s) => {
                match self {
                    UiState::Response { text, .. } => {
                        text.append(s.as_str());
                    },
                    UiState::Loading => {
                        *self = UiState::Response { text: s.clone(), thoughts: String::new() };
                    },
                    _ => {},
                }
            },
            StreamEvent::ThoughtChunk(_, s) => {
                match self {
                    UiState::Response { thoughts, .. } => {
                        thoughts.append(s.as_str());
                    },
                    UiState::Loading => {
                        *self = UiState::Response { text: String::new(), thoughts: s.clone() };
                    },
                    _ => {},
                }
            },
            StreamEvent::Failed(_, m) => {
                match self {
                    UiState::Response { .. } | UiState::Loading => {
                        *self = UiState::Error(m.clone());
                    },
                    _ => {},
                }
            },
            StreamEvent::Finished(_) => {},
        }
        assert(final(self)@ =~= old(self)@.step(current, event@));
    }
}

/// The answer text that a sequence of events carries for the generation
/// `current`: its text chunks of that generation, joined in order.
pub open spec fn streamed_text(events: Seq<StreamEventView>, current: u64) -> Seq<char>
    decreases events.len(),
{
    if events.len() == 0 {
        Seq::empty()
    } else {
        let rest = streamed_text(events.drop_first(), current);
        match events[0] {
            StreamEventView::TextChunk(g, s) => if g == current {
                s + rest
            } else {
                rest
            },
            _ => rest,
        }
    }
}

/// The reasoning that a sequence of events carries for the generation
/// `current`: its thought chunks of that generation, joined in order.
pub open spec fn streamed_thoughts(events: Seq<StreamEventView>, current: u64) -> Seq<char>
    decreases events.len(),
{
    if events.len() == 0 {
        Seq::empty()
    } else {
        let rest = streamed_thoughts(events.drop_first(), current);
        match events[0] {
            StreamEventView::ThoughtChunk(g, s) => if g == current {
                s + rest
            } else {
                rest
            },
            _ => rest,
        }
    }
}

/// The message of the first failure of the generation `current` in a
/// sequence of events, if there is one.
pub open spec fn first_failure(events: Seq<StreamEventView>, current: u64) -> Option<Seq<char>>
    decreases events.len(),
{
    if events.len() == 0 {
        None
    } else {
        match events[0] {
            StreamEventView::Failed(g, m) => if g == current {
                Some(m)
            } else {
                first_failure(events.drop_first(), current)
            },
            _ => first_failure(events.drop_first(), current),
        }
    }
}

/// Draining two batches one after the other is draining them as one.
pub proof fn lemma_drain_concat(
    state: UiStateView,
    current: u64,
    first: Seq<StreamEventView>,
    second: Seq<StreamEventView>,
)
    ensures
        state.drain(current, first + second) == state.drain(current, first).drain(
            current,
            second,
        ),
    decreases first.len(),
{
    if first.len() == 0 {
        assert(first + second =~= second);
    } else {
        assert((first + second)[0] == first[0]);
        assert((first + second).drop_first() =~= first.drop_first() + second);
        lemma_drain_concat(state.step(current, first[0]), current, first.drop_first(), second);
    }
}

/// While no request is awaiting events, nothing that arrives changes the
/// display: not after a failure, and not after the user went back to the
/// prompt.
pub proof fn lemma_drain_when_not_receiving(
    state: UiStateView,
    current: u64,
    events: Seq<StreamEventView>,
)
    requires
        !state.is_receiving(),
    ensures
        state.drain(current, events) == state,
    decreases events.len(),
{
    if events.len() > 0 {
        lemma_drain_when_not_receiving(state, current, events.drop_first());
    }
}

/// A stale event, wherever it arrives among the others, is dropped: the
/// display is as if it had never been sent.
pub proof fn lemma_stale_event_dropped(
    state: UiStateView,
    current: u64,
    before: Seq<StreamEventView>,
    stale: StreamEventView,
    after: Seq<StreamEventView>,
)
    requires
        stale.generation() != current,
    ensures
        state.drain(current, before + seq![stale] + after) == state.drain(
            current,
            before + after,
        ),
{
    let mid = state.drain(current, before);
    lemma_drain_concat(state, current, before, seq![stale]);
    lemma_drain_concat(state, current, before + seq![stale], after);
    lemma_drain_concat(state, current, before, after);
    assert(seq![stale].drop_first() =~= Seq::<StreamEventView>::empty());
    assert(mid.drain(current, seq![stale]) == mid.step(current, stale).drain(
        current,
        Seq::<StreamEventView>::empty(),
    ));
}

/// What is shown after a batch of events while an answer is streaming: the
/// message of the first failure of the current generation, if one arrived;
/// otherwise the text so far followed by the text chunks of the current
/// generation in the order of their arrival, and likewise, independently, the
/// reasoning. Events of other generations leave no trace.
pub proof fn lemma_drain_while_streaming(
    text: Seq<char>,
    thoughts: Seq<char>,
    current: u64,
    events: Seq<StreamEventView>,
)
    ensures
        (UiStateView::Response { text, thoughts }).drain(current, events) == (match first_failure(
            events,
            current,
        ) {
            Some(m) => UiStateView::Error(m),
            None => UiStateView::Response {
                text: text + streamed_text(events, current),
                thoughts: thoughts + streamed_thoughts(events, current),
            },
        }),
    decreases events.len(),
{
    let state = UiStateView::Response { text, thoughts };
    if events.len() == 0 {
        assert(text + streamed_text(events, current) =~= text);
        assert(thoughts + streamed_thoughts(events, current) =~= thoughts);
    } else {
        let rest = events.drop_first();
        let next = state.step(current, events[0]);
        if events[0].generation() != current {
            lemma_drain_while_streaming(text, thoughts, current, rest);
        } else {
            match events[0] {
                StreamEventView::TextChunk(_, s) => {
                    lemma_drain_while_streaming(text + s, thoughts, current, rest);
                    assert((text + s) + streamed_text(rest, current) =~= text + (s
                        + streamed_text(rest, current)));
                },
                StreamEventView::ThoughtChunk(_, s) => {
                    lemma_drain_while_streaming(text, thoughts + s, current, rest);
                    assert((thoughts + s) + streamed_thoughts(rest, current) =~= thoughts + (s
                        + streamed_thoughts(rest, current)));
                },
                StreamEventView::Failed(_, m) => {
                    lemma_drain_when_not_receiving(next, current, rest);
                },
                StreamEventView::Finished(_) => {
                    lemma_drain_while_streaming(text, thoughts, current, rest);
                },
            }
        }
    }
}

/// Within a generation the text and the reasoning only grow: whatever
/// arrives, as long as an answer is shown afterwards it begins with what was
/// shown before.
pub proof fn lemma_answer_only_grows(
    state: UiStateView,
    current: u64,
    events: Seq<StreamEventView>,
)
    requires
        state is Response,
    ensures
        state.drain(current, events) is Response ==> state.text().is_prefix_of(
            state.drain(current, events).text(),
        ) && state.thoughts().is_prefix_of(state.drain(current, events).thoughts()),
        !(state.drain(current, events) is Response) ==> state.drain(current, events) is Error,
{
    lemma_drain_while_streaming(state.text(), state.thoughts(), current, events);
    let after = state.drain(current, events);
    if after is Response {
        assert(after.text().subrange(0, state.text().len() as int) =~= state.text());
        assert(after.thoughts().subrange(0, state.thoughts().len() as int)
            =~= state.thoughts());
    }
}

} // verus!
