use ai_shot_core::config::Config;
use ai_shot_core::geometry::{Point, Rect, Size};
use ai_shot_core::ui::selection::{DragInput, SelectionEvent};
use ai_shot_core::ui::settings::Settings;
use ai_shot_core::ui::snipping_tool::{FrameInput, Panel, SnippingTool, DEFAULT_PROMPT};
use ai_shot_core::ui::state::{SelectionResult, StreamEvent, UiState};

fn tool() -> SnippingTool {
    SnippingTool::new(None, Config::with_key("key"))
}

/// A point given in whole logical units.
fn pt(x: i32, y: i32) -> Point {
    Point { x: x * 64, y: y * 64 }
}

fn area() -> Rect {
    Rect { min: pt(0, 0), max: pt(50, 50) }
}

fn ui() -> Size {
    Size { width: 1920 * 64, height: 1080 * 64 }
}

fn text(g: u64, s: &str) -> StreamEvent {
    StreamEvent::TextChunk(g, s.to_string())
}

fn thought(g: u64, s: &str) -> StreamEvent {
    StreamEvent::ThoughtChunk(g, s.to_string())
}

fn shown(t: &SnippingTool) -> (String, String) {
    match &t.state {
        UiState::Response { text, thoughts } => (text.clone(), thoughts.clone()),
        other => panic!("not streaming: {:?}", other),
    }
}

fn drag(started: bool, dragged: bool, stopped: bool, x: i32, y: i32) -> DragInput {
    DragInput { drag_started: started, dragged, drag_stopped: stopped, pointer: Some(pt(x, y)) }
}

#[test]
fn new_session_is_idle() {
    let t = tool();
    assert!(matches!(t.state, UiState::Idle));
    assert_eq!(t.generation, 0);
    assert_eq!(t.selection_start, None);
    assert_eq!(t.current_pos, None);
    assert!(!t.is_selection_finalized);
    assert!(!t.show_settings);
    assert_eq!(t.chat_input, "");
    assert_eq!(t.settings.model, "gemini-flash-latest");
    assert_eq!(t.settings.api_key, "key");
}

#[test]
fn stored_settings_win_over_the_configuration() {
    let mut stored = Settings::with_defaults("gemini-2.5-pro");
    stored.api_key = "own".to_string();
    let t = SnippingTool::new(Some(stored), Config::with_key("key"));
    assert_eq!(t.settings.model, "gemini-2.5-pro");
    assert_eq!(t.settings.api_key, "own");
    let t = SnippingTool::new(Some(Settings::with_defaults("gemini-2.5-pro")), Config::with_key("key"));
    assert_eq!(t.settings.api_key, "key");
}

#[test]
fn submit_allocates_generations_and_shows_an_empty_answer() {
    let mut t = tool();
    let r1 = t.submit_request(area(), ui(), "what".to_string());
    assert_eq!(r1.generation, 1);
    assert_eq!(r1.prompt, "what");
    assert_eq!(r1.selection, area());
    assert_eq!(r1.ui_size, ui());
    assert_eq!(r1.settings.api_key, "key");
    assert_eq!(shown(&t), (String::new(), String::new()));
    let r2 = t.submit_request(area(), ui(), "again".to_string());
    assert_eq!(r2.generation, 2);
    assert_eq!(t.generation, 2);
}

#[test]
fn text_chunks_accumulate_in_order() {
    let mut t = tool();
    let g = t.submit_request(area(), ui(), "q".to_string()).generation;
    t.process_stream_events(&vec![text(g, "Hello"), text(g, " "), text(g, "world")]);
    assert_eq!(shown(&t), ("Hello world".to_string(), String::new()));
}

#[test]
fn thoughts_accumulate_apart_from_text() {
    let mut t = tool();
    let g = t.submit_request(area(), ui(), "q".to_string()).generation;
    t.process_stream_events(&vec![
        thought(g, "hm"),
        text(g, "Hello"),
        thought(g, ", ok"),
        text(g, " "),
        StreamEvent::Finished(g),
        text(g, "world"),
    ]);
    assert_eq!(shown(&t), ("Hello world".to_string(), "hm, ok".to_string()));
}

#[test]
fn batches_continue_where_the_last_ended() {
    let mut t = tool();
    let g = t.submit_request(area(), ui(), "q".to_string()).generation;
    t.process_stream_events(&vec![text(g, "a")]);
    t.process_stream_events(&vec![]);
    t.process_stream_events(&vec![text(g, "b"), thought(g, "t")]);
    assert_eq!(shown(&t), ("ab".to_string(), "t".to_string()));
}

#[test]
fn late_events_of_a_superseded_request_are_dropped() {
    let mut t = tool();
    let g1 = t.submit_request(area(), ui(), "one".to_string()).generation;
    t.process_stream_events(&vec![text(g1, "old ")]);
    let g2 = t.submit_request(area(), ui(), "two".to_string()).generation;
    assert_eq!((g1, g2), (1, 2));
    t.process_stream_events(&vec![
        text(g1, "stale"),
        text(g2, "new"),
        thought(g1, "stale thought"),
        StreamEvent::Failed(g1, "boom".to_string()),
        text(g2, " answer"),
        StreamEvent::Finished(g1),
    ]);
    assert_eq!(shown(&t), ("new answer".to_string(), String::new()));
}

#[test]
fn failure_shows_the_message_word_for_word() {
    let mut t = tool();
    let g = t.submit_request(area(), ui(), "q".to_string()).generation;
    t.process_stream_events(&vec![text(g, "partial"), StreamEvent::Failed(g, "Stream error: x".to_string())]);
    match &t.state {
        UiState::Error(m) => assert_eq!(m, "Stream error: x"),
        other => panic!("unexpected: {:?}", other),
    }
    t.process_stream_events(&vec![text(g, "late"), StreamEvent::Failed(g, "second".to_string())]);
    match &t.state {
        UiState::Error(m) => assert_eq!(m, "Stream error: x"),
        other => panic!("unexpected: {:?}", other),
    }
}

#[test]
fn finished_leaves_the_answer_on_display() {
    let mut t = tool();
    let g = t.submit_request(area(), ui(), "q".to_string()).generation;
    t.process_stream_events(&vec![text(g, "done"), StreamEvent::Finished(g)]);
    assert_eq!(shown(&t), ("done".to_string(), String::new()));
}

#[test]
fn events_do_nothing_while_idle() {
    let mut t = tool();
    t.process_stream_events(&vec![text(0, "x"), StreamEvent::Failed(0, "f".to_string())]);
    assert!(matches!(t.state, UiState::Idle));
    let g = t.submit_request(area(), ui(), "q".to_string()).generation;
    t.go_back();
    t.process_stream_events(&vec![text(g, "late"), StreamEvent::Failed(g, "f".to_string())]);
    assert!(matches!(t.state, UiState::Idle));
}

#[test]
fn loading_state_starts_the_answer_with_the_first_chunk() {
    let mut s = UiState::Loading;
    s.apply(4, &thought(4, "t"));
    match &s {
        UiState::Response { text, thoughts } => assert_eq!((text.as_str(), thoughts.as_str()), ("", "t")),
        other => panic!("unexpected: {:?}", other),
    }
    let mut s = UiState::Loading;
    s.apply(4, &text(3, "stale"));
    assert!(matches!(s, UiState::Loading));
    s.apply(4, &StreamEvent::Finished(4));
    assert!(matches!(s, UiState::Loading));
    s.apply(4, &StreamEvent::Failed(4, "no".to_string()));
    assert!(matches!(s, UiState::Error(_)));
}

#[test]
fn new_drag_resets_a_streaming_answer() {
    let mut t = tool();
    let g = t.submit_request(area(), ui(), "q".to_string()).generation;
    t.chat_input = "typed".to_string();
    t.is_selection_finalized = true;
    let frame = t.update(
        &vec![text(g, "pending")],
        &FrameInput { drag: drag(true, false, false, 5, 6), escape_pressed: false },
    );
    assert_eq!(frame.event, SelectionEvent::Started);
    assert!(matches!(t.state, UiState::Idle));
    assert!(!t.is_selection_finalized);
    assert_eq!(t.chat_input, "");
    assert_eq!(t.selection_start, Some(pt(5, 6)));
    t.process_stream_events(&vec![text(g, "late")]);
    assert!(matches!(t.state, UiState::Idle));
}

#[test]
fn new_drag_resets_an_error() {
    let mut t = tool();
    let g = t.submit_request(area(), ui(), "q".to_string()).generation;
    t.process_stream_events(&vec![StreamEvent::Failed(g, "bad".to_string())]);
    assert!(matches!(t.state, UiState::Error(_)));
    let e = t.handle_pointer(&drag(true, false, false, 1, 1));
    assert_eq!(e, SelectionEvent::Started);
    assert!(matches!(t.state, UiState::Idle));
}

#[test]
fn pointer_is_ignored_while_loading() {
    let mut t = tool();
    t.state = UiState::Loading;
    let e = t.handle_pointer(&drag(true, false, false, 1, 1));
    assert_eq!(e, SelectionEvent::NoEvent);
    assert_eq!(t.selection_start, None);
    assert!(matches!(t.state, UiState::Loading));
}

#[test]
fn full_gesture_through_frames() {
    let mut t = tool();
    let none = Vec::new();
    let f = t.update(&none, &FrameInput { drag: drag(true, false, false, 10, 10), escape_pressed: false });
    assert_eq!(f.event, SelectionEvent::Started);
    assert_eq!(f.panel, None);
    assert!(!f.close);
    let f = t.update(&none, &FrameInput { drag: drag(false, true, false, 40, 5), escape_pressed: false });
    assert_eq!(f.event, SelectionEvent::Dragging);
    assert_eq!(
        f.selection,
        Some(Rect { min: pt(10, 5), max: pt(40, 10) })
    );
    assert_eq!(f.panel, None);
    let f = t.update(&none, &FrameInput { drag: drag(false, false, true, 40, 5), escape_pressed: false });
    assert_eq!(f.event, SelectionEvent::Completed);
    assert!(t.is_selection_finalized);
    assert_eq!(f.panel, Some(Panel::Prompt));
    // the pointer moves on, the selection stays
    let f = t.update(&none, &FrameInput { drag: drag(false, false, false, 500, 500), escape_pressed: false });
    assert_eq!(f.event, SelectionEvent::NoEvent);
    assert_eq!(
        f.selection,
        Some(Rect { min: pt(10, 5), max: pt(40, 10) })
    );
    let g = t.submit_request(f.selection.unwrap(), ui(), "q".to_string()).generation;
    let f = t.update(&vec![text(g, "hi")], &FrameInput { drag: drag(false, false, false, 0, 0), escape_pressed: false });
    assert_eq!(f.panel, Some(Panel::Answer));
    let f = t.update(
        &vec![StreamEvent::Failed(g, "x".to_string())],
        &FrameInput { drag: drag(false, false, false, 0, 0), escape_pressed: true },
    );
    assert_eq!(f.panel, Some(Panel::Failure));
    assert!(f.close);
}

#[test]
fn short_drag_leaves_no_selection() {
    let mut t = tool();
    let none = Vec::new();
    t.update(&none, &FrameInput { drag: drag(true, false, false, 10, 10), escape_pressed: false });
    t.update(&none, &FrameInput { drag: drag(false, true, false, 13, 14), escape_pressed: false });
    let f = t.update(&none, &FrameInput { drag: drag(false, false, true, 13, 14), escape_pressed: false });
    assert_eq!(f.event, SelectionEvent::Cancelled);
    assert_eq!(f.selection, None);
    assert_eq!(f.panel, None);
    assert!(!t.is_selection_finalized);
    assert_eq!((t.selection_start, t.current_pos), (None, None));
}

#[test]
fn blank_prompt_becomes_the_default_question() {
    assert_eq!(SnippingTool::prompt_for(""), DEFAULT_PROMPT);
    assert_eq!(SnippingTool::prompt_for(" \t\n\u{a0}\u{3000}"), "Explain this image in detail.");
    assert_eq!(SnippingTool::prompt_for(" what? "), " what? ");
    assert_eq!(SnippingTool::prompt_for("\u{200b}"), "\u{200b}");
}

#[test]
fn back_and_settings_toggle() {
    let mut t = tool();
    t.submit_request(area(), ui(), "q".to_string());
    t.go_back();
    assert!(matches!(t.state, UiState::Idle));
    assert_eq!(t.generation, 1);
    t.toggle_settings();
    assert!(t.show_settings);
    t.toggle_settings();
    assert!(!t.show_settings);
}

#[test]
fn selection_result_starts_empty() {
    let r = SelectionResult::default();
    assert_eq!(r.selected_area, None);
    assert_eq!(r.screen_size, None);
    assert_eq!(r.user_prompt, None);
}
