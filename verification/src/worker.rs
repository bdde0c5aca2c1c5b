//! What a background worker decides: which event it sends for each thing
//! that happens to it, and when it stops.
//!
//! A worker serves one request. It prepares the image, opens the stream, and
//! turns what the stream delivers into events that carry its generation. It
//! sends them in the order in which they arise and never touches the display.

use vstd::prelude::*;
use vstd::string::*;
use crate::config::Config;
use crate::error::{AppError, AppErrorView};
use crate::gemini::{stream_event_views, GeminiStreamEvent, GeminiStreamEventView};
use crate::image_processing::{
    base64_standard, image_crop, image_size, jpeg_encoding, mapped_rect, ImageProcessor,
};
use crate::ui::settings::Settings;
use crate::ui::snipping_tool::WorkerRequest;
use crate::ui::state::{event_views, StreamEvent, StreamEventView};

verus! {

/// Where in its work a worker failed.
#[derive(Clone, Copy, Debug, PartialEq, Eq, Structural)]
pub enum WorkerStage {
    /// While cutting out and encoding the selection.
    ImageProcessing,
    /// While putting the configuration together.
    Configuration,
    /// While setting up the client of the completion service.
    ClientInit,
    /// While opening the stream.
    Request,
    /// While reading the stream.
    Stream,
    /// While starting the worker's own runtime.
    Runtime,
}

impl WorkerStage {
    /// What a failure message begins with.
    pub open spec fn prefix(self) -> Seq<char> {
        match self {
            WorkerStage::ImageProcessing => "Image processing failed: "@,
            WorkerStage::Configuration => "Configuration error: "@,
            WorkerStage::ClientInit => "Client initialization failed: "@,
            WorkerStage::Request => "Gemini API error: "@,
            WorkerStage::Stream => "Stream error: "@,
            WorkerStage::Runtime => "Failed to create async runtime: "@,
        }
    }

    fn prefix_text(self) -> (p: &'static str)
        ensures
            p@ == self.prefix(),
    {
        match self {
            WorkerStage::ImageProcessing => "Image processing failed: ",
            WorkerStage::Configuration => "Configuration error: ",
            WorkerStage::ClientInit => "Client initialization failed: ",
            WorkerStage::Request => "Gemini API error: ",
            WorkerStage::Stream => "Stream error: ",
            WorkerStage::Runtime => "Failed to create async runtime: ",
        }
    }
}

/// The event for one piece of a streamed answer.
pub open spec fn chunk_event(generation: u64, piece: GeminiStreamEventView) -> StreamEventView {
    match piece {
        GeminiStreamEventView::Text(s) => StreamEventView::TextChunk(generation, s),
        GeminiStreamEventView::Thought(s) => StreamEventView::ThoughtChunk(generation, s),
    }
}

/// The events for the pieces of one chunk, in order.
pub open spec fn chunk_events_of(generation: u64, pieces: Seq<GeminiStreamEventView>) -> Seq<
    StreamEventView,
> {
    Seq::new(pieces.len(), |i: int| chunk_event(generation, pieces[i]))
}

/// What a worker does next after something happened to it.
#[derive(Debug)]
pub struct WorkerOutput {
    /// The events to send, in this order.
    pub events: Vec<StreamEvent>,
    /// Whether the worker is done and sends nothing more.
    pub done: bool,
}

/// The event by which a worker reports a failure: it names the stage and
/// carries the cause word for word.
pub fn failure_event(generation: u64, stage: WorkerStage, detail: &str) -> (event: StreamEvent)
    ensures
        event@ == StreamEventView::Failed(generation, stage.prefix() + detail@),
{
    StreamEvent::Failed(generation, stage.prefix_text().to_owned().concat(detail))
}

/// The events for the pieces of one chunk of the answer, each tagged with the
/// worker's generation, in the order of the pieces.
pub fn chunk_events(generation: u64, pieces: &Vec<GeminiStreamEvent>) -> (events: Vec<StreamEvent>)
    ensures
        event_views(events@) == chunk_events_of(generation, stream_event_views(pieces@)),
{
    let mut events: Vec<StreamEvent> = Vec::new();
    let mut i: usize = 0;
    while i < pieces.len()
        invariant
            i <= pieces.len(),
            events@.len() == i,
            forall|j: int|
                0 <= j < i ==> (#[trigger] events@[j])@ == chunk_event(generation, pieces@[j]@),
        decreases pieces.len() - i,
    {
        let event = match &pieces[i] {
            GeminiStreamEvent::Text(s) => StreamEvent::TextChunk(generation, s.clone()),
            GeminiStreamEvent::Thought(s) => StreamEvent::ThoughtChunk(generation, s.clone()),
        };
        events.push(event);
        i += 1;
    }
    assert(event_views(events@) =~= chunk_events_of(generation, stream_event_views(pieces@)));
    events
}

/// What a worker does with one item of the stream: the events of a chunk,
/// after which it reads on, or the report of a failure, after which it stops.
pub fn on_stream_item(generation: u64, item: &Result<Vec<GeminiStreamEvent>, String>) -> (out:
    WorkerOutput)
    ensures
        match item {
            Ok(pieces) => !out.done && event_views(out.events@) == chunk_events_of(
                generation,
                stream_event_views(pieces@),
            ),
            Err(detail) => out.done && event_views(out.events@) == seq![
                StreamEventView::Failed(generation, WorkerStage::Stream.prefix() + detail@),
            ],
        },
{
    match item {
        Ok(pieces) => WorkerOutput { events: chunk_events(generation, pieces), done: false },
        Err(detail) => {
            let mut events: Vec<StreamEvent> = Vec::new();
            events.push(failure_event(generation, WorkerStage::Stream, detail.as_str()));
            assert(event_views(events@) =~= seq![
                StreamEventView::Failed(generation, WorkerStage::Stream.prefix() + detail@),
            ]);
            WorkerOutput { events, done: true }
        },
    }
}

/// The event by which a worker reports that its stream ended.
pub fn finished_event(generation: u64) -> (event: StreamEvent)
    ensures
        event@ == StreamEventView::Finished(generation),
{
    StreamEvent::Finished(generation)
}

/// The configuration with which a worker sets up its client: the key and the
/// model of the settings that came with the request.
pub fn task_config(settings: &Settings) -> (r: Result<Config, AppError>)
    ensures
        r matches Ok(c) && c@.gemini_api_key == settings@.api_key && c@.model_name
            == settings@.model,
{
    Config::builder().with_api_key(settings.api_key.as_str()).with_model(
        settings.model.as_str(),
    ).build(None, None)
}

/// Whether `r` is what a worker of the given generation has after its first
/// step, where `jpeg` is the outcome of writing the selected region as JPEG:
/// the Base64 text of the bytes, or the event that reports the encoder's
/// refusal.
pub open spec fn is_prepared(
    r: Result<String, StreamEvent>,
    generation: u64,
    jpeg: Option<Seq<u8>>,
) -> bool {
    match jpeg {
        Some(bytes) => r matches Ok(s) && s@ == base64_standard(bytes),
        None => r matches Err(event) && exists|detail: Seq<char>|
            event@ == StreamEventView::Failed(
                generation,
                WorkerStage::ImageProcessing.prefix() + AppErrorView::ImageProcessing(
                    "Failed to encode image: "@ + detail,
                ).message(),
            ),
    }
}

/// The first step of a worker: maps the selection onto the screenshot, cuts
/// the region out and encodes it. Gives the encoded image, or the event that
/// reports why there is none. Where the selection covers no pixel the worker
/// learns so before it has encoded or sent anything.
pub fn prepare_image(request: &WorkerRequest, screenshot: &image::DynamicImage) -> (r: Result<
    String,
    StreamEvent,
>)
    ensures
        match mapped_rect(request.selection, request.ui_size, image_size(screenshot)) {
            None => r matches Err(event) && event@ == StreamEventView::Failed(
                request.generation,
                WorkerStage::ImageProcessing.prefix() + AppErrorView::EmptySelection.message(),
            ),
            Some(rect) => is_prepared(
                r,
                request.generation,
                jpeg_encoding(&image_crop(screenshot, rect.x, rect.y, rect.width, rect.height)),
            ),
        },
{
    match ImageProcessor::process_selection(screenshot, request.selection, request.ui_size) {
        Ok(encoded) => Ok(encoded),
        Err(e) => {
            let message = e.message();
            let event = failure_event(
                request.generation,
                WorkerStage::ImageProcessing,
                message.as_str(),
            );
            proof {
                if mapped_rect(request.selection, request.ui_size, image_size(screenshot))
                    is Some {
                    let detail = choose|detail: Seq<char>|
                        e@ == AppErrorView::ImageProcessing("Failed to encode image: "@ + detail);
                    assert(event@ == StreamEventView::Failed(
                        request.generation,
                        WorkerStage::ImageProcessing.prefix() + AppErrorView::ImageProcessing(
                            "Failed to encode image: "@ + detail,
                        ).message(),
                    ));
                }
            }
            Err(event)
        },
    }
}

} // verus!
