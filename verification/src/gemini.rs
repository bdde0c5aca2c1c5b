//! What the library decides about a request to the completion service and
//! about the answer: where the model lives, which options go with a request,
//! and which parts of an answer are text and which are reasoning.

use vstd::prelude::*;
use vstd::string::*;
use crate::config::Config;
use crate::error::{AppError, AppErrorView};
use crate::text::{has_prefix, is_blank, text_has_prefix, text_is_blank};

verus! {

/// The address under which the service's models are found.
pub const BASE_URL: &'static str = "https://generativelanguage.googleapis.com/v1beta/";

/// What a model's path begins with.
pub const MODEL_PREFIX: &'static str = "models/";

/// The media type of the image that is sent.
pub const IMAGE_MIME_TYPE: &'static str = "image/jpeg";

/// The number of tokens that the model may spend on reasoning.
pub const THINKING_BUDGET: i32 = 1024;

/// What is reported where an answer holds no text.
pub const NO_TEXT_MESSAGE: &'static str = "No text response received from Gemini";

/// A piece of a streamed answer.
#[derive(Debug)]
pub enum GeminiStreamEvent {
    /// A piece of the answer's text.
    Text(String),
    /// A piece of the model's reasoning.
    Thought(String),
}

/// The mathematical value of a [`GeminiStreamEvent`].
pub enum GeminiStreamEventView {
    Text(Seq<char>),
    Thought(Seq<char>),
}

impl View for GeminiStreamEvent {
    type V = GeminiStreamEventView;

    open spec fn view(&self) -> GeminiStreamEventView {
        match self {
            GeminiStreamEvent::Text(s) => GeminiStreamEventView::Text(s@),
            GeminiStreamEvent::Thought(s) => GeminiStreamEventView::Thought(s@),
        }
    }
}

impl Clone for GeminiStreamEvent {
    fn clone(&self) -> (r: Self)
        ensures
            r@ == self@,
    {
        match self {
            GeminiStreamEvent::Text(s) => GeminiStreamEvent::Text(s.clone()),
            GeminiStreamEvent::Thought(s) => GeminiStreamEvent::Thought(s.clone()),
        }
    }
}

/// One part of an answer, reduced to what the library reads of it.
#[derive(Debug)]
pub enum ResponsePart {
    /// Text, with the service's mark that it is reasoning, where it set one.
    Text { text: String, thought: Option<bool> },
    /// Anything that is not text: data, a function call, and the like.
    Other,
}

/// The mathematical value of a [`ResponsePart`].
pub enum ResponsePartView {
    Text { text: Seq<char>, thought: Option<bool> },
    Other,
}

impl View for ResponsePart {
    type V = ResponsePartView;

    open spec fn view(&self) -> ResponsePartView {
        match self {
            ResponsePart::Text { text, thought } => ResponsePartView::Text {
                text: text@,
                thought: *thought,
            },
            ResponsePart::Other => ResponsePartView::Other,
        }
    }
}

/// The views of a sequence of parts, in order.
pub open spec fn part_views(parts: Seq<ResponsePart>) -> Seq<ResponsePartView> {
    parts.map_values(|p: ResponsePart| p@)
}

/// The views of a sequence of events, in order.
pub open spec fn stream_event_views(events: Seq<GeminiStreamEvent>) -> Seq<GeminiStreamEventView> {
    events.map_values(|e: GeminiStreamEvent| e@)
}

/// The events that the parts of one chunk give: one for each text part, in
/// order, reasoning where the part is marked as a thought and text otherwise.
pub open spec fn events_of_parts(parts: Seq<ResponsePartView>) -> Seq<GeminiStreamEventView>
    decreases parts.len(),
{
    if parts.len() == 0 {
        Seq::empty()
    } else {
        let before = events_of_parts(parts.drop_last());
        match parts.last() {
            ResponsePartView::Text { text, thought } => before.push(
                if thought == Some(true) {
                    GeminiStreamEventView::Thought(text)
                } else {
                    GeminiStreamEventView::Text(text)
                },
            ),
            ResponsePartView::Other => before,
        }
    }
}

/// The text of the first text part, if there is one.
pub open spec fn first_text_of(parts: Seq<ResponsePartView>) -> Option<Seq<char>>
    decreases parts.len(),
{
    if parts.len() == 0 {
        None
    } else {
        match parts[0] {
            ResponsePartView::Text { text, .. } => Some(text),
            ResponsePartView::Other => first_text_of(parts.drop_first()),
        }
    }
}

/// The path of a model: its name, with `models/` in front unless the name
/// begins with it already.
pub open spec fn model_path_of(model_name: Seq<char>) -> Seq<char> {
    if has_prefix(model_name, MODEL_PREFIX@) {
        model_name
    } else {
        MODEL_PREFIX@ + model_name
    }
}

/// The options that go with a request.
#[derive(Debug)]
pub struct RequestOptions {
    /// The system instructions, where there are any.
    pub system_prompt: Option<String>,
    /// The budget for reasoning, where reasoning is asked for.
    pub thinking_budget: Option<i32>,
    /// Whether the model's reasoning is to be part of the answer.
    pub include_thoughts: bool,
    /// Whether the answer may be grounded in a web search.
    pub google_search: bool,
}

/// The path of a model with the given name.
pub fn model_path(model_name: &str) -> (path: String)
    ensures
        path@ == model_path_of(model_name@),
{
    if text_has_prefix(model_name, MODEL_PREFIX) {
        model_name.to_owned()
    } else {
        MODEL_PREFIX.to_owned().concat(model_name)
    }
}

/// The address of a model with the given name.
pub fn model_url(model_name: &str) -> (url: String)
    ensures
        url@ == BASE_URL@ + model_path_of(model_name@),
{
    let path = model_path(model_name);
    BASE_URL.to_owned().concat(path.as_str())
}

/// The options for a request. Blank system instructions are left out;
/// reasoning, where enabled, gets a fixed budget and is included in the
/// answer.
pub fn request_options(system_prompt: &str, thinking_enabled: bool, google_search: bool) -> (o:
    RequestOptions)
    ensures
        crate::config::option_text(o.system_prompt) == if is_blank(system_prompt@) {
            None
        } else {
            Some(system_prompt@)
        },
        o.thinking_budget == if thinking_enabled {
            Some(THINKING_BUDGET)
        } else {
            None
        },
        o.include_thoughts == thinking_enabled,
        o.google_search == google_search,
{
    RequestOptions {
        system_prompt: if text_is_blank(system_prompt) {
            None
        } else {
            Some(system_prompt.to_owned())
        },
        thinking_budget: if thinking_enabled {
            Some(THINKING_BUDGET)
        } else {
            None
        },
        include_thoughts: thinking_enabled,
        google_search,
    }
}

/// Turns the parts of one chunk of a streamed answer into events. A chunk
/// without text gives `None`, and is passed over.
pub fn classify_parts(parts: &Vec<ResponsePart>) -> (r: Option<Vec<GeminiStreamEvent>>)
    ensures
        match r {
            Some(events) => events@.len() > 0 && stream_event_views(events@) == events_of_parts(
                part_views(parts@),
            ),
            None => events_of_parts(part_views(parts@)).len() == 0,
        },
{
    let mut events: Vec<GeminiStreamEvent> = Vec::new();
    let ghost all = part_views(parts@);
    let mut i: usize = 0;
    assert(stream_event_views(events@) =~= events_of_parts(all.take(0)));
    while i < parts.len()
        invariant
            i <= parts.len(),
            all == part_views(parts@),
            stream_event_views(events@) == events_of_parts(all.take(i as int)),
        decreases parts.len() - i,
    {
        proof {
            let upto = all.take(i + 1);
            assert(upto.drop_last() =~= all.take(i as int));
            assert(upto.last() == parts@[i as int]@);
        }
        let ghost before = events@;
        match &parts[i] {
            ResponsePart::Text { text, thought } => {
                let is_thought = match thought {
                    Some(t) => *t,
                    None => false,
                };
                if is_thought {
                    events.push(GeminiStreamEvent::Thought(text.clone()));
                } else {
                    events.push(GeminiStreamEvent::Text(text.clone()));
                }
                assert(stream_event_views(events@) =~= stream_event_views(before).push(
                    events@.last()@,
                ));
            },
            ResponsePart::Other => {},
        }
        i += 1;
    }
    assert(all.take(i as int) =~= all);
    if events.len() == 0 {
        None
    } else {
        Some(events)
    }
}

/// The answer of a request that is not streamed: the text of the first text
/// part, or an error where the answer holds no text.
pub fn first_text(parts: &Vec<ResponsePart>) -> (r: Result<String, AppError>)
    ensures
        match first_text_of(part_views(parts@)) {
            Some(text) => r matches Ok(s) && s@ == text,
            None => r matches Err(e) && e@ == AppErrorView::GeminiApi(NO_TEXT_MESSAGE@),
        },
{
    let ghost all = part_views(parts@);
    let mut i: usize = 0;
    assert(all.skip(0) =~= all);
    while i < parts.len()
        invariant
            i <= parts.len(),
            all == part_views(parts@),
            first_text_of(all) == first_text_of(all.skip(i as int)),
        decreases parts.len() - i,
    {
        proof {
            let rest = all.skip(i as int);
            assert(rest[0] == parts@[i as int]@);
            assert(rest.drop_first() =~= all.skip(i + 1));
        }
        match &parts[i] {
            ResponsePart::Text { text, .. } => {
                return Ok(text.clone());
            },
            ResponsePart::Other => {},
        }
        i += 1;
    }
    assert(all.skip(i as int).len() == 0);
    Err(AppError::gemini(NO_TEXT_MESSAGE))
}

/// The client of the completion service, as `gemini_rust` holds it.
#[verifier::external_type_specification]
#[verifier::external_body]
pub struct ExGemini(gemini_rust::Gemini);

/// Why `gemini_rust` could not set up or use its client.
#[verifier::external_type_specification]
#[verifier::external_body]
pub struct ExClientError(gemini_rust::ClientError);

/// An address, as `url` holds it.
#[verifier::external_type_specification]
#[verifier::external_body]
pub struct ExUrl(url::Url);

/// Why `url` could not read an address.
#[verifier::external_type_specification]
#[verifier::external_body]
pub struct ExParseError(url::ParseError);

/// The address that `Url::parse` reads from a text, or `None` where it reads
/// none.
pub uninterp spec fn parsed_url(text: Seq<char>) -> Option<url::Url>;

/// Whether `Gemini::with_model_and_base_url` gives a client for the key, the
/// model and the base address.
pub uninterp spec fn client_is_set_up(
    api_key: Seq<char>,
    model: Seq<char>,
    base_url: url::Url,
) -> bool;

/// `Url::parse`: the address that a text denotes, or why it denotes none.
#[verifier::external_body]
fn parse_url(text: &str) -> (r: Result<url::Url, url::ParseError>)
    ensures
        r is Ok <==> parsed_url(text@) is Some,
        r matches Ok(u) ==> parsed_url(text@) == Some(u),
{
    url::Url::parse(text)
}

/// The `Display` text of a `url::ParseError`.
#[verifier::external_body]
fn parse_error_text(e: &url::ParseError) -> (s: String) {
    format!("{}", e)
}

/// `Gemini::with_model_and_base_url`: a client for the given key, model and
/// base address, or why none could be set up. Which of the two it is depends
/// on the arguments alone. The call builds an HTTP client underneath and does
/// not return where this machine cannot build one.
#[verifier::external_body]
fn connect(api_key: &str, model: String, base_url: url::Url) -> (r: Result<
    gemini_rust::Gemini,
    gemini_rust::ClientError,
>)
    ensures
        r is Ok <==> client_is_set_up(api_key@, model@, base_url),
{
    gemini_rust::Gemini::with_model_and_base_url(api_key, model, base_url)
}

/// The `Display` text of a `gemini_rust::ClientError`.
#[verifier::external_body]
fn client_error_text(e: &gemini_rust::ClientError) -> (s: String) {
    format!("{}", e)
}

/// A client of the completion service, set up for one key and one model.
pub struct GeminiClient {
    client: gemini_rust::Gemini,
    model_url: String,
}

/// Whether an error is a configuration error whose text begins with `prefix`
/// and goes on with the cause.
pub open spec fn is_setup_error(e: AppErrorView, prefix: Seq<char>) -> bool {
    exists|detail: Seq<char>| e == AppErrorView::Config(prefix + detail)
}

/// Whether `r` is what setting up a client for a key and a model gives.
///
/// Where the service's base address cannot be read, or the client library
/// gives no client for the key and the model's address, it is a
/// configuration error that names the step and carries the cause; otherwise
/// it is a client for the model's address.
pub open spec fn is_setup_of(
    r: Result<GeminiClient, AppError>,
    api_key: Seq<char>,
    model_name: Seq<char>,
) -> bool {
    let address = BASE_URL@ + model_path_of(model_name);
    match parsed_url(BASE_URL@) {
        None => r matches Err(e) && is_setup_error(e@, "Invalid base URL: "@),
        Some(base_url) => if client_is_set_up(api_key, address, base_url) {
            r matches Ok(c) && c.model_address() == address
        } else {
            r matches Err(e) && is_setup_error(e@, "Failed to create Gemini client: "@)
        },
    }
}

impl GeminiClient {
    /// The error for a base address that cannot be read.
    pub fn base_url_error(detail: &str) -> (e: AppError)
        ensures
            e@ == AppErrorView::Config("Invalid base URL: "@ + detail@),
    {
        AppError::Config("Invalid base URL: ".to_owned().concat(detail))
    }

    /// The error for a client that cannot be set up.
    pub fn client_error(detail: &str) -> (e: AppError)
        ensures
            e@ == AppErrorView::Config("Failed to create Gemini client: "@ + detail@),
    {
        AppError::Config("Failed to create Gemini client: ".to_owned().concat(detail))
    }

    /// Sets up a client for the key and the model of a configuration. The
    /// model is addressed by its path under the service's base address.
    pub fn new(config: &Config) -> (r: Result<GeminiClient, AppError>)
        ensures
            is_setup_of(r, config@.gemini_api_key, config@.model_name),
    {
        let base_url = match parse_url(BASE_URL) {
            Ok(u) => u,
            Err(e) => {
                let detail = parse_error_text(&e);
                return Err(Self::base_url_error(detail.as_str()));
            },
        };
        let url = model_url(config.model_name.as_str());
        match connect(config.gemini_api_key.as_str(), url.clone(), base_url) {
            Ok(client) => Ok(GeminiClient { client, model_url: url }),
            Err(e) => {
                let detail = client_error_text(&e);
                Err(Self::client_error(detail.as_str()))
            },
        }
    }

    /// The address of the model that the client was set up for.
    pub closed spec fn model_address(self) -> Seq<char> {
        self.model_url@
    }

    /// The address of the model that the client was set up for.
    pub fn model_url(&self) -> (url: &str)
        ensures
            url@ == self.model_address(),
    {
        self.model_url.as_str()
    }

    /// The client library's own handle.
    pub closed spec fn handle(self) -> gemini_rust::Gemini {
        self.client
    }

    /// The client library's own handle, for those who send the requests.
    pub fn client(&self) -> (c: &gemini_rust::Gemini)
        ensures
            *c == self.handle(),
    {
        &self.client
    }
}

} // verus!
