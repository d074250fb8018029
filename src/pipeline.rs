//! One assistant invocation as a state machine.
//!
//! The runtime that drives an invocation performs the outside work (reading
//! the upload, calling the speech, chat and image services, writing
//! artifacts) and reports each result as an `Outcome`. `Pipeline::advance`
//! decides what happens next: the events to publish, in order, and the next
//! `Request` of outside work, or none once the invocation has ended. Every
//! invocation ends with exactly one terminal signal, Complete or Error.

use vstd::prelude::*;
use crate::assets::{
    artifact_path, artifact_url, audio_path, audio_url, image_path, image_url,
    lemma_audio_url_serves_audio_path, lemma_image_url_serves_image_path, served_path,
};
use crate::events::{
    AssistantEvent, AssistantStep, ChatInputEvent, ChatReplyData, ChatReplyEvent,
    ChatReplySkeletonEvent, DrawImageResult, EventView, ReplyView, SignalView, SpeechResult,
    WriteCodeResult, completed, complete, error, failed, in_audio_upload, in_chat_completion,
    in_draw_image, in_speech, in_thinking, in_transcription, in_write_code, is_terminal,
    processing, reply_skeleton, step_rank,
};
use crate::services::{base64_decoded, decode_base64, markdown_html, md2html};
use crate::tools::{
    AssistantTool, DispatchError, dispatch, malformed_message, prompt_of, tool_named,
};

verus! {

/// The classes of failure that end an invocation.
#[derive(Clone, Copy, Debug, PartialEq, Eq, Structural)]
pub enum ErrorKind {
    /// A missing or misnamed upload field, or malformed tool arguments.
    InputValidation,
    /// An outside service failed or answered in an unexpected shape.
    UpstreamServiceFailure,
    /// An unrecognised finish reason or tool name.
    UnsupportedOutcome,
    /// An artifact could not be written.
    StorageFailure,
}

/// Why the chat service stopped generating.
#[derive(Clone, Copy, Debug, PartialEq, Eq, Structural)]
pub enum FinishReason {
    Stop,
    Length,
    ContentFilter,
    ToolCalls,
}

/// A tool call of the chat service: the tool's name and its JSON arguments.
#[derive(Clone, Debug)]
pub struct ToolChoice {
    pub name: String,
    pub arguments: String,
}

/// The choice that a chat completion returned.
#[derive(Clone, Debug)]
pub struct Choice {
    pub finish_reason: FinishReason,
    pub content: Option<String>,
    pub tool_calls: Vec<ToolChoice>,
}

/// An image returned by the image service.
#[derive(Clone, Debug)]
pub struct GeneratedImage {
    pub b64_json: Option<String>,
    pub revised_prompt: String,
}

/// The result of a piece of outside work, reported back to the pipeline.
pub enum Outcome {
    /// The names of the upload's fields, in order; an unnamed field has
    /// the empty name.
    Fields { names: Vec<String> },
    /// The bytes of the uploaded audio field.
    Audio { bytes: Vec<u8> },
    /// The transcription of the audio.
    Transcript { text: String },
    /// The choice a chat completion returned (one is asked for), or none if
    /// it returned none.
    Completion { choice: Option<Choice> },
    /// The first image of an image generation, or none; `name` is a fresh
    /// name for the artifact.
    Image { image: Option<GeneratedImage>, name: String },
    /// Synthesized speech; `name` is a fresh name for the artifact.
    Speech { audio: Vec<u8>, name: String },
    /// The artifact was written.
    Stored,
    /// The outside work failed.
    Failure { kind: ErrorKind, message: String },
}

/// Outside work that the pipeline asks for.
pub enum Request {
    /// Read the names of the upload's fields, keeping the first field's
    /// bytes.
    ReadFields,
    /// Read the bytes of the audio field.
    ReadAudio,
    /// Transcribe the audio.
    Transcribe { audio: Vec<u8> },
    /// Ask the tool-selecting chat completion about the transcript.
    SelectTool { transcript: String },
    /// Generate an image from the prompt.
    DrawImage { prompt: String },
    /// Ask the coding chat completion for markdown.
    WriteCode { prompt: String },
    /// Ask the general-assistant chat completion for an answer.
    Answer { prompt: String },
    /// Synthesize speech from the text.
    Speak { text: String },
    /// Write the bytes to the path.
    Store { path: String, bytes: Vec<u8> },
}

/// View of a request.
pub enum RequestView {
    ReadFields,
    ReadAudio,
    Transcribe { audio: Seq<u8> },
    SelectTool { transcript: Seq<char> },
    DrawImage { prompt: Seq<char> },
    WriteCode { prompt: Seq<char> },
    Answer { prompt: Seq<char> },
    Speak { text: Seq<char> },
    Store { path: Seq<char>, bytes: Seq<u8> },
}

impl View for Request {
    type V = RequestView;

    open spec fn view(&self) -> RequestView {
        match self {
            Request::ReadFields => RequestView::ReadFields,
            Request::ReadAudio => RequestView::ReadAudio,
            Request::Transcribe { audio } => RequestView::Transcribe { audio: audio@ },
            Request::SelectTool { transcript } => RequestView::SelectTool { transcript: transcript@ },
            Request::DrawImage { prompt } => RequestView::DrawImage { prompt: prompt@ },
            Request::WriteCode { prompt } => RequestView::WriteCode { prompt: prompt@ },
            Request::Answer { prompt } => RequestView::Answer { prompt: prompt@ },
            Request::Speak { text } => RequestView::Speak { text: text@ },
            Request::Store { path, bytes } => RequestView::Store { path: path@, bytes: bytes@ },
        }
    }
}

/// Where an invocation stands: which outside result it waits for, or that
/// it has ended.
pub enum Stage {
    Uploading,
    Reading,
    Transcribing,
    Thinking,
    Drawing,
    Coding,
    Answering,
    Speaking { text: String },
    Storing { path: String, reply: ChatReplyData },
    Completed,
    Failed { kind: ErrorKind, message: String },
}

/// View of a stage.
pub enum StageView {
    Uploading,
    Reading,
    Transcribing,
    Thinking,
    Drawing,
    Coding,
    Answering,
    Speaking { text: Seq<char> },
    Storing { path: Seq<char>, reply: ReplyView },
    Completed,
    Failed { kind: ErrorKind, message: Seq<char> },
}

impl View for Stage {
    type V = StageView;

    open spec fn view(&self) -> StageView {
        match self {
            Stage::Uploading => StageView::Uploading,
            Stage::Reading => StageView::Reading,
            Stage::Transcribing => StageView::Transcribing,
            Stage::Thinking => StageView::Thinking,
            Stage::Drawing => StageView::Drawing,
            Stage::Coding => StageView::Coding,
            Stage::Answering => StageView::Answering,
            Stage::Speaking { text } => StageView::Speaking { text: text@ },
            Stage::Storing { path, reply } => StageView::Storing { path: path@, reply: reply@ },
            Stage::Completed => StageView::Completed,
            Stage::Failed { kind, message } => StageView::Failed { kind: *kind, message: message@ },
        }
    }
}

/// What one step decides: the next stage, the events to publish in order,
/// and the next outside work.
pub struct Transition {
    pub stage: StageView,
    pub events: Seq<EventView>,
    pub request: Option<RequestView>,
}

/// Whether an invocation in this stage has ended.
pub open spec fn is_finished(s: StageView) -> bool {
    s is Completed || s is Failed
}

/// The view of an optional request.
pub open spec fn request_view(r: Option<Request>) -> Option<RequestView> {
    match r {
        Some(q) => Some(q@),
        None => None,
    }
}

/// The views of a sequence of events.
pub open spec fn events_view(s: Seq<AssistantEvent>) -> Seq<EventView> {
    s.map_values(|e: AssistantEvent| e@)
}

/// End the invocation with an error of `kind` carrying `message`.
pub open spec fn fail(kind: ErrorKind, message: Seq<char>) -> Transition {
    Transition {
        stage: StageView::Failed { kind, message },
        events: seq![failed(message)],
        request: None,
    }
}

/// The step taken when an outcome arrives that the stage does not wait for.
pub open spec fn unexpected() -> Transition {
    fail(ErrorKind::UpstreamServiceFailure, "unexpected outcome"@)
}

/// Speak `text`: the last step of an answer.
pub open spec fn speak(text: Seq<char>) -> Transition {
    Transition {
        stage: StageView::Speaking { text },
        events: seq![processing(AssistantStep::Speech)],
        request: Some(RequestView::Speak { text }),
    }
}

/// The content of a chat completion's choice, or the failure when there is
/// none.
pub open spec fn with_content(choice: Option<Choice>, then: spec_fn(Seq<char>) -> Transition) -> Transition {
    match choice {
        None => fail(ErrorKind::UpstreamServiceFailure, "expect at least one choice"@),
        Some(c) => match c.content {
            None => fail(ErrorKind::UpstreamServiceFailure, "expect content but no content available"@),
            Some(text) => then(text@),
        },
    }
}

/// The branch that the first tool call of `c` selects.
pub open spec fn route(c: Choice) -> Transition {
    if c.tool_calls@.len() == 0 {
        fail(ErrorKind::UpstreamServiceFailure, "expect at least one tool call"@)
    } else {
        let call = c.tool_calls@[0];
        match tool_named(call.name@) {
            None => fail(ErrorKind::UnsupportedOutcome, "no proper tool found"@),
            Some(tool) => match prompt_of(call.arguments@) {
                None => fail(ErrorKind::InputValidation, malformed_message(call.arguments@)),
                Some(prompt) => match tool {
                    AssistantTool::DrawImage => Transition {
                        stage: StageView::Drawing,
                        events: seq![processing(AssistantStep::DrawImage)],
                        request: Some(RequestView::DrawImage { prompt }),
                    },
                    AssistantTool::WriteCode => Transition {
                        stage: StageView::Coding,
                        events: seq![processing(AssistantStep::WriteCode)],
                        request: Some(RequestView::WriteCode { prompt }),
                    },
                    AssistantTool::Answer => Transition {
                        stage: StageView::Answering,
                        events: seq![processing(AssistantStep::ChatCompletion)],
                        request: Some(RequestView::Answer { prompt }),
                    },
                },
            },
        }
    }
}

/// What the tool-selecting completion leads to.
pub open spec fn think(choice: Option<Choice>) -> Transition {
    match choice {
        None => fail(ErrorKind::UpstreamServiceFailure, "expect at least one choice"@),
        Some(c) => match c.finish_reason {
            FinishReason::Stop => with_content(choice, |text: Seq<char>| speak(text)),
            FinishReason::ToolCalls => route(c),
            _ => fail(ErrorKind::UnsupportedOutcome, "stop reason not supported"@),
        },
    }
}

/// Write an artifact, then publish `reply`.
pub open spec fn store(path: Seq<char>, bytes: Seq<u8>, reply: ReplyView) -> Transition {
    Transition {
        stage: StageView::Storing { path, reply },
        events: Seq::empty(),
        request: Some(RequestView::Store { path, bytes }),
    }
}

/// Publish the reply of invocation `id` and end it.
pub open spec fn finish(id: Seq<char>, reply: ReplyView) -> Transition {
    Transition {
        stage: StageView::Completed,
        events: seq![EventView::Reply { id, data: reply }, completed()],
        request: None,
    }
}

/// What a generated image leads to.
pub open spec fn drawn(device: Seq<char>, image: Option<GeneratedImage>, name: Seq<char>) -> Transition {
    match image {
        None => fail(ErrorKind::UpstreamServiceFailure, "expect at least one data"@),
        Some(img) => match img.b64_json {
            None => fail(ErrorKind::UpstreamServiceFailure, "expect base64 image data"@),
            Some(b64) => match base64_decoded(b64@) {
                None => fail(ErrorKind::UpstreamServiceFailure, "invalid base64 image data"@),
                Some(bytes) => store(
                    artifact_path("image"@, device, name, "png"@),
                    bytes,
                    ReplyView::Image {
                        url: artifact_url("image"@, device, name, "png"@),
                        prompt: img.revised_prompt@,
                    },
                ),
            },
        },
    }
}

/// The step of an invocation of `device` with id `id`, in `stage`, on
/// `outcome`.
pub open spec fn transition(device: Seq<char>, id: Seq<char>, stage: StageView, outcome: Outcome) -> Transition {
    if is_finished(stage) {
        Transition { stage, events: Seq::empty(), request: None }
    } else {
        match outcome {
            Outcome::Failure { kind, message } => fail(kind, message@),
            Outcome::Fields { names } => match stage {
                StageView::Uploading => if names@.len() == 1 && names@[0]@ == "audio"@ {
                    Transition {
                        stage: StageView::Reading,
                        events: Seq::empty(),
                        request: Some(RequestView::ReadAudio),
                    }
                } else {
                    fail(ErrorKind::InputValidation, "expected an audio field"@)
                },
                _ => unexpected(),
            },
            Outcome::Audio { bytes } => match stage {
                StageView::Reading => Transition {
                    stage: StageView::Transcribing,
                    events: seq![processing(AssistantStep::Transcription)],
                    request: Some(RequestView::Transcribe { audio: bytes@ }),
                },
                _ => unexpected(),
            },
            Outcome::Transcript { text } => match stage {
                StageView::Transcribing => Transition {
                    stage: StageView::Thinking,
                    events: seq![
                        EventView::Input { id, content: text@ },
                        processing(AssistantStep::Thinking),
                        reply_skeleton(id),
                    ],
                    request: Some(RequestView::SelectTool { transcript: text@ }),
                },
                _ => unexpected(),
            },
            Outcome::Completion { choice } => match stage {
                StageView::Thinking => think(choice),
                StageView::Coding => with_content(
                    choice,
                    |md: Seq<char>| finish(id, ReplyView::Markdown { html: markdown_html(md) }),
                ),
                StageView::Answering => with_content(choice, |text: Seq<char>| speak(text)),
                _ => unexpected(),
            },
            Outcome::Image { image, name } => match stage {
                StageView::Drawing => drawn(device, image, name@),
                _ => unexpected(),
            },
            Outcome::Speech { audio, name } => match stage {
                StageView::Speaking { text } => store(
                    artifact_path("audio"@, device, name@, "mp3"@),
                    audio@,
                    ReplyView::Speech { text, url: artifact_url("audio"@, device, name@, "mp3"@) },
                ),
                _ => unexpected(),
            },
            Outcome::Stored => match stage {
                StageView::Storing { reply, .. } => finish(id, reply),
                _ => unexpected(),
            },
        }
    }
}

/// The events and request of one step.
pub struct Step {
    pub events: Vec<AssistantEvent>,
    pub request: Option<Request>,
}

/// One assistant invocation for a device.
pub struct Pipeline {
    device_id: String,
    id: String,
    stage: Stage,
    log: Ghost<Seq<EventView>>,
}


/// Whether `stage` and `step` carry out the transition `t`.
pub open spec fn produces(stage: Stage, step: Step, t: Transition) -> bool {
    &&& stage@ == t.stage
    &&& events_view(step.events@) == t.events
    &&& request_view(step.request) == t.request
}

fn fail_step(kind: ErrorKind, message: String) -> (r: (Stage, Step))
    ensures
        produces(r.0, r.1, fail(kind, message@)),
{
    let events = vec![error(message.as_str())];
    assert(events_view(events@) =~= seq![failed(message@)]);
    (Stage::Failed { kind, message }, Step { events, request: None })
}

fn unexpected_step() -> (r: (Stage, Step))
    ensures
        produces(r.0, r.1, unexpected()),
{
    fail_step(ErrorKind::UpstreamServiceFailure, String::from_str("unexpected outcome"))
}

fn speak_step(text: String) -> (r: (Stage, Step))
    ensures
        produces(r.0, r.1, speak(text@)),
{
    let events = vec![in_speech()];
    assert(events_view(events@) =~= seq![processing(AssistantStep::Speech)]);
    let request = Request::Speak { text: text.clone() };
    (Stage::Speaking { text }, Step { events, request: Some(request) })
}

fn store_step(path: String, bytes: Vec<u8>, reply: ChatReplyData) -> (r: (Stage, Step))
    ensures
        produces(r.0, r.1, store(path@, bytes@, reply@)),
{
    let events: Vec<AssistantEvent> = Vec::new();
    assert(events_view(events@) =~= Seq::<EventView>::empty());
    let request = Request::Store { path: path.clone(), bytes };
    (Stage::Storing { path, reply }, Step { events, request: Some(request) })
}

fn finish_step(id: &String, reply: ChatReplyData) -> (r: (Stage, Step))
    ensures
        produces(r.0, r.1, finish(id@, reply@)),
{
    let events = vec![AssistantEvent::Reply(ChatReplyEvent::new(id.as_str(), reply)), complete()];
    assert(events_view(events@) =~= seq![EventView::Reply { id: id@, data: reply@ }, completed()]);
    (Stage::Completed, Step { events, request: None })
}

/// The branch chosen by the first tool call.
fn route_step(c: Choice) -> (r: (Stage, Step))
    ensures
        produces(r.0, r.1, route(c)),
{
    if c.tool_calls.len() == 0 {
        return fail_step(
            ErrorKind::UpstreamServiceFailure,
            String::from_str("expect at least one tool call"),
        );
    }
    let call = &c.tool_calls[0];
    match dispatch(call.name.as_str(), call.arguments.as_str()) {
        Err(DispatchError::UnknownTool) => fail_step(
            ErrorKind::UnsupportedOutcome,
            String::from_str("no proper tool found"),
        ),
        Err(DispatchError::MalformedArguments(msg)) => fail_step(ErrorKind::InputValidation, msg),
        Ok(inv) => {
            let prompt = inv.prompt;
            match inv.tool {
                AssistantTool::DrawImage => {
                    let events = vec![in_draw_image()];
                    assert(events_view(events@) =~= seq![processing(AssistantStep::DrawImage)]);
                    (Stage::Drawing, Step { events, request: Some(Request::DrawImage { prompt }) })
                },
                AssistantTool::WriteCode => {
                    let events = vec![in_write_code()];
                    assert(events_view(events@) =~= seq![processing(AssistantStep::WriteCode)]);
                    (Stage::Coding, Step { events, request: Some(Request::WriteCode { prompt }) })
                },
                AssistantTool::Answer => {
                    let events = vec![in_chat_completion()];
                    assert(events_view(events@) =~= seq![processing(AssistantStep::ChatCompletion)]);
                    (Stage::Answering, Step { events, request: Some(Request::Answer { prompt }) })
                },
            }
        },
    }
}

/// What the tool-selecting completion leads to.
fn think_step(choice: Option<Choice>) -> (r: (Stage, Step))
    ensures
        produces(r.0, r.1, think(choice)),
{
    match choice {
        None => fail_step(
            ErrorKind::UpstreamServiceFailure,
            String::from_str("expect at least one choice"),
        ),
        Some(c) => match c.finish_reason {
            FinishReason::Stop => match c.content {
                None => fail_step(
                    ErrorKind::UpstreamServiceFailure,
                    String::from_str("expect content but no content available"),
                ),
                Some(text) => speak_step(text),
            },
            FinishReason::ToolCalls => route_step(c),
            _ => fail_step(
                ErrorKind::UnsupportedOutcome,
                String::from_str("stop reason not supported"),
            ),
        },
    }
}

/// A completion that carries no content: whether it had a choice decides
/// the message.
fn missing_content_step(has_choice: bool) -> (r: (Stage, Step))
    ensures
        produces(r.0, r.1, if has_choice {
            fail(ErrorKind::UpstreamServiceFailure, "expect content but no content available"@)
        } else {
            fail(ErrorKind::UpstreamServiceFailure, "expect at least one choice"@)
        }),
{
    if has_choice {
        fail_step(
            ErrorKind::UpstreamServiceFailure,
            String::from_str("expect content but no content available"),
        )
    } else {
        fail_step(ErrorKind::UpstreamServiceFailure, String::from_str("expect at least one choice"))
    }
}

/// The content of a completion's choice, if it has one; otherwise whether
/// there was a choice at all.
fn content_of(choice: Option<Choice>) -> (r: Result<String, bool>)
    ensures
        match r {
            Ok(text) => choice matches Some(c) && c.content == Some(text),
            Err(has_choice) => has_choice == choice is Some && (choice matches Some(c) ==> c.content is None),
        },
{
    match choice {
        None => Err(false),
        Some(c) => match c.content {
            None => Err(true),
            Some(text) => Ok(text),
        },
    }
}

/// What a generated image leads to.
fn drawn_step(device: &String, image: Option<GeneratedImage>, name: &String) -> (r: (Stage, Step))
    ensures
        produces(r.0, r.1, drawn(device@, image, name@)),
{
    match image {
        None => fail_step(
            ErrorKind::UpstreamServiceFailure,
            String::from_str("expect at least one data"),
        ),
        Some(img) => match img.b64_json {
            None => fail_step(
                ErrorKind::UpstreamServiceFailure,
                String::from_str("expect base64 image data"),
            ),
            Some(b64) => match decode_base64(b64.as_str()) {
                None => fail_step(
                    ErrorKind::UpstreamServiceFailure,
                    String::from_str("invalid base64 image data"),
                ),
                Some(bytes) => {
                    let path = image_path(device.as_str(), name.as_str());
                    let url = image_url(device.as_str(), name.as_str());
                    let reply = ChatReplyData::Image(DrawImageResult { url, prompt: img.revised_prompt });
                    store_step(path, bytes, reply)
                },
            },
        },
    }
}

/// The step of an invocation of `device` with id `id` in `stage` on `outcome`.
fn next(device: &String, id: &String, stage: Stage, outcome: Outcome) -> (r: (Stage, Step))
    ensures
        produces(r.0, r.1, transition(device@, id@, stage@, outcome)),
{
    let finished = match &stage {
        Stage::Completed => true,
        Stage::Failed { .. } => true,
        _ => false,
    };
    if finished {
        let events: Vec<AssistantEvent> = Vec::new();
        assert(events_view(events@) =~= Seq::<EventView>::empty());
        return (stage, Step { events, request: None });
    }
    match outcome {
        Outcome::Failure { kind, message } => fail_step(kind, message),
        Outcome::Fields { names } => match stage {
            Stage::Uploading => {
                let is_audio = names.len() == 1 && names[0] == String::from_str("audio");
                if is_audio {
                    let events: Vec<AssistantEvent> = Vec::new();
                    assert(events_view(events@) =~= Seq::<EventView>::empty());
                    (Stage::Reading, Step { events, request: Some(Request::ReadAudio) })
                } else {
                    fail_step(ErrorKind::InputValidation, String::from_str("expected an audio field"))
                }
            },
            _ => unexpected_step(),
        },
        Outcome::Audio { bytes } => match stage {
            Stage::Reading => {
                let events = vec![in_transcription()];
                assert(events_view(events@) =~= seq![processing(AssistantStep::Transcription)]);
                (Stage::Transcribing, Step { events, request: Some(Request::Transcribe { audio: bytes }) })
            },
            _ => unexpected_step(),
        },
        Outcome::Transcript { text } => match stage {
            Stage::Transcribing => {
                let events = vec![
                    AssistantEvent::Input(ChatInputEvent::new(id.as_str(), text.as_str())),
                    in_thinking(),
                    AssistantEvent::ReplySkeleton(ChatReplySkeletonEvent::new(id.as_str())),
                ];
                assert(events_view(events@) =~= seq![
                    EventView::Input { id: id@, content: text@ },
                    processing(AssistantStep::Thinking),
                    reply_skeleton(id@),
                ]);
                (Stage::Thinking, Step { events, request: Some(Request::SelectTool { transcript: text }) })
            },
            _ => unexpected_step(),
        },
        Outcome::Completion { choice } => match stage {
            Stage::Thinking => think_step(choice),
            Stage::Coding => match content_of(choice) {
                Err(has_choice) => missing_content_step(has_choice),
                Ok(md) => {
                    let html = md2html(md.as_str());
                    finish_step(id, ChatReplyData::Markdown(WriteCodeResult { content: html }))
                },
            },
            Stage::Answering => match content_of(choice) {
                Err(has_choice) => missing_content_step(has_choice),
                Ok(text) => speak_step(text),
            },
            _ => unexpected_step(),
        },
        Outcome::Image { image, name } => match stage {
            Stage::Drawing => drawn_step(device, image, &name),
            _ => unexpected_step(),
        },
        Outcome::Speech { audio, name } => match stage {
            Stage::Speaking { text } => {
                let path = audio_path(device.as_str(), name.as_str());
                let url = audio_url(device.as_str(), name.as_str());
                store_step(path, audio, ChatReplyData::Speech(SpeechResult { text, url }))
            },
            _ => unexpected_step(),
        },
        Outcome::Stored => match stage {
            Stage::Storing { reply, .. } => finish_step(id, reply),
            _ => unexpected_step(),
        },
    }
}


/// Whether an event announces entering a step.
pub open spec fn is_processing(e: EventView) -> bool {
    e matches EventView::Signal(SignalView::Processing(_))
}

/// The pipeline position of a progress signal.
pub open spec fn rank_of(e: EventView) -> nat {
    match e {
        EventView::Signal(SignalView::Processing(step)) => step_rank(step),
        _ => 0,
    }
}

/// Whether an event is a reply.
pub open spec fn is_reply(e: EventView) -> bool {
    e matches EventView::Reply { .. }
}

/// Whether an event, if it is a reply, replies to invocation `id`.
pub open spec fn replies_to(e: EventView, id: Seq<char>) -> bool {
    match e {
        EventView::Reply { id: rid, .. } => rid == id,
        _ => true,
    }
}

/// No step announced by the time a stage is reached comes later in the
/// pipeline than this position.
pub open spec fn stage_floor(s: StageView) -> nat {
    match s {
        StageView::Uploading => 0,
        StageView::Reading => 0,
        StageView::Transcribing => 1,
        StageView::Thinking => 2,
        StageView::Drawing => 3,
        StageView::Coding => 3,
        StageView::Answering => 3,
        _ => 4,
    }
}

/// Whether a stage comes after the reply skeleton was published.
pub open spec fn awaits_reply(s: StageView) -> bool {
    s is Thinking || s is Drawing || s is Coding || s is Answering || s is Speaking || s is Storing
}

/// Progress signals appear in strictly increasing pipeline order.
pub open spec fn signals_ordered(log: Seq<EventView>) -> bool {
    forall|i: int, j: int|
        0 <= i < j < log.len() && #[trigger] is_processing(log[i]) && #[trigger] is_processing(log[j])
            ==> rank_of(log[i]) < rank_of(log[j])
}

/// No event but the last is terminal.
pub open spec fn terminal_at_most_last(log: Seq<EventView>) -> bool {
    forall|i: int| 0 <= i < log.len() - 1 ==> !#[trigger] is_terminal(log[i])
}

/// Whether the reply skeleton of `id` is among the first `n` events.
pub open spec fn skeleton_before(log: Seq<EventView>, id: Seq<char>, n: int) -> bool {
    exists|j: int| 0 <= j < n && #[trigger] log[j] == reply_skeleton(id)
}

/// Every reply replies to `id` and comes after the reply skeleton of `id`.
pub open spec fn replies_after_skeleton(log: Seq<EventView>, id: Seq<char>) -> bool {
    forall|i: int|
        0 <= i < log.len() && #[trigger] is_reply(log[i]) ==> replies_to(log[i], id) && skeleton_before(log, id, i)
}

/// What holds of the events an invocation `id` in `stage` has published.
pub open spec fn log_invariant(stage: StageView, log: Seq<EventView>, id: Seq<char>) -> bool {
    &&& log.len() > 0
    &&& log[0] == processing(AssistantStep::UploadAudio)
    &&& signals_ordered(log)
    &&& forall|i: int| 0 <= i < log.len() && #[trigger] is_processing(log[i]) ==> rank_of(log[i]) <= stage_floor(stage)
    &&& terminal_at_most_last(log)
    &&& (is_finished(stage) <==> is_terminal(log.last()))
    &&& replies_after_skeleton(log, id)
    &&& awaits_reply(stage) ==> skeleton_before(log, id, log.len() as int)
}

proof fn lemma_extend(stage: StageView, log: Seq<EventView>, id: Seq<char>, ev: Seq<EventView>, next: StageView)
    requires
        log_invariant(stage, log, id),
        ev.len() > 0 ==> !is_finished(stage),
        stage_floor(stage) <= stage_floor(next),
        forall|k: int| 0 <= k < ev.len() && #[trigger] is_processing(ev[k])
            ==> stage_floor(stage) < rank_of(ev[k]) <= stage_floor(next),
        forall|k1: int, k2: int|
            0 <= k1 < k2 < ev.len() && #[trigger] is_processing(ev[k1]) && #[trigger] is_processing(ev[k2])
                ==> rank_of(ev[k1]) < rank_of(ev[k2]),
        forall|k: int| 0 <= k < ev.len() - 1 ==> !#[trigger] is_terminal(ev[k]),
        is_finished(next) <==> (if ev.len() == 0 { is_finished(stage) } else { is_terminal(ev.last()) }),
        forall|k: int| 0 <= k < ev.len() && #[trigger] is_reply(ev[k])
            ==> replies_to(ev[k], id) && (awaits_reply(stage) || skeleton_before(ev, id, k)),
        awaits_reply(next) ==> awaits_reply(stage) || skeleton_before(ev, id, ev.len() as int),
    ensures
        log_invariant(next, log + ev, id),
{
    let all = log + ev;
    let n = log.len() as int;
    assert forall|i: int, j: int|
        0 <= i < j < all.len() && #[trigger] is_processing(all[i]) && #[trigger] is_processing(all[j])
            implies rank_of(all[i]) < rank_of(all[j]) by {
        if j < n {
        } else if i < n {
            assert(all[j] == ev[j - n]);
        } else {
            assert(all[i] == ev[i - n]);
            assert(all[j] == ev[j - n]);
        }
    }
    assert forall|i: int| 0 <= i < all.len() && #[trigger] is_processing(all[i])
        implies rank_of(all[i]) <= stage_floor(next) by {
        if i >= n {
            assert(all[i] == ev[i - n]);
        }
    }
    assert forall|i: int| 0 <= i < all.len() - 1 implies !#[trigger] is_terminal(all[i]) by {
        if i < n {
            if ev.len() > 0 && i == n - 1 {
                assert(log.last() == log[n - 1]);
            }
        } else {
            assert(all[i] == ev[i - n]);
        }
    }
    if ev.len() == 0 {
        assert(all =~= log);
    } else {
        assert(all.last() == ev.last());
    }
    assert forall|i: int| 0 <= i < all.len() && #[trigger] is_reply(all[i])
        implies replies_to(all[i], id) && skeleton_before(all, id, i) by {
        if i < n {
            assert(all[i] == log[i]);
            let j = choose|j: int| 0 <= j < i && #[trigger] log[j] == reply_skeleton(id);
            assert(all[j] == log[j]);
        } else {
            assert(all[i] == ev[i - n]);
            if awaits_reply(stage) {
                let j = choose|j: int| 0 <= j < n && #[trigger] log[j] == reply_skeleton(id);
                assert(all[j] == log[j]);
            } else {
                let k = choose|k: int| 0 <= k < i - n && #[trigger] ev[k] == reply_skeleton(id);
                assert(all[k + n] == ev[k]);
            }
        }
    }
    if awaits_reply(next) {
        if awaits_reply(stage) {
            let j = choose|j: int| 0 <= j < n && #[trigger] log[j] == reply_skeleton(id);
            assert(all[j] == log[j]);
        } else {
            let k = choose|k: int| 0 <= k < ev.len() && #[trigger] ev[k] == reply_skeleton(id);
            assert(all[k + n] == ev[k]);
        }
    }
    assert(all[0] == log[0]);
}

/// Every step keeps the invariant of what an invocation has published.
proof fn lemma_transition_invariant(device: Seq<char>, id: Seq<char>, stage: StageView, log: Seq<EventView>, outcome: Outcome)
    requires
        log_invariant(stage, log, id),
    ensures
        log_invariant(transition(device, id, stage, outcome).stage, log + transition(device, id, stage, outcome).events, id),
{
    let t = transition(device, id, stage, outcome);
    if stage is Transcribing && outcome is Transcript {
        assert(t.events[2] == reply_skeleton(id));
    }
    lemma_extend(stage, log, id, t.events, t.stage);
}


impl Pipeline {
    /// The device the invocation belongs to.
    pub closed spec fn device(&self) -> Seq<char> {
        self.device_id@
    }

    /// The invocation id that correlates its input and reply events.
    pub closed spec fn id(&self) -> Seq<char> {
        self.id@
    }

    /// Where the invocation stands.
    pub closed spec fn stage(&self) -> StageView {
        self.stage@
    }

    /// Every event the invocation has published, in order.
    pub closed spec fn log(&self) -> Seq<EventView> {
        self.log@
    }

    /// What holds of every invocation between steps.
    pub open spec fn wf(&self) -> bool {
        log_invariant(self.stage(), self.log(), self.id())
    }

    /// Starts the invocation `id` of `device_id`: it announces the upload
    /// step and asks for the upload's fields.
    pub fn start(device_id: &str, id: &str) -> (r: (Pipeline, Step))
        ensures
            r.0.wf(),
            r.0.device() == device_id@,
            r.0.id() == id@,
            r.0.stage() == StageView::Uploading,
            r.0.log() == seq![processing(AssistantStep::UploadAudio)],
            events_view(r.1.events@) == r.0.log(),
            request_view(r.1.request) == Some(RequestView::ReadFields),
    {
        let events = vec![in_audio_upload()];
        let ghost log = seq![processing(AssistantStep::UploadAudio)];
        assert(events_view(events@) =~= log);
        let p = Pipeline {
            device_id: String::from_str(device_id),
            id: String::from_str(id),
            stage: Stage::Uploading,
            log: Ghost(log),
        };
        (p, Step { events, request: Some(Request::ReadFields) })
    }

    /// Takes the outcome of the outside work last asked for, publishes what
    /// it leads to and asks for the next work; once the invocation has
    /// ended, it publishes and asks for nothing.
    pub fn advance(&mut self, outcome: Outcome) -> (r: Step)
        requires
            old(self).wf(),
        ensures
            final(self).wf(),
            final(self).device() == old(self).device(),
            final(self).id() == old(self).id(),
            final(self).stage() == transition(old(self).device(), old(self).id(), old(self).stage(), outcome).stage,
            events_view(r.events@) == transition(old(self).device(), old(self).id(), old(self).stage(), outcome).events,
            request_view(r.request) == transition(old(self).device(), old(self).id(), old(self).stage(), outcome).request,
            final(self).log() == old(self).log() + events_view(r.events@),
            r.request is None <==> is_finished(final(self).stage()),
    {
        let ghost old_log = self.log@;
        proof {
            lemma_transition_invariant(self.device_id@, self.id@, self.stage@, old_log, outcome);
            lemma_request_until_finished(self.device_id@, self.id@, self.stage@, outcome);
        }
        let mut stage = Stage::Completed;
        core::mem::swap(&mut stage, &mut self.stage);
        let (next_stage, step) = next(&self.device_id, &self.id, stage, outcome);
        self.stage = next_stage;
        self.log = Ghost(old_log + events_view(step.events@));
        step
    }

    /// Whether the invocation has ended.
    pub fn is_finished(&self) -> (r: bool)
        ensures
            r == is_finished(self.stage()),
    {
        match self.stage {
            Stage::Completed => true,
            Stage::Failed { .. } => true,
            _ => false,
        }
    }

    /// The acknowledgement of the upload: `done` once the invocation has
    /// completed, `error` otherwise.
    pub fn status(&self) -> (r: &'static str)
        ensures
            r@ == (if self.stage() is Completed { "done"@ } else { "error"@ }),
    {
        match self.stage {
            Stage::Completed => "done",
            _ => "error",
        }
    }

    /// The class of the failure that ended the invocation, if it failed.
    pub fn failure(&self) -> (r: Option<ErrorKind>)
        ensures
            r == (match self.stage() {
                StageView::Failed { kind, .. } => Some(kind),
                _ => None,
            }),
    {
        match self.stage {
            Stage::Failed { kind, .. } => Some(kind),
            _ => None,
        }
    }
}

/// A step asks for more outside work exactly when the invocation goes on.
pub proof fn lemma_request_until_finished(device: Seq<char>, id: Seq<char>, stage: StageView, outcome: Outcome)
    ensures
        transition(device, id, stage, outcome).request is None
            <==> is_finished(transition(device, id, stage, outcome).stage),
{
}

/// The stage an invocation reaches from `stage` through `outcomes`.
pub open spec fn run_stage(device: Seq<char>, id: Seq<char>, stage: StageView, outcomes: Seq<Outcome>) -> StageView
    decreases outcomes.len(),
{
    if outcomes.len() == 0 {
        stage
    } else {
        run_stage(device, id, transition(device, id, stage, outcomes[0]).stage, outcomes.drop_first())
    }
}

/// The events an invocation publishes from `stage` through `outcomes`.
pub open spec fn run_events(device: Seq<char>, id: Seq<char>, stage: StageView, outcomes: Seq<Outcome>) -> Seq<EventView>
    decreases outcomes.len(),
{
    if outcomes.len() == 0 {
        Seq::empty()
    } else {
        let t = transition(device, id, stage, outcomes[0]);
        t.events + run_events(device, id, t.stage, outcomes.drop_first())
    }
}

/// Everything an invocation publishes, from its start through `outcomes`.
pub open spec fn published(device: Seq<char>, id: Seq<char>, outcomes: Seq<Outcome>) -> Seq<EventView> {
    seq![processing(AssistantStep::UploadAudio)] + run_events(device, id, StageView::Uploading, outcomes)
}

proof fn lemma_run_invariant(device: Seq<char>, id: Seq<char>, stage: StageView, log: Seq<EventView>, outcomes: Seq<Outcome>)
    requires
        log_invariant(stage, log, id),
    ensures
        log_invariant(run_stage(device, id, stage, outcomes), log + run_events(device, id, stage, outcomes), id),
    decreases outcomes.len(),
{
    if outcomes.len() == 0 {
        assert(log + run_events(device, id, stage, outcomes) =~= log);
    } else {
        let t = transition(device, id, stage, outcomes[0]);
        lemma_transition_invariant(device, id, stage, log, outcomes[0]);
        lemma_run_invariant(device, id, t.stage, log + t.events, outcomes.drop_first());
        assert(log + t.events + run_events(device, id, t.stage, outcomes.drop_first())
            =~= log + run_events(device, id, stage, outcomes));
    }
}

/// Whatever the outside work reports, an invocation announces its steps in
/// strictly increasing pipeline order, publishes no terminal signal but as
/// its last event, and its last event is terminal exactly when it has ended:
/// so once ended, it has published exactly one of Complete and Error.
pub proof fn lemma_signals_ordered_single_terminal(device: Seq<char>, id: Seq<char>, outcomes: Seq<Outcome>)
    ensures
        signals_ordered(published(device, id, outcomes)),
        terminal_at_most_last(published(device, id, outcomes)),
        is_finished(run_stage(device, id, StageView::Uploading, outcomes))
            <==> is_terminal(published(device, id, outcomes).last()),
{
    let start = seq![processing(AssistantStep::UploadAudio)];
    lemma_run_invariant(device, id, StageView::Uploading, start, outcomes);
}

/// Whatever the outside work reports, every reply an invocation publishes
/// carries its id and comes after the reply skeleton with that id.
pub proof fn lemma_reply_after_skeleton(device: Seq<char>, id: Seq<char>, outcomes: Seq<Outcome>)
    ensures
        replies_after_skeleton(published(device, id, outcomes), id),
{
    let start = seq![processing(AssistantStep::UploadAudio)];
    lemma_run_invariant(device, id, StageView::Uploading, start, outcomes);
}

/// Once an invocation has ended, nothing it is told makes it publish again.
pub proof fn lemma_silent_after_end(device: Seq<char>, id: Seq<char>, stage: StageView, outcomes: Seq<Outcome>)
    requires
        is_finished(stage),
    ensures
        run_events(device, id, stage, outcomes) == Seq::<EventView>::empty(),
        run_stage(device, id, stage, outcomes) == stage,
    decreases outcomes.len(),
{
    if outcomes.len() > 0 {
        lemma_silent_after_end(device, id, stage, outcomes.drop_first());
        assert(run_events(device, id, stage, outcomes) =~= Seq::<EventView>::empty());
    }
}


/// The URL a reply payload points at, if it carries an artifact.
pub open spec fn reply_url(r: ReplyView) -> Option<Seq<char>> {
    match r {
        ReplyView::Speech { url, .. } => Some(url),
        ReplyView::Image { url, .. } => Some(url),
        ReplyView::Markdown { .. } => None,
    }
}

/// When a step asks to write an artifact, the reply it holds back points at
/// a URL that is served from exactly the path written, with exactly the
/// bytes handed over; once the write is reported, that reply is published,
/// followed by Complete.
pub proof fn lemma_artifact_served_at_reply_url(device: Seq<char>, id: Seq<char>, stage: StageView, outcome: Outcome)
    ensures
        match transition(device, id, stage, outcome).request {
            Some(RequestView::Store { path, .. }) => match transition(device, id, stage, outcome).stage {
                StageView::Storing { path: p, reply } => p == path && match reply_url(reply) {
                    Some(url) => served_path(url) == Some(path),
                    None => false,
                },
                _ => false,
            },
            _ => true,
        },
        match stage {
            StageView::Storing { reply, .. } => outcome is Stored ==> transition(device, id, stage, outcome).events
                == seq![EventView::Reply { id, data: reply }, completed()],
            _ => true,
        },
{
    match outcome {
        Outcome::Image { name, .. } => lemma_image_url_serves_image_path(device, name@),
        Outcome::Speech { name, .. } => lemma_audio_url_serves_audio_path(device, name@),
        _ => {},
    }
}

} // verus!
