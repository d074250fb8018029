//! The events that an assistant invocation publishes to a device's viewers.
//!
//! The model is a closed tagged union: a progress/terminal signal, the
//! transcribed input, and the reply (preceded by its skeleton placeholder).
//! Each event has a view over plain sequences, which the contracts speak of.

use vstd::prelude::*;

verus! {

/// A stage of the assistant pipeline, announced by a progress signal.
#[derive(Clone, Copy, Debug, PartialEq, Eq, Structural)]
pub enum AssistantStep {
    UploadAudio,
    Transcription,
    Thinking,
    ChatCompletion,
    DrawImage,
    WriteCode,
    Speech,
}

/// Position of a step in the pipeline: the signals of one invocation are
/// announced with strictly increasing rank.
pub open spec fn step_rank(s: AssistantStep) -> nat {
    match s {
        AssistantStep::UploadAudio => 0,
        AssistantStep::Transcription => 1,
        AssistantStep::Thinking => 2,
        AssistantStep::ChatCompletion => 3,
        AssistantStep::DrawImage => 3,
        AssistantStep::WriteCode => 3,
        AssistantStep::Speech => 4,
    }
}

/// Snake-case name of a step.
pub open spec fn step_name(s: AssistantStep) -> Seq<char> {
    match s {
        AssistantStep::UploadAudio => "upload_audio"@,
        AssistantStep::Transcription => "transcription"@,
        AssistantStep::Thinking => "thinking"@,
        AssistantStep::ChatCompletion => "chat_completion"@,
        AssistantStep::DrawImage => "draw_image"@,
        AssistantStep::WriteCode => "write_code"@,
        AssistantStep::Speech => "speech"@,
    }
}

impl AssistantStep {
    /// Snake-case name of the step.
    pub fn name(&self) -> (r: &'static str)
        ensures
            r@ == step_name(*self),
    {
        match self {
            AssistantStep::UploadAudio => "upload_audio",
            AssistantStep::Transcription => "transcription",
            AssistantStep::Thinking => "thinking",
            AssistantStep::ChatCompletion => "chat_completion",
            AssistantStep::DrawImage => "draw_image",
            AssistantStep::WriteCode => "write_code",
            AssistantStep::Speech => "speech",
        }
    }
}

/// Progress and terminal signals of an invocation.
#[derive(Clone, Debug)]
pub enum SignalEvent {
    Processing(AssistantStep),
    Finish(AssistantStep),
    Error(String),
    Complete,
}

/// Placeholder shown while the spoken input is being transcribed.
#[derive(Clone, Debug)]
pub struct ChatInputSkeletonEvent {
    pub id: String,
    pub datetime: String,
    pub avatar: String,
    pub name: String,
}

/// The transcribed input of an invocation.
#[derive(Clone, Debug)]
pub struct ChatInputEvent {
    pub id: String,
    pub content: String,
}

/// Placeholder shown while the reply of an invocation is being produced.
#[derive(Clone, Debug)]
pub struct ChatReplySkeletonEvent {
    pub id: String,
    pub avatar: String,
    pub name: String,
}

/// A spoken reply: its text and the URL of the synthesized audio.
#[derive(Clone, Debug)]
pub struct SpeechResult {
    pub text: String,
    pub url: String,
}

/// A drawn image: its URL and the prompt it was drawn from.
#[derive(Clone, Debug)]
pub struct DrawImageResult {
    pub url: String,
    pub prompt: String,
}

/// Code written in reply, as rendered HTML.
#[derive(Clone, Debug)]
pub struct WriteCodeResult {
    pub content: String,
}

/// The payload of a completed reply: exactly one per completed branch.
#[derive(Clone, Debug)]
pub enum ChatReplyData {
    Speech(SpeechResult),
    Image(DrawImageResult),
    Markdown(WriteCodeResult),
}

/// The reply of an invocation, correlated with its skeleton by `id`.
#[derive(Clone, Debug)]
pub struct ChatReplyEvent {
    pub id: String,
    pub data: ChatReplyData,
}

/// Everything an invocation publishes.
#[derive(Clone, Debug)]
pub enum AssistantEvent {
    Signal(SignalEvent),
    InputSkeleton(ChatInputSkeletonEvent),
    Input(ChatInputEvent),
    ReplySkeleton(ChatReplySkeletonEvent),
    Reply(ChatReplyEvent),
}

/// View of a signal.
pub enum SignalView {
    Processing(AssistantStep),
    Finish(AssistantStep),
    Error(Seq<char>),
    Complete,
}

/// View of a reply payload.
pub enum ReplyView {
    Speech { text: Seq<char>, url: Seq<char> },
    Image { url: Seq<char>, prompt: Seq<char> },
    Markdown { html: Seq<char> },
}

/// View of an event.
pub enum EventView {
    Signal(SignalView),
    InputSkeleton { id: Seq<char>, datetime: Seq<char>, avatar: Seq<char>, name: Seq<char> },
    Input { id: Seq<char>, content: Seq<char> },
    ReplySkeleton { id: Seq<char>, avatar: Seq<char>, name: Seq<char> },
    Reply { id: Seq<char>, data: ReplyView },
}

impl View for SignalEvent {
    type V = SignalView;

    open spec fn view(&self) -> SignalView {
        match self {
            SignalEvent::Processing(s) => SignalView::Processing(*s),
            SignalEvent::Finish(s) => SignalView::Finish(*s),
            SignalEvent::Error(m) => SignalView::Error(m@),
            SignalEvent::Complete => SignalView::Complete,
        }
    }
}

impl View for ChatReplyData {
    type V = ReplyView;

    open spec fn view(&self) -> ReplyView {
        match self {
            ChatReplyData::Speech(r) => ReplyView::Speech { text: r.text@, url: r.url@ },
            ChatReplyData::Image(r) => ReplyView::Image { url: r.url@, prompt: r.prompt@ },
            ChatReplyData::Markdown(r) => ReplyView::Markdown { html: r.content@ },
        }
    }
}

impl View for AssistantEvent {
    type V = EventView;

    open spec fn view(&self) -> EventView {
        match self {
            AssistantEvent::Signal(s) => EventView::Signal(s@),
            AssistantEvent::InputSkeleton(e) => EventView::InputSkeleton {
                id: e.id@,
                datetime: e.datetime@,
                avatar: e.avatar@,
                name: e.name@,
            },
            AssistantEvent::Input(e) => EventView::Input { id: e.id@, content: e.content@ },
            AssistantEvent::ReplySkeleton(e) => EventView::ReplySkeleton {
                id: e.id@,
                avatar: e.avatar@,
                name: e.name@,
            },
            AssistantEvent::Reply(e) => EventView::Reply { id: e.id@, data: e.data@ },
        }
    }
}

/// Avatar shown beside the user's input.
pub open spec fn user_avatar() -> Seq<char> {
    "https://i.pravatar.cc/128"@
}

/// Avatar shown beside the assistant's replies.
pub open spec fn assistant_avatar() -> Seq<char> {
    "/public/images/ava-small.png"@
}

/// The event that announces entering `step`.
pub open spec fn processing(step: AssistantStep) -> EventView {
    EventView::Signal(SignalView::Processing(step))
}

/// The terminal event of a successful invocation.
pub open spec fn completed() -> EventView {
    EventView::Signal(SignalView::Complete)
}

/// The terminal event of a failed invocation.
pub open spec fn failed(msg: Seq<char>) -> EventView {
    EventView::Signal(SignalView::Error(msg))
}

/// The skeleton of the reply of invocation `id`.
pub open spec fn reply_skeleton(id: Seq<char>) -> EventView {
    EventView::ReplySkeleton { id, avatar: assistant_avatar(), name: "Ava"@ }
}

/// Whether an event ends an invocation's signal stream.
pub open spec fn is_terminal(e: EventView) -> bool {
    match e {
        EventView::Signal(SignalView::Complete) => true,
        EventView::Signal(SignalView::Error(_)) => true,
        _ => false,
    }
}

impl ChatInputSkeletonEvent {
    /// Skeleton of the input of invocation `id`, stamped with `datetime`.
    pub fn new(id: &str, datetime: &str) -> (r: Self)
        ensures
            r.id@ == id@,
            r.datetime@ == datetime@,
            r.avatar@ == user_avatar(),
            r.name@ == "User"@,
    {
        ChatInputSkeletonEvent {
            id: String::from_str(id),
            datetime: String::from_str(datetime),
            avatar: String::from_str("https://i.pravatar.cc/128"),
            name: String::from_str("User"),
        }
    }
}

impl ChatInputEvent {
    /// The transcribed `content` of invocation `id`.
    pub fn new(id: &str, content: &str) -> (r: Self)
        ensures
            r.id@ == id@,
            r.content@ == content@,
    {
        ChatInputEvent { id: String::from_str(id), content: String::from_str(content) }
    }
}

impl ChatReplySkeletonEvent {
    /// Skeleton of the reply of invocation `id`.
    pub fn new(id: &str) -> (r: Self)
        ensures
            AssistantEvent::ReplySkeleton(r)@ == reply_skeleton(id@),
    {
        ChatReplySkeletonEvent {
            id: String::from_str(id),
            avatar: String::from_str("/public/images/ava-small.png"),
            name: String::from_str("Ava"),
        }
    }
}

impl ChatReplyEvent {
    /// The reply `data` of invocation `id`.
    pub fn new(id: &str, data: ChatReplyData) -> (r: Self)
        ensures
            r.id@ == id@,
            r.data@ == data@,
    {
        ChatReplyEvent { id: String::from_str(id), data }
    }
}

impl SpeechResult {
    /// A spoken reply with its text and audio URL.
    pub fn new(text: &str, url: &str) -> (r: Self)
        ensures
            r.text@ == text@,
            r.url@ == url@,
    {
        SpeechResult { text: String::from_str(text), url: String::from_str(url) }
    }

    /// A reply whose audio is not there yet: the URL is empty.
    pub fn new_text_only(text: &str) -> (r: Self)
        ensures
            r.text@ == text@,
            r.url@ == Seq::<char>::empty(),
    {
        proof {
            reveal_strlit("");
        }
        SpeechResult::new(text, "")
    }
}

impl DrawImageResult {
    /// A drawn image with its URL and prompt.
    pub fn new(url: &str, prompt: &str) -> (r: Self)
        ensures
            r.url@ == url@,
            r.prompt@ == prompt@,
    {
        DrawImageResult { url: String::from_str(url), prompt: String::from_str(prompt) }
    }
}

impl WriteCodeResult {
    /// Written code, as HTML.
    pub fn new(content: &str) -> (r: Self)
        ensures
            r.content@ == content@,
    {
        WriteCodeResult { content: String::from_str(content) }
    }
}

/// Announces entering the upload step.
pub fn in_audio_upload() -> (r: AssistantEvent)
    ensures
        r@ == processing(AssistantStep::UploadAudio),
{
    AssistantEvent::Signal(SignalEvent::Processing(AssistantStep::UploadAudio))
}

/// Announces entering the transcription step.
pub fn in_transcription() -> (r: AssistantEvent)
    ensures
        r@ == processing(AssistantStep::Transcription),
{
    AssistantEvent::Signal(SignalEvent::Processing(AssistantStep::Transcription))
}

/// Announces entering the tool-selection step.
pub fn in_thinking() -> (r: AssistantEvent)
    ensures
        r@ == processing(AssistantStep::Thinking),
{
    AssistantEvent::Signal(SignalEvent::Processing(AssistantStep::Thinking))
}

/// Announces entering the answering chat completion.
pub fn in_chat_completion() -> (r: AssistantEvent)
    ensures
        r@ == processing(AssistantStep::ChatCompletion),
{
    AssistantEvent::Signal(SignalEvent::Processing(AssistantStep::ChatCompletion))
}

/// Announces entering speech synthesis.
pub fn in_speech() -> (r: AssistantEvent)
    ensures
        r@ == processing(AssistantStep::Speech),
{
    AssistantEvent::Signal(SignalEvent::Processing(AssistantStep::Speech))
}

/// Announces entering image generation.
pub fn in_draw_image() -> (r: AssistantEvent)
    ensures
        r@ == processing(AssistantStep::DrawImage),
{
    AssistantEvent::Signal(SignalEvent::Processing(AssistantStep::DrawImage))
}

/// Announces entering code writing.
pub fn in_write_code() -> (r: AssistantEvent)
    ensures
        r@ == processing(AssistantStep::WriteCode),
{
    AssistantEvent::Signal(SignalEvent::Processing(AssistantStep::WriteCode))
}

/// The terminal signal of a successful invocation.
pub fn complete() -> (r: AssistantEvent)
    ensures
        r@ == completed(),
{
    AssistantEvent::Signal(SignalEvent::Complete)
}

/// The terminal signal of a failed invocation, carrying its message.
pub fn error(msg: &str) -> (r: AssistantEvent)
    ensures
        r@ == failed(msg@),
{
    AssistantEvent::Signal(SignalEvent::Error(String::from_str(msg)))
}

} // verus!
