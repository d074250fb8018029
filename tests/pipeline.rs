use ava_bot::events::{AssistantEvent, AssistantStep, ChatReplyData, SignalEvent};
use ava_bot::pipeline::{
    Choice, ErrorKind, FinishReason, GeneratedImage, Outcome, Pipeline, Request, Step, ToolChoice,
};

fn signal(e: &AssistantEvent) -> &SignalEvent {
    match e {
        AssistantEvent::Signal(s) => s,
        _ => panic!("expected a signal"),
    }
}

fn assert_processing(e: &AssistantEvent, step: AssistantStep) {
    match signal(e) {
        SignalEvent::Processing(s) => assert_eq!(*s, step),
        _ => panic!("expected a progress signal"),
    }
}

fn assert_error(e: &AssistantEvent, msg: &str) {
    match signal(e) {
        SignalEvent::Error(m) => assert_eq!(m, msg),
        _ => panic!("expected an error signal"),
    }
}

fn assert_complete(e: &AssistantEvent) {
    assert!(matches!(signal(e), SignalEvent::Complete));
}

fn s(v: &str) -> String {
    v.to_string()
}

/// Starts an invocation and brings it to the tool selection with `transcript`.
fn through_transcription(transcript: &str, all: &mut Vec<AssistantEvent>) -> Pipeline {
    let (mut p, step) = Pipeline::start("dev1", "inv1");
    assert!(matches!(step.request, Some(Request::ReadFields)));
    all.extend(step.events);
    let step = p.advance(Outcome::Fields { names: vec![s("audio")] });
    assert!(matches!(step.request, Some(Request::ReadAudio)));
    all.extend(step.events);
    let step = p.advance(Outcome::Audio { bytes: vec![1, 2, 3] });
    match &step.request {
        Some(Request::Transcribe { audio }) => assert_eq!(audio, &vec![1u8, 2, 3]),
        _ => panic!("expected a transcription request"),
    }
    all.extend(step.events);
    let step = p.advance(Outcome::Transcript { text: s(transcript) });
    match &step.request {
        Some(Request::SelectTool { transcript: t }) => assert_eq!(t, transcript),
        _ => panic!("expected a tool selection request"),
    }
    all.extend(step.events);
    p
}

fn tool_call(name: &str, arguments: &str) -> Outcome {
    Outcome::Completion {
        choice: Some(Choice {
            finish_reason: FinishReason::ToolCalls,
            content: None,
            tool_calls: vec![ToolChoice { name: s(name), arguments: s(arguments) }],
        }),
    }
}

fn text_choice(finish_reason: FinishReason, content: Option<&str>) -> Outcome {
    Outcome::Completion {
        choice: Some(Choice { finish_reason, content: content.map(s), tool_calls: vec![] }),
    }
}

fn terminal_count(events: &[AssistantEvent]) -> usize {
    events
        .iter()
        .filter(|e| matches!(e, AssistantEvent::Signal(SignalEvent::Complete | SignalEvent::Error(_))))
        .count()
}

#[test]
fn misnamed_field_fails_at_once() {
    let (mut p, _) = Pipeline::start("dev1", "inv1");
    let step = p.advance(Outcome::Fields { names: vec![s("clip")] });
    assert_eq!(step.events.len(), 1);
    assert_error(&step.events[0], "expected an audio field");
    assert!(step.request.is_none());
    assert!(p.is_finished());
    assert_eq!(p.status(), "error");
    assert_eq!(p.failure(), Some(ErrorKind::InputValidation));
}

#[test]
fn upload_without_field_fails() {
    let (mut p, _) = Pipeline::start("dev1", "inv1");
    let step = p.advance(Outcome::Fields { names: vec![] });
    assert_error(&step.events[0], "expected an audio field");
    assert_eq!(p.status(), "error");
}

#[test]
fn audio_must_be_the_only_field() {
    for names in [vec![s("audio"), s("audio")], vec![s("audio"), s("x")], vec![s("x"), s("audio")], vec![s("")]] {
        let (mut p, _) = Pipeline::start("dev1", "inv1");
        let step = p.advance(Outcome::Fields { names });
        assert_error(&step.events[0], "expected an audio field");
        assert!(step.request.is_none());
    }
    let (mut p, _) = Pipeline::start("dev1", "inv1");
    let step = p.advance(Outcome::Fields { names: vec![s("Audio")] });
    assert_error(&step.events[0], "expected an audio field");
}

#[test]
fn draw_a_cat_event_sequence() {
    let mut all = Vec::new();
    let mut p = through_transcription("draw a cat", &mut all);
    let step = p.advance(tool_call("draw_image", r#"{"prompt":"a cat"}"#));
    match &step.request {
        Some(Request::DrawImage { prompt }) => assert_eq!(prompt, "a cat"),
        _ => panic!("expected an image request"),
    }
    all.extend(step.events);
    let step = p.advance(Outcome::Image {
        image: Some(GeneratedImage { b64_json: Some(s("aGVsbG8=")), revised_prompt: s("a cute cat") }),
        name: s("img1"),
    });
    assert!(step.events.is_empty());
    match &step.request {
        Some(Request::Store { path, bytes }) => {
            assert_eq!(path, "/tmp/ava-bot/image/dev1/img1.png");
            assert_eq!(bytes, b"hello");
        }
        _ => panic!("expected a store request"),
    }
    let step: Step = p.advance(Outcome::Stored);
    assert!(step.request.is_none());
    all.extend(step.events);

    assert_eq!(all.len(), 8);
    assert_processing(&all[0], AssistantStep::UploadAudio);
    assert_processing(&all[1], AssistantStep::Transcription);
    match &all[2] {
        AssistantEvent::Input(e) => {
            assert_eq!(e.id, "inv1");
            assert_eq!(e.content, "draw a cat");
        }
        _ => panic!("expected the input"),
    }
    assert_processing(&all[3], AssistantStep::Thinking);
    match &all[4] {
        AssistantEvent::ReplySkeleton(e) => assert_eq!(e.id, "inv1"),
        _ => panic!("expected the reply skeleton"),
    }
    assert_processing(&all[5], AssistantStep::DrawImage);
    match &all[6] {
        AssistantEvent::Reply(e) => {
            assert_eq!(e.id, "inv1");
            match &e.data {
                ChatReplyData::Image(img) => {
                    assert_eq!(img.url, "/assets/image/dev1/img1.png");
                    assert_eq!(img.prompt, "a cute cat");
                }
                _ => panic!("expected an image reply"),
            }
        }
        _ => panic!("expected the reply"),
    }
    assert_complete(&all[7]);
    assert_eq!(p.status(), "done");
    assert_eq!(p.failure(), None);
}

#[test]
fn length_finish_reason_is_not_supported() {
    let mut all = Vec::new();
    let mut p = through_transcription("hello", &mut all);
    let step = p.advance(text_choice(FinishReason::Length, Some("partial")));
    assert_eq!(step.events.len(), 1);
    assert_error(&step.events[0], "stop reason not supported");
    assert_eq!(p.failure(), Some(ErrorKind::UnsupportedOutcome));
    assert_eq!(p.status(), "error");
}

#[test]
fn content_filter_is_not_supported() {
    let mut all = Vec::new();
    let mut p = through_transcription("hello", &mut all);
    let step = p.advance(text_choice(FinishReason::ContentFilter, None));
    assert_error(&step.events[0], "stop reason not supported");
}

#[test]
fn unknown_tool_is_unsupported() {
    let mut all = Vec::new();
    let mut p = through_transcription("hello", &mut all);
    let step = p.advance(tool_call("Draw_Image", r#"{"prompt":"x"}"#));
    assert_error(&step.events[0], "no proper tool found");
    assert_eq!(p.failure(), Some(ErrorKind::UnsupportedOutcome));
}

#[test]
fn malformed_tool_arguments_fail_validation() {
    let mut all = Vec::new();
    let mut p = through_transcription("hello", &mut all);
    let step = p.advance(tool_call("write_code", r#"{"topic":"x"}"#));
    assert_error(&step.events[0], "missing field `prompt`");
    assert_eq!(p.failure(), Some(ErrorKind::InputValidation));
}

#[test]
fn only_the_first_tool_call_counts() {
    let mut all = Vec::new();
    let mut p = through_transcription("hello", &mut all);
    let step = p.advance(Outcome::Completion {
        choice: Some(Choice {
            finish_reason: FinishReason::ToolCalls,
            content: None,
            tool_calls: vec![
                ToolChoice { name: s("answer"), arguments: s(r#"{"prompt":"first"}"#) },
                ToolChoice { name: s("draw_image"), arguments: s(r#"{"prompt":"second"}"#) },
            ],
        }),
    });
    assert_processing(&step.events[0], AssistantStep::ChatCompletion);
    match &step.request {
        Some(Request::Answer { prompt }) => assert_eq!(prompt, "first"),
        _ => panic!("expected an answer request"),
    }
}

#[test]
fn tool_calls_without_a_call_fail() {
    let mut all = Vec::new();
    let mut p = through_transcription("hello", &mut all);
    let step = p.advance(text_choice(FinishReason::ToolCalls, None));
    assert_error(&step.events[0], "expect at least one tool call");
}

#[test]
fn missing_choice_and_content_fail() {
    let mut all = Vec::new();
    let mut p = through_transcription("hello", &mut all);
    let step = p.advance(Outcome::Completion { choice: None });
    assert_error(&step.events[0], "expect at least one choice");
    let mut all = Vec::new();
    let mut p = through_transcription("hello", &mut all);
    let step = p.advance(text_choice(FinishReason::Stop, None));
    assert_error(&step.events[0], "expect content but no content available");
    assert_eq!(p.failure(), Some(ErrorKind::UpstreamServiceFailure));
}

#[test]
fn stop_answers_by_speech() {
    let mut all = Vec::new();
    let mut p = through_transcription("hello", &mut all);
    let step = p.advance(text_choice(FinishReason::Stop, Some("Hi there")));
    assert_processing(&step.events[0], AssistantStep::Speech);
    match &step.request {
        Some(Request::Speak { text }) => assert_eq!(text, "Hi there"),
        _ => panic!("expected a speech request"),
    }
    all.extend(step.events);
    let step = p.advance(Outcome::Speech { audio: vec![9, 9], name: s("a1") });
    match &step.request {
        Some(Request::Store { path, bytes }) => {
            assert_eq!(path, "/tmp/ava-bot/audio/dev1/a1.mp3");
            assert_eq!(bytes, &vec![9u8, 9]);
        }
        _ => panic!("expected a store request"),
    }
    let step = p.advance(Outcome::Stored);
    all.extend(step.events);
    match &all[all.len() - 2] {
        AssistantEvent::Reply(e) => match &e.data {
            ChatReplyData::Speech(sp) => {
                assert_eq!(sp.text, "Hi there");
                assert_eq!(sp.url, "/assets/audio/dev1/a1.mp3");
            }
            _ => panic!("expected a speech reply"),
        },
        _ => panic!("expected the reply"),
    }
    assert_complete(all.last().unwrap());
    assert_eq!(terminal_count(&all), 1);
}

#[test]
fn answer_tool_asks_then_speaks() {
    let mut all = Vec::new();
    let mut p = through_transcription("why", &mut all);
    let step = p.advance(tool_call("answer", r#"{"prompt":"why"}"#));
    all.extend(step.events);
    let step = p.advance(text_choice(FinishReason::Stop, Some("because")));
    assert_processing(&step.events[0], AssistantStep::Speech);
    all.extend(step.events);
    let step = p.advance(Outcome::Speech { audio: vec![1], name: s("a2") });
    all.extend(step.events);
    let step = p.advance(Outcome::Stored);
    all.extend(step.events);
    let replies = all.iter().filter(|e| matches!(e, AssistantEvent::Reply(_))).count();
    assert_eq!(replies, 1);
    assert_complete(all.last().unwrap());
    assert_eq!(p.status(), "done");
}

#[test]
fn write_code_renders_markdown() {
    let mut all = Vec::new();
    let mut p = through_transcription("code", &mut all);
    let step = p.advance(tool_call("write_code", r#"{"prompt":"hello world"}"#));
    assert_processing(&step.events[0], AssistantStep::WriteCode);
    match &step.request {
        Some(Request::WriteCode { prompt }) => assert_eq!(prompt, "hello world"),
        _ => panic!("expected a code request"),
    }
    let md = "# Title\n\n```rust\nfn main() {}\n```\n";
    let step = p.advance(text_choice(FinishReason::Stop, Some(md)));
    assert!(step.request.is_none());
    assert_eq!(step.events.len(), 2);
    match &step.events[0] {
        AssistantEvent::Reply(e) => match &e.data {
            ChatReplyData::Markdown(code) => {
                assert_ne!(code.content, md);
                assert!(code.content.contains("<h1>Title</h1>"));
                assert!(code.content.contains("<pre"));
            }
            _ => panic!("expected a markdown reply"),
        },
        _ => panic!("expected the reply"),
    }
    assert_complete(&step.events[1]);
}

#[test]
fn invalid_base64_image_fails() {
    let mut all = Vec::new();
    let mut p = through_transcription("draw", &mut all);
    p.advance(tool_call("draw_image", r#"{"prompt":"x"}"#));
    let step = p.advance(Outcome::Image {
        image: Some(GeneratedImage { b64_json: Some(s("***")), revised_prompt: s("x") }),
        name: s("n"),
    });
    assert_error(&step.events[0], "invalid base64 image data");
}

#[test]
fn empty_image_answers_fail() {
    let mut all = Vec::new();
    let mut p = through_transcription("draw", &mut all);
    p.advance(tool_call("draw_image", r#"{"prompt":"x"}"#));
    let step = p.advance(Outcome::Image { image: None, name: s("n") });
    assert_error(&step.events[0], "expect at least one data");
}

#[test]
fn storage_failure_is_reported_once() {
    let mut all = Vec::new();
    let mut p = through_transcription("hello", &mut all);
    all.extend(p.advance(text_choice(FinishReason::Stop, Some("hi"))).events);
    all.extend(p.advance(Outcome::Speech { audio: vec![1], name: s("a") }).events);
    let step = p.advance(Outcome::Failure { kind: ErrorKind::StorageFailure, message: s("disk full") });
    assert_error(&step.events[0], "disk full");
    all.extend(step.events);
    all.extend(p.advance(Outcome::Stored).events);
    assert_eq!(terminal_count(&all), 1);
    assert_eq!(p.failure(), Some(ErrorKind::StorageFailure));
}

#[test]
fn nothing_is_published_after_the_end() {
    let mut all = Vec::new();
    let mut p = through_transcription("code", &mut all);
    p.advance(tool_call("write_code", r#"{"prompt":"x"}"#));
    let step = p.advance(text_choice(FinishReason::Stop, Some("x")));
    assert_complete(step.events.last().unwrap());
    for o in [
        Outcome::Stored,
        Outcome::Transcript { text: s("again") },
        Outcome::Failure { kind: ErrorKind::StorageFailure, message: s("late") },
    ] {
        let step = p.advance(o);
        assert!(step.events.is_empty());
        assert!(step.request.is_none());
    }
    assert_eq!(p.status(), "done");
}

#[test]
fn unexpected_outcome_fails() {
    let (mut p, _) = Pipeline::start("dev1", "inv1");
    let step = p.advance(Outcome::Stored);
    assert_error(&step.events[0], "unexpected outcome");
    assert_eq!(p.failure(), Some(ErrorKind::UpstreamServiceFailure));
}

#[test]
fn progress_signals_are_strictly_ordered() {
    let rank = |s: &AssistantStep| match s {
        AssistantStep::UploadAudio => 0,
        AssistantStep::Transcription => 1,
        AssistantStep::Thinking => 2,
        AssistantStep::ChatCompletion | AssistantStep::DrawImage | AssistantStep::WriteCode => 3,
        AssistantStep::Speech => 4,
    };
    let mut all = Vec::new();
    let mut p = through_transcription("why", &mut all);
    all.extend(p.advance(tool_call("answer", r#"{"prompt":"why"}"#)).events);
    all.extend(p.advance(text_choice(FinishReason::Stop, Some("because"))).events);
    let ranks: Vec<i32> = all
        .iter()
        .filter_map(|e| match e {
            AssistantEvent::Signal(SignalEvent::Processing(s)) => Some(rank(s)),
            _ => None,
        })
        .collect();
    assert_eq!(ranks, vec![0, 1, 2, 3, 4]);
    let skeleton = all.iter().position(|e| matches!(e, AssistantEvent::ReplySkeleton(_))).unwrap();
    assert_eq!(skeleton, 4);
}
