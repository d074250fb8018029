use ava_bot::events::{
    complete, error, in_audio_upload, in_thinking, AssistantEvent, ChatInputEvent, ChatReplyData,
    ChatReplyEvent, ChatReplySkeletonEvent, DrawImageResult, SpeechResult, WriteCodeResult,
};
use ava_bot::render::escape;

#[test]
fn test_error_render() {
    let event: String = error("error").into();
    assert_eq!(
        event,
        r#"
<p class="text-red-500"><i class="fa-solid fa-circle-exclamation"></i> Error: error</p>
"#
    );
}

#[test]
fn error_message_is_escaped() {
    let event: String = error("<b> & 'x' \"y\"").into();
    assert_eq!(
        event,
        "\n<p class=\"text-red-500\"><i class=\"fa-solid fa-circle-exclamation\"></i> Error: &lt;b&gt; &amp; &#x27;x&#x27; &quot;y&quot;</p>\n"
    );
}

#[test]
fn escape_keeps_plain_text_and_unicode() {
    assert_eq!(escape("plain text, ünïcödé 画"), "plain text, ünïcödé 画");
    assert_eq!(escape(""), "");
    assert_eq!(escape("a<b"), "a&lt;b");
}

#[test]
fn progress_and_complete_render() {
    assert_eq!(
        in_thinking().render(),
        "\n<p class=\"text-gray-500\"><i class=\"fa-solid fa-spinner fa-spin\"></i> Processing: thinking</p>\n"
    );
    assert_eq!(
        in_audio_upload().render(),
        "\n<p class=\"text-gray-500\"><i class=\"fa-solid fa-spinner fa-spin\"></i> Processing: upload_audio</p>\n"
    );
    assert_eq!(
        complete().render(),
        "\n<p class=\"text-green-500\"><i class=\"fa-solid fa-circle-check\"></i> Complete</p>\n"
    );
}

#[test]
fn input_and_reply_render() {
    let input = AssistantEvent::Input(ChatInputEvent::new("id1", "draw a <cat>"));
    assert_eq!(
        input.render(),
        "<div class=\"content\" id=\"input-content-id1\">draw a &lt;cat&gt;</div>"
    );
    let skeleton = AssistantEvent::ReplySkeleton(ChatReplySkeletonEvent::new("id1"));
    assert_eq!(
        skeleton.render(),
        "<div class=\"chat-reply\" id=\"reply-id1\"><img class=\"avatar\" src=\"/public/images/ava-small.png\" alt=\"Ava\"/><div class=\"content\"></div></div>"
    );
    let image = AssistantEvent::Reply(ChatReplyEvent::new(
        "id1",
        ChatReplyData::Image(DrawImageResult::new("/assets/image/d/n.png", "a cat")),
    ));
    assert_eq!(
        image.render(),
        "<div class=\"content\" id=\"reply-content-id1\"><img class=\"w-full\" src=\"/assets/image/d/n.png\" alt=\"a cat\"/><p>a cat</p></div>"
    );
    let speech = AssistantEvent::Reply(ChatReplyEvent::new(
        "id2",
        ChatReplyData::Speech(SpeechResult::new("hi", "/assets/audio/d/n.mp3")),
    ));
    assert_eq!(
        speech.render(),
        "<div class=\"content\" id=\"reply-content-id2\"><p>hi</p><audio controls autoplay src=\"/assets/audio/d/n.mp3\"></audio></div>"
    );
    let code = AssistantEvent::Reply(ChatReplyEvent::new(
        "id3",
        ChatReplyData::Markdown(WriteCodeResult::new("<pre>x</pre>")),
    ));
    assert_eq!(code.render(), "<div class=\"content\" id=\"reply-content-id3\"><pre>x</pre></div>");
}

#[test]
fn wire_framing_names_and_ids() {
    assert_eq!(in_thinking().wire_name(), "signal");
    assert_eq!(in_thinking().wire_id(), "");
    let input = AssistantEvent::Input(ChatInputEvent::new("id1", "x"));
    assert_eq!(input.wire_name(), "input");
    assert_eq!(input.wire_id(), "id1");
    let skeleton = AssistantEvent::ReplySkeleton(ChatReplySkeletonEvent::new("id1"));
    assert_eq!(skeleton.wire_name(), "reply_skeleton");
    assert_eq!(skeleton.wire_id(), "");
    let reply = AssistantEvent::Reply(ChatReplyEvent::new(
        "id9",
        ChatReplyData::Speech(SpeechResult::new_text_only("x")),
    ));
    assert_eq!(reply.wire_name(), "reply");
    assert_eq!(reply.wire_id(), "id9");
}

#[test]
fn text_only_speech_has_empty_url() {
    let s = SpeechResult::new_text_only("hello");
    assert_eq!(s.text, "hello");
    assert_eq!(s.url, "");
}
