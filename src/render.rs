//! HTML fragments for published events, and the framing of an event on the
//! viewers' server-sent-event stream. Text taken from users or services is
//! HTML-escaped; the HTML of written code is inserted as it is.

use vstd::prelude::*;
use crate::events::{
    AssistantEvent, ChatReplyData, EventView, ReplyView, SignalEvent, SignalView,
    step_name,
};

verus! {

/// The entity that stands for `c` in HTML text, or `c` itself.
pub open spec fn escape_char(c: char) -> Seq<char> {
    if c == '&' {
        "&amp;"@
    } else if c == '<' {
        "&lt;"@
    } else if c == '>' {
        "&gt;"@
    } else if c == '"' {
        "&quot;"@
    } else if c == '\'' {
        "&#x27;"@
    } else {
        seq![c]
    }
}

/// `s` with every character replaced by `escape_char` of it.
pub open spec fn escape_html(s: Seq<char>) -> Seq<char>
    decreases s.len(),
{
    if s.len() == 0 {
        Seq::empty()
    } else {
        escape_html(s.drop_last()) + escape_char(s.last())
    }
}

/// Escapes `s` for use in HTML text and attribute values.
pub fn escape(s: &str) -> (r: String)
    ensures
        r@ == escape_html(s@),
{
    let n = s.unicode_len();
    let mut out = String::new();
    let mut i: usize = 0;
    while i < n
        invariant
            n == s@.len(),
            i <= n,
            out@ == escape_html(s@.subrange(0, i as int)),
        decreases n - i,
    {
        let c = s.get_char(i);
        assert(s@.subrange(0, i + 1).drop_last() =~= s@.subrange(0, i as int));
        if c == '&' {
            out.append("&amp;");
        } else if c == '<' {
            out.append("&lt;");
        } else if c == '>' {
            out.append("&gt;");
        } else if c == '"' {
            out.append("&quot;");
        } else if c == '\'' {
            out.append("&#x27;");
        } else {
            let one = s.substring_char(i, i + 1);
            assert(one@ =~= seq![c]);
            out.append(one);
        }
        i = i + 1;
    }
    assert(s@.subrange(0, n as int) =~= s@);
    out
}

/// HTML of a signal.
pub open spec fn signal_html(s: SignalView) -> Seq<char> {
    match s {
        SignalView::Processing(step) => "\n<p class=\"text-gray-500\"><i class=\"fa-solid fa-spinner fa-spin\"></i> Processing: "@
            + step_name(step) + "</p>\n"@,
        SignalView::Finish(step) => "\n<p class=\"text-green-500\"><i class=\"fa-solid fa-check\"></i> Finished: "@
            + step_name(step) + "</p>\n"@,
        SignalView::Error(msg) => "\n<p class=\"text-red-500\"><i class=\"fa-solid fa-circle-exclamation\"></i> Error: "@
            + escape_html(msg) + "</p>\n"@,
        SignalView::Complete => "\n<p class=\"text-green-500\"><i class=\"fa-solid fa-circle-check\"></i> Complete</p>\n"@,
    }
}

/// HTML of a reply payload.
pub open spec fn reply_html(r: ReplyView) -> Seq<char> {
    match r {
        ReplyView::Speech { text, url } => "<p>"@ + escape_html(text) + "</p><audio controls autoplay src=\""@
            + escape_html(url) + "\"></audio>"@,
        ReplyView::Image { url, prompt } => "<img class=\"w-full\" src=\""@ + escape_html(url) + "\" alt=\""@
            + escape_html(prompt) + "\"/><p>"@ + escape_html(prompt) + "</p>"@,
        ReplyView::Markdown { html } => html,
    }
}

/// HTML of a user or assistant avatar with its name.
pub open spec fn avatar_html(avatar: Seq<char>, name: Seq<char>) -> Seq<char> {
    "<img class=\"avatar\" src=\""@ + escape_html(avatar) + "\" alt=\""@ + escape_html(name) + "\"/>"@
}

/// HTML of an event.
pub open spec fn event_html(e: EventView) -> Seq<char> {
    match e {
        EventView::Signal(s) => signal_html(s),
        EventView::InputSkeleton { id, datetime, avatar, name } => "<div class=\"chat-input\" id=\"input-"@
            + escape_html(id) + "\">"@ + avatar_html(avatar, name) + "<span class=\"datetime\">"@
            + escape_html(datetime) + "</span><div class=\"content\"></div></div>"@,
        EventView::Input { id, content } => "<div class=\"content\" id=\"input-content-"@ + escape_html(id)
            + "\">"@ + escape_html(content) + "</div>"@,
        EventView::ReplySkeleton { id, avatar, name } => "<div class=\"chat-reply\" id=\"reply-"@
            + escape_html(id) + "\">"@ + avatar_html(avatar, name) + "<div class=\"content\"></div></div>"@,
        EventView::Reply { id, data } => "<div class=\"content\" id=\"reply-content-"@ + escape_html(id)
            + "\">"@ + reply_html(data) + "</div>"@,
    }
}

/// The HTML of a signal.
pub fn render_signal(s: &SignalEvent) -> (r: String)
    ensures
        r@ == signal_html(s@),
{
    match s {
        SignalEvent::Processing(step) => {
            let mut r = String::from_str(
                "\n<p class=\"text-gray-500\"><i class=\"fa-solid fa-spinner fa-spin\"></i> Processing: ",
            );
            r.append(step.name());
            r.append("</p>\n");
            r
        },
        SignalEvent::Finish(step) => {
            let mut r = String::from_str(
                "\n<p class=\"text-green-500\"><i class=\"fa-solid fa-check\"></i> Finished: ",
            );
            r.append(step.name());
            r.append("</p>\n");
            r
        },
        SignalEvent::Error(msg) => {
            let mut r = String::from_str(
                "\n<p class=\"text-red-500\"><i class=\"fa-solid fa-circle-exclamation\"></i> Error: ",
            );
            r.append(escape(msg.as_str()).as_str());
            r.append("</p>\n");
            r
        },
        SignalEvent::Complete => String::from_str(
            "\n<p class=\"text-green-500\"><i class=\"fa-solid fa-circle-check\"></i> Complete</p>\n",
        ),
    }
}

/// The HTML of a reply payload.
pub fn render_reply(d: &ChatReplyData) -> (r: String)
    ensures
        r@ == reply_html(d@),
{
    match d {
        ChatReplyData::Speech(v) => {
            let mut r = String::from_str("<p>");
            r.append(escape(v.text.as_str()).as_str());
            r.append("</p><audio controls autoplay src=\"");
            r.append(escape(v.url.as_str()).as_str());
            r.append("\"></audio>");
            r
        },
        ChatReplyData::Image(v) => {
            let mut r = String::from_str("<img class=\"w-full\" src=\"");
            r.append(escape(v.url.as_str()).as_str());
            r.append("\" alt=\"");
            let prompt = escape(v.prompt.as_str());
            r.append(prompt.as_str());
            r.append("\"/><p>");
            r.append(prompt.as_str());
            r.append("</p>");
            r
        },
        ChatReplyData::Markdown(v) => v.content.clone(),
    }
}

fn render_avatar(out: &mut String, avatar: &String, name: &String)
    ensures
        final(out)@ == old(out)@ + avatar_html(avatar@, name@),
{
    out.append("<img class=\"avatar\" src=\"");
    out.append(escape(avatar.as_str()).as_str());
    out.append("\" alt=\"");
    out.append(escape(name.as_str()).as_str());
    out.append("\"/>");
}

impl AssistantEvent {
    /// The HTML fragment that viewers display for this event.
    pub fn render(&self) -> (r: String)
        ensures
            r@ == event_html(self@),
    {
        match self {
            AssistantEvent::Signal(s) => render_signal(s),
            AssistantEvent::InputSkeleton(e) => {
                let mut r = String::from_str("<div class=\"chat-input\" id=\"input-");
                r.append(escape(e.id.as_str()).as_str());
                r.append("\">");
                render_avatar(&mut r, &e.avatar, &e.name);
                r.append("<span class=\"datetime\">");
                r.append(escape(e.datetime.as_str()).as_str());
                r.append("</span><div class=\"content\"></div></div>");
                r
            },
            AssistantEvent::Input(e) => {
                let mut r = String::from_str("<div class=\"content\" id=\"input-content-");
                r.append(escape(e.id.as_str()).as_str());
                r.append("\">");
                r.append(escape(e.content.as_str()).as_str());
                r.append("</div>");
                r
            },
            AssistantEvent::ReplySkeleton(e) => {
                let mut r = String::from_str("<div class=\"chat-reply\" id=\"reply-");
                r.append(escape(e.id.as_str()).as_str());
                r.append("\">");
                render_avatar(&mut r, &e.avatar, &e.name);
                r.append("<div class=\"content\"></div></div>");
                r
            },
            AssistantEvent::Reply(e) => {
                let mut r = String::from_str("<div class=\"content\" id=\"reply-content-");
                r.append(escape(e.id.as_str()).as_str());
                r.append("\">");
                r.append(render_reply(&e.data).as_str());
                r.append("</div>");
                r
            },
        }
    }

    /// The name under which the event is framed on the viewers' stream.
    pub fn wire_name(&self) -> (r: &'static str)
        ensures
            r@ == wire_name_of(self@),
    {
        match self {
            AssistantEvent::Signal(_) => "signal",
            AssistantEvent::InputSkeleton(_) => "input_skeleton",
            AssistantEvent::Input(_) => "input",
            AssistantEvent::ReplySkeleton(_) => "reply_skeleton",
            AssistantEvent::Reply(_) => "reply",
        }
    }

    /// The id under which the event is framed: the invocation id of an input
    /// or a reply, empty for the others.
    pub fn wire_id(&self) -> (r: String)
        ensures
            r@ == wire_id_of(self@),
    {
        match self {
            AssistantEvent::Input(e) => e.id.clone(),
            AssistantEvent::Reply(e) => e.id.clone(),
            _ => String::new(),
        }
    }
}

/// Name under which an event is framed on the viewers' stream.
pub open spec fn wire_name_of(e: EventView) -> Seq<char> {
    match e {
        EventView::Signal(_) => "signal"@,
        EventView::InputSkeleton { .. } => "input_skeleton"@,
        EventView::Input { .. } => "input"@,
        EventView::ReplySkeleton { .. } => "reply_skeleton"@,
        EventView::Reply { .. } => "reply"@,
    }
}

/// Id under which an event is framed on the viewers' stream.
pub open spec fn wire_id_of(e: EventView) -> Seq<char> {
    match e {
        EventView::Input { id, .. } => id,
        EventView::Reply { id, .. } => id,
        _ => Seq::empty(),
    }
}

impl From<AssistantEvent> for String {
    /// The rendered HTML of the event, as `AssistantEvent::render` gives it.
    fn from(e: AssistantEvent) -> String {
        e.render()
    }
}

impl vstd::std_specs::convert::FromSpecImpl<AssistantEvent> for String {
    open spec fn obeys_from_spec() -> bool {
        false
    }

    open spec fn from_spec(e: AssistantEvent) -> String {
        arbitrary()
    }
}

} // verus!
