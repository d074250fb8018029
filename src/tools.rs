//! The tool dispatcher: maps the model's tool choice (a name and JSON
//! arguments) to a typed branch invocation. Names match exactly against a
//! closed set; an unknown name and malformed arguments are distinct failures.

use vstd::prelude::*;

verus! {

/// The branches the tool-selecting model can choose.
#[derive(Clone, Copy, Debug, PartialEq, Eq, Structural)]
pub enum AssistantTool {
    /// Draw a picture based on the user's input.
    DrawImage,
    /// Write code based on the user's input.
    WriteCode,
    /// Just reply based on the user's input.
    Answer,
}

/// The name under which a tool is offered to the model.
pub open spec fn tool_name(t: AssistantTool) -> Seq<char> {
    match t {
        AssistantTool::DrawImage => "draw_image"@,
        AssistantTool::WriteCode => "write_code"@,
        AssistantTool::Answer => "answer"@,
    }
}

/// The tool that `name` denotes: exactly one of the three names, or none.
pub open spec fn tool_named(name: Seq<char>) -> Option<AssistantTool> {
    if name == "draw_image"@ {
        Some(AssistantTool::DrawImage)
    } else if name == "write_code"@ {
        Some(AssistantTool::WriteCode)
    } else if name == "answer"@ {
        Some(AssistantTool::Answer)
    } else {
        None
    }
}

/// Routing is closed and exact: a name routes to a tool iff it is that
/// tool's name, each tool's name routes back to it, and distinct tools have
/// distinct names.
pub proof fn lemma_tool_routing(name: Seq<char>, t: AssistantTool, u: AssistantTool)
    ensures
        tool_named(name) == Some(t) <==> name == tool_name(t),
        tool_named(tool_name(t)) == Some(t),
        t != u ==> tool_name(t) != tool_name(u),
{
    reveal_strlit("draw_image");
    reveal_strlit("write_code");
    reveal_strlit("answer");
    assert("draw_image"@[0] != "write_code"@[0]);
    assert("draw_image"@[0] != "answer"@[0]);
    assert("write_code"@[0] != "answer"@[0]);
}

impl AssistantTool {
    /// The name under which the tool is offered to the model.
    pub fn name(&self) -> (r: &'static str)
        ensures
            r@ == tool_name(*self),
    {
        match self {
            AssistantTool::DrawImage => "draw_image",
            AssistantTool::WriteCode => "write_code",
            AssistantTool::Answer => "answer",
        }
    }

    /// The tool that `name` denotes, matched exactly.
    pub fn from_name(name: &str) -> (r: Option<AssistantTool>)
        ensures
            r == tool_named(name@),
    {
        let n = String::from_str(name);
        if n == String::from_str("draw_image") {
            Some(AssistantTool::DrawImage)
        } else if n == String::from_str("write_code") {
            Some(AssistantTool::WriteCode)
        } else if n == String::from_str("answer") {
            Some(AssistantTool::Answer)
        } else {
            None
        }
    }
}

/// What a JSON text holds when it is an object whose values are all
/// strings: its entries in key order; none for any other text.
pub uninterp spec fn json_string_object(text: Seq<char>) -> Option<Seq<(Seq<char>, Seq<char>)>>;

/// The message of the error with which such a decoding of `text` fails.
pub uninterp spec fn json_error_message(text: Seq<char>) -> Seq<char>;

/// The entries of a decoded object, viewed.
pub open spec fn entries_view(v: Seq<(String, String)>) -> Seq<(Seq<char>, Seq<char>)> {
    v.map_values(|p: (String, String)| (p.0@, p.1@))
}

/// Relies on serde_json::from_str into a `BTreeMap<String, String>`: it
/// succeeds on a JSON object with string values only, and its entries come
/// out in key order. The error is serde_json's message for the text.
#[verifier::external_body]
fn decode_string_object(text: &str) -> (r: Result<Vec<(String, String)>, String>)
    ensures
        match r {
            Ok(v) => json_string_object(text@) == Some(entries_view(v@)),
            Err(e) => json_string_object(text@) is None && e@ == json_error_message(text@),
        },
{
    serde_json::from_str::<std::collections::BTreeMap<String, String>>(text)
        .map(|m| m.into_iter().collect())
        .map_err(|e| e.to_string())
}

/// The value of the first entry named `key`.
pub open spec fn field_value(entries: Seq<(Seq<char>, Seq<char>)>, key: Seq<char>) -> Option<Seq<char>>
    decreases entries.len(),
{
    if entries.len() == 0 {
        None
    } else if entries[0].0 == key {
        Some(entries[0].1)
    } else {
        field_value(entries.drop_first(), key)
    }
}

/// A typed branch invocation: the chosen tool and its prompt.
#[derive(Clone, Debug)]
pub struct ToolInvocation {
    pub tool: AssistantTool,
    pub prompt: String,
}

/// Why a tool choice could not be dispatched.
#[derive(Clone, Debug)]
pub enum DispatchError {
    /// The name is none of the offered tools.
    UnknownTool,
    /// The arguments are not an object with a string `prompt`.
    MalformedArguments(String),
}

/// The prompt that JSON arguments carry, if they are well formed.
pub open spec fn prompt_of(arguments: Seq<char>) -> Option<Seq<char>> {
    match json_string_object(arguments) {
        Some(entries) => field_value(entries, "prompt"@),
        None => None,
    }
}

/// Why JSON arguments that carry no prompt are refused.
pub open spec fn malformed_message(arguments: Seq<char>) -> Seq<char> {
    match json_string_object(arguments) {
        Some(_) => "missing field `prompt`"@,
        None => json_error_message(arguments),
    }
}

/// Value of the first entry of `entries` named `key`.
fn find_field(entries: &Vec<(String, String)>, key: &str) -> (r: Option<String>)
    ensures
        match r {
            Some(v) => field_value(entries_view(entries@), key@) == Some(v@),
            None => field_value(entries_view(entries@), key@) is None,
        },
{
    let k = String::from_str(key);
    let mut i: usize = 0;
    assert(entries_view(entries@).subrange(0, entries@.len() as int) =~= entries_view(entries@));
    while i < entries.len()
        invariant
            i <= entries@.len(),
            k@ == key@,
            field_value(entries_view(entries@), key@)
                == field_value(entries_view(entries@).subrange(i as int, entries@.len() as int), key@),
        decreases entries.len() - i,
    {
        let ghost rest = entries_view(entries@).subrange(i as int, entries@.len() as int);
        assert(rest.drop_first() =~= entries_view(entries@).subrange(i + 1, entries@.len() as int));
        if entries[i].0 == k {
            return Some(entries[i].1.clone());
        }
        i = i + 1;
    }
    None
}

/// Maps a tool choice to its branch. An unknown name fails with
/// `UnknownTool` whatever the arguments; a known one fails with
/// `MalformedArguments` exactly when the arguments carry no prompt.
pub fn dispatch(name: &str, arguments: &str) -> (r: Result<ToolInvocation, DispatchError>)
    ensures
        tool_named(name@) is None ==> r matches Err(DispatchError::UnknownTool),
        tool_named(name@) is Some && prompt_of(arguments@) is None
            ==> (r matches Err(DispatchError::MalformedArguments(m)) && m@ == malformed_message(arguments@)),
        tool_named(name@) is Some && prompt_of(arguments@) is Some ==> (r matches Ok(inv)
            && Some(inv.tool) == tool_named(name@) && Some(inv.prompt@) == prompt_of(arguments@)),
{
    let tool = match AssistantTool::from_name(name) {
        Some(t) => t,
        None => return Err(DispatchError::UnknownTool),
    };
    match decode_string_object(arguments) {
        Err(msg) => Err(DispatchError::MalformedArguments(msg)),
        Ok(entries) => match find_field(&entries, "prompt") {
            Some(prompt) => Ok(ToolInvocation { tool, prompt }),
            None => Err(DispatchError::MalformedArguments(String::from_str("missing field `prompt`"))),
        },
    }
}

} // verus!
