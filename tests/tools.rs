use ava_bot::tools::{dispatch, AssistantTool, DispatchError};

#[test]
fn routes_each_tool_name_exactly() {
    let r = dispatch("draw_image", r#"{"prompt":"a cat"}"#).unwrap();
    assert_eq!(r.tool, AssistantTool::DrawImage);
    assert_eq!(r.prompt, "a cat");
    let r = dispatch("write_code", r#"{"prompt":"fizzbuzz in rust"}"#).unwrap();
    assert_eq!(r.tool, AssistantTool::WriteCode);
    assert_eq!(r.prompt, "fizzbuzz in rust");
    let r = dispatch("answer", r#"{"prompt":"why is the sky blue"}"#).unwrap();
    assert_eq!(r.tool, AssistantTool::Answer);
    assert_eq!(r.prompt, "why is the sky blue");
}

#[test]
fn other_names_are_unknown_tools() {
    for name in ["Draw_Image", "draw-image", "DRAW_IMAGE", "", "answer ", "speech", "write_codes"] {
        assert!(matches!(
            dispatch(name, r#"{"prompt":"x"}"#),
            Err(DispatchError::UnknownTool)
        ));
    }
    assert!(matches!(dispatch("nope", "not json"), Err(DispatchError::UnknownTool)));
}

#[test]
fn tool_names_round_trip() {
    for t in [AssistantTool::DrawImage, AssistantTool::WriteCode, AssistantTool::Answer] {
        assert_eq!(AssistantTool::from_name(t.name()), Some(t));
    }
    assert_eq!(AssistantTool::from_name("Answer"), None);
}

#[test]
fn malformed_arguments_are_distinguished() {
    match dispatch("draw_image", r#"{"size":"big"}"#) {
        Err(DispatchError::MalformedArguments(m)) => assert_eq!(m, "missing field `prompt`"),
        _ => panic!("expected malformed arguments"),
    }
    assert!(matches!(
        dispatch("draw_image", "not json"),
        Err(DispatchError::MalformedArguments(_))
    ));
    assert!(matches!(
        dispatch("answer", r#"{"prompt":1}"#),
        Err(DispatchError::MalformedArguments(_))
    ));
}

#[test]
fn arguments_with_other_fields_keep_the_prompt() {
    let r = dispatch("answer", r#"{"lang":"en","prompt":"hi","zz":"q"}"#).unwrap();
    assert_eq!(r.prompt, "hi");
}
