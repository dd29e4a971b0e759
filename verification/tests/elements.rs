use winrt_notification::{
    Toast, ToastAction, ToastActionPlacement, ToastActivationType, ToastInput, ToastInputType,
};

#[test]
fn action_renders_content_and_arguments() {
    let doc = Toast::new("app")
        .add_action(ToastAction::new().text("Reply").arguments("reply-args"))
        .render();
    assert!(doc.contains("<actions>"));
    assert!(doc.contains("<action content=\"Reply\" arguments=\"reply-args\" />"));
    assert!(doc.contains("</actions>"));
}

#[test]
fn context_menu_action_carries_placement() {
    let doc = Toast::new("app")
        .add_action(
            ToastAction::new()
                .text("Archive")
                .arguments("archive")
                .placement(ToastActionPlacement::ContextMenu),
        )
        .render();
    assert!(doc.contains(
        "<action content=\"Archive\" arguments=\"archive\" placement=\"contextMenu\" />"
    ));
}

#[test]
fn inline_action_has_no_placement_attribute() {
    let doc = Toast::new("app")
        .add_action(ToastAction::new().text("Open").arguments("open"))
        .render();
    assert!(!doc.contains("placement="));
}

#[test]
fn action_activation_type_and_input_hint() {
    let doc = Toast::new("app")
        .add_action(
            ToastAction::new()
                .text("Send")
                .arguments("send")
                .hint_input_id("message")
                .activation_type(ToastActivationType::Background),
        )
        .render();
    assert!(doc.contains(
        "<action content=\"Send\" arguments=\"send\" hint-inputId=\"message\" activationType=\"background\" />"
    ));
}

#[test]
fn activation_type_names_are_camel_case() {
    for (ty, name) in [
        (ToastActivationType::Foreground, "foreground"),
        (ToastActivationType::Background, "background"),
        (ToastActivationType::Protocol, "protocol"),
        (ToastActivationType::System, "system"),
    ] {
        let doc = Toast::new("app")
            .add_action(ToastAction::new().text("x").arguments("y").activation_type(ty))
            .render();
        let expected = format!("activationType=\"{}\"", name);
        assert!(doc.contains(&expected));
    }
}

#[test]
fn text_input_renders_with_optional_fields() {
    let doc = Toast::new("app")
        .add_input(
            ToastInput::new("message")
                .title("Your reply")
                .place_holder_content("type here")
                .default_input("hello"),
        )
        .render();
    assert!(doc.contains(
        "<input id=\"message\" type=\"text\" title=\"Your reply\" placeHolderContent=\"type here\" defaultInput=\"hello\" />"
    ));
}

#[test]
fn bare_input_renders_self_closed() {
    let doc = Toast::new("app").add_input(ToastInput::new("note")).render();
    assert!(doc.contains("<input id=\"note\" type=\"text\" />"));
}

#[test]
fn selection_input_renders_children() {
    let doc = Toast::new("app")
        .add_input(
            ToastInput::new("choice")
                .input_type(&ToastInputType::Selection)
                .add_selection(Some("first-id"), "First")
                .add_selection(None, "Second"),
        )
        .render();
    assert!(doc.contains(
        "<input id=\"choice\" type=\"selection\"><selection id=\"first-id\" content=\"First\" /><selection id=\"Second\" content=\"Second\" /></input>"
    ));
}

#[test]
fn input_id_can_be_replaced() {
    let doc = Toast::new("app")
        .add_input(ToastInput::new("old-name").id("new-name"))
        .render();
    assert!(doc.contains("<input id=\"new-name\""));
    assert!(!doc.contains("old-name"));
}

#[test]
fn inputs_precede_actions_whatever_the_add_order() {
    let doc = Toast::new("app")
        .add_action(ToastAction::new().text("Send").arguments("send"))
        .add_input(ToastInput::new("message"))
        .render();
    let input_at = doc.find("<input").unwrap();
    let action_at = doc.find("<action ").unwrap();
    assert!(input_at < action_at);
}

#[test]
fn several_inputs_and_actions_keep_their_own_orders() {
    let doc = Toast::new("app")
        .add_action(ToastAction::new().text("A1").arguments("a1"))
        .add_input(ToastInput::new("i1"))
        .add_action(ToastAction::new().text("A2").arguments("a2"))
        .add_input(ToastInput::new("i2"))
        .render();
    let i1 = doc.find("<input id=\"i1\"").unwrap();
    let i2 = doc.find("<input id=\"i2\"").unwrap();
    let a1 = doc.find("<action content=\"A1\"").unwrap();
    let a2 = doc.find("<action content=\"A2\"").unwrap();
    assert!(i1 < i2);
    assert!(i2 < a1);
    assert!(a1 < a2);
}

#[test]
fn toast_without_inputs_or_actions_has_no_actions_section() {
    let doc = Toast::new("app").title("plain").render();
    assert!(!doc.contains("<actions>"));
}
