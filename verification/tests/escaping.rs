use winrt_notification::windows_check::is_newer_than_windows81;
use winrt_notification::{
    dismissal_reason_from_code, DismissalReason, IconCrop, Toast, ToastAction, ToastInput,
};
use xml::reader::{EventReader, XmlEvent};

#[test]
fn markup_characters_in_text_are_escaped() {
    let doc = Toast::new("app").title("<>&\"'").render();
    assert!(doc.contains("<text id=\"1\">&lt;&gt;&amp;&quot;&apos;</text>"));
}

#[test]
fn markup_characters_in_attributes_are_escaped() {
    let doc = Toast::new("app")
        .icon("C:\\a\"b.png", IconCrop::Square, "a<b>&c")
        .render();
    assert!(doc.contains("src=\"file:///C:\\a&quot;b.png\""));
    assert!(doc.contains("alt=\"a&lt;b&gt;&amp;c\""));
}

#[test]
fn line_breaks_in_attributes_are_escaped() {
    let doc = Toast::new("app").image("p.png", "line\nbreak\rhere").render();
    assert!(doc.contains("alt=\"line&#xA;break&#xD;here\""));
}

#[test]
fn hostile_text_still_parses_as_one_well_formed_document() {
    let raw_title = "<script>\"pwn\" & 'quotes'</script>";
    let raw_line = "a]]><&'\"b";
    let doc = Toast::new("app")
        .title(raw_title)
        .text1(raw_line)
        .image("C:\\img<>&.png", "alt&\"text")
        .add_input(ToastInput::new("id<&\"'>"))
        .add_action(ToastAction::new().text("c<&>d").arguments("e\"'f"))
        .render();

    let mut texts: Vec<String> = Vec::new();
    let mut roots: usize = 0;
    for event in EventReader::new(doc.as_bytes()) {
        match event.expect("the rendered document must be well-formed") {
            XmlEvent::StartElement { name, attributes, .. } => {
                if name.local_name == "toast" {
                    roots += 1;
                }
                if name.local_name == "action" {
                    let mut content = None;
                    let mut arguments = None;
                    for a in &attributes {
                        if a.name.local_name == "content" {
                            content = Some(a.value.clone());
                        }
                        if a.name.local_name == "arguments" {
                            arguments = Some(a.value.clone());
                        }
                    }
                    assert_eq!(content.as_deref(), Some("c<&>d"));
                    assert_eq!(arguments.as_deref(), Some("e\"'f"));
                }
            }
            XmlEvent::Characters(s) => texts.push(s),
            _ => {}
        }
    }
    assert_eq!(roots, 1);
    assert_eq!(texts, vec![raw_title.to_string(), raw_line.to_string()]);
}

#[test]
fn escaping_happens_once_not_twice() {
    let doc = Toast::new("app").title("&amp;").render();
    assert!(doc.contains("<text id=\"1\">&amp;amp;</text>"));
}

#[test]
fn version_decision_is_newer_than_windows81() {
    assert!(is_newer_than_windows81(None));
    assert!(!is_newer_than_windows81(Some((6, 3, 9600))));
    assert!(!is_newer_than_windows81(Some((5, 1, 2600))));
    assert!(is_newer_than_windows81(Some((7, 0, 0))));
    assert!(is_newer_than_windows81(Some((10, 0, 19041))));
}

#[test]
fn dismissal_reason_codes_decode() {
    assert_eq!(dismissal_reason_from_code(0), DismissalReason::UserCanceled);
    assert_eq!(dismissal_reason_from_code(1), DismissalReason::ApplicationHidden);
    assert_eq!(dismissal_reason_from_code(2), DismissalReason::TimedOut);
    assert_eq!(dismissal_reason_from_code(3), DismissalReason::Unknown);
    assert_eq!(dismissal_reason_from_code(-1), DismissalReason::Unknown);
}
