use winrt_notification::{Duration, IconCrop, LoopableSound, Scenario, Sound, Toast};

#[test]
fn empty_toast_renders_bare_document() {
    let doc = Toast::new("app").render();
    assert_eq!(
        doc,
        "<toast><visual><binding template=\"ToastGeneric\"></binding></visual></toast>"
    );
}

#[test]
fn full_toast_renders_exact_document() {
    let doc = Toast::new(Toast::POWERSHELL_APP_ID)
        .title("title")
        .text1("line1")
        .text2("line2")
        .duration(Duration::Short)
        .scenario(Scenario::Reminder)
        .icon("C:\\pics\\chick.jpeg", IconCrop::Circular, "chicken")
        .hero("C:\\pics\\flower.jpeg", "flower")
        .image("C:\\pics\\cat.jpeg", "cat")
        .sound(None)
        .render();
    let expected = "<toast duration=\"short\" scenario=\"reminder\">\
<visual><binding template=\"ToastGeneric\">\
<image placement=\"appLogoOverride\" hint-crop=\"circle\" src=\"file:///C:\\pics\\chick.jpeg\" alt=\"chicken\" />\
<image placement=\"Hero\" src=\"file:///C:\\pics\\flower.jpeg\" alt=\"flower\" />\
<image id=\"1\" src=\"file:///C:\\pics\\cat.jpeg\" alt=\"cat\" />\
<text id=\"1\">title</text>\
<text id=\"2\">line1</text>\
<text id=\"3\">line2</text>\
</binding></visual>\
<audio silent=\"true\" />\
</toast>";
    assert_eq!(doc, expected);
}

#[test]
fn rendering_twice_is_byte_identical() {
    let toast = Toast::new("app")
        .title("a title")
        .text1("first")
        .image("img.png", "alt")
        .duration(Duration::Long);
    let first = toast.render();
    let second = toast.render();
    assert_eq!(first, second);
}

#[test]
fn duration_attribute_forms() {
    assert!(Toast::new("app").render().starts_with("<toast>"));
    assert!(Toast::new("app")
        .duration(Duration::Long)
        .render()
        .starts_with("<toast duration=\"long\">"));
    assert!(Toast::new("app")
        .duration(Duration::Short)
        .render()
        .starts_with("<toast duration=\"short\">"));
}

#[test]
fn scenario_attribute_forms() {
    assert!(Toast::new("app")
        .scenario(Scenario::Default)
        .render()
        .starts_with("<toast>"));
    assert!(Toast::new("app")
        .scenario(Scenario::Alarm)
        .render()
        .starts_with("<toast scenario=\"alarm\">"));
    assert!(Toast::new("app")
        .scenario(Scenario::Reminder)
        .render()
        .starts_with("<toast scenario=\"reminder\">"));
    assert!(Toast::new("app")
        .scenario(Scenario::IncomingCall)
        .render()
        .starts_with("<toast scenario=\"incomingCall\">"));
}

#[test]
fn legacy_host_keeps_only_last_image() {
    let doc = Toast::for_host("app", true)
        .image("one.png", "first")
        .image("two.png", "second")
        .image("three.png", "third")
        .render();
    assert_eq!(doc.matches("<image").count(), 1);
    assert!(doc.contains("<image id=\"1\" src=\"file:///three.png\" alt=\"third\" />"));
    assert!(!doc.contains("one.png"));
    assert!(!doc.contains("two.png"));
}

#[test]
fn legacy_icon_and_hero_fall_back_to_plain_image() {
    let by_icon = Toast::for_host("app", true)
        .icon("pic.png", IconCrop::Circular, "alt")
        .render();
    let by_hero = Toast::for_host("app", true).hero("pic.png", "alt").render();
    let by_image = Toast::for_host("app", true).image("pic.png", "alt").render();
    assert_eq!(by_icon, by_image);
    assert_eq!(by_hero, by_image);
    assert!(by_image.contains("<image id=\"1\" src=\"file:///pic.png\" alt=\"alt\" />"));
    assert!(!by_icon.contains("appLogoOverride"));
    assert!(!by_hero.contains("Hero"));
}

#[test]
fn modern_host_keeps_three_images_in_order() {
    let doc = Toast::new("app")
        .icon("a.png", IconCrop::Circular, "alt")
        .hero("b.png", "alt2")
        .image("c.png", "alt3")
        .render();
    assert_eq!(doc.matches("<image").count(), 3);
    let icon_at = doc
        .find("<image placement=\"appLogoOverride\" hint-crop=\"circle\" src=\"file:///a.png\" alt=\"alt\" />")
        .unwrap();
    let hero_at = doc
        .find("<image placement=\"Hero\" src=\"file:///b.png\" alt=\"alt2\" />")
        .unwrap();
    let generic_at = doc
        .find("<image id=\"1\" src=\"file:///c.png\" alt=\"alt3\" />")
        .unwrap();
    assert!(icon_at < hero_at);
    assert!(hero_at < generic_at);
}

#[test]
fn second_icon_replaces_the_first() {
    let doc = Toast::new("app")
        .icon("first.png", IconCrop::Square, "a")
        .hero("banner.png", "h")
        .icon("second.png", IconCrop::Circular, "b")
        .render();
    assert_eq!(doc.matches("appLogoOverride").count(), 1);
    assert!(!doc.contains("first.png"));
    assert!(doc.contains(
        "<image placement=\"appLogoOverride\" hint-crop=\"circle\" src=\"file:///second.png\" alt=\"b\" />"
    ));
    assert!(doc.contains("banner.png"));
}

#[test]
fn second_hero_replaces_the_first() {
    let doc = Toast::new("app")
        .hero("first.png", "a")
        .image("plain.png", "p")
        .hero("second.png", "b")
        .render();
    assert_eq!(doc.matches("placement=\"Hero\"").count(), 1);
    assert!(!doc.contains("first.png"));
    assert!(doc.contains("<image placement=\"Hero\" src=\"file:///second.png\" alt=\"b\" />"));
    assert!(doc.contains("plain.png"));
}

#[test]
fn square_icon_crop_writes_no_crop_hint() {
    let doc = Toast::new("app")
        .icon("a.png", IconCrop::Square, "alt")
        .render();
    assert!(doc.contains("<image placement=\"appLogoOverride\" src=\"file:///a.png\" alt=\"alt\" />"));
    assert!(!doc.contains("hint-crop"));
}

#[test]
fn template_selection_by_host_and_images() {
    let legacy_plain = Toast::for_host("app", true).title("t").render();
    assert!(legacy_plain.contains("template=\"ToastText04\""));

    let legacy_image = Toast::for_host("app", true).image("a.png", "alt").render();
    assert!(legacy_image.contains("template=\"ToastImageAndText04\""));

    let modern_plain = Toast::for_host("app", false).render();
    assert!(modern_plain.contains("template=\"ToastGeneric\""));

    let modern_images = Toast::new("app")
        .image("a.png", "alt")
        .image("b.png", "alt2")
        .render();
    assert!(modern_images.contains("template=\"ToastGeneric\""));
}

#[test]
fn audio_directive_forms() {
    let silent = Toast::new("app").sound(None).render();
    assert!(silent.contains("<audio silent=\"true\" />"));

    let default = Toast::new("app").sound(Some(Sound::Default)).render();
    assert!(!default.contains("<audio"));

    let unset = Toast::new("app").render();
    assert!(!unset.contains("<audio"));

    let looped = Toast::new("app")
        .sound(Some(Sound::Loop(LoopableSound::Alarm)))
        .render();
    assert!(looped
        .contains("<audio loop=\"true\" src=\"ms-winsoundevent:Notification.Looping.Alarm\" />"));

    let single = Toast::new("app")
        .sound(Some(Sound::Single(LoopableSound::Call)))
        .render();
    assert!(single.contains("<audio src=\"ms-winsoundevent:Notification.Looping.Call\" />"));
    assert!(!single.contains("loop=\"true\""));

    let named = Toast::new("app").sound(Some(Sound::SMS)).render();
    assert!(named.contains("<audio src=\"ms-winsoundevent:Notification.SMS\" />"));
}

#[test]
fn app_id_is_kept_verbatim() {
    let toast = Toast::new(Toast::POWERSHELL_APP_ID);
    assert_eq!(toast.app_id(), Toast::POWERSHELL_APP_ID);
}
