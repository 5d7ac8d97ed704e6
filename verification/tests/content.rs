use sway_cheatsheet::content::{load_content, style_to_apply};

#[test]
fn readable_content_is_displayed_verbatim() {
    let document = "line one\nline <b>two</b>\n";
    let content = load_content(Ok(String::from(document)));
    assert_eq!(content.text, document);
    assert!(!content.is_fallback);
}

#[test]
fn empty_document_is_displayed_verbatim() {
    let content = load_content(Ok(String::new()));
    assert_eq!(content.text, "");
    assert!(!content.is_fallback);
}

#[test]
fn unreadable_content_becomes_visible_error_text() {
    let description = "No such file or directory (os error 2)";
    let content = load_content(Err(String::from(description)));
    assert_eq!(
        content.text,
        "Error loading file: No such file or directory (os error 2)"
    );
    assert!(!content.text.is_empty());
    assert!(content.text.contains(description));
    assert!(content.is_fallback);
}

#[test]
fn unreadable_content_with_empty_description_is_still_visible() {
    let content = load_content(Err(String::new()));
    assert_eq!(content.text, "Error loading file: ");
    assert!(!content.text.is_empty());
    assert!(content.is_fallback);
}

#[test]
fn readable_style_is_applied_as_given() {
    let sheet = "label { color: #ffffff; }";
    let style = style_to_apply(Ok(String::from(sheet)));
    assert_eq!(style.as_deref(), Some(sheet));
}

#[test]
fn unreadable_style_is_dropped() {
    let style = style_to_apply(Err(String::from("Permission denied (os error 13)")));
    assert!(style.is_none());
}
