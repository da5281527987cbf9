use purple_matrix_rust::html::{
    sanitize_matrix_html, style_edit, style_mention, style_notice, style_poll, style_redaction,
    style_reply, style_thread_prefix,
};
use purple_matrix_rust::render::{
    create_message_content, get_display_html, FormattedBody, MessageContent, OutgoingMessage,
};

#[test]
fn test_style_reply() {
    let res = style_reply("Quoted", "Reply");
    assert!(res.contains("<blockquote"));
    assert!(res.contains("Quoted"));
    assert!(res.contains("Reply"));
}

#[test]
fn test_style_poll() {
    let question = "Pizza or Burger?";
    let options = vec!["Pizza".to_string(), "Burger".to_string()];
    let html = style_poll(question, options);

    assert!(html.contains("\u{1F4CA} Pizza or Burger?"));
    assert!(html.contains("1.</b> Pizza"));
    assert!(html.contains("2.</b> Burger"));
    assert!(html.contains("background-color: #f0f0f0"));
}

#[test]
fn style_poll_escapes_question_and_options() {
    let html = style_poll("<q>?", vec!["<o>".to_string()]);
    assert!(html.contains("&lt;q&gt;?"));
    assert!(html.contains("&lt;o&gt;"));
}

#[test]
fn style_redaction_names_and_escapes_sender() {
    let html = style_redaction("<alice>");
    assert!(html.contains("&lt;alice&gt;"));
    assert!(html.contains("removed a message"));
}

#[test]
fn style_edit_appends_marker() {
    let html = style_edit("Hi");
    assert!(html.starts_with("Hi "));
    assert!(html.contains("(edited)"));
}

#[test]
fn style_mention_builds_pill() {
    let html = style_mention("alice");
    assert_eq!(html, "<b style=\"color: #2D3E50;\">@alice</b>");
}

#[test]
fn style_notice_wraps_body() {
    assert_eq!(style_notice("note"), "<span style=\"color: #666;\">note</span>");
}

#[test]
fn style_thread_prefix_indents() {
    let html = style_thread_prefix("body");
    assert!(html.starts_with("&nbsp;&nbsp;"));
    assert!(html.ends_with(" body"));
}

#[test]
fn test_format_text_message() {
    let content = MessageContent::Text { body: "Hello World".to_string(), formatted: None };
    assert_eq!(get_display_html(&content), "Hello World");
}

#[test]
fn test_format_markdown() {
    let content = MessageContent::Text {
        body: "**Bold** and *Italic*".to_string(),
        formatted: None,
    };
    let html = get_display_html(&content);
    assert_eq!(html, "**Bold** and *Italic*");
}

#[test]
fn test_formatted_html_override() {
    let content = MessageContent::Text {
        body: "Plain".to_string(),
        formatted: Some(FormattedBody { is_html: true, body: "<b>Bold</b>".to_string() }),
    };
    assert_eq!(get_display_html(&content), "Bold");
}

#[test]
fn test_formatted_html_sanitizes_script_payload() {
    let content = MessageContent::Text {
        body: "x".to_string(),
        formatted: Some(FormattedBody {
            is_html: true,
            body: "<img src=x onerror=alert(1)><script>alert(2)</script><b>ok</b>".to_string(),
        }),
    };
    assert_eq!(get_display_html(&content), "alert(2)ok");
}

#[test]
fn test_location_rendering() {
    let content = MessageContent::Location {
        body: "Meeting Spot".to_string(),
        geo_uri: "geo:12.34,56.78".to_string(),
    };
    let html = get_display_html(&content);
    assert!(html.contains("Meeting Spot"));
    assert!(html.contains("geo:12.34,56.78"));
}

#[test]
fn outgoing_html_gets_stripped_fallback() {
    match create_message_content("<b>Hi</b>".to_string()) {
        OutgoingMessage::Html { plain, html } => {
            assert_eq!(html, "<b>Hi</b>");
            assert_eq!(plain, "Hi");
        },
        _ => panic!("tagged text must be sent as HTML"),
    }
    match create_message_content("just words".to_string()) {
        OutgoingMessage::Plain(t) => assert_eq!(t, "just words"),
        _ => panic!("plain text must stay plain"),
    }
}

#[test]
fn test_sanitize_matrix_html_allows_basic_tags() {
    let input = "<b>Bold</b> and <i>Italic</i>";
    let output = sanitize_matrix_html(input);
    assert_eq!(output, "<b>Bold</b> and <i>Italic</i>");
}

#[test]
fn test_sanitize_matrix_html_escapes_bad_tags() {
    let input = "<script>alert(1)</script><b>Ok</b>";
    let output = sanitize_matrix_html(input);
    assert_eq!(output, "&lt;script&gt;alert(1)&lt;/script&gt;<b>Ok</b>");
}

#[test]
fn test_sanitize_matrix_html_styles_mentions() {
    let input = "Hello <a href=\"https://matrix.to/#/@alice:example.com\">Alice</a>";
    let output = sanitize_matrix_html(input);
    // Should inject style
    assert!(output.contains("style=\"font-weight: bold; background-color: #eee; color: #2D3E50;\""));
    assert!(output.contains("@alice:example.com"));
}

#[test]
fn test_sanitize_matrix_html_preserves_plain_links() {
    let input = "Check <a href=\"https://google.com\">Google</a>";
    let output = sanitize_matrix_html(input);
    // Should NOT inject pill style
    assert!(!output.contains("background-color"));
    assert_eq!(output, "Check <a href=\"https://google.com\">Google</a>");
}

#[test]
fn sanitize_matrix_html_is_case_insensitive_and_keeps_case() {
    let output = sanitize_matrix_html("<B>x</B><em >y</em>");
    assert_eq!(output, "<B>x</B><em >y</em>");
}
