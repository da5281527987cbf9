use purple_matrix_rust::commands::{parse_quoted_args, prepare_slash_command, command_result_for, CommandResult, SlashCommand};
use purple_matrix_rust::media::{build_safe_media_path, sanitize_filename_component};
use purple_matrix_rust::html::{escape_html, strip_html_tags, sanitize_untrusted_html};
use purple_matrix_rust::text::{dec_u64, hex_u64};

#[test]
fn test_parse_quoted_args() {
    // Basic quoted
    let input = "\"Question\" \"Option 1\" \"Option 2\"";
    let args = parse_quoted_args(input);
    assert_eq!(args.len(), 3);
    assert_eq!(args[0], "Question");
    assert_eq!(args[1], "Option 1");
    assert_eq!(args[2], "Option 2");

    // Mixed quotes and plain
    let input2 = "Question \"Option 1\" Option2";
    let args2 = parse_quoted_args(input2);
    assert_eq!(args2.len(), 3);
    assert_eq!(args2[0], "Question");
    assert_eq!(args2[1], "Option 1");
    assert_eq!(args2[2], "Option2");

    // Escaped quotes
    let input3 = "\"Said \\\"Hello\\\"\"";
    let args3 = parse_quoted_args(input3);
    assert_eq!(args3.len(), 1);
    assert_eq!(args3[0], "Said \"Hello\"");

    // Multiple spaces
    let input4 = "One   Two";
    let args4 = parse_quoted_args(input4);
    assert_eq!(args4.len(), 2);
    assert_eq!(args4[0], "One");
    assert_eq!(args4[1], "Two");
}

#[test]
fn test_sanitize_filename_component_blocks_path_chars() {
    let s = sanitize_filename_component("../etc/passwd", "fallback");
    assert!(!s.contains('/'));
    assert!(!s.contains('\\'));
    assert_ne!(s, "..");
}

#[test]
fn test_build_safe_media_path_stays_in_tmp() {
    let p = build_safe_media_path("$event:server", "image", "../../evil.png");
    assert!(p.starts_with("/tmp/matrix_"));
    assert!(!p.contains(".."));
}

#[test]
fn sanitize_filename_uses_fallback_when_nothing_safe_remains() {
    assert_eq!(sanitize_filename_component("///", "fallback"), "fallback");
    assert_eq!(sanitize_filename_component("", "file"), "file");
    assert_eq!(sanitize_filename_component("...", "file"), "file");
}

#[test]
fn sanitize_filename_truncates_long_names() {
    let long = "a".repeat(200);
    let s = sanitize_filename_component(&long, "fallback");
    assert_eq!(s.len(), 80);
}

#[test]
fn escape_html_escapes_the_five_characters() {
    assert_eq!(escape_html("a&b<c>d\"e'f"), "a&amp;b&lt;c&gt;d&quot;e&#x27;f");
    assert_eq!(escape_html("plain"), "plain");
}

#[test]
fn strip_html_tags_removes_tags_and_decodes_entities() {
    assert_eq!(strip_html_tags("<b>Bold</b> and <i>Italic</i>"), "Bold and Italic");
    assert_eq!(strip_html_tags("a&lt;b&gt;c&amp;d&quot;e&nbsp;f"), "a<b>c&d\"e f");
}

#[test]
fn sanitize_untrusted_html_strips_then_escapes() {
    assert_eq!(sanitize_untrusted_html("<script>alert(1)</script>ok"), "alert(1)ok");
    assert_eq!(sanitize_untrusted_html("x &lt;tag&gt; y"), "x &lt;tag&gt; y");
}

#[test]
fn slash_command_classification() {
    match prepare_slash_command("hello there") {
        SlashCommand::Text(t) => assert_eq!(t, "hello there"),
        _ => panic!("plain text must stay text"),
    }
    match prepare_slash_command("//joke") {
        SlashCommand::Text(t) => assert_eq!(t, "/joke"),
        _ => panic!("escaped slash must stay text"),
    }
    match prepare_slash_command("/join #room:server") {
        SlashCommand::Join(a) => assert_eq!(a, "#room:server"),
        _ => panic!("join must be an operation"),
    }
    match prepare_slash_command("/invite @user:server") {
        SlashCommand::Invite(a) => assert_eq!(a, "@user:server"),
        _ => panic!("invite must be an operation"),
    }
    match prepare_slash_command("/shrug") {
        SlashCommand::Text(t) => assert_eq!(t, "\u{AF}\\_(\u{30C4})_/\u{AF}"),
        _ => panic!("shrug must rewrite text"),
    }
    match prepare_slash_command("/shrug oh well") {
        SlashCommand::Text(t) => assert_eq!(t, "oh well \u{AF}\\_(\u{30C4})_/\u{AF}"),
        _ => panic!("shrug must append the emoticon"),
    }
    match prepare_slash_command("/poll \"Q\" \"A\" \"B\"") {
        SlashCommand::Poll(parts) => {
            assert_eq!(parts, vec!["Q".to_string(), "A".to_string(), "B".to_string()]);
        },
        _ => panic!("a full poll must be an operation"),
    }
    assert!(matches!(prepare_slash_command("/poll \"Q\""), SlashCommand::PollUsage));
    match prepare_slash_command("/frobnicate x") {
        SlashCommand::Text(t) => assert_eq!(t, "/frobnicate x"),
        _ => panic!("unknown commands are sent as text"),
    }
}

#[test]
fn command_results_follow_the_plan() {
    assert_eq!(
        command_result_for(SlashCommand::Text("hi".to_string())),
        CommandResult::Continue("hi".to_string())
    );
    assert_eq!(command_result_for(SlashCommand::Join("#r:s".to_string())), CommandResult::Handled);
}

#[test]
fn decimal_and_hex_rendering() {
    assert_eq!(String::from_iter(dec_u64(0)), "0");
    assert_eq!(String::from_iter(dec_u64(8081)), "8081");
    assert_eq!(String::from_iter(hex_u64(0)), "0");
    assert_eq!(String::from_iter(hex_u64(48879)), "beef");
}
