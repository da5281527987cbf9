//! Display and outgoing-message decisions over the crate's own model of
//! room-message content: which body is shown, when HTML is sanitized or
//! escaped, and when outgoing text is sent as HTML with a stripped plain
//! fallback.

use vstd::prelude::*;
use crate::html::{
    escape_html, escape_html_spec, sanitize_untrusted_html, sanitize_untrusted_spec,
    strip_html_tags, strip_html_spec,
};
use crate::text::{chars_of, string_of, push_all, find_char, find_char_spec};

verus! {

/// A formatted body attached to a message, with whether its format is
/// HTML; any other format is ignored and the plain body shown instead.
pub struct FormattedBody {
    pub is_html: bool,
    pub body: String,
}

/// The crate's model of a room message's content: the kinds the display
/// logic distinguishes, with the fields it reads.
pub enum MessageContent {
    Text { body: String, formatted: Option<FormattedBody> },
    Emote { body: String, formatted: Option<FormattedBody> },
    Notice { body: String, formatted: Option<FormattedBody> },
    Image { body: String },
    Video { body: String },
    Audio { body: String },
    File { body: String },
    Location { body: String, geo_uri: String },
    Other,
}

/// What a text-like message displays: its HTML formatted body sanitized,
/// or its plain body escaped.
pub open spec fn text_display_spec(body: Seq<char>, formatted: Option<FormattedBody>) -> Seq<
    char,
> {
    match formatted {
        Some(f) => if f.is_html {
            sanitize_untrusted_spec(f.body@)
        } else {
            escape_html_spec(body)
        },
        None => escape_html_spec(body),
    }
}

fn text_display(body: &String, formatted: &Option<FormattedBody>) -> (r: String)
    ensures
        r@ == text_display_spec(body@, *formatted),
{
    match formatted {
        Some(f) => {
            if f.is_html {
                sanitize_untrusted_html(f.body.as_str())
            } else {
                escape_html(body.as_str())
            }
        },
        None => escape_html(body.as_str()),
    }
}

fn bracket_display(label: &str, body: &String) -> (r: String)
    ensures
        r@ == label@ + escape_html_spec(body@) + "]"@,
{
    let mut v = chars_of(label);
    let esc = escape_html(body.as_str());
    push_all(&mut v, &chars_of(esc.as_str()));
    push_all(&mut v, &chars_of("]"));
    string_of(&v)
}

/// Renders a message's content as HTML for display: formatted HTML is
/// sanitized, plain text is escaped, media kinds show a labelled name,
/// and a location shows its description and geo URI.
pub fn get_display_html(content: &MessageContent) -> (r: String)
    ensures
        match content {
            MessageContent::Text { body, formatted } => r@ == text_display_spec(body@, *formatted),
            MessageContent::Emote { body, formatted } => r@ == "* "@ + text_display_spec(
                body@,
                *formatted,
            ),
            MessageContent::Notice { body, formatted } => r@ == text_display_spec(
                body@,
                *formatted,
            ),
            MessageContent::Image { body } => r@ == "[Image: "@ + escape_html_spec(body@) + "]"@,
            MessageContent::Video { body } => r@ == "[Video: "@ + escape_html_spec(body@) + "]"@,
            MessageContent::Audio { body } => r@ == "[Audio: "@ + escape_html_spec(body@) + "]"@,
            MessageContent::File { body } => r@ == "[File: "@ + escape_html_spec(body@) + "]"@,
            MessageContent::Location { body, geo_uri } => r@ == "[Location: "@ + escape_html_spec(
                body@,
            ) + "] ("@ + escape_html_spec(geo_uri@) + ")"@,
            MessageContent::Other => r@ == "[Unsupported Message Type]"@,
        },
{
    match content {
        MessageContent::Text { body, formatted } => text_display(body, formatted),
        MessageContent::Emote { body, formatted } => {
            let mut v = chars_of("* ");
            let shown = text_display(body, formatted);
            push_all(&mut v, &chars_of(shown.as_str()));
            string_of(&v)
        },
        MessageContent::Notice { body, formatted } => text_display(body, formatted),
        MessageContent::Image { body } => bracket_display("[Image: ", body),
        MessageContent::Video { body } => bracket_display("[Video: ", body),
        MessageContent::Audio { body } => bracket_display("[Audio: ", body),
        MessageContent::File { body } => bracket_display("[File: ", body),
        MessageContent::Location { body, geo_uri } => {
            let mut v = chars_of("[Location: ");
            let esc = escape_html(body.as_str());
            push_all(&mut v, &chars_of(esc.as_str()));
            push_all(&mut v, &chars_of("] ("));
            let esc_geo = escape_html(geo_uri.as_str());
            push_all(&mut v, &chars_of(esc_geo.as_str()));
            push_all(&mut v, &chars_of(")"));
            string_of(&v)
        },
        MessageContent::Other => {
            let v = chars_of("[Unsupported Message Type]");
            string_of(&v)
        },
    }
}

/// An outgoing message: plain text, or HTML with its stripped plain-text
/// fallback.
pub enum OutgoingMessage {
    Plain(String),
    Html { plain: String, html: String },
}

/// The heuristic for outgoing text: text holding both `<` and `>` is
/// sent as HTML with a tag-stripped plain fallback; anything else is
/// sent as plain text.
pub fn create_message_content(text: String) -> (r: OutgoingMessage)
    ensures
        find_char_spec(text@, '<') is Some && find_char_spec(text@, '>') is Some ==> (r
            matches OutgoingMessage::Html { plain, html } && html@ == text@ && plain@
            == strip_html_spec(text@)),
        !(find_char_spec(text@, '<') is Some && find_char_spec(text@, '>') is Some) ==> (r
            matches OutgoingMessage::Plain(t) && t@ == text@),
{
    let v = chars_of(text.as_str());
    let has_lt = match find_char(&v, '<') {
        Some(_) => true,
        None => false,
    };
    let has_gt = match find_char(&v, '>') {
        Some(_) => true,
        None => false,
    };
    if has_lt && has_gt {
        let plain = strip_html_tags(text.as_str());
        OutgoingMessage::Html { plain, html: text }
    } else {
        OutgoingMessage::Plain(text)
    }
}

} // verus!
