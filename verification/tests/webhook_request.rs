use webhook_bridge::webhook_request::{
    join_text_nodes, return_true, Format, MessageFormat, MessageKind, MsgType, PayloadFields,
    ValidationError, WebhookRequest,
};

fn request(text: &str, format: Format, message_type: MsgType, avatar: &str) -> WebhookRequest {
    WebhookRequest {
        text: text.into(),
        format,
        display_name: Some("My Cool Webhook".into()),
        username: None,
        avatar_url: Some(avatar.into()),
        icon_url: None,
        emoji: return_true(),
        message_type,
    }
}

#[test]
fn webhook_request_test_basic() {
    let expected = WebhookRequest {
        text: "Hello world!".into(),
        format: Format::Plain,
        display_name: Some("My Cool Webhook".into()),
        username: None,
        avatar_url: Some("http://i.imgur.com/IDOBtEJ.png".into()),
        icon_url: None,
        emoji: true,
        message_type: MsgType::Regular,
    };
    let parsed = request(
        "Hello world!",
        Format::Plain,
        MsgType::default(),
        "http://i.imgur.com/IDOBtEJ.png",
    );
    assert_eq!(parsed, expected);

    let expected_message_body = "Hello world!";
    let message = expected.create_message();
    if message.kind == MessageKind::Text {
        assert_eq!(expected_message_body, message.body);
    } else {
        panic!("Not text");
    }
    assert!(message.formatted.is_none());
}

#[test]
fn test_html() {
    let parsed = request(
        "<b>Hello world!</b> <br><ol><li>aa</li> <li>bb</li></ol>",
        Format::Html,
        MsgType::default(),
        "https://i.imgur.com/IDOBtEJ.png",
    );
    let actual = parsed.create_message();
    if actual.kind != MessageKind::Text {
        panic!("Not text");
    }
    let formatted = actual.formatted.unwrap();
    assert_eq!(formatted.format.as_str(), "org.matrix.custom.html");
    assert_eq!(actual.body, "Hello world! aa bb");
    assert_eq!(
        formatted.body,
        "<b>Hello world!</b> <br><ol><li>aa</li> <li>bb</li></ol>"
    );
}

#[test]
fn test_notice_html() {
    let parsed = request(
        "<b>Hello world!</b> <br><ol><li>aa</li> <li>bb</li></ol>",
        Format::Html,
        MsgType::Notice,
        "https://i.imgur.com/IDOBtEJ.png",
    );
    let actual = parsed.create_message();
    if actual.kind != MessageKind::Notice {
        panic!("Not notice");
    }
    let formatted = actual.formatted.unwrap();
    assert_eq!(formatted.format.as_str(), "org.matrix.custom.html");
    assert_eq!(actual.body, "Hello world! aa bb");
    assert_eq!(
        formatted.body,
        "<b>Hello world!</b> <br><ol><li>aa</li> <li>bb</li></ol>"
    );
}

#[test]
fn test_emote_html() {
    let parsed = request(
        "<b>Hello world!</b> <br><ol><li>aa</li> <li>bb</li></ol>",
        Format::Html,
        MsgType::Emote,
        "https://i.imgur.com/IDOBtEJ.png",
    );
    let actual = parsed.create_message();
    if actual.kind != MessageKind::Emote {
        panic!("Not notice");
    }
    let formatted = actual.formatted.unwrap();
    assert_eq!(formatted.format.as_str(), "org.matrix.custom.html");
    assert_eq!(actual.body, "Hello world! aa bb");
    assert_eq!(
        formatted.body,
        "<b>Hello world!</b> <br><ol><li>aa</li> <li>bb</li></ol>"
    );
}

#[test]
fn test_emoji_html() {
    let parsed = request(
        "<b>foo:heart::heart:</b> <br><ol><li>aa</li> <li>bb</li></ol>",
        Format::Html,
        MsgType::Emote,
        "https://i.imgur.com/IDOBtEJ.png",
    );
    let actual = parsed.create_message();
    if actual.kind != MessageKind::Emote {
        panic!("Not notice");
    }
    let formatted = actual.formatted.unwrap();
    assert_eq!(formatted.format.as_str(), "org.matrix.custom.html");
    assert_eq!(actual.body, "foo❤️❤️ aa bb");
    assert_eq!(
        formatted.body,
        "<b>foo❤️❤️</b> <br><ol><li>aa</li> <li>bb</li></ol>"
    );
}

#[test]
fn every_kind_and_format() {
    let kinds = [
        (MsgType::Regular, MessageKind::Text),
        (MsgType::Notice, MessageKind::Notice),
        (MsgType::Emote, MessageKind::Emote),
    ];
    for (msgtype, kind) in kinds {
        let plain = request("<i>hi</i> :tada:", Format::Plain, msgtype, "x").create_message();
        assert_eq!(plain.kind, kind);
        assert_eq!(plain.body, "<i>hi</i> 🎉");
        assert!(plain.formatted.is_none());

        let html = request("<i>hi</i> :tada:", Format::Html, msgtype, "x").create_message();
        assert_eq!(html.kind, kind);
        assert_eq!(html.body, "hi 🎉");
        let formatted = html.formatted.unwrap();
        assert_eq!(formatted.format, MessageFormat::Html);
        assert_eq!(formatted.body, "<i>hi</i> 🎉");
        assert_eq!(html.body, WebhookRequest::html_to_text(&formatted.body));
    }
}

#[test]
fn emoji_flag_off_keeps_shortcodes() {
    let mut r = request("<b>:heart:</b>", Format::Html, MsgType::Regular, "x");
    r.emoji = false;
    assert_eq!(r.parse_text(), "<b>:heart:</b>");
    let m = r.create_message();
    assert_eq!(m.body, ":heart:");
    assert_eq!(m.formatted.unwrap().body, "<b>:heart:</b>");
}

#[test]
fn html_to_text_drops_tags() {
    assert_eq!(WebhookRequest::html_to_text("<p>a<b>b</b></p>c"), "abc");
    assert_eq!(WebhookRequest::html_to_text("plain"), "plain");
    assert_eq!(WebhookRequest::html_to_text("<br>"), "");
    assert_eq!(WebhookRequest::html_to_text(""), "");
}

#[test]
fn join_text_nodes_keeps_order() {
    let nodes = vec![None, Some("a".to_string()), None, Some("bc".to_string()), Some(String::new())];
    assert_eq!(join_text_nodes(&nodes), "abc");
    assert_eq!(join_text_nodes(&Vec::new()), "");
    assert_eq!(join_text_nodes(&vec![None, None]), "");
}

#[test]
fn display_name_precedence() {
    let mut r = request("t", Format::Plain, MsgType::Regular, "x");
    r.display_name = Some("Primary :heart:".into());
    r.username = Some("Alias".into());
    assert_eq!(r.resolved_display_name(), "Primary ❤️");
    r.emoji = false;
    assert_eq!(r.resolved_display_name(), "Primary :heart:");
    r.display_name = None;
    assert_eq!(r.resolved_display_name(), "Alias");
    r.username = None;
    assert_eq!(r.resolved_display_name(), "Incoming Webhook");
    r.emoji = true;
    assert_eq!(r.resolved_display_name(), "Incoming Webhook");
}

#[test]
fn avatar_url_precedence() {
    let mut r = request("t", Format::Plain, MsgType::Regular, "primary");
    r.icon_url = Some("alias".into());
    assert_eq!(r.resolved_avatar_url(), Some("primary".to_string()));
    r.avatar_url = None;
    assert_eq!(r.resolved_avatar_url(), Some("alias".to_string()));
    r.icon_url = None;
    assert_eq!(r.resolved_avatar_url(), None);
}

#[test]
fn defaults() {
    assert!(return_true());
    assert_eq!(MsgType::default(), MsgType::Regular);
}

fn fields(text: Option<&str>, format: Option<&str>, msgtype: Option<&str>) -> PayloadFields {
    PayloadFields {
        text: text.map(|s| s.to_string()),
        format: format.map(|s| s.to_string()),
        display_name: Some("My Cool Webhook".to_string()),
        username: None,
        avatar_url: Some("http://i.imgur.com/IDOBtEJ.png".to_string()),
        icon_url: None,
        emoji: None,
        msgtype: msgtype.map(|s| s.to_string()),
    }
}

#[test]
fn payload_with_defaults() {
    let parsed = WebhookRequest::from_fields(fields(Some("Hello world!"), Some("plain"), None));
    let expected = request(
        "Hello world!",
        Format::Plain,
        MsgType::Regular,
        "http://i.imgur.com/IDOBtEJ.png",
    );
    assert_eq!(parsed, Ok(expected));

    let mut f = fields(Some("x"), Some("html"), Some("emote"));
    f.emoji = Some(false);
    f.username = Some("alias".to_string());
    f.icon_url = Some("icon".to_string());
    let r = WebhookRequest::from_fields(f).unwrap();
    assert_eq!(r.format, Format::Html);
    assert_eq!(r.message_type, MsgType::Emote);
    assert!(!r.emoji);
    assert_eq!(r.username, Some("alias".to_string()));
    assert_eq!(r.icon_url, Some("icon".to_string()));
}

#[test]
fn payload_faults() {
    assert_eq!(
        WebhookRequest::from_fields(fields(None, None, Some("bogus"))),
        Err(ValidationError::MissingText)
    );
    assert_eq!(
        WebhookRequest::from_fields(fields(Some("x"), None, Some("bogus"))),
        Err(ValidationError::MissingFormat)
    );
    assert_eq!(
        WebhookRequest::from_fields(fields(Some("x"), Some("markdown"), Some("bogus"))),
        Err(ValidationError::UnknownFormat)
    );
    assert_eq!(
        WebhookRequest::from_fields(fields(Some("x"), Some("plain"), Some("bogus"))),
        Err(ValidationError::UnknownMsgType)
    );
}

#[test]
fn names_of_formats_and_kinds() {
    assert_eq!(Format::parse("plain"), Some(Format::Plain));
    assert_eq!(Format::parse("html"), Some(Format::Html));
    assert_eq!(Format::parse("HTML"), None);
    assert_eq!(Format::parse(""), None);
    assert_eq!(MsgType::parse("regular"), Some(MsgType::Regular));
    assert_eq!(MsgType::parse("notice"), Some(MsgType::Notice));
    assert_eq!(MsgType::parse("emote"), Some(MsgType::Emote));
    assert_eq!(MsgType::parse("text"), None);
}
