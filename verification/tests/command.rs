use webhook_bridge::command::{
    confirmation, hook_url, html_instructions, invite_decision, is_webhook_command,
    plain_instructions, InviteDecision,
};
use webhook_bridge::text::{matches_range, push_range, same_text, starts_with, to_chars};

#[test]
fn command_is_recognised() {
    assert!(is_webhook_command(true, "!webhook"));
    assert!(is_webhook_command(true, "!webhook please"));
    assert!(is_webhook_command(true, "!webhooks"));
    assert!(!is_webhook_command(false, "!webhook"));
    assert!(!is_webhook_command(true, " !webhook"));
    assert!(!is_webhook_command(true, "!webhoo"));
    assert!(!is_webhook_command(true, ""));
    assert!(!is_webhook_command(true, "!Webhook"));
}

#[test]
fn hook_url_is_base_path_id() {
    assert_eq!(
        hook_url("https://hooks.example.org/", "abc123"),
        "https://hooks.example.org/api/v1/matrix/hook/abc123"
    );
    assert_eq!(hook_url("", ""), "api/v1/matrix/hook/");
}

#[test]
fn instructions_text() {
    let plain = plain_instructions("URL", "AVATAR");
    assert_eq!(
        plain,
        "\nHere's your webhook url: URL\nTo send a message, POST the following JSON to that URL:\n{\n  \"text\": \"Hello world!\",\n  \"format\": \"plain\",\n  \"displayName\": \"My Cool Webhook\",\n  \"avatarUrl\": \"AVATAR\"\n}\n"
    );
    let html = html_instructions("URL", "AVATAR");
    assert_eq!(
        html,
        "Here's your webhook url: <a href=\"URL\">URL</a><br>\nTo send a message, POST the following JSON to that URL:\n<pre><code>{\n  \"text\": \"Hello world!\",\n  \"format\": \"plain\",\n  \"displayName\": \"My Cool Webhook\",\n  \"avatarUrl\": \"AVATAR\"\n}</code></pre>\n"
    );
    assert_eq!(confirmation(), "I've sent you a private message with your hook information");
}

#[test]
fn only_invites_for_the_bot_are_joined() {
    let bot = "@_webhook:example.org";
    assert_eq!(invite_decision(true, Some(bot), bot), InviteDecision::Join);
    assert_eq!(invite_decision(false, Some(bot), bot), InviteDecision::Ignore);
    assert_eq!(invite_decision(true, Some("@alice:example.org"), bot), InviteDecision::Ignore);
    assert_eq!(invite_decision(true, None, bot), InviteDecision::Ignore);
}

#[test]
fn text_helpers() {
    assert_eq!(to_chars("a❤️b"), vec!['a', '\u{2764}', '\u{fe0f}', 'b']);
    assert!(to_chars("").is_empty());
    assert!(same_text("abc", "abc"));
    assert!(!same_text("abc", "abd"));
    assert!(!same_text("abc", "ab"));
    assert!(!same_text("ab", "abc"));
    assert!(starts_with("abc", ""));
    assert!(starts_with("❤️x", "❤️"));
    assert!(!starts_with("ab", "abc"));
}

#[test]
fn ranges_of_characters() {
    let chars = to_chars("héllo wörld");
    let mut out = String::from(">");
    push_range(&mut out, &chars, 1, 5);
    assert_eq!(out, ">éllo");
    push_range(&mut out, &chars, 3, 3);
    assert_eq!(out, ">éllo");
    assert!(matches_range("wörld", &chars, 6, 11));
    assert!(!matches_range("wörld", &chars, 6, 10));
    assert!(!matches_range("wörl", &chars, 6, 11));
    assert!(matches_range("", &chars, 2, 2));
}
