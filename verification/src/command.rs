//! Reactions to what happens in the chat: the command that asks for a
//! webhook, the setup instructions that answer it, and invites.
use vstd::prelude::*;
use vstd::string::*;
use crate::text::{same_text, starts_with};

verus! {

/// The word that asks for a webhook.
pub open spec fn command_word() -> Seq<char> {
    "!webhook"@
}

/// The path under which webhooks are served, after the base address.
pub open spec fn hook_path() -> Seq<char> {
    "api/v1/matrix/hook/"@
}

/// The address to which payloads for webhook `id` are posted.
pub open spec fn hook_url_of(base: Seq<char>, id: Seq<char>) -> Seq<char> {
    base + hook_path() + id
}

/// The plain instructions for a webhook at `url`, with `avatar_url` in the
/// sample payload.
pub open spec fn plain_instructions_of(url: Seq<char>, avatar_url: Seq<char>) -> Seq<char> {
    "\nHere's your webhook url: "@ + url
        + "\nTo send a message, POST the following JSON to that URL:\n{\n  \"text\": \"Hello world!\",\n  \"format\": \"plain\",\n  \"displayName\": \"My Cool Webhook\",\n  \"avatarUrl\": \""@
        + avatar_url + "\"\n}\n"@
}

/// The same instructions in markup.
pub open spec fn html_instructions_of(url: Seq<char>, avatar_url: Seq<char>) -> Seq<char> {
    "Here's your webhook url: <a href=\""@ + url + "\">"@ + url
        + "</a><br>\nTo send a message, POST the following JSON to that URL:\n<pre><code>{\n  \"text\": \"Hello world!\",\n  \"format\": \"plain\",\n  \"displayName\": \"My Cool Webhook\",\n  \"avatarUrl\": \""@
        + avatar_url + "\"\n}</code></pre>\n"@
}

/// Whether a room message asks for a webhook: it is a text message and its
/// body begins with the command word.
pub fn is_webhook_command(is_text: bool, body: &str) -> (asked: bool)
    ensures
        asked == (is_text && command_word().is_prefix_of(body@)),
{
    is_text && starts_with(body, "!webhook")
}

/// The address to which payloads for webhook `id` are posted, under the
/// service's base address.
pub fn hook_url(base: &str, id: &str) -> (url: String)
    ensures
        url@ == hook_url_of(base@, id@),
{
    let mut url = base.to_owned();
    url.append("api/v1/matrix/hook/");
    url.append(id);
    url
}

/// The plain body of the setup instructions.
pub fn plain_instructions(url: &str, avatar_url: &str) -> (out: String)
    ensures
        out@ == plain_instructions_of(url@, avatar_url@),
{
    let mut out = "\nHere's your webhook url: ".to_owned();
    out.append(url);
    out.append(
        "\nTo send a message, POST the following JSON to that URL:\n{\n  \"text\": \"Hello world!\",\n  \"format\": \"plain\",\n  \"displayName\": \"My Cool Webhook\",\n  \"avatarUrl\": \"",
    );
    out.append(avatar_url);
    out.append("\"\n}\n");
    out
}

/// The formatted body of the setup instructions.
pub fn html_instructions(url: &str, avatar_url: &str) -> (out: String)
    ensures
        out@ == html_instructions_of(url@, avatar_url@),
{
    let mut out = "Here's your webhook url: <a href=\"".to_owned();
    out.append(url);
    out.append("\">");
    out.append(url);
    out.append(
        "</a><br>\nTo send a message, POST the following JSON to that URL:\n<pre><code>{\n  \"text\": \"Hello world!\",\n  \"format\": \"plain\",\n  \"displayName\": \"My Cool Webhook\",\n  \"avatarUrl\": \"",
    );
    out.append(avatar_url);
    out.append("\"\n}</code></pre>\n");
    out
}

/// The notice left in the room in which the command was given.
pub fn confirmation() -> (out: &'static str)
    ensures
        out@ == "I've sent you a private message with your hook information"@,
{
    "I've sent you a private message with your hook information"
}

/// What a membership event asks of the primary identity.
#[derive(Debug, Clone, Copy, PartialEq, Eq, Structural)]
pub enum InviteDecision {
    Ignore,
    Join,
}

/// Whether the primary identity joins on a membership event: only where the
/// event is an invite and names a user, and that user is the primary
/// identity. `target` is `None` where the event names no valid user.
pub fn invite_decision(is_invite: bool, target: Option<&str>, bot_user_id: &str) -> (decision:
    InviteDecision)
    ensures
        decision == if is_invite && target is Some && target.unwrap()@ == bot_user_id@ {
            InviteDecision::Join
        } else {
            InviteDecision::Ignore
        },
{
    if !is_invite {
        return InviteDecision::Ignore;
    }
    match target {
        Some(user) => if same_text(user, bot_user_id) {
            InviteDecision::Join
        } else {
            InviteDecision::Ignore
        },
        None => InviteDecision::Ignore,
    }
}

} // verus!
