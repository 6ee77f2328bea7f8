//! The inbound payload of a webhook and the chat message that is made of it.
use vstd::prelude::*;
use vstd::string::*;
use crate::emoji::{expand, replace_emoji};
use crate::text::same_text;

verus! {

/// How the payload's text is to be read.
#[derive(Debug, Clone, Copy, PartialEq, Eq, Structural)]
pub enum Format {
    Plain,
    Html,
}

/// The kind of message that the payload asks for.
#[derive(Debug, Clone, Copy, PartialEq, Eq, Structural)]
pub enum MsgType {
    Regular,
    Notice,
    Emote,
}

impl Default for MsgType {
    fn default() -> (kind: Self)
        ensures
            kind == MsgType::Regular,
    {
        MsgType::Regular
    }
}

/// The value of the `emoji` flag of a payload that does not set it.
pub fn return_true() -> (flag: bool)
    ensures
        flag,
{
    true
}

/// The kind of a chat message.
#[derive(Debug, Clone, Copy, PartialEq, Eq, Structural)]
pub enum MessageKind {
    Text,
    Notice,
    Emote,
}

/// The markup of a formatted body.
#[derive(Debug, Clone, Copy, PartialEq, Eq, Structural)]
pub enum MessageFormat {
    Html,
}

impl MessageFormat {
    /// The name under which the chat network knows this markup.
    pub fn as_str(&self) -> (name: &'static str)
        ensures
            name@ == "org.matrix.custom.html"@,
    {
        "org.matrix.custom.html"
    }
}

/// A body in markup, carried beside the plain one.
#[derive(Debug, Clone, PartialEq, Eq)]
pub struct FormattedBody {
    pub format: MessageFormat,
    pub body: String,
}

/// The content of a chat message: its kind, its plain body and, where the
/// payload was markup, the formatted body.
#[derive(Debug, Clone, PartialEq, Eq)]
pub struct MessageContent {
    pub kind: MessageKind,
    pub body: String,
    pub formatted: Option<FormattedBody>,
}

/// A webhook payload after validation. `display_name` and `avatar_url` are the
/// primary fields, `username` and `icon_url` their aliases.
#[derive(Debug, Clone, PartialEq, Eq)]
pub struct WebhookRequest {
    pub text: String,
    pub format: Format,
    pub display_name: Option<String>,
    pub username: Option<String>,
    pub avatar_url: Option<String>,
    pub icon_url: Option<String>,
    pub emoji: bool,
    pub message_type: MsgType,
}

/// Why a payload is rejected.
#[derive(Debug, Clone, Copy, PartialEq, Eq, Structural)]
pub enum ValidationError {
    /// The payload has no `text`.
    MissingText,
    /// The payload has no `format`.
    MissingFormat,
    /// `format` is neither `plain` nor `html`.
    UnknownFormat,
    /// `msgtype` is none of `regular`, `notice` and `emote`.
    UnknownMsgType,
}

/// The members of a payload as they were read, before validation. A member
/// that the payload does not have is `None`.
#[derive(Debug, Clone, PartialEq, Eq)]
pub struct PayloadFields {
    pub text: Option<String>,
    pub format: Option<String>,
    pub display_name: Option<String>,
    pub username: Option<String>,
    pub avatar_url: Option<String>,
    pub icon_url: Option<String>,
    pub emoji: Option<bool>,
    pub msgtype: Option<String>,
}

/// The format that `name` names.
pub open spec fn format_named(name: Seq<char>) -> Option<Format> {
    if name == "plain"@ {
        Some(Format::Plain)
    } else if name == "html"@ {
        Some(Format::Html)
    } else {
        None
    }
}

/// The message type that `name` names.
pub open spec fn msgtype_named(name: Seq<char>) -> Option<MsgType> {
    if name == "regular"@ {
        Some(MsgType::Regular)
    } else if name == "notice"@ {
        Some(MsgType::Notice)
    } else if name == "emote"@ {
        Some(MsgType::Emote)
    } else {
        None
    }
}

/// The first fault of the members, if they have one.
pub open spec fn fault_of(fields: PayloadFields) -> Option<ValidationError> {
    if fields.text is None {
        Some(ValidationError::MissingText)
    } else if fields.format is None {
        Some(ValidationError::MissingFormat)
    } else if format_named(fields.format.unwrap()@) is None {
        Some(ValidationError::UnknownFormat)
    } else if fields.msgtype is Some && msgtype_named(fields.msgtype.unwrap()@) is None {
        Some(ValidationError::UnknownMsgType)
    } else {
        None
    }
}

/// The payload that faultless members stand for: `emoji` is on and the
/// message regular unless they say otherwise.
pub open spec fn payload_of(fields: PayloadFields) -> WebhookRequest {
    WebhookRequest {
        text: fields.text.unwrap(),
        format: format_named(fields.format.unwrap()@).unwrap(),
        display_name: fields.display_name,
        username: fields.username,
        avatar_url: fields.avatar_url,
        icon_url: fields.icon_url,
        emoji: match fields.emoji {
            Some(flag) => flag,
            None => true,
        },
        message_type: match fields.msgtype {
            Some(name) => msgtype_named(name@).unwrap(),
            None => MsgType::Regular,
        },
    }
}

impl Format {
    /// Reads a format's name: `plain` or `html`, in lower case.
    pub fn parse(name: &str) -> (format: Option<Format>)
        ensures
            format == format_named(name@),
    {
        if same_text(name, "plain") {
            Some(Format::Plain)
        } else if same_text(name, "html") {
            Some(Format::Html)
        } else {
            None
        }
    }
}

impl MsgType {
    /// Reads a message type's name: `regular`, `notice` or `emote`, in lower
    /// case.
    pub fn parse(name: &str) -> (kind: Option<MsgType>)
        ensures
            kind == msgtype_named(name@),
    {
        if same_text(name, "regular") {
            Some(MsgType::Regular)
        } else if same_text(name, "notice") {
            Some(MsgType::Notice)
        } else if same_text(name, "emote") {
            Some(MsgType::Emote)
        } else {
            None
        }
    }
}

/// The nodes of the tree that the HTML parser builds for the fragment `raw`,
/// in the order in which it inserted them: a text node as `Some` of its text,
/// any other node as `None`.
pub uninterp spec fn html_nodes(raw: Seq<char>) -> Seq<Option<Seq<char>>>;

/// The nodes with each text taken by its characters.
pub open spec fn node_views(nodes: Seq<Option<String>>) -> Seq<Option<Seq<char>>> {
    Seq::new(
        nodes.len(),
        |i: int|
            match nodes[i] {
                Some(t) => Some(t@),
                None => None,
            },
    )
}

/// The texts of the text nodes, one after the other.
pub open spec fn text_of(nodes: Seq<Option<Seq<char>>>) -> Seq<char>
    decreases nodes.len(),
{
    if nodes.len() == 0 {
        Seq::empty()
    } else {
        text_of(nodes.drop_last()) + match nodes.last() {
            Some(t) => t,
            None => Seq::empty(),
        }
    }
}

/// The plain text that stands for the markup `raw`.
pub open spec fn plain_of(raw: Seq<char>) -> Seq<char> {
    text_of(html_nodes(raw))
}

/// The default name of a webhook's sender.
pub open spec fn fallback_name() -> Seq<char> {
    "Incoming Webhook"@
}

/// The message kind for a payload's `msgtype`.
pub open spec fn kind_of(t: MsgType) -> MessageKind {
    match t {
        MsgType::Regular => MessageKind::Text,
        MsgType::Notice => MessageKind::Notice,
        MsgType::Emote => MessageKind::Emote,
    }
}

/// `scraper::Html::parse_fragment`, followed by a walk over the parsed tree's
/// nodes in insertion order. Trusted: the vector lists the nodes as
/// `html_nodes` names them, the text of each text node and `None` for every
/// other node. Nothing is claimed about how the parser reads markup.
#[verifier::external_body]
fn parse_fragment_nodes(raw: &str) -> (nodes: Vec<Option<String>>)
    ensures
        node_views(nodes@) == html_nodes(raw@),
{
    let fragment = scraper::Html::parse_fragment(raw);
    let mut nodes = Vec::new();
    for node in fragment.tree {
        nodes.push(
            match node {
                scraper::node::Node::Text(t) => Some(t.text.to_string()),
                _ => None,
            },
        );
    }
    nodes
}

/// Joins the texts of the text nodes in `nodes`, in order, and drops the rest.
pub fn join_text_nodes(nodes: &Vec<Option<String>>) -> (out: String)
    ensures
        out@ == text_of(node_views(nodes@)),
{
    let ghost views = node_views(nodes@);
    let mut out = String::new();
    let mut i: usize = 0;
    assert(views.take(0) =~= Seq::empty());
    while i < nodes.len()
        invariant
            i <= nodes.len(),
            views == node_views(nodes@),
            out@ == text_of(views.take(i as int)),
        decreases nodes.len() - i,
    {
        assert(views.take(i + 1).drop_last() =~= views.take(i as int));
        assert(views.take(i + 1).last() == views[i as int]);
        match &nodes[i] {
            Some(t) => {
                out.append(t.as_str());
            },
            None => {
                assert(out@ + Seq::<char>::empty() =~= out@);
            },
        }
        i += 1;
    }
    assert(views.take(nodes.len() as int) =~= views);
    out
}

impl WebhookRequest {
    /// The text that is sent: the payload's text, with shortcodes replaced
    /// where the payload's `emoji` flag is set.
    pub open spec fn parsed(&self) -> Seq<char> {
        if self.emoji {
            expand(self.text@)
        } else {
            self.text@
        }
    }

    /// The sender's name before substitution: the primary field, else the
    /// alias, else the fallback.
    pub open spec fn raw_name(&self) -> Seq<char> {
        match (self.display_name, self.username) {
            (Some(primary), _) => primary@,
            (None, Some(alias)) => alias@,
            (None, None) => fallback_name(),
        }
    }

    /// The sender's name as shown.
    pub open spec fn shown_name(&self) -> Seq<char> {
        if self.emoji {
            expand(self.raw_name())
        } else {
            self.raw_name()
        }
    }

    /// The address of the sender's picture: the primary field, else the alias.
    pub open spec fn shown_avatar(&self) -> Option<Seq<char>> {
        match (self.avatar_url, self.icon_url) {
            (Some(primary), _) => Some(primary@),
            (None, Some(alias)) => Some(alias@),
            (None, None) => None,
        }
    }

    /// Validates the members of a payload. `text` and `format` are required,
    /// `format` and `msgtype` must be known names; a payload without `emoji`
    /// has it on, one without `msgtype` is regular.
    pub fn from_fields(fields: PayloadFields) -> (parsed: Result<WebhookRequest, ValidationError>)
        ensures
            match parsed {
                Ok(request) => fault_of(fields) is None && request == payload_of(fields),
                Err(e) => fault_of(fields) == Some(e),
            },
    {
        let text = match fields.text {
            Some(text) => text,
            None => return Err(ValidationError::MissingText),
        };
        let format = match &fields.format {
            Some(name) => match Format::parse(name.as_str()) {
                Some(format) => format,
                None => return Err(ValidationError::UnknownFormat),
            },
            None => return Err(ValidationError::MissingFormat),
        };
        let message_type = match &fields.msgtype {
            Some(name) => match MsgType::parse(name.as_str()) {
                Some(kind) => kind,
                None => return Err(ValidationError::UnknownMsgType),
            },
            None => MsgType::default(),
        };
        let emoji = match fields.emoji {
            Some(flag) => flag,
            None => return_true(),
        };
        Ok(
            WebhookRequest {
                text,
                format,
                display_name: fields.display_name,
                username: fields.username,
                avatar_url: fields.avatar_url,
                icon_url: fields.icon_url,
                emoji,
                message_type,
            },
        )
    }

    /// The message for this payload. Its kind follows `msgtype`. A plain
    /// payload gives a plain body only. A markup payload gives the text as the
    /// formatted body and, as the plain body, the text nodes of that same text:
    /// shortcodes are replaced first, so both bodies show the glyphs.
    pub fn create_message(&self) -> (message: MessageContent)
        ensures
            message.kind == kind_of(self.message_type),
            self.format == Format::Plain ==> message.body@ == self.parsed()
                && message.formatted is None,
            self.format == Format::Html ==> message.body@ == plain_of(self.parsed())
                && message.formatted is Some && message.formatted.unwrap().body@ == self.parsed()
                && message.formatted.unwrap().format == MessageFormat::Html,
    {
        let parsed = self.parse_text();
        let kind = match self.message_type {
            MsgType::Regular => MessageKind::Text,
            MsgType::Notice => MessageKind::Notice,
            MsgType::Emote => MessageKind::Emote,
        };
        match self.format {
            Format::Plain => MessageContent { kind, body: parsed, formatted: None },
            Format::Html => MessageContent {
                kind,
                body: Self::html_to_text(parsed.as_str()),
                formatted: Some(FormattedBody { format: MessageFormat::Html, body: parsed }),
            },
        }
    }

    /// The payload's text, with shortcodes replaced where `emoji` is set.
    pub fn parse_text(&self) -> (out: String)
        ensures
            out@ == self.parsed(),
    {
        if self.emoji {
            replace_emoji(self.text.as_str())
        } else {
            self.text.clone()
        }
    }

    /// The plain text of a fragment of markup: the text nodes that the parser
    /// finds in it, joined in document order.
    pub fn html_to_text(raw: &str) -> (out: String)
        ensures
            out@ == plain_of(raw@),
    {
        let nodes = parse_fragment_nodes(raw);
        join_text_nodes(&nodes)
    }

    /// The name under which the message is sent: `display_name`, else
    /// `username`, else "Incoming Webhook"; shortcodes in it are replaced only
    /// where `emoji` is set.
    pub fn resolved_display_name(&self) -> (name: String)
        ensures
            name@ == self.shown_name(),
    {
        let raw: &str = match &self.display_name {
            Some(primary) => primary.as_str(),
            None => match &self.username {
                Some(alias) => alias.as_str(),
                None => "Incoming Webhook",
            },
        };
        if self.emoji {
            replace_emoji(raw)
        } else {
            raw.to_owned()
        }
    }

    /// The address of the sender's picture: `avatar_url`, else `icon_url`,
    /// else none.
    pub fn resolved_avatar_url(&self) -> (url: Option<String>)
        ensures
            match url {
                Some(u) => self.shown_avatar() == Some(u@),
                None => self.shown_avatar() is None,
            },
    {
        match &self.avatar_url {
            Some(primary) => Some(primary.clone()),
            None => match &self.icon_url {
                Some(alias) => Some(alias.clone()),
                None => None,
            },
        }
    }
}

} // verus!
