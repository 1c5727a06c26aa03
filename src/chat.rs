use vstd::prelude::*;
use vstd::string::*;

use crate::text::{decimal, decimal_string};

verus! {

/// What a chat is, as far as telling its identifier goes.
pub enum ChatKind {
    Private { username: Option<String> },
    Public { title: Option<String>, channel: bool },
}

/// A chat: its identifier and its kind.
pub struct ChatInfo {
    pub id: i64,
    pub kind: ChatKind,
}

#[derive(Debug, PartialEq, Eq, Structural, Clone, Copy)]
pub enum ChatType {
    Private,
    Group,
    Channel,
}

/// The chat a message speaks of: its type, identifier and name.
pub struct ChatDescription {
    pub chat_type: ChatType,
    pub id: i64,
    pub title: String,
}

pub open spec fn name_or_unknown(name: Option<String>) -> Seq<char> {
    match name {
        Some(n) => n@,
        None => "<unknown>"@,
    }
}

/// Whether the message was forwarded from a channel.
pub open spec fn from_channel(forwarded_from: Option<ChatInfo>) -> bool {
    forwarded_from matches Some(c) && (c.kind matches ChatKind::Public { channel, .. } && channel)
}

fn name_of(name: &Option<String>) -> (r: String)
    ensures
        r@ == name_or_unknown(*name),
{
    match name {
        Some(n) => n.clone(),
        None => String::from_str("<unknown>"),
    }
}

/// The chat whose identifier answers a message: the channel it was
/// forwarded from, if any, else the chat it was sent in.
pub fn extract_message(forwarded_from: &Option<ChatInfo>, chat: &ChatInfo) -> (r: ChatDescription)
    ensures
        from_channel(*forwarded_from) ==> r.chat_type == ChatType::Channel && r.id
            == forwarded_from->0.id && r.title@ == name_or_unknown(
            forwarded_from->0.kind->Public_title,
        ),
        !from_channel(*forwarded_from) ==> r.id == chat.id && match chat.kind {
            ChatKind::Private { username } => r.chat_type == ChatType::Private && r.title@
                == name_or_unknown(username),
            ChatKind::Public { title, .. } => r.chat_type == ChatType::Group && r.title@
                == name_or_unknown(title),
        },
{
    if let Some(forwarded) = forwarded_from {
        if let ChatKind::Public { title, channel } = &forwarded.kind {
            if *channel {
                return ChatDescription {
                    chat_type: ChatType::Channel,
                    id: forwarded.id,
                    title: name_of(title),
                };
            }
        }
    }
    match &chat.kind {
        ChatKind::Private { username } => ChatDescription {
            chat_type: ChatType::Private,
            id: chat.id,
            title: name_of(username),
        },
        ChatKind::Public { title, .. } => ChatDescription {
            chat_type: ChatType::Group,
            id: chat.id,
            title: name_of(title),
        },
    }
}

/// The line that tells a chat's identifier.
pub open spec fn echo_text(d: ChatDescription) -> Seq<char> {
    match d.chat_type {
        ChatType::Private => "The ID of chat with @"@ + d.title@ + ": "@ + decimal(d.id as int),
        ChatType::Group => "The chat ID of group \""@ + d.title@ + "\": "@ + decimal(d.id as int),
        ChatType::Channel => "The chat ID of channel \""@ + d.title@ + "\": "@ + decimal(
            d.id as int,
        ),
    }
}

/// The line that tells a chat's identifier.
pub fn echo_line(d: &ChatDescription) -> (r: String)
    ensures
        r@ == echo_text(*d),
{
    let id = decimal_string(d.id);
    let head = match d.chat_type {
        ChatType::Private => String::from_str("The ID of chat with @").concat(d.title.as_str()).concat(
            ": ",
        ),
        ChatType::Group => String::from_str("The chat ID of group \"").concat(d.title.as_str()).concat(
            "\": ",
        ),
        ChatType::Channel => String::from_str("The chat ID of channel \"").concat(
            d.title.as_str(),
        ).concat("\": "),
    };
    head.concat(id.as_str())
}

/// The reply that gives a chat its identifier, as inline code.
pub fn echo_reply(id: i64) -> (r: String)
    ensures
        r@ == "Chat ID: `"@ + decimal(id as int) + "`"@,
{
    let digits = decimal_string(id);
    String::from_str("Chat ID: `").concat(digits.as_str()).concat("`")
}

} // verus!
