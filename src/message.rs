use vstd::prelude::*;
use vstd::string::*;

use crate::text::{replace_char, replaced_char};

verus! {

/// `s` with `<`, `>` and then `&` replaced by their HTML entities.
pub open spec fn html_replaced(s: Seq<char>) -> Seq<char> {
    replaced_char(replaced_char(replaced_char(s, '<', "&lt;"@), '>', "&gt;"@), '&', "&amp;"@)
}

/// Replaces `<`, `>` and then `&` by their HTML entities, so that a `<`
/// becomes `&amp;lt;`.
pub fn replace_html_entities(from: &String) -> (r: String)
    ensures
        r@ == html_replaced(from@),
{
    let a = replace_char(from.as_str(), '<', "&lt;");
    let b = replace_char(a.as_str(), '>', "&gt;");
    replace_char(b.as_str(), '&', "&amp;")
}

/// The content of an HTML message about a watched file.
pub enum MessageBody {
    Started,
    Error { content: String },
    FileCreated { path: String },
    FileWrited { path: String, content: String },
    FileRemoved { path: String },
    Raw { content: String },
}

/// A message and the chat it goes to, if not the default one.
pub struct Message {
    pub chat: Option<i64>,
    pub body: MessageBody,
}

/// The HTML text of a message body; all but raw content is entity-replaced.
pub open spec fn body_text(b: MessageBody) -> Seq<char> {
    match b {
        MessageBody::Started => "<b>Started</b>"@,
        MessageBody::Error { content } => "Error: <pre>"@ + html_replaced(content@)
            + "</pre>\nLogram stopped"@,
        MessageBody::FileCreated { path } => "<b>"@ + html_replaced(path@) + "</b>\nFile created"@,
        MessageBody::FileWrited { path, content } => "<b>"@ + html_replaced(path@)
            + "</b>\n<pre>"@ + html_replaced(content@) + "</pre>"@,
        MessageBody::FileRemoved { path } => "<b>"@ + html_replaced(path@) + "</b>\nFile removed"@,
        MessageBody::Raw { content } => content@,
    }
}

/// The body with its entities replaced, raw content kept as it is.
pub open spec fn body_replaced(b: MessageBody, r: MessageBody) -> bool {
    match b {
        MessageBody::Started => r is Started,
        MessageBody::Error { content } => r matches MessageBody::Error { content: c } && c@
            == html_replaced(content@),
        MessageBody::FileCreated { path } => r matches MessageBody::FileCreated { path: p } && p@
            == html_replaced(path@),
        MessageBody::FileWrited { path, content } => r matches MessageBody::FileWrited {
            path: p,
            content: c,
        } && p@ == html_replaced(path@) && c@ == html_replaced(content@),
        MessageBody::FileRemoved { path } => r matches MessageBody::FileRemoved { path: p } && p@
            == html_replaced(path@),
        MessageBody::Raw { content } => r matches MessageBody::Raw { content: c } && c@ == content@,
    }
}

impl MessageBody {
    fn replaced_entities(&self) -> (r: MessageBody)
        ensures
            body_replaced(*self, r),
    {
        match self {
            MessageBody::Started => MessageBody::Started,
            MessageBody::Error { content } => MessageBody::Error {
                content: replace_html_entities(content),
            },
            MessageBody::FileCreated { path } => MessageBody::FileCreated {
                path: replace_html_entities(path),
            },
            MessageBody::FileWrited { path, content } => MessageBody::FileWrited {
                path: replace_html_entities(path),
                content: replace_html_entities(content),
            },
            MessageBody::FileRemoved { path } => MessageBody::FileRemoved {
                path: replace_html_entities(path),
            },
            MessageBody::Raw { content } => MessageBody::Raw { content: content.clone() },
        }
    }

    /// The HTML text of the message.
    pub fn text(&self) -> (r: String)
        ensures
            r@ == body_text(*self),
    {
        match self.replaced_entities() {
            MessageBody::Started => String::from_str("<b>Started</b>"),
            MessageBody::Error { content } => String::from_str("Error: <pre>").concat(
                content.as_str(),
            ).concat("</pre>\nLogram stopped"),
            MessageBody::FileCreated { path } => String::from_str("<b>").concat(
                path.as_str(),
            ).concat("</b>\nFile created"),
            MessageBody::FileWrited { path, content } => String::from_str("<b>").concat(
                path.as_str(),
            ).concat("</b>\n<pre>").concat(content.as_str()).concat("</pre>"),
            MessageBody::FileRemoved { path } => String::from_str("<b>").concat(
                path.as_str(),
            ).concat("</b>\nFile removed"),
            MessageBody::Raw { content } => content,
        }
    }
}

} // verus!
