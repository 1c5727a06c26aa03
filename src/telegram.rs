use vstd::prelude::*;
use vstd::string::*;

verus! {

/// How to reach the chat: the bot's token, the chat, and an optional proxy.
pub struct TelegramConfig {
    pub token: String,
    pub chat_id: String,
    pub proxy: Option<String>,
}

impl TelegramConfig {
    /// Settings for answering every chat with its identifier: no chat is set.
    pub fn for_echo_id(token: String, proxy: Option<String>) -> (r: TelegramConfig)
        ensures
            r.token@ == token@,
            r.chat_id@ == Seq::<char>::empty(),
            r.proxy == proxy,
    {
        let chat_id = String::new();
        TelegramConfig { token, chat_id, proxy }
    }
}

/// The envelope of an answer of the bot API.
pub struct Response<T> {
    pub ok: bool,
    pub description: Option<String>,
    pub result: Option<T>,
}

/// The error text of a failed answer.
pub open spec fn failure_text(description: Option<String>) -> Seq<char> {
    match description {
        Some(d) => d@,
        None => "no description"@,
    }
}

impl<T> Response<T> {
    /// The result of a successful answer, or the description of a failed one.
    pub fn into_result(self) -> (r: Result<Option<T>, String>)
        ensures
            self.ok ==> r == Ok::<Option<T>, String>(self.result),
            !self.ok ==> (r matches Err(e) && e@ == failure_text(self.description)),
    {
        if self.ok {
            Ok(self.result)
        } else {
            match self.description {
                Some(d) => Err(d),
                None => Err(String::from_str("no description")),
            }
        }
    }
}

/// The description that the API gave of a failure.
pub struct ApiError {
    pub description: String,
}

impl ApiError {
    /// The error of a failed answer: its description, or a placeholder.
    pub fn from_response<T>(response: Response<T>) -> (r: ApiError)
        ensures
            r.description@ == failure_text(response.description),
    {
        let description = match response.description {
            Some(d) => d,
            None => String::from_str("no description"),
        };
        ApiError { description }
    }
}

pub struct Chat {
    pub id: i64,
}

pub struct TelegramMessage {
    pub chat: Chat,
}

pub struct Update {
    pub update_id: i64,
    pub message: TelegramMessage,
}

} // verus!
