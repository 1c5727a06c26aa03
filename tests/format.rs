use logram::chat::{echo_line, echo_reply, extract_message, ChatInfo, ChatKind, ChatType};
use logram::format::{
    debounce, debounce_message, error, error_message, escape, hello_message, record, record_message,
};
use logram::logger::{format_message, is_muted_target};
use logram::message::{replace_html_entities, Message, MessageBody};
use logram::telegram::{ApiError, Response, TelegramConfig};
use logram::record::LogRecord;

#[test]
fn error_fmt() {
    let text = error("oh no");

    assert_eq!(text, "Error: oh no");
}

#[test]
fn record_fmt() {
    let record_value = LogRecord {
        title: String::from("wow title"),
        body: String::from("such body"),
    };
    let text = record(&record_value);

    assert_eq!(text, "*wow title*```\nsuch body```");
}

#[test]
fn record_text_is_stable() {
    let a = LogRecord::new(String::from("t"), String::from("b"));
    let b = LogRecord::new(String::from("t"), String::from("b"));
    assert_eq!(record(&a), record(&a));
    assert_eq!(record(&a), record(&b));
}

#[test]
fn debounce_fmt_joins_lines() {
    let lines = vec![String::from("one"), String::from("two")];
    assert_eq!(debounce("a", &lines), "*a*```\none\ntwo```");
    assert_eq!(debounce("a", &Vec::new()), "*a*```\n```");
}

#[test]
fn escape_marks_markup() {
    assert_eq!(escape("a.b_c*d<e>f-g{h}i(j)"), "a\\.b\\_c\\*d\\<e\\>f\\-g\\{h\\}i\\(j\\)");
    assert_eq!(escape("plain"), "plain");
    assert_eq!(escape(""), "");
}

#[test]
fn record_message_escapes() {
    let r = LogRecord::new(String::from("a.log"), String::from("x-y"));
    assert_eq!(record_message(&r), "*a\\.log*```\nx\\-y```");
}

#[test]
fn error_and_hello_messages() {
    assert_eq!(error_message("bad (1)"), "*Error:* bad \\(1\\)");
    assert_eq!(hello_message("2.0.0", "my-host"), "Logram 2\\.0\\.0 started at `my\\-host`");
}

#[test]
fn html_entities_replaced_in_order() {
    assert_eq!(replace_html_entities(&String::from("a<b")), "a&amp;lt;b");
    assert_eq!(replace_html_entities(&String::from("x>y&z")), "x&amp;gt;y&amp;z");
    assert_eq!(replace_html_entities(&String::from("plain")), "plain");
}

#[test]
fn message_bodies_are_html() {
    let written = MessageBody::FileWrited {
        path: String::from("/var/log/a<b>"),
        content: String::from("x & y"),
    };
    assert_eq!(written.text(), "<b>/var/log/a&amp;lt;b&amp;gt;</b>\n<pre>x &amp; y</pre>");
    assert_eq!(MessageBody::Started.text(), "<b>Started</b>");
    assert_eq!(
        MessageBody::Error { content: String::from("<e>") }.text(),
        "Error: <pre>&amp;lt;e&amp;gt;</pre>\nLogram stopped"
    );
    assert_eq!(MessageBody::FileCreated { path: String::from("/f") }.text(), "<b>/f</b>\nFile created");
    assert_eq!(MessageBody::FileRemoved { path: String::from("/f") }.text(), "<b>/f</b>\nFile removed");
    let raw = Message { chat: Some(5), body: MessageBody::Raw { content: String::from("<i>") } };
    assert_eq!(raw.body.text(), "<i>");
    assert_eq!(raw.chat, Some(5));
}

#[test]
fn api_responses() {
    let ok: Response<u8> = Response { ok: true, description: None, result: Some(3) };
    assert_eq!(ok.into_result(), Ok(Some(3)));
    let failed: Response<u8> = Response {
        ok: false,
        description: Some(String::from("chat not found")),
        result: None,
    };
    assert_eq!(failed.into_result(), Err(String::from("chat not found")));
    let bare: Response<u8> = Response { ok: false, description: None, result: None };
    assert_eq!(ApiError::from_response(bare).description, "no description");
}

#[test]
fn echo_id_settings_have_no_chat() {
    let config = TelegramConfig::for_echo_id(String::from("SECRET"), None);
    assert_eq!(config.token, "SECRET");
    assert_eq!(config.chat_id, "");
    assert_eq!(config.proxy, None);
}

#[test]
fn debounce_message_escapes_title_and_lines() {
    let lines = vec![String::from("a.b"), String::from("(c)")];
    assert_eq!(debounce_message("x_y", &lines), "*x\\_y*```\na\\.b\n\\(c\\)```");
}

#[test]
fn log_lines_and_muted_targets() {
    assert_eq!(format_message("INFO", "app", "hi"), "<b>INFO::app</b><pre>hi</pre>");
    assert!(is_muted_target("hyper::proto"));
    assert!(is_muted_target("reqwest"));
    assert!(!is_muted_target("logram"));
}

#[test]
fn chat_descriptions_for_echo_mode() {
    let private = ChatInfo { id: 42, kind: ChatKind::Private { username: Some(String::from("bob")) } };
    let d = extract_message(&None, &private);
    assert_eq!(d.chat_type, ChatType::Private);
    assert_eq!(echo_line(&d), "The ID of chat with @bob: 42");

    let group = ChatInfo { id: -100, kind: ChatKind::Public { title: None, channel: false } };
    let d = extract_message(&None, &group);
    assert_eq!(echo_line(&d), "The chat ID of group \"<unknown>\": -100");

    let channel = ChatInfo {
        id: -1001,
        kind: ChatKind::Public { title: Some(String::from("news")), channel: true },
    };
    let d = extract_message(&Some(channel), &private);
    assert_eq!(d.chat_type, ChatType::Channel);
    assert_eq!(d.id, -1001);
    assert_eq!(echo_line(&d), "The chat ID of channel \"news\": -1001");
    assert_eq!(echo_reply(d.id), "Chat ID: `-1001`");
}
