use vstd::prelude::*;
use vstd::string::*;

use crate::record::LogRecord;
use crate::text::{join, joined};

verus! {

/// The text of a message that shows a record: the title in bold and the body
/// as a code block.
pub open spec fn record_text(title: Seq<char>, body: Seq<char>) -> Seq<char> {
    "*"@ + title + "*```\n"@ + body + "```"@
}

/// The text of a message that reports an error.
pub open spec fn error_text(message: Seq<char>) -> Seq<char> {
    "Error: "@ + message
}

/// Whether the character has a meaning in the chat's markup.
pub open spec fn is_markup(c: char) -> bool {
    c == '.' || c == '_' || c == '*' || c == '<' || c == '>' || c == '-' || c == '{' || c == '}'
        || c == '(' || c == ')'
}

/// `s` with a backslash before each markup character.
pub open spec fn escaped(s: Seq<char>) -> Seq<char>
    decreases s.len(),
{
    if s.len() == 0 {
        Seq::empty()
    } else {
        escaped(s.drop_last()) + (if is_markup(s.last()) {
            seq!['\\', s.last()]
        } else {
            seq![s.last()]
        })
    }
}

/// The text that shows a record.
pub fn record(entry: &LogRecord) -> (r: String)
    ensures
        r@ == record_text(entry.title@, entry.body@),
{
    String::from_str("*").concat(entry.title.as_str()).concat("*```\n").concat(
        entry.body.as_str(),
    ).concat("```")
}

/// The text that reports an error with the given description.
pub fn error(message: &str) -> (r: String)
    ensures
        r@ == error_text(message@),
{
    String::from_str("Error: ").concat(message)
}

/// The text of a message that holds the accumulated lines of one title.
pub fn debounce(title: &str, body: &Vec<String>) -> (r: String)
    ensures
        r@ == record_text(title@, joined(body.deep_view(), "\n"@)),
{
    let lines = join(body, "\n");
    String::from_str("*").concat(title).concat("*```\n").concat(lines.as_str()).concat("```")
}

/// Puts a backslash before each character that the chat's markup reserves.
pub fn escape(text: &str) -> (r: String)
    ensures
        r@ == escaped(text@),
{
    let n = text.unicode_len();
    let mut out = String::new();
    let mut i: usize = 0;
    while i < n
        invariant
            n == text@.len(),
            i <= n,
            out@ == escaped(text@.subrange(0, i as int)),
        decreases n - i,
    {
        let c = text.get_char(i);
        assert(text@.subrange(0, i + 1).drop_last() =~= text@.subrange(0, i as int));
        let one = text.substring_char(i, i + 1);
        assert(one@ =~= seq![c]);
        if c == '.' || c == '_' || c == '*' || c == '<' || c == '>' || c == '-' || c == '{' || c
            == '}' || c == '(' || c == ')' {
            out.append("\\");
            proof {
                reveal_strlit("\\");
            }
        }
        out.append(one);
        assert(out@ =~= escaped(text@.subrange(0, i + 1)));
        i = i + 1;
    }
    assert(text@.subrange(0, n as int) =~= text@);
    out
}

/// The text that announces a record, its title and body escaped for the
/// chat's markup.
pub fn record_message(record: &LogRecord) -> (r: String)
    ensures
        r@ == record_text(escaped(record.title@), escaped(record.body@)),
{
    let title = escape(record.title.as_str());
    let body = escape(record.body.as_str());
    String::from_str("*").concat(title.as_str()).concat("*```\n").concat(body.as_str()).concat(
        "```",
    )
}

/// The lines with each escaped for the chat's markup.
pub open spec fn escaped_lines(lines: Seq<Seq<char>>) -> Seq<Seq<char>> {
    lines.map_values(|l: Seq<char>| escaped(l))
}

/// The text that shows the accumulated lines of one title, title and lines
/// escaped for the chat's markup.
pub fn debounce_message(title: &str, body: &Vec<String>) -> (r: String)
    ensures
        r@ == record_text(escaped(title@), joined(escaped_lines(body.deep_view()), "\n"@)),
{
    let mut lines: Vec<String> = Vec::new();
    let mut i: usize = 0;
    while i < body.len()
        invariant
            i <= body@.len(),
            lines.deep_view() == escaped_lines(body.deep_view().subrange(0, i as int)),
        decreases body@.len() - i,
    {
        let line = escape(body[i].as_str());
        let ghost before = lines.deep_view();
        lines.push(line);
        assert(lines.deep_view() =~= before.push(escaped(body@[i as int]@)));
        assert(body.deep_view()[i as int] == body@[i as int]@);
        assert(lines.deep_view() =~= escaped_lines(body.deep_view().subrange(0, i + 1)));
        i = i + 1;
    }
    assert(body.deep_view().subrange(0, body@.len() as int) =~= body.deep_view());
    let t = escape(title);
    debounce(t.as_str(), &lines)
}

/// The text that reports an error, its description escaped.
pub fn error_message(message: &str) -> (r: String)
    ensures
        r@ == "*Error:* "@ + escaped(message@),
{
    let text = escape(message);
    String::from_str("*Error:* ").concat(text.as_str())
}

/// The text that announces the start of the program on a host.
pub fn hello_message(version: &str, hostname: &str) -> (r: String)
    ensures
        r@ == "Logram "@ + escaped(version@) + " started at `"@ + escaped(hostname@) + "`"@,
{
    let v = escape(version);
    let h = escape(hostname);
    String::from_str("Logram ").concat(v.as_str()).concat(" started at `").concat(h.as_str()).concat(
        "`",
    )
}

/// Formatting a record is a function of its title and body alone: two
/// records with the same title and body read the same, however often their
/// text is derived.
pub proof fn lemma_record_text_stable(a: LogRecord, b: LogRecord)
    requires
        a.title@ == b.title@,
        a.body@ == b.body@,
    ensures
        record_text(a.title@, a.body@) == record_text(b.title@, b.body@),
{
}

} // verus!
