use vstd::prelude::*;
use vstd::string::*;

use crate::text::{has_prefix, starts_with};

verus! {

/// The text of a message that carries a log line.
pub open spec fn log_text(level: Seq<char>, target: Seq<char>, args: Seq<char>) -> Seq<char> {
    "<b>"@ + level + "::"@ + target + "</b><pre>"@ + args + "</pre>"@
}

/// Whether log lines of the target are kept from the chat: those of the
/// HTTP and event-loop libraries that sending itself would produce.
pub open spec fn muted_target(target: Seq<char>) -> bool {
    has_prefix(target, "tokio_reactor"@) || has_prefix(target, "hyper"@) || has_prefix(
        target,
        "mio"@,
    ) || has_prefix(target, "want"@) || has_prefix(target, "reqwest"@)
}

/// The text that carries a log line: level and target in bold, the message
/// preformatted.
pub fn format_message(level: &str, target: &str, args: &str) -> (r: String)
    ensures
        r@ == log_text(level@, target@, args@),
{
    String::from_str("<b>").concat(level).concat("::").concat(target).concat("</b><pre>").concat(
        args,
    ).concat("</pre>")
}

/// Whether log lines of the target are kept from the chat.
pub fn is_muted_target(target: &str) -> (r: bool)
    ensures
        r == muted_target(target@),
{
    starts_with(target, "tokio_reactor") || starts_with(target, "hyper") || starts_with(
        target,
        "mio",
    ) || starts_with(target, "want") || starts_with(target, "reqwest")
}

} // verus!
