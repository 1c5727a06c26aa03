use vstd::prelude::*;

verus! {

/// The normalised unit of output: a short topic label and the content delta.
#[derive(Debug, PartialEq, Eq)]
pub struct LogRecord {
    pub title: String,
    pub body: String,
}

impl LogRecord {
    pub fn new(title: String, body: String) -> (r: LogRecord)
        ensures
            r.title@ == title@,
            r.body@ == body@,
    {
        LogRecord { title, body }
    }

    /// A record that carries a title and an empty body.
    pub fn only_title(title: String) -> (r: LogRecord)
        ensures
            r.title@ == title@,
            r.body@ == Seq::<char>::empty(),
    {
        LogRecord { title, body: String::new() }
    }
}

} // verus!
