use vstd::prelude::*;
use vstd::string::*;

use crate::record::LogRecord;
use crate::text::{decimal, decimal_string};

verus! {

/// Settings of the counter source: the first number and the delay between
/// records in milliseconds.
pub struct CounterLogSourceConfig {
    pub initial: i64,
    pub interval: u64,
}

impl Default for CounterLogSourceConfig {
    fn default() -> (r: CounterLogSourceConfig)
        ensures
            r.initial == 1,
            r.interval == 10000,
    {
        CounterLogSourceConfig { initial: 1, interval: 10000 }
    }
}

/// The title of every counter record.
pub open spec fn counter_title() -> Seq<char> {
    "Counter log source"@
}

/// The body of the counter record numbered `n`.
pub open spec fn counter_body(n: int) -> Seq<char> {
    "It's "@ + decimal(n) + " record"@
}

/// A synthetic source that numbers its records.
pub struct CounterLogSource {
    records: i64,
    interval: u64,
}

impl CounterLogSource {
    /// The number that the next record carries.
    pub closed spec fn next_number(&self) -> i64 {
        self.records
    }

    /// The delay between records, in milliseconds.
    pub closed spec fn interval_ms(&self) -> u64 {
        self.interval
    }

    pub fn new(config: CounterLogSourceConfig) -> (r: CounterLogSource)
        ensures
            r.next_number() == config.initial,
            r.interval_ms() == config.interval,
    {
        CounterLogSource { records: config.initial, interval: config.interval }
    }

    /// The number that the next record carries.
    pub fn current(&self) -> (r: i64)
        ensures
            r == self.next_number(),
    {
        self.records
    }

    /// The delay between records, in milliseconds.
    pub fn interval(&self) -> (r: u64)
        ensures
            r == self.interval_ms(),
    {
        self.interval
    }

    /// The next record; the count then goes up by one.
    pub fn next_record(&mut self) -> (r: LogRecord)
        requires
            old(self).next_number() < i64::MAX,
        ensures
            r.title@ == counter_title(),
            r.body@ == counter_body(old(self).next_number() as int),
            final(self).next_number() == old(self).next_number() + 1,
            final(self).interval_ms() == old(self).interval_ms(),
    {
        let title = String::from_str("Counter log source");
        let number = decimal_string(self.records);
        let body = String::from_str("It's ").concat(number.as_str()).concat(" record");
        self.records = self.records + 1;
        LogRecord::new(title, body)
    }
}

} // verus!
