use vstd::prelude::*;
use vstd::hash_map::StringHashMap;
use vstd::string::*;

use crate::record::LogRecord;

verus! {

/// What `String::from_utf8_lossy` decodes from the bytes.
pub uninterp spec fn utf8_lossy(bytes: Seq<u8>) -> Seq<char>;

/// Relies on String::from_utf8_lossy: valid UTF-8 is decoded, each invalid
/// sequence becomes U+FFFD; no bytes give the empty string.
#[verifier::external_body]
fn decode_lossy(bytes: &[u8]) -> (r: String)
    ensures
        r@ == utf8_lossy(bytes@),
        bytes@.len() == 0 ==> r@.len() == 0,
{
    String::from_utf8_lossy(bytes).to_string()
}

/// Settings of the filesystem source: the watcher's debounce interval in
/// milliseconds and the files and directories to watch.
pub struct FilesystemLogSourceConfig {
    pub delay: u64,
    pub entries: Vec<String>,
}

impl Default for FilesystemLogSourceConfig {
    fn default() -> (r: FilesystemLogSourceConfig)
        ensures
            r.delay == 1000,
            r.entries@.len() == 0,
    {
        FilesystemLogSourceConfig { delay: 1000, entries: Vec::new() }
    }
}

/// The table with `(path, length)` pairs recorded in order; a later pair for
/// a path overrides an earlier one.
pub open spec fn with_lengths(table: Map<Seq<char>, u64>, scanned: Seq<(String, u64)>) -> Map<
    Seq<char>,
    u64,
>
    decreases scanned.len(),
{
    if scanned.len() == 0 {
        table
    } else {
        with_lengths(table, scanned.drop_last()).insert(scanned.last().0@, scanned.last().1)
    }
}

/// Where to start reading `path` when its length is now `current_len`: at
/// the length already delivered, or at the start if the file has shrunk.
pub open spec fn read_start(table: Map<Seq<char>, u64>, path: Seq<char>, current_len: u64) -> u64 {
    let old_len: u64 = if table.contains_key(path) {
        table[path]
    } else {
        0
    };
    if current_len < old_len {
        0
    } else {
        old_len
    }
}

/// Remembers, for each file, how many bytes of it have been delivered, so
/// that only what was added since is read.
pub struct AdditionReader {
    sizes: StringHashMap<u64>,
}

impl View for AdditionReader {
    type V = Map<Seq<char>, u64>;

    closed spec fn view(&self) -> Map<Seq<char>, u64> {
        self.sizes@
    }
}

impl AdditionReader {
    fn record_lengths(&mut self, scanned: Vec<(String, u64)>)
        ensures
            final(self)@ == with_lengths(old(self)@, scanned@),
    {
        let ghost start = self@;
        let n = scanned.len();
        let mut rest = scanned;
        let mut pending: Vec<(String, u64)> = Vec::new();
        while rest.len() > 0
            invariant
                rest@ == scanned@.subrange(0, rest@.len() as int),
                pending@.len() + rest@.len() == n,
                n == scanned@.len(),
                forall|k: int|
                    0 <= k < pending@.len() ==> #[trigger] pending@[k] == scanned@[n - 1 - k],
            decreases rest@.len(),
        {
            match rest.pop() {
                Some(entry) => pending.push(entry),
                None => {},
            }
        }
        while pending.len() > 0
            invariant
                n == scanned@.len(),
                pending@.len() <= n,
                forall|k: int|
                    0 <= k < pending@.len() ==> #[trigger] pending@[k] == scanned@[n - 1 - k],
                self@ == with_lengths(start, scanned@.subrange(0, n - pending@.len())),
            decreases pending@.len(),
        {
            let ghost done = n - pending@.len();
            match pending.pop() {
                Some(entry) => {
                    assert(entry == scanned@[done]);
                    assert(scanned@.subrange(0, done + 1).drop_last() =~= scanned@.subrange(
                        0,
                        done,
                    ));
                    let (path, len) = entry;
                    self.sizes.insert(path, len);
                },
                None => {},
            }
        }
        assert(scanned@.subrange(0, n as int) =~= scanned@);
    }

    /// A table holding the lengths found by scanning the watched entries.
    pub fn new(scanned: Vec<(String, u64)>) -> (r: AdditionReader)
        ensures
            r@ == with_lengths(Map::empty(), scanned@),
    {
        let mut r = AdditionReader { sizes: StringHashMap::new() };
        r.record_lengths(scanned);
        r
    }

    /// Records the lengths found by scanning a created or renamed entry.
    pub fn scan(&mut self, scanned: Vec<(String, u64)>)
        ensures
            final(self)@ == with_lengths(old(self)@, scanned@),
    {
        self.record_lengths(scanned);
    }

    /// The offset from which `path`, now `current_len` bytes long, is read.
    pub fn read_offset(&self, path: &str, current_len: u64) -> (r: u64)
        ensures
            r == read_start(self@, path@, current_len),
    {
        let old_len: u64 = match self.sizes.get(path) {
            Some(len) => *len,
            None => 0,
        };
        if current_len < old_len {
            0
        } else {
            old_len
        }
    }

    /// Decodes the bytes read from the offset that `read_offset` gave, and
    /// records `current_len` as delivered.
    pub fn read_addition(&mut self, path: String, current_len: u64, content: &[u8]) -> (r: String)
        ensures
            r@ == utf8_lossy(content@),
            final(self)@ == old(self)@.insert(path@, current_len),
    {
        let addition = decode_lossy(content);
        self.sizes.insert(path, current_len);
        addition
    }
}

/// A change under a watched path, with paths written as text.
#[derive(Debug, PartialEq, Eq)]
pub enum FsEvent {
    Created { path: String },
    Writed { path: String, new_content: String },
    Removed { path: String },
    Renamed { from: String, to: String },
}

/// The title of the record for an event.
pub open spec fn event_title(e: FsEvent) -> Seq<char> {
    match e {
        FsEvent::Created { path } => path@ + " was created"@,
        FsEvent::Writed { path, new_content } => path@,
        FsEvent::Removed { path } => path@ + " was removed"@,
        FsEvent::Renamed { from, to } => from@ + " was renamed to "@ + to@,
    }
}

/// The body of the record for an event: the new content of a write, else
/// nothing.
pub open spec fn event_body(e: FsEvent) -> Seq<char> {
    match e {
        FsEvent::Writed { path, new_content } => new_content@,
        _ => Seq::empty(),
    }
}

/// What the watcher is to do after an event.
#[derive(Debug, PartialEq, Eq)]
pub enum WatchAction {
    /// Record the lengths of the files under the path.
    Scan { path: String },
    Watch { path: String },
    Unwatch { path: String },
}

/// A step of the watcher, as the contracts see it.
pub enum WatchStep {
    Scan(Seq<char>),
    Watch(Seq<char>),
    Unwatch(Seq<char>),
}

impl View for WatchAction {
    type V = WatchStep;

    open spec fn view(&self) -> WatchStep {
        match self {
            WatchAction::Scan { path } => WatchStep::Scan(path@),
            WatchAction::Watch { path } => WatchStep::Watch(path@),
            WatchAction::Unwatch { path } => WatchStep::Unwatch(path@),
        }
    }
}

/// The watcher's steps after an event.
pub open spec fn event_steps(e: FsEvent) -> Seq<WatchStep> {
    match e {
        FsEvent::Created { path } => seq![WatchStep::Scan(path@), WatchStep::Watch(path@)],
        FsEvent::Writed { .. } => Seq::empty(),
        FsEvent::Removed { path } => seq![WatchStep::Unwatch(path@)],
        FsEvent::Renamed { from, to } => seq![
            WatchStep::Scan(to@),
            WatchStep::Unwatch(from@),
            WatchStep::Watch(to@),
        ],
    }
}

impl FsEvent {
    /// The record announced for the event.
    pub fn into_record(self) -> (r: LogRecord)
        ensures
            r.title@ == event_title(self),
            r.body@ == event_body(self),
    {
        match self {
            FsEvent::Created { path } => LogRecord::only_title(path.concat(" was created")),
            FsEvent::Writed { path, new_content } => LogRecord::new(path, new_content),
            FsEvent::Removed { path } => LogRecord::only_title(path.concat(" was removed")),
            FsEvent::Renamed { from, to } => {
                let title = from.concat(" was renamed to ").concat(to.as_str());
                LogRecord::only_title(title)
            },
        }
    }

    /// How the set of watched paths follows the event: a created entry is
    /// scanned and watched, a removed one unwatched, and a renamed one scanned
    /// at its destination, unwatched at its source and watched at its
    /// destination, in that order.
    pub fn watch_actions(&self) -> (r: Vec<WatchAction>)
        ensures
            r@.map_values(|a: WatchAction| a@) == event_steps(*self),
    {
        let mut r: Vec<WatchAction> = Vec::new();
        match self {
            FsEvent::Created { path } => {
                r.push(WatchAction::Scan { path: path.clone() });
                r.push(WatchAction::Watch { path: path.clone() });
            },
            FsEvent::Writed { .. } => {},
            FsEvent::Removed { path } => {
                r.push(WatchAction::Unwatch { path: path.clone() });
            },
            FsEvent::Renamed { from, to } => {
                r.push(WatchAction::Scan { path: to.clone() });
                r.push(WatchAction::Unwatch { path: from.clone() });
                r.push(WatchAction::Watch { path: to.clone() });
            },
        }
        assert(r@.map_values(|a: WatchAction| a@) =~= event_steps(*self));
        r
    }
}

/// A file that has grown is read from where the last read ended, so only
/// the added bytes are delivered; a file that has shrunk below that point
/// (truncated or rotated) is read again from its start.
pub proof fn lemma_reads_only_additions(
    table: Map<Seq<char>, u64>,
    path: Seq<char>,
    delivered: u64,
    current_len: u64,
)
    ensures
        current_len >= delivered ==> read_start(table.insert(path, delivered), path, current_len)
            == delivered,
        current_len < delivered ==> read_start(table.insert(path, delivered), path, current_len)
            == 0,
{
}

} // verus!
