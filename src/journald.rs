use vstd::prelude::*;
use vstd::string::*;

use crate::record::LogRecord;
use crate::utils::{ansi_cropped, crop_ansi_codes, with_last};

verus! {

/// A title given to the journal entries whose fields hold every one of the
/// filter pairs.
pub struct MatchGroup {
    pub title: String,
    pub filters: Vec<(String, String)>,
}

/// Settings of the journal source: the match groups, in order of priority.
pub struct JournaldLogSourceConfig {
    pub matches: Vec<MatchGroup>,
}

impl Default for JournaldLogSourceConfig {
    fn default() -> (r: JournaldLogSourceConfig)
        ensures
            r.matches@.len() == 0,
    {
        JournaldLogSourceConfig { matches: Vec::new() }
    }
}

/// The value of the first field of `entry` named `key`.
pub open spec fn field_value(entry: Seq<(String, String)>, key: Seq<char>) -> Option<Seq<char>>
    decreases entry.len(),
{
    if entry.len() == 0 {
        None
    } else if entry[0].0@ == key {
        Some(entry[0].1@)
    } else {
        field_value(entry.drop_first(), key)
    }
}

/// Whether the entry holds every filter pair of the group.
pub open spec fn group_matches(group: MatchGroup, entry: Seq<(String, String)>) -> bool {
    forall|i: int|
        0 <= i < group.filters@.len() ==> field_value(entry, #[trigger] group.filters@[i].0@)
            == Some(group.filters@[i].1@)
}

/// The title of the first group that matches the entry, if any does.
pub open spec fn resolved_title(groups: Seq<MatchGroup>, entry: Seq<(String, String)>) -> Option<
    Seq<char>,
>
    decreases groups.len(),
{
    if groups.len() == 0 {
        None
    } else if group_matches(groups[0], entry) {
        Some(groups[0].title@)
    } else {
        resolved_title(groups.drop_first(), entry)
    }
}

/// The body of the record of an entry: its message without ANSI escapes.
pub open spec fn entry_body(entry: Seq<(String, String)>) -> Seq<char> {
    match field_value(entry, "MESSAGE"@) {
        Some(m) => ansi_cropped(m),
        None => "<unknown message>"@,
    }
}

/// The value of the first field of `entry` named `key`.
pub fn field<'a>(entry: &'a Vec<(String, String)>, key: &String) -> (r: Option<&'a String>)
    ensures
        match r {
            Some(v) => field_value(entry@, key@) == Some(v@),
            None => field_value(entry@, key@) is None,
        },
{
    let n = entry.len();
    let mut i: usize = 0;
    assert(entry@.subrange(0, n as int) =~= entry@);
    while i < n
        invariant
            n == entry@.len(),
            i <= n,
            field_value(entry@.subrange(i as int, n as int), key@) == field_value(entry@, key@),
        decreases n - i,
    {
        assert(entry@.subrange(i as int, n as int).drop_first() =~= entry@.subrange(
            i + 1,
            n as int,
        ));
        if entry[i].0 == *key {
            return Some(&entry[i].1);
        }
        i = i + 1;
    }
    None
}

/// Whether the entry holds every filter pair of the group.
pub fn matches_group(group: &MatchGroup, entry: &Vec<(String, String)>) -> (r: bool)
    ensures
        r == group_matches(*group, entry@),
{
    let mut i: usize = 0;
    while i < group.filters.len()
        invariant
            i <= group.filters@.len(),
            forall|k: int|
                0 <= k < i ==> field_value(entry@, #[trigger] group.filters@[k].0@) == Some(
                    group.filters@[k].1@,
                ),
        decreases group.filters@.len() - i,
    {
        let (key, value) = &group.filters[i];
        match field(entry, key) {
            Some(v) => {
                if *v != *value {
                    return false;
                }
            },
            None => {
                return false;
            },
        }
        i = i + 1;
    }
    true
}

/// The title of the first group, in configured order, that matches the entry.
pub fn find_title(groups: &Vec<MatchGroup>, entry: &Vec<(String, String)>) -> (r: Option<String>)
    ensures
        match r {
            Some(t) => resolved_title(groups@, entry@) == Some(t@),
            None => resolved_title(groups@, entry@) is None,
        },
{
    let n = groups.len();
    let mut i: usize = 0;
    assert(groups@.subrange(0, n as int) =~= groups@);
    while i < n
        invariant
            n == groups@.len(),
            i <= n,
            resolved_title(groups@.subrange(i as int, n as int), entry@) == resolved_title(
                groups@,
                entry@,
            ),
        decreases n - i,
    {
        assert(groups@.subrange(i as int, n as int).drop_first() =~= groups@.subrange(
            i + 1,
            n as int,
        ));
        if matches_group(&groups[i], entry) {
            return Some(groups[i].title.clone());
        }
        i = i + 1;
    }
    None
}

/// The record for a journal entry: titled by the first matching group, with
/// the message stripped of ANSI escapes; none for an entry that no group
/// matches.
pub fn map_entry(groups: &Vec<MatchGroup>, entry: &Vec<(String, String)>) -> (r: Option<LogRecord>)
    ensures
        match r {
            Some(rec) => resolved_title(groups@, entry@) == Some(rec.title@) && rec.body@
                == entry_body(entry@),
            None => resolved_title(groups@, entry@) is None,
        },
{
    match find_title(groups, entry) {
        None => None,
        Some(title) => {
            let key = String::from_str("MESSAGE");
            let body = match field(entry, &key) {
                Some(message) => crop_ansi_codes(message.as_str()),
                None => String::from_str("<unknown message>"),
            };
            Some(LogRecord::new(title, body))
        },
    }
}

/// Each entry is titled by the first configured group whose filters it
/// satisfies, and an entry that satisfies no group is titled by none (and so
/// yields no record).
pub proof fn lemma_first_matching_group_titles(groups: Seq<MatchGroup>, entry: Seq<(String, String)>)
    ensures
        resolved_title(groups, entry) is None <==> (forall|j: int|
            0 <= j < groups.len() ==> !group_matches(#[trigger] groups[j], entry)),
        forall|j: int|
            0 <= j < groups.len() && group_matches(#[trigger] groups[j], entry) && (forall|k: int|
                0 <= k < j ==> !group_matches(groups[k], entry)) ==> resolved_title(groups, entry)
                == Some(groups[j].title@),
    decreases groups.len(),
{
    if groups.len() > 0 {
        let rest = groups.drop_first();
        lemma_first_matching_group_titles(rest, entry);
        assert forall|j: int| 0 <= j < rest.len() implies #[trigger] rest[j] == groups[j + 1] by {}
        if !group_matches(groups[0], entry) {
            assert forall|j: int|
                0 <= j < groups.len() && group_matches(#[trigger] groups[j], entry) && (forall|k: int|
                    0 <= k < j ==> !group_matches(groups[k], entry)) implies resolved_title(
                groups,
                entry,
            ) == Some(groups[j].title@) by {
                assert(j > 0);
                assert(rest[j - 1] == groups[j]);
                assert forall|k: int| 0 <= k < j - 1 implies !group_matches(rest[k], entry) by {
                    assert(rest[k] == groups[k + 1]);
                }
            }
            if resolved_title(groups, entry) is None {
                assert forall|j: int| 0 <= j < groups.len() implies !group_matches(
                    #[trigger] groups[j],
                    entry,
                ) by {
                    if j > 0 {
                        assert(rest[j - 1] == groups[j]);
                    }
                }
            }
        } else {
            assert forall|j: int|
                0 <= j < groups.len() && group_matches(#[trigger] groups[j], entry) && (forall|k: int|
                    0 <= k < j ==> !group_matches(groups[k], entry)) implies resolved_title(
                groups,
                entry,
            ) == Some(groups[j].title@) by {
                assert(j == 0);
            }
        }
    }
}

/// A step of the journal's filter: add a field match, or start another
/// alternative.
#[derive(Debug, PartialEq, Eq)]
pub enum JournalMatch {
    Add { key: String, value: String },
    Or,
}

/// A step of the journal's filter, as the contracts see it.
pub enum MatchStep {
    Add(Seq<char>, Seq<char>),
    Or,
}

impl View for JournalMatch {
    type V = MatchStep;

    open spec fn view(&self) -> MatchStep {
        match self {
            JournalMatch::Add { key, value } => MatchStep::Add(key@, value@),
            JournalMatch::Or => MatchStep::Or,
        }
    }
}

/// The field matches of one group.
pub open spec fn group_steps(group: MatchGroup) -> Seq<MatchStep> {
    group.filters@.map_values(|f: (String, String)| MatchStep::Add(f.0@, f.1@))
}

/// The journal's filter for the groups: the matches within a group are
/// conjoined, and the groups are alternatives of one another.
pub open spec fn filter_plan(groups: Seq<MatchGroup>) -> Seq<MatchStep>
    decreases groups.len(),
{
    if groups.len() == 0 {
        Seq::empty()
    } else if groups.len() == 1 {
        group_steps(groups[0])
    } else {
        filter_plan(groups.drop_last()) + seq![MatchStep::Or] + group_steps(groups.last())
    }
}

fn push_group_steps(plan: &mut Vec<JournalMatch>, group: &MatchGroup)
    ensures
        final(plan)@.map_values(|m: JournalMatch| m@) == old(plan)@.map_values(
            |m: JournalMatch| m@,
        ) + group_steps(*group),
{
    let ghost start = plan@.map_values(|m: JournalMatch| m@);
    let mut i: usize = 0;
    while i < group.filters.len()
        invariant
            i <= group.filters@.len(),
            plan@.map_values(|m: JournalMatch| m@) == start + group_steps(*group).subrange(
                0,
                i as int,
            ),
        decreases group.filters@.len() - i,
    {
        let (key, value) = &group.filters[i];
        let ghost before = plan@;
        let step = JournalMatch::Add { key: key.clone(), value: value.clone() };
        assert(step@ == MatchStep::Add(key@, value@));
        plan.push(step);
        assert(group_steps(*group)[i as int] == MatchStep::Add(key@, value@));
        assert(plan@.map_values(|m: JournalMatch| m@) =~= before.map_values(|m: JournalMatch| m@).push(
            MatchStep::Add(key@, value@),
        ));
        assert(plan@.map_values(|m: JournalMatch| m@) =~= start + group_steps(*group).subrange(
            0,
            i + 1,
        ));
        i = i + 1;
    }
    assert(group_steps(*group).subrange(0, group.filters@.len() as int) =~= group_steps(*group));
}

/// The steps that install the groups' filter on the journal.
pub fn journal_matches(groups: &Vec<MatchGroup>) -> (r: Vec<JournalMatch>)
    ensures
        r@.map_values(|m: JournalMatch| m@) == filter_plan(groups@),
{
    let mut refs: Vec<&MatchGroup> = Vec::new();
    let mut j: usize = 0;
    while j < groups.len()
        invariant
            j <= groups@.len(),
            refs@.len() == j,
            forall|k: int| 0 <= k < j ==> *#[trigger] refs@[k] == groups@[k],
        decreases groups@.len() - j,
    {
        refs.push(&groups[j]);
        j = j + 1;
    }
    let tagged = with_last(refs);
    let n = tagged.len();
    let mut plan: Vec<JournalMatch> = Vec::new();
    let mut i: usize = 0;
    while i < n
        invariant
            n == tagged@.len(),
            n == groups@.len(),
            i <= n,
            forall|k: int|
                0 <= k < n ==> *(#[trigger] tagged@[k]).0 == groups@[k] && tagged@[k].1 == (k + 1
                    == n),
            i < n ==> plan@.map_values(|m: JournalMatch| m@) == (if i == 0 {
                Seq::empty()
            } else {
                filter_plan(groups@.subrange(0, i as int)) + seq![MatchStep::Or]
            }),
            i == n ==> plan@.map_values(|m: JournalMatch| m@) == filter_plan(groups@),
        decreases n - i,
    {
        let (group, is_last) = tagged[i];
        proof {
            let prefix = groups@.subrange(0, i + 1);
            assert(prefix.drop_last() =~= groups@.subrange(0, i as int));
            assert(prefix.last() == groups@[i as int]);
            if i == 0 {
                assert(filter_plan(prefix) == group_steps(groups@[0]));
            }
        }
        push_group_steps(&mut plan, group);
        if !is_last {
            plan.push(JournalMatch::Or);
        }
        proof {
            if i == 0 {
                assert(plan@.map_values(|m: JournalMatch| m@) =~= (if i + 1 < n {
                    filter_plan(groups@.subrange(0, i + 1)) + seq![MatchStep::Or]
                } else {
                    filter_plan(groups@.subrange(0, i + 1))
                }));
            } else {
                assert(plan@.map_values(|m: JournalMatch| m@) =~= (if i + 1 < n {
                    filter_plan(groups@.subrange(0, i + 1)) + seq![MatchStep::Or]
                } else {
                    filter_plan(groups@.subrange(0, i + 1))
                }));
            }
            if i + 1 == n {
                assert(groups@.subrange(0, i + 1) =~= groups@);
            }
        }
        i = i + 1;
    }
    plan
}

/// A journal entry reduced to its unit and its message.
pub struct JournaldEvent {
    pub unit: String,
    pub message: String,
}

impl JournaldEvent {
    /// The entry's `_SYSTEMD_UNIT` and its `MESSAGE` without ANSI escapes;
    /// a missing field reads as empty.
    pub fn from_fields(entry: &Vec<(String, String)>) -> (r: JournaldEvent)
        ensures
            r.unit@ == (match field_value(entry@, "_SYSTEMD_UNIT"@) {
                Some(u) => u,
                None => Seq::empty(),
            }),
            r.message@ == (match field_value(entry@, "MESSAGE"@) {
                Some(m) => ansi_cropped(m),
                None => Seq::empty(),
            }),
    {
        let unit_key = String::from_str("_SYSTEMD_UNIT");
        let message_key = String::from_str("MESSAGE");
        let unit = match field(entry, &unit_key) {
            Some(u) => u.clone(),
            None => String::new(),
        };
        let message = match field(entry, &message_key) {
            Some(m) => crop_ansi_codes(m.as_str()),
            None => String::new(),
        };
        JournaldEvent { unit, message }
    }

    /// The record titled by the unit, with the message as body.
    pub fn into_record(self) -> (r: LogRecord)
        ensures
            r.title@ == self.unit@,
            r.body@ == self.message@,
    {
        LogRecord::new(self.unit, self.message)
    }
}

} // verus!
