use vstd::prelude::*;
use vstd::string::*;

use crate::record::LogRecord;
use crate::text::{trim_end_char, trim_start_char, trimmed_end, trimmed_start};

verus! {

/// How to reach the container runtime.
#[derive(Debug, PartialEq, Eq, Structural, Clone, Copy)]
pub enum Transport {
    Local,
    Unix,
    Http,
}

/// Settings of the container source: transport, address, and a timeout in
/// seconds.
pub struct DockerLogSourceConfig {
    pub transport: Transport,
    pub addr: String,
    pub timeout: u64,
}

impl Default for DockerLogSourceConfig {
    fn default() -> (r: DockerLogSourceConfig)
        ensures
            r.transport == Transport::Local,
            r.addr@ == "unix:///var/run/docker.sock"@,
            r.timeout == 120,
    {
        DockerLogSourceConfig {
            transport: Transport::Local,
            addr: String::from_str("unix:///var/run/docker.sock"),
            timeout: 120,
        }
    }
}

/// What the runtime reports of a container when listing them.
pub struct ContainerSummary {
    pub state: Option<String>,
    pub names: Option<Vec<String>>,
}

/// What the runtime reports of one of its events.
pub struct ContainerEvent {
    pub typ: Option<String>,
    pub action: Option<String>,
    /// The `name` attribute of the event's actor.
    pub name: Option<String>,
}

pub open spec fn is_running(c: ContainerSummary) -> bool {
    c.state matches Some(s) && s@ == "running"@
}

/// The name under which a container is tailed: its first name without the
/// leading slashes, if it is running and has a name.
pub open spec fn tailed_name(c: ContainerSummary) -> Option<Seq<char>> {
    if is_running(c) && (c.names matches Some(names) && names@.len() > 0) {
        Some(trimmed_start(c.names->0@[0]@, '/'))
    } else {
        None
    }
}

/// The names of the running containers, in the order listed.
pub open spec fn running_names(cs: Seq<ContainerSummary>) -> Seq<Seq<char>>
    decreases cs.len(),
{
    if cs.len() == 0 {
        Seq::empty()
    } else {
        running_names(cs.drop_last()) + match tailed_name(cs.last()) {
            Some(n) => seq![n],
            None => Seq::empty(),
        }
    }
}

/// The container that an event reports as started, if it is such an event.
pub open spec fn started_name(e: ContainerEvent) -> Option<Seq<char>> {
    if (e.typ matches Some(t) && t@ == "container"@) && (e.action matches Some(a) && a@
        == "start"@) {
        match e.name {
            Some(n) => Some(n@),
            None => None,
        }
    } else {
        None
    }
}

fn is_some_text(value: &Option<String>, text: &str) -> (r: bool)
    ensures
        r == (value matches Some(s) && s@ == text@),
{
    match value {
        Some(s) => *s == String::from_str(text),
        None => false,
    }
}

/// The names of the running containers, without their leading slashes.
pub fn running_container_names(containers: &Vec<ContainerSummary>) -> (r: Vec<String>)
    ensures
        r.deep_view() == running_names(containers@),
{
    let mut out: Vec<String> = Vec::new();
    let mut i: usize = 0;
    while i < containers.len()
        invariant
            i <= containers@.len(),
            out.deep_view() == running_names(containers@.subrange(0, i as int)),
        decreases containers@.len() - i,
    {
        let c = &containers[i];
        assert(containers@.subrange(0, i + 1).drop_last() =~= containers@.subrange(0, i as int));
        let ghost before = out.deep_view();
        if is_some_text(&c.state, "running") {
            match &c.names {
                Some(names) => {
                    if names.len() > 0 {
                        let name = trim_start_char(names[0].as_str(), '/');
                        out.push(name);
                        assert(out.deep_view() =~= before.push(trimmed_start(names@[0]@, '/')));
                    }
                },
                None => {},
            }
        }
        assert(out.deep_view() =~= running_names(containers@.subrange(0, i + 1)));
        i = i + 1;
    }
    assert(containers@.subrange(0, containers@.len() as int) =~= containers@);
    out
}

/// The name of the container that the event reports as started.
pub fn started_container(event: &ContainerEvent) -> (r: Option<String>)
    ensures
        match r {
            Some(n) => started_name(*event) == Some(n@),
            None => started_name(*event) is None,
        },
{
    if is_some_text(&event.typ, "container") && is_some_text(&event.action, "start") {
        match &event.name {
            Some(n) => Some(n.clone()),
            None => None,
        }
    } else {
        None
    }
}

/// The record of one log line of a container: titled by the container, the
/// line without its trailing newlines.
pub fn entry_to_record(name: &str, line: &str) -> (r: LogRecord)
    ensures
        r.title@ == name@ + " container"@,
        r.body@ == trimmed_end(line@, '\n'),
{
    let title = String::from_str(name).concat(" container");
    let body = trim_end_char(line, '\n');
    LogRecord::new(title, body)
}

} // verus!
