use vstd::prelude::*;

use crate::counter::CounterLogSourceConfig;
use crate::docker::DockerLogSourceConfig;
use crate::filesystem::FilesystemLogSourceConfig;
use crate::journald::JournaldLogSourceConfig;

verus! {

/// Whether a source is on when its settings do not say: it is off.
pub fn default_enabled() -> (r: bool)
    ensures
        !r,
{
    false
}

/// A source's settings and whether it is on.
pub struct LogSourceConfig<T> {
    pub enabled: bool,
    pub inner: T,
}

/// The settings of every kind of source.
pub struct LogSourcesConfig {
    pub counter: LogSourceConfig<CounterLogSourceConfig>,
    pub filesystem: LogSourceConfig<FilesystemLogSourceConfig>,
    pub journald: LogSourceConfig<JournaldLogSourceConfig>,
    pub docker: LogSourceConfig<DockerLogSourceConfig>,
}

impl Default for LogSourcesConfig {
    /// Every source off, each with its default settings.
    fn default() -> (r: LogSourcesConfig)
        ensures
            !r.counter.enabled && !r.filesystem.enabled && !r.journald.enabled && !r.docker.enabled,
    {
        LogSourcesConfig {
            counter: LogSourceConfig { enabled: default_enabled(), inner: CounterLogSourceConfig::default() },
            filesystem: LogSourceConfig {
                enabled: default_enabled(),
                inner: FilesystemLogSourceConfig::default(),
            },
            journald: LogSourceConfig {
                enabled: default_enabled(),
                inner: JournaldLogSourceConfig::default(),
            },
            docker: LogSourceConfig { enabled: default_enabled(), inner: DockerLogSourceConfig::default() },
        }
    }
}

/// The kinds of source whose streams are merged.
#[derive(Debug, PartialEq, Eq, Structural, Clone, Copy)]
pub enum SourceKind {
    Counter,
    Filesystem,
    Journald,
    Docker,
}

pub open spec fn kind_if(on: bool, kind: SourceKind) -> Seq<SourceKind> {
    if on {
        seq![kind]
    } else {
        Seq::empty()
    }
}

/// The sources that are started, in a fixed order; a source that is off is
/// neither built nor started.
pub open spec fn started_kinds(config: LogSourcesConfig) -> Seq<SourceKind> {
    kind_if(config.counter.enabled, SourceKind::Counter) + kind_if(
        config.filesystem.enabled,
        SourceKind::Filesystem,
    ) + kind_if(config.journald.enabled, SourceKind::Journald) + kind_if(
        config.docker.enabled,
        SourceKind::Docker,
    )
}

/// The sources to start and merge into one stream.
pub fn enabled_sources(config: &LogSourcesConfig) -> (r: Vec<SourceKind>)
    ensures
        r@ == started_kinds(*config),
{
    let mut r: Vec<SourceKind> = Vec::new();
    if config.counter.enabled {
        r.push(SourceKind::Counter);
    }
    if config.filesystem.enabled {
        r.push(SourceKind::Filesystem);
    }
    if config.journald.enabled {
        r.push(SourceKind::Journald);
    }
    if config.docker.enabled {
        r.push(SourceKind::Docker);
    }
    assert(r@ =~= started_kinds(*config));
    r
}

/// With no source on, nothing is started: the merged stream is empty and
/// stays idle, which is no error.
pub proof fn lemma_no_sources_nothing_started(config: LogSourcesConfig)
    requires
        !config.counter.enabled,
        !config.filesystem.enabled,
        !config.journald.enabled,
        !config.docker.enabled,
    ensures
        started_kinds(config).len() == 0,
{
    assert(started_kinds(config) =~= Seq::<SourceKind>::empty());
}

/// Each source that is on is started exactly once, and no other.
pub proof fn lemma_started_iff_enabled(config: LogSourcesConfig)
    ensures
        started_kinds(config).contains(SourceKind::Counter) == config.counter.enabled,
        started_kinds(config).contains(SourceKind::Filesystem) == config.filesystem.enabled,
        started_kinds(config).contains(SourceKind::Journald) == config.journald.enabled,
        started_kinds(config).contains(SourceKind::Docker) == config.docker.enabled,
        started_kinds(config).no_duplicates(),
{
    let s = started_kinds(config);
    let a = kind_if(config.counter.enabled, SourceKind::Counter);
    let b = kind_if(config.filesystem.enabled, SourceKind::Filesystem);
    let c = kind_if(config.journald.enabled, SourceKind::Journald);
    let d = kind_if(config.docker.enabled, SourceKind::Docker);
    assert(s == a + b + c + d);
    if config.counter.enabled {
        assert((a + b + c + d)[0] == SourceKind::Counter);
    }
    if config.filesystem.enabled {
        assert((a + b + c + d)[a.len() as int] == SourceKind::Filesystem);
    }
    if config.journald.enabled {
        assert((a + b + c + d)[(a.len() + b.len()) as int] == SourceKind::Journald);
    }
    if config.docker.enabled {
        assert((a + b + c + d)[(a.len() + b.len() + c.len()) as int] == SourceKind::Docker);
    }
    assert forall|i: int| 0 <= i < s.len() implies (#[trigger] s[i] == SourceKind::Counter
        ==> config.counter.enabled) && (s[i] == SourceKind::Filesystem ==> config.filesystem.enabled)
        && (s[i] == SourceKind::Journald ==> config.journald.enabled) && (s[i]
        == SourceKind::Docker ==> config.docker.enabled) by {
        if i < a.len() {
            assert(s[i] == a[i]);
        } else if i < a.len() + b.len() {
            assert(s[i] == b[i - a.len()]);
        } else if i < a.len() + b.len() + c.len() {
            assert(s[i] == c[i - a.len() - b.len()]);
        } else {
            assert(s[i] == d[i - a.len() - b.len() - c.len()]);
        }
    }
    assert forall|i: int, j: int| 0 <= i < s.len() && 0 <= j < s.len() && i != j implies s[i]
        != s[j] by {
        let ai = if i < a.len() {
            0int
        } else if i < a.len() + b.len() {
            1int
        } else if i < a.len() + b.len() + c.len() {
            2int
        } else {
            3int
        };
        let aj = if j < a.len() {
            0int
        } else if j < a.len() + b.len() {
            1int
        } else if j < a.len() + b.len() + c.len() {
            2int
        } else {
            3int
        };
        if i < a.len() {
            assert(s[i] == SourceKind::Counter);
        } else if i < a.len() + b.len() {
            assert(s[i] == SourceKind::Filesystem);
        } else if i < a.len() + b.len() + c.len() {
            assert(s[i] == SourceKind::Journald);
        } else {
            assert(s[i] == SourceKind::Docker);
        }
        if j < a.len() {
            assert(s[j] == SourceKind::Counter);
        } else if j < a.len() + b.len() {
            assert(s[j] == SourceKind::Filesystem);
        } else if j < a.len() + b.len() + c.len() {
            assert(s[j] == SourceKind::Journald);
        } else {
            assert(s[j] == SourceKind::Docker);
        }
        assert(ai != aj);
    }
}

} // verus!
