//! The plugins of the shell and the build profile that selects them.

use vstd::prelude::*;
use crate::severity::{Severity, Threshold};

verus! {

/// The profile the binary was built with.
#[derive(Clone, Copy, Debug, PartialEq, Eq, Structural)]
pub enum BuildProfile {
    Debug,
    Release,
}

/// An auxiliary module installed into the application.
#[derive(Clone, Copy, Debug, PartialEq, Eq, Structural)]
pub enum Plugin {
    /// Opens URLs and file paths with the system's default handler.
    Opener,
    /// Routes native log records at or above the threshold to its sinks.
    Logger(Threshold),
}

/// The plugins of a build, in the order in which they are installed: the
/// opener always, then a logger at `Info` in a debug build only.
pub open spec fn planned(profile: BuildProfile) -> Seq<Plugin> {
    match profile {
        BuildProfile::Debug => seq![Plugin::Opener, Plugin::Logger(Threshold::Info)],
        BuildProfile::Release => seq![Plugin::Opener],
    }
}

/// Whether some logger among `plugins` takes a record of this severity.
/// Without a logger every record is discarded.
pub open spec fn delivered(plugins: Seq<Plugin>, severity: Severity) -> bool {
    exists|i: int|
        0 <= i < plugins.len() && (#[trigger] plugins[i] matches Plugin::Logger(t)
            && t.admits(severity))
}

impl BuildProfile {
    /// The profile for a build with or without development assertions.
    pub fn of_debug_flag(debug: bool) -> (profile: BuildProfile)
        ensures
            profile == (if debug {
                BuildProfile::Debug
            } else {
                BuildProfile::Release
            }),
    {
        if debug {
            BuildProfile::Debug
        } else {
            BuildProfile::Release
        }
    }

    /// The plugins to install for this build, in installation order.
    pub fn plan(self) -> (plugins: Vec<Plugin>)
        ensures
            plugins@ == planned(self),
    {
        let mut plugins: Vec<Plugin> = Vec::new();
        plugins.push(Plugin::Opener);
        match self {
            BuildProfile::Debug => {
                plugins.push(Plugin::Logger(Threshold::Info));
            },
            BuildProfile::Release => {},
        }
        assert(plugins@ =~= planned(self));
        plugins
    }

    /// The plugin installed at position `index`, if the plan is that long.
    pub fn plugin_at(self, index: usize) -> (plugin: Option<Plugin>)
        ensures
            plugin == (if index < planned(self).len() {
                Some(planned(self)[index as int])
            } else {
                None
            }),
    {
        if index == 0 {
            Some(Plugin::Opener)
        } else if index == 1 {
            match self {
                BuildProfile::Debug => Some(Plugin::Logger(Threshold::Info)),
                BuildProfile::Release => None,
            }
        } else {
            None
        }
    }

    /// Whether a native log record of this severity reaches a sink once the
    /// planned plugins are installed.
    pub fn emits(self, severity: Severity) -> (emitted: bool)
        ensures
            emitted == (self == BuildProfile::Debug && severity.at_least_info()),
    {
        let plugins = self.plan();
        proof {
            lemma_logging_follows_profile(self, severity);
        }
        delivers(&plugins, severity)
    }
}

/// Whether a record of this severity reaches a sink of one of the installed
/// plugins.
pub fn delivers(plugins: &Vec<Plugin>, severity: Severity) -> (reached: bool)
    ensures
        reached == delivered(plugins@, severity),
{
    let mut i: usize = 0;
    while i < plugins.len()
        invariant
            i <= plugins.len(),
            forall|j: int|
                0 <= j < i ==> !(#[trigger] plugins@[j] matches Plugin::Logger(t) && t.admits(
                    severity,
                )),
        decreases plugins.len() - i,
    {
        match plugins[i] {
            Plugin::Logger(threshold) => {
                if threshold.lets_through(severity) {
                    return true;
                }
            },
            Plugin::Opener => {},
        }
        i += 1;
    }
    false
}

/// The opener is planned for every build, and first.
pub proof fn lemma_opener_always_planned(profile: BuildProfile)
    ensures
        planned(profile).len() >= 1,
        planned(profile)[0] == Plugin::Opener,
        planned(profile).contains(Plugin::Opener),
{
    assert(planned(profile)[0] == Plugin::Opener);
}

/// With the planned plugins installed, a record is emitted exactly when the
/// build is a debug build and the record is informational or more serious.
pub proof fn lemma_logging_follows_profile(profile: BuildProfile, severity: Severity)
    ensures
        delivered(planned(profile), severity) == (profile == BuildProfile::Debug
            && severity.at_least_info()),
{
    let plugins = planned(profile);
    if profile == BuildProfile::Debug && severity.at_least_info() {
        assert(plugins[1] == Plugin::Logger(Threshold::Info));
        assert(Threshold::Info.admits(severity));
    }
}

} // verus!
