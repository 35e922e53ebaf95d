//! Log severities and the threshold a sink is configured with.

use vstd::prelude::*;

verus! {

/// How serious a log record is. `Error` is the most serious.
#[derive(Clone, Copy, Debug, PartialEq, Eq, Structural)]
pub enum Severity {
    Error,
    Warn,
    Info,
    Debug,
    Trace,
}

/// The least serious record that a sink still takes. `Off` takes none.
#[derive(Clone, Copy, Debug, PartialEq, Eq, Structural)]
pub enum Threshold {
    Off,
    Error,
    Warn,
    Info,
    Debug,
    Trace,
}

impl Severity {
    /// Position on the scale of the `log` crate: 1 for `Error` up to 5 for
    /// `Trace`.
    pub open spec fn rank(self) -> nat {
        match self {
            Severity::Error => 1,
            Severity::Warn => 2,
            Severity::Info => 3,
            Severity::Debug => 4,
            Severity::Trace => 5,
        }
    }

    /// Informational or more serious.
    pub open spec fn at_least_info(self) -> bool {
        self == Severity::Error || self == Severity::Warn || self == Severity::Info
    }
}

impl Threshold {
    /// Position on the same scale, with 0 for `Off`.
    pub open spec fn rank(self) -> nat {
        match self {
            Threshold::Off => 0,
            Threshold::Error => 1,
            Threshold::Warn => 2,
            Threshold::Info => 3,
            Threshold::Debug => 4,
            Threshold::Trace => 5,
        }
    }

    /// A record passes when it is at least as serious as the threshold.
    pub open spec fn admits(self, severity: Severity) -> bool {
        severity.rank() <= self.rank()
    }

    /// Whether a sink configured with this threshold takes a record of the
    /// given severity.
    pub fn lets_through(self, severity: Severity) -> (taken: bool)
        ensures
            taken == self.admits(severity),
    {
        level_within(severity, self)
    }
}

/// Compares with `<=` of `log::Level` against `log::LevelFilter`, which the
/// `log` crate defines as `<=` on the two discriminants: `Level` counts from 1
/// (`Error`) to 5 (`Trace`), `LevelFilter` from 0 (`Off`) to 5 (`Trace`).
#[verifier::external_body]
fn level_within(severity: Severity, threshold: Threshold) -> (within: bool)
    ensures
        within == (severity.rank() <= threshold.rank()),
{
    let level = match severity {
        Severity::Error => log::Level::Error,
        Severity::Warn => log::Level::Warn,
        Severity::Info => log::Level::Info,
        Severity::Debug => log::Level::Debug,
        Severity::Trace => log::Level::Trace,
    };
    level <= match threshold {
        Threshold::Off => log::LevelFilter::Off,
        Threshold::Error => log::LevelFilter::Error,
        Threshold::Warn => log::LevelFilter::Warn,
        Threshold::Info => log::LevelFilter::Info,
        Threshold::Debug => log::LevelFilter::Debug,
        Threshold::Trace => log::LevelFilter::Trace,
    }
}

/// Only the three most serious severities reach a sink set to `Info`.
pub proof fn lemma_info_threshold(severity: Severity)
    ensures
        Threshold::Info.admits(severity) == severity.at_least_info(),
        !Threshold::Off.admits(severity),
{
}

} // verus!
