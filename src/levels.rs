use vstd::prelude::*;

verus! {

/// A severity tier, from the most verbose to the most severe.
#[derive(Clone, Copy, Debug, PartialEq, Eq, Structural, Hash)]
pub enum Level {
    /// The most verbose tier.
    Trace,
    /// Detail useful while debugging.
    Debug,
    /// Ordinary information.
    Info,
    /// Something that may need attention.
    Warn,
    /// A failure.
    Error,
}

/// For each severity tier of an event, the tier it is shown at in the console.
#[derive(Clone, Copy, Debug, PartialEq, Eq, Structural)]
pub struct MappedLevels {
    /// The tier that trace events are shown at.
    pub trace: Level,
    /// The tier that debug events are shown at.
    pub debug: Level,
    /// The tier that info events are shown at.
    pub info: Level,
    /// The tier that warn events are shown at.
    pub warn: Level,
    /// The tier that error events are shown at.
    pub error: Level,
}

impl MappedLevels {
    /// The table that shows every tier at itself.
    pub open spec fn identity() -> MappedLevels {
        MappedLevels {
            trace: Level::Trace,
            debug: Level::Debug,
            info: Level::Info,
            warn: Level::Warn,
            error: Level::Error,
        }
    }

    /// The tier that events of tier `from` are shown at.
    pub open spec fn target(self, from: Level) -> Level {
        match from {
            Level::Trace => self.trace,
            Level::Debug => self.debug,
            Level::Info => self.info,
            Level::Warn => self.warn,
            Level::Error => self.error,
        }
    }

    /// This table with tier `from` sent to `to` and every other tier kept.
    pub open spec fn with_target(self, from: Level, to: Level) -> MappedLevels {
        match from {
            Level::Trace => MappedLevels { trace: to, ..self },
            Level::Debug => MappedLevels { debug: to, ..self },
            Level::Info => MappedLevels { info: to, ..self },
            Level::Warn => MappedLevels { warn: to, ..self },
            Level::Error => MappedLevels { error: to, ..self },
        }
    }

    /// The tier that events of tier `from` are shown at.
    pub fn get(&self, from: Level) -> (r: Level)
        ensures
            r == self.target(from),
    {
        match from {
            Level::Trace => self.trace,
            Level::Debug => self.debug,
            Level::Info => self.info,
            Level::Warn => self.warn,
            Level::Error => self.error,
        }
    }

    /// Sends tier `from` to `to`, keeping the other tiers.
    pub fn set(&mut self, from: Level, to: Level)
        ensures
            *final(self) == old(self).with_target(from, to),
    {
        match from {
            Level::Trace => self.trace = to,
            Level::Debug => self.debug = to,
            Level::Info => self.info = to,
            Level::Warn => self.warn = to,
            Level::Error => self.error = to,
        }
    }
}

impl Default for MappedLevels {
    /// The table that shows every tier at itself.
    fn default() -> (r: Self)
        ensures
            r == MappedLevels::identity(),
            forall|l: Level| r.target(l) == l,
    {
        MappedLevels {
            trace: Level::Trace,
            debug: Level::Debug,
            info: Level::Info,
            warn: Level::Warn,
            error: Level::Error,
        }
    }
}

/// A table that was never changed shows every tier at itself.
pub proof fn lemma_identity_keeps_each_tier(l: Level)
    ensures
        MappedLevels::identity().target(l) == l,
{
}

/// Sending one tier elsewhere changes what that tier is shown at, and
/// nothing else.
pub proof fn lemma_override_is_local(m: MappedLevels, from: Level, to: Level, other: Level)
    ensures
        m.with_target(from, to).target(from) == to,
        other != from ==> m.with_target(from, to).target(other) == m.target(other),
{
}

} // verus!
