use vstd::prelude::*;

use crate::levels::{Level, MappedLevels};
use crate::writer::{ConsoleWriter, WriterState};

verus! {

/// Hands out one [`ConsoleWriter`] per event, at the tier that its table
/// maps the event's tier to.
#[derive(Clone, Copy, Debug)]
pub struct MakeConsoleWriter(MappedLevels);

impl View for MakeConsoleWriter {
    type V = MappedLevels;

    closed spec fn view(&self) -> MappedLevels {
        self.0
    }
}

impl MakeConsoleWriter {
    /// A factory that shows every tier at itself.
    pub fn new() -> (r: Self)
        ensures
            r@ == MappedLevels::identity(),
            forall|l: Level| r@.target(l) == l,
    {
        MakeConsoleWriter(MappedLevels::default())
    }

    /// A factory with the given table.
    pub fn from_mapped_levels(mapped_levels: MappedLevels) -> (r: Self)
        ensures
            r@ == mapped_levels,
    {
        MakeConsoleWriter(mapped_levels)
    }

    /// The table this factory maps tiers with.
    pub fn mapped_levels(&self) -> (r: MappedLevels)
        ensures
            r == self@,
    {
        self.0
    }

    /// Shows trace events at `level`.
    pub fn map_trace_level_to(self, level: Level) -> (r: Self)
        ensures
            r@ == self@.with_target(Level::Trace, level),
    {
        let mut m = self;
        m.0.set(Level::Trace, level);
        m
    }

    /// Shows debug events at `level`.
    pub fn map_debug_level_to(self, level: Level) -> (r: Self)
        ensures
            r@ == self@.with_target(Level::Debug, level),
    {
        let mut m = self;
        m.0.set(Level::Debug, level);
        m
    }

    /// Shows info events at `level`.
    pub fn map_info_level_to(self, level: Level) -> (r: Self)
        ensures
            r@ == self@.with_target(Level::Info, level),
    {
        let mut m = self;
        m.0.set(Level::Info, level);
        m
    }

    /// Shows warn events at `level`.
    pub fn map_warn_level_to(self, level: Level) -> (r: Self)
        ensures
            r@ == self@.with_target(Level::Warn, level),
    {
        let mut m = self;
        m.0.set(Level::Warn, level);
        m
    }

    /// Shows error events at `level`.
    pub fn map_error_level_to(self, level: Level) -> (r: Self)
        ensures
            r@ == self@.with_target(Level::Error, level),
    {
        let mut m = self;
        m.0.set(Level::Error, level);
        m
    }

    /// A fresh writer for an event of tier `level`: nothing gathered yet, and
    /// shown at the tier the table maps `level` to.
    pub fn make_writer_for(&self, level: Level) -> (r: ConsoleWriter)
        ensures
            r@ == (WriterState { level: self@.target(level), bytes: Seq::empty(), flushed: false }),
            r@.wf(),
    {
        ConsoleWriter::new(self.0.get(level))
    }
}

impl Default for MakeConsoleWriter {
    /// A factory that shows every tier at itself.
    fn default() -> (r: Self)
        ensures
            r@ == MappedLevels::identity(),
    {
        MakeConsoleWriter::new()
    }
}

impl From<MappedLevels> for MakeConsoleWriter {
    fn from(mapped_levels: MappedLevels) -> (r: Self)
        ensures
            r@ == mapped_levels,
    {
        MakeConsoleWriter::from_mapped_levels(mapped_levels)
    }
}

impl vstd::std_specs::convert::FromSpecImpl<MappedLevels> for MakeConsoleWriter {
    open spec fn obeys_from_spec() -> bool {
        true
    }

    closed spec fn from_spec(v: MappedLevels) -> Self {
        MakeConsoleWriter(v)
    }
}

} // verus!
