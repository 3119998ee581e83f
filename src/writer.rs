use vstd::prelude::*;
use vstd::utf8::{decode_utf8, valid_utf8};

use crate::levels::{Level, MappedLevels};
use crate::text::decode_text;

verus! {

/// One of the host console's logging operations.
#[derive(Clone, Copy, Debug, PartialEq, Eq, Structural, Hash)]
pub enum ConsoleMethod {
    /// `console.trace`, which also shows the caller's stack.
    Trace,
    /// `console.debug`.
    Debug,
    /// `console.log`.
    Log,
    /// `console.warn`.
    Warn,
    /// `console.error`.
    Error,
}

impl Level {
    /// The console operation that shows events of this tier.
    pub open spec fn spec_console_method(self) -> ConsoleMethod {
        match self {
            Level::Trace => ConsoleMethod::Trace,
            Level::Debug => ConsoleMethod::Debug,
            Level::Info => ConsoleMethod::Log,
            Level::Warn => ConsoleMethod::Warn,
            Level::Error => ConsoleMethod::Error,
        }
    }

    /// The console operation that shows events of this tier.
    pub fn console_method(self) -> (r: ConsoleMethod)
        ensures
            r == self.spec_console_method(),
    {
        match self {
            Level::Trace => ConsoleMethod::Trace,
            Level::Debug => ConsoleMethod::Debug,
            Level::Info => ConsoleMethod::Log,
            Level::Warn => ConsoleMethod::Warn,
            Level::Error => ConsoleMethod::Error,
        }
    }
}

/// Each tier has a console operation of its own: two different tiers are
/// never shown with the same operation.
pub proof fn lemma_console_method_per_tier(a: Level, b: Level)
    ensures
        a != b ==> a.spec_console_method() != b.spec_console_method(),
{
}

/// What a console call is, as a mathematical value.
pub struct Emission {
    /// The logging operation called.
    pub method: ConsoleMethod,
    /// The characters of the text handed to it.
    pub text: Seq<char>,
}

/// One call that the host console is to make: an operation and its text.
#[derive(Debug)]
pub struct ConsoleCall {
    /// The logging operation to call.
    pub method: ConsoleMethod,
    /// The single string handed to it.
    pub text: String,
}

impl View for ConsoleCall {
    type V = Emission;

    open spec fn view(&self) -> Emission {
        Emission { method: self.method, text: self.text@ }
    }
}

/// The reason a flush emitted nothing.
#[derive(Clone, Copy, Debug, PartialEq, Eq, Structural)]
pub enum FlushError {
    /// The gathered bytes are not well-formed UTF-8.
    InvalidData,
}

/// The state of a [`ConsoleWriter`] as a mathematical value.
pub struct WriterState {
    /// The tier the event is shown at, already mapped.
    pub level: Level,
    /// Every byte written so far.
    pub bytes: Seq<u8>,
    /// Whether a successful flush has emitted the bytes and nothing was
    /// written since.
    pub flushed: bool,
}

impl WriterState {
    /// The bytes are marked emitted only while they are well-formed UTF-8.
    pub open spec fn wf(self) -> bool {
        self.flushed ==> valid_utf8(self.bytes)
    }

    /// The state after appending `data`.
    pub open spec fn written(self, data: Seq<u8>) -> WriterState {
        WriterState { level: self.level, bytes: self.bytes + data, flushed: false }
    }

    /// The call that a flush makes: the decoded text at this state's tier,
    /// or none when the bytes are not UTF-8.
    pub open spec fn flush_call(self) -> Option<Emission> {
        if valid_utf8(self.bytes) {
            Some(Emission { method: self.level.spec_console_method(), text: decode_utf8(self.bytes) })
        } else {
            None
        }
    }

    /// The state after a flush, successful or not.
    pub open spec fn flushed_state(self) -> WriterState {
        WriterState { level: self.level, bytes: self.bytes, flushed: valid_utf8(self.bytes) }
    }

    /// The call made on teardown: none if the bytes were already emitted,
    /// otherwise whatever a flush makes.
    pub open spec fn teardown_call(self) -> Option<Emission> {
        if self.flushed {
            None
        } else {
            self.flush_call()
        }
    }
}

/// The view of an optional call.
pub open spec fn emitted(c: Option<ConsoleCall>) -> Option<Emission> {
    match c {
        Some(c) => Some(c@),
        None => None,
    }
}

/// Gathers the bytes of one event and decides the console call that shows
/// them.
pub struct ConsoleWriter {
    level: Level,
    buf: Vec<u8>,
    flushed: bool,
}

impl View for ConsoleWriter {
    type V = WriterState;

    closed spec fn view(&self) -> WriterState {
        WriterState { level: self.level, bytes: self.buf@, flushed: self.flushed }
    }
}

impl ConsoleWriter {
    /// A writer with nothing gathered yet, for an event shown at `level`.
    pub fn new(level: Level) -> (r: ConsoleWriter)
        ensures
            r@ == (WriterState { level: level, bytes: Seq::empty(), flushed: false }),
            r@.wf(),
    {
        ConsoleWriter { level, buf: Vec::with_capacity(256), flushed: false }
    }

    /// The tier this writer's event is shown at.
    pub fn level(&self) -> (r: Level)
        ensures
            r == self@.level,
    {
        self.level
    }

    /// Appends `data` to the gathered bytes; every byte is taken.
    pub fn write(&mut self, data: &[u8]) -> (r: usize)
        requires
            old(self)@.wf(),
        ensures
            final(self)@ == old(self)@.written(data@),
            final(self)@.wf(),
            r == data@.len(),
    {
        let mut i: usize = 0;
        while i < data.len()
            invariant
                0 <= i <= data@.len(),
                self.level == old(self).level,
                self.buf@ == old(self).buf@ + data@.subrange(0, i as int),
            decreases data@.len() - i,
        {
            self.buf.push(data[i]);
            i = i + 1;
        }
        assert(data@.subrange(0, data@.len() as int) =~= data@);
        self.flushed = false;
        data.len()
    }

    /// Decodes the gathered bytes and returns the console call that shows
    /// them, or `InvalidData` when they are not UTF-8. The bytes are kept, so
    /// a second flush returns the same call again.
    pub fn flush(&mut self) -> (r: Result<ConsoleCall, FlushError>)
        requires
            old(self)@.wf(),
        ensures
            final(self)@ == old(self)@.flushed_state(),
            final(self)@.wf(),
            match r {
                Ok(c) => old(self)@.flush_call() == Some(c@),
                Err(e) => old(self)@.flush_call() is None && e == FlushError::InvalidData,
            },
    {
        match decode_text(self.buf.as_slice()) {
            Some(s) => {
                let text = s.to_owned();
                self.flushed = true;
                Ok(ConsoleCall { method: self.level.console_method(), text })
            },
            None => {
                self.flushed = false;
                Err(FlushError::InvalidData)
            },
        }
    }

    /// The flush that teardown performs: nothing if a successful flush has
    /// already emitted the bytes, otherwise a flush whose error is dropped.
    pub fn finish(&mut self) -> (r: Option<ConsoleCall>)
        requires
            old(self)@.wf(),
        ensures
            final(self)@ == old(self)@.flushed_state(),
            final(self)@.wf(),
            emitted(r) == old(self)@.teardown_call(),
    {
        if self.flushed {
            None
        } else {
            match self.flush() {
                Ok(c) => Some(c),
                Err(_) => None,
            }
        }
    }
}

/// Two writes in a row leave the same state as one write of both chunks
/// joined, so a later flush emits their concatenation as one text.
pub proof fn lemma_writes_concatenate(s: WriterState, a: Seq<u8>, b: Seq<u8>)
    ensures
        s.written(a).written(b) == s.written(a + b),
        s.written(a).written(b).flush_call() == s.written(a + b).flush_call(),
{
    assert(s.bytes + a + b =~= s.bytes + (a + b));
}

/// After an explicit flush, successful or not, teardown emits nothing, and a
/// second explicit flush makes the same call as the first.
pub proof fn lemma_teardown_after_flush_is_silent(s: WriterState)
    ensures
        s.flushed_state().teardown_call() is None,
        s.flushed_state().flush_call() == s.flush_call(),
{
}

/// When no successful flush has emitted the bytes, teardown makes exactly
/// the call that a flush makes: one call whenever the bytes are UTF-8.
pub proof fn lemma_teardown_emits_pending(s: WriterState)
    requires
        !s.flushed,
    ensures
        s.teardown_call() == s.flush_call(),
        valid_utf8(s.bytes) ==> s.teardown_call() is Some,
{
}

} // verus!
