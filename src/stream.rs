//! The decisions of the bounded-buffer stream copier, as a state machine.
//!
//! A driver owns the source and the sink. It performs each `Action` that
//! `Copier::step` hands it and reports the outcome back as an `Event`, until
//! the copier says `Finish` or `Abort`.
use vstd::prelude::*;

use crate::cipher::{rot13_seq, rot13_slice, Mode};
use crate::laws::{lemma_concat, lemma_seq_round_trip};

verus! {

/// Capacity of the buffer that one read fills.
pub const BUFFER_SIZE: usize = 1024;

/// Where the copier stands.
#[derive(Clone, Copy, Debug, PartialEq, Eq, Structural)]
pub enum Phase {
    /// Waiting for the outcome of a read.
    Reading,
    /// Waiting for the outcome of a write.
    Writing,
    /// The source is exhausted and everything read was handed out.
    Finished,
    /// An I/O failure, or an event out of turn, stopped the copy.
    Failed,
}

/// What the driver reports after performing an action.
#[derive(Clone, Debug, PartialEq, Eq)]
pub enum Event {
    /// A read returned these bytes; none means end of stream.
    Read(Vec<u8>),
    /// The whole chunk of the last write was written.
    Written,
    /// The last read or write failed, or wrote only part of its chunk.
    Failed,
}

/// What the driver does next.
#[derive(Clone, Debug, PartialEq, Eq)]
pub enum Action {
    /// Read at most this many bytes from the source.
    Read(usize),
    /// Write all of these bytes to the sink.
    Write(Vec<u8>),
    /// Stop: the copy succeeded.
    Finish,
    /// Stop: report the failure.
    Abort,
}

/// The state of one copy from a source to a sink.
pub struct Copier {
    mode: Mode,
    phase: Phase,
    /// Every byte read from the source so far.
    consumed: Ghost<Seq<u8>>,
    /// Every byte handed to the driver for writing so far.
    emitted: Ghost<Seq<u8>>,
}

impl Copier {
    /// The direction of this copy.
    pub closed spec fn mode_spec(&self) -> Mode {
        self.mode
    }

    /// Where this copy stands.
    pub closed spec fn phase_spec(&self) -> Phase {
        self.phase
    }

    /// The bytes read from the source so far, in order.
    pub closed spec fn consumed(&self) -> Seq<u8> {
        self.consumed@
    }

    /// The bytes handed out for writing so far, in order.
    pub closed spec fn emitted(&self) -> Seq<u8> {
        self.emitted@
    }

    /// What was handed out for writing is the transform of what was read.
    pub closed spec fn wf(&self) -> bool {
        self.emitted@ == rot13_seq(self.mode, self.consumed@)
    }

    /// A copier in `mode` that has read nothing yet; its first action is
    /// `Action::Read(BUFFER_SIZE)`.
    pub fn new(mode: Mode) -> (r: Copier)
        ensures
            r.wf(),
            r.mode_spec() == mode,
            r.phase_spec() == Phase::Reading,
            r.consumed() == Seq::<u8>::empty(),
            r.emitted() == Seq::<u8>::empty(),
    {
        let r = Copier {
            mode,
            phase: Phase::Reading,
            consumed: Ghost(Seq::empty()),
            emitted: Ghost(Seq::empty()),
        };
        assert(rot13_seq(mode, Seq::empty()) =~= Seq::<u8>::empty());
        r
    }

    pub fn mode(&self) -> (r: Mode)
        ensures
            r == self.mode_spec(),
    {
        self.mode
    }

    pub fn phase(&self) -> (r: Phase)
        ensures
            r == self.phase_spec(),
    {
        self.phase
    }

    /// Takes the outcome of the last action and returns the next one.
    ///
    /// A non-empty read is transformed and handed back to be written; an
    /// empty read ends the copy with success; a completed write asks for the
    /// next read. A failure, or an event out of turn, ends the copy with
    /// `Abort`, and nothing is retried. Once finished or failed, the copier
    /// stays so.
    pub fn step(&mut self, event: Event) -> (a: Action)
        requires
            old(self).wf(),
        ensures
            final(self).wf(),
            final(self).mode_spec() == old(self).mode_spec(),
            match (old(self).phase_spec(), event) {
                (Phase::Reading, Event::Read(chunk)) => if chunk@.len() == 0 {
                    &&& a == Action::Finish
                    &&& final(self).phase_spec() == Phase::Finished
                    &&& final(self).consumed() == old(self).consumed()
                    &&& final(self).emitted() == old(self).emitted()
                } else {
                    &&& a matches Action::Write(out)
                    &&& out@ == rot13_seq(old(self).mode_spec(), chunk@)
                    &&& final(self).phase_spec() == Phase::Writing
                    &&& final(self).consumed() == old(self).consumed() + chunk@
                    &&& final(self).emitted() == old(self).emitted() + out@
                },
                (Phase::Writing, Event::Written) => {
                    &&& a == Action::Read(BUFFER_SIZE)
                    &&& final(self).phase_spec() == Phase::Reading
                    &&& final(self).consumed() == old(self).consumed()
                    &&& final(self).emitted() == old(self).emitted()
                },
                (Phase::Finished, _) => {
                    &&& a == Action::Finish
                    &&& final(self).phase_spec() == Phase::Finished
                    &&& final(self).consumed() == old(self).consumed()
                    &&& final(self).emitted() == old(self).emitted()
                },
                _ => {
                    &&& a == Action::Abort
                    &&& final(self).phase_spec() == Phase::Failed
                    &&& final(self).consumed() == old(self).consumed()
                    &&& final(self).emitted() == old(self).emitted()
                },
            },
    {
        match (self.phase, event) {
            (Phase::Reading, Event::Read(chunk)) => {
                if chunk.len() == 0 {
                    self.phase = Phase::Finished;
                    Action::Finish
                } else {
                    let out = rot13_slice(self.mode, chunk.as_slice());
                    proof {
                        lemma_concat(self.mode, self.consumed@, chunk@);
                    }
                    self.consumed = Ghost(self.consumed@ + chunk@);
                    self.emitted = Ghost(self.emitted@ + out@);
                    self.phase = Phase::Writing;
                    Action::Write(out)
                }
            },
            (Phase::Writing, Event::Written) => {
                self.phase = Phase::Reading;
                Action::Read(BUFFER_SIZE)
            },
            (Phase::Finished, _) => Action::Finish,
            _ => {
                self.phase = Phase::Failed;
                Action::Abort
            },
        }
    }
}

/// Copying a stream in one mode and then copying the result in the other
/// mode gives back the original stream, however each copy was cut into
/// chunks.
pub proof fn lemma_stream_round_trip(first: Copier, second: Copier)
    requires
        first.wf(),
        second.wf(),
        first.mode_spec() != second.mode_spec(),
        second.consumed() == first.emitted(),
    ensures
        second.emitted() == first.consumed(),
{
    lemma_seq_round_trip(first.consumed());
}

} // verus!
