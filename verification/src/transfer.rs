//! The course of one transfer: idle, then streaming, then completed.
//!
//! A transfer has two sides that run at the same time: the producer, which
//! writes into the pipe, and the transmitter, which sends what the adapter
//! yields. This module keeps the book on them. It does no work itself: its
//! caller starts the two sides, waits for them, and reports here how each
//! one ended.

use vstd::prelude::*;

verus! {

/// Where a transfer stands.
#[derive(Clone, Copy, Debug, PartialEq, Eq, Structural)]
pub enum Phase {
    /// Nothing has been started.
    Idle,
    /// Both sides have been started and at least one is still running.
    Streaming,
    /// Both sides have finished. Nothing happens after this.
    Completed,
}

/// What went wrong on one side of a transfer.
#[derive(Clone, Copy, Debug, PartialEq, Eq, Structural)]
pub enum Failure {
    /// The producer could not write all of the payload into the pipe.
    Serialization,
    /// The transmitter's request failed.
    Transport,
}

/// The record of one transfer.
#[derive(Clone, Copy, Debug)]
pub struct Transfer {
    started: bool,
    producer_done: bool,
    transmitter_done: bool,
    failure: Option<Failure>,
}

impl Transfer {
    /// Whether the two sides have been started.
    pub closed spec fn started(&self) -> bool {
        self.started
    }

    /// Whether the producer has finished, well or badly.
    pub closed spec fn producer_done(&self) -> bool {
        self.producer_done
    }

    /// Whether the transmitter has finished, well or badly.
    pub closed spec fn transmitter_done(&self) -> bool {
        self.transmitter_done
    }

    /// The failure that was reported first, if any was.
    pub closed spec fn first_failure(&self) -> Option<Failure> {
        self.failure
    }

    /// The phase that the record is in.
    pub open spec fn spec_phase(&self) -> Phase {
        if !self.started() {
            Phase::Idle
        } else if self.producer_done() && self.transmitter_done() {
            Phase::Completed
        } else {
            Phase::Streaming
        }
    }

    /// A record is well formed when it could have come about: no side
    /// finishes before the start, and a failure belongs to a side that has
    /// finished. Every record that the library hands out is well formed.
    #[verifier::type_invariant]
    pub open spec fn wf(&self) -> bool {
        &&& !self.started() ==> !self.producer_done() && !self.transmitter_done()
        &&& self.first_failure() == Some(Failure::Serialization) ==> self.producer_done()
        &&& self.first_failure() == Some(Failure::Transport) ==> self.transmitter_done()
    }

    /// The first failure once one has been reported, else the failure, if
    /// any, of a side that ends with `ok`.
    pub open spec fn failure_after(&self, ok: bool, kind: Failure) -> Option<Failure> {
        if self.first_failure() is Some || ok {
            self.first_failure()
        } else {
            Some(kind)
        }
    }

    /// A transfer of which nothing has been started.
    pub fn new() -> (t: Self)
        ensures
            t.wf(),
            !t.started(),
            !t.producer_done(),
            !t.transmitter_done(),
            t.first_failure() is None,
    {
        Transfer { started: false, producer_done: false, transmitter_done: false, failure: None }
    }

    /// Records that both sides have been started. This is accepted once, on
    /// an idle transfer; at any other time nothing changes and the answer is
    /// `false`.
    pub fn start(&mut self) -> (accepted: bool)
        ensures
            final(self).wf(),
            accepted == (old(self).spec_phase() == Phase::Idle),
            accepted ==> final(self).started(),
            !accepted ==> *final(self) == *old(self),
            final(self).producer_done() == old(self).producer_done(),
            final(self).transmitter_done() == old(self).transmitter_done(),
            final(self).first_failure() == old(self).first_failure(),
    {
        proof {
            use_type_invariant(&*self);
        }
        if self.started {
            false
        } else {
            self.started = true;
            true
        }
    }

    /// Records how the producer ended. This is accepted once, while the
    /// transfer is streaming; at any other time nothing changes and the
    /// answer is `false`. A failure is kept only if none was reported before.
    pub fn producer_finished(&mut self, ok: bool) -> (accepted: bool)
        ensures
            final(self).wf(),
            accepted == (old(self).spec_phase() == Phase::Streaming && !old(self).producer_done()),
            !accepted ==> *final(self) == *old(self),
            accepted ==> ({
                &&& final(self).started()
                &&& final(self).producer_done()
                &&& final(self).transmitter_done() == old(self).transmitter_done()
                &&& final(self).first_failure() == old(self).failure_after(
                    ok,
                    Failure::Serialization,
                )
            }),
    {
        proof {
            use_type_invariant(&*self);
        }
        if !self.started || self.producer_done {
            return false;
        }
        self.producer_done = true;
        if !ok && self.failure.is_none() {
            self.failure = Some(Failure::Serialization);
        }
        true
    }

    /// Records how the transmitter ended. This is accepted once, while the
    /// transfer is streaming; at any other time nothing changes and the
    /// answer is `false`. A failure is kept only if none was reported before.
    pub fn transmitter_finished(&mut self, ok: bool) -> (accepted: bool)
        ensures
            final(self).wf(),
            accepted == (old(self).spec_phase() == Phase::Streaming && !old(
                self,
            ).transmitter_done()),
            !accepted ==> *final(self) == *old(self),
            accepted ==> ({
                &&& final(self).started()
                &&& final(self).transmitter_done()
                &&& final(self).producer_done() == old(self).producer_done()
                &&& final(self).first_failure() == old(self).failure_after(ok, Failure::Transport)
            }),
    {
        proof {
            use_type_invariant(&*self);
        }
        if !self.started || self.transmitter_done {
            return false;
        }
        self.transmitter_done = true;
        if !ok && self.failure.is_none() {
            self.failure = Some(Failure::Transport);
        }
        true
    }

    /// The phase that the transfer is in.
    pub fn phase(&self) -> (p: Phase)
        ensures
            p == self.spec_phase(),
    {
        if !self.started {
            Phase::Idle
        } else if self.producer_done && self.transmitter_done {
            Phase::Completed
        } else {
            Phase::Streaming
        }
    }

    /// The failure that was reported first, as soon as there is one.
    pub fn failure(&self) -> (f: Option<Failure>)
        ensures
            f == self.first_failure(),
    {
        self.failure
    }

    /// How the transfer ended: nothing before it is completed; then success
    /// if neither side failed, else the failure that was reported first.
    pub fn outcome(&self) -> (r: Option<Result<(), Failure>>)
        ensures
            r == (if self.spec_phase() != Phase::Completed {
                None
            } else {
                match self.first_failure() {
                    None => Some(Ok::<(), Failure>(())),
                    Some(f) => Some(Err::<(), Failure>(f)),
                }
            }),
    {
        if !(self.started && self.producer_done && self.transmitter_done) {
            None
        } else {
            match self.failure {
                None => Some(Ok(())),
                Some(f) => Some(Err(f)),
            }
        }
    }
}

/// A transfer is completed exactly when it was started and both sides have
/// finished.
pub proof fn lemma_completed_means_both_done(t: Transfer)
    requires
        t.wf(),
    ensures
        t.spec_phase() == Phase::Completed <==> t.started() && t.producer_done()
            && t.transmitter_done(),
        t.spec_phase() == Phase::Idle ==> !t.producer_done() && !t.transmitter_done()
            && t.first_failure() is None,
{
    match t.first_failure() {
        Some(Failure::Serialization) => {},
        Some(Failure::Transport) => {},
        None => {},
    }
}

} // verus!
