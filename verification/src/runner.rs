//! The resilient runner: what to do next, given what just happened.
//!
//! The runner is a state machine with two states. While `Connecting` it waits
//! to hear how an attempt to open a subscription went; while `Streaming` it
//! waits for the next event of the open subscription. The caller does the
//! work (opens, pulls, feeds the sink, sleeps, watches for the shutdown
//! request) and reports each result as an [`Outcome`]; [`Runner::step`] answers
//! with the next [`Action`].

use crate::error::Error;
use crate::retry::RetryState;
use crate::retry::RetryStateView;
use vstd::prelude::*;

verus! {

/// The two states of the runner.
#[derive(Clone, Copy, Debug, PartialEq, Eq)]
pub enum Phase {
    /// No subscription is open; an attempt to open one is under way or due.
    Connecting,
    /// A subscription is open and its events are being consumed.
    Streaming,
}

/// What the caller reports back to the runner.
#[derive(Debug, PartialEq, Eq)]
pub enum Outcome<E> {
    /// The attempt to open a subscription succeeded.
    Opened,
    /// The attempt to open a subscription failed, the open subscription
    /// reported an error, or the sink failed on an event.
    Failed(Error),
    /// The open subscription yielded its next item: an event, or `None` where
    /// the remote closed the stream.
    Message(Option<E>),
    /// The shutdown request was observed.
    Cancelled,
}

/// What the runner asks the caller to do next.
#[derive(Debug, PartialEq, Eq)]
pub enum Action<E> {
    /// Log the error with the delay, drop the subscription if one is open,
    /// wait for `delay` nanoseconds, then try to open a subscription.
    RetryAfter { error: Error, delay: u64 },
    /// Await the next item of the open subscription.
    Pull,
    /// Hand the event to the sink; once the sink has taken it, await the next
    /// item of the open subscription.
    Deliver(E),
    /// Stop: do nothing more.
    Exit,
}

/// Tells an event from the end of the stream: an event is handed on for the
/// sink, a closed stream is the error [`Error::End`].
pub fn handle_event<E>(event: Option<E>) -> (result: Result<E, Error>)
    ensures
        match event {
            Some(e) => result == Ok::<E, Error>(e),
            None => result == Err::<E, Error>(Error::End),
        },
{
    match event {
        Some(e) => Ok(e),
        None => Err(Error::End),
    }
}

/// A runner as plain values.
pub struct RunnerView {
    /// The state the runner is in.
    pub phase: Phase,
    /// Whether the shutdown request has been observed.
    pub stopped: bool,
    /// The retry state that the runner owns.
    pub retry: RetryStateView,
}

impl RunnerView {
    /// What every runner satisfies: its retry state is well formed, and while
    /// it is streaming the retry state is the one a success leaves behind.
    pub open spec fn wf(self) -> bool {
        &&& self.retry.wf()
        &&& self.phase is Streaming ==> self.retry == self.retry.after_success()
    }

    /// The runner at its start: connecting, with the retry state reset.
    pub open spec fn init(retry: RetryStateView) -> RunnerView {
        RunnerView { phase: Phase::Connecting, stopped: false, retry: retry.after_success() }
    }

    /// Whether `outcome` can be reported in this state. The shutdown request
    /// can be reported at any time, and again after it was observed; nothing
    /// else can be reported after it. A failure can be reported in both states,
    /// a success in opening only while connecting (so no second subscription is
    /// opened beside an open one), an item of the stream only while streaming.
    pub open spec fn expects<E>(self, outcome: Outcome<E>) -> bool {
        match outcome {
            Outcome::Cancelled => true,
            Outcome::Failed(_) => !self.stopped,
            Outcome::Opened => !self.stopped && self.phase is Connecting,
            Outcome::Message(_) => !self.stopped && self.phase is Streaming,
        }
    }

    /// The state after a failure: connecting, with the retry state one failure
    /// further.
    pub open spec fn failed(self) -> RunnerView {
        RunnerView { phase: Phase::Connecting, retry: self.retry.after_failure(), ..self }
    }

    /// What a failure is answered with: a retry after the policy's delay.
    pub open spec fn retry_after<E>(self, error: Error) -> Action<E> {
        Action::RetryAfter { error, delay: self.retry.delay() as u64 }
    }

    /// The state that follows when `outcome` is reported in this state.
    pub open spec fn next<E>(self, outcome: Outcome<E>) -> RunnerView {
        match outcome {
            Outcome::Cancelled => RunnerView { stopped: true, ..self },
            Outcome::Opened => RunnerView {
                phase: Phase::Streaming,
                retry: self.retry.after_success(),
                ..self
            },
            Outcome::Failed(_) => self.failed(),
            Outcome::Message(Some(_)) => self,
            Outcome::Message(None) => self.failed(),
        }
    }

    /// The action that answers `outcome` when it is reported in this state.
    pub open spec fn action<E>(self, outcome: Outcome<E>) -> Action<E> {
        match outcome {
            Outcome::Cancelled => Action::Exit,
            Outcome::Opened => Action::Pull,
            Outcome::Failed(error) => self.retry_after(error),
            Outcome::Message(Some(event)) => Action::Deliver(event),
            Outcome::Message(None) => self.retry_after(Error::End),
        }
    }
}

/// The resilient runner. It owns the retry state and remembers which of its
/// two states it is in and whether the shutdown request was observed.
#[derive(Clone, Copy, Debug, PartialEq, Eq)]
pub struct Runner {
    phase: Phase,
    stopped: bool,
    retry: RetryState,
}

impl View for Runner {
    type V = RunnerView;

    closed spec fn view(&self) -> RunnerView {
        RunnerView { phase: self.phase, stopped: self.stopped, retry: self.retry@ }
    }
}

impl Runner {
    #[verifier::type_invariant]
    spec fn inv(self) -> bool {
        self@.wf()
    }

    /// A runner at its start: connecting, with `retry` reset. The caller
    /// begins by trying to open a subscription, and reports how that went.
    pub fn new(retry: RetryState) -> (runner: Runner)
        ensures
            runner@ == RunnerView::init(retry@),
            runner@.wf(),
    {
        let mut retry = retry;
        retry.reset();
        Runner { phase: Phase::Connecting, stopped: false, retry }
    }

    /// The state the runner is in.
    pub fn phase(&self) -> (phase: Phase)
        ensures
            phase == self@.phase,
    {
        self.phase
    }

    /// Whether the shutdown request has been observed.
    pub fn is_stopped(&self) -> (stopped: bool)
        ensures
            stopped == self@.stopped,
    {
        self.stopped
    }

    /// The retry state as it stands.
    pub fn retry_state(&self) -> (retry: RetryState)
        ensures
            retry@ == self@.retry,
            retry@.wf(),
    {
        proof {
            use_type_invariant(self);
        }
        self.retry
    }

    /// Whether `outcome` can be reported to the runner as it stands.
    pub fn expects<E>(&self, outcome: &Outcome<E>) -> (ok: bool)
        ensures
            ok == self@.expects(*outcome),
    {
        match outcome {
            Outcome::Cancelled => true,
            Outcome::Failed(_) => !self.stopped,
            Outcome::Opened => !self.stopped && matches!(self.phase, Phase::Connecting),
            Outcome::Message(_) => !self.stopped && matches!(self.phase, Phase::Streaming),
        }
    }

    fn fail<E>(&mut self, error: Error) -> (action: Action<E>)
        ensures
            final(self)@ == old(self)@.failed(),
            action == old(self)@.retry_after::<E>(error),
            final(self)@.wf(),
    {
        proof {
            use_type_invariant(&*self);
        }
        let mut retry = self.retry;
        let delay: u64 = retry.next_delay();
        self.phase = Phase::Connecting;
        self.retry = retry;
        Action::RetryAfter { error, delay }
    }

    /// Takes in what the caller reports and answers with what to do next.
    pub fn step<E>(&mut self, outcome: Outcome<E>) -> (action: Action<E>)
        requires
            old(self)@.expects(outcome),
        ensures
            final(self)@ == old(self)@.next(outcome),
            action == old(self)@.action(outcome),
            final(self)@.wf(),
    {
        proof {
            use_type_invariant(&*self);
        }
        match outcome {
            Outcome::Cancelled => {
                self.stopped = true;
                Action::Exit
            },
            Outcome::Opened => {
                let mut retry = self.retry;
                retry.reset();
                self.retry = retry;
                self.phase = Phase::Streaming;
                Action::Pull
            },
            Outcome::Failed(error) => self.fail(error),
            Outcome::Message(event) => match handle_event(event) {
                Ok(event) => Action::Deliver(event),
                Err(error) => self.fail(error),
            },
        }
    }
}

} // verus!
