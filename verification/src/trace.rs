//! Whole runs of the runner: what holds of every sequence of outcomes.
//!
//! A trace is the sequence of outcomes that a caller reports, oldest first.
//! The functions here say which state a trace leaves the runner in and which
//! actions answer it; the lemmas state what the runner guarantees over any
//! trace that it admits.

use crate::error::Error;
use crate::runner::Action;
use crate::runner::Outcome;
use crate::runner::Phase;
use crate::runner::RunnerView;
use vstd::prelude::*;

verus! {

impl RunnerView {
    /// The state after the outcomes of `trace` were reported, one by one.
    pub open spec fn after<E>(self, trace: Seq<Outcome<E>>) -> RunnerView
        decreases trace.len(),
    {
        if trace.len() == 0 {
            self
        } else {
            self.after(trace.drop_last()).next(trace.last())
        }
    }

    /// The actions that answer the outcomes of `trace`, in the same order.
    pub open spec fn answers<E>(self, trace: Seq<Outcome<E>>) -> Seq<Action<E>>
        decreases trace.len(),
    {
        if trace.len() == 0 {
            Seq::empty()
        } else {
            self.answers(trace.drop_last()).push(
                self.after(trace.drop_last()).action(trace.last()),
            )
        }
    }

    /// Whether each outcome of `trace` can be reported in the state it meets.
    pub open spec fn admits<E>(self, trace: Seq<Outcome<E>>) -> bool
        decreases trace.len(),
    {
        trace.len() == 0 || (self.admits(trace.drop_last()) && self.after(
            trace.drop_last(),
        ).expects(trace.last()))
    }
}

/// The events that the subscriptions yielded over a trace, in order.
pub open spec fn arrivals<E>(trace: Seq<Outcome<E>>) -> Seq<E>
    decreases trace.len(),
{
    if trace.len() == 0 {
        Seq::empty()
    } else {
        match trace.last() {
            Outcome::Message(Some(event)) => arrivals(trace.drop_last()).push(event),
            _ => arrivals(trace.drop_last()),
        }
    }
}

/// The events that a sequence of actions hands to the sink, in order.
pub open spec fn deliveries<E>(actions: Seq<Action<E>>) -> Seq<E>
    decreases actions.len(),
{
    if actions.len() == 0 {
        Seq::empty()
    } else {
        match actions.last() {
            Action::Deliver(event) => deliveries(actions.drop_last()).push(event),
            _ => deliveries(actions.drop_last()),
        }
    }
}

/// The trace in which a subscription yields `events`, one after another.
pub open spec fn yielding<E>(events: Seq<E>) -> Seq<Outcome<E>> {
    Seq::new(events.len(), |i: int| Outcome::Message(Some(events[i])))
}

/// The trace in which one attempt after another fails, with `errors`.
pub open spec fn failing<E>(errors: Seq<Error>) -> Seq<Outcome<E>> {
    Seq::new(errors.len(), |i: int| Outcome::Failed(errors[i]))
}

/// Every state that a run passes through is well formed, and every outcome
/// is answered by one action.
pub proof fn lemma_run_keeps_well_formed<E>(s: RunnerView, trace: Seq<Outcome<E>>)
    requires
        s.wf(),
    ensures
        s.after(trace).wf(),
        s.after(trace).retry.initial_interval == s.retry.initial_interval,
        s.after(trace).retry.max_interval == s.retry.max_interval,
        s.answers(trace).len() == trace.len(),
    decreases trace.len(),
{
    if trace.len() > 0 {
        lemma_run_keeps_well_formed(s, trace.drop_last());
    }
}

/// The sink is handed exactly the events that the subscriptions yielded, in
/// the order in which they were yielded: none is dropped, repeated, moved or
/// made up.
pub proof fn lemma_events_reach_sink_in_order<E>(s: RunnerView, trace: Seq<Outcome<E>>)
    requires
        s.admits(trace),
    ensures
        deliveries(s.answers(trace)) == arrivals(trace),
    decreases trace.len(),
{
    if trace.len() > 0 {
        let earlier = trace.drop_last();
        lemma_events_reach_sink_in_order(s, earlier);
        assert(s.answers(trace).drop_last() == s.answers(earlier));
    }
}

/// While events keep coming the runner stays as it is: streaming, with the
/// retry state untouched, each event answered by its delivery.
pub proof fn lemma_events_leave_state<E>(s: RunnerView, events: Seq<E>)
    requires
        s.expects(Outcome::<E>::Message(None)),
    ensures
        s.admits(yielding(events)),
        s.after(yielding(events)) == s,
        s.answers(yielding(events)) == Seq::new(
            events.len(),
            |i: int| Action::Deliver(events[i]),
        ),
    decreases events.len(),
{
    let trace = yielding(events);
    if events.len() > 0 {
        lemma_events_leave_state(s, events.drop_last());
        assert(trace.drop_last() == yielding(events.drop_last()));
    }
}

/// Failure after failure, the runner walks the retry state forward: each
/// failure is answered with a retry that carries its error and the delay the
/// policy has reached, and the runner is left connecting.
pub proof fn lemma_failures_walk_retry_state<E>(s: RunnerView, errors: Seq<Error>)
    requires
        s.wf(),
        !s.stopped,
    ensures
        s.admits(failing::<E>(errors)),
        s.after(failing::<E>(errors)).retry == s.retry.after_failures(errors.len()),
        errors.len() > 0 ==> s.after(failing::<E>(errors)).phase is Connecting,
        !s.after(failing::<E>(errors)).stopped,
        s.answers(failing::<E>(errors)) == Seq::new(
            errors.len(),
            |i: int|
                Action::<E>::RetryAfter {
                    error: errors[i],
                    delay: s.retry.after_failures(i as nat).delay() as u64,
                },
        ),
    decreases errors.len(),
{
    let trace = failing::<E>(errors);
    if errors.len() > 0 {
        let earlier = errors.drop_last();
        lemma_failures_walk_retry_state::<E>(s, earlier);
        assert(trace.drop_last() == failing::<E>(earlier));
        assert(s.answers(trace).drop_last() == s.answers(failing::<E>(earlier)));
    }
}

/// Over any run of failures the delays never decrease and never exceed the
/// maximum: of two failures the later one is answered with a delay at least
/// as long as the earlier one's, and no longer than the maximum interval.
pub proof fn lemma_failures_back_off<E>(
    s: RunnerView,
    errors: Seq<Error>,
    earlier: int,
    later: int,
)
    requires
        s.wf(),
        !s.stopped,
        0 <= earlier <= later < errors.len(),
    ensures
        ({
            let answers = s.answers(failing::<E>(errors));
            &&& answers[earlier] matches Action::RetryAfter { delay: first, .. }
            &&& answers[later] matches Action::RetryAfter { delay: second, .. }
            &&& first <= second <= s.retry.max_interval
        }),
{
    lemma_failures_walk_retry_state::<E>(s, errors);
    crate::retry::lemma_delays_never_decrease(s.retry, earlier as nat, later as nat);
    crate::retry::lemma_delays_never_decrease(s.retry, earlier as nat, earlier as nat);
}

/// Success resets the retry state, an attempt alone does not: once a
/// subscription is open, and however many events it has yielded since, the
/// next failure is answered with the initial interval as its delay, whatever
/// the delay had grown to before the subscription was opened.
pub proof fn lemma_failure_after_success_starts_over<E>(
    s: RunnerView,
    events: Seq<E>,
    failure: Outcome<E>,
)
    requires
        s.wf(),
        s.expects(Outcome::<E>::Opened),
        failure is Failed || failure == Outcome::<E>::Message(None),
    ensures
        ({
            let streaming = s.next(Outcome::<E>::Opened).after(yielding(events));
            &&& streaming.expects(failure)
            &&& streaming.action(failure) matches Action::RetryAfter { delay, .. }
            &&& delay == s.retry.initial_interval
            &&& streaming.next(failure).phase is Connecting
            &&& streaming.next(failure).retry == s.retry.after_success().after_failure()
        }),
{
    lemma_events_leave_state(s.next(Outcome::<E>::Opened), events);
}

/// A subscription that the remote closes without an error leads to another
/// attempt to connect, not to the end of the run: the runner answers with a
/// retry for the error `End`, goes back to connecting, and is not stopped.
pub proof fn lemma_end_of_stream_reconnects<E>(s: RunnerView)
    requires
        s.wf(),
        s.expects(Outcome::<E>::Message(None)),
    ensures
        s.action(Outcome::<E>::Message(None)) == (Action::<E>::RetryAfter {
            error: Error::End,
            delay: s.retry.initial_interval as u64,
        }),
        s.next(Outcome::<E>::Message(None)).phase is Connecting,
        !s.next(Outcome::<E>::Message(None)).stopped,
        s.next(Outcome::<E>::Message(None)).expects(Outcome::<E>::Opened),
{
}

/// The shutdown request is answered with `Exit` in every state, whatever the
/// delay that is being waited out, and it is final: after it the runner
/// admits nothing but the same request again, asks for no further attempt,
/// and hands nothing more to the sink.
pub proof fn lemma_cancellation_is_final<E>(s: RunnerView, trace: Seq<Outcome<E>>)
    requires
        s.next(Outcome::<E>::Cancelled).admits(trace),
    ensures
        s.expects(Outcome::<E>::Cancelled),
        s.action(Outcome::<E>::Cancelled) == Action::<E>::Exit,
        s.next(Outcome::<E>::Cancelled) == (RunnerView { stopped: true, ..s }),
        s.next(Outcome::<E>::Cancelled).after(trace) == s.next(Outcome::<E>::Cancelled),
        forall|i: int| 0 <= i < trace.len() ==> trace[i] == Outcome::<E>::Cancelled,
        s.next(Outcome::<E>::Cancelled).answers(trace) == Seq::new(
            trace.len(),
            |i: int| Action::<E>::Exit,
        ),
    decreases trace.len(),
{
    let stopped = s.next(Outcome::<E>::Cancelled);
    if trace.len() > 0 {
        let earlier = trace.drop_last();
        lemma_cancellation_is_final(s, earlier);
        assert(stopped.answers(trace).drop_last() == stopped.answers(earlier));
        assert forall|i: int| 0 <= i < trace.len() implies trace[i] == Outcome::<
            E,
        >::Cancelled by {
            if i < earlier.len() {
                assert(trace[i] == earlier[i]);
            } else {
                assert(trace[i] == trace.last());
            }
        }
    }
}

/// Nothing but the shutdown request ends a run: whatever else is reported,
/// and however often attempts fail, the runner is not stopped and none of its
/// answers is `Exit`.
pub proof fn lemma_only_cancellation_ends_a_run<E>(s: RunnerView, trace: Seq<Outcome<E>>)
    requires
        !s.stopped,
        s.admits(trace),
        forall|i: int| 0 <= i < trace.len() ==> !(trace[i] is Cancelled),
    ensures
        !s.after(trace).stopped,
        s.answers(trace).len() == trace.len(),
        forall|i: int| 0 <= i < trace.len() ==> !(s.answers(trace)[i] is Exit),
    decreases trace.len(),
{
    if trace.len() > 0 {
        let earlier = trace.drop_last();
        lemma_only_cancellation_ends_a_run(s, earlier);
        assert(s.answers(trace).drop_last() == s.answers(earlier));
        assert forall|i: int| 0 <= i < trace.len() implies !(s.answers(trace)[i] is Exit) by {
            if i < earlier.len() {
                assert(s.answers(trace)[i] == s.answers(earlier)[i]);
            } else {
                assert(s.answers(trace)[i] == s.after(earlier).action(trace.last()));
                assert(trace.last() == trace[trace.len() - 1]);
            }
        }
    }
}

/// At most one subscription is open at a time. One is open exactly while the
/// runner is streaming: opening is expected only while none is open, the
/// runner asks for items only of an open one, and when it asks for a retry
/// the old subscription has been given up.
pub proof fn lemma_one_subscription_at_a_time<E>(s: RunnerView, outcome: Outcome<E>)
    requires
        s.expects(outcome),
    ensures
        outcome is Opened ==> s.phase is Connecting && s.next(outcome).phase is Streaming,
        s.action(outcome) is Pull || s.action(outcome) is Deliver ==> s.next(outcome).phase
            is Streaming,
        s.action(outcome) is RetryAfter ==> s.next(outcome).phase is Connecting,
{
}

/// A runner that is cancelled before any subscription was opened never hands
/// an event to the sink: from the start, with nothing but failures reported
/// before the request, no action of the run is a delivery.
pub proof fn lemma_no_delivery_before_first_subscription<E>(
    s: RunnerView,
    trace: Seq<Outcome<E>>,
)
    requires
        s.phase is Connecting,
        s.admits(trace),
        forall|i: int| 0 <= i < trace.len() ==> !(trace[i] is Opened),
    ensures
        s.after(trace).phase is Connecting,
        deliveries(s.answers(trace)) == Seq::<E>::empty(),
    decreases trace.len(),
{
    if trace.len() > 0 {
        let earlier = trace.drop_last();
        lemma_no_delivery_before_first_subscription(s, earlier);
        assert(s.answers(trace).drop_last() == s.answers(earlier));
    }
}

} // verus!
