use event_logger::{Action, Error, Outcome, Phase, RetryState, Runner};

const MS: u64 = 1_000_000;

/// Plays a list of outcomes to a runner the way a caller would: each outcome
/// is reported only where the runner expects it. Returns the actions, and the
/// events handed to the sink, in order.
fn play(runner: &mut Runner, outcomes: Vec<Outcome<&'static str>>) -> (Vec<Action<&'static str>>, Vec<&'static str>) {
    let mut actions = Vec::new();
    let mut accepted = Vec::new();
    for outcome in outcomes {
        assert!(runner.expects(&outcome), "{:?} not expected", outcome);
        let action = runner.step(outcome);
        if let Action::Deliver(event) = &action {
            accepted.push(*event);
        }
        let done = action == Action::Exit;
        actions.push(action);
        if done {
            break;
        }
    }
    (actions, accepted)
}

#[test]
fn three_failures_then_success() {
    let mut runner = Runner::new(RetryState::new(500, 30_000));
    let (actions, accepted) = play(
        &mut runner,
        vec![
            Outcome::Failed(Error::Transport("A".to_string())),
            Outcome::Failed(Error::Transport("B".to_string())),
            Outcome::Failed(Error::Grpc("C".to_string())),
            Outcome::Opened,
        ],
    );
    assert_eq!(
        actions,
        vec![
            Action::RetryAfter { error: Error::Transport("A".to_string()), delay: 500 * MS },
            Action::RetryAfter { error: Error::Transport("B".to_string()), delay: 750 * MS },
            Action::RetryAfter { error: Error::Grpc("C".to_string()), delay: 1_125 * MS },
            Action::Pull,
        ]
    );
    let mut delays = Vec::new();
    for action in &actions {
        if let Action::RetryAfter { delay, .. } = action {
            delays.push(*delay);
        }
    }
    assert_eq!(delays.len(), 3);
    assert!(delays[0] <= delays[1] && delays[1] <= delays[2]);
    assert!(accepted.is_empty());
    assert_eq!(runner.phase(), Phase::Streaming);
    assert_eq!(runner.retry_state().current_interval(), runner.retry_state().initial_interval());
    assert_eq!(runner.retry_state().current_interval(), 500 * MS);
    assert_eq!(runner.retry_state().elapsed(), 0);
}

#[test]
fn three_events_then_stream_error() {
    let mut runner = Runner::new(RetryState::new(500, 30_000));
    let (actions, accepted) = play(
        &mut runner,
        vec![
            Outcome::Opened,
            Outcome::Message(Some("E1")),
            Outcome::Message(Some("E2")),
            Outcome::Message(Some("E3")),
            Outcome::Failed(Error::Grpc("stream broke".to_string())),
        ],
    );
    assert_eq!(accepted, vec!["E1", "E2", "E3"]);
    assert_eq!(
        actions,
        vec![
            Action::Pull,
            Action::Deliver("E1"),
            Action::Deliver("E2"),
            Action::Deliver("E3"),
            Action::RetryAfter { error: Error::Grpc("stream broke".to_string()), delay: 500 * MS },
        ]
    );
    assert_eq!(runner.phase(), Phase::Connecting);
    assert!(!runner.is_stopped());
    assert!(runner.expects::<&str>(&Outcome::Opened));
}

#[test]
fn three_events_then_stream_closes() {
    let mut runner = Runner::new(RetryState::new(500, 30_000));
    let (actions, accepted) = play(
        &mut runner,
        vec![
            Outcome::Opened,
            Outcome::Message(Some("E1")),
            Outcome::Message(Some("E2")),
            Outcome::Message(Some("E3")),
            Outcome::Message(None),
            Outcome::Opened,
            Outcome::Message(Some("E4")),
        ],
    );
    assert_eq!(accepted, vec!["E1", "E2", "E3", "E4"]);
    assert_eq!(actions[4], Action::RetryAfter { error: Error::End, delay: 500 * MS });
    assert_eq!(actions[5], Action::Pull);
    assert_eq!(runner.phase(), Phase::Streaming);
}

#[test]
fn cancellation_while_connecting_before_any_subscription() {
    let mut runner = Runner::new(RetryState::new(500, 30_000));
    let (actions, accepted) = play(&mut runner, vec![Outcome::Cancelled]);
    assert_eq!(actions, vec![Action::Exit]);
    assert!(accepted.is_empty());
    assert!(runner.is_stopped());
    assert_eq!(runner.phase(), Phase::Connecting);
    assert!(!runner.expects::<&str>(&Outcome::Opened));
    assert!(!runner.expects::<&str>(&Outcome::Failed(Error::End)));
    assert_eq!(runner.retry_state().elapsed(), 0);
}

#[test]
fn cancellation_during_a_long_backoff() {
    let mut runner = Runner::new(RetryState::new(500, 30_000));
    let mut outcomes: Vec<Outcome<&'static str>> = Vec::new();
    for _ in 0..15 {
        outcomes.push(Outcome::Failed(Error::Transport("refused".to_string())));
    }
    outcomes.push(Outcome::Cancelled);
    outcomes.push(Outcome::Opened);
    let (actions, accepted) = play(&mut runner, outcomes);
    assert_eq!(actions.len(), 16);
    assert_eq!(
        actions[14],
        Action::RetryAfter { error: Error::Transport("refused".to_string()), delay: 30_000 * MS }
    );
    assert_eq!(actions[15], Action::Exit);
    assert!(accepted.is_empty());
    assert!(runner.is_stopped());
}

#[test]
fn failures_between_subscriptions_back_off_each_time_anew() {
    let mut runner = Runner::new(RetryState::new(100, 400));
    let (actions, accepted) = play(
        &mut runner,
        vec![
            Outcome::Failed(Error::End),
            Outcome::Failed(Error::End),
            Outcome::Failed(Error::End),
            Outcome::Failed(Error::End),
            Outcome::Failed(Error::End),
            Outcome::Opened,
            Outcome::Message(Some("x")),
            Outcome::Failed(Error::Sink("full".to_string())),
            Outcome::Failed(Error::End),
            Outcome::Opened,
            Outcome::Message(None),
        ],
    );
    let mut delays = Vec::new();
    for action in &actions {
        if let Action::RetryAfter { delay, .. } = action {
            delays.push(*delay);
        }
    }
    assert_eq!(
        delays,
        vec![100 * MS, 150 * MS, 225 * MS, 337_500_000, 400 * MS, 100 * MS, 150 * MS, 100 * MS]
    );
    assert_eq!(accepted, vec!["x"]);
}
