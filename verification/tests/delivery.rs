use newrelic_telemetry::delivery::{Action, Delivery, Event, Stop};
use newrelic_telemetry::response::SendableState;
use newrelic_telemetry::Duration;

fn secs(values: &[u64]) -> Vec<Duration> {
    values.iter().map(|s| Duration::from_secs(*s)).collect()
}

#[test]
fn delivery_starts_at_once() {
    let backoff = secs(&[5, 2, 4]);
    let (state, action) = Delivery::start(&backoff);

    assert_eq!(
        action,
        Action::Send {
            wait: Duration::from_secs(0)
        }
    );
    assert_eq!(
        state,
        Delivery {
            attempts: 1,
            in_flight: true
        }
    );
}

#[test]
fn delivery_without_budget() {
    let (state, action) = Delivery::start(&vec![]);

    assert_eq!(action, Action::Stop(Stop::Exhausted));
    assert_eq!(
        state,
        Delivery {
            attempts: 0,
            in_flight: false
        }
    );
}

#[test]
fn delivery_done_and_split() {
    let backoff = secs(&[0, 2, 4]);
    let (state, _) = Delivery::start(&backoff);

    let (ended, action) = state.advance(Event::Response(SendableState::Done), &backoff);
    assert_eq!(action, Action::Stop(Stop::Done));
    assert!(!ended.in_flight);

    let (ended, action) = state.advance(Event::Response(SendableState::Split), &backoff);
    assert_eq!(action, Action::Split);
    assert!(!ended.in_flight);

    let (_, action) = state.advance(Event::TransportFailed, &backoff);
    assert_eq!(action, Action::Stop(Stop::Abandoned));

    let (_, action) = state.advance(Event::RequestFailed, &backoff);
    assert_eq!(action, Action::Stop(Stop::Abandoned));
}

#[test]
fn delivery_retries_through_the_sequence() {
    let backoff = secs(&[0, 2, 4]);
    let retry = Event::Response(SendableState::Retry(None));
    let (state, _) = Delivery::start(&backoff);

    let (state, action) = state.advance(retry, &backoff);
    assert_eq!(
        action,
        Action::Send {
            wait: Duration::from_secs(2)
        }
    );

    let (state, action) = state.advance(
        Event::Response(SendableState::Retry(Some(Duration::from_secs(9)))),
        &backoff,
    );
    assert_eq!(
        action,
        Action::Send {
            wait: Duration::from_secs(9)
        }
    );
    assert_eq!(state.attempts, 3);

    let (state, action) = state.advance(retry, &backoff);
    assert_eq!(action, Action::Stop(Stop::Exhausted));
    assert_eq!(
        state,
        Delivery {
            attempts: 3,
            in_flight: false
        }
    );
}

#[test]
fn delivery_stays_ended() {
    let backoff = secs(&[0, 2]);
    let ended = Delivery {
        attempts: 1,
        in_flight: false,
    };

    for event in [
        Event::Response(SendableState::Retry(None)),
        Event::Response(SendableState::Split),
        Event::TransportFailed,
    ] {
        let (state, action) = ended.advance(event, &backoff);
        assert_eq!(action, Action::Stop(Stop::Done));
        assert_eq!(state, ended);
    }
}

#[test]
fn delivery_sends_no_more_than_the_budget() {
    for len in 0..6usize {
        let backoff = vec![Duration::from_secs(1); len];
        let mut sent = 0;
        let (mut state, mut action) = Delivery::start(&backoff);
        while let Action::Send { .. } = action {
            sent += 1;
            let moved = state.advance(Event::Response(SendableState::Retry(None)), &backoff);
            state = moved.0;
            action = moved.1;
        }

        assert_eq!(sent, len);
        assert_eq!(action, Action::Stop(Stop::Exhausted));
    }
}
