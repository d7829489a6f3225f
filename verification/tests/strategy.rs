//! Tests of delays, strategies and errors.

use slog_retry::{default_new_strategy, Cause, Delay, Error, NewStrategy, Strategy};

fn drain(strategy: &mut Strategy, at_most: usize) -> Vec<Delay> {
    let mut delays = Vec::new();
    while delays.len() < at_most {
        match strategy.next() {
            Some(delay) => delays.push(delay),
            None => break,
        }
    }
    delays
}

#[test]
fn delay_from_secs_keeps_whole_seconds() {
    assert_eq!(Delay::from_secs(3), Delay { secs: 3, nanos: 0 });
    assert_eq!(
        Delay::from_secs(u64::MAX),
        Delay {
            secs: u64::MAX,
            nanos: 0
        }
    );
}

#[test]
fn delay_from_millis_splits_seconds_and_rest() {
    assert_eq!(
        Delay::from_millis(1500),
        Delay {
            secs: 1,
            nanos: 500_000_000
        }
    );
    assert_eq!(
        Delay::from_millis(999),
        Delay {
            secs: 0,
            nanos: 999_000_000
        }
    );
    assert_eq!(Delay::from_millis(0), Delay { secs: 0, nanos: 0 });
    assert_eq!(
        Delay::from_millis(u64::MAX),
        Delay {
            secs: 18_446_744_073_709_551,
            nanos: 615_000_000
        }
    );
}

#[test]
fn default_strategy_is_one_to_four_seconds() {
    let mut strategy = default_new_strategy();
    assert_eq!(strategy.next(), Some(Delay::from_secs(1)));
    assert_eq!(strategy.next(), Some(Delay::from_secs(2)));
    assert_eq!(strategy.next(), Some(Delay::from_secs(3)));
    assert_eq!(strategy.next(), Some(Delay::from_secs(4)));
    assert_eq!(strategy.next(), None);
    assert_eq!(strategy.next(), None);
}

#[test]
fn default_maker_makes_the_default_strategy() {
    let maker = NewStrategy::default();
    let mut strategy = maker.fresh();
    assert_eq!(
        drain(&mut strategy, 10),
        vec![
            Delay::from_secs(1),
            Delay::from_secs(2),
            Delay::from_secs(3),
            Delay::from_secs(4)
        ]
    );
}

#[test]
fn listed_strategy_gives_its_delays_in_order() {
    let mut strategy = Strategy::new(vec![
        Delay::from_millis(5),
        Delay::from_secs(0),
        Delay::from_secs(9),
    ]);
    assert_eq!(
        drain(&mut strategy, 10),
        vec![
            Delay::from_millis(5),
            Delay::from_secs(0),
            Delay::from_secs(9)
        ]
    );
    assert_eq!(strategy.next(), None);
}

#[test]
fn empty_strategy_gives_nothing() {
    let mut strategy = Strategy::new(Vec::new());
    assert_eq!(strategy.next(), None);
}

#[test]
fn endless_strategy_repeats_after_its_list() {
    let mut strategy = Strategy::endless(vec![Delay::from_secs(1)], Delay::from_secs(30));
    assert_eq!(strategy.next(), Some(Delay::from_secs(1)));
    for _ in 0..100 {
        assert_eq!(strategy.next(), Some(Delay::from_secs(30)));
    }
}

#[test]
fn duplicate_gives_what_is_left() {
    let mut strategy = Strategy::new(vec![
        Delay::from_secs(1),
        Delay::from_secs(2),
        Delay::from_secs(3),
    ]);
    assert_eq!(strategy.next(), Some(Delay::from_secs(1)));
    let mut copy = strategy.duplicate();
    assert_eq!(
        drain(&mut copy, 10),
        vec![Delay::from_secs(2), Delay::from_secs(3)]
    );
    // Copying took nothing from the strategy itself.
    assert_eq!(
        drain(&mut strategy, 10),
        vec![Delay::from_secs(2), Delay::from_secs(3)]
    );
    let mut spent = strategy.duplicate();
    assert_eq!(spent.next(), None);
}

#[test]
fn duplicate_of_endless_strategy_is_endless() {
    let mut strategy = Strategy::endless(vec![Delay::from_secs(1)], Delay::from_secs(2));
    assert_eq!(strategy.next(), Some(Delay::from_secs(1)));
    assert_eq!(strategy.next(), Some(Delay::from_secs(2)));
    let mut copy = strategy.duplicate();
    assert_eq!(
        drain(&mut copy, 3),
        vec![
            Delay::from_secs(2),
            Delay::from_secs(2),
            Delay::from_secs(2)
        ]
    );
}

#[test]
fn fresh_strategies_are_independent() {
    let maker = NewStrategy::new(Strategy::new(vec![Delay::from_secs(1), Delay::from_secs(2)]));
    let mut first = maker.fresh();
    assert_eq!(first.next(), Some(Delay::from_secs(1)));
    assert_eq!(first.next(), Some(Delay::from_secs(2)));
    assert_eq!(first.next(), None);
    let mut second = maker.fresh();
    assert_eq!(
        drain(&mut second, 10),
        vec![Delay::from_secs(1), Delay::from_secs(2)]
    );
}

#[test]
fn maker_starts_where_its_template_stands() {
    let mut template = Strategy::new(vec![Delay::from_secs(1), Delay::from_secs(2)]);
    assert_eq!(template.next(), Some(Delay::from_secs(1)));
    let maker = NewStrategy::new(template);
    assert_eq!(drain(&mut maker.fresh(), 10), vec![Delay::from_secs(2)]);
}

#[test]
fn cause_prefers_the_error_of_the_sink() {
    let both: Error<u8, &str> = Error {
        factory: Some(3),
        slave: Some("refused"),
    };
    assert_eq!(both.cause(), Some(Cause::Slave(&"refused")));
    let factory: Error<u8, &str> = Error {
        factory: Some(3),
        slave: None,
    };
    assert_eq!(factory.cause(), Some(Cause::Factory(&3)));
    let slave: Error<u8, &str> = Error {
        factory: None,
        slave: Some("refused"),
    };
    assert_eq!(slave.cause(), Some(Cause::Slave(&"refused")));
    let neither: Error<u8, &str> = Error {
        factory: None,
        slave: None,
    };
    assert_eq!(neither.cause(), None);
}

#[test]
fn message_names_both_errors() {
    let error = Error {
        factory: Some("Injected factory error".to_string()),
        slave: Some("Injected logger error".to_string()),
    };
    assert_eq!(
        error.message(),
        "Failed to reconnect the logging drain: Injected factory error/Injected logger error"
    );
}

#[test]
fn message_writes_unit_for_a_missing_error() {
    let factory = Error {
        factory: Some("no route".to_string()),
        slave: None,
    };
    assert_eq!(
        factory.message(),
        "Failed to reconnect the logging drain: no route/()"
    );
    let slave = Error {
        factory: None,
        slave: Some("broken pipe".to_string()),
    };
    assert_eq!(
        slave.message(),
        "Failed to reconnect the logging drain: ()/broken pipe"
    );
    let neither: Error<String, String> = Error {
        factory: None,
        slave: None,
    };
    assert_eq!(
        neither.message(),
        "Failed to reconnect the logging drain: ()/()"
    );
}
