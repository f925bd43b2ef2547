use app_startup::plugin::{plugins_to_register, LogLevel, Plugin};
use app_startup::startup::{Action, Outcome, Phase, Startup};

/// Feeds `outcomes` to a fresh start-up and returns it.
fn replay(debug: bool, outcomes: &[Outcome]) -> Startup {
    let mut startup = Startup::new(debug);
    for outcome in outcomes {
        startup.record(*outcome);
    }
    startup
}

/// Every history of the given length.
fn histories(length: u32) -> Vec<Vec<Outcome>> {
    (0..1u32 << length)
        .map(|bits| {
            (0..length)
                .map(|place| {
                    if bits >> place & 1 == 0 {
                        Outcome::Succeeded
                    } else {
                        Outcome::Failed
                    }
                })
                .collect()
        })
        .collect()
}

#[test]
fn new_startup_has_registered_nothing() {
    for debug in [false, true] {
        let startup = Startup::new(debug);
        assert_eq!(startup.is_debug(), debug);
        assert_eq!(startup.registered(), 0);
        assert_eq!(startup.phase(), Phase::Registering);
    }
}

#[test]
fn debug_startup_registers_log_first() {
    let startup = Startup::new(true);
    assert_eq!(
        startup.next_action(),
        Action::Register(Plugin::Log { level: LogLevel::Info })
    );
}

#[test]
fn release_startup_registers_store_first() {
    let startup = Startup::new(false);
    assert_eq!(startup.next_action(), Action::Register(Plugin::Store));
}

#[test]
fn nominal_debug_startup_reaches_the_event_loop() {
    let mut startup = Startup::new(true);
    assert_eq!(
        startup.next_action(),
        Action::Register(Plugin::Log { level: LogLevel::Info })
    );
    startup.record(Outcome::Succeeded);
    assert_eq!(startup.registered(), 1);
    assert_eq!(startup.phase(), Phase::Registering);
    assert_eq!(startup.next_action(), Action::Register(Plugin::Store));
    startup.record(Outcome::Succeeded);
    assert_eq!(startup.registered(), 2);
    assert_eq!(startup.phase(), Phase::Registering);
    assert_eq!(startup.next_action(), Action::Register(Plugin::Vault));
    startup.record(Outcome::Succeeded);
    assert_eq!(startup.registered(), 3);
    assert_eq!(startup.phase(), Phase::Running);
    assert_eq!(startup.next_action(), Action::RunEventLoop);
}

#[test]
fn nominal_release_startup_reaches_the_event_loop() {
    let mut startup = Startup::new(false);
    assert_eq!(startup.next_action(), Action::Register(Plugin::Store));
    startup.record(Outcome::Succeeded);
    assert_eq!(startup.registered(), 1);
    assert_eq!(startup.phase(), Phase::Registering);
    assert_eq!(startup.next_action(), Action::Register(Plugin::Vault));
    startup.record(Outcome::Succeeded);
    assert_eq!(startup.registered(), 2);
    assert_eq!(startup.phase(), Phase::Running);
    assert_eq!(startup.next_action(), Action::RunEventLoop);
}

#[test]
fn release_startup_never_asks_for_the_log() {
    for length in 0..=5 {
        for history in histories(length) {
            let startup = replay(false, &history);
            assert!(!matches!(
                startup.next_action(),
                Action::Register(Plugin::Log { .. })
            ));
        }
    }
}

#[test]
fn debug_startup_asks_for_the_log_only_at_the_start() {
    for length in 1..=5 {
        for history in histories(length) {
            let startup = replay(true, &history);
            assert!(!matches!(
                startup.next_action(),
                Action::Register(Plugin::Log { .. })
            ));
        }
    }
}

#[test]
fn actions_follow_the_registration_order() {
    for debug in [false, true] {
        let order = plugins_to_register(debug);
        let mut startup = Startup::new(debug);
        for plugin in &order {
            assert_eq!(startup.next_action(), Action::Register(*plugin));
            startup.record(Outcome::Succeeded);
        }
        assert_eq!(startup.registered(), order.len());
        assert_eq!(startup.next_action(), Action::RunEventLoop);
    }
}

#[test]
fn closing_the_application_finishes() {
    let mut startup = replay(false, &[Outcome::Succeeded, Outcome::Succeeded]);
    assert_eq!(startup.phase(), Phase::Running);
    startup.record(Outcome::Succeeded);
    assert_eq!(startup.phase(), Phase::Finished);
    assert_eq!(startup.next_action(), Action::Exit);
}

#[test]
fn failed_log_registration_aborts() {
    let mut startup = Startup::new(true);
    startup.record(Outcome::Failed);
    assert_eq!(startup.phase(), Phase::Aborted);
    assert_eq!(startup.registered(), 0);
    assert_eq!(startup.next_action(), Action::Abort);
}

#[test]
fn failed_store_registration_aborts() {
    let startup = replay(true, &[Outcome::Succeeded, Outcome::Failed]);
    assert_eq!(startup.phase(), Phase::Aborted);
    assert_eq!(startup.registered(), 1);
    assert_eq!(startup.next_action(), Action::Abort);

    let startup = replay(false, &[Outcome::Failed]);
    assert_eq!(startup.phase(), Phase::Aborted);
    assert_eq!(startup.registered(), 0);
    assert_eq!(startup.next_action(), Action::Abort);
}

#[test]
fn failed_vault_registration_aborts() {
    let startup = replay(true, &[Outcome::Succeeded, Outcome::Succeeded, Outcome::Failed]);
    assert_eq!(startup.phase(), Phase::Aborted);
    assert_eq!(startup.registered(), 2);
    assert_eq!(startup.next_action(), Action::Abort);

    let startup = replay(false, &[Outcome::Succeeded, Outcome::Failed]);
    assert_eq!(startup.phase(), Phase::Aborted);
    assert_eq!(startup.registered(), 1);
    assert_eq!(startup.next_action(), Action::Abort);
}

#[test]
fn failed_event_loop_aborts() {
    let mut startup = replay(false, &[Outcome::Succeeded, Outcome::Succeeded]);
    assert_eq!(startup.next_action(), Action::RunEventLoop);
    startup.record(Outcome::Failed);
    assert_eq!(startup.phase(), Phase::Aborted);
    assert_eq!(startup.registered(), 2);
    assert_eq!(startup.next_action(), Action::Abort);
}

#[test]
fn nothing_is_retried_after_an_abort() {
    let mut startup = replay(true, &[Outcome::Succeeded, Outcome::Failed]);
    for outcome in [Outcome::Succeeded, Outcome::Failed, Outcome::Succeeded, Outcome::Succeeded] {
        startup.record(outcome);
        assert_eq!(startup.phase(), Phase::Aborted);
        assert_eq!(startup.registered(), 1);
        assert_eq!(startup.next_action(), Action::Abort);
    }
}

#[test]
fn nothing_follows_the_end_of_the_event_loop() {
    let mut startup =
        replay(false, &[Outcome::Succeeded, Outcome::Succeeded, Outcome::Succeeded]);
    assert_eq!(startup.phase(), Phase::Finished);
    for outcome in [Outcome::Failed, Outcome::Succeeded] {
        startup.record(outcome);
        assert_eq!(startup.phase(), Phase::Finished);
        assert_eq!(startup.registered(), 2);
        assert_eq!(startup.next_action(), Action::Exit);
    }
}

#[test]
fn a_failed_registration_never_leads_to_running() {
    for debug in [false, true] {
        for length in 1..=6 {
            for history in histories(length) {
                let mut startup = Startup::new(debug);
                let mut registration_failed = false;
                for outcome in &history {
                    if startup.phase() == Phase::Registering && *outcome == Outcome::Failed {
                        registration_failed = true;
                    }
                    startup.record(*outcome);
                    if registration_failed {
                        assert_eq!(startup.phase(), Phase::Aborted);
                        assert_eq!(startup.next_action(), Action::Abort);
                    }
                }
            }
        }
    }
}

#[test]
fn running_takes_one_success_for_each_plugin() {
    for debug in [false, true] {
        let plugins = plugins_to_register(debug).len();
        for length in 0..=6u32 {
            for history in histories(length) {
                let startup = replay(debug, &history);
                let all_succeeded = history.iter().all(|outcome| *outcome == Outcome::Succeeded);
                assert_eq!(
                    startup.phase() == Phase::Running,
                    all_succeeded && history.len() == plugins
                );
            }
        }
    }
}

#[test]
fn startup_can_be_copied() {
    let mut first = Startup::new(true);
    let second = first;
    first.record(Outcome::Failed);
    assert_eq!(first.phase(), Phase::Aborted);
    assert_eq!(second.phase(), Phase::Registering);
}
