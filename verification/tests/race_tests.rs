use ledger_race::errors::BotError;
use ledger_race::race::{
    run_scripted_race, ActionKind, AttemptOutcome, RaceState, WorkerAction,
};
use ledger_race::retry::RetryStrategy;
use ledger_race::types::{LogEntry, LogLevel};

fn count_level(log: &[LogEntry], level: LogLevel) -> usize {
    log.iter().filter(|e| e.level == level).count()
}

fn always_fail(attempts: usize) -> Vec<bool> {
    vec![false; attempts]
}

#[test]
fn race_single_winner_single_success_event() {
    let policy = RetryStrategy::exponential_backoff(10, 100, 10);
    // Three workers; only the middle one succeeds, on its third attempt.
    let mut script: Vec<Vec<bool>> = Vec::new();
    script.push(always_fail(10));
    script.push(vec![false, false, true]);
    script.push(always_fail(10));
    let race = run_scripted_race(ActionKind::Claim, policy, 1_000_000, &script, 7);
    assert!(race.won);
    assert_eq!(count_level(&race.log, LogLevel::Success), 1);
    assert_eq!(count_level(&race.log, LogLevel::Error), 0);
}

#[test]
fn race_all_fail_single_error_event() {
    let policy = RetryStrategy::exponential_backoff(10, 100, 4);
    let script: Vec<Vec<bool>> = vec![always_fail(4), always_fail(4), always_fail(4)];
    let race = run_scripted_race(ActionKind::Claim, policy, 1_000_000, &script, 7);
    assert!(!race.won);
    assert_eq!(count_level(&race.log, LogLevel::Success), 0);
    assert_eq!(count_level(&race.log, LogLevel::Error), 1);
    // Every worker used its whole budget.
    for worker in &race.workers {
        assert_eq!(worker.attempts, 4);
        assert!(worker.finished);
    }
}

#[test]
fn race_success_past_budget_is_a_loss() {
    let policy = RetryStrategy::exponential_backoff(10, 100, 3);
    // The only success would come on the fourth attempt, one past the
    // budget: the race is lost.
    let script: Vec<Vec<bool>> = vec![vec![false, false, false, true]];
    let race = run_scripted_race(ActionKind::Claim, policy, 0, &script, 0);
    assert!(!race.won);
    assert_eq!(count_level(&race.log, LogLevel::Error), 1);
}

#[test]
fn worker_attempt_classifies_claim_delays() {
    let policy = RetryStrategy::exponential_backoff(10, 100, 10);
    let mut race = RaceState::new_race(ActionKind::Claim, policy, 0, 2, 0);
    let act = race.worker_attempt(0, &AttemptOutcome::Failure(BotError::RateLimited), 1);
    assert_eq!(act, WorkerAction::RetryAfter(50));
    let act = race.worker_attempt(0, &AttemptOutcome::Failure(BotError::NetworkFailure), 2);
    assert_eq!(act, WorkerAction::RetryAfter(10));
    let act = race.worker_attempt(0, &AttemptOutcome::Failure(BotError::ApiFailure), 3);
    assert_eq!(act, WorkerAction::RetryAfter(5));
    let act = race.worker_attempt(0, &AttemptOutcome::Failure(BotError::InsufficientBalance), 4);
    assert_eq!(act, WorkerAction::RetryAfter(5));
}

#[test]
fn worker_attempt_transfer_delay_is_flat() {
    let policy = RetryStrategy::exponential_backoff(5, 50, 20);
    let mut race = RaceState::new_race(ActionKind::Transfer, policy, 0, 2, 0);
    let act = race.worker_attempt(1, &AttemptOutcome::Failure(BotError::RateLimited), 1);
    assert_eq!(act, WorkerAction::RetryAfter(2));
}

#[test]
fn sibling_stops_after_first_win() {
    let policy = RetryStrategy::exponential_backoff(10, 100, 10);
    let mut race = RaceState::new_race(ActionKind::Claim, policy, 0, 2, 0);
    let act = race.worker_attempt(0, &AttemptOutcome::Success, 5);
    assert_eq!(act, WorkerAction::Stop);
    assert!(race.won);
    assert!(!race.active);
    // The sibling reports a success too late: it is discarded without
    // a second SUCCESS entry.
    let act = race.worker_attempt(1, &AttemptOutcome::Success, 6);
    assert_eq!(act, WorkerAction::Stop);
    assert_eq!(count_level(&race.log, LogLevel::Success), 1);
}

#[test]
fn won_race_logs_elapsed_time() {
    let policy = RetryStrategy::exponential_backoff(10, 100, 10);
    let mut race = RaceState::new_race(ActionKind::Claim, policy, 0, 1, 100);
    race.worker_attempt(0, &AttemptOutcome::Success, 140);
    race.finish_race(140);
    assert!(race.won);
    let success_entries: Vec<&LogEntry> =
        race.log.iter().filter(|e| e.level == LogLevel::Success).collect();
    assert_eq!(success_entries.len(), 1);
    match success_entries[0].kind {
        ledger_race::types::LogEventKind::RaceWon { worker, elapsed_ms } => {
            assert_eq!(worker, 0);
            assert_eq!(elapsed_ms, 40);
        }
        _ => panic!("expected a RaceWon entry"),
    }
}
