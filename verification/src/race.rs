//! The worker-race coordinator.
//!
//! A race runs several workers at the same logical ledger action; the
//! first success wins, flips the shared active flag exactly once, and
//! the siblings stand down at their next check. The coordinator here is
//! the deterministic heart of that race: a state machine fed one attempt
//! outcome at a time. The process around the library owns the task
//! spawning, the sleeps and the network calls, and reports each call's
//! outcome back into [`RaceState::worker_attempt`]; everything the race
//! decides — retry delays, exhaustion, the single success or the single
//! aggregate failure — is decided and logged here.

use vstd::prelude::*;
use crate::errors::BotError;
use crate::retry::RetryStrategy;
use crate::types::{LogEntry, LogEventKind, LogLevel};

verus! {

/// Retry delay after the remote side throttled a worker.
pub const RATE_LIMITED_RETRY_MS: u64 = 50;

/// Retry delay after a transport-level failure.
pub const NETWORK_RETRY_MS: u64 = 10;

/// Retry delay after any other failure of a claim attempt.
pub const GENERIC_RETRY_MS: u64 = 5;

/// Transfers retry on a single ultra-short delay.
pub const TRANSFER_RETRY_MS: u64 = 2;

/// The two ledger actions a race can run.
#[derive(Debug, Clone, Copy, PartialEq, Eq, Structural)]
pub enum ActionKind {
    Claim,
    Transfer,
}

/// What one worker's ledger call came back with.
#[derive(Debug, Clone)]
pub enum AttemptOutcome {
    Success,
    Failure(BotError),
}

/// What a worker should do after reporting an outcome.
#[derive(Debug, Clone, Copy, PartialEq, Eq, Structural)]
pub enum WorkerAction {
    /// The worker is done: it won, it is exhausted, or a sibling won.
    Stop,
    /// Sleep this long, then attempt again.
    RetryAfter(u64),
}

/// One worker's progress within a race.
#[derive(Debug, Clone, Copy, PartialEq, Eq, Structural)]
pub struct WorkerState {
    pub attempts: usize,
    pub finished: bool,
}

/// The delay a worker picks after a failed attempt: transfers always
/// retry almost immediately; claims wait longer when throttled than on a
/// plain network failure.
pub open spec fn classify_delay(kind: ActionKind, e: BotError) -> u64 {
    match kind {
        ActionKind::Transfer => TRANSFER_RETRY_MS,
        ActionKind::Claim => match e {
            BotError::RateLimited => RATE_LIMITED_RETRY_MS,
            BotError::NetworkFailure => NETWORK_RETRY_MS,
            _ => GENERIC_RETRY_MS,
        },
    }
}

/// Milliseconds from the race's start to `now_ms`, zero if the clock
/// reads earlier than the start.
pub open spec fn elapsed_since(start_ms: u64, now_ms: u64) -> u64 {
    if now_ms >= start_ms {
        (now_ms - start_ms) as u64
    } else {
        0
    }
}

/// The log entry announcing a worker's attempt.
pub open spec fn started_entry(worker: usize, attempt: usize, now_ms: u64) -> LogEntry {
    LogEntry {
        timestamp_ms: now_ms,
        level: LogLevel::Info,
        kind: LogEventKind::AttemptStarted { worker, attempt },
    }
}

/// The single success entry of a won race.
pub open spec fn won_entry(worker: usize, start_ms: u64, now_ms: u64) -> LogEntry {
    LogEntry {
        timestamp_ms: now_ms,
        level: LogLevel::Success,
        kind: LogEventKind::RaceWon { worker, elapsed_ms: elapsed_since(start_ms, now_ms) },
    }
}

/// The entry for a failed attempt that will be retried.
pub open spec fn failed_entry(worker: usize, attempt: usize, delay_ms: u64, now_ms: u64) -> LogEntry {
    LogEntry {
        timestamp_ms: now_ms,
        level: LogLevel::Warn,
        kind: LogEventKind::AttemptFailed { worker, attempt, retry_delay_ms: delay_ms },
    }
}

/// The entry for a worker that used up its attempt budget.
pub open spec fn exhausted_entry(worker: usize, now_ms: u64) -> LogEntry {
    LogEntry {
        timestamp_ms: now_ms,
        level: LogLevel::Warn,
        kind: LogEventKind::WorkerExhausted { worker },
    }
}

/// The single aggregate failure entry of a lost race.
pub open spec fn lost_entry(now_ms: u64) -> LogEntry {
    LogEntry { timestamp_ms: now_ms, level: LogLevel::Error, kind: LogEventKind::RaceLost }
}

/// How many entries of a log carry the given level.
pub open spec fn count_level(log: Seq<LogEntry>, level: LogLevel) -> int
    decreases log.len(),
{
    if log.len() == 0 {
        0
    } else {
        count_level(log.drop_last(), level) + if log.last().level == level {
            1int
        } else {
            0int
        }
    }
}

/// SUCCESS entries of a log.
pub open spec fn success_events(log: Seq<LogEntry>) -> int {
    count_level(log, LogLevel::Success)
}

/// ERROR entries of a log.
pub open spec fn error_events(log: Seq<LogEntry>) -> int {
    count_level(log, LogLevel::Error)
}

/// Level counts add up over concatenation.
pub proof fn lemma_count_level_app(a: Seq<LogEntry>, b: Seq<LogEntry>, level: LogLevel)
    ensures
        count_level(a + b, level) == count_level(a, level) + count_level(b, level),
    decreases b.len(),
{
    if b.len() == 0 {
        assert(a + b =~= a);
    } else {
        lemma_count_level_app(a, b.drop_last(), level);
        assert((a + b).drop_last() =~= a + b.drop_last());
        assert((a + b).last() == b.last());
    }
}

/// Level count of a one-entry log.
proof fn lemma_count_level_one(e: LogEntry, level: LogLevel)
    ensures
        count_level(seq![e], level) == if e.level == level {
            1int
        } else {
            0int
        },
{
    assert(seq![e].drop_last() =~= Seq::<LogEntry>::empty());
    assert(count_level(Seq::<LogEntry>::empty(), level) == 0);
}

/// Level count of a two-entry log.
proof fn lemma_count_level_two(e1: LogEntry, e2: LogEntry, level: LogLevel)
    ensures
        count_level(seq![e1, e2], level) == (if e1.level == level {
            1int
        } else {
            0int
        }) + (if e2.level == level {
            1int
        } else {
            0int
        }),
{
    assert(seq![e1, e2].drop_last() =~= seq![e1]);
    lemma_count_level_one(e1, level);
}

/// One race of several workers at the same ledger action.
pub struct RaceState {
    pub kind: ActionKind,
    pub policy: RetryStrategy,
    pub fee: u64,
    pub active: bool,
    pub won: bool,
    pub started_at_ms: u64,
    pub workers: Vec<WorkerState>,
    pub log: Vec<LogEntry>,
}

impl RaceState {
    /// The race invariant. The active flag is monotone — a won race is
    /// never active again — and the log holds a SUCCESS entry exactly
    /// when the race has been won: never two, never one without a win.
    pub open spec fn wf(&self) -> bool {
        &&& self.policy.wf()
        &&& (self.won ==> !self.active)
        &&& success_events(self.log@) == (if self.won {
            1int
        } else {
            0int
        })
        &&& forall|i: int|
            0 <= i < self.workers@.len() ==> (#[trigger] self.workers@[i]).finished
                || self.workers@[i].attempts < self.policy.max_attempts
    }

    /// A race that has not yet been finished with [`RaceState::finish_race`]:
    /// it is active exactly until it is won, and no aggregate failure has
    /// been logged.
    pub open spec fn running(&self) -> bool {
        &&& self.wf()
        &&& self.active == !self.won
        &&& error_events(self.log@) == 0
    }

    /// Start a race: all workers fresh, the shared flag set, the log
    /// empty.
    pub fn new_race(
        kind: ActionKind,
        policy: RetryStrategy,
        fee: u64,
        concurrency: usize,
        now_ms: u64,
    ) -> (r: RaceState)
        requires
            policy.wf(),
        ensures
            r.running(),
            r.kind == kind,
            r.policy == policy,
            r.fee == fee,
            r.active,
            !r.won,
            r.started_at_ms == now_ms,
            r.workers@.len() == concurrency,
            forall|i: int|
                0 <= i < concurrency ==> (#[trigger] r.workers@[i]) == (WorkerState {
                    attempts: 0,
                    finished: false,
                }),
            r.log@ =~= Seq::<LogEntry>::empty(),
    {
        let mut workers: Vec<WorkerState> = Vec::new();
        let mut i: usize = 0;
        while i < concurrency
            invariant
                0 <= i <= concurrency,
                workers@.len() == i,
                forall|j: int|
                    0 <= j < i ==> (#[trigger] workers@[j]) == (WorkerState {
                        attempts: 0,
                        finished: false,
                    }),
            decreases concurrency - i,
        {
            workers.push(WorkerState { attempts: 0, finished: false });
            i = i + 1;
        }
        RaceState {
            kind,
            policy,
            fee,
            active: true,
            won: false,
            started_at_ms: now_ms,
            workers,
            log: Vec::new(),
        }
    }

    /// A worker reports the outcome of one ledger call.
    ///
    /// If the shared flag is already cleared (a sibling won) or the
    /// worker is done, nothing changes. On a success while the race is
    /// live, the flag flips — only this first flip has effect — and the
    /// single SUCCESS entry is logged. On a failure the worker either
    /// retries after a delay classified by the error, or, with its
    /// budget exhausted, stands down; neither surfaces an ERROR entry.
    pub fn worker_attempt(&mut self, worker: usize, outcome: &AttemptOutcome, now_ms: u64) -> (act:
        WorkerAction)
        requires
            old(self).wf(),
            worker < old(self).workers@.len(),
        ensures
            final(self).wf(),
            final(self).kind == old(self).kind,
            final(self).policy == old(self).policy,
            final(self).fee == old(self).fee,
            final(self).started_at_ms == old(self).started_at_ms,
            final(self).workers@.len() == old(self).workers@.len(),
            forall|j: int|
                0 <= j < old(self).workers@.len() && j != worker ==> final(self).workers@[j]
                    == old(self).workers@[j],
            // A sibling already won, or this worker is done: no effect.
            (!old(self).active || old(self).workers@[worker as int].finished) ==> {
                &&& *final(self) == *old(self)
                &&& act == WorkerAction::Stop
            },
            // First success of a live race: the flag flips, the single
            // SUCCESS entry is appended, the worker stands down.
            (old(self).active && !old(self).workers@[worker as int].finished && outcome
                is Success) ==> {
                &&& !final(self).active
                &&& final(self).won
                &&& final(self).workers@[worker as int] == (WorkerState {
                    attempts: (old(self).workers@[worker as int].attempts + 1) as usize,
                    finished: true,
                })
                &&& final(self).log@ == old(self).log@ + seq![
                    started_entry(
                        worker,
                        (old(self).workers@[worker as int].attempts + 1) as usize,
                        now_ms,
                    ),
                    won_entry(worker, old(self).started_at_ms, now_ms),
                ]
                &&& act == WorkerAction::Stop
            },
            // A failure with budget left: retry after the classified delay.
            (old(self).active && !old(self).workers@[worker as int].finished && outcome
                is Failure && old(self).workers@[worker as int].attempts + 1 < old(
                self,
            ).policy.max_attempts) ==> {
                &&& final(self).active == old(self).active
                &&& final(self).won == old(self).won
                &&& final(self).workers@[worker as int] == (WorkerState {
                    attempts: (old(self).workers@[worker as int].attempts + 1) as usize,
                    finished: false,
                })
                &&& final(self).log@ == old(self).log@ + seq![
                    started_entry(
                        worker,
                        (old(self).workers@[worker as int].attempts + 1) as usize,
                        now_ms,
                    ),
                    failed_entry(
                        worker,
                        (old(self).workers@[worker as int].attempts + 1) as usize,
                        classify_delay(old(self).kind, outcome->Failure_0),
                        now_ms,
                    ),
                ]
                &&& act == WorkerAction::RetryAfter(
                    classify_delay(old(self).kind, outcome->Failure_0),
                )
            },
            // A failure on the last budgeted attempt: the worker stands
            // down quietly; only the aggregate race outcome may surface
            // an ERROR entry later.
            (old(self).active && !old(self).workers@[worker as int].finished && outcome
                is Failure && old(self).workers@[worker as int].attempts + 1 >= old(
                self,
            ).policy.max_attempts) ==> {
                &&& final(self).active == old(self).active
                &&& final(self).won == old(self).won
                &&& final(self).workers@[worker as int] == (WorkerState {
                    attempts: (old(self).workers@[worker as int].attempts + 1) as usize,
                    finished: true,
                })
                &&& final(self).log@ == old(self).log@ + seq![
                    started_entry(
                        worker,
                        (old(self).workers@[worker as int].attempts + 1) as usize,
                        now_ms,
                    ),
                    exhausted_entry(worker, now_ms),
                ]
                &&& act == WorkerAction::Stop
            },
    {
        if !self.active || self.workers[worker].finished {
            return WorkerAction::Stop;
        }
        let ghost log0 = self.log@;
        let attempt: usize = self.workers[worker].attempts + 1;
        self.log.push(
            LogEntry {
                timestamp_ms: now_ms,
                level: LogLevel::Info,
                kind: LogEventKind::AttemptStarted { worker, attempt },
            },
        );
        match outcome {
            AttemptOutcome::Success => {
                self.active = false;
                self.won = true;
                self.workers.set(worker, WorkerState { attempts: attempt, finished: true });
                let elapsed: u64 = if now_ms >= self.started_at_ms {
                    now_ms - self.started_at_ms
                } else {
                    0
                };
                self.log.push(
                    LogEntry {
                        timestamp_ms: now_ms,
                        level: LogLevel::Success,
                        kind: LogEventKind::RaceWon { worker, elapsed_ms: elapsed },
                    },
                );
                proof {
                    assert(self.log@ =~= log0 + seq![
                        started_entry(worker, attempt, now_ms),
                        won_entry(worker, self.started_at_ms, now_ms),
                    ]);
                    lemma_count_level_app(
                        log0,
                        seq![
                            started_entry(worker, attempt, now_ms),
                            won_entry(worker, self.started_at_ms, now_ms),
                        ],
                        LogLevel::Success,
                    );
                    lemma_count_level_two(
                        started_entry(worker, attempt, now_ms),
                        won_entry(worker, self.started_at_ms, now_ms),
                        LogLevel::Success,
                    );
                }
                WorkerAction::Stop
            },
            AttemptOutcome::Failure(e) => {
                if attempt >= self.policy.max_attempts {
                    self.workers.set(worker, WorkerState { attempts: attempt, finished: true });
                    self.log.push(
                        LogEntry {
                            timestamp_ms: now_ms,
                            level: LogLevel::Warn,
                            kind: LogEventKind::WorkerExhausted { worker },
                        },
                    );
                    proof {
                        assert(self.log@ =~= log0 + seq![
                            started_entry(worker, attempt, now_ms),
                            exhausted_entry(worker, now_ms),
                        ]);
                        lemma_count_level_app(
                            log0,
                            seq![
                                started_entry(worker, attempt, now_ms),
                                exhausted_entry(worker, now_ms),
                            ],
                            LogLevel::Success,
                        );
                        lemma_count_level_two(
                            started_entry(worker, attempt, now_ms),
                            exhausted_entry(worker, now_ms),
                            LogLevel::Success,
                        );
                    }
                    WorkerAction::Stop
                } else {
                    let delay: u64 = match self.kind {
                        ActionKind::Transfer => TRANSFER_RETRY_MS,
                        ActionKind::Claim => match e {
                            BotError::RateLimited => RATE_LIMITED_RETRY_MS,
                            BotError::NetworkFailure => NETWORK_RETRY_MS,
                            _ => GENERIC_RETRY_MS,
                        },
                    };
                    self.workers.set(worker, WorkerState { attempts: attempt, finished: false });
                    self.log.push(
                        LogEntry {
                            timestamp_ms: now_ms,
                            level: LogLevel::Warn,
                            kind: LogEventKind::AttemptFailed {
                                worker,
                                attempt,
                                retry_delay_ms: delay,
                            },
                        },
                    );
                    proof {
                        assert(self.log@ =~= log0 + seq![
                            started_entry(worker, attempt, now_ms),
                            failed_entry(worker, attempt, delay, now_ms),
                        ]);
                        lemma_count_level_app(
                            log0,
                            seq![
                                started_entry(worker, attempt, now_ms),
                                failed_entry(worker, attempt, delay, now_ms),
                            ],
                            LogLevel::Success,
                        );
                        lemma_count_level_two(
                            started_entry(worker, attempt, now_ms),
                            failed_entry(worker, attempt, delay, now_ms),
                            LogLevel::Success,
                        );
                    }
                    WorkerAction::RetryAfter(delay)
                }
            },
        }
    }

    /// Close a race whose workers have all completed: a race nobody won
    /// gets its single aggregate ERROR entry, and the flag is cleared.
    pub fn finish_race(&mut self, now_ms: u64)
        requires
            old(self).wf(),
        ensures
            final(self).wf(),
            final(self).kind == old(self).kind,
            final(self).policy == old(self).policy,
            final(self).fee == old(self).fee,
            final(self).started_at_ms == old(self).started_at_ms,
            final(self).workers == old(self).workers,
            final(self).won == old(self).won,
            !final(self).active,
            old(self).won ==> final(self).log@ == old(self).log@,
            !old(self).won ==> final(self).log@ == old(self).log@ + seq![lost_entry(now_ms)],
            error_events(final(self).log@) == error_events(old(self).log@) + (if old(self).won {
                0int
            } else {
                1int
            }),
    {
        self.active = false;
        if !self.won {
            let ghost log0 = self.log@;
            self.log.push(
                LogEntry {
                    timestamp_ms: now_ms,
                    level: LogLevel::Error,
                    kind: LogEventKind::RaceLost,
                },
            );
            proof {
                assert(self.log@ =~= log0 + seq![lost_entry(now_ms)]);
                lemma_count_level_app(log0, seq![lost_entry(now_ms)], LogLevel::Success);
                lemma_count_level_app(log0, seq![lost_entry(now_ms)], LogLevel::Error);
                lemma_count_level_one(lost_entry(now_ms), LogLevel::Success);
                lemma_count_level_one(lost_entry(now_ms), LogLevel::Error);
            }
        }
    }
}

} // verus!

verus! {

/// Whether the scripted ledger accepts worker attempt `k + 1` (scripts
/// are indexed from zero; attempts past the script's end fail).
pub open spec fn script_success_at(s: Seq<bool>, k: int) -> bool {
    0 <= k < s.len() && s[k]
}

/// Whether a worker driven by this script succeeds within its attempt
/// budget.
pub open spec fn script_wins(s: Seq<bool>, max_attempts: usize) -> bool {
    exists|k: int| 0 <= k < max_attempts && #[trigger] script_success_at(s, k)
}

/// Run a whole race against a deterministic script standing in for the
/// ledger: `script[w][k]` says whether worker `w`'s attempt `k + 1`
/// succeeds. Workers are driven to completion in turn; as soon as one
/// wins, the shared flag stops every sibling at its next check.
///
/// The contract is the race's core guarantee: the race is won exactly
/// when some worker's script succeeds within the attempt budget, a won
/// race logs exactly one SUCCESS entry and no ERROR entry, and a lost
/// race logs exactly one aggregate ERROR entry and no SUCCESS entry.
pub fn run_scripted_race(
    kind: ActionKind,
    policy: RetryStrategy,
    fee: u64,
    script: &Vec<Vec<bool>>,
    now_ms: u64,
) -> (r: RaceState)
    requires
        policy.wf(),
    ensures
        r.wf(),
        !r.active,
        r.kind == kind,
        r.policy == policy,
        r.fee == fee,
        r.workers@.len() == script@.len(),
        r.won <==> exists|w: int|
            0 <= w < script@.len() && script_wins(#[trigger] script@[w]@, policy.max_attempts),
        success_events(r.log@) == (if r.won {
            1int
        } else {
            0int
        }),
        error_events(r.log@) == (if r.won {
            0int
        } else {
            1int
        }),
{
    let n: usize = script.len();
    let mut state = RaceState::new_race(kind, policy, fee, n, now_ms);
    let mut w: usize = 0;
    while w < n
        invariant
            0 <= w <= n,
            n == script@.len(),
            state.wf(),
            state.policy == policy,
            state.kind == kind,
            state.fee == fee,
            state.workers@.len() == n,
            state.active == !state.won,
            error_events(state.log@) == 0,
            state.won <==> exists|w2: int|
                0 <= w2 < w && script_wins(#[trigger] script@[w2]@, policy.max_attempts),
            forall|j: int|
                w <= j < n ==> (#[trigger] state.workers@[j]) == (WorkerState {
                    attempts: 0,
                    finished: false,
                }),
        decreases n - w,
    {
        let mut going: bool = true;
        while going
            invariant
                0 <= w < n,
                n == script@.len(),
                state.wf(),
                state.policy == policy,
                state.kind == kind,
                state.fee == fee,
                state.workers@.len() == n,
                state.active == !state.won,
                error_events(state.log@) == 0,
                state.won ==> exists|w2: int|
                    0 <= w2 <= w && script_wins(#[trigger] script@[w2]@, policy.max_attempts),
                !state.won ==> forall|w2: int|
                    0 <= w2 < w ==> !script_wins(#[trigger] script@[w2]@, policy.max_attempts),
                !state.won ==> forall|k: int|
                    0 <= k < state.workers@[w as int].attempts ==> !script_success_at(
                        #[trigger] script@[w as int]@,
                        k,
                    ),
                !going ==> state.won || state.workers@[w as int].attempts
                    == policy.max_attempts,
                going ==> state.won || !state.workers@[w as int].finished,
                forall|j: int|
                    w < j < n ==> (#[trigger] state.workers@[j]) == (WorkerState {
                        attempts: 0,
                        finished: false,
                    }),
            decreases policy.max_attempts - state.workers@[w as int].attempts, (if going {
                1int
            } else {
                0int
            }),
        {
            let a: usize = state.workers[w].attempts;
            let succ: bool = a < script[w].len() && script[w][a];
            let outcome = if succ {
                AttemptOutcome::Success
            } else {
                AttemptOutcome::Failure(BotError::NetworkFailure)
            };
            proof {
                if succ && state.active && !state.workers@[w as int].finished {
                    assert(script_success_at(script@[w as int]@, a as int));
                    assert(script_wins(script@[w as int]@, policy.max_attempts));
                }
            }
            let ghost pre = state;
            let act = state.worker_attempt(w, &outcome, now_ms);
            proof {
                if pre.active && !pre.workers@[w as int].finished {
                    let a1 = (pre.workers@[w as int].attempts + 1) as usize;
                    match outcome {
                        AttemptOutcome::Success => {
                            let evs = seq![
                                started_entry(w, a1, now_ms),
                                won_entry(w, pre.started_at_ms, now_ms),
                            ];
                            lemma_count_level_app(pre.log@, evs, LogLevel::Error);
                            lemma_count_level_two(evs[0], evs[1], LogLevel::Error);
                        },
                        AttemptOutcome::Failure(e) => {
                            if a1 < policy.max_attempts {
                                let evs = seq![
                                    started_entry(w, a1, now_ms),
                                    failed_entry(w, a1, classify_delay(pre.kind, e), now_ms),
                                ];
                                lemma_count_level_app(pre.log@, evs, LogLevel::Error);
                                lemma_count_level_two(evs[0], evs[1], LogLevel::Error);
                            } else {
                                let evs = seq![
                                    started_entry(w, a1, now_ms),
                                    exhausted_entry(w, now_ms),
                                ];
                                lemma_count_level_app(pre.log@, evs, LogLevel::Error);
                                lemma_count_level_two(evs[0], evs[1], LogLevel::Error);
                            }
                        },
                    }
                }
                if !state.won {
                    assert(forall|k: int|
                        0 <= k < state.workers@[w as int].attempts ==> !script_success_at(
                            #[trigger] script@[w as int]@,
                            k,
                        ));
                }
            }
            match act {
                WorkerAction::Stop => {
                    going = false;
                },
                WorkerAction::RetryAfter(_) => {
                },
            }
        }
        proof {
            if !state.won {
                assert(forall|k: int|
                    0 <= k < policy.max_attempts ==> !script_success_at(
                        #[trigger] script@[w as int]@,
                        k,
                    ));
                assert(!script_wins(script@[w as int]@, policy.max_attempts));
            }
        }
        w = w + 1;
    }
    state.finish_race(now_ms);
    state
}

} // verus!
