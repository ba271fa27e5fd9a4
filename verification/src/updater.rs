//! The update executor: a state machine that runs the upgrade command for
//! one package with bounded retries, an optional one-time fallback from the
//! fast-path strategy to the primary one, and post-hoc verification of the
//! installed version. The surrounding process performs each requested action
//! (spawn, sleep, probe) and reports what happened; every decision lives
//! here.

use vstd::prelude::*;

use crate::models::clone_opt_string;
use crate::models::UpdateResult;
use crate::models::MAX_RETRY_ATTEMPTS;
use crate::text::str_eq;

verus! {

/// The two installation strategies: the optional binary fast path, and the
/// default build-from-source primary path.
#[derive(Clone, Copy, PartialEq, Eq, Structural, Debug)]
pub enum Strategy {
    FastPath,
    Primary,
}

/// What the surrounding process reports back to the executor.
#[derive(Debug)]
pub enum ExecEvent {
    /// The upgrade subprocess ran to completion; true means it exited zero.
    Exited(bool),
    /// The upgrade subprocess could not be launched at all.
    SpawnFailed,
    /// A requested delay has elapsed.
    Slept,
    /// The installed version was probed again, with what was found.
    Probed(Option<String>),
}

/// What the executor asks the surrounding process to do next.
#[derive(Clone, Copy, PartialEq, Eq, Structural, Debug)]
pub enum ExecAction {
    /// Run the upgrade command with the given strategy.
    Spawn(Strategy),
    /// Wait the settle delay before verification.
    SleepSettle,
    /// Wait the retry delay before the next attempt.
    SleepRetry,
    /// Probe the installed version.
    Probe,
}

/// Where the executor stands.
pub enum ExecPhase {
    /// Attempt number `attempt` runs with this strategy; `fallback` marks
    /// the one extra primary-strategy run inside the first attempt after the
    /// fast path failed.
    Attempting { attempt: u32, strategy: Strategy, fallback: bool },
    /// The command reported success; the settle delay is being waited out.
    Settling { attempt: u32, fallback: bool },
    /// The installed version is being probed to verify the change.
    Verifying { attempt: u32, fallback: bool },
    /// The attempt failed or could not be verified; the retry delay is being
    /// waited out before the next attempt.
    Waiting { attempt: u32 },
    /// A terminal outcome was reached.
    Finished { result: UpdateResult },
    /// The subprocess could not be launched; the whole update aborts.
    Aborted,
}

/// The update executor for one package: the fixed inputs of the run and the
/// current phase.
pub struct UpdateMachine {
    pub package_name: String,
    pub old_version: Option<String>,
    pub use_fast_path: bool,
    pub phase: ExecPhase,
}

/// The strategy an attempt starts with.
pub open spec fn spec_initial_strategy(use_fast_path: bool) -> Strategy {
    if use_fast_path {
        Strategy::FastPath
    } else {
        Strategy::Primary
    }
}

/// The executor's starting state: the first attempt, with the configured
/// strategy, before any fallback.
pub open spec fn spec_init(
    package_name: String,
    old_version: Option<String>,
    use_fast_path: bool,
) -> UpdateMachine {
    UpdateMachine {
        package_name,
        old_version,
        use_fast_path,
        phase: ExecPhase::Attempting {
            attempt: 1,
            strategy: spec_initial_strategy(use_fast_path),
            fallback: false,
        },
    }
}

/// The outcome record the executor builds on termination.
pub open spec fn spec_result(
    m: UpdateMachine,
    new_version: Option<String>,
    success: bool,
) -> UpdateResult {
    UpdateResult {
        package_name: m.package_name,
        old_version: m.old_version,
        new_version,
        success,
    }
}

/// The action the surrounding process should perform in the current phase;
/// nothing in a terminal phase.
pub open spec fn spec_pending_action(m: UpdateMachine) -> Option<ExecAction> {
    match m.phase {
        ExecPhase::Attempting { attempt, strategy, fallback } => Some(ExecAction::Spawn(strategy)),
        ExecPhase::Settling { attempt, fallback } => Some(ExecAction::SleepSettle),
        ExecPhase::Verifying { attempt, fallback } => Some(ExecAction::Probe),
        ExecPhase::Waiting { attempt } => Some(ExecAction::SleepRetry),
        ExecPhase::Finished { result } => None,
        ExecPhase::Aborted => None,
    }
}

/// The transition relation of the executor. An exit code of zero leads to
/// settling and verification; a probe that finds a version ends in success,
/// whether or not the version changed; a probe that finds nothing retries
/// while attempts remain and otherwise trusts the exit code; a non-zero exit
/// falls back once from the fast path within the first attempt, retries
/// while attempts remain, and otherwise fails; a launch failure aborts. An
/// event that does not answer the pending action changes nothing.
pub open spec fn spec_step(m: UpdateMachine, event: ExecEvent) -> UpdateMachine {
    match (m.phase, event) {
        (ExecPhase::Attempting { attempt, strategy, fallback }, ExecEvent::Exited(ok)) => {
            if ok {
                UpdateMachine { phase: ExecPhase::Settling { attempt, fallback }, ..m }
            } else if strategy == Strategy::FastPath && attempt == 1 {
                UpdateMachine {
                    phase: ExecPhase::Attempting {
                        attempt: 1,
                        strategy: Strategy::Primary,
                        fallback: true,
                    },
                    ..m
                }
            } else if attempt < MAX_RETRY_ATTEMPTS {
                UpdateMachine { phase: ExecPhase::Waiting { attempt }, ..m }
            } else {
                UpdateMachine {
                    phase: ExecPhase::Finished { result: spec_result(m, None, false) },
                    ..m
                }
            }
        },
        (ExecPhase::Attempting { attempt, strategy, fallback }, ExecEvent::SpawnFailed) => {
            UpdateMachine { phase: ExecPhase::Aborted, ..m }
        },
        (ExecPhase::Settling { attempt, fallback }, ExecEvent::Slept) => {
            UpdateMachine { phase: ExecPhase::Verifying { attempt, fallback }, ..m }
        },
        (ExecPhase::Verifying { attempt, fallback }, ExecEvent::Probed(found)) => {
            match found {
                Some(v) => {
                    let unchanged = match m.old_version {
                        Some(o) => o@ == v@,
                        None => false,
                    };
                    if unchanged {
                        UpdateMachine {
                            phase: ExecPhase::Finished {
                                result: spec_result(m, m.old_version, true),
                            },
                            ..m
                        }
                    } else {
                        UpdateMachine {
                            phase: ExecPhase::Finished { result: spec_result(m, Some(v), true) },
                            ..m
                        }
                    }
                },
                None => {
                    if !fallback && attempt < MAX_RETRY_ATTEMPTS {
                        UpdateMachine { phase: ExecPhase::Waiting { attempt }, ..m }
                    } else {
                        UpdateMachine {
                            phase: ExecPhase::Finished { result: spec_result(m, None, true) },
                            ..m
                        }
                    }
                },
            }
        },
        (ExecPhase::Waiting { attempt }, ExecEvent::Slept) => {
            UpdateMachine {
                phase: ExecPhase::Attempting {
                    attempt: (attempt + 1) as u32,
                    strategy: spec_initial_strategy(m.use_fast_path),
                    fallback: false,
                },
                ..m
            }
        },
        _ => m,
    }
}

/// The attempt counter stays within its bounds: between one and the retry
/// cap, and strictly below the cap while a retry delay is pending.
pub open spec fn spec_wf(m: UpdateMachine) -> bool {
    match m.phase {
        ExecPhase::Attempting { attempt, strategy, fallback } => 1 <= attempt
            <= MAX_RETRY_ATTEMPTS,
        ExecPhase::Settling { attempt, fallback } => 1 <= attempt <= MAX_RETRY_ATTEMPTS,
        ExecPhase::Verifying { attempt, fallback } => 1 <= attempt <= MAX_RETRY_ATTEMPTS,
        ExecPhase::Waiting { attempt } => 1 <= attempt < MAX_RETRY_ATTEMPTS,
        ExecPhase::Finished { result } => true,
        ExecPhase::Aborted => true,
    }
}

/// Every transition preserves the attempt bounds.
pub proof fn lemma_step_preserves_wf(m: UpdateMachine, event: ExecEvent)
    requires
        spec_wf(m),
    ensures
        spec_wf(spec_step(m, event)),
{
}

impl UpdateMachine {
    /// Starts the executor for one package, given the version currently
    /// installed (if known) and whether the fast-path tool is available.
    pub fn new(package_name: String, old_version: Option<String>, use_fast_path: bool) -> (r: Self)
        ensures
            r == spec_init(package_name, old_version, use_fast_path),
            spec_wf(r),
    {
        let strategy = if use_fast_path {
            Strategy::FastPath
        } else {
            Strategy::Primary
        };
        UpdateMachine {
            package_name,
            old_version,
            use_fast_path,
            phase: ExecPhase::Attempting { attempt: 1, strategy, fallback: false },
        }
    }

    /// The outcome record for the current inputs.
    fn make_result(&self, new_version: Option<String>, success: bool) -> (r: UpdateResult)
        ensures
            r == spec_result(*self, new_version, success),
    {
        UpdateResult {
            package_name: self.package_name.clone(),
            old_version: clone_opt_string(&self.old_version),
            new_version,
            success,
        }
    }

    /// What the surrounding process should do next; nothing once the run is
    /// over.
    pub fn action(&self) -> (r: Option<ExecAction>)
        ensures
            r == spec_pending_action(*self),
    {
        match &self.phase {
            ExecPhase::Attempting { attempt, strategy, fallback } => Some(
                ExecAction::Spawn(*strategy),
            ),
            ExecPhase::Settling { attempt, fallback } => Some(ExecAction::SleepSettle),
            ExecPhase::Verifying { attempt, fallback } => Some(ExecAction::Probe),
            ExecPhase::Waiting { attempt } => Some(ExecAction::SleepRetry),
            ExecPhase::Finished { result } => None,
            ExecPhase::Aborted => None,
        }
    }

    /// Feeds the executor what happened; the new state is exactly what the
    /// transition relation says.
    pub fn on_event(&mut self, event: ExecEvent)
        requires
            spec_wf(*old(self)),
        ensures
            *final(self) == spec_step(*old(self), event),
            spec_wf(*final(self)),
    {
        let next: Option<ExecPhase> = match (&self.phase, &event) {
            (ExecPhase::Attempting { attempt, strategy, fallback }, ExecEvent::Exited(ok)) => {
                let attempt = *attempt;
                if *ok {
                    Some(ExecPhase::Settling { attempt, fallback: *fallback })
                } else if matches!(strategy, Strategy::FastPath) && attempt == 1 {
                    Some(
                        ExecPhase::Attempting {
                            attempt: 1,
                            strategy: Strategy::Primary,
                            fallback: true,
                        },
                    )
                } else if attempt < MAX_RETRY_ATTEMPTS {
                    Some(ExecPhase::Waiting { attempt })
                } else {
                    Some(ExecPhase::Finished { result: self.make_result(None, false) })
                }
            },
            (ExecPhase::Attempting { attempt, strategy, fallback }, ExecEvent::SpawnFailed) => {
                Some(ExecPhase::Aborted)
            },
            (ExecPhase::Settling { attempt, fallback }, ExecEvent::Slept) => {
                Some(ExecPhase::Verifying { attempt: *attempt, fallback: *fallback })
            },
            (ExecPhase::Verifying { attempt, fallback }, ExecEvent::Probed(found)) => {
                match found {
                    Some(v) => {
                        let unchanged = match &self.old_version {
                            Some(o) => str_eq(o.as_str(), v.as_str()),
                            None => false,
                        };
                        if unchanged {
                            Some(
                                ExecPhase::Finished {
                                    result: self.make_result(
                                        clone_opt_string(&self.old_version),
                                        true,
                                    ),
                                },
                            )
                        } else {
                            Some(
                                ExecPhase::Finished {
                                    result: self.make_result(Some(v.clone()), true),
                                },
                            )
                        }
                    },
                    None => {
                        if !*fallback && *attempt < MAX_RETRY_ATTEMPTS {
                            Some(ExecPhase::Waiting { attempt: *attempt })
                        } else {
                            Some(ExecPhase::Finished { result: self.make_result(None, true) })
                        }
                    },
                }
            },
            (ExecPhase::Waiting { attempt }, ExecEvent::Slept) => {
                let strategy = if self.use_fast_path {
                    Strategy::FastPath
                } else {
                    Strategy::Primary
                };
                Some(ExecPhase::Attempting { attempt: *attempt + 1, strategy, fallback: false })
            },
            _ => None,
        };
        match next {
            Some(phase) => {
                self.phase = phase;
            },
            None => {},
        }
    }

    /// The terminal outcome, once one was reached.
    pub fn outcome(&self) -> (r: Option<UpdateResult>)
        ensures
            match self.phase {
                ExecPhase::Finished { result } => r == Some(result),
                _ => r is None,
            },
    {
        match &self.phase {
            ExecPhase::Finished { result } => Some(result.clone()),
            _ => None,
        }
    }

    /// Whether the run aborted because the subprocess could not be launched.
    pub fn aborted(&self) -> (r: bool)
        ensures
            r == (self.phase is Aborted),
    {
        matches!(&self.phase, ExecPhase::Aborted)
    }
}

/// The state after feeding a sequence of events, first to last.
pub open spec fn spec_run(m: UpdateMachine, events: Seq<ExecEvent>) -> UpdateMachine
    decreases events.len(),
{
    if events.len() == 0 {
        m
    } else {
        spec_run(spec_step(m, events[0]), events.drop_first())
    }
}

/// The pending action answered by each event of a run, first to last.
pub open spec fn spec_action_trace(m: UpdateMachine, events: Seq<ExecEvent>) -> Seq<
    Option<ExecAction>,
>
    decreases events.len(),
{
    if events.len() == 0 {
        seq![]
    } else {
        seq![spec_pending_action(m)] + spec_action_trace(spec_step(m, events[0]), events.drop_first())
    }
}

/// When the upgrade command exits zero and the verification probe reports
/// the version already installed, the run ends at once in success with the
/// new version equal to the old one: a no-op reinstall counts as "already up
/// to date", never as failure.
pub proof fn lemma_executor_unchanged_is_success(
    name: String,
    old: String,
    probed: String,
    use_fast_path: bool,
)
    requires
        probed@ == old@,
    ensures
        ({
            let m0 = spec_init(name, Some(old), use_fast_path);
            let events = seq![
                ExecEvent::Exited(true),
                ExecEvent::Slept,
                ExecEvent::Probed(Some(probed)),
            ];
            &&& spec_run(m0, events).phase matches ExecPhase::Finished { result }
                && result.package_name == name && result.old_version == Some(old)
                && result.new_version == Some(old) && result.success
            &&& spec_action_trace(m0, events) == seq![
                Some(ExecAction::Spawn(spec_initial_strategy(use_fast_path))),
                Some(ExecAction::SleepSettle),
                Some(ExecAction::Probe),
            ]
        }),
{
    reveal_with_fuel(spec_run, 5);
    reveal_with_fuel(spec_action_trace, 5);
    let m0 = spec_init(name, Some(old), use_fast_path);
    let events = seq![ExecEvent::Exited(true), ExecEvent::Slept, ExecEvent::Probed(Some(probed))];
    let m1 = spec_step(m0, events[0]);
    let m2 = spec_step(m1, events[1]);
    let m3 = spec_step(m2, events[2]);
    assert(events.drop_first() =~= seq![ExecEvent::Slept, ExecEvent::Probed(Some(probed))]);
    assert(events.drop_first().drop_first() =~= seq![ExecEvent::Probed(Some(probed))]);
    assert(events.drop_first().drop_first().drop_first() =~= Seq::<ExecEvent>::empty());
    assert(spec_run(m0, events) == m3);
    assert(m3.phase matches ExecPhase::Finished { result } && result.new_version == Some(old));
    assert(spec_action_trace(m0, events) =~= seq![
        Some(ExecAction::Spawn(spec_initial_strategy(use_fast_path))),
        Some(ExecAction::SleepSettle),
        Some(ExecAction::Probe),
    ]);
}

/// When every attempt's upgrade command exits non-zero under the primary
/// strategy, the run makes exactly three attempts with a retry delay between
/// consecutive ones, and ends in failure with no new version.
pub proof fn lemma_executor_exhausts_retries(name: String, old: Option<String>)
    ensures
        ({
            let m0 = spec_init(name, old, false);
            let events = seq![
                ExecEvent::Exited(false),
                ExecEvent::Slept,
                ExecEvent::Exited(false),
                ExecEvent::Slept,
                ExecEvent::Exited(false),
            ];
            &&& spec_run(m0, events).phase matches ExecPhase::Finished { result }
                && result.package_name == name && result.old_version == old
                && result.new_version is None && !result.success
            &&& spec_action_trace(m0, events) == seq![
                Some(ExecAction::Spawn(Strategy::Primary)),
                Some(ExecAction::SleepRetry),
                Some(ExecAction::Spawn(Strategy::Primary)),
                Some(ExecAction::SleepRetry),
                Some(ExecAction::Spawn(Strategy::Primary)),
            ]
        }),
{
    reveal_with_fuel(spec_run, 7);
    reveal_with_fuel(spec_action_trace, 7);
    let m0 = spec_init(name, old, false);
    let events = seq![
        ExecEvent::Exited(false),
        ExecEvent::Slept,
        ExecEvent::Exited(false),
        ExecEvent::Slept,
        ExecEvent::Exited(false),
    ];
    let m1 = spec_step(m0, events[0]);
    let m2 = spec_step(m1, events[1]);
    let m3 = spec_step(m2, events[2]);
    let m4 = spec_step(m3, events[3]);
    let m5 = spec_step(m4, events[4]);
    let e1 = events.drop_first();
    let e2 = e1.drop_first();
    let e3 = e2.drop_first();
    let e4 = e3.drop_first();
    let e5 = e4.drop_first();
    assert(e1 =~= events.subrange(1, 5));
    assert(e2 =~= events.subrange(2, 5));
    assert(e3 =~= events.subrange(3, 5));
    assert(e4 =~= events.subrange(4, 5));
    assert(e5 =~= Seq::<ExecEvent>::empty());
    assert(m1.phase matches ExecPhase::Waiting { attempt } && attempt == 1);
    assert(m2.phase matches ExecPhase::Attempting { attempt, strategy, fallback } && attempt == 2
        && strategy == Strategy::Primary && !fallback);
    assert(m3.phase matches ExecPhase::Waiting { attempt } && attempt == 2);
    assert(m4.phase matches ExecPhase::Attempting { attempt, strategy, fallback } && attempt == 3
        && strategy == Strategy::Primary && !fallback);
    assert(m5.phase matches ExecPhase::Finished { result } && result.new_version is None
        && !result.success);
    assert(spec_run(m0, events) == m5);
    assert(spec_action_trace(m0, events) =~= seq![
        Some(ExecAction::Spawn(Strategy::Primary)),
        Some(ExecAction::SleepRetry),
        Some(ExecAction::Spawn(Strategy::Primary)),
        Some(ExecAction::SleepRetry),
        Some(ExecAction::Spawn(Strategy::Primary)),
    ]);
}

} // verus!
