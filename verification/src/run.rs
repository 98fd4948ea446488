use vstd::prelude::*;

use crate::errors::RunError;
use crate::inspect::Settlement;
use crate::inspect::format_state_line;
use crate::inspect::state_line_spec;
use crate::lifecycle::EngineLifecycle;

verus! {

/// The phases of one run, in the order the pipeline reaches them:
/// an isolate is created, a global scope is installed into it, the source is
/// compiled, the compiled script is executed, and the resulting value is
/// converted and inspected. Any failure aborts the run for good.
#[derive(Clone, Copy, Debug, PartialEq, Eq, Structural)]
pub enum RunPhase {
    Idle,
    IsolateLive,
    ContextLive,
    ScriptReady,
    Evaluated,
    Reported,
    Aborted,
}

/// What the engine reported back after the embedding performed one action.
/// The booleans say whether compilation and execution succeeded; the
/// conversion outcome carries the inspected settlement, or nothing where the
/// result value was not promise-shaped.
#[derive(Debug)]
pub enum RunEvent {
    IsolateCreated,
    ContextInstalled,
    CompileFinished(bool),
    ExecutionFinished(bool),
    ConversionFinished(Option<Settlement>),
}

/// The next engine action the embedding must perform.
#[derive(Clone, Copy, Debug, PartialEq, Eq, Structural)]
pub enum EngineAction {
    CreateIsolate,
    InstallContext,
    CompileScript,
    ExecuteScript,
    ConvertResult,
}

/// What the pipeline tells the embedding after each event: perform the next
/// engine action, finish (the report lines are complete), or abort the run
/// with a fatal error.
#[derive(Clone, Copy, Debug, PartialEq, Eq, Structural)]
pub enum Directive {
    Proceed(EngineAction),
    Finish,
    Fail(RunError),
}

/// The views of the emitted lines, in emission order.
pub open spec fn views_of(lines: Seq<String>) -> Seq<Seq<char>> {
    lines.map_values(|s: String| s@)
}

/// Which event the engine may report in which phase: the pipeline is linear.
pub open spec fn event_fits(phase: RunPhase, ev: RunEvent) -> bool {
    match (phase, ev) {
        (RunPhase::Idle, RunEvent::IsolateCreated) => true,
        (RunPhase::IsolateLive, RunEvent::ContextInstalled) => true,
        (RunPhase::ContextLive, RunEvent::CompileFinished(_)) => true,
        (RunPhase::ScriptReady, RunEvent::ExecutionFinished(_)) => true,
        (RunPhase::Evaluated, RunEvent::ConversionFinished(_)) => true,
        _ => false,
    }
}

/// The phase reached after an event that fits the current phase.
pub open spec fn next_phase(ev: RunEvent) -> RunPhase {
    match ev {
        RunEvent::IsolateCreated => RunPhase::IsolateLive,
        RunEvent::ContextInstalled => RunPhase::ContextLive,
        RunEvent::CompileFinished(ok) => if ok {
            RunPhase::ScriptReady
        } else {
            RunPhase::Aborted
        },
        RunEvent::ExecutionFinished(ok) => if ok {
            RunPhase::Evaluated
        } else {
            RunPhase::Aborted
        },
        RunEvent::ConversionFinished(conversion) => if conversion is Some {
            RunPhase::Reported
        } else {
            RunPhase::Aborted
        },
    }
}

/// The directive issued for an event that fits the current phase: a failed
/// compilation, a failed execution and a result that is not promise-shaped
/// each abort the run with its own error; everything else proceeds, until the
/// inspected settlement completes the report.
pub open spec fn directive_of(ev: RunEvent) -> Directive {
    match ev {
        RunEvent::IsolateCreated => Directive::Proceed(EngineAction::InstallContext),
        RunEvent::ContextInstalled => Directive::Proceed(EngineAction::CompileScript),
        RunEvent::CompileFinished(ok) => if ok {
            Directive::Proceed(EngineAction::ExecuteScript)
        } else {
            Directive::Fail(RunError::CompileError)
        },
        RunEvent::ExecutionFinished(ok) => if ok {
            Directive::Proceed(EngineAction::ConvertResult)
        } else {
            Directive::Fail(RunError::ExecutionError)
        },
        RunEvent::ConversionFinished(conversion) => match conversion {
            Some(_) => Directive::Finish,
            None => Directive::Fail(RunError::ResultShapeError),
        },
    }
}

/// The report lines after an event: only a successful conversion emits
/// anything — the state line, then the coerced text of the result slot.
pub open spec fn output_after(ev: RunEvent, out: Seq<Seq<char>>) -> Seq<Seq<char>> {
    match ev {
        RunEvent::ConversionFinished(Some(settlement)) => out + seq![
            state_line_spec(settlement.state),
            settlement.text@,
        ],
        _ => out,
    }
}

/// One run of the pipeline: the current phase and the report lines emitted so
/// far. The embedding performs each directed engine action outside and hands
/// the outcome back as an event; every decision in between is made here.
pub struct Runner {
    pub phase: RunPhase,
    pub output: Vec<String>,
}

impl Runner {
    /// The views of the report lines emitted so far, in order.
    pub open spec fn lines(self) -> Seq<Seq<char>> {
        views_of(self.output@)
    }

    /// The run's invariant: the two trailing report lines exist exactly once
    /// the run has reported — a run that aborts, at whatever stage, has
    /// printed none of them.
    pub open spec fn wf(self) -> bool {
        &&& self.phase == RunPhase::Reported ==> self.lines().len() == 2
        &&& self.phase != RunPhase::Reported ==> self.lines().len() == 0
    }

    /// A fresh run: nothing emitted, no isolate yet. A run may begin only on
    /// an initialized, undisposed engine — no isolate may be created before
    /// initialization or after disposal.
    pub fn new(engine: &EngineLifecycle) -> (runner: Runner)
        requires
            engine.may_create_isolate(),
        ensures
            runner.phase == RunPhase::Idle,
            runner.lines() == Seq::<Seq<char>>::empty(),
            runner.wf(),
    {
        let runner = Runner { phase: RunPhase::Idle, output: Vec::new() };
        proof {
            assert(runner.lines() =~= Seq::<Seq<char>>::empty());
        }
        runner
    }

    /// The first engine action of every run: create the isolate.
    pub fn first_action(&self) -> (action: EngineAction)
        requires
            self.phase == RunPhase::Idle,
        ensures
            action == EngineAction::CreateIsolate,
    {
        EngineAction::CreateIsolate
    }

    /// Advances the run by one engine event: moves to the next phase, emits
    /// the report lines owed for the event, and directs the embedding to the
    /// next action, to the end of the run, or to a fatal abort.
    pub fn step(&mut self, ev: RunEvent) -> (directive: Directive)
        requires
            old(self).wf(),
            event_fits(old(self).phase, ev),
        ensures
            final(self).phase == next_phase(ev),
            directive == directive_of(ev),
            final(self).lines() == output_after(ev, old(self).lines()),
            final(self).wf(),
    {
        match ev {
            RunEvent::IsolateCreated => {
                self.phase = RunPhase::IsolateLive;
                Directive::Proceed(EngineAction::InstallContext)
            },
            RunEvent::ContextInstalled => {
                self.phase = RunPhase::ContextLive;
                Directive::Proceed(EngineAction::CompileScript)
            },
            RunEvent::CompileFinished(ok) => {
                if ok {
                    self.phase = RunPhase::ScriptReady;
                    Directive::Proceed(EngineAction::ExecuteScript)
                } else {
                    self.phase = RunPhase::Aborted;
                    Directive::Fail(RunError::CompileError)
                }
            },
            RunEvent::ExecutionFinished(ok) => {
                if ok {
                    self.phase = RunPhase::Evaluated;
                    Directive::Proceed(EngineAction::ConvertResult)
                } else {
                    self.phase = RunPhase::Aborted;
                    Directive::Fail(RunError::ExecutionError)
                }
            },
            RunEvent::ConversionFinished(conversion) => {
                match conversion {
                    Some(settlement) => {
                        self.phase = RunPhase::Reported;
                        let ghost state = settlement.state;
                        let ghost text = settlement.text@;
                        let state_line = format_state_line(settlement.state);
                        self.output.push(state_line);
                        self.output.push(settlement.text);
                        proof {
                            assert(self.lines() =~= old(self).lines() + seq![
                                state_line_spec(state),
                                text,
                            ]);
                        }
                        Directive::Finish
                    },
                    None => {
                        self.phase = RunPhase::Aborted;
                        Directive::Fail(RunError::ResultShapeError)
                    },
                }
            },
        }
    }
}

} // verus!
