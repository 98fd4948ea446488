use vstd::prelude::*;

use crate::errors::RunError;
use crate::inspect::PromiseState;
use crate::inspect::Settlement;
use crate::inspect::state_line_spec;
use crate::run::Directive;
use crate::run::RunEvent;
use crate::run::RunPhase;
use crate::run::directive_of;
use crate::run::event_fits;
use crate::run::next_phase;
use crate::run::output_after;

verus! {

/// The report the pipeline owes for given engine outcomes: a compile failure
/// is a `CompileError`, an execution failure an `ExecutionError`, a result
/// that is not promise-shaped a `ResultShapeError`; otherwise the run
/// succeeds with exactly two lines, the state line and the coerced text of
/// the result slot.
pub open spec fn run_report(
    compile_ok: bool,
    execution_ok: bool,
    conversion: Option<Settlement>,
) -> Result<Seq<Seq<char>>, RunError> {
    if !compile_ok {
        Err(RunError::CompileError)
    } else if !execution_ok {
        Err(RunError::ExecutionError)
    } else {
        match conversion {
            None => Err(RunError::ResultShapeError),
            Some(settlement) => Ok(
                seq![state_line_spec(settlement.state), settlement.text@],
            ),
        }
    }
}

/// The outcome of driving the run machine through one complete linear run
/// from an empty report: the first failing directive's error, or the lines
/// emitted by the conversion step.
pub open spec fn pipeline_outcome(
    compile_ok: bool,
    execution_ok: bool,
    conversion: Option<Settlement>,
) -> Result<Seq<Seq<char>>, RunError> {
    match directive_of(RunEvent::CompileFinished(compile_ok)) {
        Directive::Fail(e) => Err(e),
        _ => match directive_of(RunEvent::ExecutionFinished(execution_ok)) {
            Directive::Fail(e) => Err(e),
            _ => match directive_of(RunEvent::ConversionFinished(conversion)) {
                Directive::Fail(e) => Err(e),
                _ => Ok(
                    output_after(
                        RunEvent::ConversionFinished(conversion),
                        Seq::<Seq<char>>::empty(),
                    ),
                ),
            },
        },
    }
}

/// Law: the run machine, driven through one complete run, reports exactly
/// what the pipeline owes — the same error at the same stage, or the same
/// two lines on success.
pub proof fn lemma_pipeline_report(
    compile_ok: bool,
    execution_ok: bool,
    conversion: Option<Settlement>,
)
    ensures
        pipeline_outcome(compile_ok, execution_ok, conversion) == run_report(
            compile_ok,
            execution_ok,
            conversion,
        ),
{
    match conversion {
        Some(settlement) => {
            assert(output_after(
                RunEvent::ConversionFinished(conversion),
                Seq::<Seq<char>>::empty(),
            ) =~= seq![state_line_spec(settlement.state), settlement.text@]);
        },
        None => {},
    }
}

/// Law: inspecting an already-fulfilled promise finishes the run and appends
/// exactly the `Fulfilled` state line and then the coerced text of that
/// promise's result.
pub proof fn lemma_fulfilled_inspection(out: Seq<Seq<char>>, settlement: Settlement)
    requires
        settlement.state == PromiseState::Fulfilled,
    ensures
        directive_of(RunEvent::ConversionFinished(Some(settlement))) == Directive::Finish,
        output_after(RunEvent::ConversionFinished(Some(settlement)), out) == out + seq![
            state_line_spec(PromiseState::Fulfilled),
            settlement.text@,
        ],
{
}

/// Law: inspecting an already-rejected promise finishes the run and appends
/// exactly the `Rejected` state line and then the coerced text of that
/// promise's result.
pub proof fn lemma_rejected_inspection(out: Seq<Seq<char>>, settlement: Settlement)
    requires
        settlement.state == PromiseState::Rejected,
    ensures
        directive_of(RunEvent::ConversionFinished(Some(settlement))) == Directive::Finish,
        output_after(RunEvent::ConversionFinished(Some(settlement)), out) == out + seq![
            state_line_spec(PromiseState::Rejected),
            settlement.text@,
        ],
{
}

/// Law: a compile failure aborts the run with `CompileError` and emits
/// nothing, and an aborted run accepts no further event — so no state line is
/// ever printed for a script that does not compile.
pub proof fn lemma_compile_failure_silent(out: Seq<Seq<char>>)
    ensures
        directive_of(RunEvent::CompileFinished(false)) == Directive::Fail(RunError::CompileError),
        next_phase(RunEvent::CompileFinished(false)) == RunPhase::Aborted,
        output_after(RunEvent::CompileFinished(false), out) == out,
        forall|ev: RunEvent| !event_fits(RunPhase::Aborted, ev),
{
}

/// Law: a result that is not promise-shaped aborts the run with
/// `ResultShapeError` and emits nothing — neither of the two trailing lines
/// is printed.
pub proof fn lemma_non_promise_result(out: Seq<Seq<char>>)
    ensures
        directive_of(RunEvent::ConversionFinished(None)) == Directive::Fail(
            RunError::ResultShapeError,
        ),
        next_phase(RunEvent::ConversionFinished(None)) == RunPhase::Aborted,
        output_after(RunEvent::ConversionFinished(None), out) == out,
{
}

} // verus!
