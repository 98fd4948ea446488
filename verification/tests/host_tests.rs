use promise_host::bridge::{format_elapsed_line, format_log_line, handle_delay, handle_log};
use promise_host::errors::{accept_source, exit_status, RunError};
use promise_host::inspect::{format_state_line, state_label, PromiseState, Settlement};
use promise_host::lifecycle::{EngineLifecycle, EnginePhase};
use promise_host::run::{Directive, EngineAction, RunEvent, RunPhase, Runner};
use promise_host::scope::{global_scope_template, BindingValue, Capability};
use promise_host::text::u64_to_decimal;

#[test]
fn decimal_of_zero() {
    assert_eq!(u64_to_decimal(0), "0");
}

#[test]
fn decimal_of_single_digit() {
    assert_eq!(u64_to_decimal(7), "7");
}

#[test]
fn decimal_of_two_digits() {
    assert_eq!(u64_to_decimal(42), "42");
}

#[test]
fn decimal_with_inner_zeros() {
    assert_eq!(u64_to_decimal(1000), "1000");
}

#[test]
fn decimal_of_largest_value() {
    assert_eq!(u64_to_decimal(u64::MAX), "18446744073709551615");
}

#[test]
fn log_line_for_plain_text() {
    assert_eq!(format_log_line("hi"), "console.log: hi");
}

#[test]
fn log_line_for_empty_text() {
    assert_eq!(format_log_line(""), "console.log: ");
}

#[test]
fn log_call_with_coerced_text_emits_one_line() {
    let r = handle_log(Some("hi"));
    assert_eq!(r.unwrap(), "console.log: hi");
}

#[test]
fn log_call_with_failed_coercion_is_fatal() {
    let r = handle_log(None);
    assert_eq!(r.unwrap_err(), RunError::ExecutionError);
}

#[test]
fn elapsed_line_for_function_argument() {
    assert_eq!(format_elapsed_line(30, true), "30 ms have elapsed true");
}

#[test]
fn elapsed_line_for_non_function_argument() {
    assert_eq!(format_elapsed_line(0, false), "0 ms have elapsed false");
}

#[test]
fn delay_with_function_pauses_full_duration_and_never_calls_back() {
    let cmd = handle_delay(true, Some(30)).unwrap();
    assert_eq!(cmd.sleep_millis, 30);
    assert_eq!(cmd.line, "30 ms have elapsed true");
    assert!(!cmd.invoke_callback);
}

#[test]
fn delay_with_non_function_still_emits_line() {
    let cmd = handle_delay(false, Some(5)).unwrap();
    assert_eq!(cmd.sleep_millis, 5);
    assert_eq!(cmd.line, "5 ms have elapsed false");
    assert!(!cmd.invoke_callback);
}

#[test]
fn delay_with_zero_duration() {
    let cmd = handle_delay(true, Some(0)).unwrap();
    assert_eq!(cmd.sleep_millis, 0);
    assert_eq!(cmd.line, "0 ms have elapsed true");
}

#[test]
fn delay_with_negative_duration_is_fatal() {
    let r = handle_delay(true, Some(-1));
    assert_eq!(r.unwrap_err(), RunError::ExecutionError);
}

#[test]
fn delay_with_unreadable_duration_is_fatal() {
    let r = handle_delay(true, None);
    assert_eq!(r.unwrap_err(), RunError::ExecutionError);
}

#[test]
fn state_labels_match_engine_names() {
    assert_eq!(state_label(PromiseState::Pending), "Pending");
    assert_eq!(state_label(PromiseState::Fulfilled), "Fulfilled");
    assert_eq!(state_label(PromiseState::Rejected), "Rejected");
}

#[test]
fn state_line_for_fulfilled() {
    assert_eq!(format_state_line(PromiseState::Fulfilled), "promise state: Fulfilled");
}

#[test]
fn engine_initializes_exactly_once() {
    let mut engine = EngineLifecycle::new();
    assert_eq!(engine.phase, EnginePhase::Uninitialized);
    assert!(engine.initialize().is_ok());
    assert_eq!(engine.phase, EnginePhase::Initialized);
    assert_eq!(engine.initialize().unwrap_err(), RunError::EngineLifecycleError);
    assert_eq!(engine.phase, EnginePhase::Initialized);
}

#[test]
fn engine_disposes_exactly_once_after_initialization() {
    let mut engine = EngineLifecycle::new();
    assert_eq!(engine.dispose().unwrap_err(), RunError::EngineLifecycleError);
    assert!(engine.initialize().is_ok());
    assert!(engine.dispose().is_ok());
    assert_eq!(engine.phase, EnginePhase::Disposed);
    assert_eq!(engine.dispose().unwrap_err(), RunError::EngineLifecycleError);
    assert_eq!(engine.initialize().unwrap_err(), RunError::EngineLifecycleError);
}

#[test]
fn template_binds_log_under_console_namespace_and_delay_at_top_level() {
    let template = global_scope_template();
    assert_eq!(template.len(), 2);
    assert_eq!(template[0].name, "console2");
    match &template[0].value {
        BindingValue::Namespace(entries) => {
            assert_eq!(entries.len(), 1);
            assert_eq!(entries[0].name, "log");
            assert!(matches!(entries[0].value, BindingValue::Native(Capability::Log)));
        }
        _ => panic!("console2 must be a namespace object"),
    }
    assert_eq!(template[1].name, "setTimeout");
    assert!(matches!(template[1].value, BindingValue::Native(Capability::Delay)));
}

fn live_engine() -> EngineLifecycle {
    let mut engine = EngineLifecycle::new();
    engine.initialize().unwrap();
    engine
}

fn drive_to_compiled(runner: &mut Runner) {
    assert_eq!(runner.first_action(), EngineAction::CreateIsolate);
    assert_eq!(
        runner.step(RunEvent::IsolateCreated),
        Directive::Proceed(EngineAction::InstallContext)
    );
    assert_eq!(
        runner.step(RunEvent::ContextInstalled),
        Directive::Proceed(EngineAction::CompileScript)
    );
}

#[test]
fn fulfilled_promise_reports_state_then_coerced_text() {
    let mut runner = Runner::new(&live_engine());
    drive_to_compiled(&mut runner);
    assert_eq!(
        runner.step(RunEvent::CompileFinished(true)),
        Directive::Proceed(EngineAction::ExecuteScript)
    );
    assert_eq!(
        runner.step(RunEvent::ExecutionFinished(true)),
        Directive::Proceed(EngineAction::ConvertResult)
    );
    let settlement = Settlement { state: PromiseState::Fulfilled, text: String::from("42") };
    assert_eq!(
        runner.step(RunEvent::ConversionFinished(Some(settlement))),
        Directive::Finish
    );
    assert_eq!(runner.phase, RunPhase::Reported);
    assert_eq!(runner.output, vec!["promise state: Fulfilled", "42"]);
}

#[test]
fn rejected_promise_reports_state_then_coerced_text() {
    let mut runner = Runner::new(&live_engine());
    drive_to_compiled(&mut runner);
    runner.step(RunEvent::CompileFinished(true));
    runner.step(RunEvent::ExecutionFinished(true));
    let settlement = Settlement { state: PromiseState::Rejected, text: String::from("boom") };
    assert_eq!(
        runner.step(RunEvent::ConversionFinished(Some(settlement))),
        Directive::Finish
    );
    assert_eq!(runner.output, vec!["promise state: Rejected", "boom"]);
}

#[test]
fn pending_promise_reports_whatever_coercion_yielded() {
    let mut runner = Runner::new(&live_engine());
    drive_to_compiled(&mut runner);
    runner.step(RunEvent::CompileFinished(true));
    runner.step(RunEvent::ExecutionFinished(true));
    let settlement = Settlement { state: PromiseState::Pending, text: String::from("undefined") };
    assert_eq!(
        runner.step(RunEvent::ConversionFinished(Some(settlement))),
        Directive::Finish
    );
    assert_eq!(runner.output, vec!["promise state: Pending", "undefined"]);
}

#[test]
fn compile_failure_aborts_without_state_line() {
    let mut runner = Runner::new(&live_engine());
    drive_to_compiled(&mut runner);
    assert_eq!(
        runner.step(RunEvent::CompileFinished(false)),
        Directive::Fail(RunError::CompileError)
    );
    assert_eq!(runner.phase, RunPhase::Aborted);
    assert!(runner.output.is_empty());
}

#[test]
fn execution_failure_aborts_without_state_line() {
    let mut runner = Runner::new(&live_engine());
    drive_to_compiled(&mut runner);
    runner.step(RunEvent::CompileFinished(true));
    assert_eq!(
        runner.step(RunEvent::ExecutionFinished(false)),
        Directive::Fail(RunError::ExecutionError)
    );
    assert!(runner.output.is_empty());
}

#[test]
fn non_promise_result_aborts_without_trailing_lines() {
    let mut runner = Runner::new(&live_engine());
    drive_to_compiled(&mut runner);
    runner.step(RunEvent::CompileFinished(true));
    runner.step(RunEvent::ExecutionFinished(true));
    assert_eq!(
        runner.step(RunEvent::ConversionFinished(None)),
        Directive::Fail(RunError::ResultShapeError)
    );
    assert_eq!(runner.phase, RunPhase::Aborted);
    assert!(runner.output.is_empty());
}

#[test]
fn source_text_is_passed_through_unchanged() {
    let text = String::from("Promise.resolve(42)");
    assert_eq!(accept_source(Some(text)).unwrap(), "Promise.resolve(42)");
}

#[test]
fn failed_source_read_is_source_unavailable() {
    assert_eq!(accept_source(None).unwrap_err(), RunError::SourceUnavailable);
}

#[test]
fn exit_status_is_zero_exactly_on_success() {
    assert_eq!(exit_status(&Ok(())), 0);
    assert_eq!(exit_status(&Err(RunError::CompileError)), 1);
    assert_eq!(exit_status(&Err(RunError::SourceUnavailable)), 1);
}

#[test]
fn error_descriptions_name_the_failed_stage() {
    assert_eq!(
        RunError::CompileError.describe(),
        "the script source is not valid syntax"
    );
    assert_eq!(
        RunError::ResultShapeError.describe(),
        "the script's result is not promise-shaped"
    );
}
