use vstd::prelude::*;

use crate::errors::RunError;
use crate::text::dec_digits;
use crate::text::u64_to_decimal;

verus! {

/// The line emitted for one `log` call on a value whose coerced text is `text`.
pub open spec fn log_line_spec(text: Seq<char>) -> Seq<char> {
    "console.log: "@ + text
}

/// The text of a boolean, as the status line writes it.
pub open spec fn bool_text_spec(b: bool) -> Seq<char> {
    if b {
        "true"@
    } else {
        "false"@
    }
}

/// The status line emitted after one `delay` call: the requested duration,
/// then whether the first argument was callable.
pub open spec fn elapsed_line_spec(millis: nat, callable: bool) -> Seq<char> {
    dec_digits(millis) + " ms have elapsed "@ + bool_text_spec(callable)
}

/// The text of a boolean, as the status line writes it.
pub fn bool_text(b: bool) -> (s: &'static str)
    ensures
        s@ == bool_text_spec(b),
{
    if b {
        "true"
    } else {
        "false"
    }
}

/// Builds the line for one `log` call from the coerced text of its argument.
pub fn format_log_line(text: &str) -> (line: String)
    ensures
        line@ == log_line_spec(text@),
{
    let mut line = "console.log: ".to_owned();
    line.append(text);
    line
}

/// Builds the status line for one `delay` call.
pub fn format_elapsed_line(millis: u64, callable: bool) -> (line: String)
    ensures
        line@ == elapsed_line_spec(millis as nat, callable),
{
    let mut line = u64_to_decimal(millis);
    line.append(" ms have elapsed ");
    line.append(bool_text(callable));
    proof {
        assert(line@ =~= elapsed_line_spec(millis as nat, callable));
    }
    line
}

/// What the host must do for one `delay` call. The pause is a synchronous
/// block of the calling thread for the full duration; the status line is
/// emitted only after the pause; and the callback is never invoked — a
/// deliberate scope limitation of this host, not an omission.
#[derive(Debug)]
pub struct DelayCommand {
    /// Milliseconds the calling thread must pause, in full, before the line.
    pub sleep_millis: u64,
    /// The status line to emit once the pause has elapsed.
    pub line: String,
    /// Whether the script's callback is to be invoked afterwards: never.
    pub invoke_callback: bool,
}

/// Decides one `log` call. The argument is the engine's standard string
/// coercion of the logged value, or nothing where that coercion itself threw;
/// a failed coercion is fatal for the run.
pub fn handle_log(coerced: Option<&str>) -> (r: Result<String, RunError>)
    ensures
        r is Ok <==> coerced is Some,
        coerced matches Some(text) ==> r matches Ok(line) && line@ == log_line_spec(text@),
        coerced is None ==> r == Err::<String, RunError>(RunError::ExecutionError),
{
    match coerced {
        Some(text) => Ok(format_log_line(text)),
        None => Err(RunError::ExecutionError),
    }
}

/// Decides one `delay` call. `callable` says whether the first argument was a
/// function; `millis` is the second argument read as an integer, or nothing
/// where that read failed. A missing or negative duration is fatal for the
/// run; otherwise the command pauses for the full duration, emits the status
/// line, and never invokes the callback.
pub fn handle_delay(callable: bool, millis: Option<i64>) -> (r: Result<DelayCommand, RunError>)
    ensures
        r is Ok <==> (millis matches Some(ms) && ms >= 0),
        r matches Ok(cmd) ==> millis matches Some(ms) && cmd.sleep_millis == ms
            && cmd.invoke_callback == false && cmd.line@ == elapsed_line_spec(
            ms as nat,
            callable,
        ),
        r is Err ==> r == Err::<DelayCommand, RunError>(RunError::ExecutionError),
{
    match millis {
        Some(ms) if ms >= 0 => {
            let duration = ms as u64;
            Ok(
                DelayCommand {
                    sleep_millis: duration,
                    line: format_elapsed_line(duration, callable),
                    invoke_callback: false,
                },
            )
        },
        _ => Err(RunError::ExecutionError),
    }
}

} // verus!
