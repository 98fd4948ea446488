use vstd::prelude::*;

verus! {

/// The settlement state of a promise-shaped value.
#[derive(Clone, Copy, Debug, PartialEq, Eq, Structural)]
pub enum PromiseState {
    Pending,
    Fulfilled,
    Rejected,
}

/// What one synchronous inspection of the script's result value sees: the
/// settlement state, and the coerced text of the value's result slot. For a
/// pending promise the result slot is unset and `text` is whatever the
/// engine's coercion returned for it; the inspection does not special-case
/// that.
#[derive(Debug)]
pub struct Settlement {
    pub state: PromiseState,
    pub text: String,
}

/// The label printed for a settlement state.
pub open spec fn state_label_spec(state: PromiseState) -> Seq<char> {
    match state {
        PromiseState::Pending => "Pending"@,
        PromiseState::Fulfilled => "Fulfilled"@,
        PromiseState::Rejected => "Rejected"@,
    }
}

/// The first trailing report line: the settlement state of the result.
pub open spec fn state_line_spec(state: PromiseState) -> Seq<char> {
    "promise state: "@ + state_label_spec(state)
}

/// The label printed for a settlement state.
pub fn state_label(state: PromiseState) -> (label: &'static str)
    ensures
        label@ == state_label_spec(state),
{
    match state {
        PromiseState::Pending => "Pending",
        PromiseState::Fulfilled => "Fulfilled",
        PromiseState::Rejected => "Rejected",
    }
}

/// Builds the state line for an inspected result.
pub fn format_state_line(state: PromiseState) -> (line: String)
    ensures
        line@ == state_line_spec(state),
{
    let mut line = "promise state: ".to_owned();
    line.append(state_label(state));
    line
}

} // verus!
