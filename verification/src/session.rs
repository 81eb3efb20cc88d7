//! The session state machine.
//!
//! The calculator is a read-evaluate-print loop: it resolves a command,
//! collects two operands when the command needs them, and hands the
//! collected operation to evaluation. `step` consumes one line of input
//! and says exactly what the surroundings must do next: which prompt
//! follows (implied by the next state), which messages to print, and
//! which operation, if any, to evaluate and display.

use vstd::prelude::*;
use crate::command::Command;
use crate::command::command_of;
use crate::command::needs_operands;
use crate::command::requires_operands;
use crate::command::resolve_command;
use crate::operand::operand_ok_spec;
use crate::operand::sanitize_operand;
use crate::operand::sanitize_spec;
use crate::operand::valid_operand_text;
use crate::text::normalize_spec;

verus! {

/// Where the session stands between input lines.
#[derive(Debug)]
pub enum SessionState {
    /// Waiting at the command prompt.
    AwaitingCommand,
    /// An operator command was entered; waiting for the first operand.
    AwaitingOperandA { op: Command },
    /// Waiting for the second operand.
    AwaitingOperandB { op: Command, a: Vec<char> },
    /// `exit` was entered; the session is over.
    Finished,
}

/// A fully collected operation: evaluate `op` on the numbers named by the
/// two operand texts, and display the result.
#[derive(Debug)]
pub struct Computation {
    pub op: Command,
    pub a: Vec<char>,
    pub b: Vec<char>,
}

/// What one step of the session asks its surroundings to do.
#[derive(Debug)]
pub struct StepOutput {
    /// The state the session is in after this line.
    pub next: SessionState,
    /// Print the help panel.
    pub show_help: bool,
    /// Clear the console first (only ever together with `show_help`).
    pub clear_screen: bool,
    /// Report the invalid-command error.
    pub invalid_command: bool,
    /// Report the invalid-characters error for the line just read.
    pub invalid_operand: bool,
    /// Evaluate this operation and display its result.
    pub compute: Option<Computation>,
}

/// Internal consistency of a state: operands are only ever collected for
/// commands that need them, and a stored first operand has already been
/// sanitized.
pub open spec fn state_wf(s: SessionState) -> bool {
    match s {
        SessionState::AwaitingOperandA { op } => needs_operands(op),
        SessionState::AwaitingOperandB { op, a } => needs_operands(op) && valid_operand_text(a@),
        _ => true,
    }
}

/// What a step from the command prompt must produce, given the command
/// `c` that the line resolves to.
pub open spec fn command_step_ok(out: StepOutput, c: Command) -> bool {
    &&& !out.invalid_operand
    &&& out.compute is None
    &&& out.show_help == (c is Help || c is ClearScreen)
    &&& out.clear_screen == (c is ClearScreen)
    &&& out.invalid_command == (c is Invalid)
    &&& needs_operands(c) ==> (out.next matches SessionState::AwaitingOperandA { op } && op == c)
    &&& (c is Help || c is ClearScreen || c is Invalid) ==> out.next is AwaitingCommand
    &&& c is Exit ==> out.next is Finished
}

/// What a step that reads the first operand must produce, for operator
/// `op` and raw line `l`.
pub open spec fn first_operand_step_ok(out: StepOutput, op: Command, l: Seq<char>) -> bool {
    &&& !out.show_help && !out.clear_screen && !out.invalid_command
    &&& out.compute is None
    &&& out.invalid_operand == !operand_ok_spec(l)
    &&& (out.next matches SessionState::AwaitingOperandB { op: op2, a } && op2 == op && a@
        == sanitize_spec(l))
}

/// What a step that reads the second operand must produce, for operator
/// `op`, stored first operand `a0`, and raw line `l`.
pub open spec fn second_operand_step_ok(
    out: StepOutput,
    op: Command,
    a0: Seq<char>,
    l: Seq<char>,
) -> bool {
    &&& !out.show_help && !out.clear_screen && !out.invalid_command
    &&& out.invalid_operand == !operand_ok_spec(l)
    &&& out.next is AwaitingCommand
    &&& (out.compute matches Some(comp) && comp.op == op && comp.a@ == a0 && comp.b@
        == sanitize_spec(l))
}

/// A finished session ignores further input and asks for nothing.
pub open spec fn finished_step_ok(out: StepOutput) -> bool {
    &&& !out.show_help && !out.clear_screen && !out.invalid_command && !out.invalid_operand
    &&& out.compute is None
    &&& out.next is Finished
}

/// The state a session starts in.
pub fn initial_state() -> (s: SessionState)
    ensures
        s is AwaitingCommand,
{
    SessionState::AwaitingCommand
}

/// Consumes one line of input and produces the next state together with
/// everything the surroundings must do for this line.
pub fn step(state: SessionState, line: &str) -> (out: StepOutput)
    requires
        state_wf(state),
    ensures
        state_wf(out.next),
        state is AwaitingCommand ==> command_step_ok(out, command_of(normalize_spec(line@))),
        (state matches SessionState::AwaitingOperandA { op } ==> first_operand_step_ok(
            out,
            op,
            line@,
        )),
        (state matches SessionState::AwaitingOperandB { op, a } ==> second_operand_step_ok(
            out,
            op,
            a@,
            line@,
        )),
        state is Finished ==> finished_step_ok(out),
{
    match state {
        SessionState::AwaitingCommand => {
            let c = resolve_command(line);
            if requires_operands(c) {
                StepOutput {
                    next: SessionState::AwaitingOperandA { op: c },
                    show_help: false,
                    clear_screen: false,
                    invalid_command: false,
                    invalid_operand: false,
                    compute: None,
                }
            } else {
                match c {
                    Command::Help => StepOutput {
                        next: SessionState::AwaitingCommand,
                        show_help: true,
                        clear_screen: false,
                        invalid_command: false,
                        invalid_operand: false,
                        compute: None,
                    },
                    Command::ClearScreen => StepOutput {
                        next: SessionState::AwaitingCommand,
                        show_help: true,
                        clear_screen: true,
                        invalid_command: false,
                        invalid_operand: false,
                        compute: None,
                    },
                    Command::Exit => StepOutput {
                        next: SessionState::Finished,
                        show_help: false,
                        clear_screen: false,
                        invalid_command: false,
                        invalid_operand: false,
                        compute: None,
                    },
                    _ => StepOutput {
                        next: SessionState::AwaitingCommand,
                        show_help: false,
                        clear_screen: false,
                        invalid_command: true,
                        invalid_operand: false,
                        compute: None,
                    },
                }
            }
        },
        SessionState::AwaitingOperandA { op } => {
            let (text, ok) = sanitize_operand(line);
            StepOutput {
                next: SessionState::AwaitingOperandB { op, a: text },
                show_help: false,
                clear_screen: false,
                invalid_command: false,
                invalid_operand: !ok,
                compute: None,
            }
        },
        SessionState::AwaitingOperandB { op, a } => {
            let (text, ok) = sanitize_operand(line);
            StepOutput {
                next: SessionState::AwaitingCommand,
                show_help: false,
                clear_screen: false,
                invalid_command: false,
                invalid_operand: !ok,
                compute: Some(Computation { op, a, b: text }),
            }
        },
        SessionState::Finished => StepOutput {
            next: SessionState::Finished,
            show_help: false,
            clear_screen: false,
            invalid_command: false,
            invalid_operand: false,
            compute: None,
        },
    }
}

} // verus!
