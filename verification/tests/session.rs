//! End-to-end session scenarios: feed the state machine one line at a
//! time and perform the floating-point display work exactly as the
//! surrounding program does.

use kalkulator::command::Command;
use kalkulator::eval::eval_plan;
use kalkulator::eval::EvalPlan;
use kalkulator::session::initial_state;
use kalkulator::session::step;
use kalkulator::session::Computation;
use kalkulator::session::SessionState;

fn text(v: &Vec<char>) -> String {
    v.iter().collect()
}

fn round_to(x: f64, decimal_places: u32) -> f64 {
    let multiplier = 10.0_f64.powi(decimal_places as i32);
    (x * multiplier).round() / multiplier
}

/// Evaluates a collected operation the way the surrounding program does:
/// parse both operand texts, follow the plan, and render the result line.
/// Returns the rendered result and whether division by zero was reported.
fn evaluate_and_render(comp: &Computation) -> (String, bool) {
    let a: f64 = text(&comp.a).parse().unwrap();
    let b: f64 = text(&comp.b).parse().unwrap();
    let mut div_by_zero = false;
    let out = match eval_plan(comp.op, b == 0.0) {
        EvalPlan::Sum => a + b,
        EvalPlan::Difference => a - b,
        EvalPlan::Product => a * b,
        EvalPlan::Quotient => a / b,
        EvalPlan::DivisionByZero => {
            div_by_zero = true;
            0.0
        }
        EvalPlan::Remainder => a % b,
        EvalPlan::Dividend => a,
        EvalPlan::RaisePower => a.powf(b),
        EvalPlan::Root => a.powf(1.0 / b),
        EvalPlan::RootDefault => a.powf(1.0 / 2.0),
        EvalPlan::NoResult => 0.0,
    };
    (format!("Result: {}", round_to(out, 3)), div_by_zero)
}

#[test]
fn addition_scenario_prints_result_five() {
    let out = step(initial_state(), "+");
    assert!(matches!(out.next, SessionState::AwaitingOperandA { op: Command::Add }));
    assert!(out.compute.is_none());

    let out = step(out.next, "2");
    assert!(matches!(out.next, SessionState::AwaitingOperandB { .. }));
    assert!(!out.invalid_operand);
    assert!(out.compute.is_none());

    let out = step(out.next, "3");
    assert!(matches!(out.next, SessionState::AwaitingCommand));
    let comp = out.compute.expect("both operands collected");
    assert_eq!(comp.op, Command::Add);
    assert_eq!(text(&comp.a), "2");
    assert_eq!(text(&comp.b), "3");
    let (line, div_by_zero) = evaluate_and_render(&comp);
    assert_eq!(line, "Result: 5");
    assert!(!div_by_zero);
}

#[test]
fn division_by_zero_scenario_reports_and_prints_zero() {
    let out = step(initial_state(), "/");
    let out = step(out.next, "4");
    let out = step(out.next, "0");
    let comp = out.compute.expect("both operands collected");
    assert_eq!(comp.op, Command::Divide);
    let (line, div_by_zero) = evaluate_and_render(&comp);
    assert!(div_by_zero);
    assert_eq!(line, "Result: 0");
}

#[test]
fn invalid_command_scenario_reports_and_collects_no_operands() {
    let out = step(initial_state(), "abc");
    assert!(out.invalid_command);
    assert!(matches!(out.next, SessionState::AwaitingCommand));
    assert!(out.compute.is_none());
    assert!(!out.show_help);
    assert!(!out.invalid_operand);
}

#[test]
fn square_root_scenario_with_degree_zero_prints_three() {
    let out = step(initial_state(), "sqrt");
    assert!(matches!(out.next, SessionState::AwaitingOperandA { op: Command::SquareRoot }));
    let out = step(out.next, "9");
    let out = step(out.next, "0");
    let comp = out.compute.expect("both operands collected");
    let (line, div_by_zero) = evaluate_and_render(&comp);
    assert_eq!(line, "Result: 3");
    assert!(!div_by_zero);
}

#[test]
fn exit_scenario_finishes_without_further_prompts() {
    let out = step(initial_state(), "exit");
    assert!(matches!(out.next, SessionState::Finished));
    assert!(out.compute.is_none());
    assert!(!out.invalid_command);

    // A finished session ignores anything further.
    let out = step(out.next, "+");
    assert!(matches!(out.next, SessionState::Finished));
    assert!(out.compute.is_none());
}

#[test]
fn help_and_clear_redisplay_the_panel() {
    let out = step(initial_state(), "help");
    assert!(out.show_help);
    assert!(!out.clear_screen);
    assert!(matches!(out.next, SessionState::AwaitingCommand));

    let out = step(out.next, "cls");
    assert!(out.show_help);
    assert!(out.clear_screen);
    assert!(matches!(out.next, SessionState::AwaitingCommand));
}

#[test]
fn rejected_operand_is_replaced_by_zero_mid_session() {
    let out = step(initial_state(), "+");
    let out = step(out.next, "x9");
    assert!(out.invalid_operand);
    let out = step(out.next, "7");
    assert!(!out.invalid_operand);
    let comp = out.compute.expect("both operands collected");
    assert_eq!(text(&comp.a), "0");
    assert_eq!(text(&comp.b), "7");
    let (line, _) = evaluate_and_render(&comp);
    assert_eq!(line, "Result: 7");
}

#[test]
fn modulo_by_zero_keeps_the_dividend() {
    let out = step(initial_state(), "%");
    let out = step(out.next, "7.5");
    let out = step(out.next, "0");
    let comp = out.compute.expect("both operands collected");
    let (line, div_by_zero) = evaluate_and_render(&comp);
    assert_eq!(line, "Result: 7.5");
    assert!(!div_by_zero);
}

#[test]
fn modulo_with_nonzero_divisor_prints_remainder() {
    let out = step(initial_state(), "%");
    let out = step(out.next, "7");
    let out = step(out.next, "3");
    let comp = out.compute.expect("both operands collected");
    let (line, div_by_zero) = evaluate_and_render(&comp);
    assert_eq!(line, "Result: 1");
    assert!(!div_by_zero);
}

#[test]
fn negative_and_fractional_operands_pass_through() {
    let out = step(initial_state(), "+");
    let out = step(out.next, "-2.5");
    assert!(!out.invalid_operand);
    let out = step(out.next, "1");
    let comp = out.compute.expect("both operands collected");
    assert_eq!(text(&comp.a), "-2.5");
    let (line, _) = evaluate_and_render(&comp);
    assert_eq!(line, "Result: -1.5");
}

#[test]
fn power_scenario_prints_result() {
    let out = step(initial_state(), "^");
    let out = step(out.next, "2");
    let out = step(out.next, "10");
    let comp = out.compute.expect("both operands collected");
    let (line, _) = evaluate_and_render(&comp);
    assert_eq!(line, "Result: 1024");
}

#[test]
fn root_with_nonzero_degree_uses_that_degree() {
    let out = step(initial_state(), "sqrt");
    let out = step(out.next, "8");
    let out = step(out.next, "3");
    let comp = out.compute.expect("both operands collected");
    assert_eq!(comp.op, Command::SquareRoot);
    let (line, _) = evaluate_and_render(&comp);
    assert_eq!(line, "Result: 2");
}

#[test]
fn quotient_is_rounded_to_three_decimals() {
    let out = step(initial_state(), "/");
    let out = step(out.next, "2");
    let out = step(out.next, "3");
    let comp = out.compute.expect("both operands collected");
    let (line, div_by_zero) = evaluate_and_render(&comp);
    assert_eq!(line, "Result: 0.667");
    assert!(!div_by_zero);
}
