use bprog::exec::{ArithKind, FloatCmp, NumVal};
use bprog::machine::{Effect, Fault, Machine};
use bprog::op::Op;
use bprog::value::{dup_value, StackError, Value};

/// What a finished program left behind.
struct Outcome {
    stack: Vec<Value>,
    printed: Vec<Value>,
    fault: Option<Fault>,
    diags: usize,
}

fn as_f64(n: NumVal) -> f64 {
    match n {
        NumVal::I(i) => i as f64,
        NumVal::F(bits) => f64::from_bits(bits),
    }
}

/// Runs a program to completion, playing the host: floating-point
/// work is computed here, printing is collected, reads come from
/// `lines`.
fn drive(program: Vec<Value>, mut lines: Vec<String>) -> Outcome {
    let mut m = Machine::new(program);
    let mut printed = Vec::new();
    let mut fault = None;
    loop {
        match m.run(1_000_000) {
            None => continue,
            Some(Effect::Done) => break,
            Some(Effect::Fault(f)) => {
                fault = Some(f);
                break;
            }
            Some(Effect::Print(v)) => {
                printed.push(v);
                m.resume_print();
            }
            Some(Effect::Read) => {
                let line = lines.remove(0);
                m.resume_read(line);
            }
            Some(Effect::Arith(kind, a, b)) => {
                let (x, y) = (as_f64(a), as_f64(b));
                let r = match kind {
                    ArithKind::Add => x + y,
                    ArithKind::Sub => x - y,
                    ArithKind::Mul => x * y,
                    ArithKind::Div => x / y,
                };
                m.resume_float(r.to_bits());
            }
            Some(Effect::Cmp(a, b)) => {
                let (x, y) = (as_f64(a), as_f64(b));
                let c = if x < y {
                    FloatCmp::Less
                } else if x > y {
                    FloatCmp::Greater
                } else if x == y {
                    FloatCmp::Equal
                } else {
                    FloatCmp::Unordered
                };
                m.resume_cmp(c);
            }
            Some(Effect::Trunc(bits)) => {
                m.resume_trunc(f64::from_bits(bits) as i128);
            }
            Some(Effect::ParseFloat(s)) => {
                m.resume_parsed_float(s.parse::<f64>().ok().map(f64::to_bits));
            }
        }
    }
    let mut stack = Vec::new();
    while let Some(v) = m.stack.pop() {
        stack.push(v);
    }
    // `stack` now lists the values top first
    Outcome {
        stack,
        printed,
        fault,
        diags: m.diags.len(),
    }
}

fn iv(i: i128) -> Value {
    Value::Integer(i)
}

fn float(f: f64) -> Value {
    Value::Float(f.to_bits())
}

fn op(o: Op) -> Value {
    Value::Operator(o)
}

fn text(s: &str) -> Value {
    Value::String(s.to_string())
}

#[test]
fn dup_leaves_two_equal_copies() {
    let out = drive(vec![iv(7), op(Op::Dup)], vec![]);
    assert_eq!(out.stack, vec![iv(7), iv(7)]);
    assert!(out.fault.is_none());
}

#[test]
fn swap_reverses_the_top_two() {
    let out = drive(vec![iv(1), iv(2), op(Op::Swap)], vec![]);
    // top of stack first
    assert_eq!(out.stack, vec![iv(1), iv(2)]);
}

#[test]
fn empty_and_length() {
    let out = drive(vec![Value::List(vec![]), op(Op::Empty)], vec![]);
    assert_eq!(out.stack, vec![Value::Bool(true)]);
    let out = drive(vec![Value::List(vec![iv(1)]), op(Op::Empty)], vec![]);
    assert_eq!(out.stack, vec![Value::Bool(false)]);
    let out = drive(
        vec![Value::List(vec![iv(1), iv(2), iv(3)]), op(Op::Length)],
        vec![],
    );
    assert_eq!(out.stack, vec![iv(3)]);
}

#[test]
fn parse_integer_ok_and_overflow() {
    let out = drive(vec![text("3"), op(Op::ParseInt)], vec![]);
    assert_eq!(out.stack, vec![iv(3)]);
    let out = drive(vec![text("abc"), op(Op::ParseInt)], vec![]);
    assert_eq!(out.stack, vec![Value::Error(StackError::Overflow)]);
}

#[test]
fn integer_addition_is_exact() {
    let out = drive(vec![iv(5), iv(3), op(Op::Add)], vec![]);
    assert_eq!(out.stack, vec![iv(8)]);
}

#[test]
fn mixed_addition_promotes_to_float() {
    let out = drive(vec![iv(5), float(3.0), op(Op::Add)], vec![]);
    assert_eq!(out.stack, vec![float(8.0)]);
}

#[test]
fn integer_division_truncates() {
    let out = drive(vec![iv(7), iv(2), op(Op::IntDiv)], vec![]);
    assert_eq!(out.stack, vec![iv(3)]);
}

#[test]
fn true_division_is_floating() {
    let out = drive(vec![iv(7), iv(2), op(Op::Div)], vec![]);
    assert_eq!(out.stack, vec![float(3.5)]);
}

#[test]
fn if_chooses_the_then_branch() {
    let out = drive(
        vec![
            Value::Bool(true),
            op(Op::If),
            Value::Quotation(vec![iv(1)]),
            Value::Quotation(vec![iv(2)]),
        ],
        vec![],
    );
    assert_eq!(out.stack, vec![iv(1)]);
}

#[test]
fn if_chooses_the_else_branch() {
    let out = drive(
        vec![
            Value::Bool(false),
            op(Op::If),
            Value::Quotation(vec![iv(1)]),
            Value::Quotation(vec![iv(2)]),
        ],
        vec![],
    );
    assert_eq!(out.stack, vec![iv(2)]);
}

#[test]
fn map_applies_the_block_to_each_element() {
    let out = drive(
        vec![
            Value::List(vec![iv(1), iv(2), iv(3)]),
            op(Op::MapList),
            Value::Quotation(vec![iv(1), op(Op::Add)]),
        ],
        vec![],
    );
    assert_eq!(out.stack, vec![Value::List(vec![iv(2), iv(3), iv(4)])]);
}

#[test]
fn foldl_accumulates_left_to_right() {
    let out = drive(
        vec![
            Value::List(vec![iv(1), iv(2), iv(3)]),
            iv(0),
            op(Op::Foldl),
            Value::Quotation(vec![op(Op::Add)]),
        ],
        vec![],
    );
    assert_eq!(out.stack, vec![iv(6)]);
}

#[test]
fn times_runs_the_body_exactly_three_times() {
    let out = drive(
        vec![iv(3), op(Op::Times), Value::Quotation(vec![iv(1)])],
        vec![],
    );
    // the body pushed 1 three times, and nothing was left behind
    assert_eq!(out.stack, vec![iv(1), iv(1), iv(1)]);
    assert!(out.fault.is_none());
}

#[test]
fn constraint_violation_leaves_the_stack_alone() {
    // `%` demands two integers; a float operand is reported, the
    // operator does not run, and the operands stay where they were.
    let out = drive(vec![iv(5), float(1.5), op(Op::Mod)], vec![]);
    assert_eq!(out.stack, vec![float(1.5), iv(5)]);
    assert_eq!(out.diags, 1);
    assert!(out.fault.is_none());
}

#[test]
fn loop_runs_until_the_condition_holds() {
    // grow a counter from zero until it exceeds two
    let out = drive(
        vec![
            iv(0),
            op(Op::Loop),
            Value::Quotation(vec![op(Op::Dup), iv(2), op(Op::GT)]),
            Value::Quotation(vec![iv(1), op(Op::Add)]),
        ],
        vec![],
    );
    assert_eq!(out.stack, vec![iv(3)]);
}

#[test]
fn each_discards_the_block_results() {
    let out = drive(
        vec![
            Value::List(vec![iv(1), iv(2)]),
            op(Op::Each),
            Value::Quotation(vec![iv(10), op(Op::Mul)]),
        ],
        vec![],
    );
    assert_eq!(out.stack, vec![iv(20), iv(10)]);
}

#[test]
fn assignment_binds_and_eval_resolves() {
    let out = drive(
        vec![
            op(Op::AsSymbol),
            Value::Symbol("x".to_string()),
            iv(5),
            op(Op::Assign),
            op(Op::AsSymbol),
            Value::Symbol("x".to_string()),
            op(Op::EvalSymbol),
        ],
        vec![],
    );
    assert_eq!(out.stack, vec![iv(5)]);
}

#[test]
fn eval_of_an_unbound_symbol_is_the_symbol() {
    let out = drive(
        vec![
            op(Op::AsSymbol),
            Value::Symbol("ghost_name".to_string()),
            op(Op::EvalSymbol),
        ],
        vec![],
    );
    assert_eq!(out.stack, vec![Value::Symbol("ghost_name".to_string())]);
}

#[test]
fn bound_function_runs_when_evaluated() {
    let out = drive(
        vec![
            op(Op::AsSymbol),
            Value::Symbol("inc".to_string()),
            Value::Quotation(vec![iv(1), op(Op::Add)]),
            op(Op::AssignFunc),
            iv(41),
            op(Op::AsSymbol),
            Value::Symbol("inc".to_string()),
            op(Op::EvalSymbol),
        ],
        vec![],
    );
    assert_eq!(out.stack, vec![iv(42)]);
}

#[test]
fn err_makes_a_user_defined_error_value() {
    let out = drive(vec![op(Op::Error), text("boom")], vec![]);
    assert_eq!(
        out.stack,
        vec![Value::Error(StackError::UserDefined("boom".to_string()))]
    );
}

#[test]
fn words_splits_on_blanks() {
    let out = drive(vec![text("a bc  d"), op(Op::ParseWords)], vec![]);
    assert_eq!(
        out.stack,
        vec![Value::List(vec![text("a"), text("bc"), text("d")])]
    );
}

#[test]
fn head_tail_cons_append() {
    let l = Value::List(vec![iv(1), iv(2), iv(3)]);
    let out = drive(vec![dup_value(&l), op(Op::Head)], vec![]);
    assert_eq!(out.stack, vec![iv(1)]);
    let out = drive(vec![dup_value(&l), op(Op::Tail)], vec![]);
    assert_eq!(out.stack, vec![Value::List(vec![iv(2), iv(3)])]);
    let out = drive(vec![iv(0), l, op(Op::Cons)], vec![]);
    assert_eq!(
        out.stack,
        vec![Value::List(vec![iv(0), iv(1), iv(2), iv(3)])]
    );
    let out = drive(
        vec![
            Value::List(vec![iv(1)]),
            Value::List(vec![iv(2)]),
            op(Op::Append),
        ],
        vec![],
    );
    assert_eq!(out.stack, vec![Value::List(vec![iv(1), iv(2)])]);
}

#[test]
fn head_of_the_empty_list_is_an_error_value() {
    let out = drive(vec![Value::List(vec![]), op(Op::Head)], vec![]);
    assert_eq!(out.stack, vec![Value::Error(StackError::HeadEmpty)]);
}

#[test]
fn comparisons_across_numeric_tags() {
    let out = drive(vec![iv(2), float(2.5), op(Op::LT)], vec![]);
    assert_eq!(out.stack, vec![Value::Bool(true)]);
    let out = drive(vec![iv(3), float(3.0), op(Op::EQ)], vec![]);
    assert_eq!(out.stack, vec![Value::Bool(true)]);
    let out = drive(vec![iv(4), iv(3), op(Op::GT)], vec![]);
    assert_eq!(out.stack, vec![Value::Bool(true)]);
}

#[test]
fn string_order_is_lexicographic() {
    let out = drive(vec![text("abc"), text("abd"), op(Op::LT)], vec![]);
    assert_eq!(out.stack, vec![Value::Bool(true)]);
    let out = drive(vec![text("ab"), text("abc"), op(Op::LT)], vec![]);
    assert_eq!(out.stack, vec![Value::Bool(true)]);
}

#[test]
fn boolean_connectives() {
    let out = drive(
        vec![Value::Bool(true), Value::Bool(false), op(Op::And)],
        vec![],
    );
    assert_eq!(out.stack, vec![Value::Bool(false)]);
    let out = drive(
        vec![Value::Bool(true), Value::Bool(false), op(Op::Or)],
        vec![],
    );
    assert_eq!(out.stack, vec![Value::Bool(true)]);
    let out = drive(vec![Value::Bool(true), op(Op::Not)], vec![]);
    assert_eq!(out.stack, vec![Value::Bool(false)]);
}

#[test]
fn modulo_and_division_by_zero_are_undefined() {
    let out = drive(vec![iv(5), iv(0), op(Op::Mod)], vec![]);
    assert_eq!(out.stack, vec![Value::Error(StackError::Undefined)]);
    let out = drive(vec![iv(5), iv(0), op(Op::IntDiv)], vec![]);
    assert_eq!(out.stack, vec![Value::Error(StackError::Undefined)]);
}

#[test]
fn integer_overflow_is_an_error_value() {
    let out = drive(vec![iv(i128::MAX), iv(1), op(Op::Add)], vec![]);
    assert_eq!(out.stack, vec![Value::Error(StackError::Overflow)]);
}

#[test]
fn underflow_faults_the_program() {
    let out = drive(vec![op(Op::Add)], vec![]);
    assert_eq!(out.fault, Some(Fault::StackUnderflow(Op::Add)));
}

#[test]
fn missing_modifiers_fault_the_program() {
    let out = drive(vec![Value::Bool(true), op(Op::If)], vec![]);
    assert_eq!(out.fault, Some(Fault::InputExhausted(Op::If)));
}

#[test]
fn print_hands_the_value_to_the_host() {
    let out = drive(vec![iv(9), op(Op::IOPrint)], vec![]);
    assert_eq!(out.printed, vec![iv(9)]);
    assert_eq!(out.stack, vec![]);
}

#[test]
fn read_pushes_the_host_line() {
    let out = drive(
        vec![op(Op::IORead), op(Op::ParseInt)],
        vec!["77".to_string()],
    );
    assert_eq!(out.stack, vec![iv(77)]);
}

#[test]
fn parse_float_goes_through_the_host() {
    let out = drive(vec![text("2.5"), op(Op::ParseFloat)], vec![]);
    assert_eq!(out.stack, vec![float(2.5)]);
    let out = drive(vec![text("abc"), op(Op::ParseFloat)], vec![]);
    assert_eq!(out.stack, vec![Value::Error(StackError::Overflow)]);
}

#[test]
fn exec_runs_a_quotation_from_the_stack() {
    let out = drive(
        vec![
            Value::Quotation(vec![iv(2), iv(3), op(Op::Mul)]),
            op(Op::Exec),
        ],
        vec![],
    );
    assert_eq!(out.stack, vec![iv(6)]);
}

#[test]
fn pop_discards_the_top() {
    let out = drive(vec![iv(1), iv(2), op(Op::Pop)], vec![]);
    assert_eq!(out.stack, vec![iv(1)]);
}

#[test]
fn truncating_division_with_float_operands() {
    let out = drive(vec![float(7.9), iv(2), op(Op::IntDiv)], vec![]);
    assert_eq!(out.stack, vec![iv(3)]);
    let out = drive(vec![float(9.5), float(2.5), op(Op::IntDiv)], vec![]);
    assert_eq!(out.stack, vec![iv(4)]);
}

#[test]
fn append_concatenates_strings() {
    let out = drive(vec![text("ab"), text("cd"), op(Op::Append)], vec![]);
    assert_eq!(out.stack, vec![text("abcd")]);
}

#[test]
fn append_of_unlike_tags_is_reported() {
    let out = drive(
        vec![Value::List(vec![iv(1)]), text("a"), op(Op::Append)],
        vec![],
    );
    assert_eq!(out.diags, 1);
    assert_eq!(out.stack, vec![text("a"), Value::List(vec![iv(1)])]);
}

#[test]
fn equality_is_structural_on_lists() {
    let out = drive(
        vec![
            Value::List(vec![iv(1), iv(2)]),
            Value::List(vec![iv(1), iv(2)]),
            op(Op::EQ),
        ],
        vec![],
    );
    assert_eq!(out.stack, vec![Value::Bool(true)]);
}

#[test]
fn a_bad_modifier_is_reported_and_the_stack_kept() {
    // `map` wants an executable modifier; a number is reported
    let out = drive(
        vec![Value::List(vec![iv(1)]), op(Op::MapList), iv(5)],
        vec![],
    );
    assert_eq!(out.diags, 1);
    assert_eq!(out.stack, vec![Value::List(vec![iv(1)])]);
}

#[test]
fn times_zero_runs_the_body_never() {
    let out = drive(
        vec![iv(0), op(Op::Times), Value::Quotation(vec![iv(1)])],
        vec![],
    );
    assert_eq!(out.stack, vec![]);
    assert!(out.fault.is_none());
}

#[test]
fn a_small_budget_pauses_and_resumes() {
    let mut m = Machine::new(vec![iv(1), iv(2), op(Op::Add)]);
    let mut finished = false;
    for _ in 0..16 {
        match m.run(1) {
            None => continue,
            Some(Effect::Done) => {
                finished = true;
                break;
            }
            Some(_) => panic!("unexpected pause"),
        }
    }
    assert!(finished);
    assert_eq!(m.stack.pop(), Some(iv(3)));
}

#[test]
fn lists_compare_lexicographically() {
    let out = drive(
        vec![
            Value::List(vec![iv(1)]),
            Value::List(vec![iv(2)]),
            op(Op::LT),
        ],
        vec![],
    );
    assert_eq!(out.stack, vec![Value::Bool(true)]);
    // a proper prefix comes before its extensions
    let out = drive(
        vec![
            Value::List(vec![iv(1), iv(2)]),
            Value::List(vec![iv(1)]),
            op(Op::GT),
        ],
        vec![],
    );
    assert_eq!(out.stack, vec![Value::Bool(true)]);
    let out = drive(
        vec![
            Value::Quotation(vec![]),
            Value::Quotation(vec![iv(1)]),
            op(Op::LT),
        ],
        vec![],
    );
    assert_eq!(out.stack, vec![Value::Bool(true)]);
    assert_eq!(out.diags, 0);
}

#[test]
fn ordering_is_undefined_where_a_float_hides_in_a_list() {
    let out = drive(
        vec![
            Value::List(vec![float(1.5)]),
            Value::List(vec![float(2.5)]),
            op(Op::LT),
        ],
        vec![],
    );
    assert_eq!(out.stack, vec![Value::Error(StackError::Undefined)]);
}

#[test]
fn operator_references_order_by_their_names() {
    // fish the two operator references out of lists, then compare
    let out = drive(
        vec![
            Value::List(vec![op(Op::Add)]),
            op(Op::Head),
            Value::List(vec![op(Op::Sub)]),
            op(Op::Head),
            op(Op::LT),
        ],
        vec![],
    );
    // "+" comes before "-" by code point
    assert_eq!(out.stack, vec![Value::Bool(true)]);
}

#[test]
fn ordering_across_unlike_tags_is_a_reported_violation() {
    let out = drive(vec![iv(1), text("a"), op(Op::LT)], vec![]);
    assert_eq!(out.diags, 1);
    assert_eq!(out.stack.len(), 2);
}

#[test]
fn symbols_compare_by_name() {
    let out = drive(
        vec![
            Value::Symbol("alpha".to_string()),
            Value::Symbol("beta".to_string()),
            op(Op::LT),
        ],
        vec![],
    );
    assert_eq!(out.stack, vec![Value::Bool(true)]);
}

#[test]
fn subtraction_and_multiplication_are_exact() {
    let out = drive(vec![iv(10), iv(4), op(Op::Sub)], vec![]);
    assert_eq!(out.stack, vec![iv(6)]);
    let out = drive(vec![iv(6), iv(7), op(Op::Mul)], vec![]);
    assert_eq!(out.stack, vec![iv(42)]);
    let out = drive(vec![iv(7), iv(3), op(Op::Mod)], vec![]);
    assert_eq!(out.stack, vec![iv(1)]);
    let out = drive(vec![iv(-7), iv(3), op(Op::Mod)], vec![]);
    assert_eq!(out.stack, vec![iv(-1)]);
}

#[test]
fn ordering_a_value_against_itself_is_false() {
    let l = Value::List(vec![iv(1), iv(2)]);
    let out = drive(vec![dup_value(&l), dup_value(&l), op(Op::LT)], vec![]);
    assert_eq!(out.stack, vec![Value::Bool(false)]);
    let out = drive(vec![dup_value(&l), dup_value(&l), op(Op::GT)], vec![]);
    assert_eq!(out.stack, vec![Value::Bool(false)]);
}

#[test]
fn ordering_mirrors_when_the_operands_swap() {
    let a = Value::List(vec![iv(1)]);
    let b = Value::List(vec![iv(2)]);
    let out = drive(vec![dup_value(&a), dup_value(&b), op(Op::GT)], vec![]);
    assert_eq!(out.stack, vec![Value::Bool(false)]);
    let out = drive(vec![b, a, op(Op::GT)], vec![]);
    assert_eq!(out.stack, vec![Value::Bool(true)]);
}
