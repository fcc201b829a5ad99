use bprog::bindings::{Binding, Bindings};
use bprog::op::Op;
use bprog::render::{int_to_text, render_value, FloatTexts};
use bprog::stack::Stack;
use bprog::text::{parse_integer, split_words, string_lt};
use bprog::types::{Constraint, Params, Signature, Type};
use bprog::value::{dup_value, value_eq, Coerced, StackError, Value};

fn iv(i: i128) -> Value {
    Value::Integer(i)
}

#[test]
fn stack_push_pop_top() {
    let mut s: Stack<i64> = Stack::new();
    assert!(s.is_empty());
    assert_eq!(s.size(), 0);
    assert_eq!(s.pop(), None);
    s.push(1);
    s.push(2);
    assert_eq!(s.size(), 2);
    assert_eq!(s.top(), Some(&2));
    assert_eq!(s.pop(), Some(2));
    assert_eq!(s.pop(), Some(1));
    assert!(s.is_empty());
}

#[test]
fn stack_clear_empties() {
    let mut s: Stack<i64> = Stack::new();
    s.push(1);
    s.push(2);
    s.clear();
    assert!(s.is_empty());
}

#[test]
fn stack_iter_walks_top_to_bottom() {
    let mut s: Stack<i64> = Stack::new();
    s.push(1);
    s.push(2);
    s.push(3);
    let mut it = s.iter();
    assert_eq!(it.next(), Some(&3));
    assert_eq!(it.next(), Some(&2));
    assert_eq!(it.next(), Some(&1));
    assert_eq!(it.next(), None);
}

#[test]
fn bindings_last_write_wins() {
    let mut b = Bindings::new();
    let name = "x".to_string();
    assert!(b.get(&name).is_none());
    b.set(
        name.clone(),
        Binding {
            value: iv(1),
            function: false,
            constant: false,
        },
    );
    b.set(
        name.clone(),
        Binding {
            value: iv(2),
            function: true,
            constant: false,
        },
    );
    let found = b.get(&name).unwrap();
    assert_eq!(found.value, iv(2));
    assert!(found.function);
    assert!(b.get(&"y".to_string()).is_none());
}

#[test]
fn parse_integer_handles_signs_and_bounds() {
    assert_eq!(parse_integer(&"0".to_string()), iv(0));
    assert_eq!(parse_integer(&"+42".to_string()), iv(42));
    assert_eq!(parse_integer(&"-42".to_string()), iv(-42));
    assert_eq!(
        parse_integer(&i128::MAX.to_string()),
        Value::Integer(i128::MAX)
    );
    assert_eq!(
        parse_integer(&i128::MIN.to_string()),
        Value::Integer(i128::MIN)
    );
    assert_eq!(
        parse_integer(&"170141183460469231731687303715884105728".to_string()),
        Value::Error(StackError::Overflow)
    );
    assert_eq!(
        parse_integer(&"".to_string()),
        Value::Error(StackError::Overflow)
    );
    assert_eq!(
        parse_integer(&"-".to_string()),
        Value::Error(StackError::Overflow)
    );
    assert_eq!(
        parse_integer(&"1x2".to_string()),
        Value::Error(StackError::Overflow)
    );
}

#[test]
fn split_words_trims_every_blank_run() {
    let words = split_words(&"  one\ttwo\nthree  ".to_string());
    assert_eq!(
        words,
        Value::List(vec![
            Value::String("one".to_string()),
            Value::String("two".to_string()),
            Value::String("three".to_string()),
        ])
    );
    assert_eq!(split_words(&"   ".to_string()), Value::List(vec![]));
    // the no-break space and the ideographic space separate words too
    let words = split_words(&"a\u{a0}b\u{3000}c".to_string());
    assert_eq!(
        words,
        Value::List(vec![
            Value::String("a".to_string()),
            Value::String("b".to_string()),
            Value::String("c".to_string()),
        ])
    );
}

#[test]
fn string_order_examples() {
    assert!(string_lt(&"a".to_string(), &"b".to_string()));
    assert!(string_lt(&"a".to_string(), &"ab".to_string()));
    assert!(!string_lt(&"b".to_string(), &"a".to_string()));
    assert!(!string_lt(&"a".to_string(), &"a".to_string()));
}

#[test]
fn coerce_between_list_and_quotation() {
    let l = Value::List(vec![iv(1), iv(2)]);
    let q = match l.coerce(Type::Quotation) {
        Coerced::Done(v) => v,
        _ => panic!("no host work is needed here"),
    };
    assert_eq!(q, Value::Quotation(vec![iv(1), iv(2)]));
    let back = match q.coerce(Type::List) {
        Coerced::Done(v) => v,
        _ => panic!("no host work is needed here"),
    };
    assert_eq!(back, Value::List(vec![iv(1), iv(2)]));
}

#[test]
fn coerce_wraps_scalars_and_rejects_nonsense() {
    match iv(5).coerce(Type::List) {
        Coerced::Done(v) => assert_eq!(v, Value::List(vec![iv(5)])),
        _ => panic!("wrapping needs no host work"),
    }
    match iv(5).coerce(Type::Float) {
        Coerced::IntToFloat(i) => assert_eq!(i, 5),
        _ => panic!("a numeric crossing is host work"),
    }
    match Value::Bool(true).coerce(Type::Symbol) {
        Coerced::Done(v) => assert_eq!(v, Value::Error(StackError::Undefined)),
        _ => panic!("an impossible coercion is not host work"),
    }
}

#[test]
fn deep_copy_and_structural_equality() {
    let v = Value::List(vec![
        iv(1),
        Value::String("s".to_string()),
        Value::Quotation(vec![Value::Operator(Op::Add)]),
    ]);
    let w = dup_value(&v);
    assert!(value_eq(&v, &w));
    assert_eq!(v, w);
    let different = Value::List(vec![iv(1)]);
    assert!(!value_eq(&v, &different));
}

#[test]
fn operator_names_are_their_tokens() {
    assert_eq!(Op::Add.name(), "+");
    assert_eq!(Op::IntDiv.name(), "div");
    assert_eq!(Op::MapList.name(), "map");
    assert_eq!(Op::AsSymbol.name(), "'");
    assert_eq!(Op::Assign.name(), ":=");
}

#[test]
fn signatures_declare_both_operand_sources() {
    let if_sig = Op::If.get_signature();
    assert_eq!(if_sig.stack_args, Params::Unary(Constraint::Boolean));
    assert_eq!(
        if_sig.modifiers,
        Params::Binary(Constraint::Any, Constraint::Any)
    );
    let fold = Op::Foldl.get_signature();
    assert_eq!(
        fold.stack_args,
        Params::Binary(Constraint::List, Constraint::Any)
    );
    assert_eq!(fold.modifiers, Params::Unary(Constraint::Executable));
    let add: Signature = Op::Add.get_signature();
    assert_eq!(add.stack_args, Params::Binary(Constraint::Num, Constraint::Num));
}

#[test]
fn constraint_satisfaction_table() {
    assert!(Constraint::Any.is_satisfied_by(&Type::Void));
    assert!(Constraint::Num.is_satisfied_by(&Type::Integer));
    assert!(Constraint::Num.is_satisfied_by(&Type::Float));
    assert!(!Constraint::Num.is_satisfied_by(&Type::String));
    assert!(Constraint::Sized.is_satisfied_by(&Type::String));
    assert!(Constraint::Sized.is_satisfied_by(&Type::List));
    assert!(Constraint::Sized.is_satisfied_by(&Type::Quotation));
    assert!(Constraint::Executable.is_satisfied_by(&Type::Operator));
    assert!(Constraint::Executable.is_satisfied_by(&Type::Quotation));
    assert!(!Constraint::Executable.is_satisfied_by(&Type::List));
    assert!(Constraint::Ord.is_satisfied_by(&Type::Bool));
    assert!(!Constraint::Ord.is_satisfied_by(&Type::Error));
    assert!(!Constraint::Eq.is_satisfied_by(&Type::Error));
    assert!(Constraint::Error.is_satisfied_by(&Type::Error));
}

#[test]
fn integers_render_in_decimal() {
    assert_eq!(int_to_text(0), "0");
    assert_eq!(int_to_text(7), "7");
    assert_eq!(int_to_text(42), "42");
    assert_eq!(int_to_text(-42), "-42");
    assert_eq!(int_to_text(i128::MAX), i128::MAX.to_string());
    assert_eq!(int_to_text(i128::MIN), i128::MIN.to_string());
}

#[test]
fn values_render_with_host_float_texts() {
    let empty = FloatTexts::new();
    assert_eq!(render_value(&Value::Void, &empty), "()");
    assert_eq!(render_value(&Value::Bool(true), &empty), "True");
    assert_eq!(
        render_value(&Value::String("hi".to_string()), &empty),
        "\"hi\""
    );
    assert_eq!(
        render_value(&Value::List(vec![iv(1), iv(2), iv(3)]), &empty),
        "[1 2 3]"
    );
    assert_eq!(
        render_value(
            &Value::Quotation(vec![iv(1), Value::Operator(Op::Add)]),
            &empty
        ),
        "{1 +}"
    );
    assert_eq!(
        render_value(&Value::Error(StackError::UserDefined("boom".to_string())), &empty),
        "err: boom"
    );
    let bits = (2.5f64).to_bits();
    let mut table = FloatTexts::new();
    table.set(bits, "2.5".to_string());
    assert_eq!(
        render_value(&Value::List(vec![Value::Float(bits)]), &table),
        "[2.5]"
    );
    // a float the table does not cover renders as nothing
    assert_eq!(render_value(&Value::Float(bits), &empty), "");
}

#[test]
fn stack_contents_render_top_first() {
    let mut stack: Stack<Value> = Stack::new();
    stack.push(Value::Bool(true));
    stack.push(Value::String("hello world!".to_string()));
    let table = FloatTexts::new();
    assert_eq!(stack.contents_to_string(&table), "\"hello world!\" True");
}
