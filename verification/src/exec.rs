//! The execution rule of each operator.
//!
//! An operator's rule consumes its stack operands and modifier
//! operands and yields an [`OpResult`]: either a finished value (which
//! the evaluation loop pushes, splices, or drops, by its tag), or a
//! piece of outside work ([`Pending`]) that the host must carry out —
//! floating-point arithmetic, printing, or reading a line.

use vstd::prelude::*;

use crate::bindings::{Binding, BindingSpec, Bindings};
use crate::op::Op;
use crate::text::{lex_lt, parse_integer, spec_parse_int, spec_words, split_words, str_lt, string_lt};
use crate::types::Type;
use crate::value::{
    dup_value, dup_values, type_of, val_view, value_eq, vseq, vseq_concat, vseq_index, vseq_len,
    vseq_skip, StackError, StackErrorSpec, Value, ValueSpec,
};

verus! {

/// The sign bit of a 64-bit IEEE-754 float.
pub const F64_SIGN: u64 = 0x8000_0000_0000_0000;

/// Operand values taken directly from the front of the pending input.
pub enum Args {
    Nullary,
    Unary(Value),
    Binary(Value, Value),
}

/// Model of [`Args`].
pub enum ArgsSpec {
    Nullary,
    Unary(ValueSpec),
    Binary(ValueSpec, ValueSpec),
}

impl View for Args {
    type V = ArgsSpec;

    open spec fn view(&self) -> ArgsSpec {
        match self {
            Args::Nullary => ArgsSpec::Nullary,
            Args::Unary(a) => ArgsSpec::Unary(a@),
            Args::Binary(a, b) => ArgsSpec::Binary(a@, b@),
        }
    }
}

/// A numeric operand handed to the host: an exact integer or the bit
/// pattern of a 64-bit float.
#[derive(Clone, Copy, PartialEq, Eq, Structural, Debug)]
pub enum NumVal {
    I(i128),
    F(u64),
}

/// Which arithmetic operation the host is asked for.
#[derive(Clone, Copy, PartialEq, Eq, Structural, Debug)]
pub enum ArithKind {
    Add,
    Sub,
    Mul,
    Div,
}

/// Which comparison outcome the paused operator is waiting to turn
/// into a boolean.
#[derive(Clone, Copy, PartialEq, Eq, Structural, Debug)]
pub enum CmpWanted {
    Lt,
    Gt,
    Eq,
}

/// How the host reports a floating-point comparison.
#[derive(Clone, Copy, PartialEq, Eq, Structural, Debug)]
pub enum FloatCmp {
    Less,
    Equal,
    Greater,
    /// At least one operand was not a number.
    Unordered,
}

/// Outside work the machine is waiting on, with everything needed to
/// finish the interrupted operator once the host answers.
pub enum Pending {
    /// The host renders and prints this value.
    Print(Value),
    /// The host reads one line; it arrives as a string.
    Read,
    /// The host computes `lhs op rhs` in 64-bit floating point and
    /// answers with the result's bit pattern.
    Arith(ArithKind, NumVal, NumVal),
    /// The host parses this text as a 64-bit float.
    ParseFloat(String),
    /// The host compares the two operands in 64-bit floating point.
    Cmp(CmpWanted, NumVal, NumVal),
    /// Truncating division: the host truncates any float operand to
    /// an integer; the division itself happens here.
    IntDiv(NumVal, NumVal),
}

/// Model of a [`Pending`].
pub enum PendingSpec {
    Print(ValueSpec),
    Read,
    Arith(ArithKind, NumVal, NumVal),
    ParseFloat(Seq<char>),
    Cmp(CmpWanted, NumVal, NumVal),
    IntDiv(NumVal, NumVal),
}

impl View for Pending {
    type V = PendingSpec;

    open spec fn view(&self) -> PendingSpec {
        match self {
            Pending::Print(v) => PendingSpec::Print(v@),
            Pending::Read => PendingSpec::Read,
            Pending::Arith(k, a, b) => PendingSpec::Arith(*k, *a, *b),
            Pending::ParseFloat(s) => PendingSpec::ParseFloat(s@),
            Pending::Cmp(w, a, b) => PendingSpec::Cmp(*w, *a, *b),
            Pending::IntDiv(a, b) => PendingSpec::IntDiv(*a, *b),
        }
    }
}

/// What executing one operator produced: a finished value, or outside
/// work for the host.
pub enum OpResult {
    Val(Value),
    Fx(Pending),
}

/// Model of an [`OpResult`].
pub enum OpResultSpec {
    Val(ValueSpec),
    Fx(PendingSpec),
}

impl View for OpResult {
    type V = OpResultSpec;

    open spec fn view(&self) -> OpResultSpec {
        match self {
            OpResult::Val(v) => OpResultSpec::Val(v@),
            OpResult::Fx(p) => OpResultSpec::Fx(p@),
        }
    }
}

/// The numeric operand a value stands for. Meaningful only for the
/// two numeric tags.
pub open spec fn num_of(v: ValueSpec) -> NumVal {
    match v {
        ValueSpec::Integer(i) => NumVal::I(i as i128),
        ValueSpec::Float(b) => NumVal::F(b),
        _ => NumVal::I(0),
    }
}

/// A value reinterpreted as a code fragment: a quotation's own tokens,
/// a list's elements, and any other value wrapped as a single token.
/// This is exactly what coercion to the Quotation tag yields.
pub open spec fn quot_of(v: ValueSpec) -> Seq<ValueSpec> {
    match v {
        ValueSpec::Quotation(q) => q,
        ValueSpec::List(l) => l,
        _ => seq![v],
    }
}

/// Reinterprets a value as a code fragment, following [`quot_of`].
pub fn to_quotation(v: Value) -> (r: Vec<Value>)
    ensures
        vseq(r@) == quot_of(v@),
{
    match v {
        Value::Quotation(q) => q,
        Value::List(l) => l,
        other => {
            let r = vec![other];
            proof {
                vseq_len(r@);
                vseq_index(r@, 0);
                assert(vseq(r@) =~= quot_of(r@[0]@));
            }
            r
        },
    }
}

/// Truncating division as the machine's integers perform it.
pub open spec fn trunc_div(x: int, d: int) -> int
    recommends
        d != 0,
{
    if x == 0 {
        0
    } else if x > 0 && d > 0 {
        x / d
    } else if x < 0 && d < 0 {
        (x * -1) / (d * -1)
    } else if x < 0 {
        ((x * -1) / d) * -1
    } else {
        (x / (d * -1)) * -1
    }
}

/// Truncating remainder, with the sign of the dividend.
pub open spec fn trunc_rem(x: int, d: int) -> int
    recommends
        d != 0,
{
    if x == 0 {
        0
    } else if x > 0 && d > 0 {
        x % d
    } else if x < 0 && d < 0 {
        ((x * -1) % (d * -1)) * -1
    } else if x < 0 {
        ((x * -1) % d) * -1
    } else {
        x % (d * -1)
    }
}

/// An integer result, or the `Overflow` error value when it does not
/// fit the machine's exact integers.
pub open spec fn int_result(v: int) -> ValueSpec {
    if i128::MIN <= v <= i128::MAX {
        ValueSpec::Integer(v)
    } else {
        ValueSpec::Error(StackErrorSpec::Overflow)
    }
}

/// What `%` leaves for two integer operands.
pub open spec fn spec_mod(a: int, b: int) -> ValueSpec {
    if b == 0 {
        ValueSpec::Error(StackErrorSpec::Undefined)
    } else if a == i128::MIN && b == -1 {
        ValueSpec::Integer(0)
    } else {
        ValueSpec::Integer(trunc_rem(a, b))
    }
}

/// What `div` leaves for two integer operands.
pub open spec fn spec_intdiv_ints(a: int, b: int) -> ValueSpec {
    if b == 0 {
        ValueSpec::Error(StackErrorSpec::Undefined)
    } else {
        int_result(trunc_div(a, b))
    }
}

/// What the three sum-like operators leave: exact arithmetic when both
/// operands are integers, and otherwise a request to the host for the
/// 64-bit float operation (after promotion of any integer operand).
/// `/` always divides in floating point.
pub open spec fn spec_arith(k: ArithKind, a: ValueSpec, b: ValueSpec) -> OpResultSpec {
    match (a, b) {
        (ValueSpec::Integer(x), ValueSpec::Integer(y)) if !(k is Div) => match k {
            ArithKind::Add => OpResultSpec::Val(int_result(x + y)),
            ArithKind::Sub => OpResultSpec::Val(int_result(x - y)),
            _ => OpResultSpec::Val(int_result(x * y)),
        },
        _ => OpResultSpec::Fx(PendingSpec::Arith(k, num_of(a), num_of(b))),
    }
}

/// What `div` leaves: exact truncating division when both operands are
/// integers, and otherwise a request to the host to truncate the float
/// operand(s) first.
pub open spec fn spec_intdiv(a: ValueSpec, b: ValueSpec) -> OpResultSpec {
    match (a, b) {
        (ValueSpec::Integer(x), ValueSpec::Integer(y)) => OpResultSpec::Val(spec_intdiv_ints(x, y)),
        _ => OpResultSpec::Fx(PendingSpec::IntDiv(num_of(a), num_of(b))),
    }
}

/// How two same-tag values stand in the structural total order; a
/// float met along the way leaves the outcome to decide elsewhere,
/// since the library does no floating-point arithmetic.
#[derive(Clone, Copy, PartialEq, Eq, Structural, Debug)]
pub enum OrderRes {
    Less,
    Equal,
    Greater,
    /// A float took part: the structural order does not decide.
    Undecided,
}

/// Three-way lexicographic comparison of character sequences.
pub open spec fn lex3(x: Seq<char>, y: Seq<char>) -> OrderRes {
    if x == y {
        OrderRes::Equal
    } else if lex_lt(x, y) {
        OrderRes::Less
    } else {
        OrderRes::Greater
    }
}

/// The structural total order on two values of the same tag: unit is
/// equal to itself, false comes before true, integers compare by
/// value, strings, symbols and operator names lexicographically by
/// code point, and the containers lexicographically element by
/// element. A float anywhere (or a cross-tag or error pair) leaves
/// the order undecided.
pub open spec fn cmp_values(a: ValueSpec, b: ValueSpec) -> OrderRes
    decreases a, 0int,
{
    match (a, b) {
        (ValueSpec::Float(_), _) => OrderRes::Undecided,
        (_, ValueSpec::Float(_)) => OrderRes::Undecided,
        (ValueSpec::Void, ValueSpec::Void) => OrderRes::Equal,
        (ValueSpec::Bool(x), ValueSpec::Bool(y)) => if x == y {
            OrderRes::Equal
        } else if !x {
            OrderRes::Less
        } else {
            OrderRes::Greater
        },
        (ValueSpec::Integer(x), ValueSpec::Integer(y)) => if x < y {
            OrderRes::Less
        } else if x == y {
            OrderRes::Equal
        } else {
            OrderRes::Greater
        },
        (ValueSpec::String(x), ValueSpec::String(y)) => lex3(x, y),
        (ValueSpec::Symbol(x), ValueSpec::Symbol(y)) => lex3(x, y),
        (ValueSpec::List(x), ValueSpec::List(y)) => cmp_seq(x, y, 0),
        (ValueSpec::Quotation(x), ValueSpec::Quotation(y)) => cmp_seq(x, y, 0),
        (ValueSpec::Operator(x), ValueSpec::Operator(y)) => if x == y {
            OrderRes::Equal
        } else {
            lex3(x.name_spec(), y.name_spec())
        },
        _ => OrderRes::Undecided,
    }
}

/// Lexicographic comparison of two value sequences, from position
/// `i` on: the first unequal pair decides; a proper prefix comes
/// first.
pub open spec fn cmp_seq(x: Seq<ValueSpec>, y: Seq<ValueSpec>, i: int) -> OrderRes
    decreases x, x.len() - i + 1,
    when 0 <= i
{
    if i >= x.len() && i >= y.len() {
        OrderRes::Equal
    } else if i >= x.len() {
        OrderRes::Less
    } else if i >= y.len() {
        OrderRes::Greater
    } else {
        let c = cmp_values(x[i], y[i]);
        if c is Equal {
            cmp_seq(x, y, i + 1)
        } else {
            c
        }
    }
}

/// The same order seen from the other side.
pub open spec fn flip_order(r: OrderRes) -> OrderRes {
    match r {
        OrderRes::Less => OrderRes::Greater,
        OrderRes::Greater => OrderRes::Less,
        OrderRes::Equal => OrderRes::Equal,
        OrderRes::Undecided => OrderRes::Undecided,
    }
}

/// The structural order never puts a value strictly before or after
/// itself: a value compares equal to itself, unless a float leaves
/// the order undecided.
pub proof fn cmp_values_refl(v: ValueSpec)
    ensures
        cmp_values(v, v) is Equal || cmp_values(v, v) is Undecided,
    decreases v, 0int,
{
    match v {
        ValueSpec::List(l) => cmp_seq_refl(l, 0),
        ValueSpec::Quotation(q) => cmp_seq_refl(q, 0),
        _ => {},
    }
}

proof fn cmp_seq_refl(x: Seq<ValueSpec>, i: int)
    requires
        0 <= i,
    ensures
        cmp_seq(x, x, i) is Equal || cmp_seq(x, x, i) is Undecided,
    decreases x, x.len() - i + 1,
{
    if i < x.len() {
        cmp_values_refl(x[i]);
        if cmp_values(x[i], x[i]) is Equal {
            cmp_seq_refl(x, i + 1);
        }
    }
}

/// Swapping the operands of the structural order flips its outcome.
pub proof fn cmp_values_flip(a: ValueSpec, b: ValueSpec)
    ensures
        cmp_values(b, a) == flip_order(cmp_values(a, b)),
    decreases a, 0int,
{
    match (a, b) {
        (ValueSpec::String(x), ValueSpec::String(y)) => lex3_flip(x, y),
        (ValueSpec::Symbol(x), ValueSpec::Symbol(y)) => lex3_flip(x, y),
        (ValueSpec::List(x), ValueSpec::List(y)) => cmp_seq_flip(x, y, 0),
        (ValueSpec::Quotation(x), ValueSpec::Quotation(y)) => cmp_seq_flip(x, y, 0),
        (ValueSpec::Operator(x), ValueSpec::Operator(y)) => if x != y {
            lex3_flip(x.name_spec(), y.name_spec());
        },
        _ => {},
    }
}

proof fn lex3_flip(x: Seq<char>, y: Seq<char>)
    ensures
        lex3(y, x) == flip_order(lex3(x, y)),
{
    crate::text::lex_lt_asym(x, y);
}

proof fn cmp_seq_flip(x: Seq<ValueSpec>, y: Seq<ValueSpec>, i: int)
    requires
        0 <= i,
    ensures
        cmp_seq(y, x, i) == flip_order(cmp_seq(x, y, i)),
    decreases x, x.len() - i + 1,
{
    if i < x.len() && i < y.len() {
        cmp_values_flip(x[i], y[i]);
        if cmp_values(x[i], y[i]) is Equal {
            cmp_seq_flip(x, y, i + 1);
        }
    }
}

/// Decides the structural order of two values.
pub fn cmp_value_pair(a: &Value, b: &Value) -> (r: OrderRes)
    ensures
        r == cmp_values(a@, b@),
    decreases *a, 0int,
{
    match (a, b) {
        (Value::Float(_), _) => OrderRes::Undecided,
        (_, Value::Float(_)) => OrderRes::Undecided,
        (Value::Void, Value::Void) => OrderRes::Equal,
        (Value::Bool(x), Value::Bool(y)) => if *x == *y {
            OrderRes::Equal
        } else if !*x {
            OrderRes::Less
        } else {
            OrderRes::Greater
        },
        (Value::Integer(x), Value::Integer(y)) => if *x < *y {
            OrderRes::Less
        } else if *x == *y {
            OrderRes::Equal
        } else {
            OrderRes::Greater
        },
        (Value::String(x), Value::String(y)) => if x.eq(y) {
            OrderRes::Equal
        } else if string_lt(x, y) {
            OrderRes::Less
        } else {
            OrderRes::Greater
        },
        (Value::Symbol(x), Value::Symbol(y)) => if x.eq(y) {
            OrderRes::Equal
        } else if string_lt(x, y) {
            OrderRes::Less
        } else {
            OrderRes::Greater
        },
        (Value::List(x), Value::List(y)) => cmp_value_seqs(x, y),
        (Value::Quotation(x), Value::Quotation(y)) => cmp_value_seqs(x, y),
        (Value::Operator(x), Value::Operator(y)) => if *x == *y {
            OrderRes::Equal
        } else {
            let nx = x.name();
            let ny = y.name();
            if String::from_str(nx).eq(&String::from_str(ny)) {
                OrderRes::Equal
            } else if str_lt(nx, ny) {
                OrderRes::Less
            } else {
                OrderRes::Greater
            }
        },
        _ => OrderRes::Undecided,
    }
}

/// Decides the lexicographic order of two value sequences.
pub fn cmp_value_seqs(x: &Vec<Value>, y: &Vec<Value>) -> (r: OrderRes)
    ensures
        r == cmp_seq(vseq(x@), vseq(y@), 0),
    decreases x@, 1int,
{
    let ghost (vx, vy) = (vseq(x@), vseq(y@));
    proof {
        vseq_len(x@);
        vseq_len(y@);
    }
    let mut i: usize = 0;
    while i < x.len() && i < y.len()
        invariant
            vx == vseq(x@),
            vy == vseq(y@),
            vx.len() == x@.len(),
            vy.len() == y@.len(),
            i <= x@.len(),
            i <= y@.len(),
            cmp_seq(vx, vy, 0) == cmp_seq(vx, vy, i as int),
        decreases x@.len() - i,
    {
        let c = cmp_value_pair(&x[i], &y[i]);
        proof {
            vseq_index(x@, i as int);
            vseq_index(y@, i as int);
        }
        if c != OrderRes::Equal {
            proof {
                assert(cmp_seq(vx, vy, i as int) == c);
            }
            return c;
        }
        i = i + 1;
    }
    if x.len() == y.len() {
        OrderRes::Equal
    } else if x.len() < y.len() {
        OrderRes::Less
    } else {
        OrderRes::Greater
    }
}

/// What `<` leaves for a compatible pair of operands: integer pairs
/// by value; any other numeric pair is compared by the host; a
/// same-tag pair follows the structural order, yielding the
/// `Undefined` error value where a float leaves it undecided; a
/// cross-tag non-numeric pair has no order.
pub open spec fn spec_lt(a: ValueSpec, b: ValueSpec) -> OpResultSpec {
    match (a, b) {
        (ValueSpec::Integer(x), ValueSpec::Integer(y)) => OpResultSpec::Val(ValueSpec::Bool(x < y)),
        _ => if is_numeric(a) && is_numeric(b) {
            OpResultSpec::Fx(PendingSpec::Cmp(CmpWanted::Lt, num_of(a), num_of(b)))
        } else if type_of(a) == type_of(b) {
            match cmp_values(a, b) {
                OrderRes::Undecided => OpResultSpec::Val(
                    ValueSpec::Error(StackErrorSpec::Undefined),
                ),
                c => OpResultSpec::Val(ValueSpec::Bool(c is Less)),
            }
        } else {
            OpResultSpec::Val(ValueSpec::Error(StackErrorSpec::Undefined))
        },
    }
}

/// What `>` leaves for a compatible pair of operands; the mirror of
/// [`spec_lt`].
pub open spec fn spec_gt(a: ValueSpec, b: ValueSpec) -> OpResultSpec {
    match (a, b) {
        (ValueSpec::Integer(x), ValueSpec::Integer(y)) => OpResultSpec::Val(ValueSpec::Bool(x > y)),
        _ => if is_numeric(a) && is_numeric(b) {
            OpResultSpec::Fx(PendingSpec::Cmp(CmpWanted::Gt, num_of(a), num_of(b)))
        } else if type_of(a) == type_of(b) {
            match cmp_values(a, b) {
                OrderRes::Undecided => OpResultSpec::Val(
                    ValueSpec::Error(StackErrorSpec::Undefined),
                ),
                c => OpResultSpec::Val(ValueSpec::Bool(c is Greater)),
            }
        } else {
            OpResultSpec::Val(ValueSpec::Error(StackErrorSpec::Undefined))
        },
    }
}

/// What `==` leaves for a compatible pair of operands: structural
/// equality, except that a pair involving a float is compared
/// numerically by the host.
pub open spec fn spec_eq_op(a: ValueSpec, b: ValueSpec) -> OpResultSpec {
    if (is_numeric(a) || is_numeric(b)) && (a is Float || b is Float) {
        OpResultSpec::Fx(PendingSpec::Cmp(CmpWanted::Eq, num_of(a), num_of(b)))
    } else {
        OpResultSpec::Val(ValueSpec::Bool(a == b))
    }
}

/// Whether a modelled value carries a numeric tag.
pub open spec fn is_numeric(v: ValueSpec) -> bool {
    v is Integer || v is Float
}

/// What `not` leaves: boolean negation, integer negation, or a flip of
/// a float's sign bit; other tags have no rule.
pub open spec fn spec_not(v: ValueSpec) -> ValueSpec {
    match v {
        ValueSpec::Bool(b) => ValueSpec::Bool(!b),
        ValueSpec::Integer(i) => int_result(-i),
        ValueSpec::Float(b) => ValueSpec::Float(
            if b >= F64_SIGN {
                (b - F64_SIGN) as u64
            } else {
                (b + F64_SIGN) as u64
            },
        ),
        _ => ValueSpec::Error(StackErrorSpec::Undefined),
    }
}

/// The length of a sized value (string, list or quotation).
pub open spec fn spec_len(v: ValueSpec) -> int {
    match v {
        ValueSpec::String(s) => s.len() as int,
        ValueSpec::List(l) => l.len() as int,
        ValueSpec::Quotation(q) => q.len() as int,
        _ => 0,
    }
}

/// What `head` leaves for a list operand.
pub open spec fn spec_head(l: Seq<ValueSpec>) -> ValueSpec {
    if l.len() == 0 {
        ValueSpec::Error(StackErrorSpec::HeadEmpty)
    } else {
        l[0]
    }
}

/// What `tail` leaves for a list operand.
pub open spec fn spec_tail(l: Seq<ValueSpec>) -> ValueSpec {
    if l.len() == 0 {
        ValueSpec::Error(StackErrorSpec::HeadEmpty)
    } else {
        ValueSpec::List(l.skip(1))
    }
}

/// What `append` leaves for two operands of the same sized tag.
pub open spec fn spec_append(a: ValueSpec, b: ValueSpec) -> ValueSpec {
    match (a, b) {
        (ValueSpec::String(x), ValueSpec::String(y)) => ValueSpec::String(x + y),
        (ValueSpec::List(x), ValueSpec::List(y)) => ValueSpec::List(x + y),
        (ValueSpec::Quotation(x), ValueSpec::Quotation(y)) => ValueSpec::Quotation(x + y),
        _ => ValueSpec::Error(StackErrorSpec::Undefined),
    }
}

/// The continuation `times` synthesizes: if the counter is above zero,
/// run the body once and recurse with the counter decremented.
pub open spec fn times_tokens(i: int, q: Seq<ValueSpec>) -> Seq<ValueSpec> {
    seq![
        ValueSpec::Integer(i),
        ValueSpec::Integer(0),
        ValueSpec::Operator(Op::GT),
        ValueSpec::Operator(Op::If),
        ValueSpec::Quotation(
            seq![
                ValueSpec::Quotation(q),
                ValueSpec::Operator(Op::Exec),
                ValueSpec::Integer(i),
                ValueSpec::Integer(1),
                ValueSpec::Operator(Op::Sub),
                ValueSpec::Operator(Op::Times),
                ValueSpec::Quotation(q),
            ],
        ),
        ValueSpec::Quotation(Seq::empty()),
    ]
}

/// The continuation `loop` synthesizes: run the condition; if it did
/// not hold yet, run the body and loop again.
pub open spec fn loop_tokens(c: Seq<ValueSpec>, b: Seq<ValueSpec>) -> Seq<ValueSpec> {
    seq![
        ValueSpec::Quotation(c),
        ValueSpec::Operator(Op::Exec),
        ValueSpec::Operator(Op::Not),
        ValueSpec::Operator(Op::If),
        ValueSpec::Quotation(
            seq![
                ValueSpec::Quotation(b),
                ValueSpec::Operator(Op::Exec),
                ValueSpec::Operator(Op::Loop),
                ValueSpec::Quotation(c),
                ValueSpec::Quotation(b),
            ],
        ),
        ValueSpec::Quotation(Seq::empty()),
    ]
}

/// The continuation `map` synthesizes: if the list is non-empty, apply
/// the block to the head and cons the result onto the mapped tail;
/// otherwise leave the empty list.
pub open spec fn map_tokens(l: Seq<ValueSpec>, q: Seq<ValueSpec>) -> Seq<ValueSpec> {
    seq![
        ValueSpec::List(l),
        ValueSpec::Operator(Op::Length),
        ValueSpec::Integer(0),
        ValueSpec::Operator(Op::GT),
        ValueSpec::Operator(Op::If),
        ValueSpec::Quotation(
            seq![
                ValueSpec::List(l),
                ValueSpec::Operator(Op::Head),
                ValueSpec::Quotation(q),
                ValueSpec::Operator(Op::Exec),
                ValueSpec::List(l),
                ValueSpec::Operator(Op::Tail),
                ValueSpec::Operator(Op::MapList),
                ValueSpec::Quotation(q),
                ValueSpec::Operator(Op::Cons),
            ],
        ),
        ValueSpec::Quotation(seq![ValueSpec::List(Seq::empty())]),
    ]
}

/// The continuation `each` synthesizes: like `map`, but the results
/// are left to the block and nothing is collected.
pub open spec fn each_tokens(l: Seq<ValueSpec>, q: Seq<ValueSpec>) -> Seq<ValueSpec> {
    seq![
        ValueSpec::List(l),
        ValueSpec::Operator(Op::Length),
        ValueSpec::Integer(0),
        ValueSpec::Operator(Op::GT),
        ValueSpec::Operator(Op::If),
        ValueSpec::Quotation(
            seq![
                ValueSpec::List(l),
                ValueSpec::Operator(Op::Head),
                ValueSpec::Quotation(q),
                ValueSpec::Operator(Op::Exec),
                ValueSpec::List(l),
                ValueSpec::Operator(Op::Tail),
                ValueSpec::Operator(Op::Each),
                ValueSpec::Quotation(q),
            ],
        ),
        ValueSpec::Quotation(Seq::empty()),
    ]
}

/// The continuation `foldl` synthesizes: if the list is non-empty,
/// combine the accumulator with the head and fold the tail; otherwise
/// leave the accumulator.
pub open spec fn foldl_tokens(l: Seq<ValueSpec>, acc: ValueSpec, q: Seq<ValueSpec>) -> Seq<
    ValueSpec,
> {
    seq![
        ValueSpec::List(l),
        ValueSpec::Operator(Op::Length),
        ValueSpec::Integer(0),
        ValueSpec::Operator(Op::GT),
        ValueSpec::Operator(Op::If),
        ValueSpec::Quotation(
            seq![
                acc,
                ValueSpec::List(l),
                ValueSpec::Operator(Op::Head),
                ValueSpec::Quotation(q),
                ValueSpec::Operator(Op::Exec),
                ValueSpec::List(l),
                ValueSpec::Operator(Op::Tail),
                ValueSpec::Operator(Op::Swap),
                ValueSpec::Operator(Op::Foldl),
                ValueSpec::Quotation(q),
            ],
        ),
        ValueSpec::Quotation(seq![acc]),
    ]
}

/// The rule of an operator with no stack operands.
pub open spec fn spec_nullary(op: Op, mods: ArgsSpec) -> OpResultSpec {
    match op {
        Op::IORead => OpResultSpec::Fx(PendingSpec::Read),
        Op::AsSymbol => match mods {
            ArgsSpec::Unary(ValueSpec::Symbol(s)) => OpResultSpec::Val(ValueSpec::Symbol(s)),
            _ => OpResultSpec::Val(ValueSpec::Void),
        },
        Op::Loop => match mods {
            ArgsSpec::Binary(c, b) => OpResultSpec::Val(
                ValueSpec::Quotation(loop_tokens(quot_of(c), quot_of(b))),
            ),
            _ => OpResultSpec::Val(ValueSpec::Void),
        },
        Op::Error => match mods {
            ArgsSpec::Unary(ValueSpec::String(m)) => OpResultSpec::Val(
                ValueSpec::Error(StackErrorSpec::UserDefined(m)),
            ),
            _ => OpResultSpec::Val(ValueSpec::Void),
        },
        _ => OpResultSpec::Val(ValueSpec::Void),
    }
}

/// The rule of an operator with one stack operand.
pub open spec fn spec_unary(
    op: Op,
    v: ValueSpec,
    mods: ArgsSpec,
    binds: Map<Seq<char>, BindingSpec>,
) -> OpResultSpec {
    match op {
        Op::IOPrint => OpResultSpec::Fx(PendingSpec::Print(v)),
        Op::ParseInt => match v {
            ValueSpec::String(s) => OpResultSpec::Val(spec_parse_int(s)),
            _ => OpResultSpec::Val(ValueSpec::Void),
        },
        Op::ParseFloat => match v {
            ValueSpec::String(s) => OpResultSpec::Fx(PendingSpec::ParseFloat(s)),
            _ => OpResultSpec::Val(ValueSpec::Void),
        },
        Op::ParseWords => match v {
            ValueSpec::String(s) => OpResultSpec::Val(spec_words(s)),
            _ => OpResultSpec::Val(ValueSpec::Void),
        },
        Op::Empty => OpResultSpec::Val(ValueSpec::Bool(spec_len(v) == 0)),
        Op::Length => OpResultSpec::Val(ValueSpec::Integer(spec_len(v))),
        Op::Head => match v {
            ValueSpec::List(l) => OpResultSpec::Val(spec_head(l)),
            _ => OpResultSpec::Val(ValueSpec::Void),
        },
        Op::Tail => match v {
            ValueSpec::List(l) => OpResultSpec::Val(spec_tail(l)),
            _ => OpResultSpec::Val(ValueSpec::Void),
        },
        Op::Not => OpResultSpec::Val(spec_not(v)),
        Op::Pop => OpResultSpec::Val(ValueSpec::Void),
        Op::Dup => OpResultSpec::Val(ValueSpec::Quotation(seq![v, v])),
        Op::Exec => OpResultSpec::Val(ValueSpec::Quotation(quot_of(v))),
        Op::If => match mods {
            ArgsSpec::Binary(t, e) => OpResultSpec::Val(
                ValueSpec::Quotation(
                    quot_of(
                        if v == ValueSpec::Bool(true) {
                            t
                        } else {
                            e
                        },
                    ),
                ),
            ),
            _ => OpResultSpec::Val(ValueSpec::Void),
        },
        Op::Times => match (v, mods) {
            (ValueSpec::Integer(i), ArgsSpec::Unary(m)) => OpResultSpec::Val(
                ValueSpec::Quotation(times_tokens(i, quot_of(m))),
            ),
            _ => OpResultSpec::Val(ValueSpec::Void),
        },
        Op::MapList => match (v, mods) {
            (ValueSpec::List(l), ArgsSpec::Unary(m)) => OpResultSpec::Val(
                ValueSpec::Quotation(map_tokens(l, quot_of(m))),
            ),
            _ => OpResultSpec::Val(ValueSpec::Void),
        },
        Op::Each => match (v, mods) {
            (ValueSpec::List(l), ArgsSpec::Unary(m)) => OpResultSpec::Val(
                ValueSpec::Quotation(each_tokens(l, quot_of(m))),
            ),
            _ => OpResultSpec::Val(ValueSpec::Void),
        },
        Op::EvalSymbol => match v {
            ValueSpec::Symbol(s) => if binds.contains_key(s) {
                OpResultSpec::Val(binds[s].value)
            } else {
                OpResultSpec::Val(ValueSpec::Symbol(s))
            },
            _ => OpResultSpec::Val(ValueSpec::Void),
        },
        _ => OpResultSpec::Val(ValueSpec::Void),
    }
}

/// The rule of an operator with two stack operands; assignment also
/// yields the updated binding environment.
pub open spec fn spec_binary(
    op: Op,
    lhs: ValueSpec,
    rhs: ValueSpec,
    mods: ArgsSpec,
    binds: Map<Seq<char>, BindingSpec>,
) -> (OpResultSpec, Map<Seq<char>, BindingSpec>) {
    match op {
        Op::Mod => match (lhs, rhs) {
            (ValueSpec::Integer(x), ValueSpec::Integer(y)) => (
                OpResultSpec::Val(spec_mod(x, y)),
                binds,
            ),
            _ => (OpResultSpec::Val(ValueSpec::Void), binds),
        },
        Op::Add => (spec_arith(ArithKind::Add, lhs, rhs), binds),
        Op::Sub => (spec_arith(ArithKind::Sub, lhs, rhs), binds),
        Op::Mul => (spec_arith(ArithKind::Mul, lhs, rhs), binds),
        Op::Div => (spec_arith(ArithKind::Div, lhs, rhs), binds),
        Op::IntDiv => (spec_intdiv(lhs, rhs), binds),
        Op::LT => (spec_lt(lhs, rhs), binds),
        Op::GT => (spec_gt(lhs, rhs), binds),
        Op::EQ => (spec_eq_op(lhs, rhs), binds),
        Op::And => match (lhs, rhs) {
            (ValueSpec::Bool(x), ValueSpec::Bool(y)) => (
                OpResultSpec::Val(ValueSpec::Bool(x && y)),
                binds,
            ),
            _ => (OpResultSpec::Val(ValueSpec::Void), binds),
        },
        Op::Or => match (lhs, rhs) {
            (ValueSpec::Bool(x), ValueSpec::Bool(y)) => (
                OpResultSpec::Val(ValueSpec::Bool(x || y)),
                binds,
            ),
            _ => (OpResultSpec::Val(ValueSpec::Void), binds),
        },
        Op::Append => (OpResultSpec::Val(spec_append(lhs, rhs)), binds),
        Op::Cons => match rhs {
            ValueSpec::List(l) => (OpResultSpec::Val(ValueSpec::List(seq![lhs] + l)), binds),
            _ => (OpResultSpec::Val(ValueSpec::Void), binds),
        },
        Op::Swap => (OpResultSpec::Val(ValueSpec::Quotation(seq![rhs, lhs])), binds),
        Op::Foldl => match (lhs, mods) {
            (ValueSpec::List(l), ArgsSpec::Unary(m)) => (
                OpResultSpec::Val(ValueSpec::Quotation(foldl_tokens(l, rhs, quot_of(m)))),
                binds,
            ),
            _ => (OpResultSpec::Val(ValueSpec::Void), binds),
        },
        Op::Assign => spec_assign(lhs, rhs, false, binds),
        Op::AssignFunc => spec_assign(lhs, rhs, true, binds),
        _ => (OpResultSpec::Val(ValueSpec::Void), binds),
    }
}

/// The rule of `:=` and `fun`: install the binding, unless the name is
/// already bound as a constant, which has no defined rule.
pub open spec fn spec_assign(
    lhs: ValueSpec,
    rhs: ValueSpec,
    func: bool,
    binds: Map<Seq<char>, BindingSpec>,
) -> (OpResultSpec, Map<Seq<char>, BindingSpec>) {
    match lhs {
        ValueSpec::Symbol(s) => if binds.contains_key(s) && binds[s].constant {
            (OpResultSpec::Val(ValueSpec::Error(StackErrorSpec::Undefined)), binds)
        } else {
            (
                OpResultSpec::Val(ValueSpec::Void),
                binds.insert(s, BindingSpec { value: rhs, function: func, constant: false }),
            )
        },
        _ => (OpResultSpec::Val(ValueSpec::Void), binds),
    }
}

/// The numeric operand a numeric value stands for.
pub fn num_val(v: &Value) -> (r: NumVal)
    ensures
        r == num_of(v@),
{
    match v {
        Value::Integer(i) => NumVal::I(*i),
        Value::Float(b) => NumVal::F(*b),
        _ => NumVal::I(0),
    }
}

impl Op {
    /// Runs an operator that takes no stack operands.
    pub fn exec_nullary(&self, mods: Args) -> (r: OpResult)
        ensures
            r@ == spec_nullary(*self, mods@),
    {
        match self {
            Op::IORead => Self::exec_ioread(),
            Op::Void => Self::exec_void(),
            Op::AsSymbol => Self::exec_as_symbol(mods),
            Op::Loop => Self::exec_loop(mods),
            Op::Error => Self::exec_err(mods),
            _ => OpResult::Val(Value::Void),
        }
    }

    /// Runs an operator that takes one stack operand.
    pub fn exec_unary(&self, arg: Value, mods: Args, bindings: &Bindings) -> (r: OpResult)
        ensures
            r@ == spec_unary(*self, arg@, mods@, bindings@),
    {
        match self {
            Op::IOPrint => Self::exec_print(arg),
            Op::ParseInt => Self::exec_parse_int(arg),
            Op::ParseFloat => Self::exec_parse_float(arg),
            Op::ParseWords => Self::exec_words(arg),
            Op::Empty => Self::exec_empty(arg),
            Op::Length => Self::exec_length(arg),
            Op::Head => Self::exec_head(arg),
            Op::Tail => Self::exec_tail(arg),
            Op::Not => Self::exec_not(arg),
            Op::Pop => Self::exec_pop(arg),
            Op::Dup => Self::exec_dup(arg),
            Op::Exec => Self::exec_exec(arg),
            Op::If => Self::exec_if(arg, mods),
            Op::Times => Self::exec_times(arg, mods),
            Op::MapList => Self::exec_map(arg, mods),
            Op::Each => Self::exec_each(arg, mods),
            Op::EvalSymbol => Self::exec_eval(arg, bindings),
            _ => OpResult::Val(Value::Void),
        }
    }

    /// Runs an operator that takes two stack operands; `lhs` was
    /// pushed before `rhs`.
    pub fn exec_binary(&self, lhs: Value, rhs: Value, mods: Args, bindings: &mut Bindings) -> (r:
        OpResult)
        ensures
            ({
                let (res, binds) = spec_binary(
                    *self,
                    lhs@,
                    rhs@,
                    mods@,
                    old(bindings)@,
                );
                r@ == res && final(bindings)@ == binds
            }),
    {
        match self {
            Op::Mod => Self::exec_mod(&lhs, &rhs),
            Op::Add => Self::exec_add(&lhs, &rhs),
            Op::Sub => Self::exec_sub(&lhs, &rhs),
            Op::Mul => Self::exec_mul(&lhs, &rhs),
            Op::Div => Self::exec_div(&lhs, &rhs),
            Op::IntDiv => Self::exec_intdiv(&lhs, &rhs),
            Op::GT => Self::exec_gt(&lhs, &rhs),
            Op::LT => Self::exec_lt(&lhs, &rhs),
            Op::EQ => Self::exec_eq(&lhs, &rhs),
            Op::And => Self::exec_and(&lhs, &rhs),
            Op::Or => Self::exec_or(&lhs, &rhs),
            Op::Append => Self::exec_append(lhs, rhs),
            Op::Cons => Self::exec_cons(lhs, rhs),
            Op::Swap => Self::exec_swap(lhs, rhs),
            Op::Foldl => Self::exec_foldl(lhs, rhs, mods),
            Op::Assign => Self::exec_assign(lhs, rhs, bindings, false),
            Op::AssignFunc => Self::exec_assign(lhs, rhs, bindings, true),
            _ => OpResult::Val(Value::Void),
        }
    }

    /// The `()` rule: nothing.
    pub fn exec_void() -> (r: OpResult)
        ensures
            r@ == OpResultSpec::Val(ValueSpec::Void),
    {
        OpResult::Val(Value::Void)
    }

    /// The `read` rule: ask the host for one line of input.
    pub fn exec_ioread() -> (r: OpResult)
        ensures
            r@ == OpResultSpec::Fx(PendingSpec::Read),
    {
        OpResult::Fx(Pending::Read)
    }

    /// The `print` rule: hand the value to the host for rendering.
    pub fn exec_print(arg: Value) -> (r: OpResult)
        ensures
            r@ == OpResultSpec::Fx(PendingSpec::Print(arg@)),
    {
        OpResult::Fx(Pending::Print(arg))
    }

    /// The `'` rule: the modifier symbol itself, unevaluated.
    pub fn exec_as_symbol(mods: Args) -> (r: OpResult)
        ensures
            r@ == spec_nullary(Op::AsSymbol, mods@),
    {
        match mods {
            Args::Unary(Value::Symbol(s)) => OpResult::Val(Value::Symbol(s)),
            _ => OpResult::Val(Value::Void),
        }
    }

    /// The `err` rule: a user-defined error value carrying the
    /// modifier string.
    pub fn exec_err(mods: Args) -> (r: OpResult)
        ensures
            r@ == spec_nullary(Op::Error, mods@),
    {
        match mods {
            Args::Unary(Value::String(m)) => OpResult::Val(
                Value::Error(StackError::UserDefined(m)),
            ),
            _ => OpResult::Val(Value::Void),
        }
    }

    /// The `eval` rule: the value bound to the symbol, or the symbol
    /// itself when it is not bound.
    pub fn exec_eval(arg: Value, bindings: &Bindings) -> (r: OpResult)
        ensures
            r@ == spec_unary(Op::EvalSymbol, arg@, ArgsSpec::Nullary, bindings@),
    {
        match arg {
            Value::Symbol(s) => match bindings.get_value(&s) {
                Some(v) => OpResult::Val(v),
                None => OpResult::Val(Value::Symbol(s)),
            },
            _ => OpResult::Val(Value::Void),
        }
    }

    /// The `:=` and `fun` rule: install the binding, unless the name
    /// is bound as a constant.
    pub fn exec_assign(lhs: Value, rhs: Value, bindings: &mut Bindings, func: bool) -> (r:
        OpResult)
        ensures
            ({
                let (res, binds) = spec_assign(lhs@, rhs@, func, old(bindings)@);
                r@ == res && final(bindings)@ == binds
            }),
    {
        match lhs {
            Value::Symbol(s) => {
                let constant = match bindings.get(&s) {
                    Some(b) => b.constant,
                    None => false,
                };
                if constant {
                    OpResult::Val(Value::Error(StackError::Undefined))
                } else {
                    bindings.set(s, Binding { value: rhs, function: func, constant: false });
                    OpResult::Val(Value::Void)
                }
            },
            _ => OpResult::Val(Value::Void),
        }
    }

    /// The `parseInteger` rule.
    pub fn exec_parse_int(arg: Value) -> (r: OpResult)
        ensures
            r@ == spec_unary(Op::ParseInt, arg@, ArgsSpec::Nullary, Map::empty()),
    {
        match arg {
            Value::String(s) => OpResult::Val(parse_integer(&s)),
            _ => OpResult::Val(Value::Void),
        }
    }

    /// The `parseFloat` rule: the host parses the text.
    pub fn exec_parse_float(arg: Value) -> (r: OpResult)
        ensures
            r@ == spec_unary(Op::ParseFloat, arg@, ArgsSpec::Nullary, Map::empty()),
    {
        match arg {
            Value::String(s) => OpResult::Fx(Pending::ParseFloat(s)),
            _ => OpResult::Val(Value::Void),
        }
    }

    /// The `words` rule: split into whitespace-separated words.
    pub fn exec_words(arg: Value) -> (r: OpResult)
        ensures
            r@ == spec_unary(Op::ParseWords, arg@, ArgsSpec::Nullary, Map::empty()),
    {
        match arg {
            Value::String(s) => OpResult::Val(split_words(&s)),
            _ => OpResult::Val(Value::Void),
        }
    }

    /// The `%` rule, on two integers.
    pub fn exec_mod(lhs: &Value, rhs: &Value) -> (r: OpResult)
        ensures
            r@ == spec_binary(Op::Mod, lhs@, rhs@, ArgsSpec::Nullary, Map::empty()).0,
    {
        match (lhs, rhs) {
            (Value::Integer(x), Value::Integer(y)) => match x.checked_rem(*y) {
                Some(v) => OpResult::Val(Value::Integer(v)),
                None => if *y == 0 {
                    OpResult::Val(Value::Error(StackError::Undefined))
                } else {
                    OpResult::Val(Value::Integer(0))
                },
            },
            _ => OpResult::Val(Value::Void),
        }
    }

    /// The `+` rule.
    pub fn exec_add(lhs: &Value, rhs: &Value) -> (r: OpResult)
        ensures
            r@ == spec_arith(ArithKind::Add, lhs@, rhs@),
    {
        match (lhs, rhs) {
            (Value::Integer(x), Value::Integer(y)) => match x.checked_add(*y) {
                Some(v) => OpResult::Val(Value::Integer(v)),
                None => OpResult::Val(Value::Error(StackError::Overflow)),
            },
            _ => OpResult::Fx(Pending::Arith(ArithKind::Add, num_val(lhs), num_val(rhs))),
        }
    }

    /// The `-` rule.
    pub fn exec_sub(lhs: &Value, rhs: &Value) -> (r: OpResult)
        ensures
            r@ == spec_arith(ArithKind::Sub, lhs@, rhs@),
    {
        match (lhs, rhs) {
            (Value::Integer(x), Value::Integer(y)) => match x.checked_sub(*y) {
                Some(v) => OpResult::Val(Value::Integer(v)),
                None => OpResult::Val(Value::Error(StackError::Overflow)),
            },
            _ => OpResult::Fx(Pending::Arith(ArithKind::Sub, num_val(lhs), num_val(rhs))),
        }
    }

    /// The `*` rule.
    pub fn exec_mul(lhs: &Value, rhs: &Value) -> (r: OpResult)
        ensures
            r@ == spec_arith(ArithKind::Mul, lhs@, rhs@),
    {
        match (lhs, rhs) {
            (Value::Integer(x), Value::Integer(y)) => match x.checked_mul(*y) {
                Some(v) => OpResult::Val(Value::Integer(v)),
                None => OpResult::Val(Value::Error(StackError::Overflow)),
            },
            _ => OpResult::Fx(Pending::Arith(ArithKind::Mul, num_val(lhs), num_val(rhs))),
        }
    }

    /// The `/` rule: true division, always in 64-bit floating point.
    pub fn exec_div(lhs: &Value, rhs: &Value) -> (r: OpResult)
        ensures
            r@ == spec_arith(ArithKind::Div, lhs@, rhs@),
    {
        OpResult::Fx(Pending::Arith(ArithKind::Div, num_val(lhs), num_val(rhs)))
    }

    /// The `div` rule: truncating division on integers; the host
    /// truncates any float operand first.
    pub fn exec_intdiv(lhs: &Value, rhs: &Value) -> (r: OpResult)
        ensures
            r@ == spec_intdiv(lhs@, rhs@),
    {
        match (lhs, rhs) {
            (Value::Integer(x), Value::Integer(y)) => match x.checked_div(*y) {
                Some(v) => OpResult::Val(Value::Integer(v)),
                None => if *y == 0 {
                    OpResult::Val(Value::Error(StackError::Undefined))
                } else {
                    OpResult::Val(Value::Error(StackError::Overflow))
                },
            },
            _ => OpResult::Fx(Pending::IntDiv(num_val(lhs), num_val(rhs))),
        }
    }

    /// The `>` rule.
    pub fn exec_gt(lhs: &Value, rhs: &Value) -> (r: OpResult)
        ensures
            r@ == spec_gt(lhs@, rhs@),
    {
        match (lhs, rhs) {
            (Value::Integer(x), Value::Integer(y)) => OpResult::Val(Value::Bool(*x > *y)),
            _ => {
                let lt_tag = lhs.get_type();
                let rt_tag = rhs.get_type();
                let lnum = lt_tag == Type::Integer || lt_tag == Type::Float;
                let rnum = rt_tag == Type::Integer || rt_tag == Type::Float;
                if lnum && rnum {
                    OpResult::Fx(Pending::Cmp(CmpWanted::Gt, num_val(lhs), num_val(rhs)))
                } else if lt_tag == rt_tag {
                    let c = cmp_value_pair(lhs, rhs);
                    if c == OrderRes::Undecided {
                        OpResult::Val(Value::Error(StackError::Undefined))
                    } else {
                        OpResult::Val(Value::Bool(c == OrderRes::Greater))
                    }
                } else {
                    OpResult::Val(Value::Error(StackError::Undefined))
                }
            },
        }
    }

    /// The `<` rule.
    pub fn exec_lt(lhs: &Value, rhs: &Value) -> (r: OpResult)
        ensures
            r@ == spec_lt(lhs@, rhs@),
    {
        match (lhs, rhs) {
            (Value::Integer(x), Value::Integer(y)) => OpResult::Val(Value::Bool(*x < *y)),
            _ => {
                let lt_tag = lhs.get_type();
                let rt_tag = rhs.get_type();
                let lnum = lt_tag == Type::Integer || lt_tag == Type::Float;
                let rnum = rt_tag == Type::Integer || rt_tag == Type::Float;
                if lnum && rnum {
                    OpResult::Fx(Pending::Cmp(CmpWanted::Lt, num_val(lhs), num_val(rhs)))
                } else if lt_tag == rt_tag {
                    let c = cmp_value_pair(lhs, rhs);
                    if c == OrderRes::Undecided {
                        OpResult::Val(Value::Error(StackError::Undefined))
                    } else {
                        OpResult::Val(Value::Bool(c == OrderRes::Less))
                    }
                } else {
                    OpResult::Val(Value::Error(StackError::Undefined))
                }
            },
        }
    }

    /// The `==` rule.
    pub fn exec_eq(lhs: &Value, rhs: &Value) -> (r: OpResult)
        ensures
            r@ == spec_eq_op(lhs@, rhs@),
    {
        let lt = lhs.get_type();
        let rt = rhs.get_type();
        let lnum = lt == Type::Integer || lt == Type::Float;
        let rnum = rt == Type::Integer || rt == Type::Float;
        if (lnum || rnum) && (lt == Type::Float || rt == Type::Float) {
            OpResult::Fx(Pending::Cmp(CmpWanted::Eq, num_val(lhs), num_val(rhs)))
        } else {
            OpResult::Val(Value::Bool(value_eq(lhs, rhs)))
        }
    }

    /// The `&&` rule.
    pub fn exec_and(lhs: &Value, rhs: &Value) -> (r: OpResult)
        ensures
            r@ == spec_binary(Op::And, lhs@, rhs@, ArgsSpec::Nullary, Map::empty()).0,
    {
        match (lhs, rhs) {
            (Value::Bool(x), Value::Bool(y)) => OpResult::Val(Value::Bool(*x && *y)),
            _ => OpResult::Val(Value::Void),
        }
    }

    /// The `||` rule.
    pub fn exec_or(lhs: &Value, rhs: &Value) -> (r: OpResult)
        ensures
            r@ == spec_binary(Op::Or, lhs@, rhs@, ArgsSpec::Nullary, Map::empty()).0,
    {
        match (lhs, rhs) {
            (Value::Bool(x), Value::Bool(y)) => OpResult::Val(Value::Bool(*x || *y)),
            _ => OpResult::Val(Value::Void),
        }
    }

    /// The `not` rule.
    pub fn exec_not(arg: Value) -> (r: OpResult)
        ensures
            r@ == OpResultSpec::Val(spec_not(arg@)),
    {
        match arg {
            Value::Bool(b) => OpResult::Val(Value::Bool(!b)),
            Value::Integer(i) => match (0i128).checked_sub(i) {
                Some(v) => OpResult::Val(Value::Integer(v)),
                None => OpResult::Val(Value::Error(StackError::Overflow)),
            },
            Value::Float(b) => OpResult::Val(
                Value::Float(
                    if b >= F64_SIGN {
                        b - F64_SIGN
                    } else {
                        b + F64_SIGN
                    },
                ),
            ),
            _ => OpResult::Val(Value::Error(StackError::Undefined)),
        }
    }

    /// The `empty` rule: whether a sized value has length zero.
    pub fn exec_empty(arg: Value) -> (r: OpResult)
        ensures
            r@ == spec_unary(Op::Empty, arg@, ArgsSpec::Nullary, Map::empty()),
    {
        match &arg {
            Value::String(s) => OpResult::Val(Value::Bool(s.as_str().unicode_len() == 0)),
            Value::List(l) => {
                proof {
                    vseq_len(l@);
                }
                OpResult::Val(Value::Bool(l.len() == 0))
            },
            Value::Quotation(q) => {
                proof {
                    vseq_len(q@);
                }
                OpResult::Val(Value::Bool(q.len() == 0))
            },
            _ => OpResult::Val(Value::Bool(true)),
        }
    }

    /// The `length` rule: the length of a sized value.
    pub fn exec_length(arg: Value) -> (r: OpResult)
        ensures
            r@ == spec_unary(Op::Length, arg@, ArgsSpec::Nullary, Map::empty()),
    {
        match &arg {
            Value::String(s) => OpResult::Val(Value::Integer(s.as_str().unicode_len() as i128)),
            Value::List(l) => {
                proof {
                    vseq_len(l@);
                }
                OpResult::Val(Value::Integer(l.len() as i128))
            },
            Value::Quotation(q) => {
                proof {
                    vseq_len(q@);
                }
                OpResult::Val(Value::Integer(q.len() as i128))
            },
            _ => OpResult::Val(Value::Integer(0)),
        }
    }

    /// The `head` rule: the first element of a list.
    pub fn exec_head(arg: Value) -> (r: OpResult)
        ensures
            r@ == spec_unary(Op::Head, arg@, ArgsSpec::Nullary, Map::empty()),
    {
        broadcast use vseq_len;

        match arg {
            Value::List(mut l) => if l.len() == 0 {
                OpResult::Val(Value::Error(StackError::HeadEmpty))
            } else {
                let first = l.remove(0);
                proof {
                    vseq_index(l@.insert(0, first), 0);
                    assert(vseq(l@.insert(0, first))[0] == spec_head(vseq(l@.insert(0, first))));
                }
                OpResult::Val(first)
            },
            _ => OpResult::Val(Value::Void),
        }
    }

    /// The `tail` rule: the list without its first element.
    pub fn exec_tail(arg: Value) -> (r: OpResult)
        ensures
            r@ == spec_unary(Op::Tail, arg@, ArgsSpec::Nullary, Map::empty()),
    {
        broadcast use vseq_len;

        match arg {
            Value::List(mut l) => if l.len() == 0 {
                OpResult::Val(Value::Error(StackError::HeadEmpty))
            } else {
                let ghost before = l@;
                let _ = l.remove(0);
                proof {
                    assert(l@ =~= before.skip(1));
                    vseq_skip(before, 1);
                }
                OpResult::Val(Value::List(l))
            },
            _ => OpResult::Val(Value::Void),
        }
    }

    /// The `append` rule: concatenation of two values of the same
    /// sized tag.
    pub fn exec_append(lhs: Value, rhs: Value) -> (r: OpResult)
        ensures
            r@ == OpResultSpec::Val(spec_append(lhs@, rhs@)),
    {
        match (lhs, rhs) {
            (Value::String(x), Value::String(y)) => OpResult::Val(
                Value::String(x.concat(y.as_str())),
            ),
            (Value::List(mut x), Value::List(mut y)) => {
                let ghost (xs, ys) = (x@, y@);
                x.append(&mut y);
                proof {
                    vseq_concat(xs, ys);
                }
                OpResult::Val(Value::List(x))
            },
            (Value::Quotation(mut x), Value::Quotation(mut y)) => {
                let ghost (xs, ys) = (x@, y@);
                x.append(&mut y);
                proof {
                    vseq_concat(xs, ys);
                }
                OpResult::Val(Value::Quotation(x))
            },
            _ => OpResult::Val(Value::Error(StackError::Undefined)),
        }
    }

    /// The `cons` rule: prepend a value onto a list.
    pub fn exec_cons(lhs: Value, rhs: Value) -> (r: OpResult)
        ensures
            r@ == spec_binary(Op::Cons, lhs@, rhs@, ArgsSpec::Nullary, Map::empty()).0,
    {
        match rhs {
            Value::List(mut l) => {
                let ghost (v, before) = (lhs@, l@);
                l.insert(0, lhs);
                proof {
                    assert(l@ =~= seq![l@[0]] + before);
                    vseq_concat(seq![l@[0]], before);
                    vseq_len(seq![l@[0]]);
                    vseq_index(seq![l@[0]], 0);
                    assert(vseq(seq![l@[0]]) =~= seq![v]);
                }
                OpResult::Val(Value::List(l))
            },
            _ => OpResult::Val(Value::Void),
        }
    }

    /// The `pop` rule: consume the operand.
    pub fn exec_pop(arg: Value) -> (r: OpResult)
        ensures
            r@ == OpResultSpec::Val(ValueSpec::Void),
    {
        let _ = arg;
        OpResult::Val(Value::Void)
    }

    /// The `dup` rule: a quotation that puts two copies of the
    /// operand back.
    pub fn exec_dup(arg: Value) -> (r: OpResult)
        ensures
            r@ == OpResultSpec::Val(ValueSpec::Quotation(seq![arg@, arg@])),
    {
        let copy = dup_value(&arg);
        let q = vec![copy, arg];
        proof {
            vseq_len(q@);
            vseq_index(q@, 0);
            vseq_index(q@, 1);
            assert(vseq(q@) =~= seq![q@[1]@, q@[1]@]);
        }
        OpResult::Val(Value::Quotation(q))
    }

    /// The `swap` rule: a quotation that puts the two operands back
    /// in reversed order.
    pub fn exec_swap(lhs: Value, rhs: Value) -> (r: OpResult)
        ensures
            r@ == OpResultSpec::Val(ValueSpec::Quotation(seq![rhs@, lhs@])),
    {
        let ghost (lv, rv) = (lhs@, rhs@);
        let q = vec![rhs, lhs];
        proof {
            vseq_len(q@);
            vseq_index(q@, 0);
            vseq_index(q@, 1);
            assert(vseq(q@) =~= seq![rv, lv]);
        }
        OpResult::Val(Value::Quotation(q))
    }

    /// The `exec` rule: the operand as a runnable quotation; the
    /// evaluation loop splices it.
    pub fn exec_exec(arg: Value) -> (r: OpResult)
        ensures
            r@ == OpResultSpec::Val(ValueSpec::Quotation(quot_of(arg@))),
    {
        OpResult::Val(Value::Quotation(to_quotation(arg)))
    }

    /// The `if` rule: the chosen branch as a quotation.
    pub fn exec_if(arg: Value, mods: Args) -> (r: OpResult)
        ensures
            r@ == spec_unary(Op::If, arg@, mods@, Map::empty()),
    {
        match mods {
            Args::Binary(t, e) => {
                let cond = match &arg {
                    Value::Bool(b) => *b,
                    _ => false,
                };
                let chosen = if cond {
                    t
                } else {
                    e
                };
                OpResult::Val(Value::Quotation(to_quotation(chosen)))
            },
            _ => OpResult::Val(Value::Void),
        }
    }

    /// The `times` rule: the synthesized counting continuation.
    pub fn exec_times(arg: Value, mods: Args) -> (r: OpResult)
        ensures
            r@ == spec_unary(Op::Times, arg@, mods@, Map::empty()),
    {
        match (arg, mods) {
            (Value::Integer(i), Args::Unary(m)) => {
                let q = to_quotation(m);
                let ghost qs = vseq(q@);
                let q2 = dup_values(&q);
                let then_branch = vec![
                    Value::Quotation(q2),
                    Value::Operator(Op::Exec),
                    Value::Integer(i),
                    Value::Integer(1),
                    Value::Operator(Op::Sub),
                    Value::Operator(Op::Times),
                    Value::Quotation(q),
                ];
                proof {
                    vseq_len(then_branch@);
                    assert forall|k: int| 0 <= k < 7 implies vseq(then_branch@)[k] == val_view(
                        then_branch@[k],
                    ) by {
                        vseq_index(then_branch@, k);
                    }
                    assert(vseq(then_branch@) =~= seq![
                        ValueSpec::Quotation(qs),
                        ValueSpec::Operator(Op::Exec),
                        ValueSpec::Integer(i as int),
                        ValueSpec::Integer(1),
                        ValueSpec::Operator(Op::Sub),
                        ValueSpec::Operator(Op::Times),
                        ValueSpec::Quotation(qs),
                    ]);
                }
                let toks = vec![
                    Value::Integer(i),
                    Value::Integer(0),
                    Value::Operator(Op::GT),
                    Value::Operator(Op::If),
                    Value::Quotation(then_branch),
                    Value::Quotation(Vec::new()),
                ];
                proof {
                    vseq_len(toks@);
                    assert forall|k: int| 0 <= k < 6 implies vseq(toks@)[k] == val_view(
                        toks@[k],
                    ) by {
                        vseq_index(toks@, k);
                    }
                    assert(vseq(Seq::<Value>::empty()) =~= Seq::<ValueSpec>::empty());
                    assert(vseq(toks@) =~= times_tokens(i as int, qs));
                }
                OpResult::Val(Value::Quotation(toks))
            },
            _ => OpResult::Val(Value::Void),
        }
    }

    /// The `loop` rule: the synthesized looping continuation.
    pub fn exec_loop(mods: Args) -> (r: OpResult)
        ensures
            r@ == spec_nullary(Op::Loop, mods@),
    {
        match mods {
            Args::Binary(c, b) => {
                let cq = to_quotation(c);
                let bq = to_quotation(b);
                let ghost (cs, bs) = (vseq(cq@), vseq(bq@));
                let cq2 = dup_values(&cq);
                let bq2 = dup_values(&bq);
                let then_branch = vec![
                    Value::Quotation(bq2),
                    Value::Operator(Op::Exec),
                    Value::Operator(Op::Loop),
                    Value::Quotation(cq),
                    Value::Quotation(bq),
                ];
                proof {
                    vseq_len(then_branch@);
                    assert forall|k: int| 0 <= k < 5 implies vseq(then_branch@)[k] == val_view(
                        then_branch@[k],
                    ) by {
                        vseq_index(then_branch@, k);
                    }
                    assert(vseq(then_branch@) =~= seq![
                        ValueSpec::Quotation(bs),
                        ValueSpec::Operator(Op::Exec),
                        ValueSpec::Operator(Op::Loop),
                        ValueSpec::Quotation(cs),
                        ValueSpec::Quotation(bs),
                    ]);
                }
                let toks = vec![
                    Value::Quotation(cq2),
                    Value::Operator(Op::Exec),
                    Value::Operator(Op::Not),
                    Value::Operator(Op::If),
                    Value::Quotation(then_branch),
                    Value::Quotation(Vec::new()),
                ];
                proof {
                    vseq_len(toks@);
                    assert forall|k: int| 0 <= k < 6 implies vseq(toks@)[k] == val_view(
                        toks@[k],
                    ) by {
                        vseq_index(toks@, k);
                    }
                    assert(vseq(Seq::<Value>::empty()) =~= Seq::<ValueSpec>::empty());
                    assert(vseq(toks@) =~= loop_tokens(cs, bs));
                }
                OpResult::Val(Value::Quotation(toks))
            },
            _ => OpResult::Val(Value::Void),
        }
    }

    /// The `map` rule: the synthesized mapping continuation.
    pub fn exec_map(arg: Value, mods: Args) -> (r: OpResult)
        ensures
            r@ == spec_unary(Op::MapList, arg@, mods@, Map::empty()),
    {
        match (arg, mods) {
            (Value::List(l), Args::Unary(m)) => {
                let q = to_quotation(m);
                let ghost (ls, qs) = (vseq(l@), vseq(q@));
                let q2 = dup_values(&q);
                let l2 = dup_values(&l);
                let l3 = dup_values(&l);
                let then_branch = vec![
                    Value::List(l2),
                    Value::Operator(Op::Head),
                    Value::Quotation(q2),
                    Value::Operator(Op::Exec),
                    Value::List(l3),
                    Value::Operator(Op::Tail),
                    Value::Operator(Op::MapList),
                    Value::Quotation(q),
                    Value::Operator(Op::Cons),
                ];
                proof {
                    vseq_len(then_branch@);
                    assert forall|k: int| 0 <= k < 9 implies vseq(then_branch@)[k] == val_view(
                        then_branch@[k],
                    ) by {
                        vseq_index(then_branch@, k);
                    }
                    assert(vseq(then_branch@) =~= seq![
                        ValueSpec::List(ls),
                        ValueSpec::Operator(Op::Head),
                        ValueSpec::Quotation(qs),
                        ValueSpec::Operator(Op::Exec),
                        ValueSpec::List(ls),
                        ValueSpec::Operator(Op::Tail),
                        ValueSpec::Operator(Op::MapList),
                        ValueSpec::Quotation(qs),
                        ValueSpec::Operator(Op::Cons),
                    ]);
                }
                let else_item = vec![Value::List(Vec::new())];
                proof {
                    vseq_len(else_item@);
                    vseq_index(else_item@, 0);
                    vseq_len(Seq::<Value>::empty());
                    assert(vseq(else_item@) =~= seq![ValueSpec::List(Seq::empty())]);
                }
                let toks = vec![
                    Value::List(l),
                    Value::Operator(Op::Length),
                    Value::Integer(0),
                    Value::Operator(Op::GT),
                    Value::Operator(Op::If),
                    Value::Quotation(then_branch),
                    Value::Quotation(else_item),
                ];
                proof {
                    vseq_len(toks@);
                    assert forall|k: int| 0 <= k < 7 implies vseq(toks@)[k] == val_view(
                        toks@[k],
                    ) by {
                        vseq_index(toks@, k);
                    }
                    assert(vseq(Seq::<Value>::empty()) =~= Seq::<ValueSpec>::empty());
                    assert(vseq(toks@) =~= map_tokens(ls, qs));

                }
                OpResult::Val(Value::Quotation(toks))
            },
            _ => OpResult::Val(Value::Void),
        }
    }

    /// The `each` rule: the synthesized iterating continuation.
    pub fn exec_each(arg: Value, mods: Args) -> (r: OpResult)
        ensures
            r@ == spec_unary(Op::Each, arg@, mods@, Map::empty()),
    {
        match (arg, mods) {
            (Value::List(l), Args::Unary(m)) => {
                let q = to_quotation(m);
                let ghost (ls, qs) = (vseq(l@), vseq(q@));
                let q2 = dup_values(&q);
                let l2 = dup_values(&l);
                let l3 = dup_values(&l);
                let then_branch = vec![
                    Value::List(l2),
                    Value::Operator(Op::Head),
                    Value::Quotation(q2),
                    Value::Operator(Op::Exec),
                    Value::List(l3),
                    Value::Operator(Op::Tail),
                    Value::Operator(Op::Each),
                    Value::Quotation(q),
                ];
                proof {
                    vseq_len(then_branch@);
                    assert forall|k: int| 0 <= k < 8 implies vseq(then_branch@)[k] == val_view(
                        then_branch@[k],
                    ) by {
                        vseq_index(then_branch@, k);
                    }
                    assert(vseq(then_branch@) =~= seq![
                        ValueSpec::List(ls),
                        ValueSpec::Operator(Op::Head),
                        ValueSpec::Quotation(qs),
                        ValueSpec::Operator(Op::Exec),
                        ValueSpec::List(ls),
                        ValueSpec::Operator(Op::Tail),
                        ValueSpec::Operator(Op::Each),
                        ValueSpec::Quotation(qs),
                    ]);
                }
                let toks = vec![
                    Value::List(l),
                    Value::Operator(Op::Length),
                    Value::Integer(0),
                    Value::Operator(Op::GT),
                    Value::Operator(Op::If),
                    Value::Quotation(then_branch),
                    Value::Quotation(Vec::new()),
                ];
                proof {
                    vseq_len(toks@);
                    assert forall|k: int| 0 <= k < 7 implies vseq(toks@)[k] == val_view(
                        toks@[k],
                    ) by {
                        vseq_index(toks@, k);
                    }
                    assert(vseq(Seq::<Value>::empty()) =~= Seq::<ValueSpec>::empty());
                    assert(vseq(toks@) =~= each_tokens(ls, qs));
                }
                OpResult::Val(Value::Quotation(toks))
            },
            _ => OpResult::Val(Value::Void),
        }
    }

    /// The `foldl` rule: the synthesized folding continuation.
    pub fn exec_foldl(lhs: Value, rhs: Value, mods: Args) -> (r: OpResult)
        ensures
            r@ == spec_binary(Op::Foldl, lhs@, rhs@, mods@, Map::empty()).0,
    {
        match (lhs, mods) {
            (Value::List(l), Args::Unary(m)) => {
                let q = to_quotation(m);
                let ghost (ls, qs, accs) = (vseq(l@), vseq(q@), rhs@);
                let q2 = dup_values(&q);
                let l2 = dup_values(&l);
                let l3 = dup_values(&l);
                let acc2 = dup_value(&rhs);
                let then_branch = vec![
                    acc2,
                    Value::List(l2),
                    Value::Operator(Op::Head),
                    Value::Quotation(q2),
                    Value::Operator(Op::Exec),
                    Value::List(l3),
                    Value::Operator(Op::Tail),
                    Value::Operator(Op::Swap),
                    Value::Operator(Op::Foldl),
                    Value::Quotation(q),
                ];
                proof {
                    vseq_len(then_branch@);
                    assert forall|k: int| 0 <= k < 10 implies vseq(then_branch@)[k] == val_view(
                        then_branch@[k],
                    ) by {
                        vseq_index(then_branch@, k);
                    }
                    assert(vseq(then_branch@) =~= seq![
                        accs,
                        ValueSpec::List(ls),
                        ValueSpec::Operator(Op::Head),
                        ValueSpec::Quotation(qs),
                        ValueSpec::Operator(Op::Exec),
                        ValueSpec::List(ls),
                        ValueSpec::Operator(Op::Tail),
                        ValueSpec::Operator(Op::Swap),
                        ValueSpec::Operator(Op::Foldl),
                        ValueSpec::Quotation(qs),
                    ]);
                }
                let else_item = vec![rhs];
                proof {
                    vseq_len(else_item@);
                    vseq_index(else_item@, 0);
                    assert(vseq(else_item@) =~= seq![accs]);
                }
                let toks = vec![
                    Value::List(l),
                    Value::Operator(Op::Length),
                    Value::Integer(0),
                    Value::Operator(Op::GT),
                    Value::Operator(Op::If),
                    Value::Quotation(then_branch),
                    Value::Quotation(else_item),
                ];
                proof {
                    vseq_len(toks@);
                    assert forall|k: int| 0 <= k < 7 implies vseq(toks@)[k] == val_view(
                        toks@[k],
                    ) by {
                        vseq_index(toks@, k);
                    }
                    assert(vseq(toks@) =~= foldl_tokens(ls, accs, qs));
                }
                OpResult::Val(Value::Quotation(toks))
            },
            _ => OpResult::Val(Value::Void),
        }
    }
}

} // verus!
