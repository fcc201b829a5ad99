//! The evaluation loop: a splice trampoline over a pending-input
//! queue, a data stack and a binding environment.
//!
//! [`run`] drains the queue front to back. Literals are pushed;
//! operator tokens are dispatched against their signature: stack
//! operands are checked against their constraints before anything is
//! popped, modifier operands are taken from the front of the queue,
//! and a quotation-tagged result is spliced back onto the front of
//! the queue instead of being pushed.
//!
//! Work the library does not do itself — floating-point arithmetic,
//! printing, reading — pauses the loop with an [`Effect`]; the host
//! performs it and answers through the matching `resume_*` method.
//!
//! The whole of this behaviour is written down once, as the
//! small-step function [`spec_step`]; [`Machine::step`] is proved to
//! take exactly one such step, and [`run`] to take some number of
//! them.

use vstd::prelude::*;

use crate::bindings::{BindingSpec, Bindings};
use crate::exec::{
    spec_binary, spec_intdiv_ints, spec_nullary, spec_unary, Args, ArgsSpec, ArithKind, CmpWanted,
    FloatCmp, NumVal, OpResult, OpResultSpec, Pending, PendingSpec,
};
use crate::op::{sig_spec, Op};
use crate::stack::Stack;
use crate::types::{satisfies, Params, Type};
use crate::value::{
    dup_value, type_of, val_view, vseq, vseq_concat, vseq_index, vseq_len, vseq_push, vseq_skip,
    vseq_take, StackError, StackErrorSpec, Value, ValueSpec,
};
use std::collections::VecDeque;

verus! {

/// A condition that aborts the running program (but only it): the
/// stack or the token stream did not hold the operands an operator's
/// signature demands.
#[derive(Clone, Copy, PartialEq, Eq, Structural, Debug)]
pub enum Fault {
    /// The stack held fewer operands than the operator pops.
    StackUnderflow(Op),
    /// The pending input held fewer modifier operands than the
    /// operator reads.
    InputExhausted(Op),
}

/// A reported constraint mismatch: the operator was not executed, and
/// for stack operands the stack was left untouched.
pub struct Diagnostic {
    /// The operator whose dispatch failed.
    pub op: Op,
    /// The constraints the operands were checked against.
    pub expected: Params,
    /// The actual tags found, in operand order.
    pub actual: Vec<Type>,
    /// Whether the mismatched operands were modifiers (from the
    /// pending input) rather than stack operands.
    pub modifiers: bool,
}

/// Model of a [`Diagnostic`].
pub struct DiagnosticSpec {
    pub op: Op,
    pub expected: Params,
    pub actual: Seq<Type>,
    pub modifiers: bool,
}

impl View for Diagnostic {
    type V = DiagnosticSpec;

    open spec fn view(&self) -> DiagnosticSpec {
        DiagnosticSpec {
            op: self.op,
            expected: self.expected,
            actual: self.actual@,
            modifiers: self.modifiers,
        }
    }
}

/// What [`run`] pauses or ends with.
pub enum Effect {
    /// The queue is drained; the program is over.
    Done,
    /// Render this value and print it, then `resume_print`.
    Print(Value),
    /// Read one line and hand it to `resume_read`.
    Read,
    /// Compute the 64-bit float operation (integer operands are
    /// promoted first) and hand the result's bits to `resume_float`.
    Arith(ArithKind, NumVal, NumVal),
    /// Parse the text as a 64-bit float and hand the outcome to
    /// `resume_parsed_float`.
    ParseFloat(String),
    /// Compare the two operands as 64-bit floats and hand the outcome
    /// to `resume_cmp`.
    Cmp(NumVal, NumVal),
    /// Truncate the float with these bits toward zero and hand the
    /// integer to `resume_trunc`.
    Trunc(u64),
    /// The program aborted.
    Fault(Fault),
}

/// Model of an [`Effect`].
pub enum EffectSpec {
    Done,
    Print(ValueSpec),
    Read,
    Arith(ArithKind, NumVal, NumVal),
    ParseFloat(Seq<char>),
    Cmp(NumVal, NumVal),
    Trunc(u64),
    Fault(Fault),
}

impl View for Effect {
    type V = EffectSpec;

    open spec fn view(&self) -> EffectSpec {
        match self {
            Effect::Done => EffectSpec::Done,
            Effect::Print(v) => EffectSpec::Print(v@),
            Effect::Read => EffectSpec::Read,
            Effect::Arith(k, a, b) => EffectSpec::Arith(*k, *a, *b),
            Effect::ParseFloat(s) => EffectSpec::ParseFloat(s@),
            Effect::Cmp(a, b) => EffectSpec::Cmp(*a, *b),
            Effect::Trunc(b) => EffectSpec::Trunc(*b),
            Effect::Fault(f) => EffectSpec::Fault(*f),
        }
    }
}

/// The effect a piece of pending work asks of the host. A truncating
/// division pauses only while a float operand is left, so its last
/// arm stands for no real request.
pub open spec fn effect_of(p: PendingSpec) -> EffectSpec {
    match p {
        PendingSpec::Print(v) => EffectSpec::Print(v),
        PendingSpec::Read => EffectSpec::Read,
        PendingSpec::Arith(k, a, b) => EffectSpec::Arith(k, a, b),
        PendingSpec::ParseFloat(s) => EffectSpec::ParseFloat(s),
        PendingSpec::Cmp(_, a, b) => EffectSpec::Cmp(a, b),
        PendingSpec::IntDiv(a, b) => match a {
            NumVal::F(bits) => EffectSpec::Trunc(bits),
            NumVal::I(_) => match b {
                NumVal::F(bits) => EffectSpec::Trunc(bits),
                NumVal::I(_) => EffectSpec::Done,
            },
        },
    }
}

/// The effect asked of the host, rebuilt from the stored pending
/// work.
pub fn emit_effect(p: &Pending) -> (e: Effect)
    ensures
        e@ == effect_of(p@),
{
    match p {
        Pending::Print(v) => Effect::Print(dup_value(v)),
        Pending::Read => Effect::Read,
        Pending::Arith(k, a, b) => Effect::Arith(*k, *a, *b),
        Pending::ParseFloat(s) => Effect::ParseFloat(s.clone()),
        Pending::Cmp(_, a, b) => Effect::Cmp(*a, *b),
        Pending::IntDiv(a, b) => match a {
            NumVal::F(bits) => Effect::Trunc(*bits),
            NumVal::I(_) => match b {
                NumVal::F(bits) => Effect::Trunc(*bits),
                NumVal::I(_) => Effect::Done,
            },
        },
    }
}

/// The whole state of one running program.
pub struct Machine {
    /// The data stack.
    pub stack: Stack<Value>,
    /// The pending input queue, front at index 0.
    pub input: VecDeque<Value>,
    /// The binding environment.
    pub bindings: Bindings,
    /// The constraint mismatches reported so far, in order.
    pub diags: Vec<Diagnostic>,
    /// Outside work the machine is paused on, if any.
    pub pending: Option<Pending>,
    /// The condition that aborted the program, if any.
    pub fault: Option<Fault>,
}

/// Model of a [`Machine`].
pub struct MachineSpec {
    pub stack: Seq<ValueSpec>,
    pub queue: Seq<ValueSpec>,
    pub binds: Map<Seq<char>, BindingSpec>,
    pub diags: Seq<DiagnosticSpec>,
    pub pending: Option<PendingSpec>,
    pub fault: Option<Fault>,
}

impl View for Machine {
    type V = MachineSpec;

    open spec fn view(&self) -> MachineSpec {
        MachineSpec {
            stack: vseq(self.stack@),
            queue: vseq(self.input@),
            binds: self.bindings@,
            diags: self.diags@.map_values(|d: Diagnostic| d@),
            pending: match self.pending {
                Some(p) => Some(p@),
                None => None,
            },
            fault: self.fault,
        }
    }
}

/// The modifier operands at the front of the queue, by arity.
pub open spec fn front_mods(q: Seq<ValueSpec>, n: nat) -> ArgsSpec {
    if n == 0 {
        ArgsSpec::Nullary
    } else if n == 1 {
        ArgsSpec::Unary(q[0])
    } else {
        ArgsSpec::Binary(q[0], q[1])
    }
}

/// The stack operands under the top of the stack, by arity; for two
/// operands the deeper one comes first.
pub open spec fn top_args(st: Seq<ValueSpec>, n: nat) -> ArgsSpec {
    if n == 0 {
        ArgsSpec::Nullary
    } else if n == 1 {
        ArgsSpec::Unary(st.last())
    } else {
        ArgsSpec::Binary(st[st.len() - 2], st[st.len() - 1])
    }
}

/// The tags of a group of operands, in order.
pub open spec fn tags_of(a: ArgsSpec) -> Seq<Type> {
    match a {
        ArgsSpec::Nullary => Seq::empty(),
        ArgsSpec::Unary(v) => seq![type_of(v)],
        ArgsSpec::Binary(x, y) => seq![type_of(x), type_of(y)],
    }
}

/// Whether each operand satisfies its declared constraint.
pub open spec fn operands_ok(p: Params, a: ArgsSpec) -> bool {
    match (p, a) {
        (Params::Nullary, ArgsSpec::Nullary) => true,
        (Params::Unary(c), ArgsSpec::Unary(v)) => satisfies(c, type_of(v)),
        (Params::Binary(c1, c2), ArgsSpec::Binary(x, y)) => satisfies(c1, type_of(x)) && satisfies(
            c2,
            type_of(y),
        ),
        _ => false,
    }
}

/// The pairwise compatibility that the comparison and concatenation
/// operators demand beyond the per-operand constraints: a total order
/// (or an equality) is defined across the numeric tags and within any
/// one tag, but not across unlike non-numeric tags, and `append`
/// concatenates like with like.
pub open spec fn pair_ok(op: Op, t1: Type, t2: Type) -> bool {
    let both_num = (t1 == Type::Integer || t1 == Type::Float) && (t2 == Type::Integer || t2
        == Type::Float);
    match op {
        Op::LT | Op::GT => both_num || t1 == t2,
        Op::EQ => both_num || t1 == t2,
        Op::Append => t1 == t2,
        _ => true,
    }
}

/// Pairwise compatibility over a group of operands.
pub open spec fn pair_args_ok(op: Op, a: ArgsSpec) -> bool {
    match a {
        ArgsSpec::Binary(x, y) => pair_ok(op, type_of(x), type_of(y)),
        _ => true,
    }
}

/// Whether the tags `t1`, `t2` are compatible for `op`, decided at
/// dispatch time.
pub fn pair_compatible(op: &Op, t1: &Type, t2: &Type) -> (r: bool)
    ensures
        r == pair_ok(*op, *t1, *t2),
{
    let both_num = (*t1 == Type::Integer || *t1 == Type::Float) && (*t2 == Type::Integer || *t2
        == Type::Float);
    match op {
        Op::LT | Op::GT => both_num || *t1 == *t2,
        Op::EQ => both_num || *t1 == *t2,
        Op::Append => *t1 == *t2,
        _ => true,
    }
}

/// How a finished operator result changes the machine: pending work
/// pauses it; a quotation is spliced onto the front of the queue; a
/// void result is dropped; anything else is pushed.
pub open spec fn spec_finish(s: MachineSpec, r: OpResultSpec) -> (MachineSpec, Option<
    EffectSpec,
>) {
    match r {
        OpResultSpec::Fx(p) => (
            MachineSpec { pending: Some(p), ..s },
            Some(effect_of(p)),
        ),
        OpResultSpec::Val(v) => match v {
            ValueSpec::Quotation(ts) => (MachineSpec { queue: ts + s.queue, ..s }, None),
            ValueSpec::Void => (s, None),
            _ => (MachineSpec { stack: s.stack.push(v), ..s }, None),
        },
    }
}

/// Dispatching one operator, from the state just after its token was
/// removed: arity checks (a missing operand is a fault that ends the
/// program), modifier removal and check, stack operand check (the
/// stack is not touched on a mismatch), execution, and the result
/// rule of [`spec_finish`].
pub open spec fn spec_dispatch(op: Op, s: MachineSpec) -> (MachineSpec, Option<EffectSpec>) {
    let sig = sig_spec(op);
    if sig.stack_args is Ternary || sig.modifiers is Ternary {
        (s, None)
    } else {
        let n_args = sig.stack_args.arity_spec();
        let n_mods = sig.modifiers.arity_spec();
        if s.stack.len() < n_args {
            (
                MachineSpec { fault: Some(Fault::StackUnderflow(op)), ..s },
                Some(EffectSpec::Fault(Fault::StackUnderflow(op))),
            )
        } else if s.queue.len() < n_mods {
            (
                MachineSpec { fault: Some(Fault::InputExhausted(op)), ..s },
                Some(EffectSpec::Fault(Fault::InputExhausted(op))),
            )
        } else {
            let mods = front_mods(s.queue, n_mods);
            let s1 = MachineSpec { queue: s.queue.skip(n_mods as int), ..s };
            if !operands_ok(sig.modifiers, mods) {
                (
                    MachineSpec {
                        diags: s1.diags.push(
                            DiagnosticSpec {
                                op,
                                expected: sig.modifiers,
                                actual: tags_of(mods),
                                modifiers: true,
                            },
                        ),
                        ..s1
                    },
                    None,
                )
            } else {
                let args = top_args(s1.stack, n_args);
                if !(operands_ok(sig.stack_args, args) && pair_args_ok(op, args)) {
                    (
                        MachineSpec {
                            diags: s1.diags.push(
                                DiagnosticSpec {
                                    op,
                                    expected: sig.stack_args,
                                    actual: tags_of(args),
                                    modifiers: false,
                                },
                            ),
                            ..s1
                        },
                        None,
                    )
                } else {
                    let s2 = MachineSpec {
                        stack: s1.stack.take(s1.stack.len() - n_args),
                        ..s1
                    };
                    match args {
                        ArgsSpec::Nullary => spec_finish(s2, spec_nullary(op, mods)),
                        ArgsSpec::Unary(v) => spec_finish(s2, spec_unary(op, v, mods, s2.binds)),
                        ArgsSpec::Binary(x, y) => {
                            let (r, binds) = spec_binary(op, x, y, mods, s2.binds);
                            spec_finish(MachineSpec { binds, ..s2 }, r)
                        },
                    }
                }
            }
        }
    }
}

/// One step of the machine: an empty queue ends the program; a
/// literal at the front is pushed; an operator is dispatched.
pub open spec fn spec_step(s: MachineSpec) -> (MachineSpec, Option<EffectSpec>) {
    if s.queue.len() == 0 {
        (s, Some(EffectSpec::Done))
    } else {
        match s.queue[0] {
            ValueSpec::Operator(op) => spec_dispatch(
                op,
                MachineSpec { queue: s.queue.skip(1), ..s },
            ),
            v => (
                MachineSpec { stack: s.stack.push(v), queue: s.queue.skip(1), ..s },
                None,
            ),
        }
    }
}

/// `n` steps of the machine, stopping early when one pauses or ends
/// it.
pub open spec fn advance(s: MachineSpec, n: nat) -> (MachineSpec, Option<EffectSpec>)
    decreases n,
{
    if n == 0 {
        (s, None)
    } else {
        let (s1, e) = spec_step(s);
        if e is Some {
            (s1, e)
        } else {
            advance(s1, (n - 1) as nat)
        }
    }
}

/// Extends a quiet run of steps by one more step.
pub proof fn advance_extend(s0: MachineSpec, i: nat, cur: MachineSpec)
    requires
        advance(s0, i) == (cur, None::<EffectSpec>),
    ensures
        spec_step(cur).1 is Some ==> advance(s0, i + 1) == spec_step(cur),
        spec_step(cur).1 is None ==> advance(s0, i + 1) == (spec_step(cur).0, None::<EffectSpec>),
    decreases i,
{
    if i == 0 {
        assert(advance(s0, 0) == (s0, None::<EffectSpec>));
        assert(cur == s0);
        assert(advance(s0, 1) == (if spec_step(s0).1 is Some {
            spec_step(s0)
        } else {
            advance(spec_step(s0).0, 0)
        }));
    } else {
        let (s1, e1) = spec_step(s0);
        if e1 is Some {
            assert(advance(s0, i) == (s1, e1));
            assert(false);
        } else {
            assert(advance(s0, i) == advance(s1, (i - 1) as nat));
            advance_extend(s1, (i - 1) as nat, cur);
            assert(advance(s0, i + 1) == advance(s1, i));
        }
    }
}

/// The view of an optional effect.
pub open spec fn eff_view(r: Option<Effect>) -> Option<EffectSpec> {
    match r {
        Some(e) => Some(e@),
        None => None,
    }
}

/// The boolean a finished comparison turns into.
pub open spec fn cmp_answer(w: CmpWanted, c: FloatCmp) -> bool {
    match w {
        CmpWanted::Lt => c is Less,
        CmpWanted::Gt => c is Greater,
        CmpWanted::Eq => c is Equal,
    }
}

/// How answering a truncation request changes the machine: the first
/// float operand of the pending truncating division becomes the
/// integer `i`; when none is left, the division itself runs and its
/// result is pushed.
pub open spec fn spec_resume_trunc(s: MachineSpec, i: i128) -> MachineSpec {
    match s.pending {
        Some(PendingSpec::IntDiv(NumVal::F(_), b)) => match b {
            NumVal::F(_) => MachineSpec {
                pending: Some(PendingSpec::IntDiv(NumVal::I(i), b)),
                ..s
            },
            NumVal::I(y) => MachineSpec {
                pending: None,
                stack: s.stack.push(spec_intdiv_ints(i as int, y as int)),
                ..s
            },
        },
        Some(PendingSpec::IntDiv(NumVal::I(x), NumVal::F(_))) => MachineSpec {
            pending: None,
            stack: s.stack.push(spec_intdiv_ints(x as int, i as int)),
            ..s
        },
        _ => s,
    }
}

/// Truncating division of two machine integers, as a value.
fn div_ints(x: i128, y: i128) -> (r: Value)
    ensures
        r@ == spec_intdiv_ints(x as int, y as int),
{
    match x.checked_div(y) {
        Some(v) => Value::Integer(v),
        None => if y == 0 {
            Value::Error(StackError::Undefined)
        } else {
            Value::Error(StackError::Overflow)
        },
    }
}

impl Machine {
    /// A machine about to run `program`, with an empty stack and an
    /// empty binding environment.
    pub fn new(program: Vec<Value>) -> (m: Machine)
        ensures
            m@ == (MachineSpec {
                stack: Seq::empty(),
                queue: vseq(program@),
                binds: Map::empty(),
                diags: Seq::empty(),
                pending: None,
                fault: None,
            }),
    {
        let mut input: VecDeque<Value> = VecDeque::new();
        let mut program = program;
        let ghost total = program@;
        proof {
            assert(input@ + program@ =~= total);
        }
        while program.len() > 0
            invariant
                input@ + program@ == total,
            decreases program@.len(),
        {
            let ghost (qs, ps) = (input@, program@);
            let v = program.remove(0);
            input.push_back(v);
            proof {
                assert(input@ + program@ =~= qs + ps);
            }
        }
        proof {
            assert(input@ =~= total);
        }
        let m = Machine {
            stack: Stack::new(),
            input,
            bindings: Bindings::new(),
            diags: Vec::new(),
            pending: None,
            fault: None,
        };
        proof {
            assert(vseq(Seq::<Value>::empty()) =~= Seq::<ValueSpec>::empty());
            assert(m.diags@.map_values(|d: Diagnostic| d@) =~= Seq::<DiagnosticSpec>::empty());
        }
        m
    }

    /// Applies one operator result to the machine, following
    /// [`spec_finish`].
    fn finish(&mut self, r: OpResult) -> (e: Option<Effect>)
        ensures
            ({
                let (s2, eff) = spec_finish(old(self)@, r@);
                final(self)@ == s2 && eff_view(e) == eff
            }),
    {
        match r {
            OpResult::Fx(p) => {
                let ef = emit_effect(&p);
                self.pending = Some(p);
                Some(ef)
            },
            OpResult::Val(v) => match v {
                Value::Quotation(mut ts) => {
                    let ghost ts0 = vseq(ts@);
                    let ghost q0 = vseq(self.input@);
                    let ghost frozen = *self;
                    while ts.len() > 0
                        invariant
                            vseq(ts@) + vseq(self.input@) == ts0 + q0,
                            self.stack == frozen.stack,
                            self.bindings == frozen.bindings,
                            self.diags == frozen.diags,
                            self.pending == frozen.pending,
                            self.fault == frozen.fault,
                        decreases ts@.len(),
                    {
                        let ghost (ts_b, q_b) = (ts@, self.input@);
                        let v2 = ts.pop().unwrap();
                        self.input.push_front(v2);
                        proof {
                            assert(ts@ =~= ts_b.drop_last());
                            assert(self.input@ =~= seq![ts_b.last()] + q_b);
                            vseq_concat(seq![ts_b.last()], q_b);
                            vseq_len(seq![ts_b.last()]);
                            vseq_index(seq![ts_b.last()], 0);
                            assert(vseq(seq![ts_b.last()]) =~= seq![val_view(ts_b.last())]);
                            assert(ts_b =~= ts@.push(ts_b.last()));
                            vseq_push(ts@, ts_b.last());
                            assert(vseq(ts@) + vseq(self.input@) =~= vseq(ts_b) + vseq(q_b));
                        }
                    }
                    proof {
                        vseq_len(ts@);
                        assert(vseq(ts@) + vseq(self.input@) =~= vseq(self.input@));
                        assert(vseq(self.input@) =~= ts0 + q0);
                    }
                    None
                },
                Value::Void => None,
                other => {
                    let ghost st = self.stack@;
                    self.stack.push(other);
                    proof {
                        vseq_push(st, other);
                    }
                    None
                },
            },
        }
    }

    /// Dispatches one operator, following [`spec_dispatch`]: the
    /// operator's token has already been removed from the queue.
    #[verifier::rlimit(60)]
    fn dispatch(&mut self, op: Op) -> (e: Option<Effect>)
        ensures
            ({
                let (s2, eff) = spec_dispatch(op, old(self)@);
                final(self)@ == s2 && eff_view(e) == eff
            }),
    {
        let sig = op.get_signature();
        let n_args = sig.stack_args.arity();
        let n_mods = sig.modifiers.arity();
        if n_args == 3 || n_mods == 3 {
            return None;
        }
        proof {
            vseq_len(self.stack@);
        }
        if self.stack.size() < n_args {
            self.fault = Some(Fault::StackUnderflow(op));
            return Some(Effect::Fault(Fault::StackUnderflow(op)));
        }
        proof {
            vseq_len(self.input@);
        }
        if self.input.len() < n_mods {
            self.fault = Some(Fault::InputExhausted(op));
            return Some(Effect::Fault(Fault::InputExhausted(op)));
        }
        let ghost q0 = vseq(self.input@);
        // remove the modifier operands from the front of the queue
        let mods: Args = match sig.modifiers {
            Params::Nullary => Args::Nullary,
            Params::Unary(_) => {
                proof {
                    vseq_index(self.input@, 0);
                    vseq_skip(self.input@, 1);
                }
                let a = self.input.pop_front().unwrap();
                Args::Unary(a)
            },
            Params::Binary(_, _) => {
                proof {
                    vseq_index(self.input@, 0);
                    vseq_index(self.input@, 1);
                    vseq_skip(self.input@, 1);
                }
                let a = self.input.pop_front().unwrap();
                proof {
                    vseq_index(self.input@, 0);
                    vseq_skip(self.input@, 1);
                    assert(vseq(self.input@)[0] == q0[1]);
                    assert(vseq(self.input@).skip(1) =~= q0.skip(2));
                }
                let b = self.input.pop_front().unwrap();
                Args::Binary(a, b)
            },
            Params::Ternary(_, _, _) => Args::Nullary,
        };
        proof {
            assert(mods@ == front_mods(q0, sig_spec(op).modifiers.arity_spec()));
            assert(vseq(self.input@) =~= q0.skip(sig_spec(op).modifiers.arity_spec() as int));
        }
        // check the modifiers against their constraints
        let mods_ok: bool = match (&sig.modifiers, &mods) {
            (Params::Unary(c), Args::Unary(a)) => {
                let t = a.get_type();
                c.is_satisfied_by(&t)
            },
            (Params::Binary(c1, c2), Args::Binary(a, b)) => {
                let ta = a.get_type();
                let tb = b.get_type();
                c1.is_satisfied_by(&ta) && c2.is_satisfied_by(&tb)
            },
            _ => true,
        };
        if !mods_ok {
            let actual: Vec<Type> = match &mods {
                Args::Nullary => Vec::new(),
                Args::Unary(a) => vec![a.get_type()],
                Args::Binary(a, b) => vec![a.get_type(), b.get_type()],
            };
            let ghost d0 = self.diags@;
            proof {
                assert(actual@ =~= tags_of(mods@));
            }
            self.diags.push(
                Diagnostic { op, expected: sig.modifiers, actual, modifiers: true },
            );
            proof {
                assert(self.diags@.map_values(|d: Diagnostic| d@) =~= d0.map_values(
                    |d: Diagnostic| d@,
                ).push(self.diags@.last()@));
            }
            return None;
        }
        // check the stack operands against their constraints, without
        // touching the stack
        let ghost st0 = vseq(self.stack@);
        let args_ok: bool = match sig.stack_args {
            Params::Nullary => true,
            Params::Unary(c) => {
                proof {
                    vseq_index(self.stack@, self.stack@.len() - 1);
                }
                let t = self.stack.peek(0).get_type();
                c.is_satisfied_by(&t)
            },
            Params::Binary(c1, c2) => {
                proof {
                    vseq_index(self.stack@, self.stack@.len() - 1);
                    vseq_index(self.stack@, self.stack@.len() - 2);
                }
                let rt = self.stack.peek(0).get_type();
                let lt = self.stack.peek(1).get_type();
                c1.is_satisfied_by(&lt) && c2.is_satisfied_by(&rt) && pair_compatible(
                    &op,
                    &lt,
                    &rt,
                )
            },
            Params::Ternary(_, _, _) => true,
        };
        if !args_ok {
            let actual: Vec<Type> = match sig.stack_args {
                Params::Unary(_) => vec![self.stack.peek(0).get_type()],
                Params::Binary(_, _) => vec![
                    self.stack.peek(1).get_type(),
                    self.stack.peek(0).get_type(),
                ],
                _ => Vec::new(),
            };
            let ghost d0 = self.diags@;
            proof {
                if self.stack@.len() >= 1 {
                    vseq_index(self.stack@, self.stack@.len() - 1);
                }
                if self.stack@.len() >= 2 {
                    vseq_index(self.stack@, self.stack@.len() - 2);
                }
                assert(actual@ =~= tags_of(top_args(st0, sig_spec(op).stack_args.arity_spec())));
            }
            self.diags.push(
                Diagnostic { op, expected: sig.stack_args, actual, modifiers: false },
            );
            proof {
                assert(self.diags@.map_values(|d: Diagnostic| d@) =~= d0.map_values(
                    |d: Diagnostic| d@,
                ).push(self.diags@.last()@));
            }
            return None;
        }
        // pop the operands and execute the rule
        match sig.stack_args {
            Params::Nullary => {
                proof {
                    vseq_len(self.stack@);
                    assert(self.stack@.take(self.stack@.len() as int) =~= self.stack@);
                    vseq_take(self.stack@, self.stack@.len() as int);
                    assert(vseq(self.stack@).take(vseq(self.stack@).len() as int) == vseq(
                        self.stack@,
                    ));
                }
                let r = op.exec_nullary(mods);
                self.finish(r)
            },
            Params::Unary(_) => {
                proof {
                    vseq_index(self.stack@, self.stack@.len() - 1);
                    assert(self.stack@.drop_last() =~= self.stack@.take(self.stack@.len() - 1));
                    vseq_take(self.stack@, self.stack@.len() - 1);
                }
                let arg = self.stack.pop().unwrap();
                let r = op.exec_unary(arg, mods, &self.bindings);
                self.finish(r)
            },
            Params::Binary(_, _) => {
                proof {
                    vseq_index(self.stack@, self.stack@.len() - 1);
                    vseq_index(self.stack@, self.stack@.len() - 2);
                    assert(self.stack@.drop_last().drop_last() =~= self.stack@.take(
                        self.stack@.len() - 2,
                    ));
                    vseq_take(self.stack@, self.stack@.len() - 2);
                }
                let rhs = self.stack.pop().unwrap();
                let lhs = self.stack.pop().unwrap();
                let r = op.exec_binary(lhs, rhs, mods, &mut self.bindings);
                self.finish(r)
            },
            Params::Ternary(_, _, _) => None,
        }
    }

    /// Takes exactly one step of [`spec_step`]. The machine must not
    /// be paused, faulted, or out of input.
    pub fn step(&mut self) -> (e: Option<Effect>)
        requires
            old(self)@.queue.len() > 0,
        ensures
            ({
                let (s2, eff) = spec_step(old(self)@);
                final(self)@ == s2 && eff_view(e) == eff
            }),
    {
        proof {
            vseq_len(self.input@);
            vseq_index(self.input@, 0);
            vseq_skip(self.input@, 1);
        }
        let front = self.input.pop_front().unwrap();
        match front {
            Value::Operator(op) => self.dispatch(op),
            v => {
                let ghost st = self.stack@;
                self.stack.push(v);
                proof {
                    vseq_push(st, v);
                }
                None
            },
        }
    }

    /// Runs the machine until the program is over, outside work is
    /// needed, the program faults, or `budget` steps have been taken
    /// (`None`: call again to continue). A paused or faulted machine
    /// reports the same effect again without moving.
    pub fn run(&mut self, budget: usize) -> (e: Option<Effect>)
        ensures
            old(self)@.fault is Some ==> *final(self) == *old(self) && e == Some(
                Effect::Fault(old(self)@.fault->0),
            ),
            old(self)@.fault is None && old(self)@.pending is Some ==> *final(self) == *old(self)
                && eff_view(e) == Some(effect_of(old(self)@.pending->0)),
            old(self)@.fault is None && old(self)@.pending is None ==> match e {
                Some(ef) => exists|n: nat| advance(old(self)@, n) == (final(self)@, Some(ef@)),
                None => advance(old(self)@, budget as nat) == (
                    final(self)@,
                    None::<EffectSpec>,
                ),
            },
    {
        if let Some(f) = self.fault {
            return Some(Effect::Fault(f));
        }
        match &self.pending {
            Some(p) => {
                return Some(emit_effect(p));
            },
            None => {},
        }
        let ghost s0 = self@;
        let mut i: usize = 0;
        while i < budget
            invariant
                i <= budget,
                old(self)@.fault is None,
                old(self)@.pending is None,
                s0 == old(self)@,
                advance(s0, i as nat) == (self@, None::<EffectSpec>),
            decreases budget - i,
        {
            proof {
                vseq_len(self.input@);
            }
            if self.input.len() == 0 {
                proof {
                    advance_extend(s0, i as nat, self@);
                    assert(spec_step(self@) == (self@, Some(EffectSpec::Done)));
                    assert(advance(s0, i as nat + 1) == (self@, Some(EffectSpec::Done)));
                }
                return Some(Effect::Done);
            }
            let ghost cur = self@;
            let r = self.step();
            proof {
                advance_extend(s0, i as nat, cur);
            }
            match r {
                Some(ef) => {
                    proof {
                        assert(advance(s0, i as nat + 1) == (self@, Some(ef@)));
                    }
                    return Some(ef);
                },
                None => {},
            }
            i = i + 1;
        }
        None
    }

    /// Acknowledges that the pending value was printed; printing
    /// leaves no result.
    pub fn resume_print(&mut self)
        requires
            old(self)@.pending matches Some(PendingSpec::Print(_)),
        ensures
            final(self)@ == (MachineSpec { pending: None, ..old(self)@ }),
    {
        self.pending = None;
    }

    /// Hands the machine the line the host read; it is pushed as a
    /// string.
    pub fn resume_read(&mut self, line: String)
        requires
            old(self)@.pending matches Some(PendingSpec::Read),
        ensures
            final(self)@ == (MachineSpec {
                pending: None,
                stack: old(self)@.stack.push(ValueSpec::String(line@)),
                ..old(self)@
            }),
    {
        self.pending = None;
        let ghost st = self.stack@;
        self.stack.push(Value::String(line));
        proof {
            vseq_push(st, self.stack@.last());
        }
    }

    /// Hands the machine the bits of the float the host computed; the
    /// float is pushed.
    pub fn resume_float(&mut self, bits: u64)
        requires
            old(self)@.pending matches Some(PendingSpec::Arith(_, _, _)),
        ensures
            final(self)@ == (MachineSpec {
                pending: None,
                stack: old(self)@.stack.push(ValueSpec::Float(bits)),
                ..old(self)@
            }),
    {
        self.pending = None;
        let ghost st = self.stack@;
        self.stack.push(Value::Float(bits));
        proof {
            vseq_push(st, self.stack@.last());
        }
    }

    /// Hands the machine the outcome of parsing a float: its bits, or
    /// nothing, in which case the `Overflow` error value is pushed.
    pub fn resume_parsed_float(&mut self, r: Option<u64>)
        requires
            old(self)@.pending matches Some(PendingSpec::ParseFloat(_)),
        ensures
            final(self)@ == (MachineSpec {
                pending: None,
                stack: old(self)@.stack.push(
                    match r {
                        Some(bits) => ValueSpec::Float(bits),
                        None => ValueSpec::Error(StackErrorSpec::Overflow),
                    },
                ),
                ..old(self)@
            }),
    {
        self.pending = None;
        let ghost st = self.stack@;
        match r {
            Some(bits) => self.stack.push(Value::Float(bits)),
            None => self.stack.push(Value::Error(StackError::Overflow)),
        }
        proof {
            vseq_push(st, self.stack@.last());
        }
    }

    /// Hands the machine the host's comparison outcome; the boolean
    /// the paused operator asked for is pushed.
    pub fn resume_cmp(&mut self, c: FloatCmp)
        requires
            old(self)@.pending matches Some(PendingSpec::Cmp(_, _, _)),
        ensures
            final(self)@ == (MachineSpec {
                pending: None,
                stack: old(self)@.stack.push(
                    ValueSpec::Bool(cmp_answer(old(self)@.pending->0->Cmp_0, c)),
                ),
                ..old(self)@
            }),
    {
        let wanted = match &self.pending {
            Some(Pending::Cmp(w, _, _)) => *w,
            _ => CmpWanted::Eq,
        };
        self.pending = None;
        let answer = match wanted {
            CmpWanted::Lt => c == FloatCmp::Less,
            CmpWanted::Gt => c == FloatCmp::Greater,
            CmpWanted::Eq => c == FloatCmp::Equal,
        };
        let ghost st = self.stack@;
        self.stack.push(Value::Bool(answer));
        proof {
            vseq_push(st, self.stack@.last());
        }
    }

    /// Hands the machine one truncated operand of the pending
    /// truncating division, following [`spec_resume_trunc`].
    pub fn resume_trunc(&mut self, i: i128)
        requires
            old(self)@.pending matches Some(PendingSpec::IntDiv(a, b)) && (a is F || b is F),
        ensures
            final(self)@ == spec_resume_trunc(old(self)@, i),
    {
        let (a, b) = match &self.pending {
            Some(Pending::IntDiv(a, b)) => (*a, *b),
            _ => (NumVal::I(0), NumVal::I(0)),
        };
        match (a, b) {
            (NumVal::F(_), NumVal::F(_)) => {
                self.pending = Some(Pending::IntDiv(NumVal::I(i), b));
            },
            (NumVal::F(_), NumVal::I(y)) => {
                self.pending = None;
                let ghost st = self.stack@;
                self.stack.push(div_ints(i, y));
                proof {
                    vseq_push(st, self.stack@.last());
                }
            },
            (NumVal::I(x), NumVal::F(_)) => {
                self.pending = None;
                let ghost st = self.stack@;
                self.stack.push(div_ints(x, i));
                proof {
                    vseq_push(st, self.stack@.last());
                }
            },
            (NumVal::I(_), NumVal::I(_)) => {},
        }
    }
}

/// Runs the machine as [`Machine::run`] does: the free-function entry
/// point of the evaluation loop.
pub fn run(machine: &mut Machine, budget: usize) -> (e: Option<Effect>)
    ensures
        old(machine)@.fault is Some ==> *final(machine) == *old(machine) && e == Some(
            Effect::Fault(old(machine)@.fault->0),
        ),
        old(machine)@.fault is None && old(machine)@.pending is Some ==> *final(machine) == *old(
            machine,
        ) && eff_view(e) == Some(effect_of(old(machine)@.pending->0)),
        old(machine)@.fault is None && old(machine)@.pending is None ==> match e {
            Some(ef) => exists|n: nat| advance(old(machine)@, n) == (final(machine)@, Some(ef@)),
            None => advance(old(machine)@, budget as nat) == (
                final(machine)@,
                None::<EffectSpec>,
            ),
        },
{
    machine.run(budget)
}

} // verus!
