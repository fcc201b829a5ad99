//! Laws of the machine, stated and proved once and for all over the
//! small-step semantics.

use vstd::prelude::*;

use crate::exec::{
    cmp_values_flip, cmp_values_refl, is_numeric, num_of, spec_gt, spec_lt, ArgsSpec, ArithKind,
    OpResultSpec, PendingSpec,
};
use crate::machine::{
    advance, front_mods, operands_ok, pair_args_ok, spec_dispatch, spec_step, top_args,
    DiagnosticSpec, EffectSpec, MachineSpec,
};
use crate::op::{sig_spec, Op};
use crate::types::Type;
use crate::value::{spec_coerce, CoercedSpec, ValueSpec};

verus! {

/// `dup` applied to any value `v` (other than an operator reference,
/// which the splice would run again) leaves a stack whose top two
/// elements are both `v`: after the operator and the two spliced
/// copies are consumed — three steps — the stack has grown by one
/// more copy of its old top, and nothing else changed.
pub proof fn law_dup(s: MachineSpec)
    requires
        s.pending is None,
        s.fault is None,
        s.queue.len() >= 1,
        s.queue[0] == ValueSpec::Operator(Op::Dup),
        s.stack.len() >= 1,
        !(s.stack.last() is Operator),
    ensures
        advance(s, 3) == (
            MachineSpec { stack: s.stack.push(s.stack.last()), queue: s.queue.skip(1), ..s },
            None::<EffectSpec>,
        ),
        advance(s, 3).0.stack.len() == s.stack.len() + 1,
        advance(s, 3).0.stack[advance(s, 3).0.stack.len() - 1] == s.stack.last(),
        advance(s, 3).0.stack[advance(s, 3).0.stack.len() - 2] == s.stack.last(),
{
    let v = s.stack.last();
    let q1 = s.queue.skip(1);
    let popped = s.stack.take(s.stack.len() - 1);
    let s1 = MachineSpec { stack: popped, queue: seq![v, v] + q1, ..s };
    assert(spec_step(s) == (s1, None::<EffectSpec>)) by {
        assert(front_mods(q1, 0) == ArgsSpec::Nullary);
        assert(q1.skip(0) =~= q1);
    }
    let s2 = MachineSpec { stack: popped.push(v), queue: seq![v] + q1, ..s };
    assert(spec_step(s1) == (s2, None::<EffectSpec>)) by {
        assert((seq![v, v] + q1)[0] == v);
        assert((seq![v, v] + q1).skip(1) =~= seq![v] + q1);
    }
    let s3 = MachineSpec { stack: popped.push(v).push(v), queue: q1, ..s };
    assert(spec_step(s2) == (s3, None::<EffectSpec>)) by {
        assert((seq![v] + q1)[0] == v);
        assert((seq![v] + q1).skip(1) =~= q1);
    }
    assert(popped.push(v) =~= s.stack);
    assert(popped.push(v).push(v) =~= s.stack.push(v));
    reveal_with_fuel(advance, 4);
    assert(advance(s, 3) == (s3, None::<EffectSpec>));
}

/// Running `a b swap` reverses the order of the two values: after the
/// operator and the two spliced values are consumed — three steps —
/// the top two elements of the stack have traded places. Operator
/// references are left out, since the splice would run them.
pub proof fn law_swap(s: MachineSpec)
    requires
        s.pending is None,
        s.fault is None,
        s.queue.len() >= 1,
        s.queue[0] == ValueSpec::Operator(Op::Swap),
        s.stack.len() >= 2,
        !(s.stack[s.stack.len() - 1] is Operator),
        !(s.stack[s.stack.len() - 2] is Operator),
    ensures
        advance(s, 3) == (
            MachineSpec {
                stack: s.stack.take(s.stack.len() - 2).push(s.stack[s.stack.len() - 1]).push(
                    s.stack[s.stack.len() - 2],
                ),
                queue: s.queue.skip(1),
                ..s
            },
            None::<EffectSpec>,
        ),
{
    let a = s.stack[s.stack.len() - 2];
    let b = s.stack[s.stack.len() - 1];
    let q1 = s.queue.skip(1);
    let popped = s.stack.take(s.stack.len() - 2);
    let s1 = MachineSpec { stack: popped, queue: seq![b, a] + q1, ..s };
    assert(spec_step(s) == (s1, None::<EffectSpec>)) by {
        assert(front_mods(q1, 0) == ArgsSpec::Nullary);
        assert(q1.skip(0) =~= q1);
    }
    let s2 = MachineSpec { stack: popped.push(b), queue: seq![a] + q1, ..s };
    assert(spec_step(s1) == (s2, None::<EffectSpec>)) by {
        assert((seq![b, a] + q1)[0] == b);
        assert((seq![b, a] + q1).skip(1) =~= seq![a] + q1);
    }
    let s3 = MachineSpec { stack: popped.push(b).push(a), queue: q1, ..s };
    assert(spec_step(s2) == (s3, None::<EffectSpec>)) by {
        assert((seq![a] + q1)[0] == a);
        assert((seq![a] + q1).skip(1) =~= q1);
    }
    reveal_with_fuel(advance, 4);
    assert(advance(s, 3) == (s3, None::<EffectSpec>));
}

/// A constraint violation is reported, not fatal: when an operator's
/// stack operands are present but some operand fails its constraint,
/// the step leaves the stack exactly as it was, does not run the
/// operator, does not fault, and appends one diagnostic naming the
/// operator, the expected constraints and the actual tags.
pub proof fn law_mismatch_reported(s: MachineSpec, op: Op)
    requires
        s.pending is None,
        s.fault is None,
        s.queue.len() >= 1,
        s.queue[0] == ValueSpec::Operator(op),
        s.stack.len() >= sig_spec(op).stack_args.arity_spec(),
        s.queue.len() - 1 >= sig_spec(op).modifiers.arity_spec(),
        operands_ok(sig_spec(op).modifiers, front_mods(s.queue.skip(1), sig_spec(op).modifiers.arity_spec())),
        !(operands_ok(
            sig_spec(op).stack_args,
            top_args(s.stack, sig_spec(op).stack_args.arity_spec()),
        ) && pair_args_ok(op, top_args(s.stack, sig_spec(op).stack_args.arity_spec()))),
    ensures
        spec_step(s).0.stack == s.stack,
        spec_step(s).0.fault is None,
        spec_step(s).1 is None,
        spec_step(s).0.diags == s.diags.push(
            DiagnosticSpec {
                op,
                expected: sig_spec(op).stack_args,
                actual: crate::machine::tags_of(
                    top_args(s.stack, sig_spec(op).stack_args.arity_spec()),
                ),
                modifiers: false,
            },
        ),
{
    let sig = sig_spec(op);
    assert(!(sig.stack_args is Ternary)) by {
        crate::op::sig_spec_never_ternary(op);
    }
    assert(!(sig.modifiers is Ternary)) by {
        crate::op::sig_spec_never_ternary(op);
    }
    let s0 = MachineSpec { queue: s.queue.skip(1), ..s };
    assert(spec_step(s) == spec_dispatch(op, s0));
}

/// Mixed-tag promotion: when one of the sum-like operators meets two
/// numeric operands of which at least one is a float, the operands
/// are handed out for 64-bit float arithmetic, both of them and in
/// order — and whatever bits come back, `resume_float` pushes a
/// Float, so a mixed pair always leaves a float result. Exact
/// integer pairs never take this path (`/` excepted: it always
/// divides in floating point).
pub proof fn law_mixed_promotion(s: MachineSpec, op: Op)
    requires
        s.pending is None,
        s.fault is None,
        s.queue.len() >= 1,
        s.queue[0] == ValueSpec::Operator(op),
        op == Op::Add || op == Op::Sub || op == Op::Mul || op == Op::Div,
        s.stack.len() >= 2,
        is_numeric(s.stack[s.stack.len() - 2]),
        is_numeric(s.stack[s.stack.len() - 1]),
        s.stack[s.stack.len() - 2] is Float || s.stack[s.stack.len() - 1] is Float,
    ensures
        spec_step(s).0.pending == Some(
            PendingSpec::Arith(
                arith_kind_of(op),
                num_of(s.stack[s.stack.len() - 2]),
                num_of(s.stack[s.stack.len() - 1]),
            ),
        ),
        spec_step(s).1 == Some(
            EffectSpec::Arith(
                arith_kind_of(op),
                num_of(s.stack[s.stack.len() - 2]),
                num_of(s.stack[s.stack.len() - 1]),
            ),
        ),
        spec_step(s).0.stack == s.stack.take(s.stack.len() - 2),
{
    let s0 = MachineSpec { queue: s.queue.skip(1), ..s };
    assert(spec_step(s) == spec_dispatch(op, s0));
    assert(s0.queue.skip(0) =~= s0.queue);
}

/// Which float operation each sum-like operator asks of the host.
pub open spec fn arith_kind_of(op: Op) -> ArithKind {
    match op {
        Op::Add => ArithKind::Add,
        Op::Sub => ArithKind::Sub,
        Op::Mul => ArithKind::Mul,
        _ => ArithKind::Div,
    }
}

/// `>` is the mirror of `<`: for any pair of operands that the
/// library decides itself (everything but the float pairs the host
/// compares), `a b >` and `b a <` leave the same result.
pub proof fn law_order_mirror(a: ValueSpec, b: ValueSpec)
    requires
        !(is_numeric(a) && is_numeric(b) && (a is Float || b is Float)),
    ensures
        spec_gt(a, b) == spec_lt(b, a),
{
    cmp_values_flip(a, b);
}

/// Neither `<` nor `>` ever puts a value strictly before or after
/// itself: comparing a value with itself never leaves `Bool(true)`.
pub proof fn law_order_irreflexive(v: ValueSpec)
    ensures
        spec_lt(v, v) != OpResultSpec::Val(ValueSpec::Bool(true)),
        spec_gt(v, v) != OpResultSpec::Val(ValueSpec::Bool(true)),
{
    cmp_values_refl(v);
}

/// The List/Quotation coercion round trip: for a list value,
/// coercing to List is the identity, and coercing to Quotation and
/// back reproduces the original elements exactly.
pub proof fn law_coerce_round_trip(v: ValueSpec)
    requires
        v is List,
    ensures
        spec_coerce(v, Type::List) == CoercedSpec::Done(v),
        spec_coerce(v, Type::Quotation) matches CoercedSpec::Done(q) && spec_coerce(
            q,
            Type::List,
        ) == CoercedSpec::Done(v),
{
}

} // verus!
