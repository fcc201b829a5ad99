//! Runtime type tags, constraints over them, and operator signatures.
//!
//! A constraint is a named predicate over type tags; satisfaction is a
//! pure table lookup and implies no coercion. Signatures describe, for
//! each operator, how many operands come off the data stack, how many
//! come directly off the front of the pending input ("modifiers"), and
//! what constraint the result satisfies.

use vstd::prelude::*;

verus! {

/// The runtime type tag of a value.
#[derive(Clone, Copy, PartialEq, Eq, Structural, Debug)]
pub enum Type {
    Void,
    Bool,
    Integer,
    Float,
    String,
    Symbol,
    List,
    Quotation,
    Operator,
    Error,
}

/// A named predicate over type tags, used to gate operator dispatch.
#[derive(Clone, Copy, PartialEq, Eq, Structural, Debug)]
pub enum Constraint {
    /// Satisfied by every tag.
    Any,
    /// Integer or Float.
    Num,
    /// Exactly Bool.
    Boolean,
    /// Any tag with a defined total order: every tag but Error.
    Ord,
    /// Any tag with a defined equality: every tag but Error.
    Eq,
    /// Tags with a defined length: String, List, Quotation.
    Sized,
    /// Tags that can be run: Operator, Quotation.
    Executable,
    /// Tags with a textual rendering: every tag.
    Display,
    /// The remaining variants are satisfied only by the tag of the
    /// same name.
    Void,
    Bool,
    Integer,
    Float,
    String,
    Symbol,
    List,
    Quotation,
    Error,
}

/// The satisfaction table: whether tag `t` satisfies constraint `c`.
pub open spec fn satisfies(c: Constraint, t: Type) -> bool {
    match c {
        Constraint::Any => true,
        Constraint::Num => t == Type::Integer || t == Type::Float,
        Constraint::Boolean => t == Type::Bool,
        Constraint::Ord => t != Type::Error,
        Constraint::Eq => t != Type::Error,
        Constraint::Sized => t == Type::String || t == Type::List || t == Type::Quotation,
        Constraint::Executable => t == Type::Operator || t == Type::Quotation,
        Constraint::Display => true,
        Constraint::Void => t == Type::Void,
        Constraint::Bool => t == Type::Bool,
        Constraint::Integer => t == Type::Integer,
        Constraint::Float => t == Type::Float,
        Constraint::String => t == Type::String,
        Constraint::Symbol => t == Type::Symbol,
        Constraint::List => t == Type::List,
        Constraint::Quotation => t == Type::Quotation,
        Constraint::Error => t == Type::Error,
    }
}

impl Constraint {
    /// Whether the tag `t` satisfies this constraint.
    pub fn is_satisfied_by(&self, t: &Type) -> (r: bool)
        ensures
            r == satisfies(*self, *t),
    {
        match self {
            Constraint::Any => true,
            Constraint::Num => *t == Type::Integer || *t == Type::Float,
            Constraint::Boolean => *t == Type::Bool,
            Constraint::Ord => *t != Type::Error,
            Constraint::Eq => *t != Type::Error,
            Constraint::Sized => *t == Type::String || *t == Type::List || *t == Type::Quotation,
            Constraint::Executable => *t == Type::Operator || *t == Type::Quotation,
            Constraint::Display => true,
            Constraint::Void => *t == Type::Void,
            Constraint::Bool => *t == Type::Bool,
            Constraint::Integer => *t == Type::Integer,
            Constraint::Float => *t == Type::Float,
            Constraint::String => *t == Type::String,
            Constraint::Symbol => *t == Type::Symbol,
            Constraint::Quotation => *t == Type::Quotation,
            Constraint::List => *t == Type::List,
            Constraint::Error => *t == Type::Error,
        }
    }
}

/// Operand arity and constraints for one operand source.
#[derive(Clone, Copy, PartialEq, Eq, Structural, Debug)]
pub enum Params {
    Nullary,
    Unary(Constraint),
    Binary(Constraint, Constraint),
    Ternary(Constraint, Constraint, Constraint),
}

impl Params {
    /// How many operands this shape describes.
    pub open spec fn arity_spec(&self) -> nat {
        match self {
            Params::Nullary => 0,
            Params::Unary(_) => 1,
            Params::Binary(_, _) => 2,
            Params::Ternary(_, _, _) => 3,
        }
    }

    /// How many operands this shape describes.
    pub fn arity(&self) -> (r: usize)
        ensures
            r == self.arity_spec(),
    {
        match self {
            Params::Nullary => 0,
            Params::Unary(_) => 1,
            Params::Binary(_, _) => 2,
            Params::Ternary(_, _, _) => 3,
        }
    }
}

/// The full signature of one operator: stack operands, modifier
/// operands (taken from the front of the pending input), and the
/// constraint on the produced result.
#[derive(Clone, Copy, PartialEq, Eq, Structural, Debug)]
pub struct Signature {
    pub stack_args: Params,
    pub modifiers: Params,
    pub ret: Constraint,
}

/// A signature with no stack operands, no modifiers, and return
/// constraint `ret`.
pub fn nullary(ret: Constraint) -> (r: Signature)
    ensures
        r == (Signature { stack_args: Params::Nullary, modifiers: Params::Nullary, ret }),
{
    Signature { stack_args: Params::Nullary, modifiers: Params::Nullary, ret }
}

/// A signature with one stack operand constrained by `c`.
pub fn unary(c: Constraint, ret: Constraint) -> (r: Signature)
    ensures
        r == (Signature { stack_args: Params::Unary(c), modifiers: Params::Nullary, ret }),
{
    Signature { stack_args: Params::Unary(c), modifiers: Params::Nullary, ret }
}

/// A signature with two stack operands under the same constraint.
pub fn homogenous_binary(c: Constraint, ret: Constraint) -> (r: Signature)
    ensures
        r == (Signature { stack_args: Params::Binary(c, c), modifiers: Params::Nullary, ret }),
{
    Signature { stack_args: Params::Binary(c, c), modifiers: Params::Nullary, ret }
}

/// A signature with two stack operands under distinct constraints.
pub fn heterogeneous_binary(c1: Constraint, c2: Constraint, ret: Constraint) -> (r: Signature)
    ensures
        r == (Signature { stack_args: Params::Binary(c1, c2), modifiers: Params::Nullary, ret }),
{
    Signature { stack_args: Params::Binary(c1, c2), modifiers: Params::Nullary, ret }
}

} // verus!
