//! The runtime value model: a closed tagged union.
//!
//! Every runtime datum is a [`Value`]. Floating-point numbers are
//! carried as their 64-bit IEEE-754 bit pattern (`u64`): the library
//! never computes with them itself; arithmetic on them is requested
//! from the host through the machine's effects.
//!
//! The mathematical model of a `Value` is a [`ValueSpec`], in which
//! integers are unbounded, strings are character sequences and the two
//! container variants hold sequences of models.

use vstd::prelude::*;

use crate::op::Op;
use crate::types::Type;

verus! {

/// A failure payload, propagated on the stack as a first-class value.
#[derive(Clone, PartialEq, Eq, Debug)]
pub enum StackError {
    /// Numeric text failed to parse into the target numeric tag.
    Overflow,
    /// `head` or `tail` applied to an empty list.
    HeadEmpty,
    /// A coercion or evaluation path had no defined rule.
    Undefined,
    /// Raised explicitly by the `err` operator, with a message.
    UserDefined(String),
}

/// Model of a [`StackError`].
pub enum StackErrorSpec {
    Overflow,
    HeadEmpty,
    Undefined,
    UserDefined(Seq<char>),
}

impl StackError {
    pub open spec fn view_spec(&self) -> StackErrorSpec {
        match self {
            StackError::Overflow => StackErrorSpec::Overflow,
            StackError::HeadEmpty => StackErrorSpec::HeadEmpty,
            StackError::Undefined => StackErrorSpec::Undefined,
            StackError::UserDefined(s) => StackErrorSpec::UserDefined(s@),
        }
    }
}

impl View for StackError {
    type V = StackErrorSpec;

    open spec fn view(&self) -> StackErrorSpec {
        self.view_spec()
    }
}

/// A runtime datum. Exactly one variant is active at a time.
#[derive(PartialEq, Eq, Debug)]
pub enum Value {
    /// Absence of a meaningful result.
    Void,
    Bool(bool),
    /// Exact integer.
    Integer(i128),
    /// A 64-bit float, carried as its IEEE-754 bit pattern.
    Float(u64),
    String(String),
    /// An unevaluated name.
    Symbol(String),
    /// An ordered sequence of evaluated values.
    List(Vec<Value>),
    /// An ordered sequence of unevaluated program tokens.
    Quotation(Vec<Value>),
    /// A reference to one catalog entry.
    Operator(Op),
    /// A first-class failure value.
    Error(StackError),
}

/// Model of a [`Value`].
pub enum ValueSpec {
    Void,
    Bool(bool),
    Integer(int),
    Float(u64),
    String(Seq<char>),
    Symbol(Seq<char>),
    List(Seq<ValueSpec>),
    Quotation(Seq<ValueSpec>),
    Operator(Op),
    Error(StackErrorSpec),
}

/// The model of a value.
pub open spec fn val_view(v: Value) -> ValueSpec
    decreases v,
{
    match v {
        Value::Void => ValueSpec::Void,
        Value::Bool(b) => ValueSpec::Bool(b),
        Value::Integer(i) => ValueSpec::Integer(i as int),
        Value::Float(bits) => ValueSpec::Float(bits),
        Value::String(s) => ValueSpec::String(s@),
        Value::Symbol(s) => ValueSpec::Symbol(s@),
        Value::List(l) => ValueSpec::List(vseq(l@)),
        Value::Quotation(q) => ValueSpec::Quotation(vseq(q@)),
        Value::Operator(o) => ValueSpec::Operator(o),
        Value::Error(e) => ValueSpec::Error(e@),
    }
}

/// The models of a sequence of values, element for element.
pub open spec fn vseq(s: Seq<Value>) -> Seq<ValueSpec>
    decreases s,
{
    if s.len() == 0 {
        Seq::empty()
    } else {
        seq![val_view(s[0])] + vseq(s.skip(1))
    }
}

impl View for Value {
    type V = ValueSpec;

    open spec fn view(&self) -> ValueSpec {
        val_view(*self)
    }
}

/// The type tag of a modelled value.
pub open spec fn type_of(v: ValueSpec) -> Type {
    match v {
        ValueSpec::Void => Type::Void,
        ValueSpec::Bool(_) => Type::Bool,
        ValueSpec::Integer(_) => Type::Integer,
        ValueSpec::Float(_) => Type::Float,
        ValueSpec::String(_) => Type::String,
        ValueSpec::Symbol(_) => Type::Symbol,
        ValueSpec::List(_) => Type::List,
        ValueSpec::Quotation(_) => Type::Quotation,
        ValueSpec::Operator(_) => Type::Operator,
        ValueSpec::Error(_) => Type::Error,
    }
}

/// The outcome of coercing a value to a target tag. The two numeric
/// crossings are not computed here: the caller hands them to the host,
/// which owns floating-point arithmetic.
pub enum Coerced {
    /// The coercion was carried out (or had no rule, in which case the
    /// value is `Error(Undefined)`).
    Done(Value),
    /// An exact-to-approximate conversion of this integer is needed.
    IntToFloat(i128),
    /// A truncate-toward-zero conversion of this float is needed.
    FloatToInt(u64),
}

/// Model of a [`Coerced`].
pub enum CoercedSpec {
    Done(ValueSpec),
    IntToFloat(int),
    FloatToInt(u64),
}

impl View for Coerced {
    type V = CoercedSpec;

    open spec fn view(&self) -> CoercedSpec {
        match self {
            Coerced::Done(v) => CoercedSpec::Done(v@),
            Coerced::IntToFloat(i) => CoercedSpec::IntToFloat(*i as int),
            Coerced::FloatToInt(b) => CoercedSpec::FloatToInt(*b),
        }
    }
}

/// The coercion rules: identity on the value's own tag; element-for-
/// element reinterpretation between List and Quotation; wrapping of a
/// scalar into a one-element List or Quotation; the two numeric
/// crossings, which are handed out; and `Error(Undefined)` where no
/// rule applies.
pub open spec fn spec_coerce(v: ValueSpec, target: Type) -> CoercedSpec {
    if type_of(v) == target {
        CoercedSpec::Done(v)
    } else {
        match (v, target) {
            (ValueSpec::Integer(i), Type::Float) => CoercedSpec::IntToFloat(i),
            (ValueSpec::Float(b), Type::Integer) => CoercedSpec::FloatToInt(b),
            (ValueSpec::List(l), Type::Quotation) => CoercedSpec::Done(ValueSpec::Quotation(l)),
            (ValueSpec::Quotation(q), Type::List) => CoercedSpec::Done(ValueSpec::List(q)),
            (_, Type::List) => CoercedSpec::Done(ValueSpec::List(seq![v])),
            (_, Type::Quotation) => CoercedSpec::Done(ValueSpec::Quotation(seq![v])),
            _ => CoercedSpec::Done(ValueSpec::Error(StackErrorSpec::Undefined)),
        }
    }
}

impl Value {
    /// The runtime type tag of this value.
    pub fn get_type(&self) -> (r: Type)
        ensures
            r == type_of(self@),
    {
        match self {
            Value::Void => Type::Void,
            Value::Bool(_) => Type::Bool,
            Value::Integer(_) => Type::Integer,
            Value::Float(_) => Type::Float,
            Value::String(_) => Type::String,
            Value::Symbol(_) => Type::Symbol,
            Value::List(_) => Type::List,
            Value::Quotation(_) => Type::Quotation,
            Value::Operator(_) => Type::Operator,
            Value::Error(_) => Type::Error,
        }
    }

    /// Coerce this value to the target tag, following [`spec_coerce`].
    pub fn coerce(self, target: Type) -> (r: Coerced)
        ensures
            r@ == spec_coerce(self@, target),
    {
        let tag = self.get_type();
        if tag == target {
            Coerced::Done(self)
        } else {
            match (self, target) {
                (Value::Integer(i), Type::Float) => Coerced::IntToFloat(i),
                (Value::Float(b), Type::Integer) => Coerced::FloatToInt(b),
                (Value::List(l), Type::Quotation) => Coerced::Done(Value::Quotation(l)),
                (Value::Quotation(q), Type::List) => Coerced::Done(Value::List(q)),
                (v, Type::List) => {
                    let l = vec![v];
                    proof {
                        vseq_len(l@);
                        vseq_index(l@, 0);
                        assert(vseq(l@) =~= seq![l@[0]@]);
                    }
                    Coerced::Done(Value::List(l))
                },
                (v, Type::Quotation) => {
                    let q = vec![v];
                    proof {
                        vseq_len(q@);
                        vseq_index(q@, 0);
                        assert(vseq(q@) =~= seq![q@[0]@]);
                    }
                    Coerced::Done(Value::Quotation(q))
                },
                _ => Coerced::Done(Value::Error(StackError::Undefined)),
            }
        }
    }
}

/// A copy of an error value, equal in model.
pub fn dup_error(e: &StackError) -> (r: StackError)
    ensures
        r@ == e@,
{
    match e {
        StackError::Overflow => StackError::Overflow,
        StackError::HeadEmpty => StackError::HeadEmpty,
        StackError::Undefined => StackError::Undefined,
        StackError::UserDefined(s) => StackError::UserDefined(s.clone()),
    }
}

/// A deep copy of a value, equal in model. Cloning is how one value
/// comes to stand in two places (for `dup`, `swap`, and the code
/// fragments the control operators synthesize).
pub fn dup_value(v: &Value) -> (r: Value)
    ensures
        r@ == v@,
    decreases *v,
{
    match v {
        Value::Void => Value::Void,
        Value::Bool(b) => Value::Bool(*b),
        Value::Integer(i) => Value::Integer(*i),
        Value::Float(bits) => Value::Float(*bits),
        Value::String(s) => Value::String(s.clone()),
        Value::Symbol(s) => Value::Symbol(s.clone()),
        Value::List(l) => Value::List(dup_values(l)),
        Value::Quotation(q) => Value::Quotation(dup_values(q)),
        Value::Operator(o) => Value::Operator(*o),
        Value::Error(e) => Value::Error(dup_error(e)),
    }
}

/// A deep copy of a sequence of values, equal in model element for
/// element.
pub fn dup_values(l: &Vec<Value>) -> (r: Vec<Value>)
    ensures
        vseq(r@) == vseq(l@),
    decreases l@,
{
    broadcast use vseq_len, vseq_index;

    let mut r: Vec<Value> = Vec::new();
    let mut i: usize = 0;
    while i < l.len()
        invariant
            i <= l.len(),
            r@.len() == i,
            forall|j: int| 0 <= j < i ==> r@[j]@ == l@[j]@,
        decreases l@.len() - i,
    {
        r.push(dup_value(&l[i]));
        i = i + 1;
    }
    proof {
        assert(vseq(r@) =~= vseq(l@));
    }
    r
}

/// Whether two modelled values are the same value. Floats are the same
/// when their bit patterns are; the numeric comparison that identifies
/// an integer with a float of equal magnitude is applied by the `==`
/// operator to its two operands, not inside containers.
pub open spec fn same_value(a: ValueSpec, b: ValueSpec) -> bool {
    a == b
}

/// Structural equality of two values, deciding equality of the models.
pub fn value_eq(a: &Value, b: &Value) -> (r: bool)
    ensures
        r == same_value(a@, b@),
    decreases *a,
{
    match (a, b) {
        (Value::Void, Value::Void) => true,
        (Value::Bool(x), Value::Bool(y)) => *x == *y,
        (Value::Integer(x), Value::Integer(y)) => *x == *y,
        (Value::Float(x), Value::Float(y)) => *x == *y,
        (Value::String(x), Value::String(y)) => x.eq(y),
        (Value::Symbol(x), Value::Symbol(y)) => x.eq(y),
        (Value::List(x), Value::List(y)) => values_eq(x, y),
        (Value::Quotation(x), Value::Quotation(y)) => values_eq(x, y),
        (Value::Operator(x), Value::Operator(y)) => *x == *y,
        (Value::Error(x), Value::Error(y)) => error_eq(x, y),
        _ => false,
    }
}

/// Structural equality of two error payloads.
pub fn error_eq(a: &StackError, b: &StackError) -> (r: bool)
    ensures
        r == (a@ == b@),
{
    match (a, b) {
        (StackError::Overflow, StackError::Overflow) => true,
        (StackError::HeadEmpty, StackError::HeadEmpty) => true,
        (StackError::Undefined, StackError::Undefined) => true,
        (StackError::UserDefined(x), StackError::UserDefined(y)) => x.eq(y),
        _ => false,
    }
}

/// Elementwise structural equality of two sequences of values.
pub fn values_eq(a: &Vec<Value>, b: &Vec<Value>) -> (r: bool)
    ensures
        r == (vseq(a@) == vseq(b@)),
    decreases a@,
{
    broadcast use vseq_len, vseq_index;

    if a.len() != b.len() {
        proof {
            assert(vseq(a@).len() != vseq(b@).len());
        }
        return false;
    }
    let mut i: usize = 0;
    while i < a.len()
        invariant
            i <= a.len(),
            a@.len() == b@.len(),
            forall|j: int| 0 <= j < i ==> vseq(a@)[j] == vseq(b@)[j],
        decreases a@.len() - i,
    {
        let same = value_eq(&a[i], &b[i]);
        proof {
            vseq_index(a@, i as int);
            vseq_index(b@, i as int);
        }
        if !same {
            proof {
                assert(vseq(a@)[i as int] != vseq(b@)[i as int]);
            }
            return false;
        }
        i = i + 1;
    }
    proof {
        assert(vseq(a@) =~= vseq(b@));
    }
    true
}

pub broadcast proof fn vseq_len(s: Seq<Value>)
    ensures
        #[trigger] vseq(s).len() == s.len(),
    decreases s,
{
    if s.len() != 0 {
        vseq_len(s.skip(1));
    }
}

pub broadcast proof fn vseq_index(s: Seq<Value>, i: int)
    requires
        0 <= i < s.len(),
    ensures
        vseq(s).len() == s.len(),
        #[trigger] vseq(s)[i] == val_view(s[i]),
    decreases s,
{
    vseq_len(s);
    if i > 0 {
        vseq_index(s.skip(1), i - 1);
    }
}

pub proof fn vseq_push(s: Seq<Value>, v: Value)
    ensures
        vseq(s.push(v)) == vseq(s).push(val_view(v)),
{
    vseq_len(s.push(v));
    vseq_len(s);
    assert forall|i: int| 0 <= i < s.push(v).len() implies vseq(s.push(v))[i] == vseq(s).push(
        val_view(v),
    )[i] by {
        vseq_index(s.push(v), i);
        if i < s.len() {
            vseq_index(s, i);
        }
    }
    assert(vseq(s.push(v)) =~= vseq(s).push(val_view(v)));
}

pub proof fn vseq_skip(s: Seq<Value>, k: int)
    requires
        0 <= k <= s.len(),
    ensures
        vseq(s.skip(k)) == vseq(s).skip(k),
{
    vseq_len(s);
    vseq_len(s.skip(k));
    assert forall|i: int| 0 <= i < s.skip(k).len() implies vseq(s.skip(k))[i] == vseq(s).skip(
        k,
    )[i] by {
        vseq_index(s.skip(k), i);
        vseq_index(s, i + k);
    }
    assert(vseq(s.skip(k)) =~= vseq(s).skip(k));
}

pub proof fn vseq_take(s: Seq<Value>, k: int)
    requires
        0 <= k <= s.len(),
    ensures
        vseq(s.take(k)) == vseq(s).take(k),
{
    vseq_len(s);
    vseq_len(s.take(k));
    assert forall|i: int| 0 <= i < s.take(k).len() implies vseq(s.take(k))[i] == vseq(s).take(
        k,
    )[i] by {
        vseq_index(s.take(k), i);
        vseq_index(s, i);
    }
    assert(vseq(s.take(k)) =~= vseq(s).take(k));
}

pub proof fn vseq_concat(a: Seq<Value>, b: Seq<Value>)
    ensures
        vseq(a + b) == vseq(a) + vseq(b),
{
    vseq_len(a);
    vseq_len(b);
    vseq_len(a + b);
    assert forall|i: int| 0 <= i < (a + b).len() implies vseq(a + b)[i] == (vseq(a) + vseq(
        b,
    ))[i] by {
        vseq_index(a + b, i);
        if i < a.len() {
            vseq_index(a, i);
        } else {
            vseq_index(b, i - a.len());
        }
    }
    assert(vseq(a + b) =~= vseq(a) + vseq(b));
}

} // verus!
