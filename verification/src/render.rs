//! Verified textual rendering of values and of stack contents.
//!
//! Every tag renders here, except that the text of a 64-bit float is
//! the host's to produce: the caller hands in a table from float bit
//! patterns to their texts ([`FloatTexts`]), and a float whose bits
//! the table lacks renders as nothing — the contract says exactly
//! that, so a complete table is the caller's (checkable) duty.

use vstd::prelude::*;

use crate::stack::Stack;
use crate::value::{vseq, vseq_index, vseq_len, StackErrorSpec, Value, ValueSpec};

verus! {

/// The single decimal digit `d` as text.
pub open spec fn digit_text(d: int) -> Seq<char> {
    if d == 0 {
        "0"@
    } else if d == 1 {
        "1"@
    } else if d == 2 {
        "2"@
    } else if d == 3 {
        "3"@
    } else if d == 4 {
        "4"@
    } else if d == 5 {
        "5"@
    } else if d == 6 {
        "6"@
    } else if d == 7 {
        "7"@
    } else if d == 8 {
        "8"@
    } else {
        "9"@
    }
}

/// The decimal text of a number, most significant digit first.
pub open spec fn digits_text(n: int) -> Seq<char>
    decreases n,
    when n >= 0
{
    if n < 10 {
        digit_text(n)
    } else {
        digits_text(n / 10) + digit_text(n % 10)
    }
}

/// The decimal text of an integer, with a leading minus sign for
/// negative values.
pub open spec fn int_text(i: int) -> Seq<char> {
    if i < 0 {
        "-"@ + digits_text(-i)
    } else {
        digits_text(i)
    }
}

/// The single decimal digit `d` as a string slice.
fn digit_str(d: u128) -> (r: &'static str)
    requires
        d < 10,
    ensures
        r@ == digit_text(d as int),
{
    if d == 0 {
        "0"
    } else if d == 1 {
        "1"
    } else if d == 2 {
        "2"
    } else if d == 3 {
        "3"
    } else if d == 4 {
        "4"
    } else if d == 5 {
        "5"
    } else if d == 6 {
        "6"
    } else if d == 7 {
        "7"
    } else if d == 8 {
        "8"
    } else {
        "9"
    }
}

/// The decimal text of a magnitude.
fn digits_string(n: u128) -> (r: String)
    ensures
        r@ == digits_text(n as int),
    decreases n,
{
    if n < 10 {
        String::from_str(digit_str(n))
    } else {
        let rest = digits_string(n / 10);
        rest.concat(digit_str(n % 10))
    }
}

/// Renders an integer as decimal text.
pub fn int_to_text(i: i128) -> (r: String)
    ensures
        r@ == int_text(i as int),
{
    if i >= 0 {
        digits_string(i as u128)
    } else {
        // reach the magnitude without negating the most negative value
        let mag: u128 = ((-(i + 1)) as u128) + 1;
        proof {
            assert(mag == -(i as int));
        }
        String::from_str("-").concat(digits_string(mag).as_str())
    }
}

/// The table of float texts, keyed by bit pattern; the last entry
/// for a key wins. Its model is a map from bits to text.
pub struct FloatTexts {
    entries: Vec<(u64, String)>,
}

/// The map modelled by a sequence of entries, later entries winning.
pub open spec fn float_map_of(s: Seq<(u64, String)>) -> Map<u64, Seq<char>>
    decreases s,
{
    if s.len() == 0 {
        Map::empty()
    } else {
        float_map_of(s.drop_last()).insert(s.last().0, s.last().1@)
    }
}

impl View for FloatTexts {
    type V = Map<u64, Seq<char>>;

    closed spec fn view(&self) -> Map<u64, Seq<char>> {
        float_map_of(self.entries@)
    }
}

impl FloatTexts {
    /// An empty table.
    pub fn new() -> (r: FloatTexts)
        ensures
            r@ == Map::<u64, Seq<char>>::empty(),
    {
        FloatTexts { entries: Vec::new() }
    }

    /// Installs or overwrites the text for one bit pattern.
    pub fn set(&mut self, bits: u64, text: String)
        ensures
            final(self)@ == old(self)@.insert(bits, text@),
    {
        self.entries.push((bits, text));
        proof {
            assert(self.entries@.drop_last() == old(self).entries@);
        }
    }

    /// The text for one bit pattern, if any.
    pub fn get(&self, bits: u64) -> (r: Option<&String>)
        ensures
            match r {
                Some(t) => self@.contains_key(bits) && self@[bits] == t@,
                None => !self@.contains_key(bits),
            },
    {
        let mut i: usize = self.entries.len();
        proof {
            assert(self.entries@.take(i as int) =~= self.entries@);
        }
        while i > 0
            invariant
                i <= self.entries@.len(),
                self@.contains_key(bits) == float_map_of(
                    self.entries@.take(i as int),
                ).contains_key(bits),
                self@.contains_key(bits) ==> self@[bits] == float_map_of(
                    self.entries@.take(i as int),
                )[bits],
            decreases i,
        {
            i = i - 1;
            let entry = &self.entries[i];
            proof {
                assert(self.entries@.take(i + 1).drop_last() =~= self.entries@.take(i as int));
                assert(self.entries@.take(i + 1).last() == self.entries@[i as int]);
            }
            if entry.0 == bits {
                return Some(&entry.1);
            }
        }
        proof {
            assert(self.entries@.take(0) =~= Seq::<(u64, String)>::empty());
        }
        None
    }
}

/// The textual rendering of a value: unit as `()`, booleans
/// capitalised, integers in decimal, floats by the table (nothing
/// when the table lacks the bits), strings quoted, symbols bare,
/// containers bracketed with space-separated elements, operators by
/// their token, errors with an `err:` prefix.
pub open spec fn render_val(v: ValueSpec, ft: Map<u64, Seq<char>>) -> Seq<char>
    decreases v, 0int,
{
    match v {
        ValueSpec::Void => "()"@,
        ValueSpec::Bool(b) => if b {
            "True"@
        } else {
            "False"@
        },
        ValueSpec::Integer(i) => int_text(i),
        ValueSpec::Float(bits) => if ft.contains_key(bits) {
            ft[bits]
        } else {
            Seq::empty()
        },
        ValueSpec::String(s) => "\""@ + s + "\""@,
        ValueSpec::Symbol(s) => s,
        ValueSpec::List(l) => "["@ + render_from(l, ft, 0) + "]"@,
        ValueSpec::Quotation(q) => "{"@ + render_from(q, ft, 0) + "}"@,
        ValueSpec::Operator(o) => o.name_spec(),
        ValueSpec::Error(e) => match e {
            StackErrorSpec::Overflow => "err: overflow"@,
            StackErrorSpec::HeadEmpty => "err: head of empty list"@,
            StackErrorSpec::Undefined => "err: undefined"@,
            StackErrorSpec::UserDefined(m) => "err: "@ + m,
        },
    }
}

/// The renderings of the elements at or after position `i`, separated
/// by single spaces.
pub open spec fn render_from(s: Seq<ValueSpec>, ft: Map<u64, Seq<char>>, i: int) -> Seq<char>
    decreases s, s.len() - i + 1,
    when 0 <= i
{
    if i >= s.len() {
        Seq::empty()
    } else if i == s.len() - 1 {
        render_val(s[i], ft)
    } else {
        render_val(s[i], ft) + " "@ + render_from(s, ft, i + 1)
    }
}

/// Renders one value as text, taking float texts from the table.
pub fn render_value(v: &Value, ft: &FloatTexts) -> (r: String)
    ensures
        r@ == render_val(v@, ft@),
    decreases *v, 0int,
{
    match v {
        Value::Void => String::from_str("()"),
        Value::Bool(b) => if *b {
            String::from_str("True")
        } else {
            String::from_str("False")
        },
        Value::Integer(i) => int_to_text(*i),
        Value::Float(bits) => match ft.get(*bits) {
            Some(t) => t.clone(),
            None => String::new(),
        },
        Value::String(s) => String::from_str("\"").concat(s.as_str()).concat("\""),
        Value::Symbol(s) => s.clone(),
        Value::List(l) => String::from_str("[").concat(render_values(l, ft, 0).as_str()).concat(
            "]",
        ),
        Value::Quotation(q) => String::from_str("{").concat(
            render_values(q, ft, 0).as_str(),
        ).concat("}"),
        Value::Operator(o) => String::from_str(o.name()),
        Value::Error(e) => match e {
            crate::value::StackError::Overflow => String::from_str("err: overflow"),
            crate::value::StackError::HeadEmpty => String::from_str("err: head of empty list"),
            crate::value::StackError::Undefined => String::from_str("err: undefined"),
            crate::value::StackError::UserDefined(m) => String::from_str("err: ").concat(
                m.as_str(),
            ),
        },
    }
}

/// Renders the elements of `l` at or after position `i`, separated by
/// single spaces.
pub fn render_values(l: &Vec<Value>, ft: &FloatTexts, i: usize) -> (r: String)
    requires
        i <= l@.len(),
    ensures
        r@ == render_from(vseq(l@), ft@, i as int),
    decreases l@, l@.len() - i + 1,
{
    proof {
        vseq_len(l@);
        if i < l@.len() {
            vseq_index(l@, i as int);
        }
    }
    if i >= l.len() {
        String::new()
    } else if i == l.len() - 1 {
        render_value(&l[i], ft)
    } else {
        render_value(&l[i], ft).concat(" ").concat(render_values(l, ft, i + 1).as_str())
    }
}

/// The stack's contents as one line, top first, separated by single
/// spaces.
pub open spec fn stack_line_text(s: Seq<ValueSpec>, ft: Map<u64, Seq<char>>) -> Seq<char>
    decreases s,
{
    if s.len() == 0 {
        Seq::empty()
    } else if s.len() == 1 {
        render_val(s.last(), ft)
    } else {
        render_val(s.last(), ft) + " "@ + stack_line_text(s.drop_last(), ft)
    }
}

/// Renders the deepest `k` elements of the stack, top of that range
/// first.
fn line_take(st: &Stack<Value>, k: usize, ft: &FloatTexts) -> (r: String)
    requires
        k <= st@.len(),
    ensures
        r@ == stack_line_text(vseq(st@).take(k as int), ft@),
    decreases k,
{
    proof {
        vseq_len(st@);
    }
    if k == 0 {
        proof {
            assert(vseq(st@).take(0) =~= Seq::<ValueSpec>::empty());
        }
        String::new()
    } else {
        let v = st.peek(st.size() - k);
        proof {
            vseq_index(st@, k - 1);
            assert(vseq(st@).take(k as int).last() == vseq(st@)[k - 1]);
            assert(vseq(st@).take(k as int).drop_last() =~= vseq(st@).take(k - 1));
        }
        if k == 1 {
            render_value(v, ft)
        } else {
            render_value(v, ft).concat(" ").concat(line_take(st, k - 1, ft).as_str())
        }
    }
}

impl Stack<Value> {
    /// Returns a formatted string of the stack contents, top first,
    /// space separated; float texts come from the table.
    pub fn contents_to_string(&self, ft: &FloatTexts) -> (r: String)
        ensures
            r@ == stack_line_text(vseq(self@), ft@),
    {
        proof {
            vseq_len(self@);
            assert(vseq(self@).take(vseq(self@).len() as int) =~= vseq(self@));
        }
        line_take(self, self.size(), ft)
    }
}

} // verus!
