//! The binding environment: a symbol table mapping names to values,
//! with function and constant flags. The last write to a name wins.
//!
//! The model is a map from character sequences to binding models.

use vstd::prelude::*;

use crate::value::{dup_value, Value, ValueSpec};

verus! {

/// One named binding.
pub struct Binding {
    /// The bound value.
    pub value: Value,
    /// Whether the binding was installed as a function (`fun`) rather
    /// than a constant or variable (`:=`).
    pub function: bool,
    /// Whether the binding may not be overwritten.
    pub constant: bool,
}

/// Model of a [`Binding`].
pub struct BindingSpec {
    pub value: ValueSpec,
    pub function: bool,
    pub constant: bool,
}

impl View for Binding {
    type V = BindingSpec;

    open spec fn view(&self) -> BindingSpec {
        BindingSpec { value: self.value@, function: self.function, constant: self.constant }
    }
}

/// The map modelled by a sequence of entries, later entries winning.
pub open spec fn map_of(s: Seq<(String, Binding)>) -> Map<Seq<char>, BindingSpec>
    decreases s,
{
    if s.len() == 0 {
        Map::empty()
    } else {
        map_of(s.drop_last()).insert(s.last().0@, s.last().1@)
    }
}

/// The binding environment.
pub struct Bindings {
    entries: Vec<(String, Binding)>,
}

impl View for Bindings {
    type V = Map<Seq<char>, BindingSpec>;

    closed spec fn view(&self) -> Map<Seq<char>, BindingSpec> {
        map_of(self.entries@)
    }
}

impl Bindings {
    /// An empty environment.
    pub fn new() -> (r: Bindings)
        ensures
            r@ == Map::<Seq<char>, BindingSpec>::empty(),
    {
        Bindings { entries: Vec::new() }
    }

    /// Installs or overwrites the binding for `name`.
    pub fn set(&mut self, name: String, binding: Binding)
        ensures
            final(self)@ == old(self)@.insert(name@, binding@),
    {
        self.entries.push((name, binding));
        proof {
            assert(self.entries@.drop_last() == old(self).entries@);
        }
    }

    /// The binding for `name`, if any.
    pub fn get(&self, name: &String) -> (r: Option<&Binding>)
        ensures
            match r {
                Some(b) => self@.contains_key(name@) && self@[name@] == b@,
                None => !self@.contains_key(name@),
            },
    {
        let mut i: usize = self.entries.len();
        proof {
            assert(self.entries@.take(i as int) =~= self.entries@);
        }
        while i > 0
            invariant
                i <= self.entries@.len(),
                self@.contains_key(name@) == map_of(self.entries@.take(i as int)).contains_key(
                    name@,
                ),
                self@.contains_key(name@) ==> self@[name@] == map_of(
                    self.entries@.take(i as int),
                )[name@],
            decreases i,
        {
            i = i - 1;
            let entry = &self.entries[i];
            proof {
                assert(self.entries@.take(i + 1).drop_last() =~= self.entries@.take(i as int));
                assert(self.entries@.take(i + 1).last() == self.entries@[i as int]);
            }
            if entry.0.eq(name) {
                return Some(&entry.1);
            }
        }
        proof {
            assert(self.entries@.take(0) =~= Seq::<(String, Binding)>::empty());
        }
        None
    }

    /// A deep copy of the value bound to `name`, if any.
    pub fn get_value(&self, name: &String) -> (r: Option<Value>)
        ensures
            match r {
                Some(v) => self@.contains_key(name@) && self@[name@].value == v@,
                None => !self@.contains_key(name@),
            },
    {
        match self.get(name) {
            Some(b) => Some(dup_value(&b.value)),
            None => None,
        }
    }
}

} // verus!
