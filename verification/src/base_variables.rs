//! Variables and the shared variable table.
//!
//! The table is append-only: re-declaring a name appends a new entry
//! rather than replacing the old one. Name resolution scans the table and
//! the most recently declared entry wins. The table and the loop-execution
//! flag together form the `ExecutionContext` that every compiler call
//! threads through by mutable reference.

use vstd::prelude::*;
use crate::base_types::{widen, widen_type, stored_value_ok, BaseTypes, TypeTag};
use crate::literals::str_eq;

verus! {

/// Names of the built-in constants most languages offer. Their numeric
/// values are floating point and live outside the verified core.
#[derive(Debug, Clone, Copy, PartialEq, Eq, Structural)]
pub enum BaseVariables {
    Pi,
    E,
}

/// One declared variable: its name, its current value, and its declared
/// type tag.
#[derive(Debug, PartialEq, Eq)]
pub struct Variable {
    pub name: String,
    pub value: BaseTypes,
    pub var_type: TypeTag,
}

impl Clone for Variable {
    fn clone(&self) -> (res: Self)
        ensures
            res == *self,
    {
        Variable { name: self.name.clone(), value: self.value.clone(), var_type: self.var_type }
    }
}

impl Variable {
    /// Builds a variable under the declaration-time coercion policy: the
    /// declared type is widened (`Int` becomes `Float`), and the value is
    /// kept only when its tag matches the widened type; otherwise the
    /// type's zero-value default is stored.
    pub fn new(name: String, value: BaseTypes, var_type: TypeTag) -> (v: Variable)
        ensures
            v.name == name,
            v.var_type == widen_type(var_type),
            stored_value_ok(widen_type(var_type), value, v.value),
    {
        let wt = widen(var_type);
        let checked_value = if wt == TypeTag::Null {
            BaseTypes::Null
        } else {
            let vt = value.tag();
            if vt == wt {
                value
            } else {
                crate::base_types::default_value_of(wt)
            }
        };
        Variable { name, value: checked_value, var_type: wt }
    }

    /// Overwrites the stored value; assignment applies no coercion.
    pub fn set_value(&mut self, value: BaseTypes)
        ensures
            final(self).value == value,
            final(self).name == old(self).name,
            final(self).var_type == old(self).var_type,
    {
        self.value = value;
    }

    /// The current value.
    pub fn get_value(&self) -> (r: &BaseTypes)
        ensures
            *r == self.value,
    {
        &self.value
    }

    /// The declared (widened) type tag.
    pub fn get_type(&self) -> (r: &TypeTag)
        ensures
            *r == self.var_type,
    {
        &self.var_type
    }
}

/// The index of the entry that `name` resolves to in table `t`, scanning
/// from the most recent entry backwards; `-1` when no entry has the name.
pub open spec fn lookup_idx(t: Seq<Variable>, name: Seq<char>) -> int
    decreases t.len(),
{
    if t.len() == 0 {
        -1
    } else if t.last().name@ == name {
        t.len() - 1
    } else {
        lookup_idx(t.drop_last(), name)
    }
}

/// The variable that `name` resolves to in table `t`, if any: the most
/// recently declared entry with that name.
pub open spec fn lookup(t: Seq<Variable>, name: Seq<char>) -> Option<Variable> {
    if lookup_idx(t, name) >= 0 {
        Some(t[lookup_idx(t, name)])
    } else {
        None
    }
}

/// What `lookup_idx` finds: a well-bounded index of an entry carrying the
/// name, with no later entry carrying it.
pub proof fn lemma_lookup_idx(t: Seq<Variable>, name: Seq<char>)
    ensures
        -1 <= lookup_idx(t, name) < t.len(),
        lookup_idx(t, name) >= 0 ==> t[lookup_idx(t, name)].name@ == name,
        forall|j: int| lookup_idx(t, name) < j < t.len() ==> t[j].name@ != name,
    decreases t.len(),
{
    if t.len() > 0 && t.last().name@ != name {
        lemma_lookup_idx(t.drop_last(), name);
        assert(forall|j: int| 0 <= j < t.len() - 1 ==> t[j] == t.drop_last()[j]);
    }
}

/// Resolves a name against a variable table, most recent declaration
/// first.
pub fn find_variable<'a>(table: &'a Vec<Variable>, name: &str) -> (r: Option<&'a Variable>)
    ensures
        match r {
            Some(v) => lookup(table@, name@) == Some(*v),
            None => lookup(table@, name@) is None,
        },
{
    let ghost t = table@;
    let mut i = table.len();
    proof {
        assert(t.subrange(0, t.len() as int) =~= t);
    }
    while i > 0
        invariant
            0 <= i <= t.len(),
            t == table@,
            lookup_idx(t, name@) == lookup_idx(t.subrange(0, i as int), name@),
        decreases i,
    {
        i = i - 1;
        let hit = str_eq(table[i].name.as_str(), name);
        proof {
            let p = t.subrange(0, i + 1);
            assert(p.last() == t[i as int]);
            assert(p.drop_last() =~= t.subrange(0, i as int));
        }
        if hit {
            proof {
                assert(lookup_idx(t, name@) == i);
            }
            return Some(&table[i]);
        }
    }
    proof {
        assert(t.subrange(0, 0) =~= Seq::<Variable>::empty());
        lemma_lookup_idx(t.subrange(0, 0), name@);
    }
    None
}

/// A snapshot of a variable table, with the same entries.
pub fn clone_table(t: &Vec<Variable>) -> (r: Vec<Variable>)
    ensures
        r@ == t@,
{
    let r = t.clone();
    proof {
        assert forall|i: int| 0 <= i < t@.len() implies r@[i] == t@[i] by {
            assert(cloned::<Variable>(t@[i], r@[i]));
        }
        assert(r@ =~= t@);
    }
    r
}

/// The execution context every compiler call threads through: the shared
/// variable table, and the flag set while a `while` body is executing.
#[derive(Debug)]
pub struct ExecutionContext {
    pub variables: Vec<Variable>,
    pub in_loop: bool,
}

impl ExecutionContext {
    /// An empty context: no variables, no loop running.
    pub fn new() -> (r: ExecutionContext)
        ensures
            r.variables@.len() == 0,
            !r.in_loop,
    {
        ExecutionContext { variables: Vec::new(), in_loop: false }
    }

    /// Appends a declared variable; entries are never replaced or removed.
    pub fn declare(&mut self, v: Variable)
        ensures
            final(self).variables@ == old(self).variables@.push(v),
            final(self).in_loop == old(self).in_loop,
    {
        self.variables.push(v);
    }

    /// Resolves a name against the table, most recent declaration first.
    pub fn resolve<'a>(&'a self, name: &str) -> (r: Option<&'a Variable>)
        ensures
            match r {
                Some(v) => lookup(self.variables@, name@) == Some(*v),
                None => lookup(self.variables@, name@) is None,
            },
    {
        find_variable(&self.variables, name)
    }

    /// Assigns a value to the entry that `name` resolves to, without
    /// coercion. Returns whether the name resolved; when it does not, the
    /// table is unchanged.
    pub fn assign(&mut self, name: &str, value: BaseTypes) -> (r: bool)
        ensures
            r == (lookup_idx(old(self).variables@, name@) >= 0),
            r ==> ({
                let i = lookup_idx(old(self).variables@, name@);
                final(self).variables@ == old(self).variables@.update(
                    i,
                    Variable {
                        name: old(self).variables@[i].name,
                        value: value,
                        var_type: old(self).variables@[i].var_type,
                    },
                )
            }),
            !r ==> final(self).variables@ == old(self).variables@,
            final(self).in_loop == old(self).in_loop,
    {
        let ghost t = self.variables@;
        let mut i = self.variables.len();
        proof {
            assert(t.subrange(0, t.len() as int) =~= t);
        }
        while i > 0
            invariant
                0 <= i <= t.len(),
                t == old(self).variables@,
                t == self.variables@,
                self.in_loop == old(self).in_loop,
                lookup_idx(t, name@) == lookup_idx(t.subrange(0, i as int), name@),
            decreases i,
        {
            i = i - 1;
            let hit = str_eq(self.variables[i].name.as_str(), name);
            proof {
                let p = t.subrange(0, i + 1);
                assert(p.last() == t[i as int]);
                assert(p.drop_last() =~= t.subrange(0, i as int));
            }
            if hit {
                proof {
                    assert(lookup_idx(t, name@) == i);
                }
                let entry = &mut self.variables[i];
                // Hold name and type, replace the value.
                entry.value = value;
                proof {
                    assert(self.variables@ =~= t.update(
                        i as int,
                        Variable {
                            name: t[i as int].name,
                            value: value,
                            var_type: t[i as int].var_type,
                        },
                    ));
                }
                return true;
            }
        }
        proof {
            assert(t.subrange(0, 0) =~= Seq::<Variable>::empty());
            lemma_lookup_idx(t.subrange(0, 0), name@);
        }
        false
    }

    /// The number of declared entries.
    pub fn len(&self) -> (r: usize)
        ensures
            r == self.variables@.len(),
    {
        self.variables.len()
    }
}

} // verus!
