use vstd::prelude::*;

use crate::linked_table::{GenericsError, LinkedTable};
use crate::params::{
    fits, GenericParam, Generics, KnownParam, LifetimeParam, TypeConstParam,
};
use crate::split_for_impl::{ImplGenerics, TypeGenerics};

verus! {

/// A lifetime entry of the registry: the parameter and what it was resolved to.
pub type LifetimeEntry = (LifetimeParam, Option<KnownParam>);

/// A type or const entry of the registry: the parameter and what it was
/// resolved to.
pub type TypeEntry = (TypeConstParam, Option<KnownParam>);

/// The names of lifetime entries, in order.
pub open spec fn lifetime_names(ls: Seq<LifetimeEntry>) -> Seq<Seq<char>> {
    ls.map_values(|e: LifetimeEntry| e.0.name@)
}

/// The names of type and const entries, in order.
pub open spec fn type_names(ts: Seq<TypeEntry>) -> Seq<Seq<char>> {
    ts.map_values(|e: TypeEntry| e.0.spec_name())
}

/// The lifetime parameters of `ps`, in order, none of them resolved.
pub open spec fn lifetime_entries_of(ps: Seq<GenericParam>) -> Seq<LifetimeEntry>
    decreases ps.len(),
{
    if ps.len() == 0 {
        Seq::empty()
    } else {
        let prev = lifetime_entries_of(ps.drop_last());
        match ps.last() {
            GenericParam::Lifetime(l) => prev.push((l, None)),
            _ => prev,
        }
    }
}

/// The type and const parameters of `ps`, in order, none of them resolved.
pub open spec fn type_entries_of(ps: Seq<GenericParam>) -> Seq<TypeEntry>
    decreases ps.len(),
{
    if ps.len() == 0 {
        Seq::empty()
    } else {
        let prev = type_entries_of(ps.drop_last());
        match ps.last() {
            GenericParam::Type(t) => prev.push((TypeConstParam::Type(t), None)),
            GenericParam::Const(c) => prev.push((TypeConstParam::Const(c), None)),
            _ => prev,
        }
    }
}

/// Whether `p` repeats the name of an earlier parameter of its own namespace
/// among `before`.
pub open spec fn repeats_name(before: Seq<GenericParam>, p: GenericParam) -> bool {
    if p.is_lifetime() {
        lifetime_names(lifetime_entries_of(before)).contains(p.spec_name())
    } else {
        type_names(type_entries_of(before)).contains(p.spec_name())
    }
}

/// The name of the first parameter of `ps` that repeats an earlier name of
/// its own namespace, if there is one.
pub open spec fn first_duplicate(ps: Seq<GenericParam>) -> Option<Seq<char>>
    decreases ps.len(),
{
    if ps.len() == 0 {
        None
    } else {
        match first_duplicate(ps.drop_last()) {
            Some(n) => Some(n),
            None => if repeats_name(ps.drop_last(), ps.last()) {
                Some(ps.last().spec_name())
            } else {
                None
            },
        }
    }
}

/// A repeated name found in a prefix is the one reported for the whole list.
pub(crate) proof fn lemma_first_duplicate_extends(ps: Seq<GenericParam>, k: int)
    requires
        0 <= k <= ps.len(),
        first_duplicate(ps.take(k)) is Some,
    ensures
        first_duplicate(ps) == first_duplicate(ps.take(k)),
    decreases ps.len() - k,
{
    if k < ps.len() {
        assert(ps.take(k + 1).drop_last() =~= ps.take(k));
        lemma_first_duplicate_extends(ps, k + 1);
    } else {
        assert(ps.take(k) =~= ps);
    }
}

/// Each lifetime entry is unresolved or resolved to a lifetime.
pub open spec fn lifetimes_fit(ls: Seq<LifetimeEntry>) -> bool {
    forall|i: int| 0 <= i < ls.len() ==> (#[trigger] ls[i].1 matches Some(k) ==> k.is_lifetime())
}

/// No type or const entry is resolved to a lifetime.
pub open spec fn types_fit(ts: Seq<TypeEntry>) -> bool {
    forall|i: int| 0 <= i < ts.len() ==> (#[trigger] ts[i].1 matches Some(k) ==> !k.is_lifetime())
}

/// The generic parameters of a declaration, kept in two ordered tables (one
/// per namespace), each entry with what it has been resolved to, if anything.
pub struct GenericsModifier {
    lifetimes: LinkedTable<LifetimeEntry>,
    types: LinkedTable<TypeEntry>,
    pub where_clause: Option<String>,
}

impl GenericsModifier {
    /// The lifetime entries in the order they were added.
    pub closed spec fn lifetime_entries(&self) -> Seq<LifetimeEntry> {
        self.lifetimes.values()
    }

    /// The type and const entries in the order they were added.
    pub closed spec fn type_entries(&self) -> Seq<TypeEntry> {
        self.types.values()
    }

    /// The trailing `where` clause, carried through unchanged.
    pub closed spec fn constraint(&self) -> Option<String> {
        self.where_clause
    }

    pub closed spec fn tables_wf(&self) -> bool {
        &&& self.lifetimes.wf()
        &&& self.types.wf()
        &&& self.lifetimes.keys() == lifetime_names(self.lifetimes.values())
        &&& self.types.keys() == type_names(self.types.values())
    }

    /// Names are unique within each namespace, and each resolution sits in
    /// the table of its kind.
    pub open spec fn wf(&self) -> bool {
        &&& self.tables_wf()
        &&& lifetime_names(self.lifetime_entries()).no_duplicates()
        &&& type_names(self.type_entries()).no_duplicates()
        &&& lifetimes_fit(self.lifetime_entries())
        &&& types_fit(self.type_entries())
    }

    pub fn lifetime_table(&self) -> (r: &LinkedTable<LifetimeEntry>)
        requires
            self.wf(),
        ensures
            r.wf(),
            r.values() == self.lifetime_entries(),
    {
        &self.lifetimes
    }

    pub fn type_table(&self) -> (r: &LinkedTable<TypeEntry>)
        requires
            self.wf(),
        ensures
            r.wf(),
            r.values() == self.type_entries(),
    {
        &self.types
    }

    /// Builds the registry from a declared parameter list, pushing each
    /// parameter unresolved in source order. Fails on the first parameter
    /// that repeats a name of its namespace.
    pub fn new(generics: Generics) -> (r: Result<Self, GenericsError>)
        ensures
            r is Ok <==> first_duplicate(generics.params@) is None,
            r matches Ok(m) ==> {
                &&& m.wf()
                &&& m.lifetime_entries() == lifetime_entries_of(generics.params@)
                &&& m.type_entries() == type_entries_of(generics.params@)
                &&& m.constraint() == generics.where_clause
            },
            r matches Err(e) ==> e matches GenericsError::DuplicateName(n)
                && first_duplicate(generics.params@) == Some(n@),
    {
        let where_clause = generics.where_clause;
        let params = generics.params;
        let mut this = GenericsModifier {
            lifetimes: LinkedTable::new(),
            types: LinkedTable::new(),
            where_clause,
        };
        proof {
            assert(lifetime_names(this.lifetimes.values()) =~= this.lifetimes.keys());
            assert(type_names(this.types.values()) =~= this.types.keys());
        }
        let ghost all = params@;
        let mut rest = params;
        while rest.len() > 0
            invariant
                all == generics.params@,
                rest@.len() <= all.len(),
                rest@ == all.skip(all.len() - rest@.len()),
                this.wf(),
                this.constraint() == where_clause,
                first_duplicate(all.take(all.len() - rest@.len())) is None,
                this.lifetime_entries() == lifetime_entries_of(all.take(all.len() - rest@.len())),
                this.type_entries() == type_entries_of(all.take(all.len() - rest@.len())),
            decreases rest.len(),
        {
            let ghost done = all.len() - rest@.len();
            proof {
                assert(all.take(done + 1).drop_last() =~= all.take(done));
                assert(all.take(done + 1).last() == rest@[0]);
                assert(rest@.remove(0) =~= all.skip(done + 1));
            }
            let param = rest.remove(0);
            let ghost p = param;
            let r = this.push_param(param, None);
            match r {
                Ok(()) => {},
                Err(e) => {
                    proof {
                        let pre = all.take(done + 1);
                        assert(pre.drop_last() =~= all.take(done));
                        assert(repeats_name(all.take(done), p));
                        assert(first_duplicate(pre) == Some(p.spec_name()));
                        lemma_first_duplicate_extends(all, done + 1);
                    }
                    return Err(e);
                },
            }
        }
        proof {
            assert(all.take(all.len() as int) =~= all);
        }
        Ok(this)
    }

    /// Adds `param` to the table of its namespace as the last entry, with
    /// `is_known` as its resolution. Fails, leaving the registry as it was,
    /// if that table already holds the name.
    pub fn push_param(&mut self, param: GenericParam, is_known: Option<KnownParam>) -> (r: Result<
        (),
        GenericsError,
    >)
        requires
            old(self).wf(),
            fits(param, is_known),
        ensures
            final(self).wf(),
            final(self).constraint() == old(self).constraint(),
            r is Ok <==> !repeats_registered(*old(self), param),
            r matches Err(e) ==> {
                &&& e == GenericsError::DuplicateName(param_name(param))
                &&& final(self).lifetime_entries() == old(self).lifetime_entries()
                &&& final(self).type_entries() == old(self).type_entries()
            },
            r is Ok ==> match param {
                GenericParam::Lifetime(l) => {
                    &&& final(self).lifetime_entries() == old(self).lifetime_entries().push((l, is_known))
                    &&& final(self).type_entries() == old(self).type_entries()
                },
                GenericParam::Type(t) => {
                    &&& final(self).lifetime_entries() == old(self).lifetime_entries()
                    &&& final(self).type_entries() == old(self).type_entries().push(
                        (TypeConstParam::Type(t), is_known),
                    )
                },
                GenericParam::Const(c) => {
                    &&& final(self).lifetime_entries() == old(self).lifetime_entries()
                    &&& final(self).type_entries() == old(self).type_entries().push(
                        (TypeConstParam::Const(c), is_known),
                    )
                },
            },
    {
        match param {
            GenericParam::Lifetime(l) => {
                let key = l.name.clone();
                let r = self.lifetimes.push(key, (l, is_known));
                proof {
                    if r is Ok {
                        assert(lifetime_names(self.lifetimes.values()) =~= self.lifetimes.keys());
                    }
                }
                r
            },
            GenericParam::Const(c) => {
                let key = c.name.clone();
                let r = self.types.push(key, (TypeConstParam::Const(c), is_known));
                proof {
                    if r is Ok {
                        assert(type_names(self.types.values()) =~= self.types.keys());
                    }
                }
                r
            },
            GenericParam::Type(t) => {
                let key = t.name.clone();
                let r = self.types.push(key, (TypeConstParam::Type(t), is_known));
                proof {
                    if r is Ok {
                        assert(type_names(self.types.values()) =~= self.types.keys());
                    }
                }
                r
            },
        }
    }

    /// Records `value` as the resolution of the parameter named `key`, in the
    /// table that the kind of `value` implies (lifetimes for a lifetime, the
    /// type/const table otherwise). Fails, leaving the registry as it was, if
    /// that table holds no such name.
    pub fn set_known(&mut self, key: &String, value: KnownParam) -> (r: Result<(), GenericsError>)
        requires
            old(self).wf(),
        ensures
            final(self).wf(),
            final(self).constraint() == old(self).constraint(),
            r is Ok <==> (if value.is_lifetime() {
                lifetime_names(old(self).lifetime_entries()).contains(key@)
            } else {
                type_names(old(self).type_entries()).contains(key@)
            }),
            r matches Err(e) ==> {
                &&& e == GenericsError::UnknownParameter(*key)
                &&& final(self).lifetime_entries() == old(self).lifetime_entries()
                &&& final(self).type_entries() == old(self).type_entries()
            },
            r is Ok && value.is_lifetime() ==> {
                &&& final(self).type_entries() == old(self).type_entries()
                &&& exists|i: int|
                    0 <= i < old(self).lifetime_entries().len()
                    && old(self).lifetime_entries()[i].0.name@ == key@
                    && final(self).lifetime_entries() == old(self).lifetime_entries().update(
                        i,
                        (old(self).lifetime_entries()[i].0, Some(value)),
                    )
            },
            r is Ok && !value.is_lifetime() ==> {
                &&& final(self).lifetime_entries() == old(self).lifetime_entries()
                &&& exists|i: int|
                    0 <= i < old(self).type_entries().len()
                    && old(self).type_entries()[i].0.spec_name() == key@
                    && final(self).type_entries() == old(self).type_entries().update(
                        i,
                        (old(self).type_entries()[i].0, Some(value)),
                    )
            },
    {
        match value {
            KnownParam::Lifetime(_) => {
                let ghost ls = self.lifetimes.values();
                let r = set_known(&mut self.lifetimes, key, value);
                proof {
                    if r is Ok {
                        let i = choose|i: int|
                            0 <= i < ls.len() && self.lifetimes.keys()[i] == key@
                            && self.lifetimes.values() == ls.update(i, (ls[i].0, Some(value)));
                        assert(lifetime_names(self.lifetimes.values()) =~= lifetime_names(ls));
                        assert(lifetime_names(ls)[i] == key@);
                        assert(lifetimes_fit(self.lifetimes.values()));
                    }
                }
                r
            },
            KnownParam::Const(_) | KnownParam::Type(_) | KnownParam::UseDefault => {
                let ghost ts = self.types.values();
                let r = set_known(&mut self.types, key, value);
                proof {
                    if r is Ok {
                        let i = choose|i: int|
                            0 <= i < ts.len() && self.types.keys()[i] == key@
                            && self.types.values() == ts.update(i, (ts[i].0, Some(value)));
                        assert(type_names(self.types.values()) =~= type_names(ts));
                        assert(type_names(ts)[i] == key@);
                        assert(types_fit(self.types.values()));
                    }
                }
                r
            },
        }
    }

    /// The two views of the parameter list together with the `where` clause.
    pub fn split_for_impl(&self) -> (r: (ImplGenerics<'_>, TypeGenerics<'_>, &Option<String>))
        requires
            self.wf(),
        ensures
            r.0.modifier() == self,
            r.1.modifier() == self,
            *r.2 == self.constraint(),
    {
        (ImplGenerics::new(self), TypeGenerics::new(self), &self.where_clause)
    }
}

/// The name of a parameter, as the error for a repeated name reports it.
pub open spec fn param_name(p: GenericParam) -> String {
    match p {
        GenericParam::Lifetime(l) => l.name,
        GenericParam::Type(t) => t.name,
        GenericParam::Const(c) => c.name,
    }
}

/// Whether the table of `p`'s namespace in `m` already holds `p`'s name.
pub open spec fn repeats_registered(m: GenericsModifier, p: GenericParam) -> bool {
    if p.is_lifetime() {
        lifetime_names(m.lifetime_entries()).contains(p.spec_name())
    } else {
        type_names(m.type_entries()).contains(p.spec_name())
    }
}

/// Sets the resolution of the entry named `key` of `table` to `known`.
fn set_known<T>(table: &mut LinkedTable<(T, Option<KnownParam>)>, key: &String, known: KnownParam) -> (r:
    Result<(), GenericsError>)
    requires
        old(table).wf(),
    ensures
        final(table).wf(),
        final(table).keys() == old(table).keys(),
        r is Ok <==> old(table).keys().contains(key@),
        r matches Err(e) ==> e == GenericsError::UnknownParameter(*key) && *final(table) == *old(table),
        r is Ok ==> exists|i: int|
            0 <= i < old(table).keys().len() && old(table).keys()[i] == key@
            && final(table).values() == old(table).values().update(
                i,
                (old(table).values()[i].0, Some(known)),
            ),
{
    match table.get_mut(key) {
        Some(param) => {
            param.1 = Some(known);
            Ok(())
        },
        None => Err(GenericsError::UnknownParameter(key.clone())),
    }
}

} // verus!
