use vstd::prelude::*;

use crate::modifier::{
    first_duplicate, lifetime_entries_of, lifetime_names, lemma_first_duplicate_extends,
    repeats_name, type_entries_of, type_names, LifetimeEntry, TypeEntry,
};
use crate::params::{GenericParam, KnownParam, TypeConstParam};
use crate::split_for_impl::{
    defaults_form_suffix, follows_default, impl_generics_tokens, lifetime_arg, lifetime_ref_list,
    type_generics_tokens, type_ref_list, uses_default,
};

verus! {

/// A type or const parameter as a parameter of a declaration.
pub open spec fn as_generic(p: TypeConstParam) -> GenericParam {
    match p {
        TypeConstParam::Type(t) => GenericParam::Type(t),
        TypeConstParam::Const(c) => GenericParam::Const(c),
    }
}

/// The tables that building from `ps` fills hold the parameters of each
/// namespace in the order in which `ps` lists them, all unresolved.
pub proof fn law_build_keeps_order(ps: Seq<GenericParam>)
    ensures
        lifetime_entries_of(ps).map_values(|e: LifetimeEntry| GenericParam::Lifetime(e.0))
            == ps.filter(|p: GenericParam| p.is_lifetime()),
        type_entries_of(ps).map_values(|e: TypeEntry| as_generic(e.0))
            == ps.filter(|p: GenericParam| !p.is_lifetime()),
        forall|i: int| 0 <= i < lifetime_entries_of(ps).len() ==> (#[trigger] lifetime_entries_of(ps)[i]).1 is None,
        forall|i: int| 0 <= i < type_entries_of(ps).len() ==> (#[trigger] type_entries_of(ps)[i]).1 is None,
    decreases ps.len(),
{
    reveal(Seq::filter);
    if ps.len() > 0 {
        let prev = ps.drop_last();
        law_build_keeps_order(prev);
        assert(lifetime_entries_of(ps).map_values(|e: LifetimeEntry| GenericParam::Lifetime(e.0))
            =~= ps.filter(|p: GenericParam| p.is_lifetime()));
        assert(type_entries_of(ps).map_values(|e: TypeEntry| as_generic(e.0))
            =~= ps.filter(|p: GenericParam| !p.is_lifetime()));
    }
}

/// Every parameter of `ps` has its name among the names of its namespace.
proof fn lemma_name_registered(ps: Seq<GenericParam>, i: int)
    requires
        0 <= i < ps.len(),
    ensures
        ps[i].is_lifetime() ==> lifetime_names(lifetime_entries_of(ps)).contains(ps[i].spec_name()),
        !ps[i].is_lifetime() ==> type_names(type_entries_of(ps)).contains(ps[i].spec_name()),
    decreases ps.len(),
{
    let prev = ps.drop_last();
    if i < ps.len() - 1 {
        lemma_name_registered(prev, i);
        if ps[i].is_lifetime() {
            let k = choose|k: int|
                0 <= k < lifetime_names(lifetime_entries_of(prev)).len()
                && lifetime_names(lifetime_entries_of(prev))[k] == ps[i].spec_name();
            assert(lifetime_names(lifetime_entries_of(ps))[k] == ps[i].spec_name());
        } else {
            let k = choose|k: int|
                0 <= k < type_names(type_entries_of(prev)).len()
                && type_names(type_entries_of(prev))[k] == ps[i].spec_name();
            assert(type_names(type_entries_of(ps))[k] == ps[i].spec_name());
        }
    } else {
        if ps[i].is_lifetime() {
            let n = lifetime_entries_of(prev).len() as int;
            assert(lifetime_names(lifetime_entries_of(ps))[n] == ps[i].spec_name());
        } else {
            let n = type_entries_of(prev).len() as int;
            assert(type_names(type_entries_of(ps))[n] == ps[i].spec_name());
        }
    }
}

/// Building from a list in which two parameters of one namespace share a
/// name fails: a repeated name is always found.
pub proof fn law_duplicate_name_rejected(ps: Seq<GenericParam>, i: int, j: int)
    requires
        0 <= i < j < ps.len(),
        ps[i].is_lifetime() == ps[j].is_lifetime(),
        ps[i].spec_name() == ps[j].spec_name(),
    ensures
        first_duplicate(ps) is Some,
{
    let pre = ps.take(j);
    let upto = ps.take(j + 1);
    assert(pre[i] == ps[i]);
    lemma_name_registered(pre, i);
    assert(upto.drop_last() =~= pre);
    assert(upto.last() == ps[j]);
    assert(repeats_name(pre, ps[j]));
    assert(first_duplicate(upto) is Some);
    lemma_first_duplicate_extends(ps, j + 1);
}

/// The definition-header view depends on the registry's entries alone, so two
/// renderings with no change in between give the same tokens.
pub proof fn law_impl_generics_stable(
    ls: Seq<LifetimeEntry>,
    ts: Seq<TypeEntry>,
    a: Seq<Seq<char>>,
    b: Seq<Seq<char>>,
)
    requires
        a == impl_generics_tokens(ls, ts),
        b == impl_generics_tokens(ls, ts),
    ensures
        a == b,
{
}

/// The type-reference view depends on the registry's entries alone, so two
/// renderings with no change in between give the same tokens.
pub proof fn law_type_generics_stable(
    ls: Seq<LifetimeEntry>,
    ts: Seq<TypeEntry>,
    a: Seq<Seq<char>>,
    b: Seq<Seq<char>>,
)
    requires
        a == type_generics_tokens(ls, ts),
        b == type_generics_tokens(ls, ts),
    ensures
        a == b,
{
}

/// Each lifetime takes two tokens of the lifetime list: its argument and a
/// comma.
proof fn lemma_lifetime_ref_list(ls: Seq<LifetimeEntry>)
    ensures
        lifetime_ref_list(ls).len() == 2 * ls.len(),
        forall|i: int| 0 <= i < ls.len() ==> lifetime_ref_list(ls)[2 * i] == lifetime_arg(#[trigger] ls[i]),
    decreases ls.len(),
{
    if ls.len() > 0 {
        let prev = ls.drop_last();
        lemma_lifetime_ref_list(prev);
        assert forall|i: int| 0 <= i < ls.len() implies lifetime_ref_list(ls)[2 * i] == lifetime_arg(
            #[trigger] ls[i],
        ) by {
            if i < ls.len() - 1 {
                assert(prev[i] == ls[i]);
            }
        }
    }
}

/// In the type-reference view every lifetime comes first, in table order,
/// right after the opening bracket; the type and const arguments follow all
/// of them.
pub proof fn law_lifetimes_first(ls: Seq<LifetimeEntry>, ts: Seq<TypeEntry>)
    requires
        ls.len() + ts.len() > 0,
    ensures
        ({
            let v = type_generics_tokens(ls, ts);
            &&& forall|i: int| 0 <= i < ls.len() ==> v[1 + 2 * i] == lifetime_arg(#[trigger] ls[i])
            &&& v.subrange(1 + 2 * ls.len() as int, v.len() - 1) == type_ref_list(ts)
        }),
{
    lemma_lifetime_ref_list(ls);
    let v = type_generics_tokens(ls, ts);
    assert forall|i: int| 0 <= i < ls.len() implies v[1 + 2 * i] == lifetime_arg(#[trigger] ls[i]) by {
        assert(v[1 + 2 * i] == lifetime_ref_list(ls)[2 * i]);
    }
    assert(v.subrange(1 + 2 * ls.len() as int, v.len() - 1) =~= type_ref_list(ts));
}

/// Letting the entry at `i` use its default while a later entry `j` still
/// needs an argument makes the type-reference view fail.
pub proof fn law_default_must_be_suffix(ts: Seq<TypeEntry>, i: int, j: int)
    requires
        0 <= i < j < ts.len(),
        !uses_default(ts[j]),
    ensures
        !defaults_form_suffix(ts.update(i, (ts[i].0, Some(KnownParam::UseDefault)))),
{
    let us = ts.update(i, (ts[i].0, Some(KnownParam::UseDefault)));
    assert(uses_default(us[i]));
    assert(follows_default(us, j));
}

} // verus!
