use vstd::prelude::*;
use vstd::string::*;

use crate::linked_table::GenericsError;
use crate::modifier::{GenericsModifier, LifetimeEntry, TypeEntry};
use crate::params::{Attribute, KnownParam, TypeConstParam};

verus! {

/// The text of each token, in order.
pub open spec fn texts(v: Seq<String>) -> Seq<Seq<char>> {
    v.map_values(|s: String| s@)
}

/// The texts of the outer attributes among `attrs`, in order.
pub open spec fn outer_attr_tokens(attrs: Seq<Attribute>) -> Seq<Seq<char>>
    decreases attrs.len(),
{
    if attrs.len() == 0 {
        Seq::empty()
    } else {
        let prev = outer_attr_tokens(attrs.drop_last());
        if attrs.last().outer {
            prev.push(attrs.last().text@)
        } else {
            prev
        }
    }
}

/// A type or const parameter as a definition header declares it: outer
/// attributes, then the name with its bounds or type, and no default.
pub open spec fn type_header_tokens(p: TypeConstParam) -> Seq<Seq<char>> {
    match p {
        TypeConstParam::Type(t) => outer_attr_tokens(t.attrs@) + seq![t.name@] + if t.bounds@.len() > 0 {
            seq![":"@, t.bounds@]
        } else {
            Seq::empty()
        },
        TypeConstParam::Const(c) => outer_attr_tokens(c.attrs@) + seq!["const"@, c.name@, ":"@, c.ty@],
    }
}

/// The unresolved lifetimes of `ls` as declared, each followed by a comma.
pub open spec fn lifetime_header_list(ls: Seq<LifetimeEntry>) -> Seq<Seq<char>>
    decreases ls.len(),
{
    if ls.len() == 0 {
        Seq::empty()
    } else {
        let prev = lifetime_header_list(ls.drop_last());
        if ls.last().1 is None {
            prev + seq![ls.last().0.decl@, ","@]
        } else {
            prev
        }
    }
}

/// The unresolved type and const parameters of `ts` without their defaults,
/// each followed by a comma.
pub open spec fn type_header_list(ts: Seq<TypeEntry>) -> Seq<Seq<char>>
    decreases ts.len(),
{
    if ts.len() == 0 {
        Seq::empty()
    } else {
        let prev = type_header_list(ts.drop_last());
        if ts.last().1 is None {
            prev + type_header_tokens(ts.last().0) + seq![","@]
        } else {
            prev
        }
    }
}

/// The definition-header view: nothing when both tables are empty, else the
/// unresolved lifetimes and then the unresolved types and consts, in angle
/// brackets.
pub open spec fn impl_generics_tokens(ls: Seq<LifetimeEntry>, ts: Seq<TypeEntry>) -> Seq<Seq<char>> {
    if ls.len() == 0 && ts.len() == 0 {
        Seq::empty()
    } else {
        seq!["<"@] + lifetime_header_list(ls) + type_header_list(ts) + seq![">"@]
    }
}

/// The argument given for a lifetime entry: its resolution, or else the bare
/// lifetime.
pub open spec fn lifetime_arg(e: LifetimeEntry) -> Seq<char> {
    match e.1 {
        Some(KnownParam::Lifetime(l)) => l@,
        _ => "'"@ + e.0.name@,
    }
}

/// Every lifetime of `ls` as an argument, each followed by a comma.
pub open spec fn lifetime_ref_list(ls: Seq<LifetimeEntry>) -> Seq<Seq<char>>
    decreases ls.len(),
{
    if ls.len() == 0 {
        Seq::empty()
    } else {
        lifetime_ref_list(ls.drop_last()) + seq![lifetime_arg(ls.last()), ","@]
    }
}

/// Whether a type or const entry is resolved to its declared default.
pub open spec fn uses_default(e: TypeEntry) -> bool {
    e.1 matches Some(KnownParam::UseDefault)
}

/// The tokens given for a type or const entry: none when it uses its default,
/// else its resolution or its name, followed by a comma.
pub open spec fn type_arg_tokens(e: TypeEntry) -> Seq<Seq<char>> {
    match e.1 {
        Some(KnownParam::UseDefault) => Seq::empty(),
        Some(KnownParam::Type(t)) => seq![t@, ","@],
        Some(KnownParam::Const(c)) => seq![c@, ","@],
        _ => seq![e.0.spec_name(), ","@],
    }
}

/// Every type or const entry of `ts` as an argument.
pub open spec fn type_ref_list(ts: Seq<TypeEntry>) -> Seq<Seq<char>>
    decreases ts.len(),
{
    if ts.len() == 0 {
        Seq::empty()
    } else {
        type_ref_list(ts.drop_last()) + type_arg_tokens(ts.last())
    }
}

/// Whether the entry at `j` needs an argument although an earlier one uses
/// its default.
pub open spec fn follows_default(ts: Seq<TypeEntry>, j: int) -> bool {
    &&& 0 <= j < ts.len()
    &&& !uses_default(ts[j])
    &&& exists|i: int| 0 <= i < j && uses_default(#[trigger] ts[i])
}

/// The entries that use their default form a suffix of `ts`.
pub open spec fn defaults_form_suffix(ts: Seq<TypeEntry>) -> bool {
    forall|j: int| !#[trigger] follows_default(ts, j)
}

/// The type-reference view: nothing when both tables are empty, else every
/// lifetime and then every type or const argument, in angle brackets.
pub open spec fn type_generics_tokens(ls: Seq<LifetimeEntry>, ts: Seq<TypeEntry>) -> Seq<Seq<char>> {
    if ls.len() == 0 && ts.len() == 0 {
        Seq::empty()
    } else {
        seq!["<"@] + lifetime_ref_list(ls) + type_ref_list(ts) + seq![">"@]
    }
}

/// The definition-header view of a registry.
pub struct ImplGenerics<'a>(&'a GenericsModifier);

/// The type-reference view of a registry.
pub struct TypeGenerics<'a>(&'a GenericsModifier);

fn push_text(out: &mut Vec<String>, s: &str)
    ensures
        texts(final(out)@) == texts(old(out)@).push(s@),
{
    out.push(String::from_str(s));
    proof {
        assert(texts(final(out)@) =~= texts(old(out)@).push(s@));
    }
}

fn push_string(out: &mut Vec<String>, s: &String)
    ensures
        texts(final(out)@) == texts(old(out)@).push(s@),
{
    out.push(s.clone());
    proof {
        assert(texts(final(out)@) =~= texts(old(out)@).push(s@));
    }
}

/// Appends the texts of the outer attributes among `attrs`.
fn push_outer_attrs(out: &mut Vec<String>, attrs: &Vec<Attribute>)
    ensures
        texts(final(out)@) == texts(old(out)@) + outer_attr_tokens(attrs@),
{
    let mut i: usize = 0;
    while i < attrs.len()
        invariant
            i <= attrs.len(),
            texts(out@) == texts(old(out)@) + outer_attr_tokens(attrs@.take(i as int)),
        decreases attrs.len() - i,
    {
        proof {
            assert(attrs@.take(i + 1).drop_last() =~= attrs@.take(i as int));
        }
        if attrs[i].outer {
            push_string(out, &attrs[i].text);
        }
        i = i + 1;
    }
    proof {
        assert(attrs@.take(attrs.len() as int) =~= attrs@);
    }
}

/// Appends a type or const parameter as a definition header declares it.
fn push_type_header(out: &mut Vec<String>, p: &TypeConstParam)
    ensures
        texts(final(out)@) == texts(old(out)@) + type_header_tokens(*p),
{
    match p {
        TypeConstParam::Type(t) => {
            push_outer_attrs(out, &t.attrs);
            push_string(out, &t.name);
            if t.bounds.as_str().is_empty() {
                proof {
                    assert(t.bounds@.len() == 0);
                }
            } else {
                push_text(out, ":");
                push_string(out, &t.bounds);
            }
        },
        TypeConstParam::Const(c) => {
            push_outer_attrs(out, &c.attrs);
            push_text(out, "const");
            push_string(out, &c.name);
            push_text(out, ":");
            push_string(out, &c.ty);
        },
    }
    proof {
        assert(texts(final(out)@) =~= texts(old(out)@) + type_header_tokens(*p));
    }
}

impl<'a> ImplGenerics<'a> {
    pub closed spec fn modifier(&self) -> &'a GenericsModifier {
        self.0
    }

    pub(crate) fn new(m: &'a GenericsModifier) -> (r: Self)
        ensures
            r.modifier() == m,
    {
        ImplGenerics(m)
    }

    /// The tokens of the definition-header view.
    pub fn to_tokens(&self) -> (r: Vec<String>)
        requires
            self.modifier().wf(),
        ensures
            texts(r@) == impl_generics_tokens(
                self.modifier().lifetime_entries(),
                self.modifier().type_entries(),
            ),
    {
        let lifetimes = self.0.lifetime_table();
        let types = self.0.type_table();
        let ghost ls = self.modifier().lifetime_entries();
        let ghost ts = self.modifier().type_entries();
        let mut out: Vec<String> = Vec::new();
        if lifetimes.is_empty() && types.is_empty() {
            proof {
                assert(texts(out@) =~= Seq::<Seq<char>>::empty());
            }
            return out;
        }
        push_text(&mut out, "<");
        let mut i: usize = 0;
        while i < lifetimes.len()
            invariant
                lifetimes.wf(),
                lifetimes.values() == ls,
                i <= ls.len(),
                texts(out@) == seq!["<"@] + lifetime_header_list(ls.take(i as int)),
            decreases ls.len() - i,
        {
            proof {
                assert(ls.take(i + 1).drop_last() =~= ls.take(i as int));
            }
            let entry = lifetimes.value_at(i);
            if entry.1.is_none() {
                push_string(&mut out, &entry.0.decl);
                push_text(&mut out, ",");
            }
            i = i + 1;
        }
        proof {
            assert(ls.take(ls.len() as int) =~= ls);
        }
        let ghost mid = texts(out@);
        let mut j: usize = 0;
        while j < types.len()
            invariant
                types.wf(),
                types.values() == ts,
                j <= ts.len(),
                texts(out@) == mid + type_header_list(ts.take(j as int)),
            decreases ts.len() - j,
        {
            proof {
                assert(ts.take(j + 1).drop_last() =~= ts.take(j as int));
            }
            let entry = types.value_at(j);
            if entry.1.is_none() {
                push_type_header(&mut out, &entry.0);
                push_text(&mut out, ",");
            }
            j = j + 1;
        }
        proof {
            assert(ts.take(ts.len() as int) =~= ts);
        }
        push_text(&mut out, ">");
        out
    }
}

impl<'a> TypeGenerics<'a> {
    pub closed spec fn modifier(&self) -> &'a GenericsModifier {
        self.0
    }

    pub(crate) fn new(m: &'a GenericsModifier) -> (r: Self)
        ensures
            r.modifier() == m,
    {
        TypeGenerics(m)
    }

    /// The tokens of the type-reference view. Fails when a type or const
    /// parameter that needs an argument follows one that uses its default,
    /// naming the first such parameter.
    pub fn to_tokens(&self) -> (r: Result<Vec<String>, GenericsError>)
        requires
            self.modifier().wf(),
        ensures
            r is Ok <==> defaults_form_suffix(self.modifier().type_entries()),
            r matches Ok(v) ==> texts(v@) == type_generics_tokens(
                self.modifier().lifetime_entries(),
                self.modifier().type_entries(),
            ),
            r matches Err(e) ==> exists|j: int|
                #[trigger] follows_default(self.modifier().type_entries(), j)
                && (forall|k: int| 0 <= k < j ==> !follows_default(self.modifier().type_entries(), k))
                && (e matches GenericsError::InvalidDefaultOrdering(n)
                    && n@ == self.modifier().type_entries()[j].0.spec_name()),
    {
        let lifetimes = self.0.lifetime_table();
        let types = self.0.type_table();
        let ghost ls = self.modifier().lifetime_entries();
        let ghost ts = self.modifier().type_entries();
        let mut out: Vec<String> = Vec::new();
        if lifetimes.is_empty() && types.is_empty() {
            proof {
                assert(texts(out@) =~= Seq::<Seq<char>>::empty());
            }
            return Ok(out);
        }
        push_text(&mut out, "<");
        let mut i: usize = 0;
        while i < lifetimes.len()
            invariant
                lifetimes.wf(),
                lifetimes.values() == ls,
                i <= ls.len(),
                texts(out@) == seq!["<"@] + lifetime_ref_list(ls.take(i as int)),
            decreases ls.len() - i,
        {
            proof {
                assert(ls.take(i + 1).drop_last() =~= ls.take(i as int));
            }
            let entry = lifetimes.value_at(i);
            match &entry.1 {
                Some(KnownParam::Lifetime(l)) => push_string(&mut out, l),
                _ => {
                    let lt = String::from_str("'").concat(entry.0.name.as_str());
                    push_string(&mut out, &lt);
                },
            }
            push_text(&mut out, ",");
            i = i + 1;
        }
        proof {
            assert(ls.take(ls.len() as int) =~= ls);
        }
        let ghost mid = texts(out@);
        let mut use_default = false;
        let mut j: usize = 0;
        while j < types.len()
            invariant
                types.wf(),
                types.values() == ts,
                ts == self.modifier().type_entries(),
                j <= ts.len(),
                texts(out@) == mid + type_ref_list(ts.take(j as int)),
                use_default == exists|i: int| 0 <= i < j && uses_default(#[trigger] ts[i]),
                forall|k: int| 0 <= k < j ==> !follows_default(ts, k),
            decreases ts.len() - j,
        {
            proof {
                assert(ts.take(j + 1).drop_last() =~= ts.take(j as int));
            }
            let entry = types.value_at(j);
            match &entry.1 {
                Some(KnownParam::UseDefault) => {
                    use_default = true;
                },
                _ => {
                    if use_default {
                        proof {
                            assert(follows_default(ts, j as int));
                            assert(!defaults_form_suffix(ts));
                        }
                        return Err(GenericsError::InvalidDefaultOrdering(entry.0.name().clone()));
                    }
                    match &entry.1 {
                        Some(KnownParam::Type(t)) => push_string(&mut out, t),
                        Some(KnownParam::Const(c)) => push_string(&mut out, c),
                        _ => push_string(&mut out, entry.0.name()),
                    }
                    push_text(&mut out, ",");
                },
            }
            j = j + 1;
        }
        proof {
            assert(ts.take(ts.len() as int) =~= ts);
            assert forall|k: int| !#[trigger] follows_default(ts, k) by {
                if 0 <= k < ts.len() {
                }
            }
        }
        push_text(&mut out, ">");
        Ok(out)
    }
}

} // verus!
