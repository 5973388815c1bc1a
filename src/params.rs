use vstd::prelude::*;

verus! {

/// An attribute written on a parameter, as text; `outer` tells an outer
/// attribute (`#[...]`) from an inner one (`#![...]`).
#[derive(Debug, PartialEq, Eq)]
pub struct Attribute {
    pub outer: bool,
    pub text: String,
}

/// A lifetime parameter: its name without the leading apostrophe, and its
/// whole declaration (attributes, lifetime and bounds) as text.
#[derive(Debug, PartialEq, Eq)]
pub struct LifetimeParam {
    pub name: String,
    pub decl: String,
}

/// A type parameter: attributes, name, bounds as text (empty when there are
/// none) and the declared default type, if any.
#[derive(Debug, PartialEq, Eq)]
pub struct TypeParam {
    pub attrs: Vec<Attribute>,
    pub name: String,
    pub bounds: String,
    pub default: Option<String>,
}

/// A const parameter: attributes, name, declared type and the declared
/// default expression, if any.
#[derive(Debug, PartialEq, Eq)]
pub struct ConstParam {
    pub attrs: Vec<Attribute>,
    pub name: String,
    pub ty: String,
    pub default: Option<String>,
}

/// A parameter of the type/const namespace.
#[derive(Debug, PartialEq, Eq)]
pub enum TypeConstParam {
    Type(TypeParam),
    Const(ConstParam),
}

/// Any generic parameter.
#[derive(Debug, PartialEq, Eq)]
pub enum GenericParam {
    Lifetime(LifetimeParam),
    Type(TypeParam),
    Const(ConstParam),
}

/// What a parameter has been resolved to.
#[derive(Debug, PartialEq, Eq)]
pub enum KnownParam {
    /// A concrete lifetime, such as `'static`.
    Lifetime(String),
    /// A concrete type.
    Type(String),
    /// A constant expression.
    Const(String),
    /// Leave the argument out so that the declared default applies.
    UseDefault,
}

/// A parameter list as declared, with its trailing `where` clause as text.
#[derive(Debug, PartialEq, Eq)]
pub struct Generics {
    pub params: Vec<GenericParam>,
    pub where_clause: Option<String>,
}

impl TypeConstParam {
    pub open spec fn spec_name(&self) -> Seq<char> {
        match self {
            TypeConstParam::Type(t) => t.name@,
            TypeConstParam::Const(c) => c.name@,
        }
    }

    /// The parameter's name.
    pub fn name(&self) -> (r: &String)
        ensures
            r@ == self.spec_name(),
    {
        match self {
            TypeConstParam::Type(t) => &t.name,
            TypeConstParam::Const(c) => &c.name,
        }
    }
}

impl GenericParam {
    pub open spec fn is_lifetime(&self) -> bool {
        self is Lifetime
    }

    /// The parameter's name (for a lifetime, without the apostrophe).
    pub open spec fn spec_name(&self) -> Seq<char> {
        match self {
            GenericParam::Lifetime(l) => l.name@,
            GenericParam::Type(t) => t.name@,
            GenericParam::Const(c) => c.name@,
        }
    }
}

impl KnownParam {
    /// A resolution that belongs to the lifetime table.
    pub open spec fn is_lifetime(&self) -> bool {
        self is Lifetime
    }
}

/// Whether `known` may be attached to `param`: a lifetime takes only a
/// lifetime, a type or const parameter anything but a lifetime.
pub open spec fn fits(param: GenericParam, known: Option<KnownParam>) -> bool {
    match known {
        None => true,
        Some(k) => param.is_lifetime() == k.is_lifetime(),
    }
}

} // verus!
