//! An ordered registry of generic parameters (lifetimes, types and consts)
//! that can be extended, partly resolved to concrete values, and rendered as
//! the parameter list of a definition header or of a type reference.
//!
//! Parameters and resolved values are held as plain text fragments; turning
//! source text into them, and the rendered tokens back into source, is left
//! to the caller.

mod laws;
mod linked_table;
mod modifier;
mod params;
mod split_for_impl;

pub use laws::{
    as_generic, law_build_keeps_order, law_default_must_be_suffix, law_duplicate_name_rejected,
    law_impl_generics_stable, law_lifetimes_first, law_type_generics_stable,
};
pub use linked_table::{GenericsError, Iter, LinkedTable};
pub use modifier::{
    first_duplicate, lifetime_entries_of, lifetime_names, lifetimes_fit, param_name,
    repeats_name, repeats_registered, type_entries_of, type_names, types_fit, GenericsModifier,
    LifetimeEntry, TypeEntry,
};
pub use params::{
    fits, Attribute, ConstParam, GenericParam, Generics, KnownParam, LifetimeParam, TypeConstParam,
    TypeParam,
};
pub use split_for_impl::{
    defaults_form_suffix, follows_default, impl_generics_tokens, lifetime_arg, lifetime_header_list,
    lifetime_ref_list, outer_attr_tokens, texts, type_arg_tokens, type_generics_tokens,
    type_header_list, type_header_tokens, type_ref_list, uses_default, ImplGenerics, TypeGenerics,
};
