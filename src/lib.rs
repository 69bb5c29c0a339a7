//! Declarations of a trait-based generic type system, and the lowering of
//! inline bounds into the clause form that a logic solver consumes.
//!
//! Generic parameters are referred to positionally, by a binder depth and
//! an index within that binder (de Bruijn indices).
pub mod bound;
pub mod clause;
pub mod datum;
pub mod param;
pub mod term;

pub use bound::{AliasEqBound, InlineBound, IntoWhereClauses, QuantifiedInlineBound, TraitBound};
pub use clause::{AliasEq, Binders, QuantifiedWhereClause, TraitRef, WhereClause};
pub use datum::{
    AssociatedTyDatum, AssociatedTyDatumBound, AssociatedTyValue, AssociatedTyValueBound,
    DefaultImplDatum, DefaultImplDatumBound, ImplDatum, ImplDatumBound, ImplType, Polarity,
    StructDatum, StructDatumBound, StructFlags, TraitDatum, TraitDatumBound, TraitFlags,
    WellKnownTrait,
};
pub use param::{to_parameter_at_depth, Anonymize, ToParameter};
pub use term::{
    AliasTy, ApplicationTy, AssocTypeId, AssociatedTyValueId, BoundVar, DebruijnIndex, ImplId,
    Lifetime, Parameter, ParameterKind, StructId, Substitution, TraitId, Ty, TypeName,
};
