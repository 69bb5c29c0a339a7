//! Declarations: nominal types, traits, implementations and associated types.
use vstd::prelude::*;
use crate::bound::{IntoWhereClauses, QuantifiedInlineBound};
use crate::clause::{
    quantified_clauses_view, Binders, QuantifiedWhereClause, QuantifiedWhereClauseView, TraitRef,
};
use crate::param::{bound_parameter, ToParameter};
use crate::term::{
    params_depth_at_most, params_view, AliasTy, AssocTypeId, AssociatedTyValueId, ImplId,
    Parameter, ParameterKind, StructId, Substitution, TraitId, Ty, TyView, TypeName,
};

verus! {

#[derive(Debug, PartialEq, Eq, Hash)]
pub struct ImplDatum {
    pub polarity: Polarity,
    pub binders: Binders<ImplDatumBound>,
    pub impl_type: ImplType,
    pub associated_ty_value_ids: Vec<AssociatedTyValueId>,
}

impl ImplDatum {
    pub fn is_positive(&self) -> (r: bool)
        ensures
            r == (self.polarity == Polarity::Positive),
    {
        self.polarity.is_positive()
    }

    /// The trait that this implementation is for.
    pub fn trait_id(&self) -> (r: TraitId)
        ensures
            r == self.binders.value.trait_ref.trait_id,
    {
        self.binders.value.trait_ref.trait_id
    }
}

#[derive(Debug, PartialEq, Eq, Hash)]
pub struct ImplDatumBound {
    pub trait_ref: TraitRef,
    pub where_clauses: Vec<QuantifiedWhereClause>,
}

#[derive(Clone, Copy, Debug, PartialEq, Eq, Structural, Hash)]
pub enum ImplType {
    Local,
    External,
}

#[derive(Debug, PartialEq, Eq, Hash)]
pub struct DefaultImplDatum {
    pub binders: Binders<DefaultImplDatumBound>,
}

#[derive(Debug, PartialEq, Eq, Hash)]
pub struct DefaultImplDatumBound {
    pub trait_ref: TraitRef,
    pub accessible_tys: Vec<Ty>,
}

#[derive(Debug, PartialEq, Eq, Hash)]
pub struct StructDatum {
    pub binders: Binders<StructDatumBound>,
    pub id: StructId,
    pub flags: StructFlags,
}

impl StructDatum {
    pub open spec fn name_spec(&self) -> TypeName {
        TypeName::Struct(self.id)
    }

    /// The declaration's identifier as the name of a type constructor.
    pub fn name(&self) -> (r: TypeName)
        ensures
            r == self.name_spec(),
    {
        TypeName::Struct(self.id)
    }
}

/// The type name of a nominal-type declaration is the identifier it was
/// built from, and reads back as that identifier.
pub proof fn lemma_struct_name_round_trip(datum: StructDatum, id: StructId)
    requires
        datum.id == id,
    ensures
        datum.name_spec() == TypeName::Struct(id),
        datum.name_spec() matches TypeName::Struct(s) && s == id,
{
}

/// Two nominal-type declarations have the same type name exactly when they
/// have the same identifier.
pub proof fn lemma_struct_name_injective(a: StructDatum, b: StructDatum)
    ensures
        (a.name_spec() == b.name_spec()) == (a.id == b.id),
{
}

#[derive(Debug, PartialEq, Eq, Hash)]
pub struct StructDatumBound {
    pub fields: Vec<Ty>,
    pub where_clauses: Vec<QuantifiedWhereClause>,
}

#[derive(Clone, Copy, Debug, PartialEq, Eq, Structural, Hash)]
pub struct StructFlags {
    pub upstream: bool,
    pub fundamental: bool,
}

/// A trait declaration. The trait's members (e.g. its associated types)
/// are declared separately, in [`AssociatedTyDatum`].
#[derive(Debug, PartialEq, Eq, Hash)]
pub struct TraitDatum {
    pub id: TraitId,
    pub binders: Binders<TraitDatumBound>,
    /// "Flags" indicate special kinds of traits, like auto traits.
    pub flags: TraitFlags,
    pub associated_ty_ids: Vec<AssocTypeId>,
    /// If this is a well-known trait, which one? If `None`, this is a
    /// regular, user-defined trait.
    pub well_known: Option<WellKnownTrait>,
}

/// The traits for which the solver has special, hard-coded impls.
#[derive(Clone, Copy, Debug, PartialEq, Eq, Structural, Hash, PartialOrd, Ord)]
pub enum WellKnownTrait {
    SizedTrait,
    CopyTrait,
    CloneTrait,
}

impl TraitDatum {
    pub fn is_auto_trait(&self) -> (r: bool)
        ensures
            r == self.flags.auto,
    {
        self.flags.auto
    }

    pub fn is_non_enumerable_trait(&self) -> (r: bool)
        ensures
            r == self.flags.non_enumerable,
    {
        self.flags.non_enumerable
    }

    pub fn is_coinductive_trait(&self) -> (r: bool)
        ensures
            r == self.flags.coinductive,
    {
        self.flags.coinductive
    }
}

#[derive(Debug, PartialEq, Eq, Hash)]
pub struct TraitDatumBound {
    /// Where clauses defined on the trait.
    pub where_clauses: Vec<QuantifiedWhereClause>,
}

#[derive(Clone, Copy, Debug, PartialEq, Eq, Structural, Hash)]
pub struct TraitFlags {
    /// Implemented for every type unless an explicit impl says otherwise.
    pub auto: bool,
    pub marker: bool,
    /// Defined upstream (in a dependency); used in coherence checking.
    pub upstream: bool,
    /// Adding an impl for an existing type is a breaking change.
    pub fundamental: bool,
    /// The set of implementations cannot be listed in full.
    pub non_enumerable: bool,
    /// May be proved by cyclic derivations.
    pub coinductive: bool,
}

/// An associated type declaration found inside a trait:
///
/// ```text
/// trait Foo<P1..Pn> { // P0 is Self
///     type Bar<Pn..Pm>: [bounds]
///     where
///         [where_clauses];
/// }
/// ```
#[derive(Debug, PartialEq, Eq, Hash)]
pub struct AssociatedTyDatum {
    /// The trait this associated type is defined in.
    pub trait_id: TraitId,
    /// The ID of this associated type.
    pub id: AssocTypeId,
    /// Name of this associated type.
    pub name: String,
    /// These binders represent the `P0...Pm` variables, in the order
    /// `[Pn..Pm; P0..Pn]`: the associated type's own parameters come first.
    pub binders: Binders<AssociatedTyDatumBound>,
}

/// The parts of an [`AssociatedTyDatum`] where the parameters `P0..Pm` are
/// in scope.
#[derive(Debug, PartialEq, Eq, Hash)]
pub struct AssociatedTyDatumBound {
    /// Bounds on the associated type itself, which the implementer proves.
    pub bounds: Vec<QuantifiedInlineBound>,
    /// Where clauses that must hold for the projection to be well-formed.
    pub where_clauses: Vec<QuantifiedWhereClause>,
}

/// The associated type `id` applied to the parameters of a binder of the
/// given shape, each referring to itself: `<P0 as Foo<P1..Pn>>::Bar<Pn..Pm>`.
pub open spec fn self_projection(id: AssocTypeId, shape: Seq<ParameterKind<()>>) -> TyView {
    TyView::Alias(id, Seq::new(shape.len(), |i: int| bound_parameter(shape[i], 0, i as nat)))
}

/// The clauses of each bound in turn, applied to `self_ty`.
pub open spec fn lower_all(bounds: Seq<QuantifiedInlineBound>, self_ty: TyView) -> Seq<
    QuantifiedWhereClauseView,
>
    decreases bounds.len(),
{
    if bounds.len() == 0 {
        Seq::empty()
    } else {
        lower_all(bounds.drop_last(), self_ty) + bounds.last().lowered(self_ty)
    }
}

impl AssociatedTyDatum {
    pub open spec fn bounds_on_self_spec(&self) -> Seq<QuantifiedWhereClauseView> {
        lower_all(self.binders.value.bounds@, self_projection(self.id, self.binders.binders@))
    }

    /// The associated type's bounds applied to its own projection, e.g.
    /// `Implemented(<?0 as Foo>::Item<?1>: Sized)`, in the scope of
    /// `binders`.
    pub fn bounds_on_self(&self) -> (r: Vec<QuantifiedWhereClause>)
        ensures
            quantified_clauses_view(r@) == self.bounds_on_self_spec(),
            self.binders.value.bounds@.len() == 0 ==> r@.len() == 0,
    {
        let shape = &self.binders.binders;
        let ghost proj = self_projection(self.id, shape@);
        let mut parameters: Vec<Parameter> = Vec::new();
        let mut i: usize = 0;
        while i < shape.len()
            invariant
                i <= shape@.len(),
                parameters@.len() == i,
                forall|j: int|
                    0 <= j < i ==> (#[trigger] parameters@[j])@ == bound_parameter(
                        shape@[j],
                        0,
                        j as nat,
                    ),
            decreases shape@.len() - i,
        {
            let p = (shape[i], i).to_parameter();
            parameters.push(p);
            i = i + 1;
        }
        assert(params_view(parameters@) =~= Seq::new(
            shape@.len(),
            |j: int| bound_parameter(shape@[j], 0, j as nat),
        ));
        let self_ty = Ty::Alias(
            AliasTy {
                associated_ty_id: self.id,
                substitution: Substitution::from_parameters(parameters),
            },
        );
        assert(self_ty@ == proj);
        assert(params_depth_at_most(params_view(parameters@), (u32::MAX - 1) as nat));
        let bounds = &self.binders.value.bounds;
        let mut r: Vec<QuantifiedWhereClause> = Vec::new();
        let mut k: usize = 0;
        while k < bounds.len()
            invariant
                k <= bounds@.len(),
                self_ty@ == proj,
                self_ty@.depth_at_most((u32::MAX - 1) as nat),
                quantified_clauses_view(r@) == lower_all(bounds@.subrange(0, k as int), proj),
            decreases bounds@.len() - k,
        {
            let mut cs = bounds[k].into_where_clauses(self_ty.copied());
            let ghost before = r@;
            let ghost added = cs@;
            r.append(&mut cs);
            assert(bounds@.subrange(0, k + 1).drop_last() =~= bounds@.subrange(0, k as int));
            assert(quantified_clauses_view(r@) =~= quantified_clauses_view(before)
                + quantified_clauses_view(added));
            k = k + 1;
        }
        assert(bounds@.subrange(0, bounds@.len() as int) =~= bounds@);
        r
    }
}

/// An empty bound list gives no clauses, whatever the self type.
pub proof fn lemma_no_bounds_no_clauses(bounds: Seq<QuantifiedInlineBound>, self_ty: TyView)
    requires
        bounds.len() == 0,
    ensures
        lower_all(bounds, self_ty) == Seq::<QuantifiedWhereClauseView>::empty(),
{
}

/// The value of an associated type, assigned within some impl:
///
/// ```text
/// impl Iterator for Foo {
///     type Item = XXX; // <-- represents this line!
/// }
/// ```
#[derive(Debug, PartialEq, Eq, Hash)]
pub struct AssociatedTyValue {
    /// Impl in which this associated type value is found.
    pub impl_id: ImplId,
    /// Associated type being defined.
    pub associated_ty_id: AssocTypeId,
    /// Binders declared on the associated type itself, beyond those of the
    /// impl (non-empty for generic associated types).
    pub value: Binders<AssociatedTyValueBound>,
}

#[derive(Debug, PartialEq, Eq, Hash)]
pub struct AssociatedTyValueBound {
    /// Type that we normalize to. The X in `type Foo<'a> = X`.
    pub ty: Ty,
}

#[derive(Clone, Copy, Debug, PartialEq, Eq, Structural, Hash, PartialOrd, Ord)]
pub enum Polarity {
    Positive,
    Negative,
}

impl Polarity {
    pub fn is_positive(&self) -> (r: bool)
        ensures
            r == (*self == Polarity::Positive),
            !r == (*self == Polarity::Negative),
    {
        match *self {
            Polarity::Positive => true,
            Polarity::Negative => false,
        }
    }
}

} // verus!
