//! Inline bounds and their lowering into clauses.
use vstd::prelude::*;
use crate::clause::{
    clauses_view, copy_kinds, quantified_clauses_view, AliasEq, Binders, QuantifiedWhereClause,
    QuantifiedWhereClauseView, TraitRef, WhereClause, WhereClauseView,
};
use crate::term::{
    params_view, push_copies, AliasTy, BoundVarView, AssocTypeId, Parameter, ParameterView, Substitution, TraitId,
    Ty, TyView,
};

verus! {

/// Represents a trait bound on e.g. a type or type parameter.
/// Does not know anything about what it's binding.
#[derive(Debug, PartialEq, Eq, Hash)]
pub struct TraitBound {
    pub trait_id: TraitId,
    pub args_no_self: Vec<Parameter>,
}

/// Represents an alias equality bound on e.g. a type or type parameter.
/// Does not know anything about what it's binding.
#[derive(Debug, PartialEq, Eq, Hash)]
pub struct AliasEqBound {
    pub trait_bound: TraitBound,
    pub associated_ty_id: AssocTypeId,
    /// Does not include trait parameters.
    pub parameters: Vec<Parameter>,
    pub value: Ty,
}

/// An inline bound, e.g. `: Foo<K>` in `impl<K, T: Foo<K>> SomeType<T>`.
#[derive(Debug, PartialEq, Eq, Hash)]
pub enum InlineBound {
    TraitBound(TraitBound),
    AliasEqBound(AliasEqBound),
}

/// An inline bound with generic parameters of its own.
pub type QuantifiedInlineBound = Binders<InlineBound>;

impl TraitBound {
    /// The trait's arguments once the bound applies to `self_ty`: the self
    /// type first, then the other arguments in order.
    pub open spec fn trait_args(&self, self_ty: TyView) -> Seq<ParameterView> {
        seq![ParameterView::Ty(self_ty)] + params_view(self.args_no_self@)
    }

    pub open spec fn lowered(&self, self_ty: TyView) -> Seq<WhereClauseView> {
        seq![WhereClauseView::Implemented(self.trait_id, self.trait_args(self_ty))]
    }

    /// Lowers the bound applied to `self_ty`: one clause, that `self_ty`
    /// implements the trait.
    pub fn into_where_clauses(&self, self_ty: Ty) -> (r: Vec<WhereClause>)
        ensures
            clauses_view(r@) == self.lowered(self_ty@),
    {
        let trait_ref = self.as_trait_ref(self_ty);
        let mut r: Vec<WhereClause> = Vec::new();
        r.push(WhereClause::Implemented(trait_ref));
        assert(clauses_view(r@) =~= self.lowered(self_ty@));
        r
    }

    /// The trait reference that this bound denotes for `self_ty`.
    pub fn as_trait_ref(&self, self_ty: Ty) -> (r: TraitRef)
        ensures
            r.trait_id == self.trait_id,
            r.substitution@ == self.trait_args(self_ty@),
    {
        let ghost self_view = self_ty@;
        let mut parameters: Vec<Parameter> = Vec::new();
        parameters.push(Parameter::Ty(self_ty));
        assert(params_view(parameters@) =~= seq![ParameterView::Ty(self_view)]);
        push_copies(&mut parameters, &self.args_no_self);
        TraitRef { trait_id: self.trait_id, substitution: Substitution::from_parameters(parameters) }
    }
}

impl AliasEqBound {
    pub open spec fn lowered(&self, self_ty: TyView) -> Seq<WhereClauseView> {
        let args = self.trait_bound.trait_args(self_ty);
        seq![
            WhereClauseView::Implemented(self.trait_bound.trait_id, args),
            WhereClauseView::AliasEq(
                self.associated_ty_id,
                params_view(self.parameters@) + args,
                self.value@,
            ),
        ]
    }

    /// Lowers the bound applied to `self_ty`: first that `self_ty`
    /// implements the trait, then that the associated type, applied to
    /// `parameters` followed by the trait's arguments, equals `value`.
    pub fn into_where_clauses(&self, self_ty: Ty) -> (r: Vec<WhereClause>)
        ensures
            clauses_view(r@) == self.lowered(self_ty@),
    {
        let trait_ref = self.trait_bound.as_trait_ref(self_ty);
        let mut parameters: Vec<Parameter> = Vec::new();
        push_copies(&mut parameters, &self.parameters);
        push_copies(&mut parameters, &trait_ref.substitution.parameters);
        assert(params_view(Seq::<Parameter>::empty()) =~= Seq::<ParameterView>::empty());
        assert(Seq::<ParameterView>::empty() + params_view(self.parameters@) =~= params_view(
            self.parameters@,
        ));
        let alias_eq = AliasEq {
            alias: AliasTy {
                associated_ty_id: self.associated_ty_id,
                substitution: Substitution::from_parameters(parameters),
            },
            ty: self.value.copied(),
        };
        let mut r: Vec<WhereClause> = Vec::new();
        r.push(WhereClause::Implemented(trait_ref));
        r.push(WhereClause::AliasEq(alias_eq));
        assert(clauses_view(r@) =~= self.lowered(self_ty@));
        r
    }
}

/// Lowers a bound, applied to a given self type, into clauses.
pub trait IntoWhereClauses {
    type Output;

    /// The self types the bound can be applied to.
    spec fn accepts_self_ty(&self, self_ty: TyView) -> bool;

    /// `clauses` are the clauses that the bound denotes for `self_ty`.
    spec fn lowers_to(&self, self_ty: TyView, clauses: Seq<Self::Output>) -> bool;

    fn into_where_clauses(&self, self_ty: Ty) -> (r: Vec<Self::Output>)
        requires
            self.accepts_self_ty(self_ty@),
        ensures
            self.lowers_to(self_ty@, r@),
    ;
}

impl InlineBound {
    pub open spec fn lowered(&self, self_ty: TyView) -> Seq<WhereClauseView> {
        match self {
            InlineBound::TraitBound(b) => b.lowered(self_ty),
            InlineBound::AliasEqBound(b) => b.lowered(self_ty),
        }
    }

}

impl IntoWhereClauses for InlineBound {
    type Output = WhereClause;

    open spec fn accepts_self_ty(&self, self_ty: TyView) -> bool {
        true
    }

    open spec fn lowers_to(&self, self_ty: TyView, clauses: Seq<WhereClause>) -> bool {
        clauses_view(clauses) == self.lowered(self_ty)
    }

    /// Applies the bound to `self_ty` and lowers it to clauses.
    fn into_where_clauses(&self, self_ty: Ty) -> (r: Vec<WhereClause>) {
        match self {
            InlineBound::TraitBound(b) => b.into_where_clauses(self_ty),
            InlineBound::AliasEqBound(b) => b.into_where_clauses(self_ty),
        }
    }
}

impl Binders<InlineBound> {
    /// The clauses of the inner bound, applied to `self_ty` seen from
    /// inside this bound's binder, each under a binder of this bound's shape.
    pub open spec fn lowered(&self, self_ty: TyView) -> Seq<QuantifiedWhereClauseView> {
        let inner = self.value.lowered(self_ty.shifted(1));
        Seq::new(
            inner.len(),
            |i: int| QuantifiedWhereClauseView { binders: self.binders@, value: inner[i] },
        )
    }

}

impl IntoWhereClauses for Binders<InlineBound> {
    type Output = QuantifiedWhereClause;

    open spec fn accepts_self_ty(&self, self_ty: TyView) -> bool {
        self_ty.depth_at_most((u32::MAX - 1) as nat)
    }

    open spec fn lowers_to(&self, self_ty: TyView, clauses: Seq<QuantifiedWhereClause>) -> bool {
        quantified_clauses_view(clauses) == self.lowered(self_ty)
    }

    /// Lowers the bound applied to `self_ty`, a type built outside this
    /// bound's binder: `self_ty` is shifted in by one binder first.
    fn into_where_clauses(&self, self_ty: Ty) -> (r: Vec<QuantifiedWhereClause>) {
        let shifted = self_ty.shifted_in();
        let mut inner = self.value.into_where_clauses(shifted);
        let ghost inner_view = clauses_view(inner@);
        let ghost n = inner@.len();
        let mut r: Vec<QuantifiedWhereClause> = Vec::new();
        while inner.len() > 0
            invariant
                r@.len() + inner@.len() == n,
                inner_view.len() == n,
                clauses_view(inner@) == inner_view.subrange(r@.len() as int, n as int),
                forall|j: int|
                    0 <= j < r@.len() ==> (#[trigger] r@[j])@ == (QuantifiedWhereClauseView {
                        binders: self.binders@,
                        value: inner_view[j],
                    }),
            decreases inner@.len(),
        {
            let ghost k = r@.len();
            let ghost before = inner@;
            assert(clauses_view(before)[0] == inner_view[k as int]);
            let wc = inner.remove(0);
            assert(inner@ =~= before.subrange(1, before.len() as int));
            assert(wc@ == inner_view[k as int]);
            r.push(Binders { binders: copy_kinds(&self.binders), value: wc });
            assert forall|j: int| 0 <= j < inner@.len() implies clauses_view(inner@)[j]
                == inner_view.subrange(r@.len() as int, n as int)[j] by {
                assert(inner@[j] == before[j + 1]);
                assert(clauses_view(before)[j + 1] == inner_view[k + 1 + j]);
            }
            assert(clauses_view(inner@) =~= inner_view.subrange(r@.len() as int, n as int));
        }
        assert(quantified_clauses_view(r@) =~= self.lowered(self_ty@));
        r
    }
}

/// A trait bound under a binder, applied to `self_ty`, gives one clause
/// under a binder of the same shape, whose self argument is `self_ty`
/// shifted in by exactly one binder; a self type that is a bound variable
/// keeps its index and goes one binder deeper.
pub proof fn lemma_quantified_trait_bound_shifts_self(
    bound: QuantifiedInlineBound,
    self_ty: TyView,
)
    requires
        bound.value is TraitBound,
    ensures
        bound.lowered(self_ty).len() == 1,
        bound.lowered(self_ty)[0].binders == bound.binders@,
        bound.lowered(self_ty)[0].value == WhereClauseView::Implemented(
            bound.value->TraitBound_0.trait_id,
            seq![ParameterView::Ty(self_ty.shifted(1))] + params_view(
                bound.value->TraitBound_0.args_no_self@,
            ),
        ),
        self_ty matches TyView::BoundVar(b) ==> self_ty.shifted(1) == TyView::BoundVar(
            BoundVarView { depth: b.depth + 1, index: b.index },
        ),
{
}

} // verus!
