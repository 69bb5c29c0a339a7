//! Clauses as the solver consumes them, and binders that scope them.
use vstd::prelude::*;
use crate::term::{AliasTy, AssocTypeId, ParameterKind, ParameterView, Substitution, TraitId, Ty, TyView};

verus! {

/// A trait applied to a substitution whose first parameter is the self type.
#[derive(Debug, PartialEq, Eq, Hash)]
pub struct TraitRef {
    pub trait_id: TraitId,
    pub substitution: Substitution,
}

/// A projection equated to a type.
#[derive(Debug, PartialEq, Eq, Hash)]
pub struct AliasEq {
    pub alias: AliasTy,
    pub ty: Ty,
}

#[derive(Debug, PartialEq, Eq, Hash)]
pub enum WhereClause {
    Implemented(TraitRef),
    AliasEq(AliasEq),
}

/// A value under a binder that introduces one generic parameter per entry
/// of `binders`.
#[derive(Debug, PartialEq, Eq, Hash)]
pub struct Binders<T> {
    pub binders: Vec<ParameterKind<()>>,
    pub value: T,
}

pub type QuantifiedWhereClause = Binders<WhereClause>;

pub ghost enum WhereClauseView {
    /// The trait holds for these arguments (self first).
    Implemented(TraitId, Seq<ParameterView>),
    /// The associated type applied to these arguments equals the type.
    AliasEq(AssocTypeId, Seq<ParameterView>, TyView),
}

pub ghost struct QuantifiedWhereClauseView {
    pub binders: Seq<ParameterKind<()>>,
    pub value: WhereClauseView,
}

impl WhereClause {
    pub open spec fn view(&self) -> WhereClauseView {
        match self {
            WhereClause::Implemented(t) => WhereClauseView::Implemented(t.trait_id, t.substitution@),
            WhereClause::AliasEq(a) => WhereClauseView::AliasEq(
                a.alias.associated_ty_id,
                a.alias.substitution@,
                a.ty@,
            ),
        }
    }
}

impl Binders<WhereClause> {
    pub open spec fn view(&self) -> QuantifiedWhereClauseView {
        QuantifiedWhereClauseView { binders: self.binders@, value: self.value@ }
    }
}

pub open spec fn clauses_view(cs: Seq<WhereClause>) -> Seq<WhereClauseView> {
    cs.map_values(|c: WhereClause| c@)
}

pub open spec fn quantified_clauses_view(cs: Seq<QuantifiedWhereClause>) -> Seq<
    QuantifiedWhereClauseView,
> {
    cs.map_values(|c: QuantifiedWhereClause| c@)
}

/// A copy of a binder's shape.
pub fn copy_kinds(kinds: &Vec<ParameterKind<()>>) -> (r: Vec<ParameterKind<()>>)
    ensures
        r@ == kinds@,
{
    let mut out: Vec<ParameterKind<()>> = Vec::new();
    let mut i: usize = 0;
    while i < kinds.len()
        invariant
            i <= kinds@.len(),
            out@ == kinds@.subrange(0, i as int),
        decreases kinds@.len() - i,
    {
        let k: ParameterKind<()> = kinds[i];
        out.push(k);
        i = i + 1;
        assert(out@ =~= kinds@.subrange(0, i as int));
    }
    assert(kinds@.subrange(0, kinds@.len() as int) =~= kinds@);
    out
}

} // verus!
