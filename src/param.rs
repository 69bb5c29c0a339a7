//! References to the generic parameters that a binder puts in scope.
use vstd::prelude::*;
use crate::term::{
    BoundVar, BoundVarView, DebruijnIndex, Lifetime, LifetimeView, Parameter, ParameterKind,
    ParameterView, Ty, TyView,
};

verus! {

/// The bound variable at `(depth, index)`, shaped after `kind`: a type for
/// a type parameter, a lifetime for a lifetime parameter.
pub open spec fn bound_parameter(kind: ParameterKind<()>, depth: nat, index: nat) -> ParameterView {
    let b = BoundVarView { depth, index };
    match kind {
        ParameterKind::Ty(_) => ParameterView::Ty(TyView::BoundVar(b)),
        ParameterKind::Lifetime(_) => ParameterView::Lifetime(LifetimeView::BoundVar(b)),
    }
}

impl ParameterView {
    /// The position of the parameter, where it is a bound variable.
    pub open spec fn bound_var(self) -> Option<BoundVarView> {
        match self {
            ParameterView::Ty(TyView::BoundVar(b)) => Some(b),
            ParameterView::Lifetime(LifetimeView::BoundVar(b)) => Some(b),
            _ => None,
        }
    }

    pub open spec fn kind(self) -> ParameterKind<()> {
        match self {
            ParameterView::Ty(_) => ParameterKind::Ty(()),
            ParameterView::Lifetime(_) => ParameterKind::Lifetime(()),
        }
    }
}

/// A bound variable built for position `i` of a binder's shape reads back
/// as position `(0, i)`, with the kind that the shape gives at `i`.
pub proof fn lemma_bound_parameter_round_trip(shape: Seq<ParameterKind<()>>, i: nat)
    requires
        i < shape.len(),
    ensures
        bound_parameter(shape[i as int], 0, i).bound_var() == Some(BoundVarView { depth: 0, index: i }),
        bound_parameter(shape[i as int], 0, i).kind() == shape[i as int],
{
    match shape[i as int] {
        ParameterKind::Ty(u) => assert(u == ()),
        ParameterKind::Lifetime(u) => assert(u == ()),
    }
}

/// The bound variable at `debruijn` and `index`, of the given kind.
pub fn to_parameter_at_depth(kind: &ParameterKind<()>, index: usize, debruijn: DebruijnIndex) -> (r:
    Parameter)
    ensures
        r@ == bound_parameter(*kind, debruijn.depth as nat, index as nat),
{
    let bound_var = BoundVar::new(debruijn, index);
    match kind {
        ParameterKind::Lifetime(_) => Parameter::Lifetime(Lifetime::BoundVar(bound_var)),
        ParameterKind::Ty(_) => Parameter::Ty(Ty::BoundVar(bound_var)),
    }
}

/// Converts a binder entry, paired with its position, into a reference to
/// that parameter.
pub trait ToParameter {
    spec fn kind_of(&self) -> ParameterKind<()>;

    spec fn index_of(&self) -> nat;

    /// The reference from the innermost binder.
    fn to_parameter(&self) -> (r: Parameter)
        ensures
            r@ == bound_parameter(self.kind_of(), 0, self.index_of()),
    {
        self.to_parameter_at_depth(DebruijnIndex::innermost())
    }

    /// The reference from `debruijn.depth` binders inside.
    fn to_parameter_at_depth(&self, debruijn: DebruijnIndex) -> (r: Parameter)
        ensures
            r@ == bound_parameter(self.kind_of(), debruijn.depth as nat, self.index_of()),
    ;
}

impl ToParameter for (ParameterKind<()>, usize) {
    open spec fn kind_of(&self) -> ParameterKind<()> {
        self.0
    }

    open spec fn index_of(&self) -> nat {
        self.1 as nat
    }

    fn to_parameter_at_depth(&self, debruijn: DebruijnIndex) -> (r: Parameter) {
        to_parameter_at_depth(&self.0, self.1, debruijn)
    }
}

/// Drops the payload of each parameter kind in a list, keeping the kinds.
pub trait Anonymize {
    spec fn anonymized(&self) -> Seq<ParameterKind<()>>;

    fn anonymize(&self) -> (r: Vec<ParameterKind<()>>)
        ensures
            r@ == self.anonymized(),
    ;
}

impl<T> Anonymize for [ParameterKind<T>] {
    open spec fn anonymized(&self) -> Seq<ParameterKind<()>> {
        self@.map_values(|k: ParameterKind<T>| k.anonymized())
    }

    fn anonymize(&self) -> (r: Vec<ParameterKind<()>>) {
        let mut out: Vec<ParameterKind<()>> = Vec::new();
        let mut i: usize = 0;
        while i < self.len()
            invariant
                i <= self@.len(),
                out@ =~= self@.subrange(0, i as int).map_values(|k: ParameterKind<T>| k.anonymized()),
            decreases self@.len() - i,
        {
            out.push(self[i].anonymize());
            i = i + 1;
        }
        assert(self@.subrange(0, self@.len() as int) =~= self@);
        out
    }
}

} // verus!
