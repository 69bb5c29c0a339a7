//! Terms: identifiers, bound variables, types, lifetimes and substitutions,
//! with their mathematical views and the shifting traversal.
use vstd::prelude::*;

verus! {

broadcast use vstd::std_specs::vec::axiom_vec_index_decreases, vstd::seq::axiom_seq_index_decreases;

/// Identifier of a trait declaration.
#[derive(Clone, Copy, Debug, PartialEq, Eq, Structural, Hash, PartialOrd, Ord)]
pub struct TraitId(pub u32);

/// Identifier of a nominal (struct) type declaration.
#[derive(Clone, Copy, Debug, PartialEq, Eq, Structural, Hash, PartialOrd, Ord)]
pub struct StructId(pub u32);

/// Identifier of an implementation declaration.
#[derive(Clone, Copy, Debug, PartialEq, Eq, Structural, Hash, PartialOrd, Ord)]
pub struct ImplId(pub u32);

/// Identifier of an associated type declaration.
#[derive(Clone, Copy, Debug, PartialEq, Eq, Structural, Hash, PartialOrd, Ord)]
pub struct AssocTypeId(pub u32);

/// Identifier for an "associated type value" found in some impl.
#[derive(Clone, Copy, Debug, PartialEq, Eq, Structural, Hash, PartialOrd, Ord)]
pub struct AssociatedTyValueId(pub u32);

/// The number of binder scopes between a bound variable and the binder
/// that introduces it (0 is the innermost enclosing binder).
#[derive(Clone, Copy, Debug, PartialEq, Eq, Structural, Hash, PartialOrd, Ord)]
pub struct DebruijnIndex {
    pub depth: u32,
}

pub const INNERMOST_DEPTH: u32 = 0;

impl DebruijnIndex {
    /// The innermost enclosing binder.
    pub fn innermost() -> (r: DebruijnIndex)
        ensures
            r.depth == 0,
    {
        DebruijnIndex { depth: INNERMOST_DEPTH }
    }

    /// One binder out from the innermost one.
    pub fn one() -> (r: DebruijnIndex)
        ensures
            r.depth == 1,
    {
        DebruijnIndex { depth: 1 }
    }

    pub fn new(depth: u32) -> (r: DebruijnIndex)
        ensures
            r.depth == depth,
    {
        DebruijnIndex { depth }
    }

    /// The index seen from inside one more binder.
    pub fn shifted_in(self) -> (r: DebruijnIndex)
        requires
            self.depth < u32::MAX,
        ensures
            r.depth == self.depth + 1,
    {
        DebruijnIndex { depth: self.depth + 1 }
    }

    /// The index seen from inside `outer_binder.depth` more binders.
    pub fn shifted_in_from(self, outer_binder: DebruijnIndex) -> (r: DebruijnIndex)
        requires
            self.depth + outer_binder.depth <= u32::MAX,
        ensures
            r.depth == self.depth + outer_binder.depth,
    {
        DebruijnIndex { depth: self.depth + outer_binder.depth }
    }
}

/// A reference to a generic parameter: the binder it belongs to, and its
/// position within that binder's parameter list.
#[derive(Clone, Copy, Debug, PartialEq, Eq, Structural, Hash, PartialOrd, Ord)]
pub struct BoundVar {
    pub debruijn: DebruijnIndex,
    pub index: usize,
}

/// A bound variable as a pair of natural numbers.
pub ghost struct BoundVarView {
    pub depth: nat,
    pub index: nat,
}

impl BoundVarView {
    pub open spec fn shifted(self, amount: nat) -> BoundVarView {
        BoundVarView { depth: self.depth + amount, index: self.index }
    }
}

impl BoundVar {
    pub open spec fn view(&self) -> BoundVarView {
        BoundVarView { depth: self.debruijn.depth as nat, index: self.index as nat }
    }

    pub fn new(debruijn: DebruijnIndex, index: usize) -> (r: BoundVar)
        ensures
            r.debruijn == debruijn,
            r.index == index,
    {
        BoundVar { debruijn, index }
    }

    /// The variable seen from inside `outer_binder.depth` more binders.
    pub fn shifted_in_from(self, outer_binder: DebruijnIndex) -> (r: BoundVar)
        requires
            self.debruijn.depth + outer_binder.depth <= u32::MAX,
        ensures
            r@ == self@.shifted(outer_binder.depth as nat),
    {
        BoundVar::new(self.debruijn.shifted_in_from(outer_binder), self.index)
    }
}

/// The kind of a generic parameter, carrying a payload (a name, or `()`
/// once anonymized).
#[derive(Clone, Copy, Debug, PartialEq, Eq, Hash)]
pub enum ParameterKind<T> {
    Ty(T),
    Lifetime(T),
}

impl<T> ParameterKind<T> {
    /// The kind with its payload dropped.
    pub open spec fn anonymized(&self) -> ParameterKind<()> {
        match self {
            ParameterKind::Ty(_) => ParameterKind::Ty(()),
            ParameterKind::Lifetime(_) => ParameterKind::Lifetime(()),
        }
    }

    pub fn anonymize(&self) -> (r: ParameterKind<()>)
        ensures
            r == self.anonymized(),
    {
        match self {
            ParameterKind::Ty(_) => ParameterKind::Ty(()),
            ParameterKind::Lifetime(_) => ParameterKind::Lifetime(()),
        }
    }
}

/// The name of a type constructor applied to a substitution.
#[derive(Clone, Copy, Debug, PartialEq, Eq, Structural, Hash)]
pub enum TypeName {
    Struct(StructId),
    AssociatedType(AssocTypeId),
    Tuple(usize),
    Error,
}

/// An ordered list of generic arguments.
#[derive(Debug, PartialEq, Eq, Hash)]
pub struct Substitution {
    pub parameters: Vec<Parameter>,
}

/// An associated type applied to a substitution (a projection).
#[derive(Debug, PartialEq, Eq, Hash)]
pub struct AliasTy {
    pub associated_ty_id: AssocTypeId,
    pub substitution: Substitution,
}

/// A type constructor applied to a substitution.
#[derive(Debug, PartialEq, Eq, Hash)]
pub struct ApplicationTy {
    pub name: TypeName,
    pub substitution: Substitution,
}

#[derive(Debug, PartialEq, Eq, Hash)]
pub enum Ty {
    BoundVar(BoundVar),
    Placeholder(usize),
    Alias(AliasTy),
    Apply(ApplicationTy),
}

#[derive(Clone, Copy, Debug, PartialEq, Eq, Hash)]
pub enum Lifetime {
    BoundVar(BoundVar),
    Placeholder(usize),
}

/// A generic argument: a type or a lifetime.
#[derive(Debug, PartialEq, Eq, Hash)]
pub enum Parameter {
    Ty(Ty),
    Lifetime(Lifetime),
}

pub ghost enum TyView {
    BoundVar(BoundVarView),
    Placeholder(nat),
    Alias(AssocTypeId, Seq<ParameterView>),
    Apply(TypeName, Seq<ParameterView>),
}

pub ghost enum LifetimeView {
    BoundVar(BoundVarView),
    Placeholder(nat),
}

pub ghost enum ParameterView {
    Ty(TyView),
    Lifetime(LifetimeView),
}

/// Each parameter of `ps` shifted in by `amount` binders.
pub open spec fn shift_params(ps: Seq<ParameterView>, amount: nat) -> Seq<ParameterView>
    decreases ps,
{
    Seq::new(
        ps.len(),
        |i: int|
            if 0 <= i < ps.len() {
                ps[i].shifted(amount)
            } else {
                ParameterView::Lifetime(LifetimeView::Placeholder(0))
            },
    )
}

/// Every bound variable in `ps` has a depth of at most `limit`.
pub open spec fn params_depth_at_most(ps: Seq<ParameterView>, limit: nat) -> bool
    decreases ps,
{
    forall|i: int| 0 <= i < ps.len() ==> (#[trigger] ps[i]).depth_at_most(limit)
}

impl TyView {
    /// The type seen from inside `amount` more binders: every bound
    /// variable's depth grows by `amount`.
    pub open spec fn shifted(self, amount: nat) -> TyView
        decreases self,
    {
        match self {
            TyView::BoundVar(b) => TyView::BoundVar(b.shifted(amount)),
            TyView::Placeholder(p) => TyView::Placeholder(p),
            TyView::Alias(id, ps) => TyView::Alias(id, shift_params(ps, amount)),
            TyView::Apply(n, ps) => TyView::Apply(n, shift_params(ps, amount)),
        }
    }

    pub open spec fn depth_at_most(self, limit: nat) -> bool
        decreases self,
    {
        match self {
            TyView::BoundVar(b) => b.depth <= limit,
            TyView::Placeholder(_) => true,
            TyView::Alias(_, ps) => params_depth_at_most(ps, limit),
            TyView::Apply(_, ps) => params_depth_at_most(ps, limit),
        }
    }
}

impl LifetimeView {
    pub open spec fn shifted(self, amount: nat) -> LifetimeView {
        match self {
            LifetimeView::BoundVar(b) => LifetimeView::BoundVar(b.shifted(amount)),
            LifetimeView::Placeholder(p) => LifetimeView::Placeholder(p),
        }
    }

    pub open spec fn depth_at_most(self, limit: nat) -> bool {
        match self {
            LifetimeView::BoundVar(b) => b.depth <= limit,
            LifetimeView::Placeholder(_) => true,
        }
    }
}

impl ParameterView {
    pub open spec fn shifted(self, amount: nat) -> ParameterView
        decreases self,
    {
        match self {
            ParameterView::Ty(t) => ParameterView::Ty(t.shifted(amount)),
            ParameterView::Lifetime(l) => ParameterView::Lifetime(l.shifted(amount)),
        }
    }

    pub open spec fn depth_at_most(self, limit: nat) -> bool
        decreases self,
    {
        match self {
            ParameterView::Ty(t) => t.depth_at_most(limit),
            ParameterView::Lifetime(l) => l.depth_at_most(limit),
        }
    }
}

/// The view of each parameter of `ps`.
pub open spec fn params_view(ps: Seq<Parameter>) -> Seq<ParameterView>
    decreases ps,
{
    Seq::new(
        ps.len(),
        |i: int|
            if 0 <= i < ps.len() {
                ps[i].view()
            } else {
                ParameterView::Lifetime(LifetimeView::Placeholder(0))
            },
    )
}

impl Substitution {
    pub open spec fn view(&self) -> Seq<ParameterView> {
        params_view(self.parameters@)
    }
}

impl Ty {
    pub open spec fn view(&self) -> TyView
        decreases self,
    {
        match self {
            Ty::BoundVar(b) => TyView::BoundVar(b@),
            Ty::Placeholder(p) => TyView::Placeholder(*p as nat),
            Ty::Alias(a) => TyView::Alias(a.associated_ty_id, params_view(a.substitution.parameters@)),
            Ty::Apply(a) => TyView::Apply(a.name, params_view(a.substitution.parameters@)),
        }
    }
}

impl Lifetime {
    pub open spec fn view(&self) -> LifetimeView {
        match self {
            Lifetime::BoundVar(b) => LifetimeView::BoundVar(b@),
            Lifetime::Placeholder(p) => LifetimeView::Placeholder(*p as nat),
        }
    }
}

impl Parameter {
    pub open spec fn view(&self) -> ParameterView
        decreases self,
    {
        match self {
            Parameter::Ty(t) => ParameterView::Ty(t.view()),
            Parameter::Lifetime(l) => ParameterView::Lifetime(l@),
        }
    }
}

impl Lifetime {
    /// The lifetime seen from inside `outer_binder.depth` more binders.
    pub fn shifted_in_from(&self, outer_binder: DebruijnIndex) -> (r: Lifetime)
        requires
            self@.depth_at_most((u32::MAX - outer_binder.depth) as nat),
        ensures
            r@ == self@.shifted(outer_binder.depth as nat),
    {
        match self {
            Lifetime::BoundVar(b) => Lifetime::BoundVar(b.shifted_in_from(outer_binder)),
            Lifetime::Placeholder(p) => Lifetime::Placeholder(*p),
        }
    }
}

impl Parameter {
    /// The parameter seen from inside `outer_binder.depth` more binders.
    pub fn shifted_in_from(&self, outer_binder: DebruijnIndex) -> (r: Parameter)
        requires
            self@.depth_at_most((u32::MAX - outer_binder.depth) as nat),
        ensures
            r@ == self@.shifted(outer_binder.depth as nat),
        decreases self,
    {
        match self {
            Parameter::Ty(t) => Parameter::Ty(t.shifted_in_from(outer_binder)),
            Parameter::Lifetime(l) => Parameter::Lifetime(l.shifted_in_from(outer_binder)),
        }
    }

    /// A copy of this parameter.
    pub fn copied(&self) -> (r: Parameter)
        ensures
            r@ == self@,
    {
        proof {
            lemma_parameter_depth_bounded(self);
            lemma_parameter_shift_zero(self@);
        }
        self.shifted_in_from(DebruijnIndex::innermost())
    }
}

impl Substitution {
    pub fn from_parameters(parameters: Vec<Parameter>) -> (r: Substitution)
        ensures
            r.parameters@ == parameters@,
    {
        Substitution { parameters }
    }

    /// The substitution seen from inside `outer_binder.depth` more binders.
    pub fn shifted_in_from(&self, outer_binder: DebruijnIndex) -> (r: Substitution)
        requires
            params_depth_at_most(self@, (u32::MAX - outer_binder.depth) as nat),
        ensures
            r@ == shift_params(self@, outer_binder.depth as nat),
        decreases self,
    {
        let mut out: Vec<Parameter> = Vec::new();
        let mut i: usize = 0;
        while i < self.parameters.len()
            invariant
                i <= self.parameters@.len(),
                out@.len() == i,
                params_depth_at_most(self@, (u32::MAX - outer_binder.depth) as nat),
                forall|j: int| 0 <= j < i ==> (#[trigger] out@[j])@ == self.parameters@[j]@.shifted(outer_binder.depth as nat),
            decreases self.parameters@.len() - i,
        {
            assert(self@[i as int] == self.parameters@[i as int]@);
            let p = self.parameters[i].shifted_in_from(outer_binder);
            out.push(p);
            i = i + 1;
        }
        let r = Substitution { parameters: out };
        assert(r@ =~= shift_params(self@, outer_binder.depth as nat));
        r
    }

    /// A copy of this substitution.
    pub fn copied(&self) -> (r: Substitution)
        ensures
            r@ == self@,
    {
        proof {
            lemma_params_depth_bounded(self.parameters@);
            lemma_params_shift_zero(self@);
        }
        self.shifted_in_from(DebruijnIndex::innermost())
    }
}

impl Ty {
    /// The type seen from inside `outer_binder.depth` more binders.
    pub fn shifted_in_from(&self, outer_binder: DebruijnIndex) -> (r: Ty)
        requires
            self@.depth_at_most((u32::MAX - outer_binder.depth) as nat),
        ensures
            r@ == self@.shifted(outer_binder.depth as nat),
        decreases self,
    {
        match self {
            Ty::BoundVar(b) => Ty::BoundVar(b.shifted_in_from(outer_binder)),
            Ty::Placeholder(p) => Ty::Placeholder(*p),
            Ty::Alias(a) => Ty::Alias(
                AliasTy {
                    associated_ty_id: a.associated_ty_id,
                    substitution: a.substitution.shifted_in_from(outer_binder),
                },
            ),
            Ty::Apply(a) => Ty::Apply(
                ApplicationTy { name: a.name, substitution: a.substitution.shifted_in_from(outer_binder) },
            ),
        }
    }

    /// The type seen from inside one more binder.
    pub fn shifted_in(&self) -> (r: Ty)
        requires
            self@.depth_at_most((u32::MAX - 1) as nat),
        ensures
            r@ == self@.shifted(1),
    {
        self.shifted_in_from(DebruijnIndex::one())
    }

    /// A copy of this type.
    pub fn copied(&self) -> (r: Ty)
        ensures
            r@ == self@,
    {
        proof {
            lemma_ty_depth_bounded(self);
            lemma_ty_shift_zero(self@);
        }
        self.shifted_in_from(DebruijnIndex::innermost())
    }
}

/// A parameter of an executable term never holds a depth beyond `u32::MAX`.
pub proof fn lemma_params_depth_bounded(ps: Seq<Parameter>)
    ensures
        params_depth_at_most(params_view(ps), u32::MAX as nat),
    decreases ps,
{
    assert forall|i: int| 0 <= i < ps.len() implies #[trigger] params_view(ps)[i].depth_at_most(
        u32::MAX as nat,
    ) by {
        assert(params_view(ps)[i] == ps[i]@);
        lemma_parameter_depth_bounded(&ps[i]);
        assert(params_view(ps)[i].depth_at_most(u32::MAX as nat));
    }
    let pv = params_view(ps);
    assert(forall|i: int| 0 <= i < pv.len() ==> (#[trigger] pv[i]).depth_at_most(u32::MAX as nat));
}

pub proof fn lemma_parameter_depth_bounded(p: &Parameter)
    ensures
        p@.depth_at_most(u32::MAX as nat),
    decreases p,
{
    match p {
        Parameter::Ty(t) => lemma_ty_depth_bounded(t),
        Parameter::Lifetime(_) => {},
    }
}

pub proof fn lemma_ty_depth_bounded(t: &Ty)
    ensures
        t@.depth_at_most(u32::MAX as nat),
    decreases t,
{
    match t {
        Ty::Alias(a) => lemma_params_depth_bounded(a.substitution.parameters@),
        Ty::Apply(a) => lemma_params_depth_bounded(a.substitution.parameters@),
        _ => {},
    }
}

/// Shifting parameters by zero binders changes nothing.
pub proof fn lemma_params_shift_zero(ps: Seq<ParameterView>)
    ensures
        shift_params(ps, 0) == ps,
    decreases ps,
{
    assert forall|i: int| 0 <= i < ps.len() implies #[trigger] shift_params(ps, 0)[i] == ps[i] by {
        lemma_parameter_shift_zero(ps[i]);
    }
    assert(shift_params(ps, 0) =~= ps);
}

/// Shifting a parameter by zero binders changes nothing.
pub proof fn lemma_parameter_shift_zero(p: ParameterView)
    ensures
        p.shifted(0) == p,
    decreases p,
{
    match p {
        ParameterView::Ty(t) => lemma_ty_shift_zero(t),
        ParameterView::Lifetime(l) => {},
    }
}

/// Shifting a type by zero binders changes nothing.
pub proof fn lemma_ty_shift_zero(t: TyView)
    ensures
        t.shifted(0) == t,
    decreases t,
{
    match t {
        TyView::Alias(_, ps) => lemma_params_shift_zero(ps),
        TyView::Apply(_, ps) => lemma_params_shift_zero(ps),
        _ => {},
    }
}

/// Shifting parameters by `a` binders and then by `b` is shifting them once
/// by `a + b`.
pub proof fn lemma_params_shift_compose(ps: Seq<ParameterView>, a: nat, b: nat)
    ensures
        shift_params(shift_params(ps, a), b) == shift_params(ps, a + b),
    decreases ps,
{
    assert forall|i: int| 0 <= i < ps.len() implies #[trigger] shift_params(shift_params(ps, a), b)[i]
        == shift_params(ps, a + b)[i] by {
        lemma_parameter_shift_compose(ps[i], a, b);
    }
    assert(shift_params(shift_params(ps, a), b) =~= shift_params(ps, a + b));
}

/// Shifting a parameter by `a` binders and then by `b` is shifting it once
/// by `a + b`.
pub proof fn lemma_parameter_shift_compose(p: ParameterView, a: nat, b: nat)
    ensures
        p.shifted(a).shifted(b) == p.shifted(a + b),
    decreases p,
{
    match p {
        ParameterView::Ty(t) => lemma_ty_shift_compose(t, a, b),
        ParameterView::Lifetime(l) => {},
    }
}

/// Shifting a type by `a` binders and then by `b` is shifting it once by
/// `a + b`; the shift of an alias or an application is the shift of each of
/// its arguments.
pub proof fn lemma_ty_shift_compose(t: TyView, a: nat, b: nat)
    ensures
        t.shifted(a).shifted(b) == t.shifted(a + b),
    decreases t,
{
    match t {
        TyView::Alias(_, ps) => lemma_params_shift_compose(ps, a, b),
        TyView::Apply(_, ps) => lemma_params_shift_compose(ps, a, b),
        _ => {},
    }
}

/// Appends a copy of each parameter of `src` to `out`, in order.
pub fn push_copies(out: &mut Vec<Parameter>, src: &Vec<Parameter>)
    ensures
        params_view(final(out)@) == params_view(old(out)@) + params_view(src@),
{
    let ghost start = out@;
    let mut i: usize = 0;
    while i < src.len()
        invariant
            i <= src@.len(),
            out@.len() == start.len() + i,
            forall|j: int| 0 <= j < start.len() ==> (#[trigger] out@[j]) == start[j],
            forall|j: int| 0 <= j < i ==> (#[trigger] out@[start.len() + j])@ == src@[j]@,
        decreases src@.len() - i,
    {
        let p = src[i].copied();
        out.push(p);
        i = i + 1;
    }
    assert(params_view(out@) =~= params_view(start) + params_view(src@)) by {
        assert forall|j: int| 0 <= j < out@.len() implies params_view(out@)[j] == (params_view(start)
            + params_view(src@))[j] by {
            if j >= start.len() {
                assert(out@[start.len() + (j - start.len())] == out@[j]);
            }
        }
    }
}

impl Parameter {
    /// Whether every bound variable in the parameter has a depth of at most
    /// `limit`.
    pub fn depth_at_most(&self, limit: u32) -> (r: bool)
        ensures
            r == self@.depth_at_most(limit as nat),
        decreases self,
    {
        match self {
            Parameter::Ty(t) => t.depth_at_most(limit),
            Parameter::Lifetime(Lifetime::BoundVar(b)) => b.debruijn.depth <= limit,
            Parameter::Lifetime(Lifetime::Placeholder(_)) => true,
        }
    }
}

impl Substitution {
    /// Whether every bound variable in the substitution has a depth of at
    /// most `limit`.
    pub fn depth_at_most(&self, limit: u32) -> (r: bool)
        ensures
            r == params_depth_at_most(self@, limit as nat),
        decreases self,
    {
        let mut i: usize = 0;
        while i < self.parameters.len()
            invariant
                i <= self.parameters@.len(),
                forall|j: int| 0 <= j < i ==> (#[trigger] self@[j]).depth_at_most(limit as nat),
            decreases self.parameters@.len() - i,
        {
            assert(self@[i as int] == self.parameters@[i as int]@);
            if !self.parameters[i].depth_at_most(limit) {
                return false;
            }
            i = i + 1;
        }
        true
    }
}

impl Ty {
    /// Whether every bound variable in the type has a depth of at most
    /// `limit`.
    pub fn depth_at_most(&self, limit: u32) -> (r: bool)
        ensures
            r == self@.depth_at_most(limit as nat),
        decreases self,
    {
        match self {
            Ty::BoundVar(b) => b.debruijn.depth <= limit,
            Ty::Placeholder(_) => true,
            Ty::Alias(a) => a.substitution.depth_at_most(limit),
            Ty::Apply(a) => a.substitution.depth_at_most(limit),
        }
    }
}

} // verus!
