use chalk_rust_ir::{
    AliasEqBound, AliasTy, ApplicationTy, AssocTypeId, Binders, BoundVar, DebruijnIndex,
    InlineBound, IntoWhereClauses, Lifetime, Parameter, ParameterKind, StructId, Substitution,
    TraitBound, TraitId, TraitRef, Ty, TypeName, WhereClause,
};

fn bound_ty(depth: u32, index: usize) -> Ty {
    Ty::BoundVar(BoundVar::new(DebruijnIndex::new(depth), index))
}

fn struct_ty(id: u32, params: Vec<Parameter>) -> Ty {
    Ty::Apply(ApplicationTy {
        name: TypeName::Struct(StructId(id)),
        substitution: Substitution::from_parameters(params),
    })
}

#[test]
fn trait_bound_lowers_to_one_clause_with_self_first() {
    let bound = TraitBound {
        trait_id: TraitId(7),
        args_no_self: vec![Parameter::Ty(struct_ty(1, vec![]))],
    };
    let self_ty = struct_ty(2, vec![]);
    let clauses = bound.into_where_clauses(self_ty);
    assert_eq!(clauses.len(), 1);
    assert_eq!(
        clauses[0],
        WhereClause::Implemented(TraitRef {
            trait_id: TraitId(7),
            substitution: Substitution::from_parameters(vec![
                Parameter::Ty(struct_ty(2, vec![])),
                Parameter::Ty(struct_ty(1, vec![])),
            ]),
        })
    );
}

#[test]
fn as_trait_ref_prepends_self() {
    let bound = TraitBound {
        trait_id: TraitId(3),
        args_no_self: vec![
            Parameter::Lifetime(Lifetime::Placeholder(4)),
            Parameter::Ty(bound_ty(0, 1)),
        ],
    };
    let trait_ref = bound.as_trait_ref(bound_ty(1, 0));
    assert_eq!(trait_ref.trait_id, TraitId(3));
    assert_eq!(
        trait_ref.substitution.parameters,
        vec![
            Parameter::Ty(bound_ty(1, 0)),
            Parameter::Lifetime(Lifetime::Placeholder(4)),
            Parameter::Ty(bound_ty(0, 1)),
        ]
    );
}

#[test]
fn alias_eq_bound_lowers_to_two_ordered_clauses() {
    let bound = AliasEqBound {
        trait_bound: TraitBound { trait_id: TraitId(5), args_no_self: vec![] },
        associated_ty_id: AssocTypeId(9),
        parameters: vec![Parameter::Ty(struct_ty(11, vec![]))],
        value: struct_ty(12, vec![]),
    };
    let x = struct_ty(10, vec![]);
    let clauses = bound.into_where_clauses(x);
    assert_eq!(
        clauses,
        vec![
            WhereClause::Implemented(TraitRef {
                trait_id: TraitId(5),
                substitution: Substitution::from_parameters(vec![Parameter::Ty(struct_ty(10, vec![]))]),
            }),
            WhereClause::AliasEq(chalk_rust_ir::AliasEq {
                alias: AliasTy {
                    associated_ty_id: AssocTypeId(9),
                    substitution: Substitution::from_parameters(vec![
                        Parameter::Ty(struct_ty(11, vec![])),
                        Parameter::Ty(struct_ty(10, vec![])),
                    ]),
                },
                ty: struct_ty(12, vec![]),
            }),
        ]
    );
}

#[test]
fn inline_bound_dispatches_on_its_variant() {
    let bound = InlineBound::TraitBound(TraitBound { trait_id: TraitId(1), args_no_self: vec![] });
    let clauses = bound.into_where_clauses(struct_ty(2, vec![]));
    assert_eq!(clauses.len(), 1);
    assert!(matches!(&clauses[0], WhereClause::Implemented(t) if t.trait_id == TraitId(1)));
}

#[test]
fn quantified_bound_shifts_self_in_by_one() {
    let bound = Binders {
        binders: vec![ParameterKind::Ty(())],
        value: InlineBound::TraitBound(TraitBound {
            trait_id: TraitId(8),
            args_no_self: vec![Parameter::Ty(bound_ty(0, 0))],
        }),
    };
    // `self_ty` refers to parameter 2 of the scope outside the bound.
    let clauses = bound.into_where_clauses(bound_ty(0, 2));
    assert_eq!(clauses.len(), 1);
    assert_eq!(clauses[0].binders, vec![ParameterKind::Ty(())]);
    assert_eq!(
        clauses[0].value,
        WhereClause::Implemented(TraitRef {
            trait_id: TraitId(8),
            substitution: Substitution::from_parameters(vec![
                Parameter::Ty(bound_ty(1, 2)),
                Parameter::Ty(bound_ty(0, 0)),
            ]),
        })
    );
}

#[test]
fn quantified_alias_eq_bound_keeps_order_and_shape() {
    let bound = Binders {
        binders: vec![ParameterKind::Lifetime(()), ParameterKind::Ty(())],
        value: InlineBound::AliasEqBound(AliasEqBound {
            trait_bound: TraitBound { trait_id: TraitId(2), args_no_self: vec![] },
            associated_ty_id: AssocTypeId(3),
            parameters: vec![],
            value: bound_ty(0, 1),
        }),
    };
    let clauses = bound.into_where_clauses(struct_ty(4, vec![Parameter::Ty(bound_ty(0, 0))]));
    assert_eq!(clauses.len(), 2);
    for c in &clauses {
        assert_eq!(c.binders, vec![ParameterKind::Lifetime(()), ParameterKind::Ty(())]);
    }
    let shifted_self = Parameter::Ty(struct_ty(4, vec![Parameter::Ty(bound_ty(1, 0))]));
    assert!(matches!(&clauses[0].value, WhereClause::Implemented(t)
        if t.substitution.parameters == vec![shifted_self.copied()]));
    assert!(matches!(&clauses[1].value, WhereClause::AliasEq(a)
        if a.alias.substitution.parameters == vec![shifted_self.copied()] && a.ty == bound_ty(0, 1)));
}
