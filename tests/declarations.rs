use chalk_rust_ir::{
    AliasEqBound, AliasTy, AssocTypeId, AssociatedTyDatum, AssociatedTyDatumBound, Binders,
    BoundVar, DebruijnIndex, ImplDatum, ImplDatumBound, ImplType, InlineBound, Lifetime, Parameter,
    ParameterKind, Polarity, StructDatum, StructDatumBound, StructFlags, StructId, Substitution,
    TraitBound, TraitDatum, TraitDatumBound, TraitFlags, TraitId, TraitRef, Ty, TypeName,
    WellKnownTrait, WhereClause,
};

fn impl_datum(polarity: Polarity) -> ImplDatum {
    ImplDatum {
        polarity,
        binders: Binders {
            binders: vec![],
            value: ImplDatumBound {
                trait_ref: TraitRef {
                    trait_id: TraitId(42),
                    substitution: Substitution::from_parameters(vec![]),
                },
                where_clauses: vec![],
            },
        },
        impl_type: ImplType::Local,
        associated_ty_value_ids: vec![],
    }
}

#[test]
fn polarity_is_positive() {
    assert!(Polarity::Positive.is_positive());
    assert!(!Polarity::Negative.is_positive());
}

#[test]
fn impl_datum_polarity_and_trait() {
    assert!(impl_datum(Polarity::Positive).is_positive());
    assert!(!impl_datum(Polarity::Negative).is_positive());
    assert_eq!(impl_datum(Polarity::Negative).trait_id(), TraitId(42));
}

#[test]
fn struct_name_round_trip() {
    for id in [0u32, 1, 77, u32::MAX] {
        let datum = StructDatum {
            binders: Binders {
                binders: vec![ParameterKind::Ty(())],
                value: StructDatumBound { fields: vec![], where_clauses: vec![] },
            },
            id: StructId(id),
            flags: StructFlags { upstream: false, fundamental: true },
        };
        assert_eq!(datum.name(), TypeName::Struct(StructId(id)));
    }
}

fn trait_datum(flags: TraitFlags) -> TraitDatum {
    TraitDatum {
        id: TraitId(1),
        binders: Binders { binders: vec![], value: TraitDatumBound { where_clauses: vec![] } },
        flags,
        associated_ty_ids: vec![AssocTypeId(2)],
        well_known: Some(WellKnownTrait::SizedTrait),
    }
}

#[test]
fn trait_flag_queries() {
    let none = TraitFlags {
        auto: false,
        marker: false,
        upstream: false,
        fundamental: false,
        non_enumerable: false,
        coinductive: false,
    };
    let t = trait_datum(none);
    assert!(!t.is_auto_trait() && !t.is_non_enumerable_trait() && !t.is_coinductive_trait());
    let t = trait_datum(TraitFlags { auto: true, ..none });
    assert!(t.is_auto_trait() && !t.is_non_enumerable_trait() && !t.is_coinductive_trait());
    let t = trait_datum(TraitFlags { non_enumerable: true, ..none });
    assert!(!t.is_auto_trait() && t.is_non_enumerable_trait() && !t.is_coinductive_trait());
    let t = trait_datum(TraitFlags { coinductive: true, ..none });
    assert!(!t.is_auto_trait() && !t.is_non_enumerable_trait() && t.is_coinductive_trait());
}

fn assoc_datum(bounds: Vec<Binders<InlineBound>>) -> AssociatedTyDatum {
    AssociatedTyDatum {
        trait_id: TraitId(1),
        id: AssocTypeId(5),
        name: String::from("Item"),
        binders: Binders {
            binders: vec![ParameterKind::Lifetime(()), ParameterKind::Ty(())],
            value: AssociatedTyDatumBound { bounds, where_clauses: vec![] },
        },
    }
}

fn projection_at(depth: u32) -> Ty {
    Ty::Alias(AliasTy {
        associated_ty_id: AssocTypeId(5),
        substitution: Substitution::from_parameters(vec![
            Parameter::Lifetime(Lifetime::BoundVar(BoundVar::new(DebruijnIndex::new(depth), 0))),
            Parameter::Ty(Ty::BoundVar(BoundVar::new(DebruijnIndex::new(depth), 1))),
        ]),
    })
}

#[test]
fn bounds_on_self_of_no_bounds_is_empty() {
    assert!(assoc_datum(vec![]).bounds_on_self().is_empty());
}

#[test]
fn bounds_on_self_applies_each_bound_to_the_projection() {
    let sized = Binders {
        binders: vec![],
        value: InlineBound::TraitBound(TraitBound { trait_id: TraitId(3), args_no_self: vec![] }),
    };
    let eq = Binders {
        binders: vec![ParameterKind::Ty(())],
        value: InlineBound::AliasEqBound(AliasEqBound {
            trait_bound: TraitBound { trait_id: TraitId(4), args_no_self: vec![] },
            associated_ty_id: AssocTypeId(6),
            parameters: vec![],
            value: Ty::BoundVar(BoundVar::new(DebruijnIndex::new(0), 0)),
        }),
    };
    let clauses = assoc_datum(vec![sized, eq]).bounds_on_self();
    assert_eq!(clauses.len(), 3);
    assert!(clauses[0].binders.is_empty());
    assert_eq!(
        clauses[0].value,
        WhereClause::Implemented(TraitRef {
            trait_id: TraitId(3),
            substitution: Substitution::from_parameters(vec![Parameter::Ty(projection_at(1))]),
        })
    );
    assert_eq!(clauses[1].binders, vec![ParameterKind::Ty(())]);
    assert!(matches!(&clauses[1].value, WhereClause::Implemented(t) if t.trait_id == TraitId(4)
        && t.substitution.parameters == vec![Parameter::Ty(projection_at(1))]));
    assert!(matches!(&clauses[2].value, WhereClause::AliasEq(a)
        if a.alias.associated_ty_id == AssocTypeId(6)
        && a.alias.substitution.parameters == vec![Parameter::Ty(projection_at(1))]));
}
