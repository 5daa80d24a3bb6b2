use oathkeeper::{
    assemble_aggregates, decompose_remedies, group_rows, reassemble_remedies, CreateRemedyModel,
    DataFault, OathRow, ReassemblyError, RemedyColumns, RemedyRow, Unit,
};

fn remedy(condition: &str, statement: &str, unit: Option<Unit>) -> CreateRemedyModel {
    CreateRemedyModel {
        condition: String::from(condition),
        statement: String::from(statement),
        unit,
    }
}

fn assert_models_equal(a: &CreateRemedyModel, b: &CreateRemedyModel) {
    assert_eq!(a.condition, b.condition);
    assert_eq!(a.statement, b.statement);
    assert_eq!(a.unit, b.unit);
}

#[test]
fn decompose_empty_list() {
    let cols = decompose_remedies(&vec![]);
    assert!(cols.conditions.is_empty());
    assert!(cols.statements.is_empty());
    assert!(cols.amounts.is_empty());
    assert!(cols.units.is_empty());
}

#[test]
fn decompose_aligns_quantity_columns() {
    let remedies = vec![
        remedy("missed Fajr", "pray 2 extra Rakah", Some(Unit::Rakah(2))),
        remedy("skipped workout", "walk", None),
        remedy("overspent", "donate", Some(Unit::Taka(-100))),
    ];
    let cols = decompose_remedies(&remedies);
    assert_eq!(cols.conditions, vec!["missed Fajr", "skipped workout", "overspent"]);
    assert_eq!(cols.statements, vec!["pray 2 extra Rakah", "walk", "donate"]);
    assert_eq!(cols.amounts, vec![Some(2), None, Some(-100)]);
    assert_eq!(
        cols.units,
        vec![Some(String::from("Rakah")), None, Some(String::from("Taka"))]
    );
}

#[test]
fn round_trip_zero_one_many() {
    let cases: Vec<Vec<CreateRemedyModel>> = vec![
        vec![],
        vec![remedy("late", "read", Some(Unit::Minutes(30)))],
        vec![
            remedy("a", "b", Some(Unit::Times(1))),
            remedy("c", "d", None),
            remedy("e", "f", Some(Unit::Hours(0))),
            remedy("g", "h", Some(Unit::Days(-7))),
        ],
    ];
    for remedies in cases {
        let cols = decompose_remedies(&remedies);
        let out = reassemble_remedies(&cols).expect("decomposed columns must reassemble");
        assert_eq!(out.len(), remedies.len());
        for (a, b) in out.iter().zip(remedies.iter()) {
            assert_models_equal(a, b);
        }
    }
}

#[test]
fn reassemble_rejects_misaligned_columns() {
    let cols = RemedyColumns {
        conditions: vec![String::from("a")],
        statements: vec![],
        amounts: vec![Some(1)],
        units: vec![Some(String::from("Times"))],
    };
    assert!(matches!(
        reassemble_remedies(&cols),
        Err(ReassemblyError::MisalignedColumns)
    ));
}

#[test]
fn reassemble_rejects_half_present_quantity() {
    let amount_only = RemedyColumns {
        conditions: vec![String::from("a")],
        statements: vec![String::from("b")],
        amounts: vec![Some(1)],
        units: vec![None],
    };
    assert!(matches!(
        reassemble_remedies(&amount_only),
        Err(ReassemblyError::InconsistentQuantity)
    ));
    let unit_only = RemedyColumns {
        conditions: vec![String::from("a")],
        statements: vec![String::from("b")],
        amounts: vec![None],
        units: vec![Some(String::from("Times"))],
    };
    assert!(matches!(
        reassemble_remedies(&unit_only),
        Err(ReassemblyError::InconsistentQuantity)
    ));
}

#[test]
fn reassemble_rejects_unknown_unit_name() {
    let cols = RemedyColumns {
        conditions: vec![String::from("a")],
        statements: vec![String::from("b")],
        amounts: vec![Some(1)],
        units: vec![Some(String::from("Weeks"))],
    };
    assert!(matches!(
        reassemble_remedies(&cols),
        Err(ReassemblyError::UnknownUnit)
    ));
}

fn oath_row(id: i32, target: &str) -> OathRow {
    OathRow {
        id,
        target: String::from(target),
        penalty: String::from("penalty"),
        created_at: 1_000,
        starts_at: 2_000,
        ends_at: 3_000,
        ends_at_alias: String::from("soon"),
    }
}

fn remedy_row(id: i32, oath_id: i32, condition: &str) -> RemedyRow {
    RemedyRow {
        id,
        oath_id,
        condition: String::from(condition),
        statement: String::from("do it"),
        n: Some(2),
        unit: Some(String::from("Rakah")),
        created_at: 1_000,
    }
}

#[test]
fn grouping_attributes_rows_to_their_oath_in_order() {
    let oaths = vec![oath_row(1, "first"), oath_row(2, "second")];
    let rows = vec![
        remedy_row(10, 2, "x"),
        remedy_row(11, 1, "y"),
        remedy_row(12, 2, "z"),
    ];
    let aggregates = group_rows(&oaths, &rows);
    assert_eq!(aggregates.len(), 2);
    let first = aggregates[0].remedies.as_ref().unwrap();
    assert_eq!(first.len(), 1);
    assert_eq!(first[0].id, 11);
    assert_eq!(first[0].condition, "y");
    let second = aggregates[1].remedies.as_ref().unwrap();
    assert_eq!(second.len(), 2);
    assert_eq!(second[0].id, 10);
    assert_eq!(second[1].id, 12);
    assert_eq!(aggregates[0].target, "first");
    assert_eq!(aggregates[0].penalty, "penalty");
    assert_eq!(aggregates[0].ends_at_alias, "soon");
}

#[test]
fn childless_oath_keeps_an_empty_remedy_collection() {
    let oaths = vec![oath_row(5, "lonely")];
    let aggregates = group_rows(&oaths, &vec![]);
    assert_eq!(aggregates.len(), 1);
    assert_eq!(aggregates[0].remedies.as_ref().unwrap().len(), 0);
}

#[test]
fn assembling_rejects_inconsistent_stored_quantity() {
    let oaths = vec![oath_row(1, "first")];
    let mut bad = remedy_row(10, 1, "x");
    bad.unit = None;
    assert!(matches!(
        assemble_aggregates(&oaths, &vec![bad]),
        Err(DataFault::InconsistentQuantity)
    ));
}

#[test]
fn assembling_accepts_consistent_rows() {
    let oaths = vec![oath_row(1, "first")];
    let mut absent = remedy_row(10, 1, "x");
    absent.n = None;
    absent.unit = None;
    let rows = vec![remedy_row(9, 1, "w"), absent];
    let aggregates = assemble_aggregates(&oaths, &rows).unwrap();
    let remedies = aggregates[0].remedies.as_ref().unwrap();
    assert_eq!(remedies.len(), 2);
    assert_eq!(remedies[0].unit, Some(String::from("Rakah")));
    assert_eq!(remedies[1].unit, None);
    assert_eq!(remedies[1].n, None);
}
