//! The create-and-list flow against a simulated store: the inbound remedies
//! are decomposed into columns, the store's flat rows are rebuilt into one
//! aggregate, and the projection carries the quantity through unchanged.

use oathkeeper::{
    assemble_aggregates, decompose_remedies, project_oath, CreateOathModel, CreateRemedyModel,
    CreateUserSchema, OathRow, RemedyRow, Unit,
};

#[test]
fn user_rows_carry_their_plain_columns() {
    let user = CreateUserSchema {
        id: 1,
        first_name: String::from("Aisha"),
        last_name: None,
        date_of_birth: 11_000,
        created_at: 1_700_000_000,
    };
    assert_eq!(user.id, 1);
    assert_eq!(user.first_name, "Aisha");
    assert_eq!(user.last_name, None);
}

#[test]
fn created_oath_lists_with_its_rakah_remedy() {
    let t: i64 = 1_700_000_000;
    let request = CreateOathModel {
        target: String::from("Pray Fajr on time"),
        remedies: vec![CreateRemedyModel {
            condition: String::from("missed Fajr"),
            statement: String::from("pray 2 extra Rakah"),
            unit: Some(Unit::Rakah(2)),
        }],
        penalty: String::from("Donate $5"),
        starts_at: t,
        ends_at: t + 30 * 86_400,
        ends_at_alias: String::from("30 days"),
    };

    // The gateway decomposes the remedies into the four aligned columns the
    // bulk insert binds.
    let cols = decompose_remedies(&request.remedies);
    assert_eq!(cols.conditions, vec!["missed Fajr"]);
    assert_eq!(cols.statements, vec!["pray 2 extra Rakah"]);
    assert_eq!(cols.amounts, vec![Some(2)]);
    assert_eq!(cols.units, vec![Some(String::from("Rakah"))]);

    // The store commits one oath row and one remedy row per column index and
    // hands them back flat on the next list call.
    let stored_oath = OathRow {
        id: 1,
        target: request.target.clone(),
        penalty: request.penalty.clone(),
        created_at: t,
        starts_at: request.starts_at,
        ends_at: request.ends_at,
        ends_at_alias: request.ends_at_alias.clone(),
    };
    let stored_remedy = RemedyRow {
        id: 1,
        oath_id: 1,
        condition: cols.conditions[0].clone(),
        statement: cols.statements[0].clone(),
        n: cols.amounts[0],
        unit: cols.units[0].clone(),
        created_at: t,
    };

    let aggregates = assemble_aggregates(&vec![stored_oath], &vec![stored_remedy]).unwrap();
    assert_eq!(aggregates.len(), 1);
    let remedies = aggregates[0].remedies.as_ref().unwrap();
    assert_eq!(remedies.len(), 1);
    assert_eq!(remedies[0].unit, Some(String::from("Rakah")));
    assert_eq!(remedies[0].n, Some(2));
    assert_eq!(
        Unit::decode(remedies[0].unit.as_ref().unwrap(), remedies[0].n.unwrap()),
        Ok(Unit::Rakah(2))
    );

    // Projected for display one hour in, the oath is ongoing and the remedy
    // still carries its quantity.
    let view = project_oath(&aggregates[0], t + 3_600);
    assert!(view.is_ongoing);
    assert!(!view.is_expired);
    assert_eq!(view.target, "Pray Fajr on time");
    assert_eq!(view.penalty, "Donate $5");
    assert_eq!(view.ends_at_alias, "30 days");
    let shown = view.remedies.as_ref().unwrap();
    assert_eq!(shown.len(), 1);
    assert_eq!(shown[0].unit, Some(String::from("Rakah")));
    assert_eq!(shown[0].n, Some(2));
    assert_eq!(view.remaining.h, 1);
    assert_eq!(view.remaining.d, 0);
}

#[test]
fn empty_remedy_list_is_accepted_and_kept_empty() {
    // Policy: an oath created with no remedies is valid and appears in list
    // results with an empty remedy collection.
    let remedies: Vec<CreateRemedyModel> = vec![];
    let cols = decompose_remedies(&remedies);
    assert!(cols.conditions.is_empty());

    let stored_oath = OathRow {
        id: 2,
        target: String::from("Sleep early"),
        penalty: String::from("No coffee"),
        created_at: 0,
        starts_at: 0,
        ends_at: 10,
        ends_at_alias: String::from("soon"),
    };
    let aggregates = assemble_aggregates(&vec![stored_oath], &vec![]).unwrap();
    assert_eq!(aggregates.len(), 1);
    assert_eq!(aggregates[0].remedies.as_ref().unwrap().len(), 0);
}
