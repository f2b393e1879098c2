use sequencer::catalog::{Catalog, CatalogEntry, SystemConfig};
use sequencer::error::AdapterError;
use sequencer::finishing::{clone_row, exceeds_result_size, finish_returning};
use sequencer::fixed_length::{FromRowByTypes, IntoRowByTypes};
use sequencer::names::NameMap;
use sequencer::repr::{
    datum_size, row_size, ColumnDesc, ColumnType, GlobalId, NotNullViolation, RelationDesc, Row,
};

#[test]
fn null_takes_one_byte_and_a_value_nine() {
    assert_eq!(datum_size(&None), 1);
    assert_eq!(datum_size(&Some(-4)), 9);
    assert_eq!(row_size(&vec![]), Some(0));
    assert_eq!(row_size(&vec![Some(1), None, Some(2)]), Some(19));
}

#[test]
fn only_null_in_a_column_that_refuses_it_breaks_a_constraint() {
    let desc = RelationDesc {
        columns: vec![
            ColumnDesc { name: "a".to_string(), typ: ColumnType { nullable: true } },
            ColumnDesc { name: "b".to_string(), typ: ColumnType { nullable: false } },
        ],
    };
    assert_eq!(desc.arity(), 2);
    assert_eq!(desc.constraints_met(0, &None), Ok(()));
    assert_eq!(desc.constraints_met(0, &Some(1)), Ok(()));
    assert_eq!(desc.constraints_met(1, &Some(1)), Ok(()));
    assert_eq!(desc.constraints_met(1, &None), Err(NotNullViolation { column: "b".to_string() }));
}

#[test]
fn rows_are_repeated_in_order() {
    let returning = vec![(vec![Some(1)], 2), (vec![None], 0), (vec![Some(3)], 1)];
    assert_eq!(finish_returning(returning, 27), Ok(vec![vec![Some(1)], vec![Some(1)], vec![Some(3)]]));
}

#[test]
fn result_size_is_the_sum_over_the_repeated_rows() {
    let returning = vec![(vec![Some(1)], 2), (vec![None], 3)];
    // 2 * 9 + 3 * 1 = 21
    assert!(!exceeds_result_size(&returning, 21));
    assert!(exceeds_result_size(&returning, 20));
    assert_eq!(finish_returning(returning, 20), Err(AdapterError::ResultSize(20)));
    assert!(exceeds_result_size(&vec![(vec![None], usize::MAX)], u32::MAX));
    assert!(!exceeds_result_size(&vec![(vec![], usize::MAX)], 0));
    assert!(!exceeds_result_size(&Vec::new(), 0));
}

#[test]
fn a_copy_of_a_row_is_the_row() {
    let row: Row = vec![Some(7), None];
    assert_eq!(clone_row(&row), row);
}

#[test]
fn first_entry_of_an_identifier_counts() {
    let catalog = Catalog {
        entries: vec![
            CatalogEntry { id: GlobalId::System(1), desc: None },
            CatalogEntry { id: GlobalId::User(1), desc: Some(RelationDesc { columns: vec![] }) },
            CatalogEntry { id: GlobalId::User(1), desc: None },
        ],
        system_config: SystemConfig {
            max_result_size: 1,
            enable_rbac_checks: false,
            enable_ld_rbac_checks: false,
        },
        transient_revision: 3,
    };
    assert!(catalog.try_get_entry(&GlobalId::User(1)).unwrap().desc.is_some());
    assert!(catalog.try_get_entry(&GlobalId::System(1)).unwrap().desc().is_err());
    assert!(catalog.try_get_entry(&GlobalId::Transient(1)).is_none());
    assert!(catalog.try_get_entry(&GlobalId::Explain).is_none());
    assert_eq!(catalog.transient_revision(), 3);
    assert_eq!(catalog.system_config().max_result_size, 1);
}

#[test]
fn a_row_is_read_without_a_schema() {
    let row: Row = vec![Some(1), None];
    assert_eq!((&row).into_datum_iter(None), vec![Some(1), None]);
    let no_columns: [ColumnType; 0] = [];
    assert_eq!((&()).into_datum_iter(Some(&no_columns)), Vec::new());
}

#[test]
fn a_row_is_made_of_datums_and_the_buffer_holds_them() {
    let mut buffer: Row = vec![Some(9), Some(9), Some(9)];
    let made = buffer.from_datum_iter(&[Some(1), None], None);
    assert_eq!(made, vec![Some(1), None]);
    assert_eq!(buffer, vec![Some(1), None]);
    let made = buffer.from_row(vec![Some(5)], None);
    assert_eq!(made, vec![Some(5)]);
    assert_eq!(buffer, vec![Some(1), None]);
}

#[test]
fn making_a_row_stops_at_the_first_error() {
    let mut buffer: Row = vec![Some(9)];
    let items: Vec<Result<Option<i64>, String>> =
        vec![Ok(Some(1)), Ok(None), Err("first".to_string()), Ok(Some(2)), Err("second".to_string())];
    assert_eq!(buffer.try_from_datum_iter(items, None), Err("first".to_string()));
    assert_eq!(buffer, vec![Some(1), None]);
    let items: Vec<Result<Option<i64>, String>> = vec![Ok(Some(1)), Ok(Some(2))];
    assert_eq!(buffer.try_from_datum_iter(items, None), Ok(vec![Some(1), Some(2)]));
    assert_eq!(buffer, vec![Some(1), Some(2)]);
}

#[test]
fn unit_is_made_of_no_datums() {
    let no_columns: [ColumnType; 0] = [];
    let mut unit = ();
    unit.from_row(Vec::new(), Some(&no_columns));
    unit.from_datum_iter(&[], Some(&no_columns));
    let none: Vec<Result<Option<i64>, String>> = Vec::new();
    assert_eq!(unit.try_from_datum_iter(none, Some(&no_columns)), Ok(()));
    let failing: Vec<Result<Option<i64>, String>> = vec![Err("e".to_string())];
    assert_eq!(unit.try_from_datum_iter(failing, Some(&no_columns)), Err("e".to_string()));
}

#[test]
fn every_name_occurs_once() {
    let mut map: NameMap<u32> = NameMap::new();
    assert_eq!(map.len(), 0);
    map.insert("a".to_string(), 1);
    map.insert("b".to_string(), 2);
    map.insert("a".to_string(), 3);
    assert_eq!(map.len(), 2);
    assert_eq!(map.get(&"a".to_string()), Some(&3));
    assert!(map.contains(&"b".to_string()));
    assert_eq!(map.remove(&"b".to_string()), Some(2));
    assert_eq!(map.remove(&"b".to_string()), None);
    assert!(!map.contains(&"b".to_string()));
    map.clear();
    assert_eq!(map.len(), 0);
    assert_eq!(map.get(&"a".to_string()), None);
}
