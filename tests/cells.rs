use auraed::cell::{Cell, CellSpec, CellState, CellsError, ClientConfig};
use auraed::cells::Cells;
use auraed::error::{Code, Field};
use auraed::names::CellName;

fn name(s: &str) -> CellName {
    CellName::validate(s.to_string(), Field::CellName).expect("valid name")
}

fn config(s: &str) -> ClientConfig {
    ClientConfig { socket: s.to_string() }
}

/// Runs an allocation through the registry the way the agent does: admit,
/// build, record.
fn allocate(cells: &mut Cells, n: &CellName, cgroup_exists: bool) -> Result<(), CellsError> {
    let mut cell = cells.allocate(n.clone(), CellSpec::new_for_tests(), cgroup_exists)?;
    cell.allocate(config("/var/run/aurae/cell.sock"))?;
    cells.insert(cell)
}

fn free(cells: &mut Cells, n: &CellName, cgroup_exists: bool) -> Result<(), CellsError> {
    cells.free(n, cgroup_exists)?;
    cells.complete_free(n, Ok(()))
}

#[test]
fn test_allocate() {
    let mut cells = Cells::default();
    assert!(cells.is_empty());
    let cell_name = name("ae-test-allocate");
    allocate(&mut cells, &cell_name, false).expect("allocate");
    assert!(cells.contains(&cell_name));
}

#[test]
fn test_duplicate_allocate_is_error() {
    let mut cells = Cells::default();
    assert!(cells.is_empty());
    let cell_name_in = name("ae-test-duplicate");
    allocate(&mut cells, &cell_name_in, false).expect("failed on first allocate");
    assert!(matches!(
        allocate(&mut cells, &cell_name_in, true),
        Err(CellsError::CellExists { cell_name }) if cell_name == cell_name_in
    ));
}

#[test]
fn test_get() {
    let mut cells = Cells::default();
    assert!(cells.is_empty());
    let cell_name = name("ae-test-get");
    allocate(&mut cells, &cell_name, false).expect("failed to allocate");
    cells.get(&cell_name, true).expect("failed to get");
}

#[test]
fn test_get_missing_errors() {
    let mut cells = Cells::default();
    assert!(cells.is_empty());
    let cell_name_in = name("ae-test-get-missing");
    assert!(matches!(
        cells.get(&cell_name_in, false),
        Err(CellsError::CellNotFound { cell_name }) if cell_name == cell_name_in
    ));
}

#[test]
fn test_free() {
    let mut cells = Cells::default();
    assert!(cells.is_empty());
    let cell_name = name("ae-test-free");
    allocate(&mut cells, &cell_name, false).expect("failed to allocate");
    free(&mut cells, &cell_name, true).expect("failed to free");
    assert!(cells.is_empty());
}

#[test]
fn test_free_missing_is_error() {
    let mut cells = Cells::default();
    assert!(cells.is_empty());
    let cell_name_in = name("ae-test-free-missing");
    assert!(matches!(
        cells.free(&cell_name_in, false),
        Err(CellsError::CellNotFound { cell_name }) if cell_name == cell_name_in
    ));
}

#[test]
fn allocate_free_round_trip_restores_registry() {
    let mut cells = Cells::default();
    let other = name("other");
    allocate(&mut cells, &other, false).unwrap();
    let alpha = name("alpha");
    allocate(&mut cells, &alpha, false).unwrap();
    assert!(cells.contains(&alpha));
    let got = cells.get(&alpha, true).unwrap();
    assert_eq!(got.name.as_str(), "alpha");
    assert_eq!(got.client_config().unwrap().socket, "/var/run/aurae/cell.sock");
    free(&mut cells, &alpha, true).unwrap();
    assert!(!cells.contains(&alpha));
    assert!(cells.contains(&other));
    assert_eq!(cells.names().len(), 1);
}

#[test]
fn duplicate_allocate_leaves_registry_unchanged() {
    let mut cells = Cells::default();
    let alpha = name("alpha");
    allocate(&mut cells, &alpha, false).unwrap();
    let err = cells.allocate(alpha.clone(), CellSpec::new_for_tests(), true).unwrap_err();
    assert_eq!(err.code(), Code::AlreadyExists);
    assert!(cells.contains(&alpha));
    assert_eq!(cells.names().len(), 1);
}

#[test]
fn foreign_cgroup_is_not_a_cell() {
    let mut cells = Cells::default();
    let beta = name("beta");
    let err = cells.allocate(beta.clone(), CellSpec::new_for_tests(), true).unwrap_err();
    assert!(matches!(&err, CellsError::CgroupIsNotACell { cell_name } if *cell_name == beta));
    assert_eq!(err.code(), Code::FailedPrecondition);
    assert!(cells.is_empty());
    assert!(matches!(cells.free(&beta, true), Err(CellsError::CgroupIsNotACell { .. })));
    assert!(matches!(cells.get(&beta, true), Err(CellsError::CgroupIsNotACell { .. })));
}

#[test]
fn stale_entry_is_evicted() {
    let mut cells = Cells::default();
    let alpha = name("alpha");
    allocate(&mut cells, &alpha, false).unwrap();
    let err = cells.free(&alpha, false).unwrap_err();
    assert!(matches!(err, CellsError::CgroupNotFound { .. }));
    assert_eq!(err.code(), Code::NotFound);
    assert!(cells.is_empty());
}

#[test]
fn stale_entry_is_replaced_on_allocate() {
    let mut cells = Cells::default();
    let alpha = name("alpha");
    allocate(&mut cells, &alpha, false).unwrap();
    let cell = cells.allocate(alpha.clone(), CellSpec::new_for_tests(), false).unwrap();
    assert!(matches!(cell.state, CellState::Unallocated));
    assert!(!cells.contains(&alpha));
}

#[test]
fn free_of_unknown_name_does_not_mutate() {
    let mut cells = Cells::default();
    let alpha = name("alpha");
    allocate(&mut cells, &alpha, false).unwrap();
    let ghost_name = name("gamma");
    assert!(matches!(cells.free(&ghost_name, false), Err(CellsError::CellNotFound { .. })));
    assert!(cells.contains(&alpha));
    assert_eq!(cells.names().len(), 1);
}

#[test]
fn failed_shutdown_keeps_entry_and_not_allocated_evicts() {
    let mut cells = Cells::default();
    let alpha = name("alpha");
    allocate(&mut cells, &alpha, false).unwrap();
    cells.free(&alpha, true).unwrap();
    let r = cells.complete_free(&alpha, Err(CellsError::CgroupCreateFailed { cell_name: alpha.clone() }));
    assert!(r.is_err());
    assert!(cells.contains(&alpha));
    let r = cells.complete_free(&alpha, Err(CellsError::CellNotAllocated { cell_name: alpha.clone() }));
    assert!(matches!(r, Err(CellsError::CellNotAllocated { .. })));
    assert!(cells.is_empty());
}

#[test]
fn insert_refuses_unallocated_or_taken() {
    let mut cells = Cells::default();
    let alpha = name("alpha");
    let cell = Cell::new(alpha.clone(), CellSpec::new_for_tests());
    assert!(matches!(cells.insert(cell), Err(CellsError::CellNotAllocated { .. })));
    allocate(&mut cells, &alpha, false).unwrap();
    let mut again = Cell::new(alpha.clone(), CellSpec::new_for_tests());
    again.allocate(config("x")).unwrap();
    assert!(matches!(cells.insert(again), Err(CellsError::CellExists { .. })));
}

#[test]
fn shutdown_broadcast_empties_registry() {
    let mut cells = Cells::default();
    for n in ["one", "two", "three"] {
        allocate(&mut cells, &name(n), false).unwrap();
    }
    assert_eq!(cells.names().len(), 3);
    // "two" fails to shut down gracefully
    cells.broadcast_free(&vec![name("one"), name("three")]);
    assert_eq!(cells.names().len(), 1);
    assert!(cells.contains(&name("two")));
    cells.broadcast_kill();
    assert!(cells.is_empty());
}

#[test]
fn cell_state_machine() {
    let mut cell = Cell::new(name("alpha"), CellSpec::new_for_tests());
    assert!(matches!(cell.client_config(), Err(CellsError::CellNotAllocated { .. })));
    assert!(matches!(cell.free(), Err(CellsError::CellNotAllocated { .. })));
    cell.allocate(config("/run/alpha.sock")).unwrap();
    assert!(matches!(cell.allocate(config("y")), Err(CellsError::CellExists { .. })));
    assert_eq!(cell.client_config().unwrap().socket, "/run/alpha.sock");
    cell.free().unwrap();
    assert!(matches!(cell.state, CellState::Freed));
    cell.free().unwrap();
    assert!(matches!(cell.allocate(config("z")), Err(CellsError::CellNotAllocated { .. })));
    let mut other = Cell::new(name("beta"), CellSpec::new_for_tests());
    other.allocate(config("b")).unwrap();
    other.kill();
    assert!(matches!(other.state, CellState::Freed));
}
