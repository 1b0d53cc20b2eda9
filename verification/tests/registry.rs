use school_registry::roster::{RosterStore, Student};
use school_registry::teacher::SingleValueStore;
use school_registry::{AppState, RegistryError};

#[test]
fn student_new_fills_fields() {
    let s = Student::new(7, "Claire", "Johnston", "C++");
    assert_eq!(s.id, 7);
    assert_eq!(s.firstname, "Claire");
    assert_eq!(s.lastname, "Johnston");
    assert_eq!(s.fav_language, "C++");
}

#[test]
fn roster_ids_gap_free_after_adds() {
    let mut roster = RosterStore::new();
    let names = ["Claire", "David", "Mark", "Ada", "Grace"];
    for (i, name) in names.iter().enumerate() {
        let s = roster.add(name, "Johnston", "Rust");
        assert_eq!(s.id as usize, i + 1);
    }
    let all = roster.list();
    assert_eq!(all.len(), names.len());
    for (i, s) in all.iter().enumerate() {
        assert_eq!(s.id as usize, i + 1);
        assert_eq!(s.firstname, names[i]);
    }
}

#[test]
fn find_returns_record_or_none() {
    let mut roster = RosterStore::new();
    roster.add("Claire", "Johnston", "C++");
    roster.add("David", "Johnston", "Java");
    roster.add("Mark", "Wong", "Rust");

    let found = roster.find(2).expect("id 2 is on the roster");
    assert_eq!(found.id, 2);
    assert_eq!(found.firstname, "David");
    assert_eq!(found.lastname, "Johnston");
    assert_eq!(found.fav_language, "Java");

    assert!(roster.find(0).is_none());
    assert!(roster.find(4).is_none());
}

#[test]
fn list_is_a_snapshot_copy() {
    let mut roster = RosterStore::new();
    roster.add("Claire", "Johnston", "C++");
    let snapshot = roster.list();
    roster.add("David", "Johnston", "Java");
    assert_eq!(snapshot.len(), 1);
    assert_eq!(roster.list().len(), 2);
}

#[test]
fn set_reports_previous_value() {
    let mut store = SingleValueStore::new(String::from("Mat")).expect("non-empty name");
    let prev_a = store.set(String::from("A")).expect("non-empty name");
    assert_eq!(prev_a, "Mat");
    assert_eq!(store.read(), "A");
    let prev_b = store.set(String::from("B")).expect("non-empty name");
    assert_eq!(prev_b, "A");
    assert_eq!(store.read(), "B");
}

#[test]
fn empty_teacher_name_rejected_and_value_unchanged() {
    let mut store = SingleValueStore::new(String::from("Louise")).expect("non-empty name");
    let err = store.set(String::new());
    assert_eq!(err, Err(RegistryError::InvalidArgument));
    assert_eq!(store.read(), "Louise");
}

#[test]
fn empty_initial_teacher_name_rejected() {
    assert!(matches!(
        SingleValueStore::new(String::new()),
        Err(RegistryError::InvalidArgument)
    ));
    assert!(matches!(
        AppState::new(String::new()),
        Err(RegistryError::InvalidArgument)
    ));
}

#[test]
fn app_state_finds_seeded_students() {
    let mut state = AppState::new(String::from("Louise")).expect("non-empty name");
    state.roster.add("Claire", "Johnston", "C++");
    state.roster.add("David", "Johnston", "Java");
    state.roster.add("Mark", "Wong", "Rust");

    let s = state.find_student(3).expect("id 3 is on the roster");
    assert_eq!(s.firstname, "Mark");
    assert_eq!(s.lastname, "Wong");
    assert_eq!(s.fav_language, "Rust");
    assert!(state.find_student(42).is_none());

    assert_eq!(state.teacher.read(), "Louise");
}
