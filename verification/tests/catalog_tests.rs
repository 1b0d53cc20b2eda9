use school_registry::catalog::{classrooms_from_rows, Classroom, ReferenceCatalog};
use school_registry::RegistryError;

fn seeded_rooms() -> Vec<Classroom> {
    vec![
        Classroom { name: String::from("5VR"), capacity: 35 },
        Classroom { name: String::from("2GK"), capacity: 38 },
    ]
}

#[test]
fn seed_then_list_returns_exactly_the_seeded_records() {
    let catalog = ReferenceCatalog::open_in_memory(2, 500).expect("pool opens");
    let inserted = catalog.seed(&seeded_rooms()).expect("seeding succeeds");
    assert_eq!(inserted, 2);

    let rooms = catalog.list_classrooms().expect("listing succeeds");
    assert_eq!(rooms.len(), 2);
    assert_eq!(rooms[0].name, "5VR");
    assert_eq!(rooms[0].capacity, 35);
    assert_eq!(rooms[1].name, "2GK");
    assert_eq!(rooms[1].capacity, 38);
}

#[test]
fn listing_an_unseeded_catalog_is_data_corruption() {
    let catalog = ReferenceCatalog::open_in_memory(1, 500).expect("pool opens");
    assert!(matches!(
        catalog.list_classrooms(),
        Err(RegistryError::DataCorruption)
    ));
}

#[test]
fn seeding_twice_is_data_corruption() {
    let catalog = ReferenceCatalog::open_in_memory(1, 500).expect("pool opens");
    catalog.seed(&seeded_rooms()).expect("first seeding succeeds");
    let again = catalog.seed(&seeded_rooms());
    assert!(matches!(again, Err(RegistryError::DataCorruption)));
}

#[test]
fn exhausted_pool_fails_within_the_timeout_instead_of_hanging() {
    let catalog = ReferenceCatalog::open_in_memory(1, 200).expect("pool opens");
    catalog.seed(&seeded_rooms()).expect("seeding succeeds");

    let lease = catalog.checkout().expect("the one connection checks out");
    let started = std::time::Instant::now();
    let starved = catalog.list_classrooms();
    let waited = started.elapsed();
    assert!(matches!(starved, Err(RegistryError::ResourceExhausted)));
    assert!(waited < std::time::Duration::from_secs(10));

    drop(lease);
    let rooms = catalog.list_classrooms().expect("listing succeeds once released");
    assert_eq!(rooms.len(), 2);
}

#[test]
fn rows_map_to_classrooms_in_order() {
    let rows = vec![(String::from("5VR"), 35u32), (String::from("2GK"), 38u32)];
    let rooms = classrooms_from_rows(rows);
    assert_eq!(rooms.len(), 2);
    assert_eq!(rooms[0].name, "5VR");
    assert_eq!(rooms[0].capacity, 35);
    assert_eq!(rooms[1].name, "2GK");
    assert_eq!(rooms[1].capacity, 38);
}

#[test]
fn seed_reports_one_insert_per_record() {
    let catalog = ReferenceCatalog::open_in_memory(1, 500).expect("pool opens");
    let inserted = catalog.seed(&Vec::new()).expect("empty seeding succeeds");
    assert_eq!(inserted, 0);
    let rooms = catalog.list_classrooms().expect("listing succeeds");
    assert!(rooms.is_empty());
}
