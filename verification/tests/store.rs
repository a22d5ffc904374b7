use candid::Principal;
use icplaunchpad_backend::project::LaunchpadProject;
use icplaunchpad_backend::store::ProjectStore;

fn alice() -> Principal {
    Principal::from_slice(&[1, 2, 3])
}

fn bob() -> Principal {
    Principal::from_slice(&[9, 9])
}

fn sample(id: u64) -> LaunchpadProject {
    LaunchpadProject::new(
        id,
        "Moon Token".to_string(),
        "MOON".to_string(),
        "To the moon".to_string(),
        1_000_000,
        1000,
        alice(),
    )
}

#[test]
fn new_store_is_empty() {
    let store = ProjectStore::new();
    assert_eq!(store.next_id(), 0);
    assert!(store.get(0).is_none());
    assert!(store.list().is_empty());
}

#[test]
fn new_project_has_no_funding_and_no_launch() {
    let project = sample(5);
    assert_eq!(project.id, 5);
    assert_eq!(project.name, "Moon Token");
    assert_eq!(project.symbol, "MOON");
    assert_eq!(project.description, "To the moon");
    assert_eq!(project.total_supply, 1_000_000);
    assert_eq!(project.target_funding, 1000);
    assert_eq!(project.current_funding, 0);
    assert_eq!(project.creator, alice());
    assert_eq!(project.token_canister_id, None);
    assert_eq!(project.kong_pool_id, None);
    assert!(!project.is_launched);
    assert_eq!(project.launch_timestamp, 0);
}

#[test]
fn allocate_id_counts_up_from_zero() {
    let mut store = ProjectStore::new();
    assert_eq!(store.allocate_id(), 0);
    assert_eq!(store.allocate_id(), 1);
    assert_eq!(store.allocate_id(), 2);
    assert_eq!(store.next_id(), 3);
    assert!(store.list().is_empty());
}

#[test]
fn create_project_assigns_increasing_ids() {
    let mut store = ProjectStore::new();
    let mut seen = Vec::new();
    for round in 0..20u64 {
        let id = store.create_project(
            alice(),
            format!("Project {}", round),
            "SYM".to_string(),
            "about".to_string(),
            10,
            20,
        );
        assert_eq!(id, round);
        assert!(!seen.contains(&id));
        seen.push(id);
        assert_eq!(store.next_id(), round + 1);
    }
    for id in seen {
        let record = store.get(id).unwrap();
        assert_eq!(record.id, id);
        assert_eq!(record.name, format!("Project {}", id));
    }
}

#[test]
fn create_project_stores_a_fresh_record() {
    let mut store = ProjectStore::new();
    let id = store.create_project(
        bob(),
        "Name".to_string(),
        "SYM".to_string(),
        "Words".to_string(),
        77,
        1000,
    );
    let record = store.get(id).unwrap();
    assert_eq!(record.id, id);
    assert_eq!(record.name, "Name");
    assert_eq!(record.symbol, "SYM");
    assert_eq!(record.description, "Words");
    assert_eq!(record.total_supply, 77);
    assert_eq!(record.target_funding, 1000);
    assert_eq!(record.current_funding, 0);
    assert_eq!(record.creator, bob());
    assert_eq!(record.token_canister_id, None);
    assert_eq!(record.kong_pool_id, None);
    assert!(!record.is_launched);
    assert_eq!(record.launch_timestamp, 0);
}

#[test]
fn get_of_unknown_id_is_none() {
    let mut store = ProjectStore::new();
    store.create_project(alice(), "a".to_string(), "b".to_string(), "c".to_string(), 1, 1);
    assert!(store.get(1).is_none());
    assert!(store.get(u64::MAX).is_none());
}

#[test]
fn get_does_not_change_the_store() {
    let mut store = ProjectStore::new();
    let id = store.create_project(alice(), "a".to_string(), "b".to_string(), "c".to_string(), 1, 1);
    let first = store.get(id).unwrap().to_bytes();
    let second = store.get(id).unwrap().to_bytes();
    assert_eq!(first, second);
    assert_eq!(store.next_id(), 1);
    assert_eq!(store.list().len(), 1);
}

#[test]
fn insert_overwrites_only_its_own_key() {
    let mut store = ProjectStore::new();
    let first = store.create_project(alice(), "a".to_string(), "A".to_string(), "x".to_string(), 1, 10);
    let second = store.create_project(bob(), "b".to_string(), "B".to_string(), "y".to_string(), 2, 20);
    let mut record = store.get(first).unwrap();
    record.current_funding = 10;
    store.insert(first, record);
    assert_eq!(store.get(first).unwrap().current_funding, 10);
    assert_eq!(store.get(first).unwrap().name, "a");
    assert_eq!(store.get(second).unwrap().current_funding, 0);
    assert_eq!(store.get(second).unwrap().creator, bob());
    assert_eq!(store.next_id(), 2);
    assert_eq!(store.list().len(), 2);
}

#[test]
fn insert_keeps_the_record_under_the_given_key() {
    let mut store = ProjectStore::new();
    store.insert(40, sample(40));
    store.insert(7, sample(7));
    assert_eq!(store.get(40).unwrap().id, 40);
    assert_eq!(store.get(7).unwrap().id, 7);
    assert!(store.get(0).is_none());
    assert_eq!(store.next_id(), 0);
}

#[test]
fn list_is_ordered_by_identifier() {
    let mut store = ProjectStore::new();
    store.insert(30, sample(30));
    store.insert(10, sample(10));
    store.insert(20, sample(20));
    store.insert(10, sample(10));
    let ids: Vec<u64> = store.list().iter().map(|record| record.id).collect();
    assert_eq!(ids, vec![10, 20, 30]);
}

#[test]
fn list_returns_every_created_project() {
    let mut store = ProjectStore::new();
    for round in 0..50u64 {
        store.create_project(alice(), format!("p{}", round), "S".to_string(), "d".to_string(), round, 5);
    }
    let records = store.list();
    assert_eq!(records.len(), 50);
    for (index, record) in records.iter().enumerate() {
        assert_eq!(record.id, index as u64);
        assert_eq!(record.total_supply, index as u64);
        assert_eq!(record.name, format!("p{}", index));
    }
}

#[test]
fn record_bytes_decode_to_the_record() {
    let mut record = sample(3);
    record.current_funding = 999;
    record.token_canister_id = Some(bob());
    record.kong_pool_id = Some(42);
    record.is_launched = true;
    record.launch_timestamp = 1_700_000_000_000_000_000;
    let bytes = record.to_bytes();
    let back = LaunchpadProject::from_bytes(&bytes).unwrap();
    assert_eq!(back.id, 3);
    assert_eq!(back.name, "Moon Token");
    assert_eq!(back.symbol, "MOON");
    assert_eq!(back.description, "To the moon");
    assert_eq!(back.total_supply, 1_000_000);
    assert_eq!(back.target_funding, 1000);
    assert_eq!(back.current_funding, 999);
    assert_eq!(back.creator, alice());
    assert_eq!(back.token_canister_id, Some(bob()));
    assert_eq!(back.kong_pool_id, Some(42));
    assert!(back.is_launched);
    assert_eq!(back.launch_timestamp, 1_700_000_000_000_000_000);
}

#[test]
fn record_bytes_differ_for_different_records() {
    let first = sample(1).to_bytes();
    let second = sample(2).to_bytes();
    assert_ne!(first, second);
    let mut funded = sample(1);
    funded.current_funding = 1;
    assert_ne!(first, funded.to_bytes());
    assert_eq!(first, sample(1).to_bytes());
}

#[test]
fn bytes_that_hold_no_record_decode_to_none() {
    assert!(LaunchpadProject::from_bytes(&[]).is_none());
    assert!(LaunchpadProject::from_bytes(&[1, 2, 3, 4, 5]).is_none());
    let bytes = sample(1).to_bytes();
    assert!(LaunchpadProject::from_bytes(&bytes[..bytes.len() - 1]).is_none());
    assert!(LaunchpadProject::from_bytes(b"DIDL").is_none());
}

#[test]
fn record_with_empty_and_long_texts_survives_storage() {
    let mut store = ProjectStore::new();
    let long = "x".repeat(5000);
    let id = store.create_project(alice(), String::new(), long.clone(), "\u{e9}t\u{e9}".to_string(), 0, u64::MAX);
    let record = store.get(id).unwrap();
    assert_eq!(record.name, "");
    assert_eq!(record.symbol, long);
    assert_eq!(record.description, "\u{e9}t\u{e9}");
    assert_eq!(record.total_supply, 0);
    assert_eq!(record.target_funding, u64::MAX);
}

#[test]
fn cloned_record_equals_its_source() {
    let mut record = sample(8);
    record.token_canister_id = Some(bob());
    let copy = record.clone();
    assert_eq!(copy.to_bytes(), record.to_bytes());
    assert_eq!(copy.creator, alice());
    assert_eq!(copy.token_canister_id, Some(bob()));
}
