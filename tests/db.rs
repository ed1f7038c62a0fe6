use vnictl::db::{bindings_of, Database};
use vnictl::ledger::LedgerError;

fn pairs(db: &Database) -> Vec<(u32, u16)> {
    let mut v: Vec<(u32, u16)> = db.list_vni().unwrap().iter().map(|r| (r.vni, r.vlan)).collect();
    v.sort();
    v
}

#[test]
fn store_scenario_enable_disable_enable() {
    let db = Database::open(":memory:", 2000).unwrap();
    assert_eq!(db.add_vni(5000).unwrap(), 2000);
    assert_eq!(db.add_vni(5001).unwrap(), 2001);
    assert_eq!(db.remove_vni(5000).unwrap(), 2000);
    assert_eq!(pairs(&db), vec![(5001, 2001)]);
    assert_eq!(db.add_vni(5002).unwrap(), 2002);
    assert_eq!(pairs(&db), vec![(5001, 2001), (5002, 2002)]);
}

#[test]
fn store_status_on_empty_is_none() {
    let db = Database::open(":memory:", 2000).unwrap();
    assert_eq!(db.get_vlan(9999).unwrap(), None);
}

#[test]
fn store_allocate_twice_is_idempotent() {
    let db = Database::open(":memory:", 2000).unwrap();
    assert_eq!(db.add_vni(42).unwrap(), 2000);
    assert_eq!(db.add_vni(42).unwrap(), 2000);
    assert_eq!(pairs(&db), vec![(42, 2000)]);
}

#[test]
fn store_release_absent_is_not_found() {
    let db = Database::open(":memory:", 2000).unwrap();
    db.add_vni(1).unwrap();
    assert!(matches!(db.remove_vni(2), Err(LedgerError::NotFound)));
    assert_eq!(pairs(&db), vec![(1, 2000)]);
}

#[test]
fn store_round_trip() {
    let db = Database::open(":memory:", 300).unwrap();
    let v = db.add_vni(8).unwrap();
    assert_eq!(db.get_vlan(8).unwrap(), Some(v));
    assert_eq!(db.remove_vni(8).unwrap(), v);
    assert_eq!(db.get_vlan(8).unwrap(), None);
}

#[test]
fn store_tags_run_out_at_the_top() {
    let db = Database::open(":memory:", 65535).unwrap();
    assert_eq!(db.add_vni(1).unwrap(), 65535);
    assert!(matches!(db.add_vni(2), Err(LedgerError::Exhausted)));
}

#[test]
fn store_open_bad_path_is_storage_error() {
    let r = Database::open("/nonexistent-dir-for-ledger/x/y.sqlite3", 1);
    assert!(matches!(r, Err(LedgerError::Storage(_))));
}

#[test]
fn bindings_keep_order() {
    let b = bindings_of(&vec![(3, 30), (1, 10)]);
    assert_eq!((b[0].vlan, b[0].vni), (3, 30));
    assert_eq!((b[1].vlan, b[1].vni), (1, 10));
}
