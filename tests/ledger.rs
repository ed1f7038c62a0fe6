use vnictl::ledger::{next_vlan, Ledger, LedgerError, Vni};
use vnictl::reconcile::status_report;

fn pairs(rows: &[Vni]) -> Vec<(u32, u16)> {
    let mut v: Vec<(u32, u16)> = rows.iter().map(|r| (r.vni, r.vlan)).collect();
    v.sort();
    v
}

#[test]
fn scenario_enable_disable_enable() {
    let mut l = Ledger::new(2000);
    assert_eq!(l.add_vni(5000).unwrap(), 2000);
    assert_eq!(l.add_vni(5001).unwrap(), 2001);
    assert_eq!(l.remove_vni(5000).unwrap(), 2000);
    assert_eq!(pairs(&l.list_vni()), vec![(5001, 2001)]);
    assert_eq!(l.add_vni(5002).unwrap(), 2002);
}

#[test]
fn status_on_empty_ledger_is_not_found() {
    let l = Ledger::new(2000);
    let found = l.get_vlan(9999);
    assert_eq!(found, None);
    let report = status_report(9999, found);
    assert_eq!(report, Err("VNI=9999 not found".to_string()));
}

#[test]
fn first_allocation_gets_initial_then_max_plus_one() {
    let mut l = Ledger::new(100);
    assert_eq!(l.add_vni(7).unwrap(), 100);
    assert_eq!(l.add_vni(8).unwrap(), 101);
    assert_eq!(l.add_vni(9).unwrap(), 102);
    assert_eq!(l.highest_vlan(), Some(102));
}

#[test]
fn allocate_twice_is_idempotent() {
    let mut l = Ledger::new(2000);
    let a = l.add_vni(42).unwrap();
    let b = l.add_vni(42).unwrap();
    assert_eq!(a, b);
    assert_eq!(l.list_vni().len(), 1);
}

#[test]
fn release_present_and_absent() {
    let mut l = Ledger::new(10);
    l.add_vni(1).unwrap();
    l.add_vni(2).unwrap();
    assert_eq!(l.remove_vni(1).unwrap(), 10);
    assert_eq!(pairs(&l.list_vni()), vec![(2, 11)]);
    assert!(matches!(l.remove_vni(1), Err(LedgerError::NotFound)));
    assert_eq!(pairs(&l.list_vni()), vec![(2, 11)]);
}

#[test]
fn removing_the_highest_reclaims_its_tag() {
    let mut l = Ledger::new(10);
    l.add_vni(1).unwrap();
    l.add_vni(2).unwrap();
    assert_eq!(l.remove_vni(2).unwrap(), 11);
    assert_eq!(l.add_vni(3).unwrap(), 11);
}

#[test]
fn round_trip_through_lookup() {
    let mut l = Ledger::new(3000);
    let v = l.add_vni(77).unwrap();
    assert_eq!(l.get_vlan(77), Some(v));
    l.remove_vni(77).unwrap();
    assert_eq!(l.get_vlan(77), None);
}

#[test]
fn bijection_holds_over_many_calls() {
    let mut l = Ledger::new(1);
    let mut x: u32 = 12345;
    for _ in 0..500 {
        x = x.wrapping_mul(1103515245).wrapping_add(12345);
        let vni = (x >> 16) % 20;
        if (x >> 8) % 3 == 0 {
            let _ = l.remove_vni(vni);
        } else {
            l.add_vni(vni).unwrap();
        }
        let rows = l.list_vni();
        for i in 0..rows.len() {
            for j in 0..rows.len() {
                if i != j {
                    assert_ne!(rows[i].vlan, rows[j].vlan);
                    assert_ne!(rows[i].vni, rows[j].vni);
                }
            }
        }
    }
}

#[test]
fn tags_run_out_at_the_top() {
    let mut l = Ledger::new(65535);
    assert_eq!(l.add_vni(1).unwrap(), 65535);
    assert!(matches!(l.add_vni(2), Err(LedgerError::Exhausted)));
    assert_eq!(l.add_vni(1).unwrap(), 65535);
    assert_eq!(l.list_vni().len(), 1);
}

#[test]
fn next_vlan_values() {
    assert_eq!(next_vlan(None, 2000), Some(2000));
    assert_eq!(next_vlan(Some(2001), 2000), Some(2002));
    assert_eq!(next_vlan(Some(65535), 2000), None);
}
