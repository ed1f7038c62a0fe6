use vnictl::config::Config;
use vnictl::db::{delete_query, insert_query, list_query, lookup_query, max_query};
use vnictl::db::{DELETE_BINDING, INSERT_BINDING, SELECT_ALL, SELECT_MAX_VLAN, SELECT_VLAN};
use vnictl::ledger::{allocation_step, settle, AllocStep, LedgerError};
use vnictl::reconcile::{disable_steps, enable_steps, step_outcome};

#[test]
fn allocation_step_present_insert_exhausted() {
    assert_eq!(allocation_step(Some(2000), Some(2005), 2000), AllocStep::Present(2000));
    assert_eq!(allocation_step(None, None, 2000), AllocStep::Insert(2000));
    assert_eq!(allocation_step(None, Some(2001), 2000), AllocStep::Insert(2002));
    assert_eq!(allocation_step(None, Some(65535), 2000), AllocStep::Exhausted);
}

#[test]
fn settle_found_and_missing() {
    assert_eq!(settle(Some(2003)).unwrap(), 2003);
    assert!(matches!(settle(None), Err(LedgerError::NotFound)));
}

#[test]
fn queries_carry_their_arguments() {
    let q = lookup_query(5000);
    assert_eq!((q.sql, q.args), (SELECT_VLAN, vec![5000]));
    let q = max_query();
    assert_eq!((q.sql, q.args), (SELECT_MAX_VLAN, vec![]));
    let q = insert_query(2001, 5001);
    assert_eq!((q.sql, q.args), (INSERT_BINDING, vec![2001, 5001]));
    let q = delete_query(5000);
    assert_eq!((q.sql, q.args), (DELETE_BINDING, vec![5000]));
    let q = list_query();
    assert_eq!((q.sql, q.args), (SELECT_ALL, vec![]));
}

#[test]
fn missing_file_counts_as_removed() {
    let config = Config {
        ovs_bridge: "br0".to_string(),
        local_ip: "10.0.0.1".to_string(),
        db_path: "/tmp/x".to_string(),
        start_vlan: 2000,
    };
    let down = disable_steps(&config, 7);
    let up = enable_steps(&config, 7, 2000);
    assert!(step_outcome(&down[0], false, true));
    assert!(!step_outcome(&down[0], false, false));
    assert!(step_outcome(&down[0], true, false));
    assert!(!step_outcome(&up[0], false, true));
    assert!(!step_outcome(&down[4], false, true));
    assert!(!step_outcome(&down[5], false, true));
    assert!(step_outcome(&up[6], true, false));
}
