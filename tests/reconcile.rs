use vnictl::config::Config;
use vnictl::ledger::Vni;
use vnictl::reconcile::{
    binding_line, bind_args, disable_steps, disabled_line, enable_steps, enabled_line, list_lines, port_name,
    status_report, unbind_args, Step,
};

fn config() -> Config {
    Config {
        ovs_bridge: "br-int".to_string(),
        local_ip: "10.1.2.3".to_string(),
        db_path: "/tmp/x".to_string(),
        start_vlan: 2000,
    }
}

#[test]
fn switch_calls() {
    assert_eq!(port_name(5000), "vlink5000");
    assert_eq!(
        bind_args("br-int", 5000, 2000),
        vec!["add-port", "br-int", "vlink5000", "tag=2000", "--", "set", "Interface", "vlink5000", "type=internal"]
    );
    assert_eq!(unbind_args("br-int", 5000), vec!["del-port", "br-int", "vlink5000"]);
}

#[test]
fn enable_steps_order() {
    let steps = enable_steps(&config(), 5000, 2001);
    assert_eq!(steps.len(), 7);
    match &steps[0] {
        Step::Write { path, .. } => assert_eq!(path, "/etc/systemd/network/vnictl-svi.network"),
        _ => panic!("first step writes the shared document"),
    }
    match &steps[1] {
        Step::Write { path, contents } => {
            assert_eq!(path, "/etc/systemd/network/vnictl-vni5000.netdev");
            assert!(contents.contains("Local=10.1.2.3\n"));
        }
        _ => panic!("second step writes the tunnel device"),
    }
    assert!(matches!(steps[5], Step::Reload));
    match &steps[6] {
        Step::Switch { args } => assert_eq!(args[3], "tag=2001"),
        _ => panic!("last step binds the port"),
    }
}

#[test]
fn disable_steps_order() {
    let steps = disable_steps(&config(), 5000);
    assert_eq!(steps.len(), 6);
    match &steps[3] {
        Step::Remove { path } => assert_eq!(path, "/etc/systemd/network/vnictl-vlink5000.network"),
        _ => panic!("fourth step removes the port binding"),
    }
    match &steps[4] {
        Step::Switch { args } => assert_eq!(args, &vec!["del-port", "br-int", "vlink5000"]),
        _ => panic!("fifth step unbinds the port"),
    }
    assert!(matches!(steps[5], Step::Reload));
}

#[test]
fn report_lines() {
    assert_eq!(binding_line(5001, 2001), "VNI=5001 VLAN=2001");
    assert_eq!(enabled_line(5000, 2000), "Enabled: VNI=5000 VLAN=2000");
    assert_eq!(disabled_line(5000, 2000), "Disabled: VNI=5000 VLAN=2000");
    assert_eq!(status_report(5000, Some(2000)), Ok("VNI=5000 VLAN=2000".to_string()));
    assert_eq!(
        list_lines(&vec![Vni { vlan: 2001, vni: 5001 }, Vni { vlan: 7, vni: 0 }]),
        vec!["VNI=5001 VLAN=2001", "VNI=0 VLAN=7"]
    );
}
