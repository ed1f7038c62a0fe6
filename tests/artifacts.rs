use vnictl::artifacts::{
    generate, netdev_linux_bridge, netdev_vxlan, network_vlink, network_vxlan, svi_match_path, vni_paths,
    NETWORK_SVI,
};
use vnictl::config::{default_db_path, default_start_vlan};
use vnictl::text::decimal;

#[test]
fn decimal_values() {
    assert_eq!(decimal(0), "0");
    assert_eq!(decimal(7), "7");
    assert_eq!(decimal(10), "10");
    assert_eq!(decimal(5000), "5000");
    assert_eq!(decimal(4294967295), "4294967295");
}

#[test]
fn vxlan_device_document() {
    assert_eq!(
        netdev_vxlan(5000, "10.0.0.1"),
        "\n[NetDev]\nName=vni5000\nKind=vxlan\n\n[VXLAN]\nVNI=5000\nDestinationPort=4789\nIndependent=yes\nMacLearning=no\nLocal=10.0.0.1\n"
    );
}

#[test]
fn bridge_device_document() {
    assert_eq!(netdev_linux_bridge(12), "\n[NetDev]\nKind=bridge\nName=svi12\n");
}

#[test]
fn vxlan_network_document() {
    assert_eq!(
        network_vxlan(12),
        "\n[Match]\nName=vni12\n\n[Network]\nIPv6AcceptRA=no\nLinkLocalAddressing=no\nBridge=svi12\n\n[Bridge]\nLearning=no\nNeighborSuppression=yes\nUnicastFlood=yes\nMulticastFlood=yes\n"
    );
}

#[test]
fn vlink_network_document() {
    assert_eq!(
        network_vlink(12),
        "\n[Match]\nName=vlink12\n\n[Network]\nBridge=svi12\nLinkLocalAddressing=no\n"
    );
}

#[test]
fn document_paths() {
    assert_eq!(svi_match_path(), "/etc/systemd/network/vnictl-svi.network");
    assert_eq!(
        vni_paths(5000),
        vec![
            "/etc/systemd/network/vnictl-vni5000.netdev".to_string(),
            "/etc/systemd/network/vnictl-vni5000.network".to_string(),
            "/etc/systemd/network/vnictl-svi5000.netdev".to_string(),
            "/etc/systemd/network/vnictl-vlink5000.network".to_string(),
        ]
    );
}

#[test]
fn generate_is_deterministic() {
    let a = generate(5000, "192.0.2.7");
    let b = generate(5000, "192.0.2.7");
    assert_eq!(a.len(), 5);
    for i in 0..5 {
        assert_eq!(a[i].path, b[i].path);
        assert_eq!(a[i].contents.as_bytes(), b[i].contents.as_bytes());
    }
    assert_eq!(a[0].contents, NETWORK_SVI);
    assert_eq!(a[1].contents, netdev_vxlan(5000, "192.0.2.7"));
    assert_eq!(a[4].path, "/etc/systemd/network/vnictl-vlink5000.network");
}

#[test]
fn defaults() {
    assert_eq!(default_db_path(), "/var/lib/vnictl/db.sqlite3");
    assert_eq!(default_start_vlan(), 2000);
}
