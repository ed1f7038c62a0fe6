//! The network configuration documents of a segment and the files they are
//! stored under. Every document is a function of its arguments alone.
use vstd::prelude::*;
use crate::text::{dec, decimal};

verus! {

/// The directory the network manager reads its configuration from.
pub const NETWORK_DIR: &'static str = "/etc/systemd/network/";

/// The shared document that matches every segment bridge.
pub const NETWORK_SVI: &'static str = "\n[Match]\nName=svi*\n\n[Network]\nDHCP=no\nIPv6AcceptRA=no\nLinkLocalAddressing=no\n";

/// The VXLAN tunnel device of `vni`, terminated at `local_ip`.
pub open spec fn netdev_vxlan_text(vni: u32, local_ip: Seq<char>) -> Seq<char> {
    "\n[NetDev]\nName=vni"@ + dec(vni as nat) + "\nKind=vxlan\n\n[VXLAN]\nVNI="@ + dec(vni as nat)
        + "\nDestinationPort=4789\nIndependent=yes\nMacLearning=no\nLocal="@ + local_ip + "\n"@
}

/// The bridge device of `vni`.
pub open spec fn netdev_linux_bridge_text(vni: u32) -> Seq<char> {
    "\n[NetDev]\nKind=bridge\nName=svi"@ + dec(vni as nat) + "\n"@
}

/// The network binding of the tunnel device of `vni` to its bridge.
pub open spec fn network_vxlan_text(vni: u32) -> Seq<char> {
    "\n[Match]\nName=vni"@ + dec(vni as nat)
        + "\n\n[Network]\nIPv6AcceptRA=no\nLinkLocalAddressing=no\nBridge=svi"@ + dec(vni as nat)
        + "\n\n[Bridge]\nLearning=no\nNeighborSuppression=yes\nUnicastFlood=yes\nMulticastFlood=yes\n"@
}

/// The network binding of the switch port of `vni` to its bridge.
pub open spec fn network_vlink_text(vni: u32) -> Seq<char> {
    "\n[Match]\nName=vlink"@ + dec(vni as nat) + "\n\n[Network]\nBridge=svi"@ + dec(vni as nat)
        + "\nLinkLocalAddressing=no\n"@
}

/// The VXLAN tunnel device of `vni`, terminated at `local_ip`.
pub fn netdev_vxlan(vni: u32, local_ip: &str) -> (r: String)
    ensures
        r@ == netdev_vxlan_text(vni, local_ip@),
{
    let d = decimal(vni);
    let mut s = String::from_str("\n[NetDev]\nName=vni");
    s.append(d.as_str());
    s.append("\nKind=vxlan\n\n[VXLAN]\nVNI=");
    s.append(d.as_str());
    s.append("\nDestinationPort=4789\nIndependent=yes\nMacLearning=no\nLocal=");
    s.append(local_ip);
    s.append("\n");
    s
}

/// The bridge device of `vni`.
pub fn netdev_linux_bridge(vni: u32) -> (r: String)
    ensures
        r@ == netdev_linux_bridge_text(vni),
{
    let d = decimal(vni);
    let mut s = String::from_str("\n[NetDev]\nKind=bridge\nName=svi");
    s.append(d.as_str());
    s.append("\n");
    s
}

/// The network binding of the tunnel device of `vni` to its bridge.
pub fn network_vxlan(vni: u32) -> (r: String)
    ensures
        r@ == network_vxlan_text(vni),
{
    let d = decimal(vni);
    let mut s = String::from_str("\n[Match]\nName=vni");
    s.append(d.as_str());
    s.append("\n\n[Network]\nIPv6AcceptRA=no\nLinkLocalAddressing=no\nBridge=svi");
    s.append(d.as_str());
    s.append("\n\n[Bridge]\nLearning=no\nNeighborSuppression=yes\nUnicastFlood=yes\nMulticastFlood=yes\n");
    s
}

/// The network binding of the switch port of `vni` to its bridge.
pub fn network_vlink(vni: u32) -> (r: String)
    ensures
        r@ == network_vlink_text(vni),
{
    let d = decimal(vni);
    let mut s = String::from_str("\n[Match]\nName=vlink");
    s.append(d.as_str());
    s.append("\n\n[Network]\nBridge=svi");
    s.append(d.as_str());
    s.append("\nLinkLocalAddressing=no\n");
    s
}

/// The file of the shared document.
pub open spec fn svi_match_path_text() -> Seq<char> {
    NETWORK_DIR@ + "vnictl-svi.network"@
}

/// The file of a per-VNI document: `prefix`, the VNI, then `suffix`.
pub open spec fn vni_path_text(prefix: Seq<char>, vni: u32, suffix: Seq<char>) -> Seq<char> {
    NETWORK_DIR@ + prefix + dec(vni as nat) + suffix
}

/// The files of the four per-VNI documents of `vni`: tunnel device, tunnel
/// binding, bridge device, port binding.
pub open spec fn vni_paths_text(vni: u32) -> Seq<Seq<char>> {
    seq![
        vni_path_text("vnictl-vni"@, vni, ".netdev"@),
        vni_path_text("vnictl-vni"@, vni, ".network"@),
        vni_path_text("vnictl-svi"@, vni, ".netdev"@),
        vni_path_text("vnictl-vlink"@, vni, ".network"@),
    ]
}

/// The file of the shared document.
pub fn svi_match_path() -> (r: String)
    ensures
        r@ == svi_match_path_text(),
{
    let mut s = String::from_str(NETWORK_DIR);
    s.append("vnictl-svi.network");
    s
}

fn vni_path(prefix: &str, vni: u32, suffix: &str) -> (r: String)
    ensures
        r@ == vni_path_text(prefix@, vni, suffix@),
{
    let d = decimal(vni);
    let mut s = String::from_str(NETWORK_DIR);
    s.append(prefix);
    s.append(d.as_str());
    s.append(suffix);
    s
}

/// The files of the four per-VNI documents of `vni`.
pub fn vni_paths(vni: u32) -> (r: Vec<String>)
    ensures
        r@.map_values(|p: String| p@) == vni_paths_text(vni),
{
    let mut r: Vec<String> = Vec::new();
    r.push(vni_path("vnictl-vni", vni, ".netdev"));
    r.push(vni_path("vnictl-vni", vni, ".network"));
    r.push(vni_path("vnictl-svi", vni, ".netdev"));
    r.push(vni_path("vnictl-vlink", vni, ".network"));
    assert(r@.map_values(|p: String| p@) =~= vni_paths_text(vni));
    r
}

/// A document and the file it is stored under.
pub struct Artifact {
    pub path: String,
    pub contents: String,
}

impl View for Artifact {
    type V = (Seq<char>, Seq<char>);

    open spec fn view(&self) -> (Seq<char>, Seq<char>) {
        (self.path@, self.contents@)
    }
}

/// The five documents of `vni` with their files, the shared one first, then
/// in the order of `vni_paths_text`.
pub open spec fn artifact_set(vni: u32, local_ip: Seq<char>) -> Seq<(Seq<char>, Seq<char>)> {
    let paths = vni_paths_text(vni);
    seq![
        (svi_match_path_text(), NETWORK_SVI@),
        (paths[0], netdev_vxlan_text(vni, local_ip)),
        (paths[1], network_vxlan_text(vni)),
        (paths[2], netdev_linux_bridge_text(vni)),
        (paths[3], network_vlink_text(vni)),
    ]
}

/// The five documents that realise the segment of `vni` with the tunnel
/// terminated at `local_ip`.
pub fn generate(vni: u32, local_ip: &str) -> (r: Vec<Artifact>)
    ensures
        r@.map_values(|a: Artifact| a@) == artifact_set(vni, local_ip@),
{
    let paths = vni_paths(vni);
    assert(paths@.len() == 4 && forall|k: int| 0 <= k < 4 ==> #[trigger] paths@[k]@ == vni_paths_text(vni)[k]) by {
        assert(paths@.map_values(|p: String| p@).len() == 4);
        assert forall|k: int| 0 <= k < 4 implies #[trigger] paths@[k]@ == vni_paths_text(vni)[k] by {
            assert(paths@.map_values(|p: String| p@)[k] == paths@[k]@);
        }
    }
    let mut r: Vec<Artifact> = Vec::new();
    r.push(Artifact { path: svi_match_path(), contents: String::from_str(NETWORK_SVI) });
    r.push(Artifact { path: paths[0].clone(), contents: netdev_vxlan(vni, local_ip) });
    r.push(Artifact { path: paths[1].clone(), contents: network_vxlan(vni) });
    r.push(Artifact { path: paths[2].clone(), contents: netdev_linux_bridge(vni) });
    r.push(Artifact { path: paths[3].clone(), contents: network_vlink(vni) });
    assert(r@.map_values(|a: Artifact| a@) =~= artifact_set(vni, local_ip@));
    r
}

} // verus!
