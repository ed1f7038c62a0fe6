//! Settings of a host: the switch bridge, the tunnel endpoint, the ledger
//! file and the first VLAN tag.
use vstd::prelude::*;

verus! {

/// Settings of a host.
#[derive(Clone, Debug)]
pub struct Config {
    /// The switch bridge that segment ports are added to.
    pub ovs_bridge: String,
    /// The local tunnel endpoint address, as text.
    pub local_ip: String,
    /// The ledger file.
    pub db_path: String,
    /// The tag that the first binding of an empty ledger gets.
    pub start_vlan: u16,
}

/// The ledger file when none is configured.
pub fn default_db_path() -> (r: String)
    ensures
        r@ == "/var/lib/vnictl/db.sqlite3"@,
{
    String::from_str("/var/lib/vnictl/db.sqlite3")
}

/// The first VLAN tag when none is configured.
pub fn default_start_vlan() -> (r: u16)
    ensures
        r == 2000,
{
    2000
}

} // verus!
