//! VXLAN segment provisioning: the VNI to VLAN ledger, the network
//! configuration documents of a segment, and the ordered steps that enable
//! or disable it on a host.
pub mod artifacts;
pub mod cli;
pub mod config;
pub mod db;
pub mod ledger;
pub mod reconcile;
pub mod text;
