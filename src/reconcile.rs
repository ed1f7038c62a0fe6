//! The ordered steps that bring a segment up or take it down, and the
//! reports of each command. The steps themselves (file writes, the network
//! manager reload, the switch calls) are carried out by the caller, in order,
//! stopping at the first that fails, except that a file to remove that is
//! already gone is no failure.
use vstd::prelude::*;
use crate::artifacts::{artifact_set, generate, vni_paths, vni_paths_text, Artifact};
use crate::config::Config;
use crate::ledger::Vni;
use crate::text::{dec, decimal};

verus! {

/// What a step does, as plain text.
pub enum StepView {
    Write(Seq<char>, Seq<char>),
    Remove(Seq<char>),
    Reload,
    Switch(Seq<Seq<char>>),
}

/// One step of bringing a segment up or down.
pub enum Step {
    /// Write `contents` to the file `path`, replacing what is there.
    Write { path: String, contents: String },
    /// Remove the file `path`; a file that is already gone is no failure.
    Remove { path: String },
    /// Ask the network manager to apply its configuration from disk.
    Reload,
    /// Call the switch control plane with `args`.
    Switch { args: Vec<String> },
}

impl View for Step {
    type V = StepView;

    open spec fn view(&self) -> StepView {
        match self {
            Step::Write { path, contents } => StepView::Write(path@, contents@),
            Step::Remove { path } => StepView::Remove(path@),
            Step::Reload => StepView::Reload,
            Step::Switch { args } => StepView::Switch(args@.map_values(|a: String| a@)),
        }
    }
}

/// The name of the switch port of `vni`.
pub open spec fn port_name_text(vni: u32) -> Seq<char> {
    "vlink"@ + dec(vni as nat)
}

/// The switch call that adds the internal port of `vni` to `bridge`, tagged `vlan`.
pub open spec fn bind_args_text(bridge: Seq<char>, vni: u32, vlan: u16) -> Seq<Seq<char>> {
    seq![
        "add-port"@,
        bridge,
        port_name_text(vni),
        "tag="@ + dec(vlan as nat),
        "--"@,
        "set"@,
        "Interface"@,
        port_name_text(vni),
        "type=internal"@,
    ]
}

/// The switch call that removes the port of `vni` from `bridge`.
pub open spec fn unbind_args_text(bridge: Seq<char>, vni: u32) -> Seq<Seq<char>> {
    seq!["del-port"@, bridge, port_name_text(vni)]
}

/// Bringing up `vni` on tag `vlan`: the five documents, shared one first,
/// then the reload, then the switch port.
pub open spec fn enable_plan(bridge: Seq<char>, local_ip: Seq<char>, vni: u32, vlan: u16) -> Seq<StepView> {
    let a = artifact_set(vni, local_ip);
    seq![
        StepView::Write(a[0].0, a[0].1),
        StepView::Write(a[1].0, a[1].1),
        StepView::Write(a[2].0, a[2].1),
        StepView::Write(a[3].0, a[3].1),
        StepView::Write(a[4].0, a[4].1),
        StepView::Reload,
        StepView::Switch(bind_args_text(bridge, vni, vlan)),
    ]
}

/// Taking down `vni`: the four per-VNI documents, then the switch port, then
/// the reload. The shared document stays.
pub open spec fn disable_plan(bridge: Seq<char>, vni: u32) -> Seq<StepView> {
    let p = vni_paths_text(vni);
    seq![
        StepView::Remove(p[0]),
        StepView::Remove(p[1]),
        StepView::Remove(p[2]),
        StepView::Remove(p[3]),
        StepView::Switch(unbind_args_text(bridge, vni)),
        StepView::Reload,
    ]
}

/// The name of the switch port of `vni`.
pub fn port_name(vni: u32) -> (r: String)
    ensures
        r@ == port_name_text(vni),
{
    let d = decimal(vni);
    let mut s = String::from_str("vlink");
    s.append(d.as_str());
    s
}

/// The switch call that adds the internal port of `vni` to `bridge`, tagged `vlan`.
pub fn bind_args(bridge: &str, vni: u32, vlan: u16) -> (r: Vec<String>)
    ensures
        r@.map_values(|a: String| a@) == bind_args_text(bridge@, vni, vlan),
{
    let mut tag = String::from_str("tag=");
    let v = decimal(vlan as u32);
    tag.append(v.as_str());
    let mut r: Vec<String> = Vec::new();
    r.push(String::from_str("add-port"));
    r.push(String::from_str(bridge));
    r.push(port_name(vni));
    r.push(tag);
    r.push(String::from_str("--"));
    r.push(String::from_str("set"));
    r.push(String::from_str("Interface"));
    r.push(port_name(vni));
    r.push(String::from_str("type=internal"));
    assert(r@.map_values(|a: String| a@) =~= bind_args_text(bridge@, vni, vlan));
    r
}

/// The switch call that removes the port of `vni` from `bridge`.
pub fn unbind_args(bridge: &str, vni: u32) -> (r: Vec<String>)
    ensures
        r@.map_values(|a: String| a@) == unbind_args_text(bridge@, vni),
{
    let mut r: Vec<String> = Vec::new();
    r.push(String::from_str("del-port"));
    r.push(String::from_str(bridge));
    r.push(port_name(vni));
    assert(r@.map_values(|a: String| a@) =~= unbind_args_text(bridge@, vni));
    r
}

fn write_step(a: &Artifact) -> (r: Step)
    ensures
        r@ == StepView::Write(a@.0, a@.1),
{
    Step::Write { path: a.path.clone(), contents: a.contents.clone() }
}

/// The steps that bring up `vni` on tag `vlan` under `config`.
pub fn enable_steps(config: &Config, vni: u32, vlan: u16) -> (r: Vec<Step>)
    ensures
        r@.map_values(|s: Step| s@) == enable_plan(config.ovs_bridge@, config.local_ip@, vni, vlan),
{
    let arts = generate(vni, config.local_ip.as_str());
    let ghost a = artifact_set(vni, config.local_ip@);
    assert(arts@.len() == 5 && forall|k: int| 0 <= k < 5 ==> #[trigger] arts@[k]@ == a[k]) by {
        assert(arts@.map_values(|x: Artifact| x@).len() == 5);
        assert forall|k: int| 0 <= k < 5 implies #[trigger] arts@[k]@ == a[k] by {
            assert(arts@.map_values(|x: Artifact| x@)[k] == arts@[k]@);
        }
    }
    let mut r: Vec<Step> = Vec::new();
    r.push(write_step(&arts[0]));
    r.push(write_step(&arts[1]));
    r.push(write_step(&arts[2]));
    r.push(write_step(&arts[3]));
    r.push(write_step(&arts[4]));
    r.push(Step::Reload);
    r.push(Step::Switch { args: bind_args(config.ovs_bridge.as_str(), vni, vlan) });
    assert(r@.map_values(|s: Step| s@) =~= enable_plan(config.ovs_bridge@, config.local_ip@, vni, vlan));
    r
}

/// The steps that take down `vni` under `config`.
pub fn disable_steps(config: &Config, vni: u32) -> (r: Vec<Step>)
    ensures
        r@.map_values(|s: Step| s@) == disable_plan(config.ovs_bridge@, vni),
{
    let paths = vni_paths(vni);
    let ghost p = vni_paths_text(vni);
    assert(paths@.len() == 4 && forall|k: int| 0 <= k < 4 ==> #[trigger] paths@[k]@ == p[k]) by {
        assert(paths@.map_values(|x: String| x@).len() == 4);
        assert forall|k: int| 0 <= k < 4 implies #[trigger] paths@[k]@ == p[k] by {
            assert(paths@.map_values(|x: String| x@)[k] == paths@[k]@);
        }
    }
    let mut r: Vec<Step> = Vec::new();
    r.push(Step::Remove { path: paths[0].clone() });
    r.push(Step::Remove { path: paths[1].clone() });
    r.push(Step::Remove { path: paths[2].clone() });
    r.push(Step::Remove { path: paths[3].clone() });
    r.push(Step::Switch { args: unbind_args(config.ovs_bridge.as_str(), vni) });
    r.push(Step::Reload);
    assert(r@.map_values(|s: Step| s@) =~= disable_plan(config.ovs_bridge@, vni));
    r
}

/// Whether a step that was carried out counts as done: it did not fail
/// (`ok`), or it removes a file and failed only because the file was
/// already gone (`missing`). The steps of a plan run in order; the first
/// that does not count as done ends the command with an error.
pub fn step_outcome(step: &Step, ok: bool, missing: bool) -> (r: bool)
    ensures
        r == (ok || (step@ is Remove && missing)),
{
    match step {
        Step::Remove { .. } => ok || missing,
        _ => ok,
    }
}

/// The report of one binding.
pub open spec fn binding_line_text(vni: u32, vlan: u16) -> Seq<char> {
    "VNI="@ + dec(vni as nat) + " VLAN="@ + dec(vlan as nat)
}

/// The report that `vni` has no binding.
pub open spec fn not_found_line_text(vni: u32) -> Seq<char> {
    "VNI="@ + dec(vni as nat) + " not found"@
}

/// The report of one binding.
pub fn binding_line(vni: u32, vlan: u16) -> (r: String)
    ensures
        r@ == binding_line_text(vni, vlan),
{
    let d = decimal(vni);
    let v = decimal(vlan as u32);
    let mut s = String::from_str("VNI=");
    s.append(d.as_str());
    s.append(" VLAN=");
    s.append(v.as_str());
    s
}

/// The report of a segment brought up.
pub fn enabled_line(vni: u32, vlan: u16) -> (r: String)
    ensures
        r@ == "Enabled: "@ + binding_line_text(vni, vlan),
{
    let b = binding_line(vni, vlan);
    let mut s = String::from_str("Enabled: ");
    s.append(b.as_str());
    s
}

/// The report of a segment taken down.
pub fn disabled_line(vni: u32, vlan: u16) -> (r: String)
    ensures
        r@ == "Disabled: "@ + binding_line_text(vni, vlan),
{
    let b = binding_line(vni, vlan);
    let mut s = String::from_str("Disabled: ");
    s.append(b.as_str());
    s
}

/// The status report of `vni` given its tag in the ledger: the binding, or
/// an error report when it has none.
pub fn status_report(vni: u32, found: Option<u16>) -> (r: Result<String, String>)
    ensures
        match found {
            Some(vlan) => r matches Ok(line) && line@ == binding_line_text(vni, vlan),
            None => r matches Err(line) && line@ == not_found_line_text(vni),
        },
{
    match found {
        Some(vlan) => Ok(binding_line(vni, vlan)),
        None => {
            let d = decimal(vni);
            let mut s = String::from_str("VNI=");
            s.append(d.as_str());
            s.append(" not found");
            Err(s)
        },
    }
}

/// The report of every binding in `rows`, one line each, in order.
pub fn list_lines(rows: &Vec<Vni>) -> (r: Vec<String>)
    ensures
        r@.len() == rows@.len(),
        forall|i: int| 0 <= i < rows@.len() ==> #[trigger] r@[i]@ == binding_line_text(rows@[i].vni, rows@[i].vlan),
{
    let mut r: Vec<String> = Vec::new();
    let mut i: usize = 0;
    while i < rows.len()
        invariant
            i <= rows@.len(),
            r@.len() == i,
            forall|k: int| 0 <= k < i ==> #[trigger] r@[k]@ == binding_line_text(rows@[k].vni, rows@[k].vlan),
        decreases rows@.len() - i,
    {
        r.push(binding_line(rows[i].vni, rows[i].vlan));
        i = i + 1;
    }
    r
}

} // verus!
