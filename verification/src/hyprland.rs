//! Domain values from the records that the `hyprrust` crate reads off the
//! compositor's socket.
//!
//! The records are opaque to the verifier. What the library reads of one is
//! a field, which depends on the record alone, so each field read has a
//! name here, and the conversions state their results over those names.

use vstd::prelude::*;
use hyprrust::data::{Monitor, Workspace, WorkspaceBrief};
use crate::domain::{MonitorView, OwnedMonitor, OwnedWorkspace, WorkspaceView};

verus! {

/// `hyprrust`'s record of a monitor, as the compositor describes it. The
/// verifier sees nothing inside it.
#[verifier::external_type_specification]
#[verifier::external_body]
pub struct ExMonitor(hyprrust::data::Monitor);

/// `hyprrust`'s record of a workspace. The verifier sees nothing inside it.
#[verifier::external_type_specification]
#[verifier::external_body]
pub struct ExWorkspace(hyprrust::data::Workspace);

/// `hyprrust`'s brief record of a workspace, as a monitor record holds it:
/// an id and a name, without the monitor. The verifier sees nothing inside
/// it.
#[verifier::external_type_specification]
#[verifier::external_body]
pub struct ExWorkspaceBrief(hyprrust::data::WorkspaceBrief);

/// The field `name` of a monitor record.
pub uninterp spec fn monitor_record_name(m: Monitor) -> Seq<char>;

/// The field `id` of a monitor record.
pub uninterp spec fn monitor_record_id(m: Monitor) -> int;

/// The field `focused` of a monitor record.
pub uninterp spec fn monitor_record_focused(m: Monitor) -> bool;

/// The field `id` of the brief record that a monitor record holds in its
/// field `active_workspace`.
pub uninterp spec fn monitor_record_active_id(m: Monitor) -> int;

/// The field `id` of a workspace record.
pub uninterp spec fn workspace_record_id(w: Workspace) -> int;

/// The field `monitor` of a workspace record: the name of the monitor that
/// the workspace is bound to.
pub uninterp spec fn workspace_record_monitor(w: Workspace) -> Seq<char>;

/// The field `id` of a brief workspace record.
pub uninterp spec fn brief_record_id(w: WorkspaceBrief) -> int;

/// Reads from `hyprrust`'s monitor record what the library keeps of it: a
/// copy of the field `name`, the fields `id` and `focused`, and the `id` of
/// the field `active_workspace`, in this order. The contract claims that
/// what is read is what the names above stand for, which is to say that a
/// field read depends on the record alone.
#[verifier::external_body]
fn monitor_fields(m: &Monitor) -> (r: (String, i64, bool, i64))
    ensures
        r.0@ == monitor_record_name(*m),
        r.1 == monitor_record_id(*m),
        r.2 == monitor_record_focused(*m),
        r.3 == monitor_record_active_id(*m),
{
    (m.name.clone(), m.id, m.focused, m.active_workspace.id)
}

/// Reads the field `id` and a copy of the field `monitor` of `hyprrust`'s
/// workspace record. The contract claims that what is read is what the
/// names above stand for.
#[verifier::external_body]
fn workspace_fields(w: &Workspace) -> (r: (i64, String))
    ensures
        r.0 == workspace_record_id(*w),
        r.1@ == workspace_record_monitor(*w),
{
    (w.id, w.monitor.clone())
}

/// Reads the field `id` of `hyprrust`'s brief workspace record. The
/// contract claims that what is read is what the name above stands for.
#[verifier::external_body]
fn workspace_brief_id(w: &WorkspaceBrief) -> (id: i64)
    ensures
        id == brief_record_id(*w),
{
    w.id
}

impl From<&Monitor> for OwnedMonitor {
    /// The monitor of a record: its name, id and focus as the record holds
    /// them. The record names its active workspace by id alone; the
    /// workspace is bound to the monitor itself.
    fn from(m: &Monitor) -> (monitor: OwnedMonitor)
        ensures
            monitor@ == (MonitorView {
                name: monitor_record_name(*m),
                id: monitor_record_id(*m),
                focused: monitor_record_focused(*m),
                active_workspace: WorkspaceView {
                    id: monitor_record_active_id(*m),
                    monitor_name: monitor_record_name(*m),
                },
            }),
    {
        let (name, id, focused, active_workspace_id) = monitor_fields(m);
        OwnedMonitor::displaying(name, id, focused, active_workspace_id)
    }
}

/// The value of the conversion is stated on `from` itself, over the names
/// of the record's fields; no specification function builds the value,
/// whose text cannot be made from its characters in a specification.
impl vstd::std_specs::convert::FromSpecImpl<&Monitor> for OwnedMonitor {
    open spec fn obeys_from_spec() -> bool {
        false
    }

    open spec fn from_spec(m: &Monitor) -> OwnedMonitor {
        arbitrary()
    }
}

impl From<&Workspace> for OwnedWorkspace {
    /// The workspace of a record: its id, and the monitor that the record
    /// binds it to.
    fn from(w: &Workspace) -> (workspace: OwnedWorkspace)
        ensures
            workspace@ == (WorkspaceView {
                id: workspace_record_id(*w),
                monitor_name: workspace_record_monitor(*w),
            }),
    {
        let (id, monitor_name) = workspace_fields(w);
        OwnedWorkspace::new(id, monitor_name)
    }
}

/// The value of the conversion is stated on `from` itself, over the names
/// of the record's fields.
impl vstd::std_specs::convert::FromSpecImpl<&Workspace> for OwnedWorkspace {
    open spec fn obeys_from_spec() -> bool {
        false
    }

    open spec fn from_spec(w: &Workspace) -> OwnedWorkspace {
        arbitrary()
    }
}

impl From<&WorkspaceBrief> for OwnedWorkspace {
    /// The workspace of a brief record: its id. The record does not say
    /// which monitor the workspace is bound to, so the monitor name is left
    /// empty.
    fn from(w: &WorkspaceBrief) -> (workspace: OwnedWorkspace)
        ensures
            workspace@ == (WorkspaceView {
                id: brief_record_id(*w),
                monitor_name: Seq::<char>::empty(),
            }),
    {
        OwnedWorkspace::unassigned(workspace_brief_id(w))
    }
}

/// The value of the conversion is stated on `from` itself, over the name
/// of the record's field.
impl vstd::std_specs::convert::FromSpecImpl<&WorkspaceBrief> for OwnedWorkspace {
    open spec fn obeys_from_spec() -> bool {
        false
    }

    open spec fn from_spec(w: &WorkspaceBrief) -> OwnedWorkspace {
        arbitrary()
    }
}

} // verus!
