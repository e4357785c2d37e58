//! Cycling the focused monitor's workspace in a tiling window manager.
//!
//! The crate resolves, from the monitors and workspaces that a compositor
//! reports, the monitor that has focus, the visible workspaces bound to it in
//! ascending order of id, the workspace that is active, and the workspace one
//! position further or back in that order, wrapping at both ends.
//!
//! The compositor is reached through a [`connection::HyprlandClient`], of
//! which nothing is assumed. A function that asks the client states its
//! result in two steps: there is an answer that the client gave to the call
//! (`call_ensures` of the client's method, on this client and with the
//! arguments named), and the result is what [`model`] gives for that answer.
//! The functions of [`resolve`] and [`get_target_workspace`] take the
//! answers as arguments and state their results outright.

pub mod args;
pub mod connection;
pub mod domain;
pub mod error;
pub mod hyprland;
pub mod laws;
pub mod model;
pub mod resolve;
pub mod service;
pub mod text;

pub use crate::args::Args;
pub use crate::domain::Direction;
pub use crate::service::HyprCycle;

use vstd::prelude::*;
use crate::connection::HyprlandClient;
use crate::domain::{OwnedMonitor, OwnedWorkspace};
use crate::error::{result_view, CycleError, CycleErrorView, TransportError};
use crate::laws::{
    lemma_absent_has_no_target, lemma_step_wraps, lemma_target_is_listed,
    lemma_workspaces_for_monitor,
};
use crate::resolve::{find_focused_monitor, select_workspaces_for_monitor};

verus! {

/// The monitor that has focus among those that the client lists. It makes
/// one monitor query.
///
/// A failure of the client is handed on as it came. Where no monitor is
/// marked focused, the function fails with [`CycleError::NoFocusedMonitor`];
/// where several are, the first one listed is taken.
pub fn get_focused_monitor<C: HyprlandClient + ?Sized>(conn: &C) -> (r: Result<
    OwnedMonitor,
    CycleError,
>)
    ensures
        exists|reply: Result<Vec<OwnedMonitor>, TransportError>|
            #[trigger] call_ensures(C::get_monitors, (conn,), reply) && result_view(r)
                == model::focused_monitor_from_reply(result_view(reply)),
        r matches Ok(monitor) ==> monitor@.focused,
        r matches Err(e) ==> e@ is NoFocusedMonitor || e@ is TransportError,
{
    let reply = conn.get_monitors();
    match &reply {
        Err(failure) => Err(CycleError::TransportError(failure.clone())),
        Ok(monitors) => find_focused_monitor(monitors),
    }
}

/// The visible workspaces bound to the monitor among those that the client
/// lists, in ascending order of id. It makes one workspace query.
///
/// A failure of the client is handed on as it came. Where the monitor has
/// no visible workspace, the function fails with
/// [`CycleError::NoWorkspacesForMonitor`].
pub fn get_workspaces_for_monitor<C: HyprlandClient + ?Sized>(
    conn: &C,
    monitor: &OwnedMonitor,
) -> (r: Result<Vec<OwnedWorkspace>, CycleError>)
    ensures
        exists|reply: Result<Vec<OwnedWorkspace>, TransportError>|
            #[trigger] call_ensures(C::get_workspaces, (conn,), reply) && result_view(r)
                == model::workspaces_from_reply(result_view(reply), monitor@.name),
        r matches Ok(visible) ==> {
            &&& visible.len() > 0
            &&& model::sorted_by_id(visible.deep_view())
            &&& forall|i: int|
                0 <= i < visible.len() ==> visible[i]@.monitor_name == monitor@.name
                    && visible[i]@.id > 0
        },
        r matches Err(e) ==> e@ == CycleErrorView::NoWorkspacesForMonitor(monitor@.name)
            || e@ is TransportError,
{
    let reply = conn.get_workspaces();
    let r = match &reply {
        Err(failure) => Err(CycleError::TransportError(failure.clone())),
        Ok(workspaces) => select_workspaces_for_monitor(workspaces, monitor),
    };
    assert(r matches Ok(visible) ==> visible.len() > 0) by {
        if let Ok(workspaces) = reply {
            lemma_workspaces_for_monitor(workspaces.deep_view(), monitor@.name);
        }
    }
    r
}

/// The workspace that is active on the monitor that has focus, as that
/// monitor's record holds it. It makes one monitor query and does not ask
/// for the workspaces. It fails as [`get_focused_monitor`] does.
pub fn get_current_workspace<C: HyprlandClient + ?Sized>(conn: &C) -> (r: Result<
    OwnedWorkspace,
    CycleError,
>)
    ensures
        exists|reply: Result<Vec<OwnedMonitor>, TransportError>|
            #[trigger] call_ensures(C::get_monitors, (conn,), reply) && result_view(r)
                == model::current_workspace_from_reply(result_view(reply)),
        r matches Err(e) ==> e@ is NoFocusedMonitor || e@ is TransportError,
{
    match get_focused_monitor(conn) {
        Err(e) => Err(e),
        Ok(focused_monitor) => Ok(focused_monitor.active_workspace()),
    }
}

/// Makes the target the active workspace: it hands the target's id to the
/// client, in one switch command, once. The command's failure is handed on
/// as it came.
pub fn switch_to_workspace<C: HyprlandClient + ?Sized>(
    conn: &C,
    target: &OwnedWorkspace,
) -> (r: Result<(), CycleError>)
    ensures
        exists|reply: Result<(), TransportError>|
            #[trigger] call_ensures(C::go_to_workspace, (conn, target@.id as i64), reply)
                && result_view(r) == model::switch_from_reply(result_view(reply)),
        r matches Err(e) ==> e@ is TransportError,
{
    let reply = conn.go_to_workspace(target.id());
    match &reply {
        Err(failure) => Err(CycleError::TransportError(failure.clone())),
        Ok(()) => Ok(()),
    }
}

/// The workspace one step from the active one in the list, in the given
/// direction, wrapping at both ends.
///
/// The active workspace is found by value, id and monitor name. Where the
/// list does not hold it, as when the active workspace is a hidden one and
/// the list holds the visible ones, the function fails with
/// [`CycleError::CurrentWorkspaceNotFound`].
pub fn get_target_workspace(
    all_workspaces: Vec<OwnedWorkspace>,
    active_workspace: OwnedWorkspace,
    direction: Direction,
) -> (r: Result<OwnedWorkspace, CycleError>)
    ensures
        result_view(r) == model::target_workspace(
            all_workspaces.deep_view(),
            active_workspace@,
            direction,
        ),
        r is Ok <==> all_workspaces.deep_view().contains(active_workspace@),
        r matches Ok(target) ==> all_workspaces.deep_view().contains(target@),
        r matches Err(e) ==> e@ == CycleErrorView::CurrentWorkspaceNotFound,
{
    proof {
        lemma_absent_has_no_target(all_workspaces.deep_view(), active_workspace@, direction);
        lemma_target_is_listed(all_workspaces.deep_view(), active_workspace@, direction);
    }
    let len: usize = all_workspaces.len();
    let mut idx: usize = 0;
    while idx < len && all_workspaces[idx] != active_workspace
        invariant
            len == all_workspaces.len(),
            idx <= len,
            forall|j: int| 0 <= j < idx ==> all_workspaces[j]@ != active_workspace@,
        decreases len - idx,
    {
        idx += 1;
    }
    proof {
        all_workspaces.deep_view().index_of_first_ensures(active_workspace@);
    }
    if idx == len {
        return Err(CycleError::CurrentWorkspaceNotFound);
    }
    let next_idx: usize = match direction {
        Direction::Next => (idx + 1) % len,
        Direction::Previous => if idx == 0 {
            len - 1
        } else {
            idx - 1
        },
    };
    proof {
        lemma_step_wraps(idx as int, len as int);
        let all = all_workspaces.deep_view();
        assert(all[idx as int] == active_workspace@);
        assert(all[next_idx as int] == all_workspaces[next_idx as int]@);
    }
    Ok(all_workspaces[next_idx].clone())
}

} // verus!
