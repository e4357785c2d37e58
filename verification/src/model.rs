//! The mathematical model of workspace resolution and cycling.
//!
//! Every function here is a specification over the views of the domain
//! types. The executable functions of the crate state their results in
//! these terms.

use vstd::prelude::*;
use crate::domain::{Direction, MonitorView, WorkspaceView};
use crate::error::CycleErrorView;
use crate::text::{to_ascii_lowercase, trim};

verus! {

/// The direction that a text names, if it names one: `next` for the one,
/// `prev` or `previous` for the other, in any mix of upper and lower case
/// and with any whitespace around.
pub open spec fn direction_of(text: Seq<char>) -> Option<Direction> {
    let word = to_ascii_lowercase(trim(text));
    if word == "next"@ {
        Some(Direction::Next)
    } else if word == "prev"@ || word == "previous"@ {
        Some(Direction::Previous)
    } else {
        None
    }
}

/// What parsing a text as a direction gives: the direction it names, or an
/// error that carries the text as it was given.
pub open spec fn parse_direction(text: Seq<char>) -> Result<Direction, CycleErrorView> {
    match direction_of(text) {
        Some(direction) => Ok(direction),
        None => Err(CycleErrorView::InvalidDirection(text)),
    }
}

/// What the command line asks for, from its one optional argument: the
/// direction that the argument names, and `Next` where there is none.
pub open spec fn direction_from_argument(argument: Option<Seq<char>>) -> Result<
    Direction,
    CycleErrorView,
> {
    match argument {
        Some(text) => parse_direction(text),
        None => Ok(Direction::Next),
    }
}

/// The position after `i` in a cycle of `n` positions.
pub open spec fn next_index(i: int, n: int) -> int {
    (i + 1) % n
}

/// The position before `i` in a cycle of `n` positions.
pub open spec fn previous_index(i: int, n: int) -> int {
    (i + n - 1) % n
}

/// The position one step from `i` in the given direction, in a cycle of `n`
/// positions.
pub open spec fn step_index(i: int, n: int, direction: Direction) -> int {
    match direction {
        Direction::Next => next_index(i, n),
        Direction::Previous => previous_index(i, n),
    }
}

/// The direction that undoes a step in the given one.
pub open spec fn opposite(direction: Direction) -> Direction {
    match direction {
        Direction::Next => Direction::Previous,
        Direction::Previous => Direction::Next,
    }
}

/// Whether a monitor has focus.
pub open spec fn has_focus() -> spec_fn(MonitorView) -> bool {
    |m: MonitorView| m.focused
}

/// Whether some monitor of the list is marked focused.
pub open spec fn some_monitor_has_focus(monitors: Seq<MonitorView>) -> bool {
    exists|i: int| 0 <= i < monitors.len() && monitors[i].focused
}

/// The monitor that has focus: the first in the list that is marked so.
/// The compositor marks one monitor only; should it mark several, the first
/// one is taken.
pub open spec fn focused_monitor(monitors: Seq<MonitorView>) -> Result<
    MonitorView,
    CycleErrorView,
> {
    let focused = monitors.filter(has_focus());
    if focused.len() == 0 {
        Err(CycleErrorView::NoFocusedMonitor)
    } else {
        Ok(focused.first())
    }
}

/// Whether a workspace is bound to the monitor of the given name and is
/// visible. A hidden workspace does not count, whichever monitor it is bound
/// to.
pub open spec fn bound_and_visible(monitor_name: Seq<char>) -> spec_fn(WorkspaceView) -> bool {
    |w: WorkspaceView| w.monitor_name == monitor_name && w.visible()
}

/// Whether some workspace of the list is bound to the monitor of the given
/// name and is visible.
pub open spec fn some_workspace_is_bound_and_visible(
    workspaces: Seq<WorkspaceView>,
    monitor_name: Seq<char>,
) -> bool {
    exists|i: int|
        0 <= i < workspaces.len() && workspaces[i].monitor_name == monitor_name
            && workspaces[i].visible()
}

/// Whether the ids never decrease along the list.
pub open spec fn sorted_by_id(workspaces: Seq<WorkspaceView>) -> bool {
    forall|i: int, j: int| 0 <= i < j < workspaces.len() ==> workspaces[i].id <= workspaces[j].id
}

/// Whether the ids increase along the list.
pub open spec fn strictly_sorted_by_id(workspaces: Seq<WorkspaceView>) -> bool {
    forall|i: int, j: int| 0 <= i < j < workspaces.len() ==> workspaces[i].id < workspaces[j].id
}

/// A list that is sorted by id, with one more workspace put behind those
/// whose id is not greater than its own.
pub open spec fn insert_by_id(sorted: Seq<WorkspaceView>, w: WorkspaceView) -> Seq<WorkspaceView>
    decreases sorted.len(),
{
    if sorted.len() == 0 || sorted.last().id <= w.id {
        sorted.push(w)
    } else {
        insert_by_id(sorted.drop_last(), w).push(sorted.last())
    }
}

/// The workspaces in ascending order of id; workspaces of one id keep the
/// order they came in.
pub open spec fn sort_by_id(workspaces: Seq<WorkspaceView>) -> Seq<WorkspaceView>
    decreases workspaces.len(),
{
    if workspaces.len() == 0 {
        workspaces
    } else {
        insert_by_id(sort_by_id(workspaces.drop_last()), workspaces.last())
    }
}

/// The visible workspaces bound to the monitor of the given name, in
/// ascending order of id.
pub open spec fn workspaces_for_monitor(
    workspaces: Seq<WorkspaceView>,
    monitor_name: Seq<char>,
) -> Result<Seq<WorkspaceView>, CycleErrorView> {
    let bound = workspaces.filter(bound_and_visible(monitor_name));
    if bound.len() == 0 {
        Err(CycleErrorView::NoWorkspacesForMonitor(monitor_name))
    } else {
        Ok(sort_by_id(bound))
    }
}

/// The workspace one step from the active one in the list, wrapping at both
/// ends. The active workspace is looked up by value, id and monitor name,
/// and its first occurrence counts.
pub open spec fn target_workspace(
    all_workspaces: Seq<WorkspaceView>,
    active_workspace: WorkspaceView,
    direction: Direction,
) -> Result<WorkspaceView, CycleErrorView> {
    match all_workspaces.index_of_first(active_workspace) {
        Some(i) => Ok(all_workspaces[step_index(i, all_workspaces.len() as int, direction)]),
        None => Err(CycleErrorView::CurrentWorkspaceNotFound),
    }
}

/// The workspace to switch to, from what the compositor reports: the focused
/// monitor, its visible workspaces in order, the workspace active on it, and
/// one step from there.
pub open spec fn target_in_snapshot(
    monitors: Seq<MonitorView>,
    workspaces: Seq<WorkspaceView>,
    direction: Direction,
) -> Result<WorkspaceView, CycleErrorView> {
    match focused_monitor(monitors) {
        Err(e) => Err(e),
        Ok(monitor) => match workspaces_for_monitor(workspaces, monitor.name) {
            Err(e) => Err(e),
            Ok(visible) => target_workspace(visible, monitor.active_workspace, direction),
        },
    }
}

/// What a request for the focused monitor gives, from the compositor's
/// answer to the monitor query: the client's failure as it came, or the
/// focused monitor among those listed.
pub open spec fn focused_monitor_from_reply(reply: Result<Seq<MonitorView>, Seq<char>>) -> Result<
    MonitorView,
    CycleErrorView,
> {
    match reply {
        Err(failure) => Err(CycleErrorView::TransportError(failure)),
        Ok(monitors) => focused_monitor(monitors),
    }
}

/// What a request for a monitor's workspaces gives, from the compositor's
/// answer to the workspace query.
pub open spec fn workspaces_from_reply(
    reply: Result<Seq<WorkspaceView>, Seq<char>>,
    monitor_name: Seq<char>,
) -> Result<Seq<WorkspaceView>, CycleErrorView> {
    match reply {
        Err(failure) => Err(CycleErrorView::TransportError(failure)),
        Ok(workspaces) => workspaces_for_monitor(workspaces, monitor_name),
    }
}

/// What a request for the current workspace gives, from the compositor's
/// answer to the monitor query: the workspace that the focused monitor
/// holds as active. The workspaces are not asked for.
pub open spec fn current_workspace_from_reply(
    reply: Result<Seq<MonitorView>, Seq<char>>,
) -> Result<WorkspaceView, CycleErrorView> {
    match focused_monitor_from_reply(reply) {
        Err(e) => Err(e),
        Ok(monitor) => Ok(monitor.active_workspace),
    }
}

/// What a request for the target workspace gives, from the compositor's
/// answers to the three queries it makes in turn: the monitors, for the
/// focused one; the workspaces, for those of that monitor; and the monitors
/// once more, for the current workspace. The first failure ends the
/// request, and the answers behind it play no part.
pub open spec fn target_from_replies(
    monitors: Result<Seq<MonitorView>, Seq<char>>,
    workspaces: Result<Seq<WorkspaceView>, Seq<char>>,
    monitors_again: Result<Seq<MonitorView>, Seq<char>>,
    direction: Direction,
) -> Result<WorkspaceView, CycleErrorView> {
    match focused_monitor_from_reply(monitors) {
        Err(e) => Err(e),
        Ok(monitor) => match workspaces_from_reply(workspaces, monitor.name) {
            Err(e) => Err(e),
            Ok(visible) => match current_workspace_from_reply(monitors_again) {
                Err(e) => Err(e),
                Ok(current) => target_workspace(visible, current, direction),
            },
        },
    }
}

/// What a switch request gives, from the compositor's answer to the switch
/// command: success, or the client's failure as it came.
pub open spec fn switch_from_reply(reply: Result<(), Seq<char>>) -> Result<(), CycleErrorView> {
    match reply {
        Err(failure) => Err(CycleErrorView::TransportError(failure)),
        Ok(()) => Ok(()),
    }
}

} // verus!
