//! The cycle service: the operations of the crate on one compositor client.

use vstd::prelude::*;
use crate::args::Args;
use crate::connection::HyprlandClient;
use crate::domain::{Direction, OwnedMonitor, OwnedWorkspace};
use crate::error::{result_view, CycleError, CycleErrorView, TransportError};
use crate::laws::lemma_target_from_replies_is_visible;
use crate::model;

verus! {

/// The service: it can inspect the monitors and the workspaces that a
/// compositor reports, and switch between workspaces. It owns its client
/// and keeps nothing else: every operation asks the compositor anew.
pub struct HyprCycle<C: HyprlandClient + ?Sized = dyn HyprlandClient> {
    connection: Box<C>,
}

impl HyprCycle {
    /// The arguments of this run, as [`Args::parse_args`] reads them from
    /// the one positional argument of the command line, if it was given.
    pub fn parse_args(argument: Option<String>) -> (r: Result<Args, CycleError>)
        ensures
            result_view(r) == model::direction_from_argument(argument.deep_view()),
    {
        Args::parse_args(argument)
    }
}

impl<C: HyprlandClient + ?Sized> HyprCycle<C> {
    /// The client that the service owns.
    pub closed spec fn client(&self) -> &C {
        &*self.connection
    }

    /// A service on the given client, which may be the real one or a
    /// stand-in. The service owns the client from here on.
    pub fn new(connection: Box<C>) -> (service: HyprCycle<C>)
        ensures
            service.client() == &*connection,
    {
        HyprCycle { connection }
    }

    /// The client, borrowed for one call.
    fn client_ref(&self) -> (client: &C)
        ensures
            client == self.client(),
    {
        &*self.connection
    }

    /// The monitor that has focus, as [`crate::get_focused_monitor`] finds
    /// it among those that the client lists.
    pub fn get_focused_monitor(&self) -> (r: Result<OwnedMonitor, CycleError>)
        ensures
            exists|reply: Result<Vec<OwnedMonitor>, TransportError>|
                #[trigger] call_ensures(C::get_monitors, (self.client(),), reply) && result_view(r)
                    == model::focused_monitor_from_reply(result_view(reply)),
            r matches Ok(monitor) ==> monitor@.focused,
            r matches Err(e) ==> e@ is NoFocusedMonitor || e@ is TransportError,
    {
        crate::get_focused_monitor(self.client_ref())
    }

    /// The visible workspaces bound to the monitor, in ascending order of
    /// id, as [`crate::get_workspaces_for_monitor`] finds them among those
    /// that the client lists.
    pub fn get_workspaces_for_monitor(&self, monitor: &OwnedMonitor) -> (r: Result<
        Vec<OwnedWorkspace>,
        CycleError,
    >)
        ensures
            exists|reply: Result<Vec<OwnedWorkspace>, TransportError>|
                #[trigger] call_ensures(C::get_workspaces, (self.client(),), reply) && result_view(
                    r,
                ) == model::workspaces_from_reply(result_view(reply), monitor@.name),
            r matches Ok(visible) ==> {
                &&& visible.len() > 0
                &&& model::sorted_by_id(visible.deep_view())
                &&& forall|i: int|
                    0 <= i < visible.len() ==> visible[i]@.monitor_name == monitor@.name
                        && visible[i]@.id > 0
            },
            r matches Err(e) ==> e@ == CycleErrorView::NoWorkspacesForMonitor(monitor@.name)
                || e@ is TransportError,
    {
        crate::get_workspaces_for_monitor(self.client_ref(), monitor)
    }

    /// The workspace that is active on the monitor that has focus, as
    /// [`crate::get_current_workspace`] finds it.
    pub fn get_current_workspace(&self) -> (r: Result<OwnedWorkspace, CycleError>)
        ensures
            exists|reply: Result<Vec<OwnedMonitor>, TransportError>|
                #[trigger] call_ensures(C::get_monitors, (self.client(),), reply) && result_view(r)
                    == model::current_workspace_from_reply(result_view(reply)),
            r matches Err(e) ==> e@ is NoFocusedMonitor || e@ is TransportError,
    {
        crate::get_current_workspace(self.client_ref())
    }

    /// Whether the three answers are what the client gave to the queries of
    /// one request for the target: the monitors, then the workspaces, then
    /// the monitors once more. A query is made only where the steps before
    /// it succeeded; of a query that is not made, any answer will do here.
    pub open spec fn answered(
        &self,
        monitors: Result<Vec<OwnedMonitor>, TransportError>,
        workspaces: Result<Vec<OwnedWorkspace>, TransportError>,
        monitors_again: Result<Vec<OwnedMonitor>, TransportError>,
    ) -> bool {
        &&& call_ensures(C::get_monitors, (self.client(),), monitors)
        &&& model::focused_monitor_from_reply(result_view(monitors)) matches Ok(monitor) ==> {
            &&& call_ensures(C::get_workspaces, (self.client(),), workspaces)
            &&& model::workspaces_from_reply(result_view(workspaces), monitor.name) is Ok
                ==> call_ensures(C::get_monitors, (self.client(),), monitors_again)
        }
    }

    /// The workspace to switch to: one step in the given direction from
    /// the current workspace, among the visible workspaces of the focused
    /// monitor in ascending order of id, wrapping at both ends.
    ///
    /// It asks for the focused monitor, for that monitor's workspaces and
    /// for the current workspace, in this order, and stops at the first
    /// that fails. It sends no command.
    pub fn get_target_workspace(&self, direction: Direction) -> (r: Result<
        OwnedWorkspace,
        CycleError,
    >)
        ensures
            exists|
                monitors: Result<Vec<OwnedMonitor>, TransportError>,
                workspaces: Result<Vec<OwnedWorkspace>, TransportError>,
                monitors_again: Result<Vec<OwnedMonitor>, TransportError>,
            |
                #[trigger] self.answered(monitors, workspaces, monitors_again) && result_view(r)
                    == model::target_from_replies(
                    result_view(monitors),
                    result_view(workspaces),
                    result_view(monitors_again),
                    direction,
                ),
            r matches Ok(target) ==> target@.visible(),
            r matches Err(e) ==> !(e@ is InvalidDirection),
    {
        let ghost unasked_workspaces: Result<Vec<OwnedWorkspace>, TransportError> = arbitrary();
        let ghost unasked_monitors: Result<Vec<OwnedMonitor>, TransportError> = arbitrary();
        let focused = self.get_focused_monitor();
        let ghost monitors = choose|reply: Result<Vec<OwnedMonitor>, TransportError>|
            #[trigger] call_ensures(C::get_monitors, (self.client(),), reply) && result_view(
                focused,
            ) == model::focused_monitor_from_reply(result_view(reply));
        let monitor = match focused {
            Err(e) => {
                assert(self.answered(monitors, unasked_workspaces, unasked_monitors));
                return Err(e);
            },
            Ok(monitor) => monitor,
        };
        let visible = self.get_workspaces_for_monitor(&monitor);
        let ghost workspaces = choose|reply: Result<Vec<OwnedWorkspace>, TransportError>|
            #[trigger] call_ensures(C::get_workspaces, (self.client(),), reply) && result_view(
                visible,
            ) == model::workspaces_from_reply(result_view(reply), monitor@.name);
        let all_workspaces = match visible {
            Err(e) => {
                assert(self.answered(monitors, workspaces, unasked_monitors));
                return Err(e);
            },
            Ok(all_workspaces) => all_workspaces,
        };
        let current = self.get_current_workspace();
        let ghost monitors_again = choose|reply: Result<Vec<OwnedMonitor>, TransportError>|
            #[trigger] call_ensures(C::get_monitors, (self.client(),), reply) && result_view(
                current,
            ) == model::current_workspace_from_reply(result_view(reply));
        let r = match current {
            Err(e) => Err(e),
            Ok(active_workspace) => crate::get_target_workspace(
                all_workspaces,
                active_workspace,
                direction,
            ),
        };
        proof {
            assert(self.answered(monitors, workspaces, monitors_again));
            lemma_target_from_replies_is_visible(
                result_view(monitors),
                result_view(workspaces),
                result_view(monitors_again),
                direction,
            );
        }
        r
    }

    /// Makes the target the active workspace, as
    /// [`crate::switch_to_workspace`] does: one switch command with the
    /// target's id, sent once.
    pub fn switch_to_workspace(&self, target: &OwnedWorkspace) -> (r: Result<(), CycleError>)
        ensures
            exists|reply: Result<(), TransportError>|
                #[trigger] call_ensures(
                    C::go_to_workspace,
                    (self.client(), target@.id as i64),
                    reply,
                ) && result_view(r) == model::switch_from_reply(result_view(reply)),
            r matches Err(e) ==> e@ is TransportError,
    {
        crate::switch_to_workspace(self.client_ref(), target)
    }
}

} // verus!
