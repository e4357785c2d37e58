//! Value types for what the compositor reports: workspaces and monitors.

use std::cmp::Ordering;
use vstd::prelude::*;
use crate::error::CycleError;
use crate::model;
use crate::text::{normalize, spells};

verus! {

/// Which way to cycle through the workspaces of a monitor.
#[derive(Debug, Clone, Copy, PartialEq, Eq, Structural)]
pub enum Direction {
    Next,
    Previous,
}

impl View for Direction {
    type V = Direction;

    open spec fn view(&self) -> Direction {
        *self
    }
}

impl DeepView for Direction {
    type V = Direction;

    open spec fn deep_view(&self) -> Direction {
        *self
    }
}

impl Direction {
    /// Reads a direction from text as a user types it. The text is trimmed
    /// and its case is ignored; `next` gives [`Direction::Next`], `prev` and
    /// `previous` give [`Direction::Previous`]. Any other text is refused
    /// with [`CycleError::InvalidDirection`], which carries the text.
    pub fn parse(s: &str) -> (r: Result<Direction, CycleError>)
        ensures
            crate::error::result_view(r) == model::parse_direction(s@),
    {
        let word = normalize(s);
        if spells(&word, "next") {
            Ok(Direction::Next)
        } else if spells(&word, "prev") || spells(&word, "previous") {
            Ok(Direction::Previous)
        } else {
            Err(CycleError::InvalidDirection(s.to_owned()))
        }
    }
}

impl std::str::FromStr for Direction {
    type Err = CycleError;

    fn from_str(s: &str) -> (r: Result<Direction, CycleError>)
        ensures
            crate::error::result_view(r) == model::parse_direction(s@),
    {
        Direction::parse(s)
    }
}

/// The mathematical value of a workspace.
pub struct WorkspaceView {
    pub id: int,
    pub monitor_name: Seq<char>,
}

impl WorkspaceView {
    /// Ordinary workspaces have a positive id; the others are hidden scratch
    /// workspaces.
    pub open spec fn visible(self) -> bool {
        self.id > 0
    }
}

/// A workspace as the compositor reported it: its id and the name of the
/// monitor that owns it. An empty monitor name stands for "not assigned".
#[derive(Debug)]
pub struct OwnedWorkspace {
    id: i64,
    monitor_name: String,
}

impl View for OwnedWorkspace {
    type V = WorkspaceView;

    closed spec fn view(&self) -> WorkspaceView {
        WorkspaceView { id: self.id as int, monitor_name: self.monitor_name@ }
    }
}

impl DeepView for OwnedWorkspace {
    type V = WorkspaceView;

    open spec fn deep_view(&self) -> WorkspaceView {
        self@
    }
}

impl OwnedWorkspace {
    /// The workspace of the given id on the monitor of the given name.
    pub fn new(id: i64, monitor_name: String) -> (w: OwnedWorkspace)
        ensures
            w@ == (WorkspaceView { id: id as int, monitor_name: monitor_name@ }),
    {
        OwnedWorkspace { id, monitor_name }
    }

    /// A workspace of which the owning monitor is not known: its monitor
    /// name is empty.
    pub fn unassigned(id: i64) -> (w: OwnedWorkspace)
        ensures
            w@ == (WorkspaceView { id: id as int, monitor_name: Seq::empty() }),
    {
        OwnedWorkspace { id, monitor_name: String::new() }
    }

    /// The id: positive for an ordinary workspace, zero or negative for a
    /// hidden one.
    pub fn id(&self) -> (id: i64)
        ensures
            id == self@.id,
    {
        self.id
    }

    /// The name of the monitor that owns the workspace.
    pub fn monitor_name(&self) -> (name: String)
        ensures
            name@ == self@.monitor_name,
    {
        self.monitor_name.clone()
    }

    /// Whether the workspace is an ordinary one, which is so where its id
    /// is positive.
    pub fn visible(&self) -> (b: bool)
        ensures
            b == self@.visible(),
    {
        self.id > 0
    }
}

impl Clone for OwnedWorkspace {
    fn clone(&self) -> (w: OwnedWorkspace)
        ensures
            w@ == self@,
    {
        OwnedWorkspace { id: self.id, monitor_name: self.monitor_name.clone() }
    }
}

impl PartialEq for OwnedWorkspace {
    fn eq(&self, other: &OwnedWorkspace) -> (b: bool) {
        self.id == other.id && self.monitor_name == other.monitor_name
    }
}

impl Eq for OwnedWorkspace {}

impl vstd::std_specs::cmp::PartialEqSpecImpl for OwnedWorkspace {
    open spec fn obeys_eq_spec() -> bool {
        true
    }

    open spec fn eq_spec(&self, other: &OwnedWorkspace) -> bool {
        self@ == other@
    }
}

/// Workspaces are ordered by id alone, ascending. This is the order in
/// which they are cycled through. Two workspaces of one id on different
/// monitors are equal in this order, though they are not equal values.
impl PartialOrd for OwnedWorkspace {
    fn partial_cmp(&self, other: &OwnedWorkspace) -> (o: Option<Ordering>) {
        if self.id < other.id {
            Some(Ordering::Less)
        } else if self.id > other.id {
            Some(Ordering::Greater)
        } else {
            Some(Ordering::Equal)
        }
    }
}

impl vstd::std_specs::cmp::PartialOrdSpecImpl for OwnedWorkspace {
    open spec fn obeys_partial_cmp_spec() -> bool {
        true
    }

    open spec fn partial_cmp_spec(&self, other: &OwnedWorkspace) -> Option<Ordering> {
        if self@.id < other@.id {
            Some(Ordering::Less)
        } else if self@.id > other@.id {
            Some(Ordering::Greater)
        } else {
            Some(Ordering::Equal)
        }
    }
}

/// The mathematical value of a monitor.
pub struct MonitorView {
    pub name: Seq<char>,
    pub id: int,
    pub focused: bool,
    pub active_workspace: WorkspaceView,
}

/// A physical monitor as the compositor reported it, with a copy of the
/// workspace it displayed at that moment. The compositor marks one monitor
/// as focused.
#[derive(Debug)]
pub struct OwnedMonitor {
    name: String,
    id: i64,
    focused: bool,
    active_workspace: OwnedWorkspace,
}

impl View for OwnedMonitor {
    type V = MonitorView;

    closed spec fn view(&self) -> MonitorView {
        MonitorView {
            name: self.name@,
            id: self.id as int,
            focused: self.focused,
            active_workspace: self.active_workspace@,
        }
    }
}

impl DeepView for OwnedMonitor {
    type V = MonitorView;

    open spec fn deep_view(&self) -> MonitorView {
        self@
    }
}

impl OwnedMonitor {
    /// The monitor of the given name and id, focused or not, with the
    /// workspace that is active on it.
    pub fn new(name: String, id: i64, focused: bool, active_workspace: OwnedWorkspace) -> (m:
        OwnedMonitor)
        ensures
            m@ == (MonitorView {
                name: name@,
                id: id as int,
                focused,
                active_workspace: active_workspace@,
            }),
    {
        OwnedMonitor { name, id, focused, active_workspace }
    }

    /// A monitor of which the active workspace is known by id alone: that
    /// workspace is bound to the monitor itself.
    pub fn displaying(name: String, id: i64, focused: bool, active_workspace_id: i64) -> (m:
        OwnedMonitor)
        ensures
            m@ == (MonitorView {
                name: name@,
                id: id as int,
                focused,
                active_workspace: WorkspaceView {
                    id: active_workspace_id as int,
                    monitor_name: name@,
                },
            }),
    {
        let active_workspace = OwnedWorkspace {
            id: active_workspace_id,
            monitor_name: name.clone(),
        };
        OwnedMonitor { name, id, focused, active_workspace }
    }

    /// The name, by which workspaces refer to the monitor.
    pub fn name(&self) -> (name: String)
        ensures
            name@ == self@.name,
    {
        self.name.clone()
    }

    /// The number that the compositor gave the monitor.
    pub fn id(&self) -> (id: i64)
        ensures
            id == self@.id,
    {
        self.id
    }

    /// Whether the monitor has focus.
    pub fn focused(&self) -> (b: bool)
        ensures
            b == self@.focused,
    {
        self.focused
    }

    /// The workspace that the monitor displayed when it was reported.
    pub fn active_workspace(&self) -> (w: OwnedWorkspace)
        ensures
            w@ == self@.active_workspace,
    {
        self.active_workspace.clone()
    }
}

impl Clone for OwnedMonitor {
    fn clone(&self) -> (m: OwnedMonitor)
        ensures
            m@ == self@,
    {
        OwnedMonitor {
            name: self.name.clone(),
            id: self.id,
            focused: self.focused,
            active_workspace: self.active_workspace.clone(),
        }
    }
}

impl PartialEq for OwnedMonitor {
    fn eq(&self, other: &OwnedMonitor) -> (b: bool) {
        self.name == other.name && self.id == other.id && self.focused == other.focused
            && self.active_workspace == other.active_workspace
    }
}

impl Eq for OwnedMonitor {}

impl vstd::std_specs::cmp::PartialEqSpecImpl for OwnedMonitor {
    open spec fn obeys_eq_spec() -> bool {
        true
    }

    open spec fn eq_spec(&self, other: &OwnedMonitor) -> bool {
        self@ == other@
    }
}

} // verus!
