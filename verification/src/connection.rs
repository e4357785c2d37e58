//! The boundary to the compositor.

use vstd::prelude::*;
use crate::domain::{OwnedMonitor, OwnedWorkspace};
use crate::error::TransportError;

verus! {

/// What the library needs of a compositor: to list the monitors, to list the
/// workspaces, and to make a workspace the active one. Each call blocks until
/// the compositor has answered, and each may fail.
///
/// The lists come in no particular order. Nothing is assumed of an
/// implementation: what the library states of a call's result holds for
/// every answer.
pub trait HyprlandClient {
    /// The monitors that the compositor knows, each with the workspace
    /// active on it.
    fn get_monitors(&self) -> Result<Vec<OwnedMonitor>, TransportError>;

    /// The workspaces that the compositor knows, hidden ones included.
    fn get_workspaces(&self) -> Result<Vec<OwnedWorkspace>, TransportError>;

    /// Tells the compositor to make the workspace of the given id the
    /// active one.
    fn go_to_workspace(&self, id: i64) -> Result<(), TransportError>;
}

} // verus!
