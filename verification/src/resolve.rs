//! Resolution on what the compositor answered: the focused monitor among
//! the monitors, and the workspaces of a monitor among the workspaces.

use vstd::prelude::*;
use crate::domain::{OwnedMonitor, OwnedWorkspace};
use crate::error::{result_view, CycleError, CycleErrorView};
use crate::laws::{
    lemma_first_focus, lemma_insert_position, lemma_no_focus, lemma_sort_by_id,
    lemma_workspaces_for_monitor,
};
use crate::model;

verus! {

/// The monitor that has focus among those given: the first that is marked
/// focused.
///
/// The compositor is trusted to mark one monitor only, and this is not
/// checked; the first one found is a tie-break, no validation. Where none
/// is marked, the function fails with [`CycleError::NoFocusedMonitor`].
pub fn find_focused_monitor(monitors: &Vec<OwnedMonitor>) -> (r: Result<OwnedMonitor, CycleError>)
    ensures
        result_view(r) == model::focused_monitor(monitors.deep_view()),
        r is Ok <==> model::some_monitor_has_focus(monitors.deep_view()),
        r matches Ok(monitor) ==> monitor@.focused,
        r matches Err(e) ==> e@ == CycleErrorView::NoFocusedMonitor,
{
    proof {
        lemma_no_focus(monitors.deep_view());
    }
    let mut i: usize = 0;
    while i < monitors.len()
        invariant
            i <= monitors.len(),
            forall|j: int| 0 <= j < i ==> !monitors[j]@.focused,
        decreases monitors.len() - i,
    {
        if monitors[i].focused() {
            proof {
                lemma_first_focus(monitors.deep_view(), i as int);
            }
            return Ok(monitors[i].clone());
        }
        i += 1;
    }
    Err(CycleError::NoFocusedMonitor)
}

/// The workspaces in ascending order of id; workspaces of one id keep the
/// order they came in. The result holds what was given, each workspace as
/// often, and its ids never decrease.
pub fn sort_workspaces(workspaces: &Vec<OwnedWorkspace>) -> (sorted: Vec<OwnedWorkspace>)
    ensures
        sorted.deep_view() == model::sort_by_id(workspaces.deep_view()),
        model::sorted_by_id(sorted.deep_view()),
        sorted.deep_view().to_multiset() == workspaces.deep_view().to_multiset(),
        sorted.len() == workspaces.len(),
{
    proof {
        lemma_sort_by_id(workspaces.deep_view());
    }
    let mut sorted: Vec<OwnedWorkspace> = Vec::new();
    let mut i: usize = 0;
    while i < workspaces.len()
        invariant
            i <= workspaces.len(),
            sorted.deep_view() == model::sort_by_id(workspaces.deep_view().take(i as int)),
        decreases workspaces.len() - i,
    {
        let w = workspaces[i].clone();
        let mut p: usize = sorted.len();
        while p > 0 && sorted[p - 1].id() > w.id()
            invariant
                p <= sorted.len(),
                forall|k: int| p <= k < sorted.len() ==> sorted[k]@.id > w@.id,
            decreases p,
        {
            p -= 1;
        }
        proof {
            let placed = sorted.deep_view();
            let seen = workspaces.deep_view().take(i as int + 1);
            lemma_insert_position(placed, w@, p as int);
            assert(seen.drop_last() =~= workspaces.deep_view().take(i as int));
            assert(seen.last() == w@);
        }
        let ghost before = sorted.deep_view();
        sorted.insert(p, w);
        assert(sorted.deep_view() =~= before.insert(p as int, w@));
        i += 1;
    }
    assert(workspaces.deep_view().take(i as int) =~= workspaces.deep_view());
    sorted
}

/// The visible workspaces bound to the monitor, among those given, in
/// ascending order of id.
///
/// A workspace counts where its monitor name is the monitor's name and its
/// id is positive; both are asked together, so a hidden workspace of the
/// monitor is left out. Where none counts, the function fails with
/// [`CycleError::NoWorkspacesForMonitor`], which carries the monitor's name.
pub fn select_workspaces_for_monitor(
    workspaces: &Vec<OwnedWorkspace>,
    monitor: &OwnedMonitor,
) -> (r: Result<Vec<OwnedWorkspace>, CycleError>)
    ensures
        result_view(r) == model::workspaces_for_monitor(workspaces.deep_view(), monitor@.name),
        r is Ok <==> model::some_workspace_is_bound_and_visible(
            workspaces.deep_view(),
            monitor@.name,
        ),
        r matches Ok(visible) ==> {
            &&& model::sorted_by_id(visible.deep_view())
            &&& visible.deep_view().to_multiset() == workspaces.deep_view().filter(
                model::bound_and_visible(monitor@.name),
            ).to_multiset()
            &&& forall|i: int|
                0 <= i < visible.len() ==> visible[i]@.monitor_name == monitor@.name
                    && visible[i]@.id > 0
        },
        r matches Err(e) ==> e@ == CycleErrorView::NoWorkspacesForMonitor(monitor@.name),
{
    proof {
        lemma_workspaces_for_monitor(workspaces.deep_view(), monitor@.name);
    }
    let name = monitor.name();
    let mut bound: Vec<OwnedWorkspace> = Vec::new();
    let mut i: usize = 0;
    while i < workspaces.len()
        invariant
            i <= workspaces.len(),
            name@ == monitor@.name,
            bound.deep_view() == workspaces.deep_view().take(i as int).filter(
                model::bound_and_visible(monitor@.name),
            ),
        decreases workspaces.len() - i,
    {
        let w = &workspaces[i];
        proof {
            let seen = workspaces.deep_view().take(i as int);
            seen.lemma_filter_push(w@, model::bound_and_visible(monitor@.name));
            assert(workspaces.deep_view().take(i as int + 1) =~= seen.push(w@));
        }
        let ghost before = bound.deep_view();
        if w.monitor_name() == name && w.visible() {
            bound.push(w.clone());
            assert(bound.deep_view() =~= before.push(w@));
        }
        i += 1;
    }
    assert(workspaces.deep_view().take(i as int) =~= workspaces.deep_view());
    if bound.is_empty() {
        return Err(CycleError::NoWorkspacesForMonitor(name));
    }
    let visible = sort_workspaces(&bound);
    assert forall|i: int| 0 <= i < visible.len() implies visible[i]@.monitor_name == monitor@.name
        && visible[i]@.id > 0 by {
        assert(visible.deep_view()[i] == visible[i]@);
    }
    Ok(visible)
}

} // verus!
