//! What holds of the model: the laws that callers may rely on.

use vstd::prelude::*;
use vstd::arithmetic::div_mod::{lemma_mod_add_multiples_vanish, lemma_mod_self_0, lemma_small_mod};
use crate::domain::{Direction, MonitorView, WorkspaceView};
use crate::error::CycleErrorView;
use crate::model::{
    bound_and_visible, current_workspace_from_reply, focused_monitor, focused_monitor_from_reply,
    has_focus, insert_by_id, next_index, opposite, previous_index, some_monitor_has_focus,
    some_workspace_is_bound_and_visible, sort_by_id, sorted_by_id, step_index,
    strictly_sorted_by_id, target_from_replies, target_in_snapshot, target_workspace,
    workspaces_for_monitor, workspaces_from_reply,
};

verus! {

/// In a cycle of `n` positions, the position after `i` is `i + 1`, and the
/// first one after the last; the position before `i` is `i - 1`, and the last
/// one before the first.
pub proof fn lemma_step_wraps(i: int, n: int)
    requires
        0 <= i < n,
    ensures
        next_index(i, n) == if i + 1 == n {
            0
        } else {
            i + 1
        },
        previous_index(i, n) == if i == 0 {
            n - 1
        } else {
            i - 1
        },
{
    if i + 1 == n {
        lemma_mod_self_0(n);
    } else {
        lemma_small_mod((i + 1) as nat, n as nat);
    }
    if i == 0 {
        lemma_small_mod((n - 1) as nat, n as nat);
    } else {
        lemma_mod_add_multiples_vanish(i - 1, n);
        lemma_small_mod((i - 1) as nat, n as nat);
    }
}

/// Cycling maps the positions of a cycle onto themselves, one to one: a
/// step stays within the cycle, and a step forward and a step back undo
/// each other, in either order.
pub proof fn lemma_step_is_bijection(i: int, n: int)
    requires
        0 <= i < n,
    ensures
        0 <= next_index(i, n) < n,
        0 <= previous_index(i, n) < n,
        previous_index(next_index(i, n), n) == i,
        next_index(previous_index(i, n), n) == i,
{
    lemma_step_wraps(i, n);
    lemma_step_wraps(next_index(i, n), n);
    lemma_step_wraps(previous_index(i, n), n);
}

/// No two positions of a cycle lead to the same position by a step in one
/// direction.
pub proof fn lemma_step_is_injective(i: int, j: int, n: int, direction: Direction)
    requires
        0 <= i < n,
        0 <= j < n,
        step_index(i, n, direction) == step_index(j, n, direction),
    ensures
        i == j,
{
    lemma_step_is_bijection(i, n);
    lemma_step_is_bijection(j, n);
}

/// The focused monitor is one of the monitors, and one that is marked
/// focused.
pub proof fn lemma_focused_monitor_has_focus(monitors: Seq<MonitorView>)
    ensures
        focused_monitor(monitors) matches Ok(monitor) ==> monitor.focused && monitors.contains(
            monitor,
        ),
{
    let focused = monitors.filter(has_focus());
    if focused.len() > 0 {
        monitors.lemma_filter_pred(has_focus(), 0);
        assert(focused.contains(focused[0]));
        monitors.lemma_filter_contains_rev(has_focus(), focused[0]);
    }
}

/// The first monitor that is marked focused is the focused monitor.
pub proof fn lemma_first_focus(monitors: Seq<MonitorView>, i: int)
    requires
        0 <= i < monitors.len(),
        monitors[i].focused,
        forall|j: int| 0 <= j < i ==> !monitors[j].focused,
    ensures
        focused_monitor(monitors) == Ok::<MonitorView, CycleErrorView>(monitors[i]),
{
    let before = monitors.take(i);
    let after = monitors.skip(i + 1);
    assert(before.all(|m: MonitorView| !has_focus()(m)));
    before.lemma_all_neg_filter_empty(has_focus());
    after.lemma_filter_prepend(monitors[i], has_focus());
    Seq::filter_distributes_over_add(before, seq![monitors[i]] + after, has_focus());
    assert(monitors =~= before + (seq![monitors[i]] + after));
    assert(monitors.filter(has_focus()) =~= seq![monitors[i]] + after.filter(has_focus()));
}

/// Where exactly one monitor is marked focused, that monitor and no other
/// is the focused monitor.
pub proof fn lemma_unique_focus(monitors: Seq<MonitorView>, i: int)
    requires
        0 <= i < monitors.len(),
        monitors[i].focused,
        forall|j: int| 0 <= j < monitors.len() && j != i ==> !monitors[j].focused,
    ensures
        focused_monitor(monitors) == Ok::<MonitorView, CycleErrorView>(monitors[i]),
{
    lemma_first_focus(monitors, i);
}

/// Where no monitor is marked focused, there is no focused monitor: the
/// resolution fails with `NoFocusedMonitor`. Where one is, it succeeds.
pub proof fn lemma_no_focus(monitors: Seq<MonitorView>)
    ensures
        !some_monitor_has_focus(monitors) <==> focused_monitor(monitors) == Err::<
            MonitorView,
            CycleErrorView,
        >(CycleErrorView::NoFocusedMonitor),
        some_monitor_has_focus(monitors) <==> focused_monitor(monitors) is Ok,
{
    if some_monitor_has_focus(monitors) {
        let j = choose|j: int| 0 <= j < monitors.len() && monitors[j].focused;
        monitors.lemma_filter_contains(has_focus(), j);
    } else {
        assert(monitors.all(|m: MonitorView| !has_focus()(m)));
        monitors.lemma_all_neg_filter_empty(has_focus());
    }
}

/// Putting a workspace into a list at the position behind which every id
/// is greater than its own, and before which the last id is not, is what
/// [`insert_by_id`] does.
pub proof fn lemma_insert_position(sorted: Seq<WorkspaceView>, w: WorkspaceView, p: int)
    requires
        0 <= p <= sorted.len(),
        forall|k: int| p <= k < sorted.len() ==> sorted[k].id > w.id,
        p > 0 ==> sorted[p - 1].id <= w.id,
    ensures
        insert_by_id(sorted, w) == sorted.insert(p, w),
    decreases sorted.len() - p,
{
    if p == sorted.len() {
        assert(sorted.insert(p, w) =~= sorted.push(w));
    } else {
        lemma_insert_position(sorted.drop_last(), w, p);
        assert(sorted.insert(p, w) =~= sorted.drop_last().insert(p, w).push(sorted.last()));
    }
}

/// Inserting by id keeps a sorted list sorted, and adds the workspace to
/// what the list holds.
pub proof fn lemma_insert_by_id(sorted: Seq<WorkspaceView>, w: WorkspaceView)
    requires
        sorted_by_id(sorted),
    ensures
        sorted_by_id(insert_by_id(sorted, w)),
        insert_by_id(sorted, w).to_multiset() == sorted.to_multiset().insert(w),
        insert_by_id(sorted, w).len() == sorted.len() + 1,
    decreases sorted.len(),
{
    broadcast use vstd::seq_lib::group_to_multiset_ensures;

    if sorted.len() == 0 || sorted.last().id <= w.id {
    } else {
        let front = sorted.drop_last();
        lemma_insert_by_id(front, w);
        let placed = insert_by_id(front, w);
        assert(sorted =~= front.push(sorted.last()));
        assert forall|i: int| 0 <= i < placed.len() implies placed[i].id <= sorted.last().id by {
            assert(placed.to_multiset().count(placed[i]) > 0);
            if placed[i] != w {
                assert(front.to_multiset().count(placed[i]) > 0);
                let k = choose|k: int| 0 <= k < front.len() && front[k] == placed[i];
                assert(sorted[k] == placed[i]);
            }
        }
        assert(front.push(sorted.last()).to_multiset().insert(w) =~= placed.to_multiset().insert(
            sorted.last(),
        ));
    }
}

/// Sorting by id gives a list whose ids never decrease and which holds
/// what the given list holds, each workspace as often.
pub proof fn lemma_sort_by_id(workspaces: Seq<WorkspaceView>)
    ensures
        sorted_by_id(sort_by_id(workspaces)),
        sort_by_id(workspaces).to_multiset() == workspaces.to_multiset(),
        sort_by_id(workspaces).len() == workspaces.len(),
    decreases workspaces.len(),
{
    broadcast use vstd::seq_lib::group_to_multiset_ensures;

    if workspaces.len() == 0 {
    } else {
        lemma_sort_by_id(workspaces.drop_last());
        lemma_insert_by_id(sort_by_id(workspaces.drop_last()), workspaces.last());
        assert(workspaces =~= workspaces.drop_last().push(workspaces.last()));
    }
}

/// The workspaces resolved for a monitor are those among the given ones
/// that are bound to it and visible, each as often as it was given, in an
/// order in which the ids never decrease. No hidden workspace is among
/// them, nor one of another monitor. Resolution fails where no workspace
/// counts, and there only.
pub proof fn lemma_workspaces_for_monitor(workspaces: Seq<WorkspaceView>, monitor_name: Seq<char>)
    ensures
        match workspaces_for_monitor(workspaces, monitor_name) {
            Ok(visible) => {
                &&& visible.len() > 0
                &&& sorted_by_id(visible)
                &&& visible.to_multiset() == workspaces.filter(
                    bound_and_visible(monitor_name),
                ).to_multiset()
                &&& forall|i: int|
                    0 <= i < visible.len() ==> visible[i].monitor_name == monitor_name
                        && visible[i].id > 0
                &&& forall|i: int|
                    0 <= i < workspaces.len() && workspaces[i].monitor_name == monitor_name
                        && workspaces[i].id > 0 ==> visible.contains(workspaces[i])
                &&& some_workspace_is_bound_and_visible(workspaces, monitor_name)
            },
            Err(e) => {
                &&& e == CycleErrorView::NoWorkspacesForMonitor(monitor_name)
                &&& !some_workspace_is_bound_and_visible(workspaces, monitor_name)
            },
        },
{
    broadcast use vstd::seq_lib::group_to_multiset_ensures;

    let counts = bound_and_visible(monitor_name);
    let bound = workspaces.filter(counts);
    assert forall|i: int| 0 <= i < workspaces.len() && counts(workspaces[i]) implies bound.contains(
        workspaces[i],
    ) by {
        workspaces.lemma_filter_contains(counts, i);
    }
    if bound.len() > 0 {
        let visible = sort_by_id(bound);
        lemma_sort_by_id(bound);
        assert(some_workspace_is_bound_and_visible(workspaces, monitor_name)) by {
            workspaces.lemma_filter_pred(counts, 0);
            assert(bound.contains(bound[0]));
            workspaces.lemma_filter_contains_rev(counts, bound[0]);
            let i = choose|i: int| 0 <= i < workspaces.len() && workspaces[i] == bound[0];
            assert(workspaces[i].monitor_name == monitor_name && workspaces[i].visible());
        }
        assert forall|i: int| 0 <= i < visible.len() implies counts(visible[i]) by {
            assert(visible.to_multiset().count(visible[i]) > 0);
            let k = choose|k: int| 0 <= k < bound.len() && bound[k] == visible[i];
            workspaces.lemma_filter_pred(counts, k);
        }
        assert forall|i: int| 0 <= i < workspaces.len() && counts(workspaces[i]) implies #[trigger]
            visible.contains(workspaces[i]) by {
            assert(bound.to_multiset().count(workspaces[i]) > 0);
        }
    }
}

/// Where no visible workspace of the monitor was given twice, the ids of
/// the resolved workspaces increase from each to the next.
pub proof fn lemma_workspaces_for_monitor_strict(
    workspaces: Seq<WorkspaceView>,
    monitor_name: Seq<char>,
)
    requires
        workspaces.filter(bound_and_visible(monitor_name)).no_duplicates(),
    ensures
        workspaces_for_monitor(workspaces, monitor_name) matches Ok(visible)
            ==> strictly_sorted_by_id(visible),
{
    let bound = workspaces.filter(bound_and_visible(monitor_name));
    if bound.len() > 0 {
        let visible = sort_by_id(bound);
        lemma_workspaces_for_monitor(workspaces, monitor_name);
        bound.lemma_multiset_has_no_duplicates();
        visible.lemma_multiset_has_no_duplicates_conv();
        assert forall|i: int, j: int| 0 <= i < j < visible.len() implies visible[i].id
            < visible[j].id by {
            if visible[i].id == visible[j].id {
                assert(visible[i] == visible[j]);
            }
        }
    }
}

/// A list whose ids increase holds no workspace twice.
pub proof fn lemma_strictly_sorted_has_no_duplicates(workspaces: Seq<WorkspaceView>)
    requires
        strictly_sorted_by_id(workspaces),
    ensures
        workspaces.no_duplicates(),
{
    assert forall|i: int, j: int|
        0 <= i < workspaces.len() && 0 <= j < workspaces.len() && i != j implies workspaces[i]
        != workspaces[j] by {
        if i < j {
            assert(workspaces[i].id < workspaces[j].id);
        } else {
            assert(workspaces[j].id < workspaces[i].id);
        }
    }
}

/// The target of the workspace at position `i` of a list that holds no
/// workspace twice is the workspace one step from `i`.
pub proof fn lemma_target_by_position(
    all_workspaces: Seq<WorkspaceView>,
    i: int,
    direction: Direction,
)
    requires
        all_workspaces.no_duplicates(),
        0 <= i < all_workspaces.len(),
    ensures
        target_workspace(all_workspaces, all_workspaces[i], direction) == Ok::<
            WorkspaceView,
            CycleErrorView,
        >(all_workspaces[step_index(i, all_workspaces.len() as int, direction)]),
{
    all_workspaces.index_of_first_ensures(all_workspaces[i]);
}

/// The round trip: in a list that holds no workspace twice, as every list
/// does whose ids increase, a step from a workspace of the list and then a
/// step in the opposite direction lead back to that workspace.
pub proof fn lemma_round_trip(
    all_workspaces: Seq<WorkspaceView>,
    active_workspace: WorkspaceView,
    direction: Direction,
)
    requires
        all_workspaces.no_duplicates(),
        all_workspaces.contains(active_workspace),
    ensures
        target_workspace(all_workspaces, active_workspace, direction) is Ok,
        target_workspace(
            all_workspaces,
            target_workspace(all_workspaces, active_workspace, direction)->Ok_0,
            opposite(direction),
        ) == Ok::<WorkspaceView, CycleErrorView>(active_workspace),
{
    let n = all_workspaces.len() as int;
    let i = choose|i: int| 0 <= i < n && all_workspaces[i] == active_workspace;
    let k = step_index(i, n, direction);
    lemma_step_is_bijection(i, n);
    lemma_target_by_position(all_workspaces, i, direction);
    lemma_target_by_position(all_workspaces, k, opposite(direction));
}

/// A workspace that the list does not hold has no target: the lookup fails
/// and no other workspace is picked in its place.
pub proof fn lemma_absent_has_no_target(
    all_workspaces: Seq<WorkspaceView>,
    active_workspace: WorkspaceView,
    direction: Direction,
)
    ensures
        !all_workspaces.contains(active_workspace) <==> target_workspace(
            all_workspaces,
            active_workspace,
            direction,
        ) == Err::<WorkspaceView, CycleErrorView>(CycleErrorView::CurrentWorkspaceNotFound),
{
    all_workspaces.index_of_first_ensures(active_workspace);
}

/// In a list of visible workspaces a hidden workspace has no target.
pub proof fn lemma_hidden_has_no_target(
    all_workspaces: Seq<WorkspaceView>,
    active_workspace: WorkspaceView,
    direction: Direction,
)
    requires
        forall|i: int| 0 <= i < all_workspaces.len() ==> all_workspaces[i].visible(),
        !active_workspace.visible(),
    ensures
        target_workspace(all_workspaces, active_workspace, direction) == Err::<
            WorkspaceView,
            CycleErrorView,
        >(CycleErrorView::CurrentWorkspaceNotFound),
{
    lemma_absent_has_no_target(all_workspaces, active_workspace, direction);
}

/// The target is one of the workspaces of the list.
pub proof fn lemma_target_is_listed(
    all_workspaces: Seq<WorkspaceView>,
    active_workspace: WorkspaceView,
    direction: Direction,
)
    ensures
        target_workspace(all_workspaces, active_workspace, direction) matches Ok(target)
            ==> all_workspaces.contains(target),
{
    all_workspaces.index_of_first_ensures(active_workspace);
    if let Some(i) = all_workspaces.index_of_first(active_workspace) {
        lemma_step_is_bijection(i, all_workspaces.len() as int);
    }
}

/// Where a monitor has focus and has visible workspaces, but the workspace
/// active on it is a hidden one, there is no target: the request fails with
/// `CurrentWorkspaceNotFound`.
pub proof fn lemma_hidden_active_workspace(
    monitors: Seq<MonitorView>,
    workspaces: Seq<WorkspaceView>,
    direction: Direction,
)
    requires
        focused_monitor(monitors) matches Ok(monitor) && !monitor.active_workspace.visible()
            && workspaces_for_monitor(workspaces, monitor.name) is Ok,
    ensures
        target_in_snapshot(monitors, workspaces, direction) == Err::<
            WorkspaceView,
            CycleErrorView,
        >(CycleErrorView::CurrentWorkspaceNotFound),
{
    let monitor = focused_monitor(monitors)->Ok_0;
    let visible = workspaces_for_monitor(workspaces, monitor.name)->Ok_0;
    lemma_workspaces_for_monitor(workspaces, monitor.name);
    lemma_absent_has_no_target(visible, monitor.active_workspace, direction);
}

/// Where a request finds the focused monitor and its visible workspaces,
/// but the current workspace is a hidden one, the request fails with
/// `CurrentWorkspaceNotFound`.
pub proof fn lemma_hidden_current_workspace(
    monitors: Result<Seq<MonitorView>, Seq<char>>,
    workspaces: Result<Seq<WorkspaceView>, Seq<char>>,
    monitors_again: Result<Seq<MonitorView>, Seq<char>>,
    direction: Direction,
)
    requires
        focused_monitor_from_reply(monitors) matches Ok(monitor) && workspaces_from_reply(
            workspaces,
            monitor.name,
        ) is Ok,
        current_workspace_from_reply(monitors_again) matches Ok(current) && !current.visible(),
    ensures
        target_from_replies(monitors, workspaces, monitors_again, direction) == Err::<
            WorkspaceView,
            CycleErrorView,
        >(CycleErrorView::CurrentWorkspaceNotFound),
{
    let monitor = focused_monitor_from_reply(monitors)->Ok_0;
    let visible = workspaces_from_reply(workspaces, monitor.name)->Ok_0;
    let current = current_workspace_from_reply(monitors_again)->Ok_0;
    lemma_workspaces_for_monitor(workspaces->Ok_0, monitor.name);
    lemma_absent_has_no_target(visible, current, direction);
}

/// Where the compositor lists the same monitors both times it is asked,
/// the target of a request is the target in what it reported.
pub proof fn lemma_target_from_steady_replies(
    monitors: Seq<MonitorView>,
    workspaces: Seq<WorkspaceView>,
    direction: Direction,
)
    ensures
        target_from_replies(Ok(monitors), Ok(workspaces), Ok(monitors), direction)
            == target_in_snapshot(monitors, workspaces, direction),
{
}

/// What a request for the target gives on success is a visible workspace.
pub proof fn lemma_target_from_replies_is_visible(
    monitors: Result<Seq<MonitorView>, Seq<char>>,
    workspaces: Result<Seq<WorkspaceView>, Seq<char>>,
    monitors_again: Result<Seq<MonitorView>, Seq<char>>,
    direction: Direction,
)
    ensures
        target_from_replies(monitors, workspaces, monitors_again, direction) matches Ok(target)
            ==> target.visible(),
{
    if let Ok(target) = target_from_replies(monitors, workspaces, monitors_again, direction) {
        let monitor = focused_monitor_from_reply(monitors)->Ok_0;
        let visible = workspaces_from_reply(workspaces, monitor.name)->Ok_0;
        let current = current_workspace_from_reply(monitors_again)->Ok_0;
        lemma_workspaces_for_monitor(workspaces->Ok_0, monitor.name);
        lemma_target_is_listed(visible, current, direction);
    }
}

} // verus!
