//! The ordered, selectable, draggable collection of tabs, and the close
//! sequencing over it.
//!
//! Every operation keeps the selection invariant: the selected index
//! stays inside the tab list whenever the list is non-empty, and is zero
//! when it is empty. Identifiers handed to tabs count up and are never
//! reused, so a stale reference can always be told from a live one.

use vstd::prelude::*;
use crate::geometry::{HostGeometry, plan_fits};
use crate::layout;
use crate::process::{NeovideProcess, SpawnError};
use crate::config::Profile;

verus! {

/// One tab: a supervised content process plus its display metadata.
#[derive(Clone, Debug)]
pub struct Tab {
    /// Identifier, unique for the lifetime of the manager.
    pub id: usize,
    /// The supervised content process.
    pub process: NeovideProcess,
    /// Name of the profile the tab was created from.
    pub profile_name: String,
    /// Icon of that profile.
    pub profile_icon: String,
    /// Working directory fixed at creation time.
    pub working_directory: String,
    /// Index of the profile in the configuration.
    pub profile_index: usize,
    /// When a graceful close was requested, if it was.
    pub close_requested_at: Option<u64>,
    /// Title format from the profile.
    pub title_format: String,
    /// The expanded title as last computed.
    pub cached_title: String,
}

/// Transient state of a tab drag: where it started and where the pointer
/// is now.
#[derive(Clone, Copy, Debug)]
pub struct DragState {
    /// Index of the dragged tab, rebound on every swap.
    pub tab_index: usize,
    /// Pointer x when the drag started.
    pub start_x: i32,
    /// Pointer x now.
    pub current_x: i32,
    /// Left edge of the dragged tab's slot when the drag started.
    pub tab_start_left: i32,
}

impl DragState {
    /// Whether the pointer moved far enough for a genuine drag.
    pub open spec fn spec_active(self) -> bool {
        self.current_x - self.start_x > 5 || self.current_x - self.start_x < -5
    }

    /// Where the dragged tab is drawn: its slot's left edge shifted by
    /// the pointer's travel.
    pub open spec fn spec_visual_x(self) -> int {
        self.tab_start_left + self.current_x - self.start_x
    }

    /// Whether the pointer moved more than the click threshold; below
    /// it, releasing counts as a plain click on the tab.
    pub fn is_active(&self) -> (r: bool)
        requires
            i32::MIN < self.current_x - self.start_x <= i32::MAX,
        ensures
            r == self.spec_active(),
    {
        let d = self.current_x - self.start_x;
        d > 5 || d < -5
    }

    /// The x position the dragged tab is drawn at.
    pub fn get_visual_x(&self) -> (r: i32)
        requires
            i32::MIN <= self.tab_start_left + self.current_x - self.start_x <= i32::MAX,
        ensures
            r == self.spec_visual_x(),
    {
        let travel: i64 = self.current_x as i64 - self.start_x as i64;
        (self.tab_start_left as i64 + travel) as i32
    }
}

/// The selection after removing the tab at `removed` from a list that
/// then holds `new_len` tabs: a selection past the end moves to the last
/// tab, one after the removed tab shifts left, anything else stays.
pub open spec fn spec_rebalanced_selection(selected: int, removed: int, new_len: int) -> int {
    if new_len == 0 {
        selected
    } else if selected >= new_len {
        new_len - 1
    } else if selected > removed {
        selected - 1
    } else {
        selected
    }
}

/// A sequence with the element at `from` relocated to position `to`.
pub open spec fn spec_moved_seq<T>(s: Seq<T>, from: int, to: int) -> Seq<T> {
    s.remove(from).insert(to, s[from])
}

/// The selection after a tab moves from `from` to `to`: it follows the
/// moved tab, or shifts by one when the move crosses it.
pub open spec fn spec_moved_selection(selected: int, from: int, to: int) -> int {
    if selected == from {
        to
    } else if from < selected && to >= selected {
        selected - 1
    } else if from > selected && to <= selected {
        selected + 1
    } else {
        selected
    }
}

/// The ordered collection of tabs: which is selected, the id counter,
/// and any drag in progress.
pub struct TabManager {
    /// All tabs in display order.
    pub tabs: Vec<Tab>,
    /// Index of the selected tab; `0` when there are no tabs.
    pub selected: usize,
    /// The next identifier to hand out; counts up, never reused.
    pub next_id: usize,
    /// The drag in progress, if any.
    pub drag_state: Option<DragState>,
    /// The home directory, injected once by the host, for `%w` titles.
    pub home_dir: Option<String>,
}

impl TabManager {
    /// The selection invariant, and fresh, distinct identifiers.
    pub open spec fn wf(self) -> bool {
        &&& (self.tabs@.len() == 0 ==> self.selected == 0)
        &&& (self.tabs@.len() > 0 ==> (self.selected as int) < self.tabs@.len())
        &&& forall|i: int| 0 <= i < self.tabs@.len()
            ==> (#[trigger] self.tabs@[i].id) < self.next_id
        &&& forall|i: int, j: int| 0 <= i < j < self.tabs@.len()
            ==> self.tabs@[i].id != self.tabs@[j].id
    }

    /// An empty manager.
    pub fn new() -> (r: Self)
        ensures
            r.wf(),
            r.tabs@.len() == 0,
            r.selected == 0,
            r.next_id == 1,
            r.drag_state is None,
            r.home_dir is None,
    {
        TabManager {
            tabs: Vec::new(),
            selected: 0,
            next_id: 1,
            drag_state: None,
            home_dir: None,
        }
    }

    /// Hand the manager the home directory, for showing working
    /// directories in titles.
    pub fn set_home_dir(&mut self, home_dir: Option<String>)
        ensures
            final(self).home_dir == home_dir,
            final(self).tabs == old(self).tabs,
            final(self).selected == old(self).selected,
            final(self).next_id == old(self).next_id,
            final(self).drag_state == old(self).drag_state,
    {
        self.home_dir = home_dir;
    }

    /// How many tabs are open.
    pub fn count(&self) -> (r: usize)
        ensures
            r == self.tabs@.len(),
    {
        self.tabs.len()
    }

    /// Whether no tab is open.
    pub fn is_empty(&self) -> (r: bool)
        ensures
            r == (self.tabs@.len() == 0),
    {
        self.tabs.len() == 0
    }

    /// The selected tab's index.
    pub fn selected_index(&self) -> (r: usize)
        ensures
            r == self.selected,
    {
        self.selected
    }

    /// The tab at `index`, if there is one.
    pub fn get(&self, index: usize) -> (r: Option<&Tab>)
        ensures
            index < self.tabs@.len() ==> (r matches Some(t) && *t == self.tabs@[index as int]),
            index >= self.tabs@.len() ==> r is None,
    {
        if index < self.tabs.len() {
            Some(&self.tabs[index])
        } else {
            None
        }
    }

    /// Mutable access to the tab at `index`, for the host to record its
    /// observations on the tab's supervisor.
    pub fn get_mut(&mut self, index: usize) -> (r: Option<&mut Tab>)
        ensures
            index < old(self).tabs@.len() ==> (r matches Some(t)
                && *t == old(self).tabs@[index as int]
                && final(self).tabs@ == old(self).tabs@.update(index as int, *final(t))
                && final(self).selected == old(self).selected
                && final(self).next_id == old(self).next_id
                && final(self).drag_state == old(self).drag_state
                && final(self).home_dir == old(self).home_dir),
            index >= old(self).tabs@.len() ==> (r is None && *final(self) == *old(self)),
    {
        if index < self.tabs.len() {
            Some(&mut self.tabs[index])
        } else {
            None
        }
    }

    /// The selected tab, if any tab is open.
    pub fn selected_tab(&self) -> (r: Option<&Tab>)
        requires
            self.wf(),
        ensures
            self.tabs@.len() > 0 ==> (r matches Some(t) && *t == self.tabs@[self.selected as int]),
            self.tabs@.len() == 0 ==> r is None,
    {
        self.get(self.selected)
    }

    /// Mutable access to the selected tab, if any tab is open.
    pub fn selected_tab_mut(&mut self) -> (r: Option<&mut Tab>)
        requires
            old(self).wf(),
        ensures
            old(self).tabs@.len() > 0 ==> (r matches Some(t)
                && *t == old(self).tabs@[old(self).selected as int]
                && final(self).tabs@ == old(self).tabs@.update(old(self).selected as int, *final(t))
                && final(self).selected == old(self).selected
                && final(self).next_id == old(self).next_id
                && final(self).drag_state == old(self).drag_state
                && final(self).home_dir == old(self).home_dir),
            old(self).tabs@.len() == 0 ==> (r is None && *final(self) == *old(self)),
    {
        self.get_mut(self.selected)
    }

    /// The tab built for a fresh supervisor: profile values copied in,
    /// no close requested, the profile's name as the first title.
    pub open spec fn spec_new_tab(
        id: usize,
        process: NeovideProcess,
        profile: Profile,
        profile_index: usize,
    ) -> Tab {
        Tab {
            id,
            process,
            profile_name: profile.name,
            profile_icon: profile.icon,
            working_directory: profile.working_directory,
            profile_index,
            close_requested_at: None,
            title_format: profile.title,
            cached_title: profile.name,
        }
    }

    /// Adopt the outcome of a spawn attempt. A successful spawn appends a
    /// tab for the new supervisor and selects it; a failed spawn changes
    /// nothing and hands the error back, so the failure stays fatal only
    /// to the tab that was being created.
    pub fn create_tab(
        &mut self,
        spawn_result: Result<NeovideProcess, SpawnError>,
        profile: &Profile,
        profile_index: usize,
    ) -> (r: Result<usize, SpawnError>)
        requires
            old(self).wf(),
            old(self).next_id < usize::MAX,
        ensures
            final(self).wf(),
            spawn_result matches Err(e) ==> (*final(self) == *old(self) && r == Err::<usize, SpawnError>(e)),
            spawn_result matches Ok(p) ==> (
                r == Ok::<usize, SpawnError>(old(self).tabs@.len() as usize)
                && final(self).tabs@ == old(self).tabs@.push(
                    Self::spec_new_tab(old(self).next_id, p, *profile, profile_index))
                && final(self).selected == old(self).tabs@.len()
                && final(self).next_id == old(self).next_id + 1
                && final(self).drag_state == old(self).drag_state
                && final(self).home_dir == old(self).home_dir
            ),
    {
        match spawn_result {
            Err(e) => Err(e),
            Ok(process) => {
                let initial_title = profile.name.clone();
                let tab = Tab {
                    id: self.next_id,
                    process,
                    profile_name: profile.name.clone(),
                    profile_icon: profile.icon.clone(),
                    working_directory: profile.working_directory.clone(),
                    profile_index,
                    close_requested_at: None,
                    title_format: profile.title.clone(),
                    cached_title: initial_title,
                };
                self.next_id += 1;
                self.tabs.push(tab);
                let new_index = self.tabs.len() - 1;
                self.selected = new_index;
                Ok(new_index)
            }
        }
    }

    /// Close the tab at `index`: it leaves the list and the host must
    /// forcefully terminate its process. The selection is rebalanced.
    /// True comes back exactly when this was the last tab, so the caller
    /// knows to close the host window.
    pub fn close_tab(&mut self, index: usize) -> (r: bool)
        requires
            old(self).wf(),
        ensures
            final(self).wf(),
            index >= old(self).tabs@.len() ==> (*final(self) == *old(self) && !r),
            index < old(self).tabs@.len() ==> (
                r == (old(self).tabs@.len() == 1)
                && final(self).tabs@ == old(self).tabs@.remove(index as int)
                && final(self).selected == spec_rebalanced_selection(
                    old(self).selected as int, index as int, old(self).tabs@.len() - 1)
                && final(self).next_id == old(self).next_id
                && final(self).drag_state == old(self).drag_state
                && final(self).home_dir == old(self).home_dir
            ),
    {
        if index >= self.tabs.len() {
            return false;
        }

        let _tab = self.tabs.remove(index);

        if self.tabs.len() == 0 {
            return true;
        }

        if self.selected >= self.tabs.len() {
            self.selected = self.tabs.len() - 1;
        } else if self.selected > index {
            self.selected = self.selected - 1;
        }

        false
    }

    /// Remove a tab whose process already exited: like closing it, but
    /// there is nothing left for the host to terminate. True comes back
    /// exactly when the list is now empty.
    pub fn remove_exited_tab(&mut self, index: usize) -> (r: bool)
        requires
            old(self).wf(),
        ensures
            final(self).wf(),
            index >= old(self).tabs@.len() ==> (*final(self) == *old(self) && !r),
            index < old(self).tabs@.len() ==> (
                r == (old(self).tabs@.len() == 1)
                && final(self).tabs@ == old(self).tabs@.remove(index as int)
                && final(self).selected == spec_rebalanced_selection(
                    old(self).selected as int, index as int, old(self).tabs@.len() - 1)
                && final(self).next_id == old(self).next_id
                && final(self).drag_state == old(self).drag_state
                && final(self).home_dir == old(self).home_dir
            ),
    {
        if index >= self.tabs.len() {
            return false;
        }

        let _tab = self.tabs.remove(index);

        if self.tabs.len() == 0 {
            return true;
        }

        if self.selected >= self.tabs.len() {
            self.selected = self.tabs.len() - 1;
        } else if self.selected > index {
            self.selected = self.selected - 1;
        }

        false
    }

    /// Relocate the tab at `from_index` to `to_index`; the selection
    /// keeps pointing at the same logical tab. Out-of-range or equal
    /// indices change nothing.
    pub fn move_tab(&mut self, from_index: usize, to_index: usize)
        requires
            old(self).wf(),
        ensures
            final(self).wf(),
            (from_index >= old(self).tabs@.len() || to_index >= old(self).tabs@.len()
                || from_index == to_index) ==> *final(self) == *old(self),
            (from_index < old(self).tabs@.len() && to_index < old(self).tabs@.len()
                && from_index != to_index) ==> (
                final(self).tabs@ == spec_moved_seq(old(self).tabs@, from_index as int, to_index as int)
                && final(self).selected == spec_moved_selection(
                    old(self).selected as int, from_index as int, to_index as int)
                && final(self).next_id == old(self).next_id
                && final(self).drag_state == old(self).drag_state
                && final(self).home_dir == old(self).home_dir
            ),
    {
        if from_index >= self.tabs.len() || to_index >= self.tabs.len() || from_index == to_index {
            return;
        }

        let tab = self.tabs.remove(from_index);
        self.tabs.insert(to_index, tab);

        if self.selected == from_index {
            self.selected = to_index;
        } else if from_index < self.selected && to_index >= self.selected {
            self.selected = self.selected - 1;
        } else if from_index > self.selected && to_index <= self.selected {
            self.selected = self.selected + 1;
        }

        proof {
            assert forall|i: int, j: int| 0 <= i < j < self.tabs@.len()
                implies self.tabs@[i].id != self.tabs@[j].id
            by {
                lemma_moved_seq_is_permutation(
                    old(self).tabs@, from_index as int, to_index as int, i);
                lemma_moved_seq_is_permutation(
                    old(self).tabs@, from_index as int, to_index as int, j);
            }
            assert forall|i: int| 0 <= i < self.tabs@.len()
                implies (#[trigger] self.tabs@[i].id) < self.next_id
            by {
                lemma_moved_seq_is_permutation(
                    old(self).tabs@, from_index as int, to_index as int, i);
            }
        }
    }

    /// The indices of tabs whose process is no longer running, highest
    /// first, so the caller can remove them one by one without shifting
    /// the indices it has not processed yet.
    pub fn find_exited_tabs(&self) -> (r: Vec<usize>)
        ensures
            forall|k: int| 0 <= k < r@.len() ==> (#[trigger] r@[k]) < self.tabs@.len()
                && !self.tabs@[r@[k] as int].process.spec_running(),
            forall|k1: int, k2: int| 0 <= k1 < k2 < r@.len() ==> r@[k1] > r@[k2],
            forall|i: int| 0 <= i < self.tabs@.len()
                && !(#[trigger] self.tabs@[i]).process.spec_running()
                ==> r@.contains(i as usize),
    {
        let mut exited: Vec<usize> = Vec::new();
        let mut i: usize = self.tabs.len();
        while i > 0
            invariant
                i <= self.tabs@.len(),
                forall|k: int| 0 <= k < exited@.len() ==> i <= (#[trigger] exited@[k]) < self.tabs@.len()
                    && !self.tabs@[exited@[k] as int].process.spec_running(),
                forall|k1: int, k2: int| 0 <= k1 < k2 < exited@.len() ==> exited@[k1] > exited@[k2],
                forall|j: int| i <= j < self.tabs@.len()
                    && !(#[trigger] self.tabs@[j]).process.spec_running()
                    ==> exited@.contains(j as usize),
            decreases i,
        {
            i -= 1;
            if !self.tabs[i].process.is_running() {
                let ghost prev = exited@;
                exited.push(i);
                proof {
                    assert forall|j: int| i <= j < self.tabs@.len()
                        && !(#[trigger] self.tabs@[j]).process.spec_running()
                        implies exited@.contains(j as usize)
                    by {
                        if j == i {
                            assert(exited@[exited@.len() - 1] == i as usize);
                        } else {
                            assert(prev.contains(j as usize));
                            let k = choose|k: int| 0 <= k < prev.len() && prev[k] == j as usize;
                            assert(exited@[k] == j as usize);
                        }
                    }
                }
            }
        }
        exited
    }

    /// The first tab created from the profile at `profile_index`, if
    /// any, so a profile hotkey can reuse its tab instead of opening a
    /// second one.
    pub fn find_tab_by_profile_index(&self, profile_index: usize) -> (r: Option<usize>)
        ensures
            r matches Some(i) ==> i < self.tabs@.len()
                && self.tabs@[i as int].profile_index == profile_index
                && forall|j: int| 0 <= j < i ==> self.tabs@[j].profile_index != profile_index,
            r is None ==> forall|j: int| 0 <= j < self.tabs@.len()
                ==> self.tabs@[j].profile_index != profile_index,
    {
        let mut i: usize = 0;
        while i < self.tabs.len()
            invariant
                i <= self.tabs@.len(),
                forall|j: int| 0 <= j < i ==> self.tabs@[j].profile_index != profile_index,
            decreases self.tabs@.len() - i,
        {
            if self.tabs[i].profile_index == profile_index {
                return Some(i);
            }
            i += 1;
        }
        None
    }

    /// The profile index the tab at `index` was created from.
    pub fn get_tab_profile_index(&self, index: usize) -> (r: Option<usize>)
        ensures
            index < self.tabs@.len() ==> r == Some(self.tabs@[index as int].profile_index),
            index >= self.tabs@.len() ==> r is None,
    {
        if index < self.tabs.len() {
            Some(self.tabs[index].profile_index)
        } else {
            None
        }
    }

    /// The icon of the tab at `index`.
    pub fn get_tab_icon(&self, index: usize) -> (r: Option<&str>)
        ensures
            index < self.tabs@.len() ==> (r matches Some(s)
                && s@ == self.tabs@[index as int].profile_icon@),
            index >= self.tabs@.len() ==> r is None,
    {
        if index < self.tabs.len() {
            Some(self.tabs[index].profile_icon.as_str())
        } else {
            None
        }
    }

    /// The working directory of the tab at `index`.
    pub fn get_tab_working_directory(&self, index: usize) -> (r: Option<&str>)
        ensures
            index < self.tabs@.len() ==> (r matches Some(s)
                && s@ == self.tabs@[index as int].working_directory@),
            index >= self.tabs@.len() ==> r is None,
    {
        if index < self.tabs.len() {
            Some(self.tabs[index].working_directory.as_str())
        } else {
            None
        }
    }

    /// The displayed label of the tab at `index`; empty for an index out
    /// of range.
    pub fn get_tab_label(&self, index: usize) -> (r: String)
        ensures
            index < self.tabs@.len() ==> r@ == self.tabs@[index as int].cached_title@,
            index >= self.tabs@.len() ==> r@ == Seq::<char>::empty(),
    {
        if index < self.tabs.len() {
            self.tabs[index].cached_title.clone()
        } else {
            String::new()
        }
    }
}

/// The view of an optional home-directory string.
pub open spec fn spec_home_view(h: Option<String>) -> Option<Seq<char>> {
    match h {
        Some(s) => Some(s@),
        None => None,
    }
}

/// The content window's title as last observed; empty while none is
/// known.
pub open spec fn spec_tab_window_title(t: Tab) -> Seq<char> {
    if t.process.spec_ready() {
        t.process.window.unwrap().title@
    } else {
        Seq::empty()
    }
}

/// What a tab's label shows: its title format expanded, or the profile
/// name when the expansion comes out empty.
pub open spec fn spec_tab_displayed_title(t: Tab, home: Option<Seq<char>>) -> Seq<char> {
    let expanded = crate::config::spec_expand_title(
        t.title_format@, t.profile_name@, t.working_directory@, spec_tab_window_title(t), home);
    if expanded.len() == 0 {
        t.profile_name@
    } else {
        expanded
    }
}

/// A tab marked as pending close at `now`; an earlier mark stays.
pub open spec fn spec_marked(t: Tab, now: u64) -> Tab {
    Tab {
        close_requested_at: if t.close_requested_at is Some {
            t.close_requested_at
        } else {
            Some(now)
        },
        ..t
    }
}

/// A tab with its supervisor replaced and everything else kept.
pub open spec fn spec_with_process(t: Tab, p: NeovideProcess) -> Tab {
    Tab { process: p, ..t }
}

/// Whether `tnew` is `told` with its label freshly expanded.
pub open spec fn spec_retitled(told: Tab, home: Option<Seq<char>>, tnew: Tab) -> bool {
    &&& tnew.cached_title@ == spec_tab_displayed_title(told, home)
    &&& tnew.id == told.id
    &&& tnew.process == told.process
    &&& tnew.profile_name == told.profile_name
    &&& tnew.profile_icon == told.profile_icon
    &&& tnew.working_directory == told.working_directory
    &&& tnew.profile_index == told.profile_index
    &&& tnew.close_requested_at == told.close_requested_at
    &&& tnew.title_format == told.title_format
}

/// Whether `tnew` is `told` refreshed from profile `p`: the profile's
/// name, icon and title format are taken over, the label is re-expanded,
/// and the working directory stays as it was fixed at creation time.
pub open spec fn spec_refreshed(told: Tab, p: Profile, home: Option<Seq<char>>, tnew: Tab) -> bool {
    &&& tnew.profile_name == p.name
    &&& tnew.profile_icon == p.icon
    &&& tnew.title_format == p.title
    &&& tnew.id == told.id
    &&& tnew.process == told.process
    &&& tnew.working_directory == told.working_directory
    &&& tnew.profile_index == told.profile_index
    &&& tnew.close_requested_at == told.close_requested_at
    &&& tnew.cached_title@ == ({
        let expanded = crate::config::spec_expand_title(
            p.title@, p.name@, told.working_directory@, spec_tab_window_title(told), home);
        if expanded.len() == 0 {
            p.name@
        } else {
            expanded
        }
    })
}

/// The window handles that a position pass must move, in tab order: the
/// handle of every discovered window that does not already sit at its
/// planned rectangle.
pub open spec fn spec_move_list(s: Seq<Tab>, host: HostGeometry, titlebar_height: int) -> Seq<u64>
    decreases s.len(),
{
    if s.len() == 0 {
        Seq::empty()
    } else {
        let rest = spec_move_list(s.drop_first(), host, titlebar_height);
        if s.first().process.spec_position_changes(host, titlebar_height) {
            seq![s.first().process.window.unwrap().hwnd] + rest
        } else {
            rest
        }
    }
}

impl TabManager {
    /// Re-expand the label of the tab at `index` from its format, the
    /// stored window title and the home directory; true means the label
    /// changed and the host should repaint.
    pub fn update_tab_title(&mut self, index: usize) -> (r: bool)
        ensures
            index >= old(self).tabs@.len() ==> (*final(self) == *old(self) && !r),
            index < old(self).tabs@.len() ==> (
                r == (spec_tab_displayed_title(
                        old(self).tabs@[index as int], spec_home_view(old(self).home_dir))
                    != old(self).tabs@[index as int].cached_title@)
                && final(self).tabs@.len() == old(self).tabs@.len()
                && (forall|j: int| 0 <= j < old(self).tabs@.len() && j != index
                    ==> final(self).tabs@[j] == old(self).tabs@[j])
                && spec_retitled(old(self).tabs@[index as int],
                    spec_home_view(old(self).home_dir), final(self).tabs@[index as int])
                && final(self).selected == old(self).selected
                && final(self).next_id == old(self).next_id
                && final(self).drag_state == old(self).drag_state
                && final(self).home_dir == old(self).home_dir
            ),
    {
        if index >= self.tabs.len() {
            return false;
        }
        let window_title = self.tabs[index].process.get_window_title();
        let new_title = {
            let tab = &self.tabs[index];
            let context = crate::config::TitleContext {
                profile_name: tab.profile_name.as_str(),
                working_directory: tab.working_directory.as_str(),
                window_title: window_title.as_str(),
            };
            match &self.home_dir {
                Some(h) => crate::config::expand_title(
                    tab.title_format.as_str(), &context, Some(h.as_str())),
                None => crate::config::expand_title(tab.title_format.as_str(), &context, None),
            }
        };
        let final_title = if new_title.as_str().unicode_len() == 0 {
            self.tabs[index].profile_name.clone()
        } else {
            new_title
        };
        let changed = !crate::strutil::str_eq_str(
            final_title.as_str(), self.tabs[index].cached_title.as_str());
        if changed {
            let tab = &mut self.tabs[index];
            tab.cached_title = final_title;
        }
        changed
    }

    /// Re-expand the selected tab's label.
    pub fn update_selected_tab_title(&mut self) -> (r: bool)
        ensures
            old(self).selected >= old(self).tabs@.len() ==> (*final(self) == *old(self) && !r),
            old(self).selected < old(self).tabs@.len() ==> (
                r == (spec_tab_displayed_title(
                        old(self).tabs@[old(self).selected as int],
                        spec_home_view(old(self).home_dir))
                    != old(self).tabs@[old(self).selected as int].cached_title@)
                && final(self).tabs@.len() == old(self).tabs@.len()
                && (forall|j: int| 0 <= j < old(self).tabs@.len() && j != old(self).selected
                    ==> final(self).tabs@[j] == old(self).tabs@[j])
                && spec_retitled(old(self).tabs@[old(self).selected as int],
                    spec_home_view(old(self).home_dir),
                    final(self).tabs@[old(self).selected as int])
                && final(self).selected == old(self).selected
                && final(self).next_id == old(self).next_id
                && final(self).drag_state == old(self).drag_state
                && final(self).home_dir == old(self).home_dir
            ),
    {
        let index = self.selected;
        self.update_tab_title(index)
    }

    /// Select the tab at `index` and re-expand its label; true means the
    /// selection changed. Selecting the current tab or an index out of
    /// range changes nothing.
    pub fn select_tab(&mut self, index: usize) -> (r: bool)
        requires
            old(self).wf(),
        ensures
            final(self).wf(),
            r == (index < old(self).tabs@.len() && index != old(self).selected),
            !r ==> *final(self) == *old(self),
            r ==> (
                final(self).selected == index
                && final(self).tabs@.len() == old(self).tabs@.len()
                && (forall|j: int| 0 <= j < old(self).tabs@.len() && j != index
                    ==> final(self).tabs@[j] == old(self).tabs@[j])
                && spec_retitled(old(self).tabs@[index as int],
                    spec_home_view(old(self).home_dir), final(self).tabs@[index as int])
                && final(self).next_id == old(self).next_id
                && final(self).drag_state == old(self).drag_state
                && final(self).home_dir == old(self).home_dir
            ),
    {
        if index < self.tabs.len() && index != self.selected {
            self.selected = index;
            self.update_tab_title(index);
            true
        } else {
            false
        }
    }

    /// Forcefully drop every tab; the host must terminate each process.
    pub fn terminate_all(&mut self)
        ensures
            final(self).wf(),
            final(self).tabs@.len() == 0,
            final(self).selected == 0,
            final(self).next_id == old(self).next_id,
            final(self).drag_state == old(self).drag_state,
            final(self).home_dir == old(self).home_dir,
    {
        self.tabs = Vec::new();
        self.selected = 0;
    }

    /// Whether the selected tab's window has been discovered.
    pub fn is_selected_ready(&self) -> (r: bool)
        requires
            self.wf(),
        ensures
            r == (self.tabs@.len() > 0
                && self.tabs@[self.selected as int].process.spec_ready()),
    {
        if self.tabs.len() > 0 {
            self.tabs[self.selected].process.is_ready()
        } else {
            false
        }
    }

    /// Run a position pass over every tab against the current host
    /// geometry, and hand back the handles of the windows the host must
    /// move to the planned rectangle, in tab order. Windows already in
    /// place are left alone.
    pub fn update_all_positions(&mut self, host: &HostGeometry, titlebar_height: i32) -> (r: Vec<u64>)
        requires
            plan_fits(*host, titlebar_height as int),
        ensures
            final(self).tabs@.len() == old(self).tabs@.len(),
            forall|i: int| 0 <= i < old(self).tabs@.len()
                ==> final(self).tabs@[i] == spec_with_process(old(self).tabs@[i],
                    old(self).tabs@[i].process.spec_positioned(*host, titlebar_height as int)),
            r@ == spec_move_list(old(self).tabs@, *host, titlebar_height as int),
            final(self).selected == old(self).selected,
            final(self).next_id == old(self).next_id,
            final(self).drag_state == old(self).drag_state,
            final(self).home_dir == old(self).home_dir,
    {
        let ghost orig = self.tabs@;
        let mut moves: Vec<u64> = Vec::new();
        let mut i: usize = 0;
        proof {
            assert(orig.skip(0) =~= orig);
        }
        while i < self.tabs.len()
            invariant
                i <= self.tabs@.len(),
                self.tabs@.len() == orig.len(),
                plan_fits(*host, titlebar_height as int),
                forall|j: int| i <= j < orig.len() ==> self.tabs@[j] == orig[j],
                forall|j: int| 0 <= j < i ==> self.tabs@[j] == spec_with_process(orig[j],
                    orig[j].process.spec_positioned(*host, titlebar_height as int)),
                spec_move_list(orig, *host, titlebar_height as int)
                    == moves@ + spec_move_list(orig.skip(i as int), *host, titlebar_height as int),
                self.selected == old(self).selected,
                self.next_id == old(self).next_id,
                self.drag_state == old(self).drag_state,
                self.home_dir == old(self).home_dir,
            decreases self.tabs@.len() - i,
        {
            let ghost rest = orig.skip(i as int);
            proof {
                assert(rest.first() == orig[i as int]);
                assert(rest.drop_first() =~= orig.skip(i + 1 as int));
            }
            let handle = self.tabs[i].process.window_handle();
            let tab = &mut self.tabs[i];
            let moved = tab.process.update_position(host, titlebar_height);
            if moved {
                match handle {
                    Some(h) => {
                        moves.push(h);
                        proof {
                            assert((moves@ + spec_move_list(orig.skip(i + 1 as int), *host,
                                    titlebar_height as int))
                                =~= (moves@.subrange(0, moves@.len() - 1)
                                    + (seq![orig[i as int].process.window.unwrap().hwnd]
                                        + spec_move_list(orig.skip(i + 1 as int), *host,
                                            titlebar_height as int))));
                        }
                    }
                    None => {
                        proof {
                            assert(false);
                        }
                    }
                }
            }
            i += 1;
        }
        proof {
            assert(orig.skip(orig.len() as int) =~= Seq::<Tab>::empty());
            assert(moves@ + spec_move_list(orig.skip(orig.len() as int), *host,
                titlebar_height as int) =~= moves@);
        }
        moves
    }

    /// Activate the selected tab's window (place it, show it; the host
    /// also raises it) and mark every other tab's window hidden; the
    /// host mirrors each step with the matching OS calls.
    pub fn activate_selected(&mut self, host: &HostGeometry, titlebar_height: i32)
        requires
            old(self).wf(),
            plan_fits(*host, titlebar_height as int),
        ensures
            final(self).wf(),
            final(self).tabs@.len() == old(self).tabs@.len(),
            forall|i: int| 0 <= i < old(self).tabs@.len() ==> final(self).tabs@[i]
                == spec_with_process(old(self).tabs@[i],
                    if i == old(self).selected as int {
                        old(self).tabs@[i].process.spec_activated(*host, titlebar_height as int)
                    } else {
                        old(self).tabs@[i].process.spec_concealed()
                    }),
            final(self).selected == old(self).selected,
            final(self).next_id == old(self).next_id,
            final(self).drag_state == old(self).drag_state,
            final(self).home_dir == old(self).home_dir,
    {
        let ghost orig = self.tabs@;
        let mut i: usize = 0;
        while i < self.tabs.len()
            invariant
                i <= self.tabs@.len(),
                self.tabs@.len() == orig.len(),
                plan_fits(*host, titlebar_height as int),
                forall|j: int| i <= j < orig.len() ==> self.tabs@[j] == orig[j],
                forall|j: int| 0 <= j < i ==> self.tabs@[j] == spec_with_process(orig[j],
                    if j == self.selected as int {
                        orig[j].process.spec_activated(*host, titlebar_height as int)
                    } else {
                        orig[j].process.spec_concealed()
                    }),
                self.selected == old(self).selected,
                self.next_id == old(self).next_id,
                self.drag_state == old(self).drag_state,
                self.home_dir == old(self).home_dir,
            decreases self.tabs@.len() - i,
        {
            let is_selected = i == self.selected;
            let tab = &mut self.tabs[i];
            if is_selected {
                tab.process.activate(host, titlebar_height);
            } else {
                tab.process.conceal();
            }
            i += 1;
        }
    }

    /// Activate only the selected tab's window, leaving the rest alone:
    /// the re-raise path after a click on the already selected tab.
    pub fn activate_and_foreground_selected(&mut self, host: &HostGeometry, titlebar_height: i32)
        requires
            old(self).wf(),
            plan_fits(*host, titlebar_height as int),
        ensures
            final(self).wf(),
            old(self).tabs@.len() == 0 ==> *final(self) == *old(self),
            old(self).tabs@.len() > 0 ==> (
                final(self).tabs@ == old(self).tabs@.update(old(self).selected as int,
                    spec_with_process(old(self).tabs@[old(self).selected as int],
                        old(self).tabs@[old(self).selected as int].process
                            .spec_activated(*host, titlebar_height as int)))
                && final(self).selected == old(self).selected
                && final(self).next_id == old(self).next_id
                && final(self).drag_state == old(self).drag_state
                && final(self).home_dir == old(self).home_dir
            ),
    {
        if self.tabs.len() > 0 {
            let sel = self.selected;
            let tab = &mut self.tabs[sel];
            tab.process.activate(host, titlebar_height);
        }
    }

    /// Ask the tab at `index` to close gracefully, at time `now`. When
    /// its window is known, the mark is recorded and the host must post
    /// the close signal: true comes back and the tab stays until its
    /// process exits. Without a window the tab is closed forcefully at
    /// once and false comes back.
    pub fn request_close_tab(&mut self, index: usize, now: u64) -> (r: bool)
        requires
            old(self).wf(),
        ensures
            final(self).wf(),
            index >= old(self).tabs@.len() ==> (*final(self) == *old(self) && !r),
            index < old(self).tabs@.len() ==> (
                r == old(self).tabs@[index as int].process.spec_ready()
                && (r ==> (
                    final(self).tabs@ == old(self).tabs@.update(index as int,
                        spec_marked(old(self).tabs@[index as int], now))
                    && final(self).selected == old(self).selected
                    && final(self).next_id == old(self).next_id
                    && final(self).drag_state == old(self).drag_state
                    && final(self).home_dir == old(self).home_dir
                ))
                && (!r ==> (
                    final(self).tabs@ == old(self).tabs@.remove(index as int)
                    && final(self).selected == spec_rebalanced_selection(
                        old(self).selected as int, index as int, old(self).tabs@.len() - 1)
                    && final(self).next_id == old(self).next_id
                    && final(self).drag_state == old(self).drag_state
                    && final(self).home_dir == old(self).home_dir
                ))
            ),
    {
        if index >= self.tabs.len() {
            return false;
        }
        if self.tabs[index].process.request_close() {
            let tab = &mut self.tabs[index];
            if tab.close_requested_at.is_none() {
                tab.close_requested_at = Some(now);
            }
            true
        } else {
            self.close_tab(index);
            false
        }
    }

    /// Begin the ordered shutdown of every tab, at time `now`. Only the
    /// selected, visible tab is asked to close right away (the host
    /// posts its close signal when its window is known, and kills its
    /// process otherwise); every other tab is merely marked pending, to
    /// be asked one at a time as exits are observed. Hidden windows
    /// cannot be relied on to handle a close signal, so no signal is
    /// ever sent to one.
    #[verifier::loop_isolation(false)]
    pub fn request_close_all(&mut self, now: u64)
        requires
            old(self).wf(),
        ensures
            final(self).wf(),
            old(self).tabs@.len() == 0 ==> *final(self) == *old(self),
            old(self).tabs@.len() > 0
                && old(self).tabs@[old(self).selected as int].process.spec_ready() ==> (
                final(self).tabs@.len() == old(self).tabs@.len()
                && (forall|i: int| 0 <= i < old(self).tabs@.len()
                    ==> final(self).tabs@[i] == spec_marked(old(self).tabs@[i], now))
                && final(self).selected == old(self).selected
                && final(self).next_id == old(self).next_id
                && final(self).drag_state == old(self).drag_state
                && final(self).home_dir == old(self).home_dir
            ),
            old(self).tabs@.len() > 0
                && !old(self).tabs@[old(self).selected as int].process.spec_ready() ==> ({
                let removed = old(self).tabs@.remove(old(self).selected as int);
                let newsel = spec_rebalanced_selection(old(self).selected as int,
                    old(self).selected as int, old(self).tabs@.len() - 1);
                final(self).tabs@.len() == removed.len()
                && (forall|i: int| 0 <= i < removed.len() && i != newsel
                    ==> final(self).tabs@[i] == spec_marked(removed[i], now))
                && (removed.len() > 0 ==> final(self).tabs@[newsel] == removed[newsel])
                && final(self).selected == newsel
                && final(self).next_id == old(self).next_id
                && final(self).drag_state == old(self).drag_state
                && final(self).home_dir == old(self).home_dir
            }),
    {
        if self.tabs.len() == 0 {
            return;
        }
        let sel = self.selected;
        if self.tabs[sel].process.request_close() {
            let tab = &mut self.tabs[sel];
            if tab.close_requested_at.is_none() {
                tab.close_requested_at = Some(now);
            }
        } else {
            self.close_tab(sel);
        }

        let ghost mid = self.tabs@;
        proof {
            let osel = old(self).selected as int;
            if old(self).tabs@[osel].process.spec_ready() {
                assert(mid =~= old(self).tabs@.update(osel,
                    spec_marked(old(self).tabs@[osel], now)));
            }
        }
        let mut i: usize = 0;
        while i < self.tabs.len()
            invariant
                i <= self.tabs@.len(),
                self.tabs@.len() == mid.len(),
                self.selected == 0 || (self.selected as int) < mid.len(),
                forall|j: int| i <= j < mid.len() ==> self.tabs@[j] == mid[j],
                forall|j: int| 0 <= j < i && j != self.selected as int
                    ==> self.tabs@[j] == spec_marked(mid[j], now),
                forall|j: int| 0 <= j < i && j == self.selected as int
                    ==> self.tabs@[j] == mid[j],
                old(self).tabs@[old(self).selected as int].process.spec_ready() ==> (
                    self.selected == old(self).selected
                    && mid == old(self).tabs@.update(old(self).selected as int,
                        spec_marked(old(self).tabs@[old(self).selected as int], now))
                ),
                !old(self).tabs@[old(self).selected as int].process.spec_ready() ==> (
                    self.selected as int == spec_rebalanced_selection(old(self).selected as int,
                        old(self).selected as int, old(self).tabs@.len() - 1)
                    && mid == old(self).tabs@.remove(old(self).selected as int)
                ),
                self.next_id == old(self).next_id,
                self.drag_state == old(self).drag_state,
                self.home_dir == old(self).home_dir,
            decreases self.tabs@.len() - i,
        {
            if i != self.selected {
                let tab = &mut self.tabs[i];
                if tab.close_requested_at.is_none() {
                    tab.close_requested_at = Some(now);
                }
            }
            i += 1;
        }

        proof {
            let osel = old(self).selected as int;
            if old(self).tabs@[osel].process.spec_ready() {
                assert(mid =~= old(self).tabs@.update(osel,
                    spec_marked(old(self).tabs@[osel], now)));
                assert forall|k: int| 0 <= k < old(self).tabs@.len()
                    implies self.tabs@[k] == spec_marked(old(self).tabs@[k], now)
                by {
                    if k == osel {
                        assert(self.tabs@[k] == mid[k]);
                        assert(mid[k] == spec_marked(old(self).tabs@[k], now));
                    } else {
                        assert(self.tabs@[k] == spec_marked(mid[k], now));
                        assert(mid[k] == old(self).tabs@[k]);
                    }
                }
            }
        }
    }

    /// Whether any tab is marked pending close.
    pub fn has_pending_close(&self) -> (r: bool)
        ensures
            r == (exists|i: int| 0 <= i < self.tabs@.len()
                && (#[trigger] self.tabs@[i]).close_requested_at is Some),
    {
        let mut i: usize = 0;
        while i < self.tabs.len()
            invariant
                i <= self.tabs@.len(),
                forall|j: int| 0 <= j < i
                    ==> (#[trigger] self.tabs@[j]).close_requested_at is None,
            decreases self.tabs@.len() - i,
        {
            if self.tabs[i].close_requested_at.is_some() {
                return true;
            }
            i += 1;
        }
        false
    }

    /// Carry the ordered shutdown on after a tab was removed: when the
    /// now selected tab is marked pending, its window is shown (so it
    /// can handle the signal) and, exactly when the window is known,
    /// true comes back and the host must post the close signal to it.
    pub fn continue_close_sequence(&mut self) -> (r: bool)
        requires
            old(self).wf(),
        ensures
            final(self).wf(),
            r == (old(self).tabs@.len() > 0
                && old(self).tabs@[old(self).selected as int].close_requested_at is Some
                && old(self).tabs@[old(self).selected as int].process.spec_ready()),
            (old(self).tabs@.len() > 0
                && old(self).tabs@[old(self).selected as int].close_requested_at is Some) ==> (
                final(self).tabs@ == old(self).tabs@.update(old(self).selected as int,
                    spec_with_process(old(self).tabs@[old(self).selected as int],
                        old(self).tabs@[old(self).selected as int].process.spec_shown()))
                && final(self).selected == old(self).selected
                && final(self).next_id == old(self).next_id
                && final(self).drag_state == old(self).drag_state
                && final(self).home_dir == old(self).home_dir
            ),
            !(old(self).tabs@.len() > 0
                && old(self).tabs@[old(self).selected as int].close_requested_at is Some)
                ==> *final(self) == *old(self),
    {
        if self.tabs.len() == 0 {
            return false;
        }
        let sel = self.selected;
        if self.tabs[sel].close_requested_at.is_some() {
            let tab = &mut self.tabs[sel];
            tab.process.show();
            return tab.process.request_close();
        }
        false
    }

    /// Refresh every tab's profile-derived values after a configuration
    /// reload: name, icon and title format are re-read for tabs whose
    /// profile index still resolves, and their labels re-expanded; the
    /// working directory stays as fixed at creation. A tab whose profile
    /// is gone keeps its values.
    pub fn refresh_profiles(&mut self, profiles: &Vec<Profile>)
        ensures
            final(self).tabs@.len() == old(self).tabs@.len(),
            forall|i: int| 0 <= i < old(self).tabs@.len() ==> (
                ((old(self).tabs@[i].profile_index as int) < profiles@.len()
                    ==> spec_refreshed(#[trigger] old(self).tabs@[i],
                        profiles@[old(self).tabs@[i].profile_index as int],
                        spec_home_view(old(self).home_dir), final(self).tabs@[i]))
                && ((old(self).tabs@[i].profile_index as int) >= profiles@.len()
                    ==> final(self).tabs@[i] == old(self).tabs@[i])
            ),
            final(self).selected == old(self).selected,
            final(self).next_id == old(self).next_id,
            final(self).drag_state == old(self).drag_state,
            final(self).home_dir == old(self).home_dir,
    {
        let ghost orig = self.tabs@;
        let mut i: usize = 0;
        while i < self.tabs.len()
            invariant
                i <= self.tabs@.len(),
                self.tabs@.len() == orig.len(),
                forall|j: int| i <= j < orig.len() ==> self.tabs@[j] == orig[j],
                forall|j: int| 0 <= j < i ==> (
                    ((orig[j].profile_index as int) < profiles@.len()
                        ==> spec_refreshed(#[trigger] orig[j],
                            profiles@[orig[j].profile_index as int],
                            spec_home_view(self.home_dir), self.tabs@[j]))
                    && ((orig[j].profile_index as int) >= profiles@.len()
                        ==> self.tabs@[j] == orig[j])
                ),
                self.selected == old(self).selected,
                self.next_id == old(self).next_id,
                self.drag_state == old(self).drag_state,
                self.home_dir == old(self).home_dir,
            decreases self.tabs@.len() - i,
        {
            let profile_index = self.tabs[i].profile_index;
            if profile_index < profiles.len() {
                let name = profiles[profile_index].name.clone();
                let icon = profiles[profile_index].icon.clone();
                let title_format = profiles[profile_index].title.clone();
                let window_title = self.tabs[i].process.get_window_title();
                let new_title = {
                    let tab = &self.tabs[i];
                    let context = crate::config::TitleContext {
                        profile_name: name.as_str(),
                        working_directory: tab.working_directory.as_str(),
                        window_title: window_title.as_str(),
                    };
                    match &self.home_dir {
                        Some(h) => crate::config::expand_title(
                            title_format.as_str(), &context, Some(h.as_str())),
                        None => crate::config::expand_title(title_format.as_str(), &context, None),
                    }
                };
                let cached_title = if new_title.as_str().unicode_len() == 0 {
                    name.clone()
                } else {
                    new_title
                };
                let tab = &mut self.tabs[i];
                tab.profile_name = name;
                tab.profile_icon = icon;
                tab.title_format = title_format;
                tab.cached_title = cached_title;
            }
            i += 1;
        }
    }

    /// Begin a potential drag of the tab at `index`, with the pointer at
    /// `x`: the drag starts from the tab's own slot, and counts as a
    /// plain click until the pointer travels past the threshold.
    pub fn begin_drag(&mut self, index: usize, x: i32, client_width: i32)
        requires
            old(self).wf(),
            index < old(self).tabs@.len(),
            layout::tab_index_fits(index as int),
            0 <= client_width,
        ensures
            final(self).wf(),
            final(self).tabs == old(self).tabs,
            final(self).selected == old(self).selected,
            final(self).next_id == old(self).next_id,
            final(self).home_dir == old(self).home_dir,
            final(self).drag_state matches Some(d) && d.tab_index == index && d.start_x == x
                && d.current_x == x && d.tab_start_left == layout::spec_tab_left(index as int),
    {
        let tab_rect = layout::get_tab_rect(index, client_width);
        self.drag_state = Some(DragState {
            tab_index: index,
            start_x: x,
            current_x: x,
            tab_start_left: tab_rect.left,
        });
    }

    /// Track a pointer move during a drag: the drag's current position
    /// advances, and once the drag is active, crossing the midpoint of a
    /// neighbouring tab swaps the two tabs at once and rebinds the drag
    /// to the new slot, so the dragged tab stays under the pointer. True
    /// means the drag is active and the host should repaint.
    pub fn drag_move(&mut self, x: i32, client_width: i32) -> (r: bool)
        requires
            old(self).wf(),
            old(self).drag_state matches Some(d) ==> (
                i32::MIN < x - d.start_x <= i32::MAX
                && i32::MIN <= d.tab_start_left + (x - d.start_x)
                && d.tab_start_left + (x - d.start_x) <= i32::MAX - layout::TAB_WIDTH / 2
                && 2 * layout::spec_tab_left(old(self).tabs@.len() as int)
                    + layout::TAB_WIDTH <= i32::MAX
                && i32::MIN <= d.start_x - d.tab_start_left
                && d.start_x - d.tab_start_left
                    + layout::spec_tab_left(old(self).tabs@.len() as int) <= i32::MAX
            ),
        ensures
            final(self).wf(),
            old(self).drag_state is None ==> (*final(self) == *old(self) && !r),
            old(self).drag_state matches Some(d) ==> ({
                let d1 = DragState { current_x: x, ..d };
                let swap = layout::spec_swap_target(
                    d.tab_index as int, d1.spec_visual_x(), old(self).tabs@.len() as int);
                r == d1.spec_active()
                && final(self).next_id == old(self).next_id
                && final(self).home_dir == old(self).home_dir
                && (!d1.spec_active() ==> (
                    final(self).tabs == old(self).tabs
                    && final(self).selected == old(self).selected
                    && final(self).drag_state == Some(d1)
                ))
                && ((d1.spec_active() && (d.tab_index >= old(self).tabs@.len() || swap is None)) ==> (
                    final(self).tabs == old(self).tabs
                    && final(self).selected == old(self).selected
                    && final(self).drag_state == Some(d1)
                ))
                && ((d1.spec_active() && d.tab_index < old(self).tabs@.len()
                        && swap is Some) ==> ({
                    let t = swap.unwrap();
                    final(self).tabs@ == spec_moved_seq(
                        old(self).tabs@, d.tab_index as int, t as int)
                    && final(self).selected == spec_moved_selection(
                        old(self).selected as int, d.tab_index as int, t as int)
                    && (final(self).drag_state matches Some(d2)
                        && d2.tab_index == t
                        && d2.current_x == x
                        && d2.tab_start_left == layout::spec_tab_left(t as int)
                        && d2.start_x == d.start_x - d.tab_start_left
                            + layout::spec_tab_left(t as int))
                }))
            }),
    {
        match self.drag_state {
            None => false,
            Some(drag0) => {
                let mut drag = drag0;
                drag.current_x = x;
                self.drag_state = Some(drag);
                if !drag.is_active() {
                    return false;
                }
                let visual_x = drag.get_visual_x();
                let tab_count = self.tabs.len();
                if drag.tab_index < tab_count {
                    proof {
                        assert(layout::spec_tab_left(drag.tab_index as int + 1)
                            <= layout::spec_tab_left(tab_count as int)) by (nonlinear_arith)
                            requires drag.tab_index as int + 1 <= tab_count as int;
                    }
                    match layout::calculate_swap_target(drag.tab_index, visual_x, tab_count, client_width) {
                        Some(target_index) => {
                            proof {
                                assert(layout::spec_tab_left(target_index as int)
                                    <= layout::spec_tab_left(tab_count as int)) by (nonlinear_arith)
                                    requires target_index as int <= tab_count as int;
                                assert(0 <= layout::spec_tab_left(target_index as int))
                                    by (nonlinear_arith)
                                    requires target_index as int >= 0;
                            }
                            let from_index = drag.tab_index;
                            self.move_tab(from_index, target_index);
                            let new_slot_rect = layout::get_tab_rect(target_index, client_width);
                            let new_start_x = (drag0.start_x as i64 - drag0.tab_start_left as i64
                                + new_slot_rect.left as i64) as i32;
                            self.drag_state = Some(DragState {
                                tab_index: target_index,
                                start_x: new_start_x,
                                current_x: x,
                                tab_start_left: new_slot_rect.left,
                            });
                        }
                        None => {}
                    }
                }
                true
            }
        }
    }

    /// End a drag on pointer release. A drag that never passed the
    /// threshold was a plain click, and the clicked tab's index comes
    /// back so the caller selects it; an actual drag already reordered
    /// the tabs along the way, so nothing is left to do.
    pub fn end_drag(&mut self) -> (r: Option<usize>)
        requires
            old(self).wf(),
            old(self).drag_state matches Some(d)
                ==> i32::MIN < d.current_x - d.start_x <= i32::MAX,
        ensures
            final(self).wf(),
            final(self).tabs == old(self).tabs,
            final(self).selected == old(self).selected,
            final(self).next_id == old(self).next_id,
            final(self).home_dir == old(self).home_dir,
            final(self).drag_state is None,
            r == (match old(self).drag_state {
                Some(d) => if d.spec_active() {
                    Option::<usize>::None
                } else {
                    Some(d.tab_index)
                },
                None => None,
            }),
    {
        let taken = self.drag_state;
        self.drag_state = None;
        match taken {
            Some(drag) => {
                if drag.is_active() {
                    None
                } else {
                    Some(drag.tab_index)
                }
            }
            None => None,
        }
    }
}

/// Each element of a moved sequence is an element of the original: the
/// move only permutes positions.
proof fn lemma_moved_seq_is_permutation<T>(s: Seq<T>, from: int, to: int, i: int)
    requires
        0 <= from < s.len(),
        0 <= to < s.len(),
        0 <= i < s.len(),
    ensures
        exists|k: int| 0 <= k < s.len() && spec_moved_seq(s, from, to)[i] == s[k],
{
    let m = spec_moved_seq(s, from, to);
    if i == to {
        assert(m[i] == s[from]);
    } else if i < to {
        if i < from {
            assert(m[i] == s[i]);
        } else {
            assert(m[i] == s[i + 1]);
        }
    } else {
        if i <= from {
            assert(m[i] == s[i - 1]);
        } else {
            assert(m[i] == s[i]);
        }
    }
}

/// Closing or removing the last remaining tab leaves the manager empty
/// with the selection at zero: the removal's own contract empties the
/// list and reports "was last", and the rebalanced selection of a
/// well-formed single-tab manager is zero.
pub proof fn lemma_closing_last_tab(tm: TabManager)
    requires
        tm.wf(),
        tm.tabs@.len() == 1,
    ensures
        tm.tabs@.remove(0).len() == 0,
        spec_rebalanced_selection(tm.selected as int, 0, 0) == 0,
{
}

/// Moving a tab from `a` to `b` and then from `b` back to `a` restores
/// both the original order and the original selection, for any two
/// distinct valid positions.
pub proof fn lemma_move_tab_round_trip<T>(s: Seq<T>, selected: int, a: int, b: int)
    requires
        0 <= a < s.len(),
        0 <= b < s.len(),
        a != b,
        0 <= selected < s.len(),
    ensures
        spec_moved_seq(spec_moved_seq(s, a, b), b, a) =~= s,
        spec_moved_selection(spec_moved_selection(selected, a, b), b, a) == selected,
{
    let m = spec_moved_seq(s, a, b);
    let mm = spec_moved_seq(m, b, a);
    assert(m.len() == s.len());
    assert(mm.len() == s.len());
    assert forall|i: int| 0 <= i < s.len() implies mm[i] == s[i] by {
        if a < b {
            if i < a {
                assert(mm[i] == m[i]);
                assert(m[i] == s[i]);
            } else if i == a {
                assert(mm[i] == m[b]);
                assert(m[b] == s[a]);
            } else if i <= b {
                assert(mm[i] == m[i - 1]);
                assert(m[i - 1] == s[i]);
            } else {
                assert(mm[i] == m[i]);
                assert(m[i] == s[i]);
            }
        } else {
            if i < b {
                assert(mm[i] == m[i]);
                assert(m[i] == s[i]);
            } else if i == b {
                assert(mm[i] == m[i + 1]);
                assert(m[i + 1] == s[i]);
            } else if i < a {
                assert(mm[i] == m[i + 1]);
                assert(m[i + 1] == s[i]);
            } else if i == a {
                assert(mm[i] == m[b]);
                assert(m[b] == s[a]);
            } else {
                assert(mm[i] == m[i]);
                assert(m[i] == s[i]);
            }
        }
    }
}

} // verus!
