//! Supervisor state for one spawned content process.
//!
//! The host owns the OS resources (the process handle, the discovered
//! window); this module owns every decision about them. `NeovideProcess`
//! is the supervisor's state: what the host has observed of the process
//! and its window, and what the next OS action must be. The host performs
//! an action exactly when the deciding method here says so, and feeds
//! every observation (liveness, window text, window rectangle, discovery
//! scans) back in through the `note_*` methods.

use vstd::prelude::*;
use crate::geometry::{HostGeometry, Rect, plan_fits, spec_plan, calculate_target_rect, needs_move};
use crate::strutil::str_eq_str;

verus! {

/// Why a spawn attempt failed. Fatal only to the tab being created.
#[derive(Clone, Copy, Debug, PartialEq, Eq, Structural)]
pub enum SpawnError {
    /// The content program is not on the search path.
    ExecutableNotFound,
    /// The OS refused to create the process.
    LaunchFailed,
}

impl SpawnError {
    /// A short description for dialogs and logs.
    pub fn message(&self) -> (r: &'static str)
        ensures
            *self is ExecutableNotFound ==> r@ == "content program not found in PATH"@,
            *self is LaunchFailed ==> r@ == "failed to launch the content process"@,
    {
        match self {
            SpawnError::ExecutableNotFound => "content program not found in PATH",
            SpawnError::LaunchFailed => "failed to launch the content process",
        }
    }
}

/// One top-level window as the host's enumeration reports it, reduced to
/// plain values.
#[derive(Clone, Debug)]
pub struct WindowInfo {
    /// Opaque window identifier, valid only for the host to hand back to
    /// the OS.
    pub hwnd: u64,
    pub title: String,
    pub class_name: String,
    pub process_id: u32,
    pub rect: Rect,
    pub visible: bool,
}

/// Exact title every content window carries.
pub open spec fn spec_expected_title() -> Seq<char> {
    "Neovide"@
}

/// Exact window class every content window carries.
pub open spec fn spec_expected_class() -> Seq<char> {
    "Window Class"@
}

/// Whether an enumerated window is the content window of the process with
/// this id: exact title match, exact class match, owning process id equal.
pub open spec fn spec_window_matches(w: WindowInfo, pid: u32) -> bool {
    &&& w.title@ == spec_expected_title()
    &&& w.class_name@ == spec_expected_class()
    &&& w.process_id == pid
}

/// Test one enumerated window against the match criteria.
pub fn window_matches(w: &WindowInfo, pid: u32) -> (r: bool)
    ensures
        r == spec_window_matches(*w, pid),
{
    str_eq_str(w.title.as_str(), "Neovide")
        && str_eq_str(w.class_name.as_str(), "Window Class")
        && w.process_id == pid
}

/// Find the content window of the process with this id in one enumeration
/// pass: the first match wins and the scan stops there.
pub fn find_neovide_window_by_pid(windows: &Vec<WindowInfo>, pid: u32) -> (r: Option<usize>)
    ensures
        r matches Some(i) ==> i < windows@.len() && spec_window_matches(windows@[i as int], pid)
            && forall|j: int| 0 <= j < i ==> !spec_window_matches(windows@[j], pid),
        r is None ==> forall|j: int| 0 <= j < windows@.len()
            ==> !spec_window_matches(windows@[j], pid),
{
    let mut i: usize = 0;
    while i < windows.len()
        invariant
            i <= windows@.len(),
            forall|j: int| 0 <= j < i ==> !spec_window_matches(windows@[j], pid),
        decreases windows@.len() - i,
    {
        if window_matches(&windows[i], pid) {
            return Some(i);
        }
        i += 1;
    }
    None
}

/// How many scans the discovery task may make before giving up: one every
/// 100 ms, for about a minute.
pub const DISCOVERY_MAX_ATTEMPTS: u32 = 600;

/// What one discovery poll concluded.
#[derive(Clone, Copy, Debug, PartialEq, Eq, Structural)]
pub enum DiscoveryPoll {
    /// The window was found; its identifier is carried along.
    Found(u64),
    /// Nothing yet; keep polling.
    Searching,
    /// The attempt budget is spent; discovery failed for good. Fatal to
    /// the whole application.
    TimedOut,
}

/// The discovery task's own state: how many scans it has made.
#[derive(Clone, Copy, Debug, PartialEq, Eq, Structural)]
pub struct WindowDiscovery {
    pub attempts: u32,
}

impl WindowDiscovery {
    /// Fresh discovery state with the whole attempt budget left.
    pub fn new() -> (r: Self)
        ensures
            r.attempts == 0,
    {
        WindowDiscovery { attempts: 0 }
    }

    /// Record the outcome of one scan over the open windows. The first
    /// scan that reports a window wins; a scan that reports none spends
    /// one attempt, and spending the last attempt fails discovery for
    /// good.
    pub fn record_poll(&mut self, scan: Option<u64>) -> (r: DiscoveryPoll)
        requires
            old(self).attempts < DISCOVERY_MAX_ATTEMPTS,
        ensures
            final(self).attempts == old(self).attempts + 1,
            scan matches Some(h) ==> r == DiscoveryPoll::Found(h),
            scan is None && final(self).attempts < DISCOVERY_MAX_ATTEMPTS
                ==> r == DiscoveryPoll::Searching,
            scan is None && final(self).attempts == DISCOVERY_MAX_ATTEMPTS
                ==> r == DiscoveryPoll::TimedOut,
    {
        self.attempts = self.attempts + 1;
        match scan {
            Some(h) => DiscoveryPoll::Found(h),
            None => {
                if self.attempts < DISCOVERY_MAX_ATTEMPTS {
                    DiscoveryPoll::Searching
                } else {
                    DiscoveryPoll::TimedOut
                }
            }
        }
    }
}

/// The supervisor's view of the discovered content window: a weak
/// reference plus the host's latest observations of it.
#[derive(Clone, Debug)]
pub struct ChildWindow {
    /// Opaque window identifier. The child owns the window; this is only
    /// a reference to hand back to the OS.
    pub hwnd: u64,
    /// The window rectangle as last placed or observed.
    pub rect: Rect,
    /// Whether the window is currently shown.
    pub visible: bool,
    /// The window's text as last observed.
    pub title: String,
}

/// Supervisor state for one spawned content process: what is known of the
/// process's liveness and of its window. Every mutating method is a step
/// of the supervisor's state machine; the host mirrors each step with the
/// matching OS call.
#[derive(Clone, Debug)]
pub struct NeovideProcess {
    /// Whether the supervisor still owns a process handle. Cleared by
    /// `terminate`; while set, dropping the tab must kill the process so
    /// no child outlives the host.
    pub has_process: bool,
    /// The last observed liveness of the owned process.
    pub live: bool,
    /// The discovered content window, absent until discovery succeeds.
    pub window: Option<ChildWindow>,
}

impl NeovideProcess {
    /// Whether the process is running: it must still be owned and the
    /// last poll must have seen it alive.
    pub open spec fn spec_running(self) -> bool {
        self.has_process && self.live
    }

    /// Whether discovery has found the content window.
    pub open spec fn spec_ready(self) -> bool {
        self.window is Some
    }

    /// The state after a position update against this host geometry: once
    /// ready, the window rectangle becomes the planned target; everything
    /// else is untouched.
    pub open spec fn spec_positioned(self, host: HostGeometry, titlebar_height: int) -> NeovideProcess {
        if self.window is Some {
            let w = self.window.unwrap();
            let (x, y, r, b) = spec_plan(host, titlebar_height);
            NeovideProcess {
                window: Some(ChildWindow {
                    rect: Rect { left: x as i32, top: y as i32, right: r as i32, bottom: b as i32 },
                    ..w
                }),
                ..self
            }
        } else {
            self
        }
    }

    /// Whether a position update against this host geometry would issue a
    /// move: only when a window is known and its rectangle differs from
    /// the planned target.
    pub open spec fn spec_position_changes(self, host: HostGeometry, titlebar_height: int) -> bool {
        &&& self.window is Some
        &&& self.window.unwrap().rect != self.spec_positioned(host, titlebar_height).window.unwrap().rect
    }

    /// The state after the window's text is observed to be `title`.
    pub open spec fn spec_with_title(self, title: String) -> NeovideProcess {
        if self.window is Some {
            NeovideProcess { window: Some(ChildWindow { title, ..self.window.unwrap() }), ..self }
        } else {
            self
        }
    }

    /// The state after the window's rectangle is observed to be `rect`.
    pub open spec fn spec_with_rect(self, rect: Rect) -> NeovideProcess {
        if self.window is Some {
            NeovideProcess { window: Some(ChildWindow { rect, ..self.window.unwrap() }), ..self }
        } else {
            self
        }
    }

    /// The state after an activation against this host geometry: once
    /// ready, the window sits at its planned rectangle and is shown.
    pub open spec fn spec_activated(self, host: HostGeometry, titlebar_height: int) -> NeovideProcess {
        if self.window is Some {
            let moved = self.spec_positioned(host, titlebar_height);
            NeovideProcess {
                window: Some(ChildWindow { visible: true, ..moved.window.unwrap() }),
                ..self
            }
        } else {
            self
        }
    }

    /// The state with the window shown.
    pub open spec fn spec_shown(self) -> NeovideProcess {
        if self.window is Some {
            NeovideProcess {
                window: Some(ChildWindow { visible: true, ..self.window.unwrap() }),
                ..self
            }
        } else {
            self
        }
    }

    /// The state with the window no longer shown.
    pub open spec fn spec_concealed(self) -> NeovideProcess {
        if self.window is Some {
            NeovideProcess {
                window: Some(ChildWindow { visible: false, ..self.window.unwrap() }),
                ..self
            }
        } else {
            self
        }
    }

    /// Supervisor state right after a successful spawn: the process is
    /// owned and alive, and no window is known yet.
    pub fn new_spawned() -> (r: Self)
        ensures
            r.has_process,
            r.live,
            r.window is None,
            !r.spec_ready(),
            r.spec_running(),
    {
        NeovideProcess { has_process: true, live: true, window: None }
    }

    /// Whether the process is still running, per the latest observation.
    pub fn is_running(&self) -> (r: bool)
        ensures
            r == self.spec_running(),
    {
        self.has_process && self.live
    }

    /// Whether discovery has found the content window. Once true, the
    /// window has already been placed at its planned rectangle.
    pub fn is_ready(&self) -> (r: bool)
        ensures
            r == self.spec_ready(),
    {
        match &self.window {
            Some(_) => true,
            None => false,
        }
    }

    /// The discovered window's identifier, for the host to address OS
    /// calls to.
    pub fn window_handle(&self) -> (r: Option<u64>)
        ensures
            self.spec_ready() ==> r == Some(self.window.unwrap().hwnd),
            !self.spec_ready() ==> r is None,
    {
        match &self.window {
            Some(w) => Some(w.hwnd),
            None => None,
        }
    }

    /// The window rectangle as last placed or observed.
    pub fn window_rect(&self) -> (r: Option<Rect>)
        ensures
            self.spec_ready() ==> r == Some(self.window.unwrap().rect),
            !self.spec_ready() ==> r is None,
    {
        match &self.window {
            Some(w) => Some(w.rect),
            None => None,
        }
    }

    /// The window's text as last observed; empty while no window is
    /// known.
    pub fn get_window_title(&self) -> (r: String)
        ensures
            self.spec_ready() ==> r@ == self.window.unwrap().title@,
            !self.spec_ready() ==> r@ == Seq::<char>::empty(),
    {
        match &self.window {
            Some(w) => w.title.clone(),
            None => String::new(),
        }
    }

    /// Record the host's latest liveness poll of the owned process.
    pub fn note_liveness(&mut self, alive: bool)
        ensures
            final(self).has_process == old(self).has_process,
            final(self).live == alive,
            final(self).window == old(self).window,
            final(self).spec_running() == (old(self).has_process && alive),
    {
        self.live = alive;
    }

    /// Record the window's text as the host just read it; nothing to
    /// record while no window is known.
    pub fn note_window_title(&mut self, title: String)
        ensures
            *final(self) == old(self).spec_with_title(title),
    {
        match &mut self.window {
            Some(w) => {
                w.title = title;
            }
            None => {}
        }
    }

    /// Record the window's rectangle as the host just observed it (the
    /// child may have been moved by outside tools); nothing to record
    /// while no window is known.
    pub fn note_window_rect(&mut self, rect: Rect)
        ensures
            *final(self) == old(self).spec_with_rect(rect),
    {
        match &mut self.window {
            Some(w) => {
                w.rect = rect;
            }
            None => {}
        }
    }

    /// Record the window discovery found: the window is adopted and at
    /// once placed at its planned rectangle, so that by the time
    /// `is_ready` turns true the window already sits where it belongs.
    /// The host must mirror this with the actual move.
    pub fn note_window_discovered(&mut self, hwnd: u64, host: &HostGeometry, titlebar_height: i32)
        requires
            plan_fits(*host, titlebar_height as int),
        ensures
            final(self).has_process == old(self).has_process,
            final(self).live == old(self).live,
            final(self).spec_ready(),
            final(self).window matches Some(w) && w.hwnd == hwnd && w.visible
                && w.title@ == Seq::<char>::empty()
                && (w.rect.left as int, w.rect.top as int, w.rect.right as int, w.rect.bottom as int)
                    == spec_plan(*host, titlebar_height as int),
    {
        let rect = calculate_target_rect(host, titlebar_height);
        self.window = Some(ChildWindow { hwnd, rect, visible: true, title: String::new() });
    }

    /// Recompute the target rectangle and decide whether the window must
    /// be moved: true exactly when a window is known and sits elsewhere.
    /// The stored rectangle becomes the target either way, and the host
    /// must issue the actual move exactly when true comes back. Repeating
    /// the call under unchanged host geometry therefore returns false.
    pub fn update_position(&mut self, host: &HostGeometry, titlebar_height: i32) -> (r: bool)
        requires
            plan_fits(*host, titlebar_height as int),
        ensures
            r == old(self).spec_position_changes(*host, titlebar_height as int),
            *final(self) == old(self).spec_positioned(*host, titlebar_height as int),
    {
        let target = calculate_target_rect(host, titlebar_height);
        match &mut self.window {
            Some(w) => {
                let moved = needs_move(&w.rect, &target);
                w.rect = target;
                moved
            }
            None => false,
        }
    }

    /// Place the window, then show it: the one entry point tab switching
    /// uses. Raising above other windows is the host's side of the step.
    pub fn activate(&mut self, host: &HostGeometry, titlebar_height: i32)
        requires
            plan_fits(*host, titlebar_height as int),
        ensures
            *final(self) == old(self).spec_activated(*host, titlebar_height as int),
            old(self).spec_ready() ==> final(self).window.unwrap().visible,
    {
        let target = calculate_target_rect(host, titlebar_height);
        match &mut self.window {
            Some(w) => {
                w.rect = target;
                w.visible = true;
            }
            None => {}
        }
    }

    /// Mark the window shown, without repositioning or raising it.
    pub fn show(&mut self)
        ensures
            *final(self) == old(self).spec_shown(),
    {
        match &mut self.window {
            Some(w) => {
                w.visible = true;
            }
            None => {}
        }
    }

    /// Mark the window hidden, without repositioning it.
    pub fn conceal(&mut self)
        ensures
            *final(self) == old(self).spec_concealed(),
    {
        match &mut self.window {
            Some(w) => {
                w.visible = false;
            }
            None => {}
        }
    }

    /// Decide a graceful close: true exactly when a window is known, and
    /// the host must then post the OS close signal to it. False means no
    /// window was discovered yet and the caller must fall back to
    /// forceful termination.
    pub fn request_close(&self) -> (r: bool)
        ensures
            r == self.spec_ready(),
    {
        self.is_ready()
    }

    /// Give up ownership of the process for forceful termination: the
    /// host must kill and reap it. Idempotent; calling it with no owned
    /// process, or on an already exited process, is not an error.
    pub fn terminate(&mut self)
        ensures
            !final(self).has_process,
            !final(self).spec_running(),
            final(self).live == old(self).live,
            final(self).window == old(self).window,
    {
        self.has_process = false;
    }
}

/// Placing a window is idempotent: after one position update, a second
/// update under the same host geometry decides that no move is needed.
pub proof fn lemma_update_position_idempotent(
    p: NeovideProcess,
    host: HostGeometry,
    titlebar_height: int,
)
    ensures
        !p.spec_positioned(host, titlebar_height).spec_position_changes(host, titlebar_height),
        p.spec_positioned(host, titlebar_height).spec_positioned(host, titlebar_height)
            == p.spec_positioned(host, titlebar_height),
{
}

} // verus!
