//! Central application state and the decisions behind every control the UI
//! offers: selecting monitors, toggling protection, and adjusting opacity.
//!
//! Each mutating operation returns the window-system actions it gives rise
//! to — spawn requests, close messages, opacity messages — for the
//! unverified shell to perform.

use vstd::prelude::*;
use crate::config::OverlayConfig;
use crate::manager::{OverlayManager, live_hwnds, opacity_posts, spawn_plan};
use crate::monitor::MonitorInfo;
use crate::slider::{opacity_to_percent, percent_of_opacity, preset_alpha, preset_target};

verus! {

/// The default opacity a fresh controller starts with (about 20% darkness).
pub const DEFAULT_OPACITY: u8 = 50;

/// What a toggle of the protection switch gave rise to.
pub enum ProtectionChange {
    /// Protection was switched off: each listed window handle is owed a
    /// close message.
    Disabled(Vec<usize>),
    /// Protection was switched on: each listed request pairs a monitor
    /// index with the overlay configuration to spawn there.
    Enabled(Vec<(usize, OverlayConfig)>),
    /// Nothing changed: protection was off and no monitor was selected.
    Unchanged,
}

/// Whether any of the given selection flags is set.
pub open spec fn spec_any_selected(selected: Seq<bool>) -> bool {
    exists|i: int| 0 <= i < selected.len() && selected[i]
}

/// How many of the given selection flags are set.
pub open spec fn count_selected(selected: Seq<bool>) -> int
    decreases selected.len(),
{
    if selected.len() == 0 {
        0
    } else {
        count_selected(selected.drop_last()) + if selected.last() {
            1 as int
        } else {
            0 as int
        }
    }
}

/// What the activation panel reports under its title.
pub enum PanelStatus {
    /// Protection is on: the number of overlays currently alive.
    ActiveOverlays(usize),
    /// Protection is off and no monitor is selected yet: prompt the user
    /// to select some.
    SelectMonitors,
    /// Protection is off: the number of monitors selected so far.
    SelectedMonitors(usize),
}

/// Central application controller.
///
/// Owns all shared state: the list of monitors, which ones are selected,
/// the current opacity value, and the [`OverlayManager`] that tracks the
/// overlay windows.
pub struct Controller {
    /// Information about every connected monitor.
    pub monitors: Vec<MonitorInfo>,
    /// Per-monitor selection flags (same length as `monitors`).
    pub selected: Vec<bool>,
    /// Whether overlay protection is currently enabled.
    pub overlays_active: bool,
    /// Manages the lifecycle of per-monitor overlay windows.
    pub overlay_manager: OverlayManager,
    /// Current overlay opacity (0-255).
    pub opacity: u8,
}

impl Controller {
    /// The controller's structural invariant: one selection flag and one
    /// overlay entry per monitor.
    pub open spec fn wf(self) -> bool {
        &&& self.selected@.len() == self.monitors@.len()
        &&& self.overlay_manager.states@.len() == self.monitors@.len()
    }

    /// Create a new controller for the given set of monitors: nothing
    /// selected, protection off, no overlay alive, default opacity.
    pub fn new(monitors: Vec<MonitorInfo>) -> (c: Controller)
        ensures
            c.wf(),
            c.monitors@ == monitors@,
            forall|i: int| 0 <= i < c.selected@.len() ==> !c.selected@[i],
            !c.overlays_active,
            forall|i: int|
                0 <= i < c.overlay_manager.states@.len()
                    ==> c.overlay_manager.states@[i].hwnd is None,
            c.opacity == DEFAULT_OPACITY,
    {
        let n = monitors.len();
        let mut selected: Vec<bool> = Vec::new();
        let mut i: usize = 0;
        while i < n
            invariant
                i <= n,
                selected@.len() == i,
                forall|j: int| 0 <= j < i ==> !selected@[j],
            decreases n - i,
        {
            selected.push(false);
            i = i + 1;
        }
        Controller {
            monitors,
            selected,
            overlays_active: false,
            overlay_manager: OverlayManager::new(n),
            opacity: DEFAULT_OPACITY,
        }
    }

    /// Whether at least one monitor is selected.
    pub fn any_selected(&self) -> (any: bool)
        ensures
            any == spec_any_selected(self.selected@),
    {
        let mut i: usize = 0;
        while i < self.selected.len()
            invariant
                i <= self.selected@.len(),
                forall|j: int| 0 <= j < i ==> !self.selected@[j],
            decreases self.selected@.len() - i,
        {
            if self.selected[i] {
                return true;
            }
            i = i + 1;
        }
        false
    }

    /// How many monitors are selected.
    pub fn selected_count(&self) -> (count: usize)
        ensures
            count == count_selected(self.selected@),
    {
        let mut count: usize = 0;
        let mut i: usize = 0;
        while i < self.selected.len()
            invariant
                i <= self.selected@.len(),
                count <= i,
                count == count_selected(self.selected@.take(i as int)),
            decreases self.selected@.len() - i,
        {
            proof {
                assert(self.selected@.take(i as int + 1).drop_last() =~= self.selected@.take(
                    i as int,
                ));
                assert(self.selected@.take(i as int + 1).last() == self.selected@[i as int]);
            }
            if self.selected[i] {
                count = count + 1;
            }
            i = i + 1;
        }
        proof {
            assert(self.selected@.take(self.selected@.len() as int) =~= self.selected@);
        }
        count
    }

    /// Toggle a monitor's selection flag — but only while protection is
    /// off, so the covered set cannot change under live overlays.
    pub fn toggle_selection(&mut self, index: usize)
        requires
            old(self).wf(),
            index < old(self).monitors@.len(),
        ensures
            final(self).wf(),
            final(self).monitors@ == old(self).monitors@,
            final(self).overlays_active == old(self).overlays_active,
            final(self).overlay_manager.states@ == old(self).overlay_manager.states@,
            final(self).opacity == old(self).opacity,
            old(self).overlays_active ==> final(self).selected@ == old(self).selected@,
            !old(self).overlays_active ==> final(self).selected@ == old(self).selected@.update(
                index as int,
                !old(self).selected@[index as int],
            ),
    {
        if !self.overlays_active {
            let flag = self.selected[index];
            self.selected.set(index, !flag);
        }
    }

    /// Record a newly-received window handle for the given monitor index.
    /// An index beyond the monitor list is ignored.
    pub fn register_hwnd(&mut self, index: usize, ptr: usize)
        ensures
            final(self).monitors@ == old(self).monitors@,
            final(self).selected@ == old(self).selected@,
            final(self).overlays_active == old(self).overlays_active,
            final(self).opacity == old(self).opacity,
            final(self).overlay_manager.states@.len() == old(self).overlay_manager.states@.len(),
            index < old(self).overlay_manager.states@.len()
                ==> final(self).overlay_manager.states@
                == old(self).overlay_manager.states@.update(
                index as int,
                (crate::config::OverlayState { hwnd: Some(ptr) }),
            ),
            index >= old(self).overlay_manager.states@.len()
                ==> final(self).overlay_manager.states@ == old(self).overlay_manager.states@,
    {
        self.overlay_manager.register_hwnd(index, ptr);
    }

    /// Toggle the protection switch.
    ///
    /// Switching off clears the overlay bookkeeping and returns the handles
    /// owed a close message. Switching on succeeds only when at least one
    /// monitor is selected, and returns the spawn requests for every
    /// selected monitor without a live overlay.
    pub fn toggle_protection(&mut self) -> (change: ProtectionChange)
        requires
            old(self).wf(),
        ensures
            final(self).wf(),
            final(self).monitors@ == old(self).monitors@,
            final(self).selected@ == old(self).selected@,
            final(self).opacity == old(self).opacity,
            old(self).overlays_active ==> ({
                &&& !final(self).overlays_active
                &&& forall|i: int|
                    0 <= i < final(self).overlay_manager.states@.len()
                        ==> final(self).overlay_manager.states@[i].hwnd is None
                &&& final(self).overlay_manager.states@.len() == old(
                    self,
                ).overlay_manager.states@.len()
                &&& (change matches ProtectionChange::Disabled(closed) && closed@ == live_hwnds(
                    old(self).overlay_manager.states@,
                ))
            }),
            !old(self).overlays_active && spec_any_selected(old(self).selected@) ==> ({
                &&& final(self).overlays_active
                &&& final(self).overlay_manager.states@ == old(self).overlay_manager.states@
                &&& (change matches ProtectionChange::Enabled(requests) && requests@
                == spawn_plan(
                    old(self).monitors@,
                    old(self).overlay_manager.states@,
                    old(self).selected@,
                    old(self).opacity,
                    old(self).monitors@.len() as int,
                ))
            }),
            !old(self).overlays_active && !spec_any_selected(old(self).selected@) ==> ({
                &&& final(self).overlays_active == old(self).overlays_active
                &&& final(self).overlay_manager.states@ == old(self).overlay_manager.states@
                &&& change is Unchanged
            }),
    {
        if self.overlays_active {
            let closed = self.overlay_manager.deactivate();
            self.overlays_active = false;
            ProtectionChange::Disabled(closed)
        } else if self.any_selected() {
            self.overlays_active = true;
            let requests = self.overlay_manager.activate(
                &self.monitors,
                &self.selected,
                self.opacity,
            );
            ProtectionChange::Enabled(requests)
        } else {
            ProtectionChange::Unchanged
        }
    }

    /// Set the opacity from the slider. A value equal to the current one is
    /// ignored; otherwise the new value is stored and, while protection is
    /// on, every live overlay is owed one opacity message from the result.
    pub fn set_opacity(&mut self, value: u8) -> (posts: Vec<(usize, u8)>)
        ensures
            final(self).monitors@ == old(self).monitors@,
            final(self).selected@ == old(self).selected@,
            final(self).overlays_active == old(self).overlays_active,
            final(self).overlay_manager.states@ == old(self).overlay_manager.states@,
            value == old(self).opacity ==> final(self).opacity == old(self).opacity && posts@
                =~= Seq::<(usize, u8)>::empty(),
            value != old(self).opacity ==> ({
                &&& final(self).opacity == value
                &&& old(self).overlays_active ==> posts@ == opacity_posts(
                    old(self).overlay_manager.states@,
                    value,
                )
                &&& !old(self).overlays_active ==> posts@ =~= Seq::<(usize, u8)>::empty()
            }),
    {
        if value == self.opacity {
            return Vec::new();
        }
        self.opacity = value;
        if self.overlays_active {
            self.overlay_manager.update_opacity(value)
        } else {
            Vec::new()
        }
    }

    /// Set the opacity from a percentage preset button. The preset's target
    /// alpha is always stored and, while protection is on, every live
    /// overlay is owed one opacity message from the result.
    pub fn apply_preset(&mut self, percent: u8) -> (posts: Vec<(usize, u8)>)
        ensures
            final(self).monitors@ == old(self).monitors@,
            final(self).selected@ == old(self).selected@,
            final(self).overlays_active == old(self).overlays_active,
            final(self).overlay_manager.states@ == old(self).overlay_manager.states@,
            final(self).opacity == preset_alpha(percent as int),
            old(self).overlays_active ==> posts@ == opacity_posts(
                old(self).overlay_manager.states@,
                final(self).opacity,
            ),
            !old(self).overlays_active ==> posts@ =~= Seq::<(usize, u8)>::empty(),
    {
        let target = preset_target(percent);
        self.opacity = target;
        if self.overlays_active {
            self.overlay_manager.update_opacity(target)
        } else {
            Vec::new()
        }
    }

    /// The current opacity as the percentage shown in the UI.
    pub fn opacity_percent(&self) -> (percent: u8)
        ensures
            percent == percent_of_opacity(self.opacity as int),
            percent <= 100,
    {
        opacity_to_percent(self.opacity)
    }

    /// What the activation panel reports: the live-overlay count while
    /// protection is on; otherwise a prompt to select monitors, or the
    /// number selected so far.
    pub fn panel_status(&self) -> (status: PanelStatus)
        ensures
            self.overlays_active ==> (status matches PanelStatus::ActiveOverlays(n) && n
                == live_hwnds(self.overlay_manager.states@).len()),
            !self.overlays_active && !spec_any_selected(self.selected@) ==> status
                is SelectMonitors,
            !self.overlays_active && spec_any_selected(self.selected@) ==> (
            status matches PanelStatus::SelectedMonitors(n) && n == count_selected(
                self.selected@,
            )),
    {
        if self.overlays_active {
            PanelStatus::ActiveOverlays(self.overlay_manager.active_count())
        } else if !self.any_selected() {
            PanelStatus::SelectMonitors
        } else {
            PanelStatus::SelectedMonitors(self.selected_count())
        }
    }
}

} // verus!
