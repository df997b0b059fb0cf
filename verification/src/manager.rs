//! Bookkeeping for per-monitor overlay windows.
//!
//! The manager keeps one entry per monitor and decides which overlays to
//! spawn, which window handles receive a close or opacity message, and how
//! asynchronously delivered window handles are recorded. The window-system
//! calls themselves are performed by the unverified shell, which feeds the
//! results back through [`OverlayManager::register_hwnd`].

use vstd::prelude::*;
use crate::config::{OverlayConfig, OverlayState};
use crate::monitor::MonitorInfo;

verus! {

/// The handles of the overlays that are currently alive, in monitor order.
pub open spec fn live_hwnds(states: Seq<OverlayState>) -> Seq<usize>
    decreases states.len(),
{
    if states.len() == 0 {
        Seq::empty()
    } else {
        let rest = live_hwnds(states.drop_last());
        match states.last().hwnd {
            Some(h) => rest.push(h),
            None => rest,
        }
    }
}

/// The opacity messages owed to the live overlays: one `(handle, opacity)`
/// pair per alive entry, in monitor order.
pub open spec fn opacity_posts(states: Seq<OverlayState>, opacity: u8) -> Seq<(usize, u8)>
    decreases states.len(),
{
    if states.len() == 0 {
        Seq::empty()
    } else {
        let rest = opacity_posts(states.drop_last(), opacity);
        match states.last().hwnd {
            Some(h) => rest.push((h, opacity)),
            None => rest,
        }
    }
}

/// The overlay configuration that covers the given monitor.
pub open spec fn config_for(mon: MonitorInfo, opacity: u8) -> OverlayConfig {
    OverlayConfig { opacity, x: mon.x, y: mon.y, width: mon.width, height: mon.height }
}

/// The spawn requests owed for the first `n` monitors: one entry per monitor
/// that is selected but has no live overlay, in monitor order.
pub open spec fn spawn_plan(
    monitors: Seq<MonitorInfo>,
    states: Seq<OverlayState>,
    selected: Seq<bool>,
    opacity: u8,
    n: int,
) -> Seq<(usize, OverlayConfig)>
    decreases n,
{
    if n <= 0 {
        Seq::empty()
    } else {
        let rest = spawn_plan(monitors, states, selected, opacity, n - 1);
        if selected[n - 1] && states[n - 1].hwnd is None {
            rest.push(((n - 1) as usize, config_for(monitors[n - 1], opacity)))
        } else {
            rest
        }
    }
}

/// Every live overlay is owed exactly one opacity message, in order: the
/// opacity posts are the live handles, each paired with the new opacity.
pub proof fn lemma_opacity_posts_are_live(states: Seq<OverlayState>, opacity: u8)
    ensures
        opacity_posts(states, opacity) == live_hwnds(states).map_values(
            |h: usize| (h, opacity),
        ),
    decreases states.len(),
{
    if states.len() == 0 {
        assert(opacity_posts(states, opacity) =~= live_hwnds(states).map_values(
            |h: usize| (h, opacity),
        ));
    } else {
        lemma_opacity_posts_are_live(states.drop_last(), opacity);
        match states.last().hwnd {
            Some(_) => {
                assert(opacity_posts(states, opacity) =~= live_hwnds(states).map_values(
                    |h: usize| (h, opacity),
                ));
            },
            None => {},
        }
    }
}

/// An asynchronously delivered handle keeps the view consistent: recording
/// a handle for a monitor that had no live overlay raises the number of
/// live overlays by exactly one.
pub proof fn lemma_register_increases_live_count(states: Seq<OverlayState>, i: int, p: usize)
    requires
        0 <= i < states.len(),
        states[i].hwnd is None,
    ensures
        live_hwnds(states.update(i, (OverlayState { hwnd: Some(p) }))).len() == live_hwnds(
            states,
        ).len() + 1,
    decreases states.len(),
{
    let entry = OverlayState { hwnd: Some(p) };
    let updated = states.update(i, entry);
    if i == states.len() - 1 {
        assert(updated.drop_last() =~= states.drop_last());
        assert(updated.last() == entry);
        assert(states.last() == states[i]);
    } else {
        assert(updated.drop_last() =~= states.drop_last().update(i, entry));
        assert(updated.last() == states.last());
        lemma_register_increases_live_count(states.drop_last(), i, p);
    }
}

/// Created and destroyed in matching pairs: a handle stands among the live
/// handles — those that a deactivation closes — exactly when some monitor's
/// entry records it.
pub proof fn lemma_live_hwnds_membership(states: Seq<OverlayState>, h: usize)
    ensures
        live_hwnds(states).contains(h) <==> exists|i: int|
            0 <= i < states.len() && #[trigger] states[i].hwnd == Some(h),
    decreases states.len(),
{
    if states.len() > 0 {
        lemma_live_hwnds_membership(states.drop_last(), h);
        let live = live_hwnds(states);
        let rest = live_hwnds(states.drop_last());
        let last = states.len() - 1;
        match states.last().hwnd {
            Some(g) => {
                assert(live == rest.push(g));
                if h == g {
                    assert(states[last].hwnd == Some(h));
                    assert(live[live.len() - 1] == h);
                } else {
                    if live.contains(h) {
                        let k = choose|k: int| 0 <= k < live.len() && live[k] == h;
                        assert(rest[k] == h);
                        let i = choose|i: int|
                            0 <= i < states.drop_last().len() && #[trigger] states.drop_last()[i].hwnd
                                == Some(h);
                        assert(states[i].hwnd == Some(h));
                    }
                    if exists|i: int| 0 <= i < states.len() && #[trigger] states[i].hwnd == Some(h) {
                        let i = choose|i: int|
                            0 <= i < states.len() && #[trigger] states[i].hwnd == Some(h);
                        assert(i < last);
                        assert(states.drop_last()[i].hwnd == Some(h));
                        let k = choose|k: int| 0 <= k < rest.len() && rest[k] == h;
                        assert(live[k] == h);
                    }
                }
            },
            None => {
                assert(live == rest);
                if live.contains(h) {
                    let i = choose|i: int|
                        0 <= i < states.drop_last().len() && #[trigger] states.drop_last()[i].hwnd
                            == Some(h);
                    assert(states[i].hwnd == Some(h));
                }
                if exists|i: int| 0 <= i < states.len() && #[trigger] states[i].hwnd == Some(h) {
                    let i = choose|i: int|
                        0 <= i < states.len() && #[trigger] states[i].hwnd == Some(h);
                    assert(i < last);
                    assert(states.drop_last()[i].hwnd == Some(h));
                }
            },
        }
    }
}

/// What a single spawn request must look like: it addresses a monitor below
/// the bound that is selected but not yet covered, and carries the overlay
/// configuration covering exactly that monitor.
pub open spec fn spawn_entry_ok(
    monitors: Seq<MonitorInfo>,
    states: Seq<OverlayState>,
    selected: Seq<bool>,
    opacity: u8,
    n: int,
    entry: (usize, OverlayConfig),
) -> bool {
    let i = entry.0 as int;
    &&& i < n
    &&& selected[i]
    &&& states[i].hwnd is None
    &&& entry.1 == config_for(monitors[i], opacity)
}

/// One overlay per monitor: the spawn plan addresses only monitors that are
/// selected and not yet covered, pairs each with the configuration covering
/// it, lists the monitors in strictly increasing order — so no monitor is
/// planned twice — and leaves out no selected, uncovered monitor.
pub proof fn lemma_spawn_plan_characterization(
    monitors: Seq<MonitorInfo>,
    states: Seq<OverlayState>,
    selected: Seq<bool>,
    opacity: u8,
    n: int,
)
    requires
        0 <= n <= monitors.len(),
        n <= usize::MAX,
        states.len() == monitors.len(),
        selected.len() == monitors.len(),
    ensures
        ({
            let plan = spawn_plan(monitors, states, selected, opacity, n);
            &&& forall|k: int|
                0 <= k < plan.len() ==> spawn_entry_ok(
                    monitors,
                    states,
                    selected,
                    opacity,
                    n,
                    #[trigger] plan[k],
                )
            &&& forall|k1: int, k2: int|
                0 <= k1 < k2 < plan.len() ==> #[trigger] plan[k1].0 < #[trigger] plan[k2].0
            &&& forall|i: int|
                0 <= i < n && selected[i] && states[i].hwnd is None ==> exists|k: int|
                    0 <= k < plan.len() && #[trigger] plan[k].0 == i
        }),
    decreases n,
{
    if n > 0 {
        lemma_spawn_plan_characterization(monitors, states, selected, opacity, n - 1);
        let rest = spawn_plan(monitors, states, selected, opacity, n - 1);
        let plan = spawn_plan(monitors, states, selected, opacity, n);
        if selected[n - 1] && states[n - 1].hwnd is None {
            let entry = (((n - 1) as usize, config_for(monitors[n - 1], opacity)));
            assert(plan == rest.push(entry));
            assert(plan[rest.len() as int] == entry);
            assert forall|i: int|
                0 <= i < n && selected[i] && states[i].hwnd is None implies exists|k: int|
                0 <= k < plan.len() && #[trigger] plan[k].0 == i by {
                if i < n - 1 {
                    let k = choose|k: int| 0 <= k < rest.len() && #[trigger] rest[k].0 == i;
                    assert(plan[k].0 == i);
                } else {
                    assert(plan[rest.len() as int].0 == i);
                }
            }
        } else {
            assert(plan == rest);
            assert forall|i: int|
                0 <= i < n && selected[i] && states[i].hwnd is None implies exists|k: int|
                0 <= k < plan.len() && #[trigger] plan[k].0 == i by {
                let k = choose|k: int| 0 <= k < rest.len() && #[trigger] rest[k].0 == i;
                assert(plan[k].0 == i);
            }
        }
    }
}

/// High-level manager that controls the lifecycle of per-monitor overlay
/// windows.
///
/// It bridges the gap between the UI layer (which knows *which* monitors are
/// selected and at *what* opacity) and the low-level overlay windows that
/// live on dedicated background threads in the unverified shell.
pub struct OverlayManager {
    /// One [`OverlayState`] entry per monitor (mirrors the monitor list order).
    pub states: Vec<OverlayState>,
}

impl OverlayManager {
    /// Create a manager sized to match the given monitor list, with no
    /// overlay alive yet.
    pub fn new(monitor_count: usize) -> (m: OverlayManager)
        ensures
            m.states@.len() == monitor_count,
            forall|i: int| 0 <= i < monitor_count ==> m.states@[i].hwnd is None,
    {
        let mut states: Vec<OverlayState> = Vec::new();
        let mut i: usize = 0;
        while i < monitor_count
            invariant
                i <= monitor_count,
                states@.len() == i,
                forall|j: int| 0 <= j < i ==> states@[j].hwnd is None,
            decreases monitor_count - i,
        {
            states.push(OverlayState { hwnd: None });
            i = i + 1;
        }
        OverlayManager { states }
    }

    /// Decide which overlays to spawn: one request per monitor that is
    /// marked as selected but does not already have a live overlay.
    ///
    /// Each request pairs the monitor's index with the overlay configuration
    /// covering that monitor. The caller spawns a window thread for each
    /// request and reports the handles back through [`Self::register_hwnd`].
    pub fn activate(
        &self,
        monitors: &Vec<MonitorInfo>,
        selected: &Vec<bool>,
        opacity: u8,
    ) -> (requests: Vec<(usize, OverlayConfig)>)
        requires
            monitors@.len() == self.states@.len(),
            selected@.len() == self.states@.len(),
        ensures
            requests@ == spawn_plan(
                monitors@,
                self.states@,
                selected@,
                opacity,
                self.states@.len() as int,
            ),
    {
        let mut requests: Vec<(usize, OverlayConfig)> = Vec::new();
        let mut i: usize = 0;
        while i < monitors.len()
            invariant
                i <= monitors@.len(),
                monitors@.len() == self.states@.len(),
                selected@.len() == self.states@.len(),
                requests@ == spawn_plan(monitors@, self.states@, selected@, opacity, i as int),
            decreases monitors@.len() - i,
        {
            if selected[i] && self.states[i].hwnd.is_none() {
                let mon = &monitors[i];
                requests.push((i, OverlayConfig::for_monitor(mon, opacity)));
            }
            i = i + 1;
        }
        requests
    }

    /// Record a newly-received window handle for the given monitor index.
    /// An index beyond the monitor list is ignored.
    pub fn register_hwnd(&mut self, index: usize, ptr: usize)
        ensures
            final(self).states@.len() == old(self).states@.len(),
            index < old(self).states@.len() ==> final(self).states@ == old(self).states@.update(
                index as int,
                OverlayState { hwnd: Some(ptr) },
            ),
            index >= old(self).states@.len() ==> final(self).states@ == old(self).states@,
    {
        if index < self.states.len() {
            self.states.set(index, OverlayState { hwnd: Some(ptr) });
        }
    }

    /// Clear all tracked overlays and return the handles of those that were
    /// alive, in monitor order: the caller owes each of them a close message.
    pub fn deactivate(&mut self) -> (closed: Vec<usize>)
        ensures
            final(self).states@.len() == old(self).states@.len(),
            forall|i: int| 0 <= i < final(self).states@.len()
                ==> final(self).states@[i].hwnd is None,
            closed@ == live_hwnds(old(self).states@),
    {
        let ghost orig = self.states@;
        let mut closed: Vec<usize> = Vec::new();
        let mut i: usize = 0;
        while i < self.states.len()
            invariant
                i <= self.states@.len(),
                self.states@.len() == orig.len(),
                forall|j: int| 0 <= j < i ==> self.states@[j].hwnd is None,
                forall|j: int| i <= j < orig.len() ==> self.states@[j] == orig[j],
                closed@ == live_hwnds(orig.take(i as int)),
            decreases self.states@.len() - i,
        {
            proof {
                assert(orig.take(i as int + 1).drop_last() =~= orig.take(i as int));
                assert(orig.take(i as int + 1).last() == orig[i as int]);
            }
            match self.states[i].hwnd {
                Some(h) => {
                    closed.push(h);
                },
                None => {},
            }
            self.states.set(i, OverlayState { hwnd: None });
            i = i + 1;
        }
        proof {
            assert(orig.take(orig.len() as int) =~= orig);
        }
        closed
    }

    /// Decide which overlays an opacity change must be sent to: one
    /// `(handle, opacity)` pair per live overlay, in monitor order. The
    /// caller posts the asynchronous opacity message for each pair.
    pub fn update_opacity(&self, opacity: u8) -> (posts: Vec<(usize, u8)>)
        ensures
            posts@ == opacity_posts(self.states@, opacity),
    {
        let mut posts: Vec<(usize, u8)> = Vec::new();
        let mut i: usize = 0;
        while i < self.states.len()
            invariant
                i <= self.states@.len(),
                posts@ == opacity_posts(self.states@.take(i as int), opacity),
            decreases self.states@.len() - i,
        {
            proof {
                assert(self.states@.take(i as int + 1).drop_last() =~= self.states@.take(
                    i as int,
                ));
                assert(self.states@.take(i as int + 1).last() == self.states@[i as int]);
            }
            match self.states[i].hwnd {
                Some(h) => {
                    posts.push((h, opacity));
                },
                None => {},
            }
            i = i + 1;
        }
        proof {
            assert(self.states@.take(self.states@.len() as int) =~= self.states@);
        }
        posts
    }

    /// Returns the number of overlays that are currently alive.
    pub fn active_count(&self) -> (count: usize)
        ensures
            count == live_hwnds(self.states@).len(),
    {
        let mut count: usize = 0;
        let mut i: usize = 0;
        while i < self.states.len()
            invariant
                i <= self.states@.len(),
                count <= i,
                count == live_hwnds(self.states@.take(i as int)).len(),
            decreases self.states@.len() - i,
        {
            proof {
                assert(self.states@.take(i as int + 1).drop_last() =~= self.states@.take(
                    i as int,
                ));
                assert(self.states@.take(i as int + 1).last() == self.states@[i as int]);
            }
            if self.states[i].hwnd.is_some() {
                count = count + 1;
            }
            i = i + 1;
        }
        proof {
            assert(self.states@.take(self.states@.len() as int) =~= self.states@);
        }
        count
    }

    /// One flag per monitor: whether that monitor currently has a live
    /// overlay.
    pub fn alive_flags(&self) -> (flags: Vec<bool>)
        ensures
            flags@.len() == self.states@.len(),
            forall|i: int| 0 <= i < self.states@.len() ==> flags@[i] == (
            self.states@[i].hwnd is Some),
    {
        let mut flags: Vec<bool> = Vec::new();
        let mut i: usize = 0;
        while i < self.states.len()
            invariant
                i <= self.states@.len(),
                flags@.len() == i,
                forall|j: int| 0 <= j < i ==> flags@[j] == (self.states@[j].hwnd is Some),
            decreases self.states@.len() - i,
        {
            flags.push(self.states[i].hwnd.is_some());
            i = i + 1;
        }
        flags
    }
}

} // verus!
