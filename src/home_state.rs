//! The home view: system statistics and a scroll position.
use vstd::prelude::*;

verus! {

#[derive(Debug, Clone)]
pub struct HomeState {
    pub scroll_position: u16,
    pub stats: Option<SystemStats>,
}

/// Package counts shown on the home view.
#[derive(Debug, Clone, Copy, PartialEq, Eq, Structural)]
pub struct SystemStats {
    pub installed_count: usize,
    pub available_count: usize,
    pub updates_available: usize,
}

impl HomeState {
    pub fn new() -> (r: Self)
        ensures
            r.scroll_position == 0,
            r.stats is None,
    {
        HomeState { scroll_position: 0, stats: None }
    }

    pub fn set_stats(&mut self, stats: SystemStats)
        ensures
            final(self).stats == Some(stats),
            final(self).scroll_position == old(self).scroll_position,
    {
        self.stats = Some(stats);
    }

    pub fn scroll_down(&mut self)
        ensures
            final(self).scroll_position == crate::types::sat_inc(old(self).scroll_position),
            final(self).stats == old(self).stats,
    {
        self.scroll_position = self.scroll_position.saturating_add(1);
    }

    pub fn scroll_up(&mut self)
        ensures
            final(self).scroll_position == crate::types::sat_dec(old(self).scroll_position),
            final(self).stats == old(self).stats,
    {
        self.scroll_position = self.scroll_position.saturating_sub(1);
    }
}

/// Statistics from the number of installed and of available packages; the
/// number of pending updates is not computed and reads 0.
pub fn stats_from_counts(installed_count: usize, available_count: usize) -> (r: SystemStats)
    ensures
        r == (SystemStats { installed_count, available_count, updates_available: 0 }),
{
    SystemStats { installed_count, available_count, updates_available: 0 }
}

} // verus!
