//! The record that outlives a game: the points gathered so far and
//! whether the upgrade was bought.

use vstd::prelude::*;

verus! {

/// What is kept between runs.
#[derive(Clone, Copy, Debug, PartialEq, Eq)]
pub struct Stats {
    pub points: u32,
    pub upgrade: bool,
}

impl Default for Stats {
    /// The record to start from when none was kept, or the one that was
    /// kept cannot be read: no points and no upgrade.
    fn default() -> (stats: Stats)
        ensures
            stats.points == 0,
            !stats.upgrade,
    {
        Stats { points: 0, upgrade: false }
    }
}

} // verus!
