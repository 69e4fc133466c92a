use vstd::prelude::*;

verus! {

/// Options chosen when a game starts; the rules engine does not read them.
#[derive(Debug, Clone, Copy, PartialEq, Eq, Structural)]
pub struct Settings {
    pub local_play: bool,
    pub critical_hits: bool,
    pub misses: bool,
}

impl Settings {
    pub fn new(local_play: bool, critical_hits: bool, misses: bool) -> (r: Self)
        ensures
            r == (Settings { local_play, critical_hits, misses }),
    {
        Settings { local_play, critical_hits, misses }
    }

    /// Every option off.
    pub fn default() -> (r: Self)
        ensures
            r == (Settings { local_play: false, critical_hits: false, misses: false }),
    {
        Settings::new(false, false, false)
    }
}

} // verus!
