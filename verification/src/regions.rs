//! The regions of the stable memory.
//!
//! Every stable structure needs a region to itself. `Regions` hands the
//! regions out by number, counting up, so that no region is handed out
//! twice.

use crate::storage::{region_number, Memories, Region};
use vstd::prelude::*;

verus! {

/// The number of regions that a stable memory has.
pub const REGION_COUNT: u8 = 255;

/// The regions of a stable memory, of which the first few are taken.
pub struct Regions {
    memories: Memories,
    taken: u8,
}

impl Regions {
    /// How many regions are taken: the regions with smaller numbers.
    pub closed spec fn taken(&self) -> u8 {
        self.taken
    }

    /// The regions of the stable memory, none of them taken. Outside of a
    /// canister this is a fresh memory each time; inside of one it is the
    /// canister's one stable memory, which is opened once.
    pub fn open() -> (regions: Regions)
        ensures
            regions.taken() == 0,
    {
        Regions { memories: Memories::open(), taken: 0 }
    }

    /// Takes the region with the lowest number that is not taken, if there is
    /// one left.
    pub fn take(&mut self) -> (region: Option<Region>)
        ensures
            region is Some <==> old(self).taken() < REGION_COUNT,
            region is Some ==> region_number(region->0) == old(self).taken(),
            region is Some ==> final(self).taken() == old(self).taken() + 1,
            region is None ==> final(self).taken() == old(self).taken(),
    {
        if self.taken < REGION_COUNT {
            let region = self.memories.region(self.taken);
            self.taken = self.taken + 1;
            Some(region)
        } else {
            None
        }
    }
}

} // verus!
