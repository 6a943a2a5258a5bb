use vstd::prelude::*;

verus! {

/// The tools that a level hands out.
#[derive(Debug, Hash, PartialEq, Eq, PartialOrd, Ord, Clone, Copy, Structural)]
pub enum Item {
    Trap,
    Pickaxe,
    Carrot,
    Shovel,
}

impl Item {
    pub open spec fn spec_index(self) -> int {
        match self {
            Item::Trap => 0,
            Item::Pickaxe => 1,
            Item::Carrot => 2,
            Item::Shovel => 3,
        }
    }

    /// Place of the item in per-item arrays.
    pub fn as_index(self) -> (r: usize)
        ensures
            r == self.spec_index(),
    {
        match self {
            Item::Trap => 0,
            Item::Pickaxe => 1,
            Item::Carrot => 2,
            Item::Shovel => 3,
        }
    }
}

} // verus!
