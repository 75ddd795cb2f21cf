//! Grid cells: nest/home flags, owning tribe and a food count.

use vstd::prelude::*;

verus! {

/// Bit assigned to the home flag inside [`CellFlags`].
pub const FLAG_HAS_HOME: u8 = 0x01;
/// Bit assigned to the food flag inside [`CellFlags`].
pub const FLAG_HAS_FOOD: u8 = 0x02;

/// Per-cell boolean flags packed into one byte.
#[derive(Debug, Default, Copy, Clone, PartialEq, Eq, Structural)]
pub struct CellFlags {
    pub bits: u8,
}

/// `f` with its home bit set to `v`.
pub open spec fn spec_with_home(f: CellFlags, v: bool) -> CellFlags {
    CellFlags { bits: if v { f.bits | FLAG_HAS_HOME } else { f.bits & !FLAG_HAS_HOME } }
}

/// `f` with its food bit set to `v`.
pub open spec fn spec_with_food(f: CellFlags, v: bool) -> CellFlags {
    CellFlags { bits: if v { f.bits | FLAG_HAS_FOOD } else { f.bits & !FLAG_HAS_FOOD } }
}

impl CellFlags {
    /// True when the home bit is set.
    pub open spec fn spec_has_home(self) -> bool {
        self.bits & FLAG_HAS_HOME != 0
    }

    /// True when the food bit is set.
    pub open spec fn spec_has_food(self) -> bool {
        self.bits & FLAG_HAS_FOOD != 0
    }

    pub fn has_home(&self) -> (r: bool)
        ensures
            r == self.spec_has_home(),
    {
        self.bits & FLAG_HAS_HOME != 0
    }

    pub fn has_food(&self) -> (r: bool)
        ensures
            r == self.spec_has_food(),
    {
        self.bits & FLAG_HAS_FOOD != 0
    }

    pub fn set_home(&mut self, has_home: bool)
        ensures
            *final(self) == spec_with_home(*old(self), has_home),
            final(self).spec_has_home() == has_home,
            final(self).spec_has_food() == old(self).spec_has_food(),
    {
        if has_home {
            self.bits = self.bits | FLAG_HAS_HOME;
        } else {
            self.bits = self.bits & !FLAG_HAS_HOME;
        }
        proof {
            let b0 = old(self).bits;
            let b1 = self.bits;
            assert((b1 & FLAG_HAS_HOME != 0) == has_home && (b1 & FLAG_HAS_FOOD != 0) == (b0
                & FLAG_HAS_FOOD != 0)) by (bit_vector)
                requires
                    b1 == if has_home {
                        b0 | 0x01u8
                    } else {
                        b0 & !0x01u8
                    },
            ;
        }
    }

    pub fn set_food(&mut self, has_food: bool)
        ensures
            *final(self) == spec_with_food(*old(self), has_food),
            final(self).spec_has_food() == has_food,
            final(self).spec_has_home() == old(self).spec_has_home(),
    {
        if has_food {
            self.bits = self.bits | FLAG_HAS_FOOD;
        } else {
            self.bits = self.bits & !FLAG_HAS_FOOD;
        }
        proof {
            let b0 = old(self).bits;
            let b1 = self.bits;
            assert((b1 & FLAG_HAS_FOOD != 0) == has_food && (b1 & FLAG_HAS_HOME != 0) == (b0
                & FLAG_HAS_HOME != 0)) by (bit_vector)
                requires
                    b1 == if has_food {
                        b0 | 0x02u8
                    } else {
                        b0 & !0x02u8
                    },
            ;
        }
    }
}

/// One grid cell: flags, the tribe owning its home flag, and its food count.
#[derive(Debug, Default, Copy, Clone, PartialEq, Eq, Structural)]
pub struct Cell {
    pub flags: CellFlags,
    pub tribe: u8,
    pub food: u8,
}

impl Cell {
    /// True when the cell is a home cell of tribe `tribe`.
    pub open spec fn is_home_of(self, tribe: u8) -> bool {
        self.flags.spec_has_home() && self.tribe == tribe
    }

    /// The base color cells are rasterized with.
    pub fn color_rgba(&self) -> (r: [u8; 4])
        ensures
            r@ == cell_color_bytes(),
    {
        [0, 0, 0, 255]
    }
}

/// All-zero flag bits mean neither home nor food.
pub proof fn lemma_zero_flags()
    ensures
        !(CellFlags { bits: 0u8 }).spec_has_home(),
        !(CellFlags { bits: 0u8 }).spec_has_food(),
{
    assert(0u8 & 0x01u8 == 0 && 0u8 & 0x02u8 == 0) by (bit_vector);
}

/// RGBA bytes of the cell background color.
pub open spec fn cell_color_bytes() -> Seq<u8> {
    seq![0u8, 0u8, 0u8, 255u8]
}

} // verus!
