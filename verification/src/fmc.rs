//! Flash Memory Controller.
//!
//! Only the ownership shell is modelled: the controller is taken whole and
//! can be handed back.

use vstd::prelude::*;

verus! {

/// The raw flash memory controller register block.
pub struct FMC {
    _ownership: (),
}

impl FMC {
    /// Take the flash memory controller.
    pub fn new() -> FMC {
        FMC { _ownership: () }
    }
}

/// Exclusive wrapper around the flash memory controller.
pub struct Fmc {
    fmc: FMC,
}

impl Fmc {
    /// Wrap the flash memory controller.
    pub fn new(fmc: FMC) -> Fmc {
        Fmc { fmc }
    }

    /// Release the controller and return its ownership.
    pub fn free(self) -> FMC {
        self.fmc
    }
}

} // verus!
