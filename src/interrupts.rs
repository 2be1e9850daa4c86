//! Interrupt vector numbers of the two chained interrupt controllers.
use vstd::prelude::*;

verus! {

/// First vector of the primary controller.
pub const PIC_1_OFFSET: u8 = 32;

/// First vector of the secondary controller.
pub const PIC_2_OFFSET: u8 = 40;

/// The hardware interrupts that the kernel handles.
#[derive(Clone, Copy, Debug, PartialEq, Eq, Structural)]
pub enum InterruptIndex {
    Timer,
    Keyboard,
}

impl InterruptIndex {
    pub open spec fn vector(self) -> u8 {
        match self {
            InterruptIndex::Timer => PIC_1_OFFSET,
            InterruptIndex::Keyboard => (PIC_1_OFFSET + 1) as u8,
        }
    }

    /// The interrupt vector: the timer on the primary controller's first
    /// line, the keyboard on the next.
    pub fn as_u8(self) -> (r: u8)
        ensures
            r == self.vector(),
    {
        match self {
            InterruptIndex::Timer => PIC_1_OFFSET,
            InterruptIndex::Keyboard => PIC_1_OFFSET + 1,
        }
    }

    /// The vector as an index into the descriptor table.
    pub fn as_usize(self) -> (r: usize)
        ensures
            r == self.vector() as usize,
    {
        self.as_u8() as usize
    }
}

} // verus!
