//! The register capability through which interrupt lines are masked, and the
//! two targets that the library itself provides.
use vstd::prelude::*;

verus! {

/// Bit of the two-bit mask pattern that is set while IRQ is masked.
pub const IRQ_MASKED: u32 = 2;

/// Bit of the two-bit mask pattern that is set while FIQ is masked.
pub const FIQ_MASKED: u32 = 1;

/// Mask pattern with both lines masked.
pub const BOTH_MASKED: u32 = 3;

/// The capability the controller needs from a processor: mask both lines,
/// unmask either line, and read the current mask pattern.
///
/// The mask pattern has bit 1 set while IRQ is masked and bit 0 set while FIQ
/// is masked. A target without a mask register reports both lines unmasked
/// and ignores every request.
pub trait MaskRegister: Sized {
    /// The mask pattern the register holds now.
    spec fn mask_bits(&self) -> u32;

    /// Whether the target has an interrupt-mask register at all.
    spec fn has_mask_register(&self) -> bool;

    /// Whether taking an interrupt masks both lines by itself, so that code
    /// inside a handler always runs with both lines masked.
    spec fn masks_on_entry(&self) -> bool;

    /// The pattern is two bits wide, and zero where there is no register.
    proof fn lemma_mask_bits(&self)
        ensures
            self.mask_bits() <= BOTH_MASKED,
            !self.has_mask_register() ==> self.mask_bits() == 0,
    ;

    /// Tells whether taking an interrupt masks both lines.
    fn auto_masks_on_entry(&self) -> (r: bool)
        ensures
            r == self.masks_on_entry(),
    ;

    /// Reads the current mask pattern.
    fn read_mask(&self) -> (r: u32)
        ensures
            r == self.mask_bits(),
    ;

    /// Masks IRQ and FIQ.
    fn mask_both(&mut self)
        ensures
            final(self).mask_bits() == (if old(self).has_mask_register() {
                BOTH_MASKED
            } else {
                0u32
            }),
            final(self).has_mask_register() == old(self).has_mask_register(),
            final(self).masks_on_entry() == old(self).masks_on_entry(),
    ;

    /// Unmasks IRQ and leaves FIQ as it is.
    fn unmask_irq(&mut self)
        ensures
            final(self).mask_bits() == old(self).mask_bits() & !IRQ_MASKED,
            final(self).has_mask_register() == old(self).has_mask_register(),
            final(self).masks_on_entry() == old(self).masks_on_entry(),
    ;

    /// Unmasks FIQ and leaves IRQ as it is.
    fn unmask_fiq(&mut self)
        ensures
            final(self).mask_bits() == old(self).mask_bits() & !FIQ_MASKED,
            final(self).has_mask_register() == old(self).has_mask_register(),
            final(self).masks_on_entry() == old(self).masks_on_entry(),
    ;
}

/// Position of the two mask bits in the processor status word: the I bit
/// (IRQ) and the F bit (FIQ) sit at bits 7 and 6 of both the 32-bit CPSR and
/// the 64-bit DAIF register.
pub const STATUS_SHIFT: u32 = 6;

/// The I bit of the status word.
pub const STATUS_IRQ: u32 = 0x80;

/// The F bit of the status word.
pub const STATUS_FIQ: u32 = 0x40;

/// Mask pattern held in a status word.
pub open spec fn status_mask(status: u32) -> u32 {
    (status >> STATUS_SHIFT) & BOTH_MASKED
}

/// A processor status word held in memory: the register of a simulated core,
/// with the same bit layout as the hardware one.
pub struct SimulatedRegister {
    status: u32,
    auto_mask: bool,
}

impl SimulatedRegister {
    /// The full status word, of which the mask bits are bits 7 and 6.
    pub closed spec fn status_spec(&self) -> u32 {
        self.status
    }

    /// A register holding `status`. `masks_on_entry` selects the 64-bit
    /// behaviour, where taking an interrupt masks both lines.
    pub fn new(status: u32, masks_on_entry: bool) -> (r: Self)
        ensures
            r.status_spec() == status,
            r.mask_bits() == status_mask(status),
            r.has_mask_register(),
            r.masks_on_entry() == masks_on_entry,
    {
        SimulatedRegister { status, auto_mask: masks_on_entry }
    }

    /// A register whose status word is the mask pattern `mask` in place and
    /// zero elsewhere.
    pub fn with_mask(mask: u32, masks_on_entry: bool) -> (r: Self)
        requires
            mask <= BOTH_MASKED,
        ensures
            r.mask_bits() == mask,
            r.has_mask_register(),
            r.masks_on_entry() == masks_on_entry,
    {
        assert(((mask << 6u32) >> 6u32) & 3u32 == mask) by (bit_vector)
            requires
                mask <= 3u32,
        ;
        SimulatedRegister { status: mask << STATUS_SHIFT, auto_mask: masks_on_entry }
    }

    /// The full status word.
    pub fn status(&self) -> (r: u32)
        ensures
            r == self.status_spec(),
    {
        self.status
    }
}

impl MaskRegister for SimulatedRegister {
    closed spec fn mask_bits(&self) -> u32 {
        status_mask(self.status)
    }

    closed spec fn has_mask_register(&self) -> bool {
        true
    }

    closed spec fn masks_on_entry(&self) -> bool {
        self.auto_mask
    }

    proof fn lemma_mask_bits(&self) {
        let s = self.status;
        assert((s >> 6u32) & 3u32 <= 3u32) by (bit_vector);
    }

    fn auto_masks_on_entry(&self) -> (r: bool) {
        self.auto_mask
    }

    fn read_mask(&self) -> (r: u32) {
        (self.status >> STATUS_SHIFT) & BOTH_MASKED
    }

    fn mask_both(&mut self) {
        let s = self.status;
        assert(((s | (STATUS_IRQ | STATUS_FIQ)) >> STATUS_SHIFT) & BOTH_MASKED == BOTH_MASKED)
            by (bit_vector);
        self.status = self.status | (STATUS_IRQ | STATUS_FIQ);
    }

    fn unmask_irq(&mut self) {
        let s = self.status;
        assert(((s & !STATUS_IRQ) >> STATUS_SHIFT) & BOTH_MASKED == ((s >> STATUS_SHIFT)
            & BOTH_MASKED) & !IRQ_MASKED) by (bit_vector);
        self.status = self.status & !STATUS_IRQ;
    }

    fn unmask_fiq(&mut self) {
        let s = self.status;
        assert(((s & !STATUS_FIQ) >> STATUS_SHIFT) & BOTH_MASKED == ((s >> STATUS_SHIFT)
            & BOTH_MASKED) & !FIQ_MASKED) by (bit_vector);
        self.status = self.status & !STATUS_FIQ;
    }
}

/// A target without an interrupt-mask register: nothing can be masked, and
/// the mask always reads as zero.
pub struct NoMaskRegister;

impl NoMaskRegister {
    /// The register of such a target.
    pub fn new() -> (r: Self)
        ensures
            r.mask_bits() == 0,
            !r.has_mask_register(),
            !r.masks_on_entry(),
    {
        NoMaskRegister
    }
}

impl MaskRegister for NoMaskRegister {
    open spec fn mask_bits(&self) -> u32 {
        0
    }

    open spec fn has_mask_register(&self) -> bool {
        false
    }

    open spec fn masks_on_entry(&self) -> bool {
        false
    }

    proof fn lemma_mask_bits(&self) {
    }

    fn auto_masks_on_entry(&self) -> (r: bool) {
        false
    }

    fn read_mask(&self) -> (r: u32) {
        0
    }

    fn mask_both(&mut self) {
    }

    fn unmask_irq(&mut self) {
        assert(0u32 & !IRQ_MASKED == 0u32) by (bit_vector);
    }

    fn unmask_fiq(&mut self) {
        assert(0u32 & !FIQ_MASKED == 0u32) by (bit_vector);
    }
}

} // verus!
