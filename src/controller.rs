//! The interrupt-mask controller: the handler-active flag, the remembered
//! mask, and the register they govern, with the operations on them.
//!
//! The controller is meant to be built once at start-up and to live for the
//! whole run of the image. It assumes that one core takes interrupts: the
//! remembered mask is a single value, not one per core. Calls to disable and
//! re-enable that are not balanced against handler entry and exit are not
//! detected; they leave a remembered mask that the next re-enable acts on.
use crate::model::{disabled, enabled, entered, initial, left, re_enabled, MaskState, REMEMBERED_AT_START};
use crate::register::{MaskRegister, FIQ_MASKED, IRQ_MASKED};
use vstd::prelude::*;

verus! {

/// Owner of the interrupt-mask state of the core that takes interrupts.
pub struct InterruptController<R: MaskRegister> {
    handler_active: bool,
    remembered: u32,
    register: R,
}

impl<R: MaskRegister> View for InterruptController<R> {
    type V = MaskState;

    closed spec fn view(&self) -> MaskState {
        MaskState {
            handler_active: self.handler_active,
            remembered: self.remembered,
            mask: self.register.mask_bits(),
            has_register: self.register.has_mask_register(),
            auto_mask: self.register.masks_on_entry(),
        }
    }
}

impl<R: MaskRegister> InterruptController<R> {
    /// The register the controller drives.
    pub closed spec fn register_spec(&self) -> R {
        self.register
    }

    /// A controller over `register`, outside any handler, with the remembered
    /// mask at its start value.
    pub fn new(register: R) -> (r: Self)
        ensures
            r@ == initial(
                register.mask_bits(),
                register.has_mask_register(),
                register.masks_on_entry(),
            ),
            r.register_spec() == register,
    {
        InterruptController { handler_active: false, remembered: REMEMBERED_AT_START, register }
    }

    /// The state the controller is in is a valid one.
    pub proof fn lemma_valid(&self)
        ensures
            self@.valid(),
    {
        self.register.lemma_mask_bits();
    }

    /// Whether execution is inside an interrupt handler.
    pub fn handler_active(&self) -> (r: bool)
        ensures
            r == self@.handler_active,
    {
        self.handler_active
    }

    /// The mask captured by the outermost disable that changed the mask.
    pub fn remembered_mask(&self) -> (r: u32)
        ensures
            r == self@.remembered,
    {
        self.remembered
    }

    /// The register the controller drives.
    pub fn register(&self) -> (r: &R)
        ensures
            *r == self.register_spec(),
            r.mask_bits() == self@.mask,
    {
        &self.register
    }
}

/// Records that an interrupt handler has started. Called by the interrupt
/// entry code before the handler body runs.
pub fn entering_interrupt_handler<R: MaskRegister>(ctl: &mut InterruptController<R>)
    ensures
        final(ctl)@ == entered(old(ctl)@),
{
    ctl.handler_active = true;
}

/// Records that the running interrupt handler has finished. Called by the
/// interrupt exit code before control returns to the interrupted code.
pub fn leaving_interrupt_handler<R: MaskRegister>(ctl: &mut InterruptController<R>)
    ensures
        final(ctl)@ == left(old(ctl)@),
{
    ctl.handler_active = false;
}

/// Unmasks IRQ and FIQ, whatever the state before.
pub fn enable_interrupts<R: MaskRegister>(ctl: &mut InterruptController<R>)
    ensures
        final(ctl)@ == enabled(old(ctl)@),
{
    proof {
        ctl.register.lemma_mask_bits();
    }
    let ghost m = ctl.register.mask_bits();
    ctl.register.unmask_irq();
    ctl.register.unmask_fiq();
    assert(m <= 3u32 ==> (m & !2u32) & !1u32 == 0u32) by (bit_vector);
}

/// Masks IRQ and FIQ. The mask seen just before is remembered when masking
/// changed it; a disable on top of an already masked state keeps the snapshot
/// of the enclosing one. Inside a handler on a target whose interrupt entry
/// masks both lines this does nothing.
pub fn disable_interrupts<R: MaskRegister>(ctl: &mut InterruptController<R>)
    ensures
        final(ctl)@ == disabled(old(ctl)@),
{
    if ctl.handler_active && ctl.register.auto_masks_on_entry() {
        return;
    }
    let last_mask = ctl.register.read_mask();
    ctl.register.mask_both();
    let current_mask = ctl.register.read_mask();
    if last_mask != current_mask {
        ctl.remembered = last_mask;
    }
}

/// Restores the lines to the state remembered by the last effective disable:
/// a line is unmasked when its bit in the remembered mask is clear, and stays
/// as it is otherwise. Inside a handler on a target whose interrupt entry
/// masks both lines this does nothing.
pub fn re_enable_interrupts<R: MaskRegister>(ctl: &mut InterruptController<R>)
    ensures
        final(ctl)@ == re_enabled(old(ctl)@),
{
    if ctl.handler_active && ctl.register.auto_masks_on_entry() {
        return;
    }
    proof {
        ctl.register.lemma_mask_bits();
    }
    let ghost m = ctl.register.mask_bits();
    let mask = ctl.remembered;
    if mask & IRQ_MASKED == 0 {
        ctl.register.unmask_irq();
    }
    if mask & FIQ_MASKED == 0 {
        ctl.register.unmask_fiq();
    }
    assert(m <= 3u32 ==> {
        let a = if mask & 2u32 == 0u32 { m & !2u32 } else { m };
        let b = if mask & 1u32 == 0u32 { a & !1u32 } else { a };
        b == m & mask
    }) by (bit_vector);
}

/// The current mask pattern: bit 1 set while IRQ is masked, bit 0 while FIQ
/// is masked. A target without a mask register reports zero, which means
/// "unsupported" rather than "known to be unmasked".
pub fn get_interrupt_mask<R: MaskRegister>(ctl: &InterruptController<R>) -> (r: u32)
    ensures
        r == ctl@.mask,
        !ctl@.has_register ==> r == 0,
{
    proof {
        ctl.register.lemma_mask_bits();
    }
    ctl.register.read_mask()
}

} // verus!
