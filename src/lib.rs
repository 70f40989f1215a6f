//! Global interrupt-mask control for a single core running without an
//! operating system.
//!
//! The processor's IRQ and FIQ lines are masked and unmasked through a narrow
//! register capability ([`register::MaskRegister`]). An
//! [`controller::InterruptController`] owns that register together with the
//! handler-active flag and the mask remembered by the outermost effective
//! disable, and the free functions of [`controller`] enable, disable, restore
//! and query the mask. Every operation is described by a transition of the
//! abstract state in [`model`].
pub mod controller;
pub mod model;
pub mod register;

pub use controller::{
    disable_interrupts, enable_interrupts, entering_interrupt_handler, get_interrupt_mask,
    leaving_interrupt_handler, re_enable_interrupts, InterruptController,
};
pub use model::MaskState;
pub use register::{MaskRegister, NoMaskRegister, SimulatedRegister};
