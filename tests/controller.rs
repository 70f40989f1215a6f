use interrupt_core::{
    disable_interrupts, enable_interrupts, entering_interrupt_handler, get_interrupt_mask,
    leaving_interrupt_handler, re_enable_interrupts, InterruptController, MaskRegister,
    NoMaskRegister, SimulatedRegister,
};

fn controller(mask: u32, masks_on_entry: bool) -> InterruptController<SimulatedRegister> {
    InterruptController::new(SimulatedRegister::with_mask(mask, masks_on_entry))
}

#[test]
fn starts_outside_handler_with_sentinel_mask() {
    let ctl = controller(0, false);
    assert!(!ctl.handler_active());
    assert_eq!(ctl.remembered_mask(), 0xF);
    assert_eq!(get_interrupt_mask(&ctl), 0);
}

#[test]
fn mask_is_read_from_status_bits_seven_and_six() {
    let ctl = InterruptController::new(SimulatedRegister::new(0x80, false));
    assert_eq!(get_interrupt_mask(&ctl), 2);
    let ctl = InterruptController::new(SimulatedRegister::new(0x40, false));
    assert_eq!(get_interrupt_mask(&ctl), 1);
    let ctl = InterruptController::new(SimulatedRegister::new(0x3F, false));
    assert_eq!(get_interrupt_mask(&ctl), 0);
    let ctl = InterruptController::new(SimulatedRegister::new(0x3C5, true));
    assert_eq!(get_interrupt_mask(&ctl), 3);
}

#[test]
fn masking_keeps_other_status_bits() {
    let mut ctl = InterruptController::new(SimulatedRegister::new(0x205, false));
    disable_interrupts(&mut ctl);
    assert_eq!(ctl.register().status(), 0x2C5);
    enable_interrupts(&mut ctl);
    assert_eq!(ctl.register().status(), 0x205);
}

#[test]
fn enable_unmasks_both_lines() {
    let mut ctl = controller(3, false);
    enable_interrupts(&mut ctl);
    assert_eq!(get_interrupt_mask(&ctl), 0);
    assert_eq!(ctl.remembered_mask(), 0xF);
}

#[test]
fn enable_twice_equals_enable_once() {
    for start in 0..4u32 {
        let mut once = controller(start, false);
        enable_interrupts(&mut once);
        let mut twice = controller(start, false);
        enable_interrupts(&mut twice);
        enable_interrupts(&mut twice);
        assert_eq!(get_interrupt_mask(&once), get_interrupt_mask(&twice));
        assert_eq!(once.register().status(), twice.register().status());
        assert_eq!(once.remembered_mask(), twice.remembered_mask());
    }
}

#[test]
fn disable_masks_both_and_remembers_previous_mask() {
    let mut ctl = controller(0, false);
    disable_interrupts(&mut ctl);
    assert_eq!(get_interrupt_mask(&ctl), 3);
    assert_eq!(ctl.remembered_mask(), 0);
}

#[test]
fn nested_disable_preserves_outer_snapshot() {
    let mut ctl = controller(0, false);
    disable_interrupts(&mut ctl);
    disable_interrupts(&mut ctl);
    assert_eq!(ctl.remembered_mask(), 0);
    re_enable_interrupts(&mut ctl);
    assert_eq!(get_interrupt_mask(&ctl), 0);
}

#[test]
fn disable_re_enable_round_trip_each_mask() {
    for start in 0..4u32 {
        let mut ctl = controller(start, false);
        disable_interrupts(&mut ctl);
        assert_eq!(get_interrupt_mask(&ctl), 3);
        re_enable_interrupts(&mut ctl);
        assert_eq!(get_interrupt_mask(&ctl), start, "start mask {}", start);
    }
}

#[test]
fn round_trip_from_irq_only_masked() {
    let mut ctl = controller(2, true);
    disable_interrupts(&mut ctl);
    assert_eq!(ctl.remembered_mask(), 2);
    re_enable_interrupts(&mut ctl);
    assert_eq!(get_interrupt_mask(&ctl), 2);
}

#[test]
fn round_trip_from_both_masked_uses_older_snapshot() {
    // Starting fully masked, masking changes nothing, so nothing is captured
    // and the re-enable acts on the snapshot of the earlier disable.
    let mut ctl = controller(0, false);
    disable_interrupts(&mut ctl);
    assert_eq!(get_interrupt_mask(&ctl), 3);
    assert_eq!(ctl.remembered_mask(), 0);
    disable_interrupts(&mut ctl);
    re_enable_interrupts(&mut ctl);
    assert_eq!(get_interrupt_mask(&ctl), 0);
}

#[test]
fn re_enable_with_sentinel_keeps_both_masked() {
    let mut ctl = controller(3, false);
    re_enable_interrupts(&mut ctl);
    assert_eq!(get_interrupt_mask(&ctl), 3);
}

#[test]
fn re_enable_unmasks_only_lines_clear_in_snapshot() {
    let mut ctl = controller(1, false);
    disable_interrupts(&mut ctl);
    assert_eq!(ctl.remembered_mask(), 1);
    re_enable_interrupts(&mut ctl);
    assert_eq!(get_interrupt_mask(&ctl), 1);
}

#[test]
fn handler_suppresses_disable_and_re_enable_with_auto_mask() {
    let mut ctl = controller(1, true);
    disable_interrupts(&mut ctl);
    assert_eq!(ctl.remembered_mask(), 1);
    entering_interrupt_handler(&mut ctl);
    enable_interrupts(&mut ctl);
    disable_interrupts(&mut ctl);
    assert_eq!(get_interrupt_mask(&ctl), 0);
    assert_eq!(ctl.remembered_mask(), 1);
    re_enable_interrupts(&mut ctl);
    assert_eq!(get_interrupt_mask(&ctl), 0);
    assert_eq!(ctl.remembered_mask(), 1);
    leaving_interrupt_handler(&mut ctl);
    disable_interrupts(&mut ctl);
    assert_eq!(get_interrupt_mask(&ctl), 3);
    assert_eq!(ctl.remembered_mask(), 0);
}

#[test]
fn handler_does_not_suppress_without_auto_mask() {
    let mut ctl = controller(0, false);
    entering_interrupt_handler(&mut ctl);
    disable_interrupts(&mut ctl);
    assert_eq!(get_interrupt_mask(&ctl), 3);
    assert_eq!(ctl.remembered_mask(), 0);
    re_enable_interrupts(&mut ctl);
    assert_eq!(get_interrupt_mask(&ctl), 0);
}

#[test]
fn handler_flag_pairing() {
    let mut ctl = controller(0, true);
    assert!(!ctl.handler_active());
    entering_interrupt_handler(&mut ctl);
    assert!(ctl.handler_active());
    disable_interrupts(&mut ctl);
    re_enable_interrupts(&mut ctl);
    assert!(ctl.handler_active());
    leaving_interrupt_handler(&mut ctl);
    assert!(!ctl.handler_active());
}

#[test]
fn unsupported_target_reports_zero() {
    let mut ctl = InterruptController::new(NoMaskRegister::new());
    assert_eq!(get_interrupt_mask(&ctl), 0);
    disable_interrupts(&mut ctl);
    assert_eq!(get_interrupt_mask(&ctl), 0);
    assert_eq!(ctl.remembered_mask(), 0xF);
    re_enable_interrupts(&mut ctl);
    enable_interrupts(&mut ctl);
    assert_eq!(get_interrupt_mask(&ctl), 0);
    assert_eq!(ctl.register().read_mask(), 0);
    assert!(!ctl.register().auto_masks_on_entry());
}

#[test]
fn register_operations_on_simulated_core() {
    let mut reg = SimulatedRegister::with_mask(0, true);
    assert!(reg.auto_masks_on_entry());
    reg.mask_both();
    assert_eq!(reg.read_mask(), 3);
    reg.unmask_irq();
    assert_eq!(reg.read_mask(), 1);
    reg.unmask_fiq();
    assert_eq!(reg.read_mask(), 0);
    assert_eq!(reg.status(), 0);
}
