//! Abstract state of the interrupt-mask controller, the transition that each
//! operation performs on it, and the laws those transitions obey.
use crate::register::BOTH_MASKED;
use vstd::prelude::*;

verus! {

/// Value of the remembered mask before any disable has been observed: every
/// bit set, read as "assume both lines were masked". Only the low two bits
/// carry meaning.
pub const REMEMBERED_AT_START: u32 = 0xF;

/// Everything the controller's operations read or change.
pub struct MaskState {
    /// Whether execution is inside an interrupt handler.
    pub handler_active: bool,
    /// Mask pattern captured by the outermost disable that changed the mask.
    pub remembered: u32,
    /// Mask pattern the register holds: bit 1 IRQ masked, bit 0 FIQ masked.
    pub mask: u32,
    /// Whether the target has a mask register.
    pub has_register: bool,
    /// Whether taking an interrupt masks both lines by itself.
    pub auto_mask: bool,
}

impl MaskState {
    /// The mask is a two-bit pattern, and zero on a target without a register.
    pub open spec fn valid(self) -> bool {
        &&& self.mask <= BOTH_MASKED
        &&& !self.has_register ==> self.mask == 0
    }

    /// Disable and re-enable do nothing: inside a handler on a target whose
    /// interrupt entry already masked both lines.
    pub open spec fn suppressed(self) -> bool {
        self.auto_mask && self.handler_active
    }

    /// Mask pattern the register holds once both lines have been masked.
    pub open spec fn fully_masked(self) -> u32 {
        if self.has_register {
            BOTH_MASKED
        } else {
            0
        }
    }
}

/// State at start-up: outside any handler, with the remembered mask at its
/// start value.
pub open spec fn initial(mask: u32, has_register: bool, auto_mask: bool) -> MaskState {
    MaskState { handler_active: false, remembered: REMEMBERED_AT_START, mask, has_register, auto_mask }
}

/// Entering a handler sets the flag.
pub open spec fn entered(s: MaskState) -> MaskState {
    MaskState { handler_active: true, ..s }
}

/// Leaving a handler clears the flag.
pub open spec fn left(s: MaskState) -> MaskState {
    MaskState { handler_active: false, ..s }
}

/// Enabling unmasks both lines.
pub open spec fn enabled(s: MaskState) -> MaskState {
    MaskState { mask: 0, ..s }
}

/// Disabling masks both lines. The mask seen before is remembered only when
/// masking changed it, so a nested disable keeps the outer snapshot.
pub open spec fn disabled(s: MaskState) -> MaskState {
    if s.suppressed() {
        s
    } else {
        MaskState {
            mask: s.fully_masked(),
            remembered: if s.mask != s.fully_masked() {
                s.mask
            } else {
                s.remembered
            },
            ..s
        }
    }
}

/// Re-enabling unmasks each line whose bit is clear in the remembered mask;
/// a line that was masked before the matching disable stays masked.
pub open spec fn re_enabled(s: MaskState) -> MaskState {
    if s.suppressed() {
        s
    } else {
        MaskState { mask: s.mask & s.remembered, ..s }
    }
}

/// Masking and unmasking keep the pattern two bits wide.
proof fn lemma_and_in_range(a: u32, b: u32)
    requires
        a <= BOTH_MASKED,
    ensures
        a & b <= BOTH_MASKED,
{
    assert(a <= 3u32 ==> a & b <= 3u32) by (bit_vector);
}

/// Every operation keeps a valid state valid.
pub proof fn lemma_transitions_valid(s: MaskState)
    requires
        s.valid(),
    ensures
        entered(s).valid(),
        left(s).valid(),
        enabled(s).valid(),
        disabled(s).valid(),
        re_enabled(s).valid(),
{
    lemma_and_in_range(s.mask, s.remembered);
    assert(0u32 & s.remembered == 0u32) by (bit_vector);
}

/// Enabling twice in a row leaves the same state as enabling once.
pub proof fn lemma_enable_idempotent(s: MaskState)
    ensures
        enabled(enabled(s)) == enabled(s),
{
}

/// From both lines enabled, two nested disables followed by one re-enable
/// enable both lines again: the inner disable keeps the outer snapshot.
pub proof fn lemma_nested_disable_restores(s: MaskState)
    requires
        s.valid(),
        s.mask == 0,
    ensures
        re_enabled(disabled(disabled(s))).mask == 0,
{
    let r = disabled(disabled(s)).remembered;
    assert(0u32 & r == 0u32) by (bit_vector);
    assert(3u32 & 0u32 == 0u32) by (bit_vector);
}

/// A disable followed at once by a re-enable brings back the mask that held
/// before, for each of the four patterns. The one exception is a start with
/// both lines masked while the remembered mask has a line unmasked: masking
/// then changes nothing, so nothing is captured, and the re-enable acts on
/// the older snapshot.
pub proof fn lemma_disable_re_enable_round_trip(s: MaskState)
    requires
        s.valid(),
        s.has_register && s.mask == BOTH_MASKED ==> s.remembered & BOTH_MASKED == BOTH_MASKED,
    ensures
        re_enabled(disabled(s)).mask == s.mask,
{
    let m = s.mask;
    let r = s.remembered;
    assert(m <= 3u32 ==> 3u32 & m == m) by (bit_vector);
    assert(0u32 & r == 0u32) by (bit_vector);
    assert(r & 3u32 == 3u32 ==> 3u32 & r == 3u32) by (bit_vector);
}

/// Inside a handler on a target whose interrupt entry masks both lines,
/// disable and re-enable change nothing, the remembered mask included.
pub proof fn lemma_handler_suppresses(s: MaskState)
    requires
        s.handler_active,
        s.auto_mask,
    ensures
        disabled(s) == s,
        re_enabled(s) == s,
{
}

/// Entering and then leaving a handler clears the flag again; the flag is set
/// between the two, and no mask operation changes it.
pub proof fn lemma_flag_pairing(s: MaskState)
    ensures
        entered(s).handler_active,
        !left(entered(s)).handler_active,
        enabled(s).handler_active == s.handler_active,
        disabled(s).handler_active == s.handler_active,
        re_enabled(s).handler_active == s.handler_active,
{
}

/// On a target without a mask register the mask reads as zero in every valid
/// state, and every operation leaves it so.
pub proof fn lemma_no_register_reads_zero(s: MaskState)
    requires
        s.valid(),
        !s.has_register,
    ensures
        s.mask == 0,
        enabled(s).mask == 0,
        disabled(s).mask == 0,
        re_enabled(s).mask == 0,
{
    assert(0u32 & s.remembered == 0u32) by (bit_vector);
}

} // verus!
