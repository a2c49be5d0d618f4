use vstd::prelude::*;

verus! {

/// Machine-timer ticks between toggles of the blinking pin: a quarter second at 4 MHz.
pub const BLINK_PERIOD_TICKS: u64 = 1_000_000;

/// Reload of the PWM high reference once it has counted down to zero.
pub const PWM_HIGH_REFERENCE: u32 = 5_000_000;

/// Machine-timer compare value for the next toggle; the timer wraps around.
pub fn next_blink_deadline(mtime: u64) -> (r: u64)
    ensures
        r == (mtime + BLINK_PERIOD_TICKS) % 0x1_0000_0000_0000_0000,
{
    mtime.wrapping_add(BLINK_PERIOD_TICKS)
}

/// Level of the blinking pin after a toggle.
pub fn toggled(pin_is_high: bool) -> (r: bool)
    ensures
        r == !pin_is_high,
{
    !pin_is_high
}

/// Next PWM high reference: one less each period, restarting from the full
/// value at zero, so the duty cycle sweeps.
pub fn next_high_reference(current: u32) -> (r: u32)
    ensures
        current == 0 ==> r == PWM_HIGH_REFERENCE,
        current != 0 ==> r == current - 1,
{
    if current == 0 {
        PWM_HIGH_REFERENCE
    } else {
        current - 1
    }
}

} // verus!
