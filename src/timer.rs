use vstd::prelude::*;

verus! {

/// System memory map start address of the timer registers.
pub const TIMER_REG_BASE: u32 = 0x1305_0000;

/// Size of one channel's register block.
pub const CHANNEL_LENGTH: u32 = 0x40;

/// Number of timer channels.
pub const TIMER_CHANNELS: u32 = 4;

pub const CONTROL_REG_OFFSET: u32 = 0x04;
pub const LOAD_REG_OFFSET: u32 = 0x08;
pub const ENABLE_REG_OFFSET: u32 = 0x10;
pub const RELOAD_REG_OFFSET: u32 = 0x14;
pub const VALUE_REG_OFFSET: u32 = 0x18;
pub const INT_STATUS_CLEAR_REG_OFFSET: u32 = 0x20;
pub const INT_MASK_REG_OFFSET: u32 = 0x24;

/// Bit of the interrupt-clear register that reports a clear still in progress.
pub const INT_STATUS_CLEAR_BUSY_BIT: u32 = 1;

/// Whether bit `bit` of `value` is set.
pub open spec fn bit_set(value: u32, bit: u32) -> bool {
    (value >> bit) & 1 == 1
}

/// Interrupt pending flag of a channel.
#[derive(Clone, Copy, Debug, PartialEq, Eq, Structural)]
pub enum TimerIntStatus {
    NotPending,
    Pending,
}

impl TimerIntStatus {
    /// Zero means no interrupt; anything else, pending.
    pub fn from_u32(value: u32) -> (r: TimerIntStatus)
        ensures
            r == (if value == 0 { TimerIntStatus::NotPending } else { TimerIntStatus::Pending }),
    {
        match value {
            0 => TimerIntStatus::NotPending,
            _ => TimerIntStatus::Pending,
        }
    }

    /// The flag of `channel` in the shared interrupt status register.
    pub fn decode(raw: u32, channel: u32) -> (r: TimerIntStatus)
        requires
            channel < TIMER_CHANNELS,
        ensures
            r == (if bit_set(raw, channel) { TimerIntStatus::Pending } else { TimerIntStatus::NotPending }),
    {
        let value = (raw & (1u32 << channel)) >> channel;
        assert((value == 0) == !bit_set(raw, channel)) by (bit_vector)
            requires
                value == (raw & (1u32 << channel)) >> channel,
                channel < 4,
        ;
        TimerIntStatus::from_u32(value)
    }
}

/// Continuous run or single (one-shot) run.
#[derive(Clone, Copy, Debug, PartialEq, Eq, Structural)]
pub enum TimerControl {
    Continuous,
    Single,
}

impl TimerControl {
    pub fn from_u32(value: u32) -> (r: TimerControl)
        ensures
            r == (if value == 0 { TimerControl::Continuous } else { TimerControl::Single }),
    {
        match value {
            0 => TimerControl::Continuous,
            _ => TimerControl::Single,
        }
    }

    /// The value written to the control register.
    pub fn bits(&self) -> (r: u32)
        ensures
            r == (if *self == TimerControl::Continuous { 0u32 } else { 1u32 }),
    {
        match self {
            TimerControl::Continuous => 0,
            TimerControl::Single => 1,
        }
    }
}

/// Timer enable flag.
#[derive(Clone, Copy, Debug, PartialEq, Eq, Structural)]
pub enum TimerEnable {
    Disable,
    Enable,
}

impl TimerEnable {
    pub fn from_u32(value: u32) -> (r: TimerEnable)
        ensures
            r == (if value == 0 { TimerEnable::Disable } else { TimerEnable::Enable }),
    {
        match value {
            0 => TimerEnable::Disable,
            _ => TimerEnable::Enable,
        }
    }

    /// The value written to the enable register.
    pub fn bits(&self) -> (r: u32)
        ensures
            r == (if *self == TimerEnable::Disable { 0u32 } else { 1u32 }),
    {
        match self {
            TimerEnable::Disable => 0,
            TimerEnable::Enable => 1,
        }
    }
}

/// Whether an interrupt clear is still in progress.
#[derive(Clone, Copy, Debug, PartialEq, Eq, Structural)]
pub enum TimerIntClearBusy {
    No,
    Yes,
}

impl TimerIntClearBusy {
    pub fn from_u32(value: u32) -> (r: TimerIntClearBusy)
        ensures
            r == (if value == 0 { TimerIntClearBusy::No } else { TimerIntClearBusy::Yes }),
    {
        match value {
            0 => TimerIntClearBusy::No,
            _ => TimerIntClearBusy::Yes,
        }
    }

    /// Reads the busy flag from the interrupt-clear register: busy when any
    /// bit from the busy bit upwards is set.
    pub fn decode(raw: u32) -> (r: TimerIntClearBusy)
        ensures
            r == (if raw >> INT_STATUS_CLEAR_BUSY_BIT == 0 {
                TimerIntClearBusy::No
            } else {
                TimerIntClearBusy::Yes
            }),
    {
        TimerIntClearBusy::from_u32(raw >> INT_STATUS_CLEAR_BUSY_BIT)
    }
}

/// Interrupt clear request flag.
#[derive(Clone, Copy, Debug, PartialEq, Eq, Structural)]
pub enum TimerIntClearStatus {
    Idle,
    Clear,
}

impl TimerIntClearStatus {
    pub fn from_u32(value: u32) -> (r: TimerIntClearStatus)
        ensures
            r == (if value == 0 { TimerIntClearStatus::Idle } else { TimerIntClearStatus::Clear }),
    {
        match value {
            0 => TimerIntClearStatus::Idle,
            _ => TimerIntClearStatus::Clear,
        }
    }

    /// Reads the clear flag, bit 0 of the interrupt-clear register.
    pub fn decode(raw: u32) -> (r: TimerIntClearStatus)
        ensures
            r == (if bit_set(raw, 0) { TimerIntClearStatus::Clear } else { TimerIntClearStatus::Idle }),
    {
        let value = raw & 0x1;
        assert((value == 0) == !bit_set(raw, 0)) by (bit_vector)
            requires
                value == raw & 0x1,
        ;
        TimerIntClearStatus::from_u32(value)
    }

    /// The value written to the interrupt-clear register.
    pub fn bits(&self) -> (r: u32)
        ensures
            r == (if *self == TimerIntClearStatus::Idle { 0u32 } else { 1u32 }),
    {
        match self {
            TimerIntClearStatus::Idle => 0,
            TimerIntClearStatus::Clear => 1,
        }
    }
}

/// Interrupt mask flag.
#[derive(Clone, Copy, Debug, PartialEq, Eq, Structural)]
pub enum TimerIntMask {
    Unmask,
    Mask,
}

impl TimerIntMask {
    pub fn from_u32(value: u32) -> (r: TimerIntMask)
        ensures
            r == (if value == 0 { TimerIntMask::Unmask } else { TimerIntMask::Mask }),
    {
        match value {
            0 => TimerIntMask::Unmask,
            _ => TimerIntMask::Mask,
        }
    }

    /// The value written to the mask register.
    pub fn bits(&self) -> (r: u32)
        ensures
            r == (if *self == TimerIntMask::Unmask { 0u32 } else { 1u32 }),
    {
        match self {
            TimerIntMask::Unmask => 0,
            TimerIntMask::Mask => 1,
        }
    }
}

/// Addresses of one timer channel's registers.
#[derive(Clone, Copy, Debug, PartialEq, Eq, Structural)]
pub struct TimerRegisters {
    /// Shared by all channels; one status bit per channel.
    pub int_status: u32,
    pub control: u32,
    pub load: u32,
    pub enable: u32,
    pub reload: u32,
    pub value: u32,
    pub int_status_clear: u32,
    pub int_mask: u32,
}

/// First register of `channel`'s block.
pub open spec fn channel_base(channel: u32) -> int {
    TIMER_REG_BASE + CHANNEL_LENGTH * channel
}

/// A timer channel of the SoC.
pub trait Timer {
    /// Channel number.
    fn channel(&self) -> (r: u32)
        ensures
            r < TIMER_CHANNELS,
    ;
}

/// Register addresses of `channel`.
pub fn timer_registers(channel: u32) -> (r: TimerRegisters)
    requires
        channel < TIMER_CHANNELS,
    ensures
        r.int_status == TIMER_REG_BASE,
        r.control == channel_base(channel) + CONTROL_REG_OFFSET,
        r.load == channel_base(channel) + LOAD_REG_OFFSET,
        r.enable == channel_base(channel) + ENABLE_REG_OFFSET,
        r.reload == channel_base(channel) + RELOAD_REG_OFFSET,
        r.value == channel_base(channel) + VALUE_REG_OFFSET,
        r.int_status_clear == channel_base(channel) + INT_STATUS_CLEAR_REG_OFFSET,
        r.int_mask == channel_base(channel) + INT_MASK_REG_OFFSET,
{
    let base = TIMER_REG_BASE + CHANNEL_LENGTH * channel;
    TimerRegisters {
        int_status: TIMER_REG_BASE,
        control: base + CONTROL_REG_OFFSET,
        load: base + LOAD_REG_OFFSET,
        enable: base + ENABLE_REG_OFFSET,
        reload: base + RELOAD_REG_OFFSET,
        value: base + VALUE_REG_OFFSET,
        int_status_clear: base + INT_STATUS_CLEAR_REG_OFFSET,
        int_mask: base + INT_MASK_REG_OFFSET,
    }
}

/// Timer channel 0.
#[derive(Clone, Copy, Debug)]
pub struct Timer0 {}

impl Timer0 {
    pub fn new() -> (r: Timer0) {
        Timer0 {}
    }
}

impl Timer for Timer0 {
    fn channel(&self) -> (r: u32) {
        0
    }
}

/// Timer channel 1.
#[derive(Clone, Copy, Debug)]
pub struct Timer1 {}

impl Timer for Timer1 {
    fn channel(&self) -> (r: u32) {
        1
    }
}

/// Timer channel 2.
#[derive(Clone, Copy, Debug)]
pub struct Timer2 {}

impl Timer for Timer2 {
    fn channel(&self) -> (r: u32) {
        2
    }
}

/// Timer channel 3.
#[derive(Clone, Copy, Debug)]
pub struct Timer3 {}

impl Timer for Timer3 {
    fn channel(&self) -> (r: u32) {
        3
    }
}

} // verus!
