use vstd::prelude::*;

verus! {

/// Base address of the platform interrupt controller.
pub const PLIC_BASE: u32 = 0x0C00_0000;

/// Per-source priority registers, one word per source.
pub const PLIC_PRIORITY: u32 = PLIC_BASE;

/// Pending bitmap: word `source / 32`, bit `source % 32`.
pub const PLIC_PENDING: u32 = PLIC_BASE + 0x1000;

/// Enable bitmaps, one block per hart/mode context.
pub const PLIC_ENABLES: u32 = PLIC_BASE + 0x2000;

/// Size of one context's enable block.
pub const PLIC_ENABLES_STRIDE: u32 = 0x80;

/// Threshold register of context 0; claim/complete follows it.
pub const PLIC_CONTEXTS: u32 = PLIC_BASE + 0x20_0000;

/// Size of one context's threshold and claim/complete block.
pub const PLIC_CONTEXT_STRIDE: u32 = 0x1000;

/// Offset of the claim/complete register inside a context block.
pub const PLIC_CLAIM_OFFSET: u32 = 4;

/// The controller addresses sources below this number.
pub const PLIC_MAX_SOURCES: u32 = 1024;

/// Priority of an interrupt source; `Disabled` keeps the source from firing.
#[derive(Clone, Copy, Debug, PartialEq, Eq, Structural)]
pub enum InterruptPriority {
    Disabled,
    Priority1,
    Priority2,
    Priority3,
    Priority4,
    Priority5,
    Priority6,
    Priority7,
}

pub open spec fn priority_level(p: InterruptPriority) -> u32 {
    match p {
        InterruptPriority::Disabled => 0,
        InterruptPriority::Priority1 => 1,
        InterruptPriority::Priority2 => 2,
        InterruptPriority::Priority3 => 3,
        InterruptPriority::Priority4 => 4,
        InterruptPriority::Priority5 => 5,
        InterruptPriority::Priority6 => 6,
        InterruptPriority::Priority7 => 7,
    }
}

impl InterruptPriority {
    /// The value written to the priority register.
    pub fn level(&self) -> (r: u32)
        ensures
            r == priority_level(*self),
    {
        match self {
            InterruptPriority::Disabled => 0,
            InterruptPriority::Priority1 => 1,
            InterruptPriority::Priority2 => 2,
            InterruptPriority::Priority3 => 3,
            InterruptPriority::Priority4 => 4,
            InterruptPriority::Priority5 => 5,
            InterruptPriority::Priority6 => 6,
            InterruptPriority::Priority7 => 7,
        }
    }
}

impl From<u32> for InterruptPriority {
    /// Levels 0 to 7 map to themselves; anything else is `Disabled`.
    fn from(value: u32) -> (r: InterruptPriority) {
        match value {
            0 => InterruptPriority::Disabled,
            1 => InterruptPriority::Priority1,
            2 => InterruptPriority::Priority2,
            3 => InterruptPriority::Priority3,
            4 => InterruptPriority::Priority4,
            5 => InterruptPriority::Priority5,
            6 => InterruptPriority::Priority6,
            7 => InterruptPriority::Priority7,
            _ => InterruptPriority::Disabled,
        }
    }
}

impl vstd::std_specs::convert::FromSpecImpl<u32> for InterruptPriority {
    open spec fn obeys_from_spec() -> bool {
        true
    }

    open spec fn from_spec(value: u32) -> InterruptPriority {
        if value == 1 {
            InterruptPriority::Priority1
        } else if value == 2 {
            InterruptPriority::Priority2
        } else if value == 3 {
            InterruptPriority::Priority3
        } else if value == 4 {
            InterruptPriority::Priority4
        } else if value == 5 {
            InterruptPriority::Priority5
        } else if value == 6 {
            InterruptPriority::Priority6
        } else if value == 7 {
            InterruptPriority::Priority7
        } else {
            InterruptPriority::Disabled
        }
    }
}

/// Privilege mode of an interrupt context.
#[derive(Clone, Copy, Debug, PartialEq, Eq, Structural)]
pub enum ExecutionMode {
    Machine,
    Supervisor,
}

/// A hart of the SoC; hart 0 has a machine-mode context only.
#[derive(Clone, Copy, Debug, PartialEq, Eq, Structural)]
pub enum HartId {
    Hart0,
    Hart1,
    Hart2,
    Hart3,
    Hart4,
}

pub open spec fn hart_index(h: HartId) -> u32 {
    match h {
        HartId::Hart0 => 0,
        HartId::Hart1 => 1,
        HartId::Hart2 => 2,
        HartId::Hart3 => 3,
        HartId::Hart4 => 4,
    }
}

impl From<usize> for HartId {
    /// Harts 0 to 4 map to themselves; any other id to hart 0.
    fn from(value: usize) -> (r: HartId) {
        match value {
            0 => HartId::Hart0,
            1 => HartId::Hart1,
            2 => HartId::Hart2,
            3 => HartId::Hart3,
            4 => HartId::Hart4,
            _ => HartId::Hart0,
        }
    }
}

impl vstd::std_specs::convert::FromSpecImpl<usize> for HartId {
    open spec fn obeys_from_spec() -> bool {
        true
    }

    open spec fn from_spec(value: usize) -> HartId {
        if value == 1 {
            HartId::Hart1
        } else if value == 2 {
            HartId::Hart2
        } else if value == 3 {
            HartId::Hart3
        } else if value == 4 {
            HartId::Hart4
        } else {
            HartId::Hart0
        }
    }
}

/// Controller context of a hart and mode: hart 0 has context 0 only; hart `h`
/// has context `2h - 1` in machine mode and `2h` in supervisor mode.
pub open spec fn context_index(hart: HartId, mode: ExecutionMode) -> u32 {
    if hart == HartId::Hart0 {
        0
    } else if mode == ExecutionMode::Machine {
        (2 * hart_index(hart) - 1) as u32
    } else {
        (2 * hart_index(hart)) as u32
    }
}

/// Address of the priority register of `source`.
pub fn priority_register(source: u32) -> (r: u32)
    requires
        source < PLIC_MAX_SOURCES,
    ensures
        r == PLIC_PRIORITY + 4 * source,
{
    PLIC_PRIORITY + 4 * source
}

/// First word of the enable bitmap of a hart/mode context.
pub fn enable_register_base(hart: HartId, mode: ExecutionMode) -> (r: u32)
    ensures
        r == PLIC_ENABLES + PLIC_ENABLES_STRIDE * context_index(hart, mode),
{
    match hart {
        HartId::Hart0 => PLIC_ENABLES,
        HartId::Hart1 => match mode {
            ExecutionMode::Machine => PLIC_BASE + 0x2080,
            ExecutionMode::Supervisor => PLIC_BASE + 0x2100,
        },
        HartId::Hart2 => match mode {
            ExecutionMode::Machine => PLIC_BASE + 0x2180,
            ExecutionMode::Supervisor => PLIC_BASE + 0x2200,
        },
        HartId::Hart3 => match mode {
            ExecutionMode::Machine => PLIC_BASE + 0x2280,
            ExecutionMode::Supervisor => PLIC_BASE + 0x2300,
        },
        HartId::Hart4 => match mode {
            ExecutionMode::Machine => PLIC_BASE + 0x2380,
            ExecutionMode::Supervisor => PLIC_BASE + 0x2400,
        },
    }
}

/// Register and bit that enable `source` for a hart/mode context.
pub fn enable_location(hart: HartId, mode: ExecutionMode, source: u32) -> (r: (u32, u32))
    requires
        source < PLIC_MAX_SOURCES,
    ensures
        r.0 == PLIC_ENABLES + PLIC_ENABLES_STRIDE * context_index(hart, mode) + (source / 32) * 4,
        r.1 == source % 32,
{
    let register_offset = (source / 32) * 4;
    let bit_offset = source % 32;
    (enable_register_base(hart, mode) + register_offset, bit_offset)
}

/// Threshold register of a hart/mode context.
pub fn threshold_register(hart: HartId, mode: ExecutionMode) -> (r: u32)
    ensures
        r == PLIC_CONTEXTS + PLIC_CONTEXT_STRIDE * context_index(hart, mode),
{
    match hart {
        HartId::Hart0 => PLIC_CONTEXTS,
        HartId::Hart1 => match mode {
            ExecutionMode::Machine => PLIC_BASE + 0x20_1000,
            ExecutionMode::Supervisor => PLIC_BASE + 0x20_2000,
        },
        HartId::Hart2 => match mode {
            ExecutionMode::Machine => PLIC_BASE + 0x20_3000,
            ExecutionMode::Supervisor => PLIC_BASE + 0x20_4000,
        },
        HartId::Hart3 => match mode {
            ExecutionMode::Machine => PLIC_BASE + 0x20_5000,
            ExecutionMode::Supervisor => PLIC_BASE + 0x20_6000,
        },
        HartId::Hart4 => match mode {
            ExecutionMode::Machine => PLIC_BASE + 0x20_7000,
            ExecutionMode::Supervisor => PLIC_BASE + 0x20_8000,
        },
    }
}

/// Claim/complete register of a hart/mode context.
pub fn claim_complete_register(hart: HartId, mode: ExecutionMode) -> (r: u32)
    ensures
        r == PLIC_CONTEXTS + PLIC_CONTEXT_STRIDE * context_index(hart, mode) + PLIC_CLAIM_OFFSET,
{
    threshold_register(hart, mode) + PLIC_CLAIM_OFFSET
}

/// The threshold value written: the low three bits of `threshold`.
pub fn threshold_value(threshold: u32) -> (r: u32)
    ensures
        r == threshold % 8,
{
    let r = threshold & 0b111;
    assert(r == threshold % 8) by (bit_vector)
        requires
            r == threshold & 0b111,
    ;
    r
}

/// `regval` with bit `bit` set and every other bit kept.
pub fn with_bit_set(regval: u32, bit: u32) -> (r: u32)
    requires
        bit < 32,
    ensures
        r == regval | (1u32 << bit),
        r & (1u32 << bit) != 0,
{
    let r = regval | 1u32 << bit;
    assert(r & (1u32 << bit) != 0) by (bit_vector)
        requires
            r == regval | (1u32 << bit),
            bit < 32,
    ;
    r
}

/// Offset into the pending bitmap and the mask of `source`'s bit.
pub fn pending_location(source: u32) -> (r: (u32, u32))
    ensures
        r.0 == 4 * (source / 32),
        r.1 == 1u32 << (source % 32),
{
    (4 * (source / 32), 1u32 << (source % 32))
}

/// What the external-interrupt trap does with the source id it claimed.
#[derive(Clone, Copy, Debug, PartialEq, Eq, Structural)]
pub enum ExternalDispatch {
    /// Nothing was pending: no handler runs and nothing is completed.
    Spurious,
    /// Run the handler of this source, then complete it.
    Handle(u32),
    /// The source has no handler: report it, then complete it.
    Unassigned(u32),
}

impl ExternalDispatch {
    /// The source whose handler runs, if any.
    pub fn handler(&self) -> (r: Option<u32>)
        ensures
            r == handler_of(*self),
    {
        match self {
            ExternalDispatch::Handle(id) => Some(*id),
            _ => None,
        }
    }

    /// The source to complete, if any.
    pub fn completion(&self) -> (r: Option<u32>)
        ensures
            r == completion_of(*self),
    {
        match self {
            ExternalDispatch::Spurious => None,
            ExternalDispatch::Handle(id) => Some(*id),
            ExternalDispatch::Unassigned(id) => Some(*id),
        }
    }
}

pub open spec fn handler_of(d: ExternalDispatch) -> Option<u32> {
    match d {
        ExternalDispatch::Handle(id) => Some(id),
        _ => None,
    }
}

pub open spec fn completion_of(d: ExternalDispatch) -> Option<u32> {
    match d {
        ExternalDispatch::Spurious => None,
        ExternalDispatch::Handle(id) => Some(id),
        ExternalDispatch::Unassigned(id) => Some(id),
    }
}

/// The dispatch for a claimed id, given which vector slots have a handler.
pub open spec fn dispatch_of(claimed: u32, assigned: Seq<bool>) -> ExternalDispatch {
    if claimed == 0 {
        ExternalDispatch::Spurious
    } else if claimed < assigned.len() && assigned[claimed as int] {
        ExternalDispatch::Handle(claimed)
    } else {
        ExternalDispatch::Unassigned(claimed)
    }
}

/// Trap entry for external interrupts: `claimed` is what the claim register
/// returned and `assigned[i]` tells whether vector slot `i` has a handler.
/// Id 0 means nothing is pending; any other id is completed whether or not a
/// handler ran, and an id past the table counts as unassigned.
pub fn machine_external_isr(claimed: u32, assigned: &[bool]) -> (r: ExternalDispatch)
    ensures
        r == dispatch_of(claimed, assigned@),
        claimed == 0 ==> r == ExternalDispatch::Spurious,
        claimed != 0 && claimed < assigned@.len() && assigned@[claimed as int] ==> r
            == ExternalDispatch::Handle(claimed),
        claimed != 0 && !(claimed < assigned@.len() && assigned@[claimed as int]) ==> r
            == ExternalDispatch::Unassigned(claimed),
        claimed == 0 ==> handler_of(r) is None && completion_of(r) is None,
        claimed != 0 ==> completion_of(r) == Some(claimed),
{
    if claimed == 0 {
        ExternalDispatch::Spurious
    } else if (claimed as usize) < assigned.len() && assigned[claimed as usize] {
        ExternalDispatch::Handle(claimed)
    } else {
        ExternalDispatch::Unassigned(claimed)
    }
}

} // verus!
