use vstd::prelude::*;

verus! {

/// Address of the feature-disable control and status register.
pub const FEATURE_DISABLE_CSR_ADDRESS: usize = 0x7C1;

/// The settable fields of the feature-disable register.
pub const FIELD_MASK: usize = 0b11_0000_0010_0000_1111;

pub const DISABLE_DATA_CACHE_CLOCK_GATING: usize = 0;
pub const DISABLE_INSTRUCTION_CACHE_CLOCK_GATING: usize = 1;
pub const DISABLE_PIPELINE_CLOCK_GATING: usize = 2;
pub const DISABLE_SPECULATIVE_INSTRUCTION_CACHE_REFILL: usize = 3;
pub const SUPPRESS_CORRUPT_SIGNAL_ON_GRANTDATA_MESSAGE: usize = 9;
pub const DISABLE_SHORT_FORWARD_BRANCH_OPTIMIZATION: usize = 16;
pub const DISABLE_INSTRUCTION_CACHE_NEXT_LINE_PREFETCHER: usize = 17;

/// Contents of the feature-disable register.
#[derive(Clone, Copy, Debug)]
pub struct FeatureDisable {
    bits: usize,
}

/// Whether bit `bit` of `bits` is set.
pub open spec fn flag(bits: usize, bit: usize) -> bool {
    (bits >> bit) & 1 == 1
}

impl View for FeatureDisable {
    type V = usize;

    open spec fn view(&self) -> usize {
        self.raw()
    }
}

impl FeatureDisable {
    pub closed spec fn raw(&self) -> usize {
        self.bits
    }

    /// Wraps raw register contents.
    pub fn from_bits(bits: usize) -> (r: FeatureDisable)
        ensures
            r@ == bits,
    {
        FeatureDisable { bits }
    }

    /// Returns the contents of the register as raw bits.
    pub fn bits(&self) -> (r: usize)
        ensures
            r == self@,
    {
        self.bits
    }

    fn flag_at(&self, bit: usize) -> (r: bool)
        requires
            bit < 32,
        ensures
            r == flag(self@, bit),
    {
        let bits = self.bits;
        let r = bits & (1usize << bit) != 0;
        assert(r == ((bits >> bit) & 1 == 1)) by (bit_vector)
            requires
                r == (bits & (1usize << bit) != 0),
                bit < 32,
        ;
        r
    }

    /// Disable data cache clock gating.
    pub fn disable_data_cache_clock_gating(&self) -> (r: bool)
        ensures
            r == flag(self@, DISABLE_DATA_CACHE_CLOCK_GATING),
    {
        self.flag_at(DISABLE_DATA_CACHE_CLOCK_GATING)
    }

    /// Disable instruction cache clock gating.
    pub fn disable_instruction_cache_clock_gating(&self) -> (r: bool)
        ensures
            r == flag(self@, DISABLE_INSTRUCTION_CACHE_CLOCK_GATING),
    {
        self.flag_at(DISABLE_INSTRUCTION_CACHE_CLOCK_GATING)
    }

    /// Disable pipeline clock gating.
    pub fn disable_pipeline_clock_gating(&self) -> (r: bool)
        ensures
            r == flag(self@, DISABLE_PIPELINE_CLOCK_GATING),
    {
        self.flag_at(DISABLE_PIPELINE_CLOCK_GATING)
    }

    /// Disable speculative instruction cache refill.
    pub fn disable_speculative_instruction_cache_refill(&self) -> (r: bool)
        ensures
            r == flag(self@, DISABLE_SPECULATIVE_INSTRUCTION_CACHE_REFILL),
    {
        self.flag_at(DISABLE_SPECULATIVE_INSTRUCTION_CACHE_REFILL)
    }

    /// Suppress corrupt signal on GrantData messages.
    pub fn suppress_corrupt_signal_on_grantdata_messages(&self) -> (r: bool)
        ensures
            r == flag(self@, SUPPRESS_CORRUPT_SIGNAL_ON_GRANTDATA_MESSAGE),
    {
        self.flag_at(SUPPRESS_CORRUPT_SIGNAL_ON_GRANTDATA_MESSAGE)
    }

    /// Disable short forward branch optimization.
    pub fn disable_short_forward_branch_optimization(&self) -> (r: bool)
        ensures
            r == flag(self@, DISABLE_SHORT_FORWARD_BRANCH_OPTIMIZATION),
    {
        self.flag_at(DISABLE_SHORT_FORWARD_BRANCH_OPTIMIZATION)
    }

    /// Disable instruction cache next-line prefetcher.
    pub fn disable_instruction_cache_next_line_prefetcher(&self) -> (r: bool)
        ensures
            r == flag(self@, DISABLE_INSTRUCTION_CACHE_NEXT_LINE_PREFETCHER),
    {
        self.flag_at(DISABLE_INSTRUCTION_CACHE_NEXT_LINE_PREFETCHER)
    }
}

} // verus!
