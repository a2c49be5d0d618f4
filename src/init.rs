use vstd::prelude::*;

verus! {

/// The JEDEC vendor id of SiFive.
pub const SIFIVE_VENDOR_ID: usize = 0x0489;

/// Implementation id of the U74 core complex revision on this SoC.
pub const U74_IMPLEMENTATION_ID: usize = 0x0421_0427;

/// The hart that runs the interrupt-driven application; the others park.
pub const APPLICATION_HART: usize = 1;

/// Harts of the SoC, by id.
#[derive(Clone, Copy, Debug, PartialEq, Eq, Structural)]
pub enum Harts {
    Hart0,
    Hart1,
    Hart2,
    Hart3,
    Hart4,
    Unknown,
}

impl From<usize> for Harts {
    /// Ids 0 to 4 name a hart; any other id is `Unknown`.
    fn from(value: usize) -> (r: Harts) {
        match value {
            0 => Harts::Hart0,
            1 => Harts::Hart1,
            2 => Harts::Hart2,
            3 => Harts::Hart3,
            4 => Harts::Hart4,
            _ => Harts::Unknown,
        }
    }
}

impl vstd::std_specs::convert::FromSpecImpl<usize> for Harts {
    open spec fn obeys_from_spec() -> bool {
        true
    }

    open spec fn from_spec(value: usize) -> Harts {
        if value == 0 {
            Harts::Hart0
        } else if value == 1 {
            Harts::Hart1
        } else if value == 2 {
            Harts::Hart2
        } else if value == 3 {
            Harts::Hart3
        } else if value == 4 {
            Harts::Hart4
        } else {
            Harts::Unknown
        }
    }
}

/// Whether hart `hart_id` goes on to `main` at boot; every other hart waits.
pub fn is_application_hart(hart_id: usize) -> (r: bool)
    ensures
        r == (hart_id == APPLICATION_HART),
{
    hart_id == APPLICATION_HART
}

/// Gets the vendor name of the device from the `vendorid`.
pub fn vendorid_to_name(vendorid: usize) -> (r: &'static str)
    ensures
        vendorid == SIFIVE_VENDOR_ID ==> r@ == "SiFive"@,
        vendorid != SIFIVE_VENDOR_ID ==> r@ == "unknown"@,
{
    match vendorid {
        SIFIVE_VENDOR_ID => "SiFive",
        _ => "unknown",
    }
}

/// Gets the implementation name from the implementation id.
pub fn impid_to_name(impid: usize) -> (r: &'static str)
    ensures
        impid == U74_IMPLEMENTATION_ID ==> r@ == "21G1.02.00 / llama.02.00-general"@,
        impid != U74_IMPLEMENTATION_ID ==> r@ == "unknown"@,
{
    match impid {
        U74_IMPLEMENTATION_ID => "21G1.02.00 / llama.02.00-general",
        _ => "unknown",
    }
}

/// Name of the boot source selected by the two low bits of the boot-mode pins.
pub fn boot_mode_name(bits: u32) -> (r: &'static str)
    ensures
        bits % 4 == 0 ==> r@ == "SPI"@,
        bits % 4 == 1 ==> r@ == "MMC2"@,
        bits % 4 == 2 ==> r@ == "MMC1"@,
        bits % 4 == 3 ==> r@ == "UART"@,
{
    let mode = bits & 0b11;
    assert(mode == bits % 4) by (bit_vector)
        requires
            mode == bits & 0b11,
    ;
    if mode == 0 {
        "SPI"
    } else if mode == 1 {
        "MMC2"
    } else if mode == 2 {
        "MMC1"
    } else {
        "UART"
    }
}

/// The architecture id folded into one word: upper half or-ed onto the lower half.
pub fn arch_id_word(archid: u64) -> (r: u32)
    ensures
        r == ((archid >> 32u64) as u32 | archid as u32),
{
    (archid >> 32u64) as u32 | archid as u32
}

} // verus!
