//! Access primitives: widths, tagged access values, device identifiers, and
//! the table of supported (width, device) access shapes.

use vstd::prelude::*;

verus! {

/// Width of a memory-mapped access.
#[derive(Clone, Copy, Debug, PartialEq, Eq, Structural)]
pub enum BusWidth {
    B,
    H,
    W,
}

/// A value moving across the bus, tagged with the width that produced it.
#[derive(Clone, Copy, Debug, PartialEq, Eq, Structural)]
pub enum BusPacket {
    Byte(u8),
    Half(u16),
    Word(u32),
}

/// The width tag carried by a packet.
pub open spec fn packet_width(p: BusPacket) -> BusWidth {
    match p {
        BusPacket::Byte(_) => BusWidth::B,
        BusPacket::Half(_) => BusWidth::H,
        BusPacket::Word(_) => BusWidth::W,
    }
}

/// Identifier of a memory-mapped peripheral or bridge sub-region.
#[derive(Clone, Copy, Debug, PartialEq, Eq, Structural)]
pub enum IoDevice {
    Nand,
    Aes,
    Sha,
    Ehci,
    Ohci0,
    Ohci1,
    Sdhc0,
    Sdhc1,
    Hlwd,
    Ahb,
    Di,
    Exi,
    Mi,
    Ddr,
}

/// Diagnostic for a fatal dispatch error: the width, device and offset of
/// an access shape outside the defined set.
#[derive(Clone, Copy, Debug, PartialEq, Eq, Structural)]
pub struct BusError {
    pub width: BusWidth,
    pub dev: IoDevice,
    pub off: usize,
}

/// The exhaustively enumerated set of defined (width, device) access shapes.
/// Every pair outside this set is an unrecoverable configuration error.
pub open spec fn access_supported(width: BusWidth, dev: IoDevice) -> bool {
    match (width, dev) {
        (BusWidth::W, IoDevice::Nand) => true,
        (BusWidth::W, IoDevice::Aes) => true,
        (BusWidth::W, IoDevice::Sha) => true,
        (BusWidth::W, IoDevice::Ehci) => true,
        (BusWidth::W, IoDevice::Ohci0) => true,
        (BusWidth::W, IoDevice::Ohci1) => true,
        (BusWidth::W, IoDevice::Sdhc0) => true,
        (BusWidth::W, IoDevice::Sdhc1) => true,
        (BusWidth::W, IoDevice::Hlwd) => true,
        (BusWidth::W, IoDevice::Ahb) => true,
        (BusWidth::W, IoDevice::Di) => true,
        (BusWidth::W, IoDevice::Exi) => true,
        (BusWidth::H, IoDevice::Mi) => true,
        (BusWidth::H, IoDevice::Ddr) => true,
        _ => false,
    }
}

/// Each device decodes exactly one access width: the table never pairs a
/// device with two widths.
pub proof fn lemma_supported_width_unique(w1: BusWidth, w2: BusWidth, dev: IoDevice)
    requires
        access_supported(w1, dev),
        access_supported(w2, dev),
    ensures
        w1 == w2,
{
}

/// Executable form of the dispatch table; agrees with `access_supported`.
pub fn access_supported_ex(width: BusWidth, dev: IoDevice) -> (b: bool)
    ensures
        b == access_supported(width, dev),
{
    match (width, dev) {
        (BusWidth::W, IoDevice::Nand) => true,
        (BusWidth::W, IoDevice::Aes) => true,
        (BusWidth::W, IoDevice::Sha) => true,
        (BusWidth::W, IoDevice::Ehci) => true,
        (BusWidth::W, IoDevice::Ohci0) => true,
        (BusWidth::W, IoDevice::Ohci1) => true,
        (BusWidth::W, IoDevice::Sdhc0) => true,
        (BusWidth::W, IoDevice::Sdhc1) => true,
        (BusWidth::W, IoDevice::Hlwd) => true,
        (BusWidth::W, IoDevice::Ahb) => true,
        (BusWidth::W, IoDevice::Di) => true,
        (BusWidth::W, IoDevice::Exi) => true,
        (BusWidth::H, IoDevice::Mi) => true,
        (BusWidth::H, IoDevice::Ddr) => true,
        _ => false,
    }
}

/// Executable form of `packet_width`.
pub fn packet_width_ex(p: &BusPacket) -> (w: BusWidth)
    ensures
        w == packet_width(*p),
{
    match p {
        BusPacket::Byte(_) => BusWidth::B,
        BusPacket::Half(_) => BusWidth::H,
        BusPacket::Word(_) => BusWidth::W,
    }
}

} // verus!
