//! The address-space classifier: a pure, total map from a raw 16-bit address
//! (plus the boot-mapped flag) to a named hardware region together with the
//! region-relative offset of the address.

use vstd::prelude::*;

use crate::errors::EmuError;

verus! {

/// The named hardware regions of the flat 16-bit address space. Each variant
/// carries the region-relative offset of the classified address, except the
/// single-byte interrupt-enable register, which needs none.
#[derive(Debug, Copy, Clone, PartialEq, Eq, Structural)]
pub enum GameboyAddressRegion {
    Bootstrap(u16),
    CartridgeBankZero(u16),
    CartridgeBankSwitchable(u16),
    Vram(u16),
    CartridgeRam(u16),
    WorkRam(u16),
    WorkRam2(u16),
    ProhibitedEchoRam(u16),
    ObjectAttributeMemory(u16),
    Prohibited(u16),
    IORegisters(u16),
    HiRam(u16),
    InterruptEnableRegister,
}

/// The classification of `address` under `bootstrap_mapped`: `Some(region)`
/// with the region-relative offset, or `None` for the one invalid case, an
/// address in `0x0100..0x4000` while the bootstrap image is mapped (the boot
/// window only covers the first 256 bytes of the first bank).
pub open spec fn spec_classify(address: u16, bootstrap_mapped: bool) -> Option<
    GameboyAddressRegion,
> {
    if address < 0x4000 {
        if bootstrap_mapped {
            if address < 0x0100 {
                Some(GameboyAddressRegion::Bootstrap(address))
            } else {
                None
            }
        } else {
            Some(GameboyAddressRegion::CartridgeBankZero(address))
        }
    } else if address < 0x8000 {
        Some(GameboyAddressRegion::CartridgeBankSwitchable((address - 0x4000) as u16))
    } else if address < 0xA000 {
        Some(GameboyAddressRegion::Vram((address - 0x8000) as u16))
    } else if address < 0xC000 {
        Some(GameboyAddressRegion::CartridgeRam((address - 0xA000) as u16))
    } else if address < 0xD000 {
        Some(GameboyAddressRegion::WorkRam((address - 0xC000) as u16))
    } else if address < 0xE000 {
        Some(GameboyAddressRegion::WorkRam2((address - 0xD000) as u16))
    } else if address < 0xFE00 {
        Some(GameboyAddressRegion::ProhibitedEchoRam((address - 0xE000) as u16))
    } else if address < 0xFEA0 {
        Some(GameboyAddressRegion::ObjectAttributeMemory((address - 0xFE00) as u16))
    } else if address < 0xFF00 {
        Some(GameboyAddressRegion::Prohibited((address - 0xFEA0) as u16))
    } else if address < 0xFF80 {
        Some(GameboyAddressRegion::IORegisters((address - 0xFF00) as u16))
    } else if address < 0xFFFF {
        Some(GameboyAddressRegion::HiRam((address - 0xFF80) as u16))
    } else {
        Some(GameboyAddressRegion::InterruptEnableRegister)
    }
}

/// Membership of `address` in the range of `region`, stated directly over the
/// boundary table: `region`'s range contains `address` and `region` carries
/// the offset of `address` from the range's base.
pub open spec fn region_matches(
    address: u16,
    bootstrap_mapped: bool,
    region: GameboyAddressRegion,
) -> bool {
    match region {
        GameboyAddressRegion::Bootstrap(offset) => bootstrap_mapped && address < 0x0100 && offset
            == address,
        GameboyAddressRegion::CartridgeBankZero(offset) => !bootstrap_mapped && address < 0x4000
            && offset == address,
        GameboyAddressRegion::CartridgeBankSwitchable(offset) => 0x4000 <= address && address
            < 0x8000 && offset == address - 0x4000,
        GameboyAddressRegion::Vram(offset) => 0x8000 <= address && address < 0xA000 && offset
            == address - 0x8000,
        GameboyAddressRegion::CartridgeRam(offset) => 0xA000 <= address && address < 0xC000
            && offset == address - 0xA000,
        GameboyAddressRegion::WorkRam(offset) => 0xC000 <= address && address < 0xD000 && offset
            == address - 0xC000,
        GameboyAddressRegion::WorkRam2(offset) => 0xD000 <= address && address < 0xE000 && offset
            == address - 0xD000,
        GameboyAddressRegion::ProhibitedEchoRam(offset) => 0xE000 <= address && address < 0xFE00
            && offset == address - 0xE000,
        GameboyAddressRegion::ObjectAttributeMemory(offset) => 0xFE00 <= address && address
            < 0xFEA0 && offset == address - 0xFE00,
        GameboyAddressRegion::Prohibited(offset) => 0xFEA0 <= address && address < 0xFF00 && offset
            == address - 0xFEA0,
        GameboyAddressRegion::IORegisters(offset) => 0xFF00 <= address && address < 0xFF80
            && offset == address - 0xFF00,
        GameboyAddressRegion::HiRam(offset) => 0xFF80 <= address && address < 0xFFFF && offset
            == address - 0xFF80,
        GameboyAddressRegion::InterruptEnableRegister => address == 0xFFFF,
    }
}

/// The region ranges partition the address space: classification succeeds
/// exactly outside the invalid boot-window gap, and an address belongs to the
/// range of a region if and only if classification names that region — so
/// every address matches exactly one region, with no two ranges overlapping.
pub proof fn lemma_region_partition(address: u16, bootstrap_mapped: bool)
    ensures
        spec_classify(address, bootstrap_mapped) is Some <==> !(bootstrap_mapped && 0x0100
            <= address && address < 0x4000),
        forall|region: GameboyAddressRegion|
            region_matches(address, bootstrap_mapped, region) <==> spec_classify(
                address,
                bootstrap_mapped,
            ) == Some(region),
{
}

impl GameboyAddressRegion {
    /// Classify `address`: the region named by the boundary table, or
    /// `InvalidBootstrapAccess` for an address in `0x0100..0x4000` while the
    /// bootstrap image is mapped.
    pub fn new(address: u16, bootstrap_mapped: bool) -> (result: Result<
        GameboyAddressRegion,
        EmuError,
    >)
        ensures
            match spec_classify(address, bootstrap_mapped) {
                Some(region) => result == Ok::<GameboyAddressRegion, EmuError>(region),
                None => result == Err::<GameboyAddressRegion, EmuError>(
                    EmuError::InvalidBootstrapAccess { address },
                ),
            },
    {
        if address < 0x4000 {
            if bootstrap_mapped {
                if address < 0x0100 {
                    Ok(GameboyAddressRegion::Bootstrap(address))
                } else {
                    Err(EmuError::InvalidBootstrapAccess { address })
                }
            } else {
                Ok(GameboyAddressRegion::CartridgeBankZero(address))
            }
        } else if address < 0x8000 {
            Ok(GameboyAddressRegion::CartridgeBankSwitchable(address - 0x4000))
        } else if address < 0xA000 {
            Ok(GameboyAddressRegion::Vram(address - 0x8000))
        } else if address < 0xC000 {
            Ok(GameboyAddressRegion::CartridgeRam(address - 0xA000))
        } else if address < 0xD000 {
            Ok(GameboyAddressRegion::WorkRam(address - 0xC000))
        } else if address < 0xE000 {
            Ok(GameboyAddressRegion::WorkRam2(address - 0xD000))
        } else if address < 0xFE00 {
            Ok(GameboyAddressRegion::ProhibitedEchoRam(address - 0xE000))
        } else if address < 0xFEA0 {
            Ok(GameboyAddressRegion::ObjectAttributeMemory(address - 0xFE00))
        } else if address < 0xFF00 {
            Ok(GameboyAddressRegion::Prohibited(address - 0xFEA0))
        } else if address < 0xFF80 {
            Ok(GameboyAddressRegion::IORegisters(address - 0xFF00))
        } else if address < 0xFFFF {
            Ok(GameboyAddressRegion::HiRam(address - 0xFF80))
        } else {
            Ok(GameboyAddressRegion::InterruptEnableRegister)
        }
    }
}

/// A 16-bit address paired with its classified region. The two must never
/// disagree: `wf` says the region is exactly the classification of the raw
/// address (the bootstrap flag is recovered from the variant itself, and is
/// irrelevant above `0x4000`).
#[derive(Debug, Copy, Clone, PartialEq, Eq, Structural)]
pub struct GameboyAddress {
    pub region: GameboyAddressRegion,
    pub address: u16,
}

impl GameboyAddress {
    /// The region agrees with the classification of the raw address.
    pub open spec fn wf(self) -> bool {
        spec_classify(self.address, self.region is Bootstrap) == Some(self.region)
    }

    /// Classify `address` and pair it with its region; fails exactly where
    /// classification does.
    pub fn new(address: u16, bootstrap_mapped: bool) -> (result: Result<GameboyAddress, EmuError>)
        ensures
            match spec_classify(address, bootstrap_mapped) {
                Some(region) => result matches Ok(a) && a.address == address && a.region == region
                    && a.wf(),
                None => result == Err::<GameboyAddress, EmuError>(
                    EmuError::InvalidBootstrapAccess { address },
                ),
            },
    {
        match GameboyAddressRegion::new(address, bootstrap_mapped) {
            Ok(region) => Ok(GameboyAddress { region, address }),
            Err(e) => Err(e),
        }
    }
}

} // verus!
