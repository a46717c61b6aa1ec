//! The memory bus: owns one backing store per implemented region (today,
//! only the bootstrap image) and dispatches reads and writes by the
//! classified region of the address.

use vstd::prelude::*;

use crate::errors::EmuError;
use crate::errors::LoadError;
use crate::memory::GameboyAddress;
use crate::memory::GameboyAddressRegion;

verus! {

/// The number of bytes of the bootstrap image.
pub const BOOTSTRAP_SIZE: usize = 256;

/// The little-endian combination of two bytes: `low` at the lower address,
/// `high` at the next one.
pub open spec fn spec_u16_le(low: u8, high: u8) -> u16 {
    (low + high * 0x100) as u16
}

/// The 256-byte read-only boot program, mapped over the low address window
/// while `mapped` holds.
pub struct Bootstrap {
    pub data: Vec<u8>,
    pub mapped: bool,
}

impl View for Bootstrap {
    type V = Seq<u8>;

    open spec fn view(&self) -> Seq<u8> {
        self.data@
    }
}

impl Bootstrap {
    /// The backing store holds exactly the 256 bytes of the image.
    pub open spec fn wf(self) -> bool {
        self@.len() == BOOTSTRAP_SIZE
    }

    /// Build the store from an image, which must be exactly 256 bytes; the
    /// store starts out mapped.
    pub fn new(bytes: Vec<u8>) -> (result: Result<Bootstrap, LoadError>)
        ensures
            bytes@.len() == BOOTSTRAP_SIZE ==> (result matches Ok(b) && b@ == bytes@ && b.mapped
                && b.wf()),
            bytes@.len() != BOOTSTRAP_SIZE ==> result == Err::<Bootstrap, LoadError>(
                LoadError::InvalidSize { expected: BOOTSTRAP_SIZE, actual: bytes@.len() as usize },
            ),
    {
        if bytes.len() == BOOTSTRAP_SIZE {
            Ok(Bootstrap { data: bytes, mapped: true })
        } else {
            Err(LoadError::InvalidSize { expected: BOOTSTRAP_SIZE, actual: bytes.len() })
        }
    }

    /// Read the byte at `offset`, defined only while the store is mapped;
    /// reading while unmapped is a contract violation, not a silent zero.
    pub fn read8(&self, offset: u16) -> (result: Result<u8, EmuError>)
        requires
            self.wf(),
            offset < BOOTSTRAP_SIZE,
        ensures
            self.mapped ==> result == Ok::<u8, EmuError>(self@[offset as int]),
            !self.mapped ==> result == Err::<u8, EmuError>(EmuError::NotMapped),
    {
        if !self.mapped {
            return Err(EmuError::NotMapped);
        }
        Ok(self.data[offset as usize])
    }

    /// Read the little-endian 16-bit value at `offset`: low byte at `offset`,
    /// high byte at `offset + 1`.
    pub fn read16(&self, offset: u16) -> (result: Result<u16, EmuError>)
        requires
            self.wf(),
            offset + 1 < BOOTSTRAP_SIZE,
        ensures
            self.mapped ==> result == Ok::<u16, EmuError>(
                spec_u16_le(self@[offset as int], self@[offset as int + 1]),
            ),
            !self.mapped ==> result == Err::<u16, EmuError>(EmuError::NotMapped),
    {
        let low = match self.read8(offset) {
            Ok(byte) => byte,
            Err(e) => {
                return Err(e);
            },
        };
        let high = match self.read8(offset + 1) {
            Ok(byte) => byte,
            Err(e) => {
                return Err(e);
            },
        };
        Ok(low as u16 + (high as u16) * 0x100)
    }
}

/// The bus. Dispatches every access by the classified region of its address;
/// regions with no backing store yet surface `UnimplementedRegion`.
pub struct Mmu {
    pub bootstrap: Bootstrap,
}

impl Mmu {
    pub open spec fn wf(self) -> bool {
        self.bootstrap.wf()
    }

    /// What a read at `address` returns: the bootstrap byte for the boot
    /// window, a typed gap otherwise.
    pub open spec fn spec_read(self, address: GameboyAddress) -> Result<u8, EmuError> {
        match address.region {
            GameboyAddressRegion::Bootstrap(offset) => if self.bootstrap.mapped {
                Ok(self.bootstrap@[offset as int])
            } else {
                Err(EmuError::NotMapped)
            },
            region => Err(EmuError::UnimplementedRegion { region }),
        }
    }

    /// What a write at `address` returns: the cartridge ROM regions and the
    /// bootstrap are hardware-read-only, and no other region has a store yet,
    /// so every write is rejected with a typed error.
    pub open spec fn spec_write_result(self, address: GameboyAddress) -> Result<(), EmuError> {
        match address.region {
            GameboyAddressRegion::Bootstrap(_) => Err(
                EmuError::ReadOnlyRegion { region: address.region },
            ),
            GameboyAddressRegion::CartridgeBankZero(_) => Err(
                EmuError::ReadOnlyRegion { region: address.region },
            ),
            GameboyAddressRegion::CartridgeBankSwitchable(_) => Err(
                EmuError::ReadOnlyRegion { region: address.region },
            ),
            region => Err(EmuError::UnimplementedRegion { region }),
        }
    }

    /// Build the bus over a boot image; fails exactly where the bootstrap
    /// store does, on an image that is not 256 bytes.
    pub fn new(boot_image: Vec<u8>) -> (result: Result<Mmu, LoadError>)
        ensures
            boot_image@.len() == BOOTSTRAP_SIZE ==> (result matches Ok(m) && m.bootstrap@
                == boot_image@ && m.bootstrap.mapped && m.wf()),
            boot_image@.len() != BOOTSTRAP_SIZE ==> result == Err::<Mmu, LoadError>(
                LoadError::InvalidSize {
                    expected: BOOTSTRAP_SIZE,
                    actual: boot_image@.len() as usize,
                },
            ),
    {
        match Bootstrap::new(boot_image) {
            Ok(bootstrap) => Ok(Mmu { bootstrap }),
            Err(e) => Err(e),
        }
    }

    /// Read one byte at a classified address.
    pub fn read(&self, address: GameboyAddress) -> (result: Result<u8, EmuError>)
        requires
            self.wf(),
            address.wf(),
        ensures
            result == self.spec_read(address),
    {
        match address.region {
            GameboyAddressRegion::Bootstrap(offset) => self.bootstrap.read8(offset),
            _ => Err(EmuError::UnimplementedRegion { region: address.region }),
        }
    }

    /// Write one byte at a classified address. No writable store exists yet,
    /// so the bus itself is left unchanged and the write is rejected: with a
    /// read-only fault for the ROM regions, an unimplemented-region fault for
    /// the rest.
    pub fn write(&mut self, address: GameboyAddress, _value: u8) -> (result: Result<(), EmuError>)
        requires
            old(self).wf(),
            address.wf(),
        ensures
            *final(self) == *old(self),
            result == old(self).spec_write_result(address),
    {
        match address.region {
            GameboyAddressRegion::Bootstrap(_) => Err(
                EmuError::ReadOnlyRegion { region: address.region },
            ),
            GameboyAddressRegion::CartridgeBankZero(_) => Err(
                EmuError::ReadOnlyRegion { region: address.region },
            ),
            GameboyAddressRegion::CartridgeBankSwitchable(_) => Err(
                EmuError::ReadOnlyRegion { region: address.region },
            ),
            _ => Err(EmuError::UnimplementedRegion { region: address.region }),
        }
    }
}

} // verus!
