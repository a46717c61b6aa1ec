//! Typed error conditions of the emulator core. Every gap or contract
//! violation surfaces as one of these variants instead of a panic, so that
//! callers can tell "not yet wired" from a genuine hardware fault.

use vstd::prelude::*;

use crate::memory::GameboyAddressRegion;

verus! {

/// An error raised while classifying an address or dispatching a memory
/// access through the bus, or while decoding an opcode.
#[derive(Debug, Copy, Clone, PartialEq, Eq, Structural)]
pub enum EmuError {
    /// An address in `0x0100..0x4000` was accessed while the bootstrap image
    /// is mapped: the boot window only covers the first 256 bytes.
    InvalidBootstrapAccess { address: u16 },
    /// The address classified fine, but no backing store is implemented yet
    /// for its region.
    UnimplementedRegion { region: GameboyAddressRegion },
    /// A write was attempted against a hardware-read-only region.
    ReadOnlyRegion { region: GameboyAddressRegion },
    /// A read from the bootstrap store while it is not mapped.
    NotMapped,
    /// The opcode byte has no decoding in the implemented instruction set.
    UnimplementedOpcode { byte: u8, address: u16 },
}

/// An error raised while constructing the bootstrap store from an image.
#[derive(Debug, Copy, Clone, PartialEq, Eq, Structural)]
pub enum LoadError {
    /// The boot image must be exactly 256 bytes long.
    InvalidSize { expected: usize, actual: usize },
}

} // verus!
