use gameboy_core::errors::EmuError;
use gameboy_core::errors::LoadError;
use gameboy_core::memory::GameboyAddress;
use gameboy_core::memory::GameboyAddressRegion;
use gameboy_core::mmu::Bootstrap;
use gameboy_core::mmu::Mmu;

/// A 256-byte boot image starting with `bytes` and padded with zeros.
fn boot_image(bytes: &[u8]) -> Vec<u8> {
    let mut image = bytes.to_vec();
    image.resize(256, 0);
    image
}

#[test]
fn bootstrap_rejects_wrong_size() {
    assert!(matches!(
        Bootstrap::new(vec![0; 255]),
        Err(LoadError::InvalidSize { expected: 256, actual: 255 })
    ));
    assert!(matches!(
        Bootstrap::new(vec![0; 257]),
        Err(LoadError::InvalidSize { expected: 256, actual: 257 })
    ));
    assert!(matches!(
        Bootstrap::new(Vec::new()),
        Err(LoadError::InvalidSize { expected: 256, actual: 0 })
    ));
}

#[test]
fn bootstrap_read8() {
    let bootstrap = Bootstrap::new(boot_image(&[0x31, 0xFE, 0xFF])).unwrap();
    assert_eq!(bootstrap.read8(0), Ok(0x31));
    assert_eq!(bootstrap.read8(1), Ok(0xFE));
    assert_eq!(bootstrap.read8(2), Ok(0xFF));
    assert_eq!(bootstrap.read8(255), Ok(0));
}

#[test]
fn bootstrap_read16_little_endian() {
    let bootstrap = Bootstrap::new(boot_image(&[0x31, 0xFE, 0xFF])).unwrap();
    assert_eq!(bootstrap.read16(1), Ok(0xFFFE));
    assert_eq!(bootstrap.read16(0), Ok(0xFE31));
}

#[test]
fn bootstrap_read_unmapped() {
    let bootstrap = Bootstrap { data: vec![0; 256], mapped: false };
    assert_eq!(bootstrap.read8(0), Err(EmuError::NotMapped));
    assert_eq!(bootstrap.read16(0), Err(EmuError::NotMapped));
}

#[test]
fn mmu_rejects_wrong_size() {
    assert!(matches!(
        Mmu::new(vec![0; 100]),
        Err(LoadError::InvalidSize { expected: 256, actual: 100 })
    ));
}

#[test]
fn mmu_reads_bootstrap() {
    let mmu = Mmu::new(boot_image(&[0xAF, 0x21, 0x34, 0x12])).unwrap();
    let address = GameboyAddress::new(0x0001, true).unwrap();
    assert_eq!(mmu.read(address), Ok(0x21));
}

#[test]
fn mmu_read_unimplemented_region() {
    let mmu = Mmu::new(boot_image(&[])).unwrap();
    let vram = GameboyAddress::new(0x8000, true).unwrap();
    assert_eq!(
        mmu.read(vram),
        Err(EmuError::UnimplementedRegion { region: GameboyAddressRegion::Vram(0) })
    );
    let io = GameboyAddress::new(0xFF10, true).unwrap();
    assert_eq!(
        mmu.read(io),
        Err(EmuError::UnimplementedRegion { region: GameboyAddressRegion::IORegisters(0x10) })
    );
}

#[test]
fn mmu_write_read_only_regions() {
    let mut mmu = Mmu::new(boot_image(&[])).unwrap();
    let boot = GameboyAddress::new(0x0000, true).unwrap();
    assert_eq!(
        mmu.write(boot, 0xAA),
        Err(EmuError::ReadOnlyRegion { region: GameboyAddressRegion::Bootstrap(0) })
    );
    let bank_zero = GameboyAddress::new(0x0123, false).unwrap();
    assert_eq!(
        mmu.write(bank_zero, 0xAA),
        Err(EmuError::ReadOnlyRegion { region: GameboyAddressRegion::CartridgeBankZero(0x0123) })
    );
    let switchable = GameboyAddress::new(0x4000, true).unwrap();
    assert_eq!(
        mmu.write(switchable, 0xAA),
        Err(EmuError::ReadOnlyRegion {
            region: GameboyAddressRegion::CartridgeBankSwitchable(0)
        })
    );
}

#[test]
fn mmu_write_unimplemented_region() {
    let mut mmu = Mmu::new(boot_image(&[])).unwrap();
    let work_ram = GameboyAddress::new(0xC000, true).unwrap();
    assert_eq!(
        mmu.write(work_ram, 0x55),
        Err(EmuError::UnimplementedRegion { region: GameboyAddressRegion::WorkRam(0) })
    );
}
