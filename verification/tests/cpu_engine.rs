use gameboy_core::cpu::Cpu;
use gameboy_core::cpu::Register;
use gameboy_core::cpu::Register16;
use gameboy_core::cpu::Instruction;
use gameboy_core::errors::EmuError;
use gameboy_core::memory::GameboyAddress;
use gameboy_core::mmu::Mmu;

/// A CPU at reset over a boot image starting with `bytes`, zero-padded to
/// 256 bytes.
fn cpu_with(bytes: &[u8]) -> Cpu {
    let mut image = bytes.to_vec();
    image.resize(256, 0);
    Cpu::new(Mmu::new(image).unwrap())
}

fn origin() -> GameboyAddress {
    GameboyAddress::new(0x0000, true).unwrap()
}

#[test]
fn cpu_starts_at_reset() {
    let cpu = cpu_with(&[]);
    assert_eq!(cpu.pc.address, 0x0000);
    for register in [
        Register::A,
        Register::B,
        Register::C,
        Register::D,
        Register::E,
        Register::F,
        Register::H,
        Register::L,
    ] {
        assert_eq!(cpu.read_register(register), 0);
    }
    assert_eq!(cpu.read_register_16(Register16::SP), 0);
}

#[test]
fn f_masking() {
    let mut cpu = cpu_with(&[]);
    for value in 0..=255u8 {
        cpu.write_register(Register::F, value);
        assert_eq!(cpu.read_register(Register::F), value & 0xF0);
    }
}

#[test]
fn register_file_round_trips() {
    let mut cpu = cpu_with(&[]);
    for register in [
        Register::A,
        Register::B,
        Register::C,
        Register::D,
        Register::E,
        Register::H,
        Register::L,
    ] {
        cpu.write_register(register, 0xA7);
        assert_eq!(cpu.read_register(register), 0xA7);
    }
}

#[test]
fn register_pairs_pack_high_byte_first() {
    let mut cpu = cpu_with(&[]);
    cpu.write_register(Register::B, 0x12);
    cpu.write_register(Register::C, 0x34);
    assert_eq!(cpu.read_register_16(Register16::BC), 0x1234);
    cpu.write_register(Register::D, 0x56);
    cpu.write_register(Register::E, 0x78);
    assert_eq!(cpu.read_register_16(Register16::DE), 0x5678);
    cpu.write_register(Register::A, 0x9A);
    cpu.write_register(Register::F, 0xB0);
    assert_eq!(cpu.read_register_16(Register16::AF), 0x9AB0);
}

#[test]
fn write_16_hl_and_sp() {
    let mut cpu = cpu_with(&[]);
    cpu.write_register_16(Register16::HL, 0xBEEF);
    assert_eq!(cpu.read_register(Register::H), 0xBE);
    assert_eq!(cpu.read_register(Register::L), 0xEF);
    assert_eq!(cpu.read_register_16(Register16::HL), 0xBEEF);
    cpu.write_register_16(Register16::SP, 0xFFFE);
    assert_eq!(cpu.read_register_16(Register16::SP), 0xFFFE);
}

#[test]
fn write_16_af_bc_de_are_no_ops() {
    let mut cpu = cpu_with(&[]);
    for register in [Register16::AF, Register16::BC, Register16::DE] {
        cpu.write_register_16(register, 0x1234);
        assert_eq!(cpu.read_register_16(register), 0);
    }
}

#[test]
fn set_flags_zero_flag_only() {
    let mut cpu = cpu_with(&[]);
    cpu.set_flags(0);
    assert_eq!(cpu.read_register(Register::F), 0x80);
    cpu.set_flags(5);
    assert_eq!(cpu.read_register(Register::F), 0x00);
}

#[test]
fn fetch_advances_pc() {
    let mut cpu = cpu_with(&[0x31, 0xFE, 0xFF]);
    assert_eq!(cpu.fetch(), Ok(0x31));
    assert_eq!(cpu.fetch(), Ok(0xFE));
    assert_eq!(cpu.fetch(), Ok(0xFF));
    assert_eq!(cpu.pc.address, 0x0003);
}

#[test]
fn fetch_outside_implemented_regions_fails() {
    let mut cpu = cpu_with(&[]);
    cpu.pc = GameboyAddress::new(0x8000, true).unwrap();
    let before = cpu.pc;
    assert_eq!(
        cpu.fetch(),
        Err(EmuError::UnimplementedRegion {
            region: gameboy_core::memory::GameboyAddressRegion::Vram(0)
        })
    );
    assert_eq!(cpu.pc, before);
}

#[test]
fn fetch_leaving_boot_window_fails() {
    let mut cpu = cpu_with(&[]);
    cpu.pc = GameboyAddress::new(0x00FF, true).unwrap();
    assert_eq!(
        cpu.fetch(),
        Err(EmuError::InvalidBootstrapAccess { address: 0x0100 })
    );
    assert_eq!(cpu.pc.address, 0x00FF);
}

#[test]
fn ld_sp_decode_execute() {
    let mut cpu = cpu_with(&[0x31, 0xFE, 0xFF]);
    let byte = cpu.fetch().unwrap();
    assert_eq!(byte, 0x31);
    let instruction = cpu.decode(byte, origin()).unwrap();
    assert_eq!(instruction.length, 3);
    assert_eq!(instruction.cycles, 12);
    assert_eq!(instruction.immediate16, Some(0xFFFE));
    assert_eq!(instruction.address.address, 0x0000);
    assert_eq!(instruction.disassembly_text(), "LD SP, 0xfffe ;$0x0000");
    assert_eq!(cpu.pc.address, 0x0003);
    cpu.execute(&instruction);
    assert_eq!(cpu.read_register_16(Register16::SP), 0xFFFE);
}

#[test]
fn xor_a_decode_execute() {
    for initial_a in [0x00u8, 0x01, 0x5A, 0xFF] {
        let mut cpu = cpu_with(&[0xAF]);
        cpu.write_register(Register::A, initial_a);
        let byte = cpu.fetch().unwrap();
        assert_eq!(byte, 0xAF);
        let instruction = cpu.decode(byte, origin()).unwrap();
        assert_eq!(instruction.length, 1);
        assert_eq!(instruction.cycles, 4);
        assert_eq!(instruction.immediate16, None);
        assert_eq!(instruction.disassembly_text(), "XOR A ;$0x0000");
        cpu.execute(&instruction);
        assert_eq!(cpu.read_register(Register::A), 0);
        let flags = cpu.read_register(Register::F);
        assert_eq!(flags & 0x80, 0x80);
        assert_eq!(flags, 0x80);
    }
}

#[test]
fn ld_hl_decode_execute() {
    let mut cpu = cpu_with(&[0x21, 0x34, 0x12]);
    let byte = cpu.fetch().unwrap();
    assert_eq!(byte, 0x21);
    let instruction = cpu.decode(byte, origin()).unwrap();
    assert_eq!(instruction.length, 3);
    assert_eq!(instruction.cycles, 12);
    assert_eq!(instruction.immediate16, Some(0x1234));
    assert_eq!(instruction.disassembly_text(), "LD HL, 0x1234 ;$0x0000");
    cpu.execute(&instruction);
    assert_eq!(cpu.read_register(Register::H), 0x12);
    assert_eq!(cpu.read_register(Register::L), 0x34);
    assert_eq!(cpu.read_register_16(Register16::HL), 0x1234);
}

#[test]
fn unknown_opcodes_report_byte_and_address() {
    let mut cpu = cpu_with(&[]);
    let address = GameboyAddress::new(0x0042, true).unwrap();
    for byte in 0..=255u8 {
        if byte == 0x31 || byte == 0xAF || byte == 0x21 {
            continue;
        }
        let pc_before = cpu.pc;
        assert_eq!(
            cpu.decode(byte, address),
            Err(EmuError::UnimplementedOpcode { byte, address: 0x0042 })
        );
        assert_eq!(cpu.pc, pc_before);
    }
}

#[test]
fn decode_operand_fetch_error_propagates() {
    let mut cpu = cpu_with(&[]);
    cpu.pc = GameboyAddress::new(0x00FF, true).unwrap();
    let result = cpu.decode(0x31, origin());
    assert_eq!(result, Err(EmuError::InvalidBootstrapAccess { address: 0x0100 }));
}

#[test]
fn instruction_default_is_nop() {
    let instruction = Instruction::default();
    assert_eq!(instruction.cycles, 4);
    assert_eq!(instruction.length, 1);
    assert_eq!(instruction.immediate16, None);
    assert_eq!(instruction.address.address, 0x0000);
    assert_eq!(instruction.disassembly_text(), "NOP ;$0x0000");
    let mut cpu = cpu_with(&[]);
    cpu.write_register(Register::A, 0x11);
    cpu.execute(&instruction);
    assert_eq!(cpu.read_register(Register::A), 0x11);
    assert_eq!(cpu.pc.address, 0x0000);
}
