//! The CPU: the 8-bit register file with its 16-bit pairings, the program
//! counter and stack pointer, and the fetch/decode/execute engine over the
//! implemented opcodes.

use vstd::prelude::*;

use crate::errors::EmuError;
use crate::memory::spec_classify;
use crate::memory::GameboyAddress;
use crate::memory::GameboyAddressRegion;
use crate::mmu::spec_u16_le;
use crate::mmu::Mmu;

verus! {

/// The eight 8-bit registers.
#[derive(Debug, Copy, Clone, PartialEq, Eq, Structural)]
pub enum Register {
    A,
    B,
    C,
    D,
    E,
    F,
    H,
    L,
}

/// The 16-bit registers: four pairings of two 8-bit registers (high byte
/// first) and the dedicated stack pointer.
#[derive(Debug, Copy, Clone, PartialEq, Eq, Structural)]
pub enum Register16 {
    AF,
    BC,
    DE,
    HL,
    SP,
}

/// The execution behavior of a decoded instruction, one variant per
/// implemented opcode; execution dispatches over the variant.
#[derive(Debug, Copy, Clone, PartialEq, Eq, Structural)]
pub enum Operation {
    Nop,
    XorA,
    LdSp,
    LdHl,
}

/// The lower-case hexadecimal digit character for `value` in `0..16`.
pub open spec fn spec_hex_digit(value: int) -> char {
    if value == 0 {
        '0'
    } else if value == 1 {
        '1'
    } else if value == 2 {
        '2'
    } else if value == 3 {
        '3'
    } else if value == 4 {
        '4'
    } else if value == 5 {
        '5'
    } else if value == 6 {
        '6'
    } else if value == 7 {
        '7'
    } else if value == 8 {
        '8'
    } else if value == 9 {
        '9'
    } else if value == 10 {
        'a'
    } else if value == 11 {
        'b'
    } else if value == 12 {
        'c'
    } else if value == 13 {
        'd'
    } else if value == 14 {
        'e'
    } else {
        'f'
    }
}

/// A 16-bit value rendered as `0x` followed by four lower-case hex digits.
pub open spec fn spec_hex4(value: u16) -> Seq<char> {
    seq![
        '0',
        'x',
        spec_hex_digit(value as int / 0x1000 % 16),
        spec_hex_digit(value as int / 0x100 % 16),
        spec_hex_digit(value as int / 16 % 16),
        spec_hex_digit(value as int % 16),
    ]
}

/// The disassembly text of a decoded instruction: the mnemonic, its operands,
/// and the originating address after the `;$` comment marker, for example
/// `LD SP, 0xfffe ;$0x0000`. The immediate is ignored by the opcodes that
/// take none.
pub open spec fn spec_disassembly(operation: Operation, address: u16, immediate: u16) -> Seq<
    char,
> {
    match operation {
        Operation::Nop => seq!['N', 'O', 'P', ' ', ';', '$'] + spec_hex4(address),
        Operation::XorA => seq!['X', 'O', 'R', ' ', 'A', ' ', ';', '$'] + spec_hex4(address),
        Operation::LdSp => seq!['L', 'D', ' ', 'S', 'P', ',', ' '] + spec_hex4(immediate) + seq![
            ' ',
            ';',
            '$',
        ] + spec_hex4(address),
        Operation::LdHl => seq!['L', 'D', ' ', 'H', 'L', ',', ' '] + spec_hex4(immediate) + seq![
            ' ',
            ';',
            '$',
        ] + spec_hex4(address),
    }
}

/// The lower-case hexadecimal digit character for `value`.
fn hex_digit_char(value: u8) -> (digit: char)
    requires
        value < 16,
    ensures
        digit == spec_hex_digit(value as int),
{
    match value {
        0 => '0',
        1 => '1',
        2 => '2',
        3 => '3',
        4 => '4',
        5 => '5',
        6 => '6',
        7 => '7',
        8 => '8',
        9 => '9',
        10 => 'a',
        11 => 'b',
        12 => 'c',
        13 => 'd',
        14 => 'e',
        _ => 'f',
    }
}

/// Append `0x` and the four hex digits of `value`.
fn push_hex4(chars: &mut Vec<char>, value: u16)
    ensures
        final(chars)@ == old(chars)@ + spec_hex4(value),
{
    chars.push('0');
    chars.push('x');
    chars.push(hex_digit_char((value / 0x1000 % 16) as u8));
    chars.push(hex_digit_char((value / 0x100 % 16) as u8));
    chars.push(hex_digit_char((value / 16 % 16) as u8));
    chars.push(hex_digit_char((value % 16) as u8));
    proof {
        assert(chars@ =~= old(chars)@ + spec_hex4(value));
    }
}

/// Build the disassembly text of an instruction as its exact sequence of
/// characters.
fn disassembly_for(operation: Operation, address: u16, immediate: u16) -> (chars: Vec<char>)
    ensures
        chars@ == spec_disassembly(operation, address, immediate),
{
    let mut chars: Vec<char> = Vec::new();
    match operation {
        Operation::Nop => {
            chars.push('N');
            chars.push('O');
            chars.push('P');
            chars.push(' ');
            chars.push(';');
            chars.push('$');
            push_hex4(&mut chars, address);
            proof {
                assert(chars@ =~= spec_disassembly(operation, address, immediate));
            }
        },
        Operation::XorA => {
            chars.push('X');
            chars.push('O');
            chars.push('R');
            chars.push(' ');
            chars.push('A');
            chars.push(' ');
            chars.push(';');
            chars.push('$');
            push_hex4(&mut chars, address);
            proof {
                assert(chars@ =~= spec_disassembly(operation, address, immediate));
            }
        },
        Operation::LdSp => {
            chars.push('L');
            chars.push('D');
            chars.push(' ');
            chars.push('S');
            chars.push('P');
            chars.push(',');
            chars.push(' ');
            push_hex4(&mut chars, immediate);
            chars.push(' ');
            chars.push(';');
            chars.push('$');
            push_hex4(&mut chars, address);
            proof {
                assert(chars@ =~= spec_disassembly(operation, address, immediate));
            }
        },
        Operation::LdHl => {
            chars.push('L');
            chars.push('D');
            chars.push(' ');
            chars.push('H');
            chars.push('L');
            chars.push(',');
            chars.push(' ');
            push_hex4(&mut chars, immediate);
            chars.push(' ');
            chars.push(';');
            chars.push('$');
            push_hex4(&mut chars, address);
            proof {
                assert(chars@ =~= spec_disassembly(operation, address, immediate));
            }
        },
    }
    chars
}

/// Relies on `String`'s `FromIterator<char>` implementation: collecting
/// characters yields the string of exactly those characters, in order.
#[verifier::external_body]
fn chars_to_string(chars: &Vec<char>) -> (text: String)
    ensures
        text@ == chars@,
{
    chars.iter().collect()
}

/// An immutable decoded instruction: originating address, disassembly text,
/// cycle cost, byte length, the resolved 16-bit immediate where the opcode
/// takes one, and the execution behavior it is bound to.
#[derive(Debug, PartialEq, Eq)]
pub struct Instruction {
    pub address: GameboyAddress,
    pub disassembly: Vec<char>,
    pub cycles: u8,
    pub length: usize,
    pub immediate16: Option<u16>,
    pub operation: Operation,
}

/// `instruction` carries exactly the given decode outcome, disassembly text
/// included.
pub open spec fn decoded_as(
    instruction: Instruction,
    operation: Operation,
    address: GameboyAddress,
    cycles: u8,
    length: usize,
    immediate: Option<u16>,
) -> bool {
    &&& instruction.operation == operation
    &&& instruction.address == address
    &&& instruction.cycles == cycles
    &&& instruction.length == length
    &&& instruction.immediate16 == immediate
    &&& instruction.disassembly@ == spec_disassembly(
        operation,
        address.address,
        immediate.unwrap_or(0),
    )
}

impl Instruction {
    /// The opcodes that load a 16-bit immediate carry one.
    pub open spec fn wf(self) -> bool {
        (self.operation == Operation::LdSp || self.operation == Operation::LdHl)
            ==> self.immediate16 is Some
    }

    /// The disassembly text as a string.
    pub fn disassembly_text(&self) -> (text: String)
        ensures
            text@ == self.disassembly@,
    {
        chars_to_string(&self.disassembly)
    }
}

impl Default for Instruction {
    /// The default instruction: a NOP decoded at address zero.
    fn default() -> (result: Self)
        ensures
            decoded_as(
                result,
                Operation::Nop,
                (GameboyAddress { region: GameboyAddressRegion::Bootstrap(0), address: 0 }),
                4,
                1,
                None::<u16>,
            ),
            result.wf(),
    {
        let address = GameboyAddress { region: GameboyAddressRegion::Bootstrap(0), address: 0 };
        Instruction {
            address,
            disassembly: disassembly_for(Operation::Nop, 0, 0),
            cycles: 4,
            length: 1,
            immediate16: None,
            operation: Operation::Nop,
        }
    }
}

/// The CPU state: program counter, stack pointer, the eight 8-bit registers,
/// and the bus it fetches through.
pub struct Cpu {
    pub pc: GameboyAddress,
    pub sp: u16,
    pub a: u8,
    pub b: u8,
    pub c: u8,
    pub d: u8,
    pub e: u8,
    pub f: u8,
    pub h: u8,
    pub l: u8,
    pub mmu: Mmu,
}

/// The flag byte recomputed from an operation result: the zero flag (bit 7)
/// set exactly when the result is zero; the half-carry, subtract and carry
/// flags are not computed yet and stay cleared.
pub open spec fn spec_flags_for(result: u8) -> u8 {
    if result == 0 {
        0x80
    } else {
        0
    }
}

/// The program counter after one fetch: one past the old value, wrapping
/// from `0xFFFF` to `0x0000` like the hardware's 16-bit counter.
pub open spec fn spec_advance_pc(address: u16) -> u16 {
    if address == 0xFFFF {
        0
    } else {
        (address + 1) as u16
    }
}

impl Cpu {
    /// The program counter carries its true region, the bus is well formed,
    /// and the low 4 bits of the flag register are zero.
    pub open spec fn wf(self) -> bool {
        self.pc.wf() && self.mmu.wf() && self.f & 0x0F == 0
    }

    /// The value of an 8-bit register.
    pub open spec fn spec_register(self, register: Register) -> u8 {
        match register {
            Register::A => self.a,
            Register::B => self.b,
            Register::C => self.c,
            Register::D => self.d,
            Register::E => self.e,
            Register::F => self.f,
            Register::H => self.h,
            Register::L => self.l,
        }
    }

    /// The CPU after writing an 8-bit register; a write to F masks the low 4
    /// bits to zero.
    pub open spec fn spec_with_register(self, register: Register, value: u8) -> Cpu {
        match register {
            Register::A => Cpu { a: value, ..self },
            Register::B => Cpu { b: value, ..self },
            Register::C => Cpu { c: value, ..self },
            Register::D => Cpu { d: value, ..self },
            Register::E => Cpu { e: value, ..self },
            Register::F => Cpu { f: value & 0xF0, ..self },
            Register::H => Cpu { h: value, ..self },
            Register::L => Cpu { l: value, ..self },
        }
    }

    /// The value of a 16-bit register: a pair packs its high register times
    /// 256 plus its low register.
    pub open spec fn spec_register16(self, register: Register16) -> u16 {
        match register {
            Register16::AF => (self.a * 0x100 + self.f) as u16,
            Register16::BC => (self.b * 0x100 + self.c) as u16,
            Register16::DE => (self.d * 0x100 + self.e) as u16,
            Register16::HL => (self.h * 0x100 + self.l) as u16,
            Register16::SP => self.sp,
        }
    }

    /// The CPU after writing a 16-bit register. `HL` splits into its two
    /// 8-bit halves and `SP` is fully replaced; writes to the `AF`, `BC` and
    /// `DE` pairs are no-ops in the source hardware model, an open gap kept
    /// as it stands.
    pub open spec fn spec_with_register16(self, register: Register16, value: u16) -> Cpu {
        match register {
            Register16::AF => self,
            Register16::BC => self,
            Register16::DE => self,
            Register16::HL => Cpu { h: (value / 0x100) as u8, l: (value % 0x100) as u8, ..self },
            Register16::SP => Cpu { sp: value, ..self },
        }
    }

    /// The outcome of one fetch: the byte the bus yields at the program
    /// counter and the CPU with the counter advanced, or the first error met
    /// (a bus gap at the counter, or an invalid classification of the
    /// advanced counter), leaving the CPU as it was.
    pub open spec fn spec_fetch(self) -> Result<(u8, Cpu), EmuError> {
        match self.mmu.spec_read(self.pc) {
            Ok(byte) => {
                let next = spec_advance_pc(self.pc.address);
                match spec_classify(next, true) {
                    Some(region) => Ok(
                        (byte, Cpu { pc: GameboyAddress { region, address: next }, ..self }),
                    ),
                    None => Err(EmuError::InvalidBootstrapAccess { address: next }),
                }
            },
            Err(e) => Err(e),
        }
    }

    /// The CPU after applying the execution behavior of an instruction:
    /// NOP leaves it unchanged, XOR A zeroes A and recomputes the flags from
    /// the result, and the 16-bit loads write the immediate to their
    /// register.
    pub open spec fn spec_execute(self, instruction: Instruction) -> Cpu {
        match instruction.operation {
            Operation::Nop => self,
            Operation::XorA => self.spec_with_register(Register::A, 0).spec_with_register(
                Register::F,
                spec_flags_for(0),
            ),
            Operation::LdSp => self.spec_with_register16(
                Register16::SP,
                instruction.immediate16.unwrap(),
            ),
            Operation::LdHl => self.spec_with_register16(
                Register16::HL,
                instruction.immediate16.unwrap(),
            ),
        }
    }

    /// The outcome of two consecutive fetches: both bytes and the CPU after
    /// the second, or the first error met and the CPU as the failing fetch
    /// left it.
    pub open spec fn spec_fetch2(self) -> (Result<(u8, u8), EmuError>, Cpu) {
        match self.spec_fetch() {
            Err(e) => (Err(e), self),
            Ok((low, cpu1)) => match cpu1.spec_fetch() {
                Err(e) => (Err(e), cpu1),
                Ok((high, cpu2)) => (Ok((low, high)), cpu2),
            },
        }
    }

    /// A CPU at reset: all registers and both 16-bit counters zero, fetching
    /// through the given bus with the bootstrap image mapped.
    pub fn new(mmu: Mmu) -> (cpu: Cpu)
        requires
            mmu.wf(),
        ensures
            cpu.wf(),
            cpu.pc.address == 0,
            cpu.pc.region == GameboyAddressRegion::Bootstrap(0),
            cpu.sp == 0,
            cpu.a == 0,
            cpu.b == 0,
            cpu.c == 0,
            cpu.d == 0,
            cpu.e == 0,
            cpu.f == 0,
            cpu.h == 0,
            cpu.l == 0,
            cpu.mmu == mmu,
    {
        let pc = GameboyAddress { region: GameboyAddressRegion::Bootstrap(0), address: 0 };
        proof {
            assert(0u8 & 0x0Fu8 == 0u8) by (bit_vector);
        }
        Cpu { pc, sp: 0, a: 0, b: 0, c: 0, d: 0, e: 0, f: 0, h: 0, l: 0, mmu }
    }

    /// Read one byte at the program counter through the bus, then advance
    /// the counter by one (wrapping at the top of the address space). On any
    /// error the CPU is left unchanged.
    pub fn fetch(&mut self) -> (result: Result<u8, EmuError>)
        requires
            old(self).wf(),
        ensures
            final(self).wf(),
            match old(self).spec_fetch() {
                Ok((byte, next)) => result == Ok::<u8, EmuError>(byte) && *final(self) == next,
                Err(e) => result == Err::<u8, EmuError>(e) && *final(self) == *old(self),
            },
    {
        let byte = match self.mmu.read(self.pc) {
            Ok(byte) => byte,
            Err(e) => {
                return Err(e);
            },
        };
        let next_address: u16 = if self.pc.address == 0xFFFF {
            0
        } else {
            self.pc.address + 1
        };
        match GameboyAddress::new(next_address, true) {
            Ok(address) => {
                self.pc = address;
                Ok(byte)
            },
            Err(e) => Err(e),
        }
    }

    /// Decode one instruction from its opcode byte, fetching the operand
    /// bytes of the 16-bit-immediate loads (low byte first) through the bus.
    /// An opcode outside the implemented set is a typed error carrying the
    /// exact byte and address; a fetch error while resolving operands
    /// propagates, leaving the counter where the failing fetch left it.
    pub fn decode(&mut self, instruction_byte: u8, address: GameboyAddress) -> (result: Result<
        Instruction,
        EmuError,
    >)
        requires
            old(self).wf(),
        ensures
            final(self).wf(),
            instruction_byte == 0xAF ==> *final(self) == *old(self) && (result matches Ok(i)
                && decoded_as(i, Operation::XorA, address, 4, 1, None::<u16>) && i.wf()),
            instruction_byte == 0x31 ==> ({
                let (fetched, cpu2) = old(self).spec_fetch2();
                &&& *final(self) == cpu2
                &&& match fetched {
                    Ok((low, high)) => result matches Ok(i) && decoded_as(
                        i,
                        Operation::LdSp,
                        address,
                        12,
                        3,
                        Some(spec_u16_le(low, high)),
                    ) && i.wf(),
                    Err(e) => result == Err::<Instruction, EmuError>(e),
                }
            }),
            instruction_byte == 0x21 ==> ({
                let (fetched, cpu2) = old(self).spec_fetch2();
                &&& *final(self) == cpu2
                &&& match fetched {
                    Ok((low, high)) => result matches Ok(i) && decoded_as(
                        i,
                        Operation::LdHl,
                        address,
                        12,
                        3,
                        Some(spec_u16_le(low, high)),
                    ) && i.wf(),
                    Err(e) => result == Err::<Instruction, EmuError>(e),
                }
            }),
            instruction_byte != 0x31 && instruction_byte != 0xAF && instruction_byte != 0x21 ==> (
            *final(self) == *old(self) && result == Err::<Instruction, EmuError>(
                EmuError::UnimplementedOpcode { byte: instruction_byte, address: address.address },
            )),
    {
        match instruction_byte {
            0x31 => {
                let immediate_lower = match self.fetch() {
                    Ok(byte) => byte,
                    Err(e) => {
                        return Err(e);
                    },
                };
                let immediate_upper = match self.fetch() {
                    Ok(byte) => byte,
                    Err(e) => {
                        return Err(e);
                    },
                };
                let immediate16 = immediate_lower as u16 + (immediate_upper as u16) * 0x100;
                Ok(
                    Instruction {
                        address,
                        disassembly: disassembly_for(Operation::LdSp, address.address, immediate16),
                        cycles: 12,
                        length: 3,
                        immediate16: Some(immediate16),
                        operation: Operation::LdSp,
                    },
                )
            },
            0xAF => Ok(
                Instruction {
                    address,
                    disassembly: disassembly_for(Operation::XorA, address.address, 0),
                    cycles: 4,
                    length: 1,
                    immediate16: None,
                    operation: Operation::XorA,
                },
            ),
            0x21 => {
                let immediate_lower = match self.fetch() {
                    Ok(byte) => byte,
                    Err(e) => {
                        return Err(e);
                    },
                };
                let immediate_upper = match self.fetch() {
                    Ok(byte) => byte,
                    Err(e) => {
                        return Err(e);
                    },
                };
                let immediate16 = immediate_lower as u16 + (immediate_upper as u16) * 0x100;
                Ok(
                    Instruction {
                        address,
                        disassembly: disassembly_for(Operation::LdHl, address.address, immediate16),
                        cycles: 12,
                        length: 3,
                        immediate16: Some(immediate16),
                        operation: Operation::LdHl,
                    },
                )
            },
            _ => Err(
                EmuError::UnimplementedOpcode { byte: instruction_byte, address: address.address },
            ),
        }
    }

    /// Apply the execution behavior an instruction is bound to.
    pub fn execute(&mut self, instruction: &Instruction)
        requires
            instruction.wf(),
        ensures
            old(self).wf() ==> final(self).wf(),
            *final(self) == old(self).spec_execute(*instruction),
    {
        match instruction.operation {
            Operation::Nop => self.nop(instruction),
            Operation::XorA => self.xor_a(instruction),
            Operation::LdSp => self.ld_sp(instruction),
            Operation::LdHl => self.ld_hl(instruction),
        }
    }

    /// Do nothing.
    pub fn nop(&mut self, _instruction: &Instruction)
        ensures
            *final(self) == *old(self),
    {
    }

    /// Exclusive-or A with itself — always zero, whatever A held — and
    /// recompute the flags from the result: the zero flag is set and every
    /// other flag bit is cleared.
    pub fn xor_a(&mut self, _instruction: &Instruction)
        ensures
            *final(self) == old(self).spec_with_register(Register::A, 0).spec_with_register(
                Register::F,
                spec_flags_for(0),
            ),
            final(self).a == 0,
            final(self).f == 0x80,
            old(self).wf() ==> final(self).wf(),
    {
        let value = self.read_register(Register::A);
        let zero = value ^ value;
        proof {
            assert(value ^ value == 0u8) by (bit_vector);
            assert(0x80u8 & 0xF0u8 == 0x80u8) by (bit_vector);
        }
        self.write_register(Register::A, zero);
        self.set_flags(zero);
    }

    /// Load the stack pointer with the instruction's 16-bit immediate.
    pub fn ld_sp(&mut self, instruction: &Instruction)
        requires
            instruction.immediate16 is Some,
        ensures
            *final(self) == old(self).spec_with_register16(
                Register16::SP,
                instruction.immediate16.unwrap(),
            ),
            old(self).wf() ==> final(self).wf(),
    {
        match instruction.immediate16 {
            Some(immediate16) => self.write_register_16(Register16::SP, immediate16),
            None => proof {
                assert(false);
            },
        }
    }

    /// Load the HL pair with the instruction's 16-bit immediate: H gets the
    /// high byte, L the low byte.
    pub fn ld_hl(&mut self, instruction: &Instruction)
        requires
            instruction.immediate16 is Some,
        ensures
            *final(self) == old(self).spec_with_register16(
                Register16::HL,
                instruction.immediate16.unwrap(),
            ),
            old(self).wf() ==> final(self).wf(),
    {
        match instruction.immediate16 {
            Some(immediate16) => self.write_register_16(Register16::HL, immediate16),
            None => proof {
                assert(false);
            },
        }
    }

    /// Read an 8-bit register.
    pub fn read_register(&self, register: Register) -> (value: u8)
        ensures
            value == self.spec_register(register),
    {
        match register {
            Register::A => self.a,
            Register::B => self.b,
            Register::C => self.c,
            Register::D => self.d,
            Register::E => self.e,
            Register::F => self.f,
            Register::H => self.h,
            Register::L => self.l,
        }
    }

    /// Write an 8-bit register. The low 4 bits of F must always be zero, so
    /// a write to F stores `value & 0xF0`.
    pub fn write_register(&mut self, register: Register, value: u8)
        ensures
            *final(self) == old(self).spec_with_register(register, value),
            old(self).wf() ==> final(self).wf(),
    {
        proof {
            assert((value & 0xF0) & 0x0F == 0u8) by (bit_vector);
        }
        match register {
            Register::A => self.a = value,
            Register::B => self.b = value,
            Register::C => self.c = value,
            Register::D => self.d = value,
            Register::E => self.e = value,
            // Lower 4 bits of F must always be zero.
            Register::F => self.f = value & 0xF0,
            Register::H => self.h = value,
            Register::L => self.l = value,
        }
    }

    /// Write a 16-bit register: `HL` splits high byte first, `SP` is fully
    /// replaced, and the `AF`/`BC`/`DE` pair writes are kept as the no-ops
    /// of the source hardware model.
    pub fn write_register_16(&mut self, register: Register16, value: u16)
        ensures
            *final(self) == old(self).spec_with_register16(register, value),
            old(self).wf() ==> final(self).wf(),
    {
        match register {
            Register16::AF => (),
            Register16::BC => (),
            Register16::DE => (),
            Register16::HL => {
                self.write_register(Register::H, (value / 0x100) as u8);
                self.write_register(Register::L, (value % 0x100) as u8)
            },
            Register16::SP => self.sp = value,
        }
    }

    /// Read a 16-bit register.
    pub fn read_register_16(&self, register: Register16) -> (value: u16)
        ensures
            value == self.spec_register16(register),
    {
        match register {
            Register16::AF => (self.a as u16) * 0x100 + (self.f as u16),
            Register16::BC => (self.b as u16) * 0x100 + (self.c as u16),
            Register16::DE => (self.d as u16) * 0x100 + (self.e as u16),
            Register16::HL => (self.h as u16) * 0x100 + (self.l as u16),
            Register16::SP => self.sp,
        }
    }

    /// Recompute the flag register from an operation result: zero flag set
    /// exactly when the result is zero, every other bit cleared (half-carry,
    /// subtract and carry are not computed yet).
    pub fn set_flags(&mut self, result: u8)
        ensures
            *final(self) == old(self).spec_with_register(Register::F, spec_flags_for(result)),
            old(self).wf() ==> final(self).wf(),
    {
        let mut flags: u8 = 0;
        // Z
        if result == 0 {
            flags |= 0x80;
        }
        proof {
            assert(0u8 | 0x80u8 == 0x80u8) by (bit_vector);
            assert(0x80u8 & 0xF0u8 == 0x80u8) by (bit_vector);
            assert(0u8 & 0xF0u8 == 0u8) by (bit_vector);
        }
        self.write_register(Register::F, flags);
    }
}

/// Writing any value to F and reading F back yields the value with its low
/// 4 bits masked to zero.
pub proof fn lemma_flag_write_masks(cpu: Cpu, value: u8)
    ensures
        cpu.spec_with_register(Register::F, value).spec_register(Register::F) == value & 0xF0,
{
}

/// Executing the XOR A behavior zeroes A and leaves exactly the zero flag
/// bit set in F, whatever the registers held before.
pub proof fn lemma_xor_a_zeroes(cpu: Cpu, instruction: Instruction)
    requires
        instruction.operation == Operation::XorA,
    ensures
        cpu.spec_execute(instruction).a == 0,
        cpu.spec_execute(instruction).f == 0x80,
{
    assert(0x80u8 & 0xF0u8 == 0x80u8) by (bit_vector);
}

} // verus!
