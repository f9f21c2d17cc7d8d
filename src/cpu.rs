use vstd::prelude::*;

use crate::memory::Memory;

verus! {

/// Address of the first instruction executed after construction.
pub const ENTRY_POINT: u16 = 0x0104;

/// What one executed opcode was, with the branch decision where it has one.
#[allow(non_camel_case_types)]
#[derive(Clone, Copy, Debug, PartialEq, Eq)]
pub enum Instruction {
    ADC_A_n8,
    LD_H_HL,
    Call_Z_a16(bool),
    DEC_BC,
    INC_BC,
    LD_HL_E,
    NOP,
    LD_SP_n16,
    XOR_A_A,
    LD_HL_n16,
    LD_HL_A,
    LD_HL_DEC_A,
    PREFIX,
    JR_NZ_e8(bool),
    LD_C_n8,
    LD_A_n8,
    LDH_C_A,
    INC_C,
    LDH_a8_A,
    LD_B_A,
    PUSH_HL,
    LD_DE_n16,
}

/// Display name, opcode byte and cycle cost of an instruction.
pub struct InstructionData {
    pub mnemonic: &'static str,
    pub opcode: u8,
    pub cycles: u8,
}

impl Instruction {
    pub open spec fn spec_opcode(self) -> u8 {
        match self {
            Instruction::ADC_A_n8 => 0xCE,
            Instruction::LD_H_HL => 0x66,
            Instruction::Call_Z_a16(_) => 0xCC,
            Instruction::DEC_BC => 0x0B,
            Instruction::INC_BC => 0x03,
            Instruction::LD_HL_E => 0x73,
            Instruction::NOP => 0x00,
            Instruction::LD_SP_n16 => 0x31,
            Instruction::XOR_A_A => 0xAF,
            Instruction::LD_HL_n16 => 0x21,
            Instruction::LD_HL_A => 0x77,
            Instruction::LD_HL_DEC_A => 0x32,
            Instruction::PREFIX => 0xCB,
            Instruction::JR_NZ_e8(_) => 0x20,
            Instruction::LD_C_n8 => 0x0E,
            Instruction::LD_A_n8 => 0x3E,
            Instruction::LDH_C_A => 0xE2,
            Instruction::INC_C => 0x0C,
            Instruction::LDH_a8_A => 0xE0,
            Instruction::LD_B_A => 0x47,
            Instruction::PUSH_HL => 0xE5,
            Instruction::LD_DE_n16 => 0x11,
        }
    }

    /// Cycle cost; the two conditional forms cost more when taken.
    pub open spec fn spec_cycles(self) -> u8 {
        match self {
            Instruction::Call_Z_a16(taken) => if taken { 24 } else { 12 },
            Instruction::JR_NZ_e8(taken) => if taken { 12 } else { 8 },
            Instruction::NOP | Instruction::XOR_A_A | Instruction::PREFIX | Instruction::INC_C => 4,
            Instruction::LD_SP_n16 | Instruction::LD_HL_n16 | Instruction::LDH_a8_A
            | Instruction::LD_DE_n16 => 12,
            Instruction::PUSH_HL => 16,
            _ => 8,
        }
    }

    pub open spec fn spec_mnemonic(self) -> Seq<char> {
        match self {
            Instruction::ADC_A_n8 => "ADC A, n8"@,
            Instruction::LD_H_HL => "LD H, [HL]"@,
            Instruction::Call_Z_a16(_) => "Call Z, a16"@,
            Instruction::DEC_BC => "DEC BC"@,
            Instruction::INC_BC => "INC BC"@,
            Instruction::LD_HL_E => "LD [HL], E"@,
            Instruction::NOP => "NO OP"@,
            Instruction::LD_SP_n16 => "LD SP, n16"@,
            Instruction::XOR_A_A => "XOR A, A"@,
            Instruction::LD_HL_n16 => "LD HL, n16"@,
            Instruction::LD_HL_A => "LD [HL], A"@,
            Instruction::LD_HL_DEC_A => "LD [HL-], A"@,
            Instruction::PREFIX => "PREFIX"@,
            Instruction::JR_NZ_e8(_) => "JR NZ, e8"@,
            Instruction::LD_C_n8 => "LD C, n8"@,
            Instruction::LD_A_n8 => "LD A, n8"@,
            Instruction::LDH_C_A => "LDH [C], A"@,
            Instruction::INC_C => "INC C"@,
            Instruction::LDH_a8_A => "LDH [a8], A"@,
            Instruction::LD_B_A => "LD B, A"@,
            Instruction::PUSH_HL => "PUSH HL"@,
            Instruction::LD_DE_n16 => "LD DE, n16"@,
        }
    }

    pub fn data(&self) -> (r: InstructionData)
        ensures
            r.opcode == self.spec_opcode(),
            r.cycles == self.spec_cycles(),
            r.mnemonic@ == self.spec_mnemonic(),
    {
        match self {
            Instruction::ADC_A_n8 => InstructionData { mnemonic: "ADC A, n8", opcode: 0xCE, cycles: 8 },
            Instruction::LD_H_HL => InstructionData { mnemonic: "LD H, [HL]", opcode: 0x66, cycles: 8 },
            Instruction::Call_Z_a16(z) => InstructionData {
                mnemonic: "Call Z, a16",
                opcode: 0xCC,
                cycles: if *z { 24 } else { 12 },
            },
            Instruction::DEC_BC => InstructionData { mnemonic: "DEC BC", opcode: 0x0B, cycles: 8 },
            Instruction::INC_BC => InstructionData { mnemonic: "INC BC", opcode: 0x03, cycles: 8 },
            Instruction::LD_HL_E => InstructionData { mnemonic: "LD [HL], E", opcode: 0x73, cycles: 8 },
            Instruction::NOP => InstructionData { mnemonic: "NO OP", opcode: 0x00, cycles: 4 },
            Instruction::LD_SP_n16 => InstructionData { mnemonic: "LD SP, n16", opcode: 0x31, cycles: 12 },
            Instruction::XOR_A_A => InstructionData { mnemonic: "XOR A, A", opcode: 0xAF, cycles: 4 },
            Instruction::LD_HL_n16 => InstructionData { mnemonic: "LD HL, n16", opcode: 0x21, cycles: 12 },
            Instruction::LD_HL_A => InstructionData { mnemonic: "LD [HL], A", opcode: 0x77, cycles: 8 },
            Instruction::LD_HL_DEC_A => InstructionData { mnemonic: "LD [HL-], A", opcode: 0x32, cycles: 8 },
            Instruction::PREFIX => InstructionData { mnemonic: "PREFIX", opcode: 0xCB, cycles: 4 },
            Instruction::JR_NZ_e8(z) => InstructionData {
                mnemonic: "JR NZ, e8",
                opcode: 0x20,
                cycles: if *z { 12 } else { 8 },
            },
            Instruction::LD_C_n8 => InstructionData { mnemonic: "LD C, n8", opcode: 0x0E, cycles: 8 },
            Instruction::LD_A_n8 => InstructionData { mnemonic: "LD A, n8", opcode: 0x3E, cycles: 8 },
            Instruction::LDH_C_A => InstructionData { mnemonic: "LDH [C], A", opcode: 0xE2, cycles: 8 },
            Instruction::INC_C => InstructionData { mnemonic: "INC C", opcode: 0x0C, cycles: 4 },
            Instruction::LDH_a8_A => InstructionData { mnemonic: "LDH [a8], A", opcode: 0xE0, cycles: 12 },
            Instruction::LD_B_A => InstructionData { mnemonic: "LD B, A", opcode: 0x47, cycles: 8 },
            Instruction::PUSH_HL => InstructionData { mnemonic: "PUSH HL", opcode: 0xE5, cycles: 16 },
            Instruction::LD_DE_n16 => InstructionData { mnemonic: "LD DE, n16", opcode: 0x11, cycles: 12 },
        }
    }
}

/// One of the four status bits held in the low byte of AF.
#[derive(Clone, Copy, Debug, PartialEq, Eq)]
pub enum Flag {
    Z,
    N,
    H,
    C,
}

/// The bit of AF that holds `f`: Zero is bit 7, Subtract 6, Half-Carry 5, Carry 4.
pub open spec fn flag_mask(f: Flag) -> u16 {
    match f {
        Flag::Z => 0x80,
        Flag::N => 0x40,
        Flag::H => 0x20,
        Flag::C => 0x10,
    }
}

/// 1 when `f` is set in `af`, else 0.
pub open spec fn flag_value(af: u16, f: Flag) -> u8 {
    if af & flag_mask(f) == 0 {
        0
    } else {
        1
    }
}

/// `af` with `f` set (`on`) or cleared, every other bit kept.
pub open spec fn with_flag(af: u16, f: Flag, on: bool) -> u16 {
    if on {
        af | flag_mask(f)
    } else {
        af & !flag_mask(f)
    }
}

impl Flag {
    pub fn mask(&self) -> (r: u16)
        ensures
            r == flag_mask(*self),
    {
        match self {
            Flag::Z => 0x80,
            Flag::N => 0x40,
            Flag::H => 0x20,
            Flag::C => 0x10,
        }
    }
}

pub open spec fn high_byte(x: u16) -> u8 {
    (x / 256) as u8
}

pub open spec fn low_byte(x: u16) -> u8 {
    (x % 256) as u8
}

/// `x` with its high byte replaced by `b`.
pub open spec fn with_high_byte(x: u16, b: u8) -> u16 {
    (b * 256 + x % 256) as u16
}

/// `x` with its low byte replaced by `b`.
pub open spec fn with_low_byte(x: u16, b: u8) -> u16 {
    ((x / 256) * 256 + b) as u16
}

/// The 16-bit value whose bytes are `high` and `low`.
pub open spec fn word(high: u8, low: u8) -> u16 {
    (high * 256 + low) as u16
}

/// `x + k` modulo 65536.
pub open spec fn add16(x: u16, k: int) -> u16 {
    ((x + k) % 65536) as u16
}

/// The byte `e` read as a two's-complement displacement.
pub open spec fn signed8(e: u8) -> int {
    if e < 128 {
        e as int
    } else {
        e - 256
    }
}

/// The six register pairs.
#[derive(Clone, Copy, Debug, PartialEq, Eq)]
pub struct Registers {
    pub af: u16,
    pub bc: u16,
    pub de: u16,
    pub hl: u16,
    pub sp: u16,
    pub pc: u16,
}

/// The state that construction gives: every pair zero but PC at the entry point.
pub open spec fn initial_registers() -> Registers {
    Registers { af: 0, bc: 0, de: 0, hl: 0, sp: 0, pc: ENTRY_POINT }
}

/// Why an instruction could not be executed. Each is fatal to emulation.
#[derive(Clone, Copy, Debug, PartialEq, Eq)]
pub enum DecodeError {
    /// The opcode byte at `address` is not in the supported table.
    UnimplementedOpcode { opcode: u8, address: u16 },
    /// The byte after a 0xCB prefix at `address` is not a supported operation.
    UnimplementedPrefixedOpcode { opcode: u8, address: u16 },
    /// The opcode at `address` is supported but its effect in the current state
    /// is undefined: a store-with-decrement at HL = 0, or a push with SP below 2.
    UndefinedEffect { opcode: u8, address: u16 },
}

/// Registers, memory contents and the result after one decode step.
pub type Outcome = (Registers, Seq<u8>, Result<Instruction, DecodeError>);

/// The byte after the opcode.
pub open spec fn operand8(r: Registers, m: Seq<u8>) -> u8 {
    m[add16(r.pc, 1) as int]
}

/// The little-endian word in the two bytes after the opcode.
pub open spec fn operand16(r: Registers, m: Seq<u8>) -> u16 {
    word(m[add16(r.pc, 2) as int], m[add16(r.pc, 1) as int])
}

/// Address that LDH [C],A stores to: C past the I/O base 0xFF00, the same
/// base as LDH [a8],A.
pub open spec fn io_c_address(r: Registers) -> int {
    0xFF00 + low_byte(r.bc)
}

/// The operand that the low three bits of a 0xCB sub-opcode select:
/// B, C, D, E, H, L, [HL], A.
pub open spec fn cb_operand(r: Registers, m: Seq<u8>, sel: u8) -> u8 {
    if sel == 0 {
        high_byte(r.bc)
    } else if sel == 1 {
        low_byte(r.bc)
    } else if sel == 2 {
        high_byte(r.de)
    } else if sel == 3 {
        low_byte(r.de)
    } else if sel == 4 {
        high_byte(r.hl)
    } else if sel == 5 {
        low_byte(r.hl)
    } else if sel == 6 {
        m[r.hl as int]
    } else if sel == 7 {
        high_byte(r.af)
    } else {
        0
    }
}

/// The state with the operand selected by `sel` replaced by `v`.
pub open spec fn cb_store(r: Registers, m: Seq<u8>, sel: u8, v: u8) -> (Registers, Seq<u8>) {
    if sel == 0 {
        (Registers { bc: with_high_byte(r.bc, v), ..r }, m)
    } else if sel == 1 {
        (Registers { bc: with_low_byte(r.bc, v), ..r }, m)
    } else if sel == 2 {
        (Registers { de: with_high_byte(r.de, v), ..r }, m)
    } else if sel == 3 {
        (Registers { de: with_low_byte(r.de, v), ..r }, m)
    } else if sel == 4 {
        (Registers { hl: with_high_byte(r.hl, v), ..r }, m)
    } else if sel == 5 {
        (Registers { hl: with_low_byte(r.hl, v), ..r }, m)
    } else if sel == 6 {
        (r, m.update(r.hl as int, v))
    } else if sel == 7 {
        (Registers { af: with_high_byte(r.af, v), ..r }, m)
    } else {
        (r, m)
    }
}

/// The bit that a shift or rotate of `x` moves out: bit 7 for the left
/// forms (even `op`), bit 0 for the right ones.
pub open spec fn shifted_out(x: u8, op: u8) -> u8 {
    if op % 2 == 0 {
        (x & 0x80) >> 7
    } else {
        x & 0x01
    }
}

/// Result of rotate/shift `op` (0: rotate left, 1: rotate right, 2: shift
/// left, 3: shift right) on `x`. The right rotate puts the moved-out bit
/// back at bit 0, not bit 7.
pub open spec fn shift_result(x: u8, op: u8) -> u8 {
    let carry = shifted_out(x, op);
    if op == 0 {
        (x << 1) | carry
    } else if op == 1 {
        (x >> 1) | carry
    } else if op == 2 {
        x << 1
    } else {
        x >> 1
    }
}

/// Effect of the two-byte 0xCB-prefixed instruction at PC.
pub open spec fn prefixed_step(r: Registers, m: Seq<u8>) -> Outcome {
    let sub = operand8(r, m);
    let family = sub / 64;
    let middle = (sub / 8) % 8;
    let sel = sub % 8;
    let x = cb_operand(r, m, sel);
    if family == 0 && middle < 4 {
        let res = shift_result(x, middle);
        let (r1, m1) = cb_store(r, m, sel, res);
        let af = with_flag(
            with_flag(
                with_flag(with_flag(r1.af, Flag::Z, res == 0), Flag::C, shifted_out(x, middle) == 1),
                Flag::H,
                false,
            ),
            Flag::N,
            false,
        );
        (Registers { af, pc: add16(r.pc, 2), ..r1 }, m1, Ok(Instruction::PREFIX))
    } else if family == 1 {
        let af = with_flag(
            with_flag(with_flag(r.af, Flag::Z, (x >> middle) & 1 == 0), Flag::N, false),
            Flag::H,
            true,
        );
        (Registers { af, pc: add16(r.pc, 2), ..r }, m, Ok(Instruction::PREFIX))
    } else {
        (r, m, Err(DecodeError::UnimplementedPrefixedOpcode { opcode: sub, address: r.pc }))
    }
}

/// Effect of ADC A,n8: A + n8 + Carry, wrapping, with all four flags computed.
pub open spec fn adc_step(r: Registers, m: Seq<u8>) -> Outcome {
    let a = high_byte(r.af);
    let n = operand8(r, m);
    let carry_in = flag_value(r.af, Flag::C);
    let sum = a + n + carry_in;
    let res = (sum % 256) as u8;
    let af = with_flag(
        with_flag(
            with_flag(with_flag(with_high_byte(r.af, res), Flag::Z, res == 0), Flag::N, false),
            Flag::H,
            a % 16 + n % 16 + carry_in > 15,
        ),
        Flag::C,
        sum > 255,
    );
    (Registers { af, pc: add16(r.pc, 2), ..r }, m, Ok(Instruction::ADC_A_n8))
}

/// Effect of INC C. Zero is set when the result is 0 and otherwise left as it was.
pub open spec fn inc_c_step(r: Registers, m: Seq<u8>) -> Outcome {
    let c = low_byte(r.bc);
    let res = ((c + 1) % 256) as u8;
    let af0 = if res == 0 {
        with_flag(r.af, Flag::Z, true)
    } else {
        r.af
    };
    let af = with_flag(with_flag(af0, Flag::N, false), Flag::H, c % 16 == 15);
    (
        Registers { af, bc: with_low_byte(r.bc, res), pc: add16(r.pc, 1), ..r },
        m,
        Ok(Instruction::INC_C),
    )
}

/// Opcodes in the supported table.
pub open spec fn is_supported(opcode: u8) -> bool {
    opcode == 0x00 || opcode == 0x03 || opcode == 0x0B || opcode == 0x0C || opcode == 0x0E
        || opcode == 0x11 || opcode == 0x20 || opcode == 0x21 || opcode == 0x31 || opcode == 0x32
        || opcode == 0x3E || opcode == 0x47 || opcode == 0x66 || opcode == 0x73 || opcode == 0x77
        || opcode == 0xAF || opcode == 0xCB || opcode == 0xCC || opcode == 0xCE || opcode == 0xE0
        || opcode == 0xE2 || opcode == 0xE5
}

/// Effect of executing `opcode` with registers `r` and memory `m`.
pub open spec fn step(r: Registers, m: Seq<u8>, opcode: u8) -> Outcome {
    let undefined = (r, m, Err(DecodeError::UndefinedEffect { opcode, address: r.pc }));
    if opcode == 0x00 {
        (Registers { pc: add16(r.pc, 1), ..r }, m, Ok(Instruction::NOP))
    } else if opcode == 0x03 {
        (Registers { bc: add16(r.bc, 1), pc: add16(r.pc, 1), ..r }, m, Ok(Instruction::INC_BC))
    } else if opcode == 0x0B {
        (Registers { bc: add16(r.bc, -1), pc: add16(r.pc, 1), ..r }, m, Ok(Instruction::DEC_BC))
    } else if opcode == 0x0C {
        inc_c_step(r, m)
    } else if opcode == 0x0E {
        (
            Registers { bc: with_low_byte(r.bc, operand8(r, m)), pc: add16(r.pc, 2), ..r },
            m,
            Ok(Instruction::LD_C_n8),
        )
    } else if opcode == 0x11 {
        (Registers { de: operand16(r, m), pc: add16(r.pc, 3), ..r }, m, Ok(Instruction::LD_DE_n16))
    } else if opcode == 0x20 {
        if flag_value(r.af, Flag::Z) == 0 {
            (
                Registers { pc: add16(r.pc, 2 + signed8(operand8(r, m))), ..r },
                m,
                Ok(Instruction::JR_NZ_e8(true)),
            )
        } else {
            (Registers { pc: add16(r.pc, 2), ..r }, m, Ok(Instruction::JR_NZ_e8(false)))
        }
    } else if opcode == 0x21 {
        (Registers { hl: operand16(r, m), pc: add16(r.pc, 3), ..r }, m, Ok(Instruction::LD_HL_n16))
    } else if opcode == 0x31 {
        (Registers { sp: operand16(r, m), pc: add16(r.pc, 3), ..r }, m, Ok(Instruction::LD_SP_n16))
    } else if opcode == 0x32 {
        if r.hl == 0 {
            undefined
        } else {
            (
                Registers { hl: (r.hl - 1) as u16, pc: add16(r.pc, 1), ..r },
                m.update(r.hl as int, high_byte(r.af)),
                Ok(Instruction::LD_HL_DEC_A),
            )
        }
    } else if opcode == 0x3E {
        (
            Registers { af: with_high_byte(r.af, operand8(r, m)), pc: add16(r.pc, 2), ..r },
            m,
            Ok(Instruction::LD_A_n8),
        )
    } else if opcode == 0x47 {
        (
            Registers { bc: with_high_byte(r.bc, high_byte(r.af)), pc: add16(r.pc, 1), ..r },
            m,
            Ok(Instruction::LD_B_A),
        )
    } else if opcode == 0x66 {
        (
            Registers { hl: with_high_byte(r.hl, m[r.hl as int]), pc: add16(r.pc, 1), ..r },
            m,
            Ok(Instruction::LD_H_HL),
        )
    } else if opcode == 0x73 {
        (
            Registers { pc: add16(r.pc, 1), ..r },
            m.update(r.hl as int, low_byte(r.de)),
            Ok(Instruction::LD_HL_E),
        )
    } else if opcode == 0x77 {
        (
            Registers { pc: add16(r.pc, 1), ..r },
            m.update(r.hl as int, high_byte(r.af)),
            Ok(Instruction::LD_HL_A),
        )
    } else if opcode == 0xAF {
        let af = with_flag(
            with_flag(
                with_flag(with_flag(with_high_byte(r.af, 0), Flag::Z, true), Flag::N, false),
                Flag::H,
                false,
            ),
            Flag::C,
            false,
        );
        (Registers { af, pc: add16(r.pc, 1), ..r }, m, Ok(Instruction::XOR_A_A))
    } else if opcode == 0xCB {
        prefixed_step(r, m)
    } else if opcode == 0xCC {
        if flag_value(r.af, Flag::Z) != 0 {
            (Registers { pc: operand16(r, m), ..r }, m, Ok(Instruction::Call_Z_a16(true)))
        } else {
            (Registers { pc: add16(r.pc, 3), ..r }, m, Ok(Instruction::Call_Z_a16(false)))
        }
    } else if opcode == 0xCE {
        adc_step(r, m)
    } else if opcode == 0xE0 {
        (
            Registers { pc: add16(r.pc, 2), ..r },
            m.update(0xFF00 + operand8(r, m), high_byte(r.af)),
            Ok(Instruction::LDH_a8_A),
        )
    } else if opcode == 0xE2 {
        (
            Registers { pc: add16(r.pc, 1), ..r },
            m.update(io_c_address(r), high_byte(r.af)),
            Ok(Instruction::LDH_C_A),
        )
    } else if opcode == 0xE5 {
        if r.sp < 2 {
            undefined
        } else {
            (
                Registers { sp: (r.sp - 2) as u16, pc: add16(r.pc, 1), ..r },
                m.update(r.sp - 1, low_byte(r.hl)).update(r.sp - 2, high_byte(r.hl)),
                Ok(Instruction::PUSH_HL),
            )
        }
    } else {
        (r, m, Err(DecodeError::UnimplementedOpcode { opcode, address: r.pc }))
    }
}

/// Receives a request to show the current frame after each executed instruction.
pub trait Drawable {
    fn draw(&mut self);
}

/// The processor: register file, address space, and the frame presenter.
pub struct CPU<T: Drawable> {
    pub registers: Registers,
    pub memory: Memory,
    pub gpu: T,
}

impl<T: Drawable> CPU<T> {
    pub open spec fn wf(&self) -> bool {
        self.memory.wf()
    }

    pub fn new(memory: Memory, gpu: T) -> (r: Self)
        requires
            memory.wf(),
        ensures
            r.wf(),
            r.registers == initial_registers(),
            r.memory == memory,
            r.gpu == gpu,
    {
        Self {
            registers: Registers { af: 0, bc: 0, de: 0, hl: 0, sp: 0, pc: ENTRY_POINT },
            memory,
            gpu,
        }
    }

    pub fn get_high_byte(&self, bytes: u16) -> (r: u8)
        ensures
            r == high_byte(bytes),
    {
        assert(((bytes & 0xFF00) >> 8) as u8 == (bytes / 256) as u8) by (bit_vector);
        ((bytes & 0xFF00) >> 8) as u8
    }

    pub fn get_low_byte(&self, bytes: u16) -> (r: u8)
        ensures
            r == low_byte(bytes),
    {
        assert((bytes & 0x00FF) as u8 == (bytes % 256) as u8) by (bit_vector);
        (bytes & 0x00FF) as u8
    }

    pub fn replace_high_byte(&self, bytes: u16, new_byte: u8) -> (r: u16)
        ensures
            r == with_high_byte(bytes, new_byte),
    {
        assert((bytes & 0x00FF) | ((new_byte as u16) << 8) == (new_byte * 256 + bytes % 256) as u16)
            by (bit_vector);
        (bytes & 0x00FF) | ((new_byte as u16) << 8)
    }

    pub fn replace_low_byte(&self, bytes: u16, new_byte: u8) -> (r: u16)
        ensures
            r == with_low_byte(bytes, new_byte),
    {
        assert((bytes & 0xFF00) | (new_byte as u16) == ((bytes / 256) * 256 + new_byte) as u16)
            by (bit_vector);
        (bytes & 0xFF00) | (new_byte as u16)
    }

    pub fn concat_bytes(high: u8, low: u8) -> (r: u16)
        ensures
            r == word(high, low),
    {
        assert(((high as u16) << 8) | low as u16 == (high * 256 + low) as u16) by (bit_vector);
        ((high as u16) << 8) | low as u16
    }

    /// The opcode byte without its three operand-selector bits.
    pub fn get_leftmost_five_bits(instruction: u8) -> (r: u8)
        ensures
            r == instruction / 8,
    {
        assert((instruction & 0b1111_1000) >> 3 == instruction / 8) by (bit_vector);
        (instruction & 0b1111_1000) >> 3
    }

    pub fn get_flag(&self, flag: Flag) -> (r: u8)
        ensures
            r == flag_value(self.registers.af, flag),
    {
        if self.registers.af & flag.mask() == 0 {
            0
        } else {
            1
        }
    }

    pub fn set_flag(&mut self, flag: Flag)
        ensures
            final(self).registers == (Registers {
                af: with_flag(old(self).registers.af, flag, true),
                ..old(self).registers
            }),
            final(self).memory == old(self).memory,
            final(self).gpu == old(self).gpu,
    {
        self.registers.af = self.registers.af | flag.mask();
    }

    pub fn clear_flag(&mut self, flag: Flag)
        ensures
            final(self).registers == (Registers {
                af: with_flag(old(self).registers.af, flag, false),
                ..old(self).registers
            }),
            final(self).memory == old(self).memory,
            final(self).gpu == old(self).gpu,
    {
        self.registers.af = self.registers.af & !flag.mask();
    }

    /// Sets `flag` when `on` holds, clears it otherwise.
    fn put_flag(&mut self, flag: Flag, on: bool)
        ensures
            final(self).registers == (Registers {
                af: with_flag(old(self).registers.af, flag, on),
                ..old(self).registers
            }),
            final(self).memory == old(self).memory,
            final(self).gpu == old(self).gpu,
    {
        if on {
            self.set_flag(flag);
        } else {
            self.clear_flag(flag);
        }
    }

    /// `after` and `r` are what `step` gives for `opcode` from `before`; the
    /// memory map and ROM size are kept.
    pub open spec fn stepped(
        before: &Self,
        after: &Self,
        opcode: u8,
        r: Result<Instruction, DecodeError>,
    ) -> bool {
        &&& after.wf()
        &&& (after.registers, after.memory.memory@, r) == step(
            before.registers,
            before.memory.memory@,
            opcode,
        )
        &&& after.memory.map == before.memory.map
        &&& after.memory.rom_size == before.memory.rom_size
    }

    fn advance(&mut self, k: u16)
        requires
            k <= 3,
        ensures
            final(self).registers == (Registers {
                pc: add16(old(self).registers.pc, k as int),
                ..old(self).registers
            }),
            final(self).memory == old(self).memory,
            final(self).gpu == old(self).gpu,
    {
        self.registers.pc = self.registers.pc.wrapping_add(k);
    }

    fn read_operand8(&self) -> (r: u8)
        requires
            self.wf(),
        ensures
            r == operand8(self.registers, self.memory.memory@),
    {
        self.memory.read(self.registers.pc.wrapping_add(1))
    }

    fn read_operand16(&self) -> (r: u16)
        requires
            self.wf(),
        ensures
            r == operand16(self.registers, self.memory.memory@),
    {
        let low = self.memory.read(self.registers.pc.wrapping_add(1));
        let high = self.memory.read(self.registers.pc.wrapping_add(2));
        Self::concat_bytes(high, low)
    }

    fn store(&mut self, addr: u16, value: u8)
        requires
            old(self).wf(),
        ensures
            final(self).wf(),
            final(self).registers == old(self).registers,
            final(self).memory.memory@ == old(self).memory.memory@.update(addr as int, value),
            final(self).memory.map == old(self).memory.map,
            final(self).memory.rom_size == old(self).memory.rom_size,
            final(self).gpu == old(self).gpu,
    {
        self.memory.write(addr, value);
    }

    /// The operand of a 0xCB instruction that `value` selects (0 to 7:
    /// B, C, D, E, H, L, [HL], A); 0 for any other `value`.
    pub fn get_cb_operand(&self, value: u8) -> (r: u8)
        requires
            self.wf(),
        ensures
            r == cb_operand(self.registers, self.memory.memory@, value),
    {
        match value {
            0x0 => self.get_high_byte(self.registers.bc),
            0x1 => self.get_low_byte(self.registers.bc),
            0x2 => self.get_high_byte(self.registers.de),
            0x3 => self.get_low_byte(self.registers.de),
            0x4 => self.get_high_byte(self.registers.hl),
            0x5 => self.get_low_byte(self.registers.hl),
            0x6 => self.memory.read(self.registers.hl),
            0x7 => self.get_high_byte(self.registers.af),
            _ => 0,
        }
    }

    /// Replaces the operand that `operand` selects with `value`; does nothing
    /// for a selector above 7.
    pub fn replace_cb_operand(&mut self, operand: u8, value: u8)
        requires
            old(self).wf(),
        ensures
            final(self).wf(),
            (final(self).registers, final(self).memory.memory@) == cb_store(
                old(self).registers,
                old(self).memory.memory@,
                operand,
                value,
            ),
            final(self).memory.map == old(self).memory.map,
            final(self).memory.rom_size == old(self).memory.rom_size,
            final(self).gpu == old(self).gpu,
    {
        match operand {
            0x0 => {
                self.registers.bc = self.replace_high_byte(self.registers.bc, value);
            },
            0x1 => {
                self.registers.bc = self.replace_low_byte(self.registers.bc, value);
            },
            0x2 => {
                self.registers.de = self.replace_high_byte(self.registers.de, value);
            },
            0x3 => {
                self.registers.de = self.replace_low_byte(self.registers.de, value);
            },
            0x4 => {
                self.registers.hl = self.replace_high_byte(self.registers.hl, value);
            },
            0x5 => {
                self.registers.hl = self.replace_low_byte(self.registers.hl, value);
            },
            0x6 => {
                let hl = self.registers.hl;
                self.store(hl, value);
            },
            0x7 => {
                self.registers.af = self.replace_high_byte(self.registers.af, value);
            },
            _ => {},
        }
    }

    fn execute_prefixed(&mut self) -> (r: Result<Instruction, DecodeError>)
        requires
            old(self).wf(),
        ensures
            (final(self).registers, final(self).memory.memory@, r) == prefixed_step(
                old(self).registers,
                old(self).memory.memory@,
            ),
            final(self).wf(),
            final(self).memory.map == old(self).memory.map,
            final(self).memory.rom_size == old(self).memory.rom_size,
            final(self).gpu == old(self).gpu,
    {
        let sub = self.read_operand8();
        let family = (sub & 0b1100_0000) >> 6;
        let middle = (sub & 0b0011_1000) >> 3;
        let sel = sub & 0b0000_0111;
        assert(family == sub / 64 && middle == (sub / 8) % 8 && sel == sub % 8) by (bit_vector)
            requires
                family == (sub & 0b1100_0000) >> 6,
                middle == (sub & 0b0011_1000) >> 3,
                sel == sub & 0b0000_0111,
        ;
        let operand = self.get_cb_operand(sel);
        if family == 0 && middle < 4 {
            let carry = if middle % 2 == 0 {
                (operand & 0x80) >> 7
            } else {
                operand & 0x01
            };
            let result = if middle == 0 {
                (operand << 1) | carry
            } else if middle == 1 {
                (operand >> 1) | carry
            } else if middle == 2 {
                operand << 1
            } else {
                operand >> 1
            };
            self.replace_cb_operand(sel, result);
            self.put_flag(Flag::Z, result == 0);
            self.put_flag(Flag::C, carry == 1);
            self.clear_flag(Flag::H);
            self.clear_flag(Flag::N);
        } else if family == 1 {
            self.put_flag(Flag::Z, (operand >> middle) & 1 == 0);
            self.clear_flag(Flag::N);
            self.set_flag(Flag::H);
        } else {
            return Err(
                DecodeError::UnimplementedPrefixedOpcode { opcode: sub, address: self.registers.pc },
            );
        }
        self.advance(2);
        Ok(Instruction::PREFIX)
    }

    fn execute_adc(&mut self) -> (r: Result<Instruction, DecodeError>)
        requires
            old(self).wf(),
        ensures
            (final(self).registers, final(self).memory.memory@, r) == adc_step(
                old(self).registers,
                old(self).memory.memory@,
            ),
            final(self).memory == old(self).memory,
            final(self).gpu == old(self).gpu,
    {
        let a = self.get_high_byte(self.registers.af);
        let n8 = self.read_operand8();
        let carry_in = self.get_flag(Flag::C);
        let sum: u16 = a as u16 + n8 as u16 + carry_in as u16;
        let result = (sum % 256) as u8;
        self.registers.af = self.replace_high_byte(self.registers.af, result);
        self.put_flag(Flag::Z, result == 0);
        self.clear_flag(Flag::N);
        assert((a & 0x0F) == a % 16 && (n8 & 0x0F) == n8 % 16) by (bit_vector);
        let low_sum: u16 = (a & 0x0F) as u16 + (n8 & 0x0F) as u16 + carry_in as u16;
        self.put_flag(Flag::H, low_sum > 0x0F);
        self.put_flag(Flag::C, sum > 0xFF);
        self.advance(2);
        Ok(Instruction::ADC_A_n8)
    }

    fn execute_inc_c(&mut self) -> (r: Result<Instruction, DecodeError>)
        requires
            old(self).wf(),
        ensures
            (final(self).registers, final(self).memory.memory@, r) == inc_c_step(
                old(self).registers,
                old(self).memory.memory@,
            ),
            final(self).memory == old(self).memory,
            final(self).gpu == old(self).gpu,
    {
        let c = self.get_low_byte(self.registers.bc);
        let result = c.wrapping_add(1);
        assert((c & 0x0F == 0x0F) == (c % 16 == 15)) by (bit_vector);
        self.registers.bc = self.replace_low_byte(self.registers.bc, result);
        if result == 0 {
            self.set_flag(Flag::Z);
        }
        self.clear_flag(Flag::N);
        self.put_flag(Flag::H, c & 0x0F == 0x0F);
        self.advance(1);
        Ok(Instruction::INC_C)
    }

    /// Executes `opcode` as if it had been read at PC: applies its effect to
    /// registers and memory and reports the instruction, or leaves the state
    /// unchanged and reports why it cannot run.
    #[verifier::rlimit(40)]
    pub fn decode(&mut self, opcode: u8) -> (r: Result<Instruction, DecodeError>)
        requires
            old(self).wf(),
        ensures
            Self::stepped(old(self), final(self), opcode, r),
            final(self).gpu == old(self).gpu,
    {
        let pc = self.registers.pc;
        match opcode {
            0x00 => {
                self.advance(1);
                Ok(Instruction::NOP)
            },
            0x03 => {
                self.registers.bc = self.registers.bc.wrapping_add(1);
                self.advance(1);
                Ok(Instruction::INC_BC)
            },
            0x0B => {
                self.registers.bc = self.registers.bc.wrapping_sub(1);
                self.advance(1);
                Ok(Instruction::DEC_BC)
            },
            0x0C => self.execute_inc_c(),
            0x0E => {
                let n8 = self.read_operand8();
                self.registers.bc = self.replace_low_byte(self.registers.bc, n8);
                self.advance(2);
                Ok(Instruction::LD_C_n8)
            },
            0x11 => {
                self.registers.de = self.read_operand16();
                self.advance(3);
                Ok(Instruction::LD_DE_n16)
            },
            0x20 => {
                if self.get_flag(Flag::Z) == 0 {
                    let e8 = self.read_operand8();
                    let next = pc.wrapping_add(2);
                    self.registers.pc = if e8 < 128 {
                        next.wrapping_add(e8 as u16)
                    } else {
                        next.wrapping_sub(256 - e8 as u16)
                    };
                    Ok(Instruction::JR_NZ_e8(true))
                } else {
                    self.advance(2);
                    Ok(Instruction::JR_NZ_e8(false))
                }
            },
            0x21 => {
                self.registers.hl = self.read_operand16();
                self.advance(3);
                Ok(Instruction::LD_HL_n16)
            },
            0x31 => {
                self.registers.sp = self.read_operand16();
                self.advance(3);
                Ok(Instruction::LD_SP_n16)
            },
            0x32 => {
                let hl = self.registers.hl;
                if hl == 0 {
                    return Err(DecodeError::UndefinedEffect { opcode, address: pc });
                }
                let a = self.get_high_byte(self.registers.af);
                self.store(hl, a);
                self.registers.hl = hl - 1;
                self.advance(1);
                Ok(Instruction::LD_HL_DEC_A)
            },
            0x3E => {
                let n8 = self.read_operand8();
                self.registers.af = self.replace_high_byte(self.registers.af, n8);
                self.advance(2);
                Ok(Instruction::LD_A_n8)
            },
            0x47 => {
                let a = self.get_high_byte(self.registers.af);
                self.registers.bc = self.replace_high_byte(self.registers.bc, a);
                self.advance(1);
                Ok(Instruction::LD_B_A)
            },
            0x66 => {
                let hl = self.registers.hl;
                let value = self.memory.read(hl);
                self.registers.hl = self.replace_high_byte(hl, value);
                self.advance(1);
                Ok(Instruction::LD_H_HL)
            },
            0x73 => {
                let e = self.get_low_byte(self.registers.de);
                let hl = self.registers.hl;
                self.store(hl, e);
                self.advance(1);
                Ok(Instruction::LD_HL_E)
            },
            0x77 => {
                let a = self.get_high_byte(self.registers.af);
                let hl = self.registers.hl;
                self.store(hl, a);
                self.advance(1);
                Ok(Instruction::LD_HL_A)
            },
            0xAF => {
                self.registers.af = self.replace_high_byte(self.registers.af, 0);
                self.set_flag(Flag::Z);
                self.clear_flag(Flag::N);
                self.clear_flag(Flag::H);
                self.clear_flag(Flag::C);
                self.advance(1);
                Ok(Instruction::XOR_A_A)
            },
            0xCB => self.execute_prefixed(),
            0xCC => {
                if self.get_flag(Flag::Z) != 0 {
                    self.registers.pc = self.read_operand16();
                    Ok(Instruction::Call_Z_a16(true))
                } else {
                    self.advance(3);
                    Ok(Instruction::Call_Z_a16(false))
                }
            },
            0xCE => self.execute_adc(),
            0xE0 => {
                let n8 = self.read_operand8();
                let a = self.get_high_byte(self.registers.af);
                self.store(0xFF00 + n8 as u16, a);
                self.advance(2);
                Ok(Instruction::LDH_a8_A)
            },
            0xE2 => {
                let c = self.get_low_byte(self.registers.bc);
                let a = self.get_high_byte(self.registers.af);
                self.store(0xFF00 + c as u16, a);
                self.advance(1);
                Ok(Instruction::LDH_C_A)
            },
            0xE5 => {
                let sp = self.registers.sp;
                if sp < 2 {
                    return Err(DecodeError::UndefinedEffect { opcode, address: pc });
                }
                let l = self.get_low_byte(self.registers.hl);
                let h = self.get_high_byte(self.registers.hl);
                self.store(sp - 1, l);
                self.store(sp - 2, h);
                self.registers.sp = sp - 2;
                self.advance(1);
                Ok(Instruction::PUSH_HL)
            },
            _ => Err(DecodeError::UnimplementedOpcode { opcode, address: pc }),
        }
    }

    /// Executes the instruction whose opcode is at PC, then asks the presenter
    /// to draw. On an error nothing changes and nothing is drawn.
    pub fn cycle(&mut self) -> (r: Result<Instruction, DecodeError>)
        requires
            old(self).wf(),
        ensures
            Self::stepped(
                old(self),
                final(self),
                old(self).memory.memory@[old(self).registers.pc as int],
                r,
            ),
            r is Err ==> final(self).gpu == old(self).gpu,
    {
        let opcode = self.memory.read(self.registers.pc);
        let instruction = self.decode(opcode);
        if instruction.is_ok() {
            self.gpu.draw();
        }
        instruction
    }
}

/// Incrementing a 16-bit value and then decrementing it, or the reverse,
/// gives back the value, also across the 0xFFFF/0x0000 boundary.
pub proof fn lemma_inc_dec_inverse(x: u16)
    ensures
        add16(add16(x, 1), -1) == x,
        add16(add16(x, -1), 1) == x,
{
}

/// INC BC followed by DEC BC, or DEC BC followed by INC BC, restores BC.
pub proof fn lemma_inc_dec_bc_restores(r: Registers, m: Seq<u8>)
    ensures
        step(step(r, m, 0x03).0, step(r, m, 0x03).1, 0x0B).0.bc == r.bc,
        step(step(r, m, 0x0B).0, step(r, m, 0x0B).1, 0x03).0.bc == r.bc,
{
    lemma_inc_dec_inverse(r.bc);
}

/// XOR A,A leaves A at 0 and the Zero flag set, whatever A held.
pub proof fn lemma_xor_a_a_clears_a(r: Registers, m: Seq<u8>)
    ensures
        high_byte(step(r, m, 0xAF).0.af) == 0,
        flag_value(step(r, m, 0xAF).0.af, Flag::Z) == 1,
        step(r, m, 0xAF).2 == Ok::<Instruction, DecodeError>(Instruction::XOR_A_A),
{
    let x = r.af;
    assert((((((x & 0x00FF) | 0x80) & !0x40u16) & !0x20u16) & !0x10u16) / 256 == 0) by (bit_vector);
    assert((((((x & 0x00FF) | 0x80) & !0x40u16) & !0x20u16) & !0x10u16) & 0x80 != 0) by (bit_vector);
    assert(with_high_byte(x, 0) == x & 0x00FF) by (bit_vector);
}

/// JR NZ,e8 with the Zero flag set does not branch: PC moves past the two
/// bytes of the instruction and nothing else changes.
pub proof fn lemma_jr_nz_not_taken(r: Registers, m: Seq<u8>)
    requires
        flag_value(r.af, Flag::Z) == 1,
    ensures
        step(r, m, 0x20) == (
        Registers { pc: add16(r.pc, 2), ..r },
        m,
        Ok::<Instruction, DecodeError>(Instruction::JR_NZ_e8(false)),
        ),
{
}

/// CALL Z,a16 jumps to the little-endian address in its operand bytes when
/// the Zero flag is set, and otherwise moves PC past its three bytes.
pub proof fn lemma_call_z(r: Registers, m: Seq<u8>)
    ensures
        flag_value(r.af, Flag::Z) == 1 ==> step(r, m, 0xCC).0.pc == word(
            m[add16(r.pc, 2) as int],
            m[add16(r.pc, 1) as int],
        ) && step(r, m, 0xCC).2 == Ok::<Instruction, DecodeError>(Instruction::Call_Z_a16(true)),
        flag_value(r.af, Flag::Z) == 0 ==> step(r, m, 0xCC).0.pc == add16(r.pc, 3) && step(
            r,
            m,
            0xCC,
        ).2 == Ok::<Instruction, DecodeError>(Instruction::Call_Z_a16(false)),
{
}

/// An opcode outside the table is reported as unimplemented and changes
/// nothing; an opcode in it is never reported so.
pub proof fn lemma_unsupported_opcode_fails(r: Registers, m: Seq<u8>, opcode: u8)
    ensures
        !is_supported(opcode) ==> step(r, m, opcode) == (
        r,
        m,
        Err::<Instruction, DecodeError>(DecodeError::UnimplementedOpcode { opcode, address: r.pc }),
        ),
        is_supported(opcode) ==> step(r, m, opcode).2 != Err::<Instruction, DecodeError>(
            DecodeError::UnimplementedOpcode { opcode, address: r.pc },
        ),
{
}

proof fn lemma_flag_ops_keep_low_nibble()
    ensures
        forall|x: u16, f: Flag, on: bool| #[trigger] with_flag(x, f, on) & 0x0F == x & 0x0F,
        forall|x: u16, b: u8| #[trigger] with_high_byte(x, b) & 0x0F == x & 0x0F,
{
    assert forall|x: u16, f: Flag, on: bool| #[trigger] with_flag(x, f, on) & 0x0F == x & 0x0F by {
        assert((x | 0x80) & 0x0F == x & 0x0F) by (bit_vector);
        assert((x | 0x40) & 0x0F == x & 0x0F) by (bit_vector);
        assert((x | 0x20) & 0x0F == x & 0x0F) by (bit_vector);
        assert((x | 0x10) & 0x0F == x & 0x0F) by (bit_vector);
        assert((x & !0x80u16) & 0x0F == x & 0x0F) by (bit_vector);
        assert((x & !0x40u16) & 0x0F == x & 0x0F) by (bit_vector);
        assert((x & !0x20u16) & 0x0F == x & 0x0F) by (bit_vector);
        assert((x & !0x10u16) & 0x0F == x & 0x0F) by (bit_vector);
    }
    assert forall|x: u16, b: u8| #[trigger] with_high_byte(x, b) & 0x0F == x & 0x0F by {
        assert(((b * 256 + x % 256) as u16) & 0x0F == x & 0x0F) by (bit_vector);
    }
}

/// The four low bits of AF hold no flag: once clear, no instruction sets them.
pub proof fn lemma_step_keeps_af_low_nibble_clear(r: Registers, m: Seq<u8>, opcode: u8)
    requires
        r.af & 0x0F == 0,
    ensures
        step(r, m, opcode).0.af & 0x0F == 0,
{
    lemma_flag_ops_keep_low_nibble();
    if opcode == 0xCB {
        let sub = operand8(r, m);
        let sel = sub % 8;
        let x = cb_operand(r, m, sel);
        let middle = (sub / 8) % 8;
        assert(cb_store(r, m, sel, shift_result(x, middle)).0.af & 0x0F == 0);
    }
}

} // verus!
