use gameboy::cpu::{DecodeError, Drawable, Flag, Instruction, CPU, ENTRY_POINT};
use gameboy::memory::Memory;

struct FakeGPU {}

impl Drawable for FakeGPU {
    fn draw(&mut self) {}
}

fn cpu() -> CPU<FakeGPU> {
    let mem = Memory::new();
    let gpu = FakeGPU {};
    CPU::new(mem, gpu)
}

fn assert_flags(cpu: &CPU<FakeGPU>, z: bool, n: bool, h: bool, c: bool) {
    assert_eq!(cpu.get_flag(Flag::Z), z as u8);
    assert_eq!(cpu.get_flag(Flag::N), n as u8);
    assert_eq!(cpu.get_flag(Flag::H), h as u8);
    assert_eq!(cpu.get_flag(Flag::C), c as u8);
}

#[test]
fn should_return_cb_opcode() {
    assert_eq!(CPU::<FakeGPU>::get_leftmost_five_bits(0b00000_0000), 0b0000_0000);
    assert_eq!(CPU::<FakeGPU>::get_leftmost_five_bits(0b0000_1000), 0b0000_0001);
    assert_eq!(CPU::<FakeGPU>::get_leftmost_five_bits(0b0001_0000), 0b0000_0010);
    assert_eq!(CPU::<FakeGPU>::get_leftmost_five_bits(0b0001_1000), 0b0000_0011);
    assert_eq!(CPU::<FakeGPU>::get_leftmost_five_bits(0b0010_0000), 0b0000_0100);
    assert_eq!(CPU::<FakeGPU>::get_leftmost_five_bits(0b0010_1000), 0b0000_0101);
    assert_eq!(CPU::<FakeGPU>::get_leftmost_five_bits(0b0011_0000), 0b0000_0110);
    assert_eq!(CPU::<FakeGPU>::get_leftmost_five_bits(0b0011_1000), 0b0000_0111);
}

#[test]
fn should_return_high_byte() {
    let cpu = cpu();
    assert_eq!(cpu.get_high_byte(0xFF00), 0xFF);
    assert_eq!(cpu.get_high_byte(0x00FF), 0x00);
    assert_eq!(cpu.get_high_byte(0xCE03), 0xCE);
    assert_eq!(cpu.get_high_byte(0xAF30), 0xAF);
}

#[test]
fn should_return_low_byte() {
    let cpu = cpu();
    assert_eq!(cpu.get_low_byte(0xFF00), 0x00);
    assert_eq!(cpu.get_low_byte(0x00FF), 0xFF);
    assert_eq!(cpu.get_low_byte(0x1ABC), 0xBC);
    assert_eq!(cpu.get_low_byte(0xCA12), 0x12);
}

#[test]
fn should_replace_high_byte() {
    let cpu = cpu();
    assert_eq!(cpu.replace_high_byte(0xFF00, 0xAC), 0xAC00);
    assert_eq!(cpu.replace_high_byte(0x0000, 0xFF), 0xFF00);
    assert_eq!(cpu.replace_high_byte(0xAB34, 0xDA), 0xDA34);
}

#[test]
fn should_replace_low_byte() {
    let cpu = cpu();
    assert_eq!(cpu.replace_low_byte(0xABCD, 0xEF), 0xABEF);
}

#[test]
fn should_correctly_return_flag_values_from_af_register() {
    let mut cpu = cpu();
    cpu.registers.af = 0b00000000_10010000;
    assert_eq!(cpu.get_flag(Flag::Z), 1);
    assert_eq!(cpu.get_flag(Flag::N), 0);
    assert_eq!(cpu.get_flag(Flag::H), 0);
    assert_eq!(cpu.get_flag(Flag::C), 1);
}

#[test]
fn should_set_corresponding_flags_in_af_register() {
    let mut cpu = cpu();

    cpu.registers.af = 0x00;
    cpu.set_flag(Flag::Z);
    assert_eq!(cpu.registers.af, 0b00000000_10000000);

    cpu.registers.af = 0x00;
    cpu.set_flag(Flag::N);
    assert_eq!(cpu.registers.af, 0b00000000_01000000);

    cpu.registers.af = 0x00;
    cpu.set_flag(Flag::H);
    assert_eq!(cpu.registers.af, 0b00000000_00100000);

    cpu.registers.af = 0x00;
    cpu.set_flag(Flag::C);
    assert_eq!(cpu.registers.af, 0b00000000_00010000);
}

#[test]
fn should_clear_corresponding_flags_in_af_register() {
    let mut cpu = cpu();

    cpu.registers.af = 0x00FF;
    cpu.clear_flag(Flag::Z);
    assert_eq!(cpu.registers.af, 0b00000000_01111111);

    cpu.registers.af = 0x00FF;
    cpu.clear_flag(Flag::N);
    assert_eq!(cpu.registers.af, 0b00000000_10111111);

    cpu.registers.af = 0x00FF;
    cpu.clear_flag(Flag::H);
    assert_eq!(cpu.registers.af, 0b00000000_11011111);

    cpu.registers.af = 0x00FF;
    cpu.clear_flag(Flag::C);
    assert_eq!(cpu.registers.af, 0b00000000_11101111);
}

#[test]
fn should_concatenate_bytes() {
    assert_eq!(CPU::<FakeGPU>::concat_bytes(0x10, 0xAC), 0x10AC);
}

#[test]
fn adc_a_n8() {
    let mut cpu = cpu();

    cpu.registers.pc = 0;
    cpu.memory.memory[1] = 5;
    cpu.registers.af = 0x0100;
    assert_eq!(Ok(Instruction::ADC_A_n8), cpu.decode(0xCE));
    assert_eq!(cpu.registers.pc, 2);
    assert_eq!(cpu.registers.af, 0x0600);

    cpu.registers.pc = 0;
    cpu.memory.memory[1] = 1;
    cpu.registers.af = 0xFF00;
    assert_eq!(Ok(Instruction::ADC_A_n8), cpu.decode(0xCE));
    assert_flags(&cpu, true, false, true, true);
}

#[test]
fn ld_h_hl() {
    let mut cpu = cpu();
    cpu.registers.pc = 0;
    cpu.registers.hl = 0xFF02;
    cpu.memory.memory[0xFF02] = 0xA;
    assert_eq!(Ok(Instruction::LD_H_HL), cpu.decode(0x66));
    assert_eq!(cpu.registers.pc, 1);
    assert_eq!(cpu.registers.hl, 0x0A02);
}

#[test]
fn call_z_a16() {
    let mut cpu = cpu();
    cpu.registers.af = 0xFF;
    cpu.registers.pc = 0;
    cpu.memory.memory[1] = 0xCD;
    cpu.memory.memory[2] = 0xAB;
    assert_eq!(Ok(Instruction::Call_Z_a16(true)), cpu.decode(0xCC));
    assert_eq!(cpu.registers.pc, 0xABCD);

    cpu.registers.af = 0x00;
    cpu.registers.pc = 0;
    cpu.memory.memory[1] = 0xCD;
    cpu.memory.memory[2] = 0xAB;
    assert_eq!(Ok(Instruction::Call_Z_a16(false)), cpu.decode(0xCC));
    assert_eq!(cpu.registers.pc, 3);
}

#[test]
fn dec_bc() {
    let mut cpu = cpu();
    cpu.registers.pc = 0;
    cpu.registers.bc = 0x02;
    assert_eq!(Ok(Instruction::DEC_BC), cpu.decode(0x0B));
    assert_eq!(cpu.registers.bc, 0x01);
    assert_eq!(cpu.registers.pc, 1);
}

#[test]
fn inc_bc() {
    let mut cpu = cpu();
    cpu.registers.pc = 0;
    cpu.registers.bc = 0x01;
    assert_eq!(Ok(Instruction::INC_BC), cpu.decode(0x03));
    assert_eq!(cpu.registers.bc, 0x02);
    assert_eq!(cpu.registers.pc, 1);
}

#[test]
fn ld_hl_e() {
    let mut cpu = cpu();
    cpu.registers.pc = 0;
    cpu.registers.hl = 0x00;
    cpu.memory.memory[cpu.registers.hl as usize] = 0x01;
    cpu.registers.de = 0xAB;
    assert_eq!(Ok(Instruction::LD_HL_E), cpu.decode(0x73));
    assert_eq!(cpu.memory.memory[cpu.registers.hl as usize], 0xAB);
    assert_eq!(cpu.registers.pc, 1);
}

#[test]
fn nop() {
    let mut cpu = cpu();
    cpu.registers.pc = 0;
    assert_eq!(Ok(Instruction::NOP), cpu.decode(0x00));
    assert_eq!(cpu.registers.pc, 1);
}

#[test]
fn ld_c_n8() {
    let mut cpu = cpu();
    cpu.registers.bc = 0xABCD;
    cpu.registers.pc = 0;
    cpu.memory.memory[(cpu.registers.pc + 1) as usize] = 0xEF;
    assert_eq!(Ok(Instruction::LD_C_n8), cpu.decode(0x0E));
    assert_eq!(cpu.registers.bc, 0xABEF);
}

#[test]
fn jr_nz_e8() {
    let mut cpu = cpu();
    cpu.registers.pc = 2;
    cpu.registers.af = 0b00000000_10000000;
    cpu.memory.memory[(cpu.registers.pc + 1) as usize] = 0xFF;
    assert_eq!(Ok(Instruction::JR_NZ_e8(false)), cpu.decode(0x20));
    assert_eq!(cpu.registers.pc, 4);

    cpu.registers.pc = 2;
    cpu.registers.af = 0;
    cpu.memory.memory[(cpu.registers.pc + 1) as usize] = 0xFF;
    assert_eq!(Ok(Instruction::JR_NZ_e8(true)), cpu.decode(0x20));
    assert_eq!(cpu.registers.pc, 3);
}

#[test]
fn ld_hl_n16() {
    let mut cpu = cpu();
    cpu.registers.pc = 0;
    cpu.registers.hl = 0;
    cpu.memory.memory[(cpu.registers.pc + 1) as usize] = 0xCD;
    cpu.memory.memory[(cpu.registers.pc + 2) as usize] = 0xAB;
    assert_eq!(Ok(Instruction::LD_HL_n16), cpu.decode(0x21));
    assert_eq!(cpu.registers.hl, 0xABCD);
}

#[test]
fn ld_sp_n16() {
    let mut cpu = cpu();
    cpu.registers.pc = 0;
    cpu.registers.sp = 0;
    cpu.memory.memory[(cpu.registers.pc + 1) as usize] = 0xCD;
    cpu.memory.memory[(cpu.registers.pc + 2) as usize] = 0xAB;
    assert_eq!(Ok(Instruction::LD_SP_n16), cpu.decode(0x31));
    assert_eq!(cpu.registers.sp, 0xABCD);
}

#[test]
fn ld_hl_dec_a() {
    let mut cpu = cpu();
    cpu.registers.hl = 2;
    cpu.registers.af = 0xABCD;
    cpu.memory.memory[cpu.registers.hl as usize] = 0;
    assert_eq!(Ok(Instruction::LD_HL_DEC_A), cpu.decode(0x32));
    assert_eq!(cpu.memory.memory[(cpu.registers.hl + 1) as usize], 0xAB);
    assert_eq!(cpu.registers.hl, 1);
}

#[test]
fn xor_a_a() {
    let mut cpu = cpu();
    cpu.registers.af = 0xAB00;
    assert_eq!(Ok(Instruction::XOR_A_A), cpu.decode(0xAF));
    assert_eq!(0x0080, cpu.registers.af);
    assert_flags(&cpu, true, false, false, false);
}

#[test]
fn ld_a_n8() {
    let mut cpu = cpu();
    cpu.registers.af = 0xABCD;
    cpu.registers.pc = 0;
    cpu.memory.memory[(cpu.registers.pc + 1) as usize] = 0xEF;
    assert_eq!(Ok(Instruction::LD_A_n8), cpu.decode(0x3E));
    assert_eq!(cpu.registers.af, 0xEFCD);
}

#[test]
fn ldh_c_a() {
    let mut cpu = cpu();
    cpu.registers.bc = 0xAB01;
    cpu.registers.af = 0xFF00;
    assert_eq!(Ok(Instruction::LDH_C_A), cpu.decode(0xE2));
    assert_eq!(cpu.memory.memory[0xFF01], 0xFF);
}

#[test]
fn ld_hl_a() {
    let mut cpu = cpu();
    cpu.registers.af = 0xFF00;
    cpu.registers.hl = 0x1122;
    assert_eq!(Ok(Instruction::LD_HL_A), cpu.decode(0x77));
    assert_eq!(cpu.memory.memory[cpu.registers.hl as usize], 0xFF);
}

#[test]
fn ldh_a8_a() {
    let mut cpu = cpu();
    cpu.registers.af = 0xFF00;
    cpu.memory.memory[(cpu.registers.pc + 1) as usize] = 0xAB;
    assert_eq!(Ok(Instruction::LDH_a8_A), cpu.decode(0xE0));
    assert_eq!(cpu.memory.memory[0xFFAB], 0xFF);
}

#[test]
fn ld_b_a() {
    let mut cpu = cpu();
    cpu.registers.af = 0xAA00;
    cpu.registers.bc = 0xBB00;
    assert_eq!(Ok(Instruction::LD_B_A), cpu.decode(0x47));
    assert_eq!(cpu.registers.bc, 0xAA00);
}

#[test]
fn cb_rlc() {
    let mut cpu = cpu();
    cpu.registers.bc = 0b1000_0000_0000_0000;
    cpu.memory.memory[0] = 0xCB;
    cpu.memory.memory[1] = 0x0;
    cpu.registers.pc = 0;
    assert_eq!(Ok(Instruction::PREFIX), cpu.decode(0xCB));
    assert_eq!(cpu.registers.bc, 0b0000_0001_0000_0000);
    assert_flags(&cpu, false, false, false, true);
}

#[test]
fn cb_rrc() {
    let mut cpu = cpu();
    cpu.registers.bc = 0b1000_0000_0000_0000;
    cpu.memory.memory[0] = 0xCB;
    cpu.memory.memory[1] = 0b0000_1000;
    cpu.registers.pc = 0;
    assert_eq!(Ok(Instruction::PREFIX), cpu.decode(0xCB));
    assert_eq!(cpu.registers.bc, 0b0100_0000_0000_0000);
    assert_flags(&cpu, false, false, false, false);
}

#[test]
fn cb_rl() {
    let mut cpu = cpu();
    cpu.registers.bc = 0b1000_0000_0000_0000;
    cpu.memory.memory[0] = 0xCB;
    cpu.memory.memory[1] = 0b0001_0000;
    cpu.registers.pc = 0;
    assert_eq!(Ok(Instruction::PREFIX), cpu.decode(0xCB));
    assert_eq!(cpu.registers.bc, 0);
    assert_flags(&cpu, true, false, false, true);
}

#[test]
fn cb_rr() {
    let mut cpu = cpu();
    cpu.registers.bc = 0b0000_0001_0000_0000;
    cpu.memory.memory[0] = 0xCB;
    cpu.memory.memory[1] = 0b0001_1000;
    cpu.registers.pc = 0;
    assert_eq!(Ok(Instruction::PREFIX), cpu.decode(0xCB));
    assert_eq!(cpu.registers.bc, 0);
    assert_flags(&cpu, true, false, false, true);
}
