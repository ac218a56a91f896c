use gameboy_core::cpu::context::Context;
use gameboy_core::cpu::instruction::operand::indirection::{hl, hli};
use gameboy_core::cpu::instruction::operand::{
    Condition, OpcodeRegister, Operand16, Operand8, Register16, Register8, Target8,
};
use gameboy_core::cpu::instruction::operator::{and, or, xor, Operator};
use gameboy_core::cpu::instruction::{decode_opcode, Instruction};
use gameboy_core::cpu::registers::Flags;

fn context_with_program(program: &[u8]) -> Context {
    let mut ctx = Context::new();
    for (i, b) in program.iter().enumerate() {
        ctx.write(i as u16, *b);
    }
    ctx
}

fn step(ctx: &mut Context) -> Instruction {
    let ins = Instruction::next(ctx);
    ins.execute(ctx);
    ins
}

fn flags(z: bool, n: bool, h: bool, c: bool) -> Flags {
    Flags { z, n, h, c }
}

#[test]
fn xor_register_sets_result_and_flags() {
    let mut ctx = context_with_program(&[0xA8]);
    ctx.registers.a = 0x0F;
    ctx.registers.b = 0x3C;
    let ins = step(&mut ctx);
    assert_eq!(ins.cycles, 4);
    assert_eq!(ctx.registers.a, 0x33);
    assert_eq!(ctx.registers.f, flags(false, false, false, false));
    assert_eq!(ctx.registers.pc, 1);
}

#[test]
fn xor_a_clears_a() {
    let mut ctx = context_with_program(&[0xAF]);
    ctx.registers.a = 0x5A;
    ctx.registers.f = flags(false, true, true, true);
    step(&mut ctx);
    assert_eq!(ctx.registers.a, 0);
    assert_eq!(ctx.registers.f, flags(true, false, false, false));
}

#[test]
fn and_a_and_or_a_keep_a() {
    let mut ctx = context_with_program(&[0xA7, 0xB7]);
    ctx.registers.a = 0x80;
    step(&mut ctx);
    assert_eq!(ctx.registers.a, 0x80);
    assert_eq!(ctx.registers.f, flags(false, false, true, false));
    step(&mut ctx);
    assert_eq!(ctx.registers.a, 0x80);
    assert_eq!(ctx.registers.f, flags(false, false, false, false));
}

#[test]
fn and_literal_sets_half_carry_and_zero() {
    let mut ctx = context_with_program(&[0xE6, 0x0F]);
    ctx.registers.a = 0xF0;
    let ins = step(&mut ctx);
    assert_eq!(ins.cycles, 8);
    assert_eq!(ctx.registers.a, 0);
    assert_eq!(ctx.registers.f, flags(true, false, true, false));
    assert_eq!(ctx.registers.pc, 2);
}

#[test]
fn or_indirect_hl_costs_eight_cycles() {
    let mut ctx = context_with_program(&[0xB6]);
    ctx.registers.h = 0xC0;
    ctx.registers.l = 0x00;
    ctx.write(0xC000, 0x81);
    ctx.registers.a = 0x02;
    let ins = step(&mut ctx);
    assert_eq!(ins.cycles, 8);
    assert_eq!(ctx.registers.a, 0x83);
}

#[test]
fn logic_constructors_target_a() {
    let rhs = Operand8::Literal;
    assert_eq!(and(rhs), Operator::And(Target8::Register(Register8::A), rhs));
    assert_eq!(or(rhs), Operator::Or(Target8::Register(Register8::A), rhs));
    assert_eq!(xor(rhs), Operator::Xor(Target8::Register(Register8::A), rhs));
}

#[test]
fn push_then_pop_restores_af() {
    let mut ctx = context_with_program(&[0xF5, 0xAF, 0xF1]);
    ctx.registers.sp = 0xFFFE;
    ctx.registers.a = 0x12;
    ctx.registers.f = flags(true, false, true, false);
    step(&mut ctx);
    assert_eq!(ctx.registers.sp, 0xFFFC);
    assert_eq!(ctx.read(0xFFFD), 0x12);
    assert_eq!(ctx.read(0xFFFC), 0xA0);
    step(&mut ctx);
    assert_eq!(ctx.registers.a, 0);
    step(&mut ctx);
    assert_eq!(ctx.registers.a, 0x12);
    assert_eq!(ctx.registers.f, flags(true, false, true, false));
    assert_eq!(ctx.registers.sp, 0xFFFE);
}

#[test]
fn push_then_pop_restores_bc() {
    let mut ctx = context_with_program(&[0xC5, 0x01, 0x00, 0x00, 0xC1]);
    ctx.registers.sp = 0xD000;
    ctx.registers.b = 0xBE;
    ctx.registers.c = 0xEF;
    step(&mut ctx);
    step(&mut ctx);
    assert_eq!((ctx.registers.b, ctx.registers.c), (0, 0));
    step(&mut ctx);
    assert_eq!((ctx.registers.b, ctx.registers.c), (0xBE, 0xEF));
    assert_eq!(ctx.registers.sp, 0xD000);
}

#[test]
fn load_through_hli_and_hld_steps_hl() {
    let mut ctx = context_with_program(&[0x2A, 0x32]);
    ctx.registers.h = 0xC1;
    ctx.registers.l = 0xFF;
    ctx.write(0xC1FF, 0x77);
    step(&mut ctx);
    assert_eq!(ctx.registers.a, 0x77);
    assert_eq!(ctx.registers.hl(), 0xC200);
    step(&mut ctx);
    assert_eq!(ctx.read(0xC200), 0x77);
    assert_eq!(ctx.registers.hl(), 0xC1FF);
}

#[test]
fn hl_indirection_takes_its_address_from_bc() {
    let mut ctx = context_with_program(&[0x36, 0x99]);
    ctx.registers.b = 0xC0;
    ctx.registers.c = 0x10;
    ctx.registers.h = 0xD0;
    ctx.registers.l = 0x20;
    let ins = step(&mut ctx);
    assert_eq!(ins.cycles, 12);
    assert_eq!(ctx.read(0xC010), 0x99);
    assert_eq!(ctx.read(0xD020), 0x00);
}

#[test]
fn high_page_loads() {
    let mut ctx = context_with_program(&[0xE0, 0x42, 0xE2, 0xF0, 0x80]);
    ctx.registers.a = 0x5C;
    ctx.registers.c = 0x10;
    ctx.write(0xFF80, 0x3D);
    let ins = step(&mut ctx);
    assert_eq!(ins.cycles, 12);
    assert_eq!(ctx.read(0xFF42), 0x5C);
    step(&mut ctx);
    assert_eq!(ctx.read(0xFF10), 0x5C);
    step(&mut ctx);
    assert_eq!(ctx.registers.a, 0x3D);
}

#[test]
fn load_hl_from_sp_plus_offset() {
    let mut ctx = context_with_program(&[0xF8, 0xFF]);
    ctx.registers.sp = 0x0001;
    let ins = step(&mut ctx);
    assert_eq!(ins.cycles, 12);
    assert_eq!(ctx.registers.hl(), 0x0000);
    assert_eq!(ctx.registers.sp, 0x0001);
    assert_eq!(ctx.registers.f, flags(false, false, true, true));
}

#[test]
fn add_sp_negative_offset() {
    let mut ctx = context_with_program(&[0xE8, 0xFE]);
    ctx.registers.sp = 0xFFF8;
    step(&mut ctx);
    assert_eq!(ctx.registers.sp, 0xFFF6);
    assert_eq!(ctx.registers.f, flags(false, false, true, true));
}

#[test]
fn store_sp_at_literal_address() {
    let mut ctx = context_with_program(&[0x08, 0x00, 0xC0]);
    ctx.registers.sp = 0xABCD;
    let ins = step(&mut ctx);
    assert_eq!(ins.cycles, 20);
    assert_eq!(ctx.read(0xC000), 0xCD);
    assert_eq!(ctx.read(0xC001), 0xAB);
}

#[test]
fn add_and_daa_give_bcd_sum() {
    let mut ctx = context_with_program(&[0xC6, 0x27, 0x27]);
    ctx.registers.a = 0x15;
    step(&mut ctx);
    assert_eq!(ctx.registers.a, 0x3C);
    step(&mut ctx);
    assert_eq!(ctx.registers.a, 0x42);
    assert_eq!(ctx.registers.f, flags(false, false, false, false));
}

#[test]
fn sub_and_daa_give_bcd_difference() {
    let mut ctx = context_with_program(&[0xD6, 0x19, 0x27]);
    ctx.registers.a = 0x42;
    step(&mut ctx);
    assert_eq!(ctx.registers.a, 0x29);
    assert_eq!(ctx.registers.f, flags(false, true, true, false));
    step(&mut ctx);
    assert_eq!(ctx.registers.a, 0x23);
}

#[test]
fn add_with_carry_out() {
    let mut ctx = context_with_program(&[0x80]);
    ctx.registers.a = 0xF8;
    ctx.registers.b = 0x08;
    step(&mut ctx);
    assert_eq!(ctx.registers.a, 0x00);
    assert_eq!(ctx.registers.f, flags(true, false, true, true));
}

#[test]
fn adc_and_sbc_use_carry() {
    let mut ctx = context_with_program(&[0xCE, 0x01, 0xDE, 0x01]);
    ctx.registers.a = 0x0E;
    ctx.registers.f = flags(false, false, false, true);
    step(&mut ctx);
    assert_eq!(ctx.registers.a, 0x10);
    assert_eq!(ctx.registers.f, flags(false, false, true, false));
    ctx.registers.f.c = true;
    step(&mut ctx);
    assert_eq!(ctx.registers.a, 0x0E);
    assert_eq!(ctx.registers.f, flags(false, true, true, false));
}

#[test]
fn compare_keeps_a() {
    let mut ctx = context_with_program(&[0xFE, 0x20]);
    ctx.registers.a = 0x10;
    step(&mut ctx);
    assert_eq!(ctx.registers.a, 0x10);
    assert_eq!(ctx.registers.f, flags(false, true, false, true));
}

#[test]
fn inc_and_dec_keep_carry() {
    let mut ctx = context_with_program(&[0x3C, 0x05]);
    ctx.registers.a = 0xFF;
    ctx.registers.b = 0x10;
    ctx.registers.f = flags(false, false, false, true);
    step(&mut ctx);
    assert_eq!(ctx.registers.a, 0);
    assert_eq!(ctx.registers.f, flags(true, false, true, true));
    step(&mut ctx);
    assert_eq!(ctx.registers.b, 0x0F);
    assert_eq!(ctx.registers.f, flags(false, true, true, true));
}

#[test]
fn add_hl_pairs() {
    let mut ctx = context_with_program(&[0x09]);
    ctx.registers.set_hl(0x8FFF);
    ctx.registers.set_bc(0x8001);
    ctx.registers.f = flags(true, true, false, false);
    step(&mut ctx);
    assert_eq!(ctx.registers.hl(), 0x1000);
    assert_eq!(ctx.registers.f, flags(true, false, true, true));
}

#[test]
fn inc16_and_dec16_wrap() {
    let mut ctx = context_with_program(&[0x33, 0x0B]);
    ctx.registers.sp = 0xFFFF;
    step(&mut ctx);
    assert_eq!(ctx.registers.sp, 0);
    step(&mut ctx);
    assert_eq!(ctx.registers.bc(), 0xFFFF);
}

#[test]
fn rotations_of_a_clear_zero() {
    let mut ctx = context_with_program(&[0x07, 0x1F]);
    ctx.registers.a = 0x80;
    step(&mut ctx);
    assert_eq!(ctx.registers.a, 0x01);
    assert_eq!(ctx.registers.f, flags(false, false, false, true));
    ctx.registers.a = 0x01;
    ctx.registers.f.c = false;
    step(&mut ctx);
    assert_eq!(ctx.registers.a, 0x00);
    assert_eq!(ctx.registers.f, flags(false, false, false, true));
}

#[test]
fn cpl_scf_ccf() {
    let mut ctx = context_with_program(&[0x2F, 0x37, 0x3F]);
    ctx.registers.a = 0x35;
    step(&mut ctx);
    assert_eq!(ctx.registers.a, 0xCA);
    assert_eq!(ctx.registers.f, flags(false, true, true, false));
    step(&mut ctx);
    assert_eq!(ctx.registers.f, flags(false, false, false, true));
    step(&mut ctx);
    assert_eq!(ctx.registers.f, flags(false, false, false, false));
}

#[test]
fn relative_jumps() {
    let mut ctx = context_with_program(&[0x00, 0x18, 0xFD]);
    step(&mut ctx);
    step(&mut ctx);
    assert_eq!(ctx.registers.pc, 0x0000);
    let mut ctx = context_with_program(&[0x20, 0x05]);
    ctx.registers.f.z = true;
    step(&mut ctx);
    assert_eq!(ctx.registers.pc, 0x0002);
    let mut ctx = context_with_program(&[0x20, 0x05]);
    step(&mut ctx);
    assert_eq!(ctx.registers.pc, 0x0007);
}

#[test]
fn call_and_return() {
    let mut ctx = context_with_program(&[0xCD, 0x00, 0x10]);
    ctx.write(0x1000, 0xC9);
    ctx.registers.sp = 0xFFFE;
    let call = step(&mut ctx);
    assert_eq!(call.cycles, 12);
    assert_eq!(ctx.registers.pc, 0x1000);
    assert_eq!(ctx.registers.sp, 0xFFFC);
    assert_eq!(ctx.read16(0xFFFC), 0x0003);
    step(&mut ctx);
    assert_eq!(ctx.registers.pc, 0x0003);
    assert_eq!(ctx.registers.sp, 0xFFFE);
}

#[test]
fn conditional_call_not_taken_skips_address() {
    let mut ctx = context_with_program(&[0xDC, 0x00, 0x10]);
    ctx.registers.sp = 0xFFFE;
    step(&mut ctx);
    assert_eq!(ctx.registers.pc, 0x0003);
    assert_eq!(ctx.registers.sp, 0xFFFE);
}

#[test]
fn restart_and_reti() {
    let mut ctx = context_with_program(&[0x00, 0xFF]);
    ctx.write(0x0038, 0xD9);
    ctx.registers.sp = 0xC100;
    step(&mut ctx);
    let rst = step(&mut ctx);
    assert_eq!(rst.cycles, 32);
    assert_eq!(ctx.registers.pc, 0x0038);
    step(&mut ctx);
    assert_eq!(ctx.registers.pc, 0x0002);
    assert!(ctx.ime);
}

#[test]
fn jump_through_hl_indirection_reads_a_word() {
    let mut ctx = context_with_program(&[0xE9]);
    ctx.registers.set_bc(0xC000);
    ctx.write16(0xC000, 0x1234);
    let ins = step(&mut ctx);
    assert_eq!(ins.cycles, 4);
    assert_eq!(ctx.registers.pc, 0x1234);
}

#[test]
fn interrupts_and_power() {
    let mut ctx = context_with_program(&[0xFB, 0xF3, 0x76, 0x10]);
    step(&mut ctx);
    assert!(ctx.ime);
    step(&mut ctx);
    assert!(!ctx.ime);
    step(&mut ctx);
    assert!(ctx.halted);
    step(&mut ctx);
    assert!(ctx.stopped);
}

#[test]
fn unused_opcode_changes_nothing_but_pc() {
    let mut ctx = context_with_program(&[0xD3]);
    ctx.registers.a = 7;
    let ins = step(&mut ctx);
    assert_eq!(ins.operator, Operator::Unused(0xD3));
    assert_eq!(ins.cycles, 0);
    assert_eq!(ctx.registers.a, 7);
    assert_eq!(ctx.registers.pc, 1);
}

#[test]
fn cb_page_bit_set_res_swap() {
    let mut ctx = context_with_program(&[0xCB, 0x7C, 0xCB, 0xFC, 0xCB, 0x84, 0xCB, 0x37]);
    ctx.registers.h = 0x00;
    let bit = step(&mut ctx);
    assert_eq!(bit.sub_opcode, Some(0x7C));
    assert_eq!(bit.operator, Operator::Bit(7, OpcodeRegister::H));
    assert_eq!(bit.cycles, 0);
    assert!(ctx.registers.f.z);
    assert!(ctx.registers.f.h);
    step(&mut ctx);
    assert_eq!(ctx.registers.h, 0x80);
    ctx.registers.h = 0xFF;
    step(&mut ctx);
    assert_eq!(ctx.registers.h, 0xFE);
    ctx.registers.a = 0x1F;
    step(&mut ctx);
    assert_eq!(ctx.registers.a, 0xF1);
    assert_eq!(ctx.registers.f, flags(false, false, false, false));
    assert_eq!(ctx.registers.pc, 8);
}

#[test]
fn cb_shifts_on_indirect_hl() {
    let mut ctx = context_with_program(&[0xCB, 0x3E, 0xCB, 0x2E, 0xCB, 0x26]);
    ctx.registers.set_hl(0xC000);
    ctx.write(0xC000, 0x81);
    let srl = step(&mut ctx);
    assert_eq!(srl.cycles, 4);
    assert_eq!(ctx.read(0xC000), 0x40);
    assert!(ctx.registers.f.c);
    ctx.write(0xC000, 0x81);
    step(&mut ctx);
    assert_eq!(ctx.read(0xC000), 0xC0);
    step(&mut ctx);
    assert_eq!(ctx.read(0xC000), 0x80);
    assert!(ctx.registers.f.c);
}

#[test]
fn cb_rotations_through_carry() {
    let mut ctx = context_with_program(&[0xCB, 0x11, 0xCB, 0x19, 0xCB, 0x01, 0xCB, 0x09]);
    ctx.registers.c = 0x80;
    step(&mut ctx);
    assert_eq!(ctx.registers.c, 0x00);
    assert_eq!(ctx.registers.f, flags(true, false, false, true));
    step(&mut ctx);
    assert_eq!(ctx.registers.c, 0x80);
    assert_eq!(ctx.registers.f, flags(false, false, false, false));
    step(&mut ctx);
    assert_eq!(ctx.registers.c, 0x01);
    assert!(ctx.registers.f.c);
    step(&mut ctx);
    assert_eq!(ctx.registers.c, 0x80);
    assert!(ctx.registers.f.c);
}

#[test]
fn every_opcode_but_cb_decodes_with_cycles_in_fours() {
    for opcode in 0..=255u8 {
        match decode_opcode(opcode) {
            Some((operator, cycles)) => {
                assert_ne!(opcode, 0xCB);
                assert_eq!(cycles % 4, 0, "opcode {:02X} {:?}", opcode, operator);
            }
            None => assert_eq!(opcode, 0xCB),
        }
    }
}

#[test]
fn alu_block_decodes_by_middle_bits() {
    let a = Target8::Register(Register8::A);
    let b = Operand8::Target(Target8::Opcode(OpcodeRegister::B));
    assert_eq!(decode_opcode(0x80), Some((Operator::Add(a, b), 4)));
    assert_eq!(decode_opcode(0x88), Some((Operator::Adc(a, b), 4)));
    assert_eq!(decode_opcode(0x90), Some((Operator::Sub(b), 4)));
    assert_eq!(decode_opcode(0x98), Some((Operator::Sbc(a, b), 4)));
    assert_eq!(decode_opcode(0xA0), Some((Operator::And(a, b), 4)));
    assert_eq!(decode_opcode(0xA8), Some((Operator::Xor(a, b), 4)));
    assert_eq!(decode_opcode(0xB0), Some((Operator::Or(a, b), 4)));
    assert_eq!(decode_opcode(0xB8), Some((Operator::Cp(b), 4)));
    let hl_operand = Operand8::Target(Target8::Opcode(OpcodeRegister::IndirectHL));
    assert_eq!(decode_opcode(0xBE), Some((Operator::Cp(hl_operand), 8)));
}

#[test]
fn load_block_and_halt() {
    assert_eq!(decode_opcode(0x76), Some((Operator::Halt, 4)));
    assert_eq!(
        decode_opcode(0x46),
        Some((
            Operator::Ld(
                Target8::Opcode(OpcodeRegister::B),
                Operand8::Target(Target8::Opcode(OpcodeRegister::IndirectHL))
            ),
            8
        ))
    );
    assert_eq!(
        decode_opcode(0x7F),
        Some((
            Operator::Ld(
                Target8::Opcode(OpcodeRegister::A),
                Operand8::Target(Target8::Opcode(OpcodeRegister::A))
            ),
            4
        ))
    );
    assert_eq!(decode_opcode(0x70).map(|d| d.1), Some(8));
}

#[test]
fn conditional_operators_decode() {
    assert_eq!(decode_opcode(0xC2), Some((Operator::JpCc(Condition::NZ, Operand16::Literal), 12)));
    assert_eq!(decode_opcode(0x38), Some((Operator::JrCc(Condition::C, Operand8::Literal), 8)));
    assert_eq!(decode_opcode(0xC8), Some((Operator::RetCc(Condition::Z), 8)));
    assert_eq!(decode_opcode(0xF1), Some((Operator::Pop(Register16::AF), 12)));
}

#[test]
fn instruction_text() {
    let mut ctx = context_with_program(&[
        0xA8, 0xCB, 0x7C, 0x36, 0x00, 0xE0, 0x00, 0xC7, 0xF8, 0x00, 0x2A, 0xEE, 0x00, 0xD3, 0x09,
        0xCA, 0x00, 0x00,
    ]);
    let expected = [
        "(A8) XOR B",
        "(CB 7C) BIT 7, H",
        "(36) LD (HL), n",
        "(E0) LD ($FF00+n), A",
        "(C7) RST $00",
        "(F8) LD HL, SP+n",
        "(2A) LD A, (HLI)",
        "(EE) XOR n",
        "(D3) UNUSED $D3",
        "(09) ADD HL, BC",
        "(CA) JP Z, nn",
    ];
    for text in expected {
        let ins = Instruction::next(&mut ctx);
        assert_eq!(ins.to_string(), text);
        let pc = ctx.registers.pc;
        let length = match ins.operator {
            Operator::Ld(_, Operand8::Literal) | Operator::Xor(_, Operand8::Literal) => 1,
            Operator::Ld(Target8::Indirect(_), _) if ins.opcode == 0xE0 => 1,
            Operator::Ld16(_, Operand16::AddLiteral8(_)) => 1,
            Operator::JpCc(_, Operand16::Literal) => 2,
            _ => 0,
        };
        ctx.registers.pc = pc + length;
    }
}

#[test]
fn indirection_text() {
    assert_eq!(hl().to_string(), "(HL)");
    assert_eq!(hli().to_string(), "(HLI)");
    assert_eq!(hl().name(), "HL");
}

#[test]
fn memory_words_wrap_at_the_top() {
    let mut ctx = Context::new();
    ctx.write16(0xFFFF, 0xBEEF);
    assert_eq!(ctx.read(0xFFFF), 0xEF);
    assert_eq!(ctx.read(0x0000), 0xBE);
    assert_eq!(ctx.read16(0xFFFF), 0xBEEF);
}

#[test]
fn flags_byte_round_trip() {
    for b in 0..=255u8 {
        let f = Flags::from_byte(b);
        assert_eq!(f.to_byte(), b & 0xF0);
        assert_eq!(Flags::from_byte(f.to_byte()), f);
    }
}

#[test]
fn cb_page_is_regular() {
    let registers = [
        OpcodeRegister::B,
        OpcodeRegister::C,
        OpcodeRegister::D,
        OpcodeRegister::E,
        OpcodeRegister::H,
        OpcodeRegister::L,
        OpcodeRegister::IndirectHL,
        OpcodeRegister::A,
    ];
    for sub in 0..=255u8 {
        let mut ctx = context_with_program(&[0xCB, sub]);
        let ins = Instruction::next(&mut ctx);
        let o = registers[(sub % 8) as usize];
        let k = (sub / 8) % 8;
        let expected = match sub {
            0x00..=0x3F => [
                Operator::Rlc(o),
                Operator::Rrc(o),
                Operator::Rl(o),
                Operator::Rr(o),
                Operator::Sla(o),
                Operator::Sra(o),
                Operator::Swap(o),
                Operator::Srl(o),
            ][k as usize],
            0x40..=0x7F => Operator::Bit(k, o),
            0x80..=0xBF => Operator::Res(k, o),
            _ => Operator::SetBit(k, o),
        };
        assert_eq!(ins.operator, expected);
        assert_eq!(ins.cycles, if sub % 8 == 6 { 4 } else { 0 });
        assert_eq!(ctx.registers.pc, 2);
    }
}

#[test]
fn fetch_wraps_at_the_top_of_memory() {
    let mut ctx = Context::new();
    ctx.registers.pc = 0xFFFF;
    ctx.write(0xFFFF, 0x00);
    step(&mut ctx);
    assert_eq!(ctx.registers.pc, 0x0000);
}

#[test]
fn logic_text_names_the_operand() {
    let mut ctx = context_with_program(&[0xA6, 0xB1, 0xEE]);
    assert_eq!(Instruction::next(&mut ctx).to_string(), "(A6) AND (HL)");
    assert_eq!(Instruction::next(&mut ctx).to_string(), "(B1) OR C");
    assert_eq!(Instruction::next(&mut ctx).to_string(), "(EE) XOR n");
}
