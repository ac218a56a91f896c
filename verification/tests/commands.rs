use gameboy_core::cpu::command::operator::logic::{and, or, xor};
use gameboy_core::cpu::command::operator::Logic;
use gameboy_core::cpu::context::Context;
use gameboy_core::cpu::instruction::operand::{Operand8, Register8, Target8};
use gameboy_core::cpu::instruction::operator;
use gameboy_core::cpu::registers::Flags;

fn b() -> Operand8 {
    Operand8::Target(Target8::Register(Register8::B))
}

#[test]
fn command_mnemonics_and_targets() {
    let and_b = and(b());
    assert_eq!(and_b.mnemonic, "AND");
    assert_eq!(and_b.logic, Logic::And);
    assert_eq!(and_b.lhs, Target8::Register(Register8::A));
    assert_eq!(or(b()).mnemonic, "OR");
    assert_eq!(xor(b()).mnemonic, "XOR");
}

#[test]
fn command_and_sets_flags() {
    let mut ctx = Context::new();
    ctx.registers.a = 0xCC;
    ctx.registers.b = 0x33;
    and(b()).execute(&mut ctx);
    assert_eq!(ctx.registers.a, 0);
    assert_eq!(ctx.registers.f, Flags { z: true, n: false, h: true, c: false });
}

#[test]
fn command_or_and_xor() {
    let mut ctx = Context::new();
    ctx.registers.a = 0xC0;
    ctx.registers.b = 0x0C;
    or(b()).execute(&mut ctx);
    assert_eq!(ctx.registers.a, 0xCC);
    xor(b()).execute(&mut ctx);
    assert_eq!(ctx.registers.a, 0xC0);
    assert_eq!(ctx.registers.f, Flags { z: false, n: false, h: false, c: false });
}

#[test]
fn commands_match_instructions() {
    for (a, x) in [(0x00u8, 0x00u8), (0xF0, 0x0F), (0xAA, 0xFF), (0x81, 0x18)] {
        let pairs = [
            (and(b()), operator::and(b())),
            (or(b()), operator::or(b())),
            (xor(b()), operator::xor(b())),
        ];
        for (command, instruction) in pairs {
            let mut left = Context::new();
            left.registers.a = a;
            left.registers.b = x;
            let mut right = Context::new();
            right.registers.a = a;
            right.registers.b = x;
            command.execute(&mut left);
            instruction.execute(&mut right);
            assert_eq!(left.registers, right.registers);
        }
    }
}
