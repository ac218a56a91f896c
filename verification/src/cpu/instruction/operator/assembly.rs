//! Operators as assembly text: a mnemonic followed by the operands,
//! separated by commas.

use vstd::prelude::*;
use crate::cpu::text::{decimal_digit, hex_byte, push_decimal_digit, push_hex_byte};
use super::Operator;

verus! {

/// The operands after the mnemonic: nothing, ` a`, or ` a, b`.
pub open spec fn join_arguments(args: Seq<Seq<char>>) -> Seq<char> {
    if args.len() == 0 {
        Seq::empty()
    } else if args.len() == 1 {
        " "@ + args[0]
    } else {
        " "@ + args[0] + ", "@ + args[1]
    }
}

/// A byte as a `$`-prefixed hexadecimal number.
pub open spec fn hex_argument(n: u8) -> Seq<char> {
    "$"@ + hex_byte(n)
}

/// The texts of a sequence of strings.
pub open spec fn texts(v: Seq<String>) -> Seq<Seq<char>> {
    v.map_values(|s: String| s@)
}

fn one(a: String) -> (r: Vec<String>)
    ensures
        texts(r@) == seq![a@],
{
    let mut r = Vec::new();
    r.push(a);
    assert(texts(r@) =~= seq![a@]);
    r
}

fn two(a: String, b: String) -> (r: Vec<String>)
    ensures
        texts(r@) == seq![a@, b@],
{
    let mut r = Vec::new();
    r.push(a);
    r.push(b);
    assert(texts(r@) =~= seq![a@, b@]);
    r
}

fn hex_string(n: u8) -> (r: String)
    ensures
        r@ == hex_argument(n),
{
    let mut s = String::from_str("$");
    push_hex_byte(&mut s, n);
    s
}

fn digit_string(n: u8) -> (r: String)
    requires
        n < 8,
    ensures
        r@ == seq![decimal_digit(n)],
{
    let mut s = String::new();
    push_decimal_digit(&mut s, n);
    s
}

impl Operator {
    pub open spec fn mnemonic(self) -> Seq<char> {
        match self {
            Operator::Halt => "HALT"@,
            Operator::Stop => "STOP"@,
            Operator::Nop => "NOP"@,
            Operator::Di => "DI"@,
            Operator::Ei => "EI"@,
            Operator::Daa => "DAA"@,
            Operator::Cpl => "CPL"@,
            Operator::Ccf => "CCF"@,
            Operator::Scf => "SCF"@,
            Operator::Rlca => "RLCA"@,
            Operator::Rla => "RLA"@,
            Operator::Rrca => "RRCA"@,
            Operator::Rra => "RRA"@,
            Operator::Ld(..) | Operator::Ld16(..) => "LD"@,
            Operator::Push(..) => "PUSH"@,
            Operator::Pop(..) => "POP"@,
            Operator::Add(..) | Operator::Add16(..) | Operator::AddSp(..) => "ADD"@,
            Operator::Adc(..) => "ADC"@,
            Operator::Sub(..) => "SUB"@,
            Operator::Sbc(..) => "SBC"@,
            Operator::And(..) => "AND"@,
            Operator::Or(..) => "OR"@,
            Operator::Xor(..) => "XOR"@,
            Operator::Cp(..) => "CP"@,
            Operator::Inc(..) | Operator::Inc16(..) => "INC"@,
            Operator::Dec(..) | Operator::Dec16(..) => "DEC"@,
            Operator::Jp(..) | Operator::JpCc(..) => "JP"@,
            Operator::Jr(..) | Operator::JrCc(..) => "JR"@,
            Operator::Call(..) | Operator::CallCc(..) => "CALL"@,
            Operator::Rst(..) => "RST"@,
            Operator::Ret | Operator::RetCc(..) => "RET"@,
            Operator::Reti => "RETI"@,
            Operator::Unused(..) => "UNUSED"@,
            Operator::Swap(..) => "SWAP"@,
            Operator::Rlc(..) => "RLC"@,
            Operator::Rl(..) => "RL"@,
            Operator::Rrc(..) => "RRC"@,
            Operator::Rr(..) => "RR"@,
            Operator::Sla(..) => "SLA"@,
            Operator::Sra(..) => "SRA"@,
            Operator::Srl(..) => "SRL"@,
            Operator::Bit(..) => "BIT"@,
            Operator::SetBit(..) => "SET"@,
            Operator::Res(..) => "RES"@,
        }
    }

    /// The operands as written after the mnemonic. The logic operators, SUB
    /// and CP name only their second operand, since the first is always A.
    pub open spec fn arguments(self) -> Seq<Seq<char>> {
        match self {
            Operator::Ld(t, o) | Operator::Add(t, o) | Operator::Adc(t, o) | Operator::Sbc(t, o) => seq![
                t.text(),
                o.text(),
            ],
            Operator::Ld16(t, o) => seq![t.text(), o.text()],
            Operator::Push(r) | Operator::Pop(r) | Operator::Inc16(r) | Operator::Dec16(r) => seq![
                r.text(),
            ],
            Operator::Sub(o) | Operator::Cp(o) | Operator::And(_, o) | Operator::Or(_, o)
            | Operator::Xor(_, o) => seq![o.text()],
            Operator::Inc(t) | Operator::Dec(t) => seq![t.text()],
            Operator::Add16(l, r) => seq![l.text(), r.text()],
            Operator::AddSp(o) => seq!["SP"@, o.text()],
            Operator::Jp(o) | Operator::Call(o) => seq![o.text()],
            Operator::JpCc(c, o) | Operator::CallCc(c, o) => seq![c.text(), o.text()],
            Operator::Jr(o) => seq![o.text()],
            Operator::JrCc(c, o) => seq![c.text(), o.text()],
            Operator::Rst(n) | Operator::Unused(n) => seq![hex_argument(n)],
            Operator::RetCc(c) => seq![c.text()],
            Operator::Swap(o) | Operator::Rlc(o) | Operator::Rl(o) | Operator::Rrc(o) | Operator::Rr(o)
            | Operator::Sla(o) | Operator::Sra(o) | Operator::Srl(o) => seq![o.text()],
            Operator::Bit(b, o) | Operator::SetBit(b, o) | Operator::Res(b, o) => seq![
                seq![decimal_digit(b)],
                o.text(),
            ],
            _ => Seq::empty(),
        }
    }

    /// The operator as assembly text.
    pub open spec fn text(self) -> Seq<char> {
        self.mnemonic() + join_arguments(self.arguments())
    }

    fn mnemonic_str(&self) -> (r: &'static str)
        ensures
            r@ == self.mnemonic(),
    {
        match self {
            Operator::Halt => "HALT",
            Operator::Stop => "STOP",
            Operator::Nop => "NOP",
            Operator::Di => "DI",
            Operator::Ei => "EI",
            Operator::Daa => "DAA",
            Operator::Cpl => "CPL",
            Operator::Ccf => "CCF",
            Operator::Scf => "SCF",
            Operator::Rlca => "RLCA",
            Operator::Rla => "RLA",
            Operator::Rrca => "RRCA",
            Operator::Rra => "RRA",
            Operator::Ld(..) | Operator::Ld16(..) => "LD",
            Operator::Push(..) => "PUSH",
            Operator::Pop(..) => "POP",
            Operator::Add(..) | Operator::Add16(..) | Operator::AddSp(..) => "ADD",
            Operator::Adc(..) => "ADC",
            Operator::Sub(..) => "SUB",
            Operator::Sbc(..) => "SBC",
            Operator::And(..) => "AND",
            Operator::Or(..) => "OR",
            Operator::Xor(..) => "XOR",
            Operator::Cp(..) => "CP",
            Operator::Inc(..) | Operator::Inc16(..) => "INC",
            Operator::Dec(..) | Operator::Dec16(..) => "DEC",
            Operator::Jp(..) | Operator::JpCc(..) => "JP",
            Operator::Jr(..) | Operator::JrCc(..) => "JR",
            Operator::Call(..) | Operator::CallCc(..) => "CALL",
            Operator::Rst(..) => "RST",
            Operator::Ret | Operator::RetCc(..) => "RET",
            Operator::Reti => "RETI",
            Operator::Unused(..) => "UNUSED",
            Operator::Swap(..) => "SWAP",
            Operator::Rlc(..) => "RLC",
            Operator::Rl(..) => "RL",
            Operator::Rrc(..) => "RRC",
            Operator::Rr(..) => "RR",
            Operator::Sla(..) => "SLA",
            Operator::Sra(..) => "SRA",
            Operator::Srl(..) => "SRL",
            Operator::Bit(..) => "BIT",
            Operator::SetBit(..) => "SET",
            Operator::Res(..) => "RES",
        }
    }

    fn argument_strings(&self) -> (r: Vec<String>)
        requires
            self.wf(),
        ensures
            texts(r@) == self.arguments(),
    {
        match *self {
            Operator::Ld(t, o) | Operator::Add(t, o) | Operator::Adc(t, o) | Operator::Sbc(t, o) => two(
                t.to_string(),
                o.to_string(),
            ),
            Operator::Ld16(t, o) => two(t.to_string(), o.to_string()),
            Operator::Push(r) | Operator::Pop(r) | Operator::Inc16(r) | Operator::Dec16(r) => one(
                String::from_str(r.name()),
            ),
            Operator::Sub(o) | Operator::Cp(o) | Operator::And(_, o) | Operator::Or(_, o)
            | Operator::Xor(_, o) => one(o.to_string()),
            Operator::Inc(t) | Operator::Dec(t) => one(t.to_string()),
            Operator::Add16(l, r) => two(String::from_str(l.name()), String::from_str(r.name())),
            Operator::AddSp(o) => two(String::from_str("SP"), o.to_string()),
            Operator::Jp(o) | Operator::Call(o) => one(o.to_string()),
            Operator::JpCc(c, o) | Operator::CallCc(c, o) => two(
                String::from_str(c.name()),
                o.to_string(),
            ),
            Operator::Jr(o) => one(o.to_string()),
            Operator::JrCc(c, o) => two(String::from_str(c.name()), o.to_string()),
            Operator::Rst(n) | Operator::Unused(n) => one(hex_string(n)),
            Operator::RetCc(c) => one(String::from_str(c.name())),
            Operator::Swap(o) | Operator::Rlc(o) | Operator::Rl(o) | Operator::Rrc(o) | Operator::Rr(o)
            | Operator::Sla(o) | Operator::Sra(o) | Operator::Srl(o) => one(
                String::from_str(o.name()),
            ),
            Operator::Bit(b, o) | Operator::SetBit(b, o) | Operator::Res(b, o) => two(
                digit_string(b),
                String::from_str(o.name()),
            ),
            _ => {
                let r = Vec::new();
                assert(texts(r@) =~= Seq::empty());
                r
            },
        }
    }

    /// The operator as assembly text, such as `AND B` or `LD A, (HLI)`.
    pub fn to_string(&self) -> (r: String)
        requires
            self.wf(),
        ensures
            r@ == self.text(),
    {
        let mut s = String::from_str(self.mnemonic_str());
        let args = self.argument_strings();
        proof {
            assert(self.arguments().len() <= 2);
            assert(args@.len() == self.arguments().len());
        }
        if args.len() >= 1 {
            s.append(" ");
            assert(args@[0]@ == self.arguments()[0]);
            s.append(args[0].as_str());
        }
        if args.len() >= 2 {
            s.append(", ");
            assert(args@[1]@ == self.arguments()[1]);
            s.append(args[1].as_str());
        }
        s
    }
}

} // verus!
