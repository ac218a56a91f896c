//! The operands of instructions: registers, register pairs, immediate values
//! and memory locations, with what reading and writing them does.

pub mod indirection;
pub mod stack_pointer;

use vstd::prelude::*;
use crate::cpu::context::{Context, ContextState};
use crate::cpu::registers::{Flags, Registers};

pub use indirection::Indirection;
pub use stack_pointer::AddLiteral8;

verus! {

/// An 8-bit register.
#[derive(Clone, Copy, Debug, PartialEq, Eq, Structural)]
pub enum Register8 {
    A,
    B,
    C,
    D,
    E,
    H,
    L,
}

/// A 16-bit register or register pair.
#[derive(Clone, Copy, Debug, PartialEq, Eq, Structural)]
pub enum Register16 {
    AF,
    BC,
    DE,
    HL,
    SP,
}

/// The value of an 8-bit register.
pub open spec fn get8(r: Registers, reg: Register8) -> u8 {
    match reg {
        Register8::A => r.a,
        Register8::B => r.b,
        Register8::C => r.c,
        Register8::D => r.d,
        Register8::E => r.e,
        Register8::H => r.h,
        Register8::L => r.l,
    }
}

/// The registers with an 8-bit register set to `v`.
pub open spec fn set8(r: Registers, reg: Register8, v: u8) -> Registers {
    match reg {
        Register8::A => Registers { a: v, ..r },
        Register8::B => Registers { b: v, ..r },
        Register8::C => Registers { c: v, ..r },
        Register8::D => Registers { d: v, ..r },
        Register8::E => Registers { e: v, ..r },
        Register8::H => Registers { h: v, ..r },
        Register8::L => Registers { l: v, ..r },
    }
}

/// The value of a 16-bit register.
pub open spec fn get16(r: Registers, reg: Register16) -> u16 {
    match reg {
        Register16::AF => r.af_value(),
        Register16::BC => r.bc_value(),
        Register16::DE => r.de_value(),
        Register16::HL => r.hl_value(),
        Register16::SP => r.sp,
    }
}

/// The registers with a 16-bit register set to `v`.
pub open spec fn set16(r: Registers, reg: Register16, v: u16) -> Registers {
    match reg {
        Register16::AF => r.with_af(v),
        Register16::BC => r.with_bc(v),
        Register16::DE => r.with_de(v),
        Register16::HL => r.with_hl(v),
        Register16::SP => Registers { sp: v, ..r },
    }
}

impl Register8 {
    pub fn get(&self, r: &Registers) -> (v: u8)
        ensures
            v == get8(*r, *self),
    {
        match self {
            Register8::A => r.a,
            Register8::B => r.b,
            Register8::C => r.c,
            Register8::D => r.d,
            Register8::E => r.e,
            Register8::H => r.h,
            Register8::L => r.l,
        }
    }

    pub fn set(&self, r: &mut Registers, v: u8)
        ensures
            *final(r) == set8(*old(r), *self, v),
    {
        match self {
            Register8::A => r.a = v,
            Register8::B => r.b = v,
            Register8::C => r.c = v,
            Register8::D => r.d = v,
            Register8::E => r.e = v,
            Register8::H => r.h = v,
            Register8::L => r.l = v,
        }
    }
}

impl Register16 {
    pub fn get(&self, r: &Registers) -> (v: u16)
        ensures
            v == get16(*r, *self),
    {
        match self {
            Register16::AF => r.af(),
            Register16::BC => r.bc(),
            Register16::DE => r.de(),
            Register16::HL => r.hl(),
            Register16::SP => r.sp,
        }
    }

    pub fn set(&self, r: &mut Registers, v: u16)
        ensures
            *final(r) == set16(*old(r), *self, v),
    {
        match self {
            Register16::AF => r.set_af(v),
            Register16::BC => r.set_bc(v),
            Register16::DE => r.set_de(v),
            Register16::HL => r.set_hl(v),
            Register16::SP => r.sp = v,
        }
    }
}

/// Whether a [`OpcodeRegister`] names a register or the byte addressed by HL.
#[derive(Clone, Copy, Debug, PartialEq, Eq, Structural)]
pub enum OperandType {
    Register,
    Indirection,
}

/// The operand that the low three bits of an opcode select: B, C, D, E, H, L,
/// the byte at (HL), or A.
#[derive(Clone, Copy, Debug, PartialEq, Eq, Structural)]
pub enum OpcodeRegister {
    B,
    C,
    D,
    E,
    H,
    L,
    IndirectHL,
    A,
}

impl OpcodeRegister {
    /// The operand selected by the low three bits of `code`.
    pub open spec fn of_code(code: u8) -> OpcodeRegister {
        let k = code % 8;
        if k == 0 {
            OpcodeRegister::B
        } else if k == 1 {
            OpcodeRegister::C
        } else if k == 2 {
            OpcodeRegister::D
        } else if k == 3 {
            OpcodeRegister::E
        } else if k == 4 {
            OpcodeRegister::H
        } else if k == 5 {
            OpcodeRegister::L
        } else if k == 6 {
            OpcodeRegister::IndirectHL
        } else {
            OpcodeRegister::A
        }
    }

    #[verifier::when_used_as_spec(of_code)]
    pub fn from_code(code: u8) -> (r: OpcodeRegister)
        ensures
            r == OpcodeRegister::of_code(code),
    {
        let k = code % 8;
        if k == 0 {
            OpcodeRegister::B
        } else if k == 1 {
            OpcodeRegister::C
        } else if k == 2 {
            OpcodeRegister::D
        } else if k == 3 {
            OpcodeRegister::E
        } else if k == 4 {
            OpcodeRegister::H
        } else if k == 5 {
            OpcodeRegister::L
        } else if k == 6 {
            OpcodeRegister::IndirectHL
        } else {
            OpcodeRegister::A
        }
    }

    pub open spec fn kind(self) -> OperandType {
        match self {
            OpcodeRegister::IndirectHL => OperandType::Indirection,
            _ => OperandType::Register,
        }
    }

    pub fn operand_type(&self) -> (r: OperandType)
        ensures
            r == self.kind(),
    {
        match self {
            OpcodeRegister::IndirectHL => OperandType::Indirection,
            _ => OperandType::Register,
        }
    }

    /// The register that this operand names, if it names one.
    pub open spec fn register(self) -> Option<Register8> {
        match self {
            OpcodeRegister::B => Some(Register8::B),
            OpcodeRegister::C => Some(Register8::C),
            OpcodeRegister::D => Some(Register8::D),
            OpcodeRegister::E => Some(Register8::E),
            OpcodeRegister::H => Some(Register8::H),
            OpcodeRegister::L => Some(Register8::L),
            OpcodeRegister::A => Some(Register8::A),
            OpcodeRegister::IndirectHL => None,
        }
    }
}

/// A condition that a conditional jump, call or return tests.
#[derive(Clone, Copy, Debug, PartialEq, Eq, Structural)]
pub enum Condition {
    NZ,
    Z,
    NC,
    C,
}

impl Condition {
    pub open spec fn holds(self, f: Flags) -> bool {
        match self {
            Condition::NZ => !f.z,
            Condition::Z => f.z,
            Condition::NC => !f.c,
            Condition::C => f.c,
        }
    }

    pub fn test(&self, f: &Flags) -> (r: bool)
        ensures
            r == self.holds(*f),
    {
        match self {
            Condition::NZ => !f.z,
            Condition::Z => f.z,
            Condition::NC => !f.c,
            Condition::C => f.c,
        }
    }
}

/// Where an 8-bit value is stored: a register or a memory address.
#[derive(Clone, Copy, Debug, PartialEq, Eq, Structural)]
pub enum Place8 {
    Register(Register8),
    Memory(u16),
}

impl Place8 {
    pub open spec fn value(self, s: ContextState) -> u8 {
        match self {
            Place8::Register(r) => get8(s.registers, r),
            Place8::Memory(addr) => s.read(addr),
        }
    }

    pub open spec fn store(self, s: ContextState, v: u8) -> ContextState {
        match self {
            Place8::Register(r) => s.with_registers(set8(s.registers, r, v)),
            Place8::Memory(addr) => s.write(addr, v),
        }
    }

    pub fn get(&self, ctx: &Context) -> (v: u8)
        requires
            ctx.wf(),
        ensures
            v == self.value(ctx@),
    {
        match self {
            Place8::Register(r) => r.get(&ctx.registers),
            Place8::Memory(addr) => ctx.read(*addr),
        }
    }

    pub fn put(&self, ctx: &mut Context, v: u8)
        requires
            old(ctx).wf(),
        ensures
            final(ctx).wf(),
            final(ctx)@ == self.store(old(ctx)@, v),
    {
        match self {
            Place8::Register(r) => r.set(&mut ctx.registers, v),
            Place8::Memory(addr) => ctx.write(*addr, v),
        }
    }
}

/// Where a 16-bit value is stored: a register pair or a memory address.
#[derive(Clone, Copy, Debug, PartialEq, Eq, Structural)]
pub enum Place16 {
    Register(Register16),
    Memory(u16),
}

impl Place16 {
    pub open spec fn value(self, s: ContextState) -> u16 {
        match self {
            Place16::Register(r) => get16(s.registers, r),
            Place16::Memory(addr) => s.read16(addr),
        }
    }

    pub open spec fn store(self, s: ContextState, v: u16) -> ContextState {
        match self {
            Place16::Register(r) => s.with_registers(set16(s.registers, r, v)),
            Place16::Memory(addr) => s.write16(addr, v),
        }
    }

    pub fn get(&self, ctx: &Context) -> (v: u16)
        requires
            ctx.wf(),
        ensures
            v == self.value(ctx@),
    {
        match self {
            Place16::Register(r) => r.get(&ctx.registers),
            Place16::Memory(addr) => ctx.read16(*addr),
        }
    }

    pub fn put(&self, ctx: &mut Context, v: u16)
        requires
            old(ctx).wf(),
        ensures
            final(ctx).wf(),
            final(ctx)@ == self.store(old(ctx)@, v),
    {
        match self {
            Place16::Register(r) => r.set(&mut ctx.registers, v),
            Place16::Memory(addr) => ctx.write16(*addr, v),
        }
    }
}

/// An 8-bit operand that can be read and written.
#[derive(Clone, Copy, Debug, PartialEq, Eq, Structural)]
pub enum Target8 {
    Register(Register8),
    Opcode(OpcodeRegister),
    Indirect(Indirection),
}

impl Target8 {
    /// Where the operand is stored, and the state after working that out
    /// (an indirection may fetch an address or step HL).
    #[verifier::opaque]
    pub open spec fn locate(self, s: ContextState) -> (Place8, ContextState) {
        match self {
            Target8::Register(r) => (Place8::Register(r), s),
            Target8::Opcode(o) => match o.register() {
                Some(r) => (Place8::Register(r), s),
                None => (Place8::Memory(s.registers.hl_value()), s),
            },
            Target8::Indirect(i) => {
                let (addr, s1) = i.address_of(s);
                (Place8::Memory(addr), s1)
            },
        }
    }

    /// Writing `v` to the operand.
    pub open spec fn store(self, s: ContextState, v: u8) -> ContextState {
        let (p, s1) = self.locate(s);
        p.store(s1, v)
    }

    pub fn prepare(&self, ctx: &mut Context) -> (p: Place8)
        requires
            old(ctx).wf(),
        ensures
            final(ctx).wf(),
            (p, final(ctx)@) == self.locate(old(ctx)@),
    {
        proof {
            reveal(Target8::locate);
        }
        match self {
            Target8::Register(r) => Place8::Register(*r),
            Target8::Opcode(o) => match o {
                OpcodeRegister::B => Place8::Register(Register8::B),
                OpcodeRegister::C => Place8::Register(Register8::C),
                OpcodeRegister::D => Place8::Register(Register8::D),
                OpcodeRegister::E => Place8::Register(Register8::E),
                OpcodeRegister::H => Place8::Register(Register8::H),
                OpcodeRegister::L => Place8::Register(Register8::L),
                OpcodeRegister::A => Place8::Register(Register8::A),
                OpcodeRegister::IndirectHL => Place8::Memory(ctx.registers.hl()),
            },
            Target8::Indirect(i) => Place8::Memory(i.address(ctx)),
        }
    }

    /// Works out where the operand is stored and reads it.
    pub fn prepare_and_read(&self, ctx: &mut Context) -> (r: (u8, Place8))
        requires
            old(ctx).wf(),
        ensures
            final(ctx).wf(),
            (r.1, final(ctx)@) == self.locate(old(ctx)@),
            r.0 == r.1.value(final(ctx)@),
    {
        let p = self.prepare(ctx);
        (p.get(ctx), p)
    }

    pub fn write(&self, ctx: &mut Context, v: u8)
        requires
            old(ctx).wf(),
        ensures
            final(ctx).wf(),
            final(ctx)@ == self.store(old(ctx)@, v),
    {
        let p = self.prepare(ctx);
        p.put(ctx, v);
    }
}

/// An 8-bit operand that can be read.
#[derive(Clone, Copy, Debug, PartialEq, Eq, Structural)]
pub enum Operand8 {
    Target(Target8),
    /// The byte that follows the opcode.
    Literal,
}

impl Operand8 {
    /// The value read and the state after reading it.
    #[verifier::opaque]
    pub open spec fn load(self, s: ContextState) -> (u8, ContextState) {
        match self {
            Operand8::Target(t) => {
                let (p, s1) = t.locate(s);
                (p.value(s1), s1)
            },
            Operand8::Literal => s.fetch(),
        }
    }

    pub fn read(&self, ctx: &mut Context) -> (v: u8)
        requires
            old(ctx).wf(),
        ensures
            final(ctx).wf(),
            (v, final(ctx)@) == self.load(old(ctx)@),
    {
        proof {
            reveal(Operand8::load);
        }
        match self {
            Operand8::Target(t) => {
                let (v, _p) = t.prepare_and_read(ctx);
                v
            },
            Operand8::Literal => ctx.fetch(),
        }
    }
}

/// A 16-bit operand that can be read and written.
#[derive(Clone, Copy, Debug, PartialEq, Eq, Structural)]
pub enum Target16 {
    Register(Register16),
    Indirect(Indirection),
}

impl Target16 {
    #[verifier::opaque]
    pub open spec fn locate(self, s: ContextState) -> (Place16, ContextState) {
        match self {
            Target16::Register(r) => (Place16::Register(r), s),
            Target16::Indirect(i) => {
                let (addr, s1) = i.address_of(s);
                (Place16::Memory(addr), s1)
            },
        }
    }

    pub open spec fn store(self, s: ContextState, v: u16) -> ContextState {
        let (p, s1) = self.locate(s);
        p.store(s1, v)
    }

    pub fn prepare(&self, ctx: &mut Context) -> (p: Place16)
        requires
            old(ctx).wf(),
        ensures
            final(ctx).wf(),
            (p, final(ctx)@) == self.locate(old(ctx)@),
    {
        proof {
            reveal(Target16::locate);
        }
        match self {
            Target16::Register(r) => Place16::Register(*r),
            Target16::Indirect(i) => Place16::Memory(i.address(ctx)),
        }
    }

    pub fn write(&self, ctx: &mut Context, v: u16)
        requires
            old(ctx).wf(),
        ensures
            final(ctx).wf(),
            final(ctx)@ == self.store(old(ctx)@, v),
    {
        let p = self.prepare(ctx);
        p.put(ctx, v);
    }
}

/// A 16-bit operand that can be read.
#[derive(Clone, Copy, Debug, PartialEq, Eq, Structural)]
pub enum Operand16 {
    Target(Target16),
    /// The little-endian word that follows the opcode.
    Literal,
    /// SP plus the signed byte that follows the opcode.
    AddLiteral8(AddLiteral8),
}

impl Operand16 {
    #[verifier::opaque]
    pub open spec fn load(self, s: ContextState) -> (u16, ContextState) {
        match self {
            Operand16::Target(t) => {
                let (p, s1) = t.locate(s);
                (p.value(s1), s1)
            },
            Operand16::Literal => s.fetch16(),
            Operand16::AddLiteral8(a) => a.load(s),
        }
    }

    pub fn read(&self, ctx: &mut Context) -> (v: u16)
        requires
            old(ctx).wf(),
        ensures
            final(ctx).wf(),
            (v, final(ctx)@) == self.load(old(ctx)@),
    {
        proof {
            reveal(Operand16::load);
        }
        match self {
            Operand16::Target(t) => {
                let p = t.prepare(ctx);
                p.get(ctx)
            },
            Operand16::Literal => ctx.fetch16(),
            Operand16::AddLiteral8(a) => a.read(ctx),
        }
    }
}

/// A register as a target.
pub open spec fn target_register(r: Register8) -> Target8 {
    Target8::Register(r)
}

/// A register as a source.
pub open spec fn source_register(r: Register8) -> Operand8 {
    Operand8::Target(Target8::Register(r))
}

#[verifier::when_used_as_spec(target_register)]
pub fn register(r: Register8) -> (t: Target8)
    ensures
        t == target_register(r),
{
    Target8::Register(r)
}

#[verifier::when_used_as_spec(source_register)]
pub fn read_register(r: Register8) -> (o: Operand8)
    ensures
        o == source_register(r),
{
    Operand8::Target(Target8::Register(r))
}

/// A memory operand as a target.
pub open spec fn indirect_target(addressing: indirection::Addressing) -> Target8 {
    Target8::Indirect(Indirection { addressing })
}

/// A memory operand as a source.
pub open spec fn indirect_source(addressing: indirection::Addressing) -> Operand8 {
    Operand8::Target(Target8::Indirect(Indirection { addressing }))
}

/// An operand selected by opcode bits, as a source.
pub open spec fn opcode_source(o: OpcodeRegister) -> Operand8 {
    Operand8::Target(Target8::Opcode(o))
}

#[verifier::when_used_as_spec(indirect_target)]
pub fn indirect(addressing: indirection::Addressing) -> (t: Target8)
    ensures
        t == indirect_target(addressing),
{
    Target8::Indirect(Indirection { addressing })
}

#[verifier::when_used_as_spec(indirect_source)]
pub fn read_indirect(addressing: indirection::Addressing) -> (o: Operand8)
    ensures
        o == indirect_source(addressing),
{
    Operand8::Target(Target8::Indirect(Indirection { addressing }))
}

#[verifier::when_used_as_spec(opcode_source)]
pub fn read_opcode(o: OpcodeRegister) -> (r: Operand8)
    ensures
        r == opcode_source(o),
{
    Operand8::Target(Target8::Opcode(o))
}

impl Register8 {
    pub open spec fn text(self) -> Seq<char> {
        match self {
            Register8::A => "A"@,
            Register8::B => "B"@,
            Register8::C => "C"@,
            Register8::D => "D"@,
            Register8::E => "E"@,
            Register8::H => "H"@,
            Register8::L => "L"@,
        }
    }

    pub fn name(&self) -> (r: &'static str)
        ensures
            r@ == self.text(),
    {
        match self {
            Register8::A => "A",
            Register8::B => "B",
            Register8::C => "C",
            Register8::D => "D",
            Register8::E => "E",
            Register8::H => "H",
            Register8::L => "L",
        }
    }
}

impl Register16 {
    pub open spec fn text(self) -> Seq<char> {
        match self {
            Register16::AF => "AF"@,
            Register16::BC => "BC"@,
            Register16::DE => "DE"@,
            Register16::HL => "HL"@,
            Register16::SP => "SP"@,
        }
    }

    pub fn name(&self) -> (r: &'static str)
        ensures
            r@ == self.text(),
    {
        match self {
            Register16::AF => "AF",
            Register16::BC => "BC",
            Register16::DE => "DE",
            Register16::HL => "HL",
            Register16::SP => "SP",
        }
    }
}

impl OpcodeRegister {
    pub open spec fn text(self) -> Seq<char> {
        match self {
            OpcodeRegister::B => "B"@,
            OpcodeRegister::C => "C"@,
            OpcodeRegister::D => "D"@,
            OpcodeRegister::E => "E"@,
            OpcodeRegister::H => "H"@,
            OpcodeRegister::L => "L"@,
            OpcodeRegister::IndirectHL => "(HL)"@,
            OpcodeRegister::A => "A"@,
        }
    }

    pub fn name(&self) -> (r: &'static str)
        ensures
            r@ == self.text(),
    {
        match self {
            OpcodeRegister::B => "B",
            OpcodeRegister::C => "C",
            OpcodeRegister::D => "D",
            OpcodeRegister::E => "E",
            OpcodeRegister::H => "H",
            OpcodeRegister::L => "L",
            OpcodeRegister::IndirectHL => "(HL)",
            OpcodeRegister::A => "A",
        }
    }
}

impl Condition {
    pub open spec fn text(self) -> Seq<char> {
        match self {
            Condition::NZ => "NZ"@,
            Condition::Z => "Z"@,
            Condition::NC => "NC"@,
            Condition::C => "C"@,
        }
    }

    pub fn name(&self) -> (r: &'static str)
        ensures
            r@ == self.text(),
    {
        match self {
            Condition::NZ => "NZ",
            Condition::Z => "Z",
            Condition::NC => "NC",
            Condition::C => "C",
        }
    }
}

impl Target8 {
    pub open spec fn text(self) -> Seq<char> {
        match self {
            Target8::Register(r) => r.text(),
            Target8::Opcode(o) => o.text(),
            Target8::Indirect(i) => i.text(),
        }
    }

    pub fn to_string(&self) -> (r: String)
        ensures
            r@ == self.text(),
    {
        match self {
            Target8::Register(r) => String::from_str(r.name()),
            Target8::Opcode(o) => String::from_str(o.name()),
            Target8::Indirect(i) => i.to_string(),
        }
    }
}

impl Operand8 {
    /// The operand as written in assembly; the immediate byte is `n`.
    pub open spec fn text(self) -> Seq<char> {
        match self {
            Operand8::Target(t) => t.text(),
            Operand8::Literal => "n"@,
        }
    }

    pub fn to_string(&self) -> (r: String)
        ensures
            r@ == self.text(),
    {
        match self {
            Operand8::Target(t) => t.to_string(),
            Operand8::Literal => String::from_str("n"),
        }
    }
}

impl Target16 {
    pub open spec fn text(self) -> Seq<char> {
        match self {
            Target16::Register(r) => r.text(),
            Target16::Indirect(i) => i.text(),
        }
    }

    pub fn to_string(&self) -> (r: String)
        ensures
            r@ == self.text(),
    {
        match self {
            Target16::Register(r) => String::from_str(r.name()),
            Target16::Indirect(i) => i.to_string(),
        }
    }
}

impl Operand16 {
    /// The operand as written in assembly; the immediate word is `nn`.
    pub open spec fn text(self) -> Seq<char> {
        match self {
            Operand16::Target(t) => t.text(),
            Operand16::Literal => "nn"@,
            Operand16::AddLiteral8(a) => a.text(),
        }
    }

    pub fn to_string(&self) -> (r: String)
        ensures
            r@ == self.text(),
    {
        match self {
            Operand16::Target(t) => t.to_string(),
            Operand16::Literal => String::from_str("nn"),
            Operand16::AddLiteral8(a) => a.to_string(),
        }
    }
}

} // verus!
