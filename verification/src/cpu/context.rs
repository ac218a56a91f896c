//! The execution context of the CPU: its registers, the 64 KiB address space
//! and the interrupt and power state.

use vstd::prelude::*;
use crate::cpu::registers::{Registers, pair, high, low, wrap16};

verus! {

/// The number of addressable bytes.
pub const MEMORY_SIZE: usize = 65536;

/// The abstract state of a [`Context`].
pub struct ContextState {
    pub registers: Registers,
    pub memory: Seq<u8>,
    pub ime: bool,
    pub halted: bool,
    pub stopped: bool,
}

impl ContextState {
    /// The byte at `addr`.
    pub open spec fn read(self, addr: u16) -> u8 {
        self.memory[addr as int]
    }

    /// The state with `v` stored at `addr`.
    pub open spec fn write(self, addr: u16, v: u8) -> ContextState {
        ContextState { memory: self.memory.update(addr as int, v), ..self }
    }

    /// The little-endian 16-bit value at `addr` and the address after it.
    pub open spec fn read16(self, addr: u16) -> u16 {
        pair(self.read(wrap16(addr + 1)), self.read(addr))
    }

    /// The state with `v` stored little-endian at `addr` and the address after it.
    pub open spec fn write16(self, addr: u16, v: u16) -> ContextState {
        self.write(addr, low(v)).write(wrap16(addr + 1), high(v))
    }

    pub open spec fn with_registers(self, registers: Registers) -> ContextState {
        ContextState { registers, ..self }
    }

    /// The byte at the program counter, and the state with the program
    /// counter moved past it.
    pub open spec fn fetch(self) -> (u8, ContextState) {
        (
            self.read(self.registers.pc),
            self.with_registers(Registers { pc: wrap16(self.registers.pc + 1), ..self.registers }),
        )
    }

    /// The little-endian 16-bit value at the program counter, and the state
    /// with the program counter moved past it.
    pub open spec fn fetch16(self) -> (u16, ContextState) {
        let (lo, s1) = self.fetch();
        let (hi, s2) = s1.fetch();
        (pair(hi, lo), s2)
    }

    /// The state with every memory byte zero, every register zero,
    /// interrupts disabled and the CPU running.
    pub open spec fn initial() -> ContextState {
        ContextState {
            registers: Registers::zero(),
            memory: Seq::new(MEMORY_SIZE as nat, |i: int| 0u8),
            ime: false,
            halted: false,
            stopped: false,
        }
    }
}

/// Reading a byte just written gives it back, and other bytes are unchanged.
pub proof fn lemma_read_after_write(s: ContextState, addr: u16, v: u8, other: u16)
    requires
        s.memory.len() == MEMORY_SIZE,
    ensures
        s.write(addr, v).read(addr) == v,
        other != addr ==> s.write(addr, v).read(other) == s.read(other),
{
}

/// Reading a 16-bit value just written gives it back.
pub proof fn lemma_read16_after_write16(s: ContextState, addr: u16, v: u16)
    requires
        s.memory.len() == MEMORY_SIZE,
    ensures
        s.write16(addr, v).read16(addr) == v,
{
    assert(wrap16(addr + 1) != addr);
}

/// The registers, the memory, and the interrupt and power state of the CPU.
pub struct Context {
    pub registers: Registers,
    pub memory: Vec<u8>,
    /// Interrupt master enable.
    pub ime: bool,
    pub halted: bool,
    pub stopped: bool,
}

impl View for Context {
    type V = ContextState;

    open spec fn view(&self) -> ContextState {
        ContextState {
            registers: self.registers,
            memory: self.memory@,
            ime: self.ime,
            halted: self.halted,
            stopped: self.stopped,
        }
    }
}

impl Context {
    /// The memory covers the whole 16-bit address space.
    pub open spec fn wf(&self) -> bool {
        self.memory@.len() == MEMORY_SIZE
    }

    /// A context with zeroed memory and registers.
    pub fn new() -> (r: Context)
        ensures
            r.wf(),
            r@ == ContextState::initial(),
    {
        let memory = vec![0u8; MEMORY_SIZE];
        let r = Context {
            registers: Registers::new(),
            memory,
            ime: false,
            halted: false,
            stopped: false,
        };
        assert(r@.memory =~= ContextState::initial().memory);
        r
    }

    pub fn registers(&self) -> (r: &Registers)
        ensures
            *r == self.registers,
    {
        &self.registers
    }

    pub fn registers_mut(&mut self) -> (r: &mut Registers)
        ensures
            *r == old(self).registers,
            final(self)@ == old(self)@.with_registers(*final(r)),
            final(self).memory == old(self).memory,
    {
        &mut self.registers
    }

    pub fn set_flags(&mut self, flags: crate::cpu::registers::Flags)
        requires
            old(self).wf(),
        ensures
            final(self).wf(),
            final(self)@ == old(self)@.with_registers(Registers { f: flags, ..old(self)@.registers }),
    {
        self.registers.f = flags;
    }

    pub fn read(&self, addr: u16) -> (r: u8)
        requires
            self.wf(),
        ensures
            r == self@.read(addr),
    {
        self.memory[addr as usize]
    }

    pub fn write(&mut self, addr: u16, v: u8)
        requires
            old(self).wf(),
        ensures
            final(self).wf(),
            final(self)@ == old(self)@.write(addr, v),
    {
        self.memory.set(addr as usize, v);
    }

    pub fn read16(&self, addr: u16) -> (r: u16)
        requires
            self.wf(),
        ensures
            r == self@.read16(addr),
    {
        let lo = self.read(addr);
        let hi = self.read(addr.wrapping_add(1));
        crate::cpu::registers::join(hi, lo)
    }

    pub fn write16(&mut self, addr: u16, v: u16)
        requires
            old(self).wf(),
        ensures
            final(self).wf(),
            final(self)@ == old(self)@.write16(addr, v),
    {
        let (hi, lo) = crate::cpu::registers::split(v);
        self.write(addr, lo);
        self.write(addr.wrapping_add(1), hi);
    }

    /// Reads the byte at the program counter and moves the counter past it.
    pub fn fetch(&mut self) -> (r: u8)
        requires
            old(self).wf(),
        ensures
            final(self).wf(),
            (r, final(self)@) == old(self)@.fetch(),
    {
        let v = self.read(self.registers.pc);
        self.registers.pc = self.registers.pc.wrapping_add(1);
        v
    }

    /// Reads the opcode at the program counter and moves the counter past it.
    pub fn fetch_pc(&mut self) -> (r: u8)
        requires
            old(self).wf(),
        ensures
            final(self).wf(),
            (r, final(self)@) == old(self)@.fetch(),
    {
        self.fetch()
    }

    /// Reads the little-endian 16-bit value at the program counter and moves
    /// the counter past it.
    pub fn fetch16(&mut self) -> (r: u16)
        requires
            old(self).wf(),
        ensures
            final(self).wf(),
            (r, final(self)@) == old(self)@.fetch16(),
    {
        let lo = self.fetch();
        let hi = self.fetch();
        crate::cpu::registers::join(hi, lo)
    }
}

} // verus!
