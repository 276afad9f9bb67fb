//! The machine: status register, program counter, seventeen general-purpose
//! registers and a memory of one word for each 16-bit address.

use vstd::prelude::*;

use crate::flags::Flag;
use crate::flags::StatusFlags;

verus! {

/// The value that a register or a memory cell holds.
pub type Register = u16;

/// The number of general-purpose registers.
pub const REGISTER_COUNT: usize = 17;

/// The number of memory cells: one for each 16-bit address.
pub const MEMORY_SIZE: usize = 65536;

/// The memory of the machine.
pub type Memory = [u16; MEMORY_SIZE];

/// The name of a general-purpose register.
#[derive(Clone, Copy, Debug, PartialEq, Eq, Structural)]
pub enum RegisterId {
    /// Register 0.
    R0,
    /// Register 1.
    R1,
    /// Register 2.
    R2,
    /// Register 3.
    R3,
    /// Register 4.
    R4,
    /// Register 5.
    R5,
    /// Register 6.
    R6,
    /// Register 7.
    R7,
    /// Register 8.
    R8,
    /// Register 9.
    R9,
    /// Register 10.
    R10,
    /// Register 11.
    R11,
    /// Register 12.
    R12,
    /// Register 13.
    R13,
    /// Register 14.
    R14,
    /// Register 15.
    R15,
    /// Register 16.
    R16,
}

impl RegisterId {
    /// The place of the register in the register file.
    pub open spec fn spec_index(self) -> int {
        match self {
            RegisterId::R0 => 0,
            RegisterId::R1 => 1,
            RegisterId::R2 => 2,
            RegisterId::R3 => 3,
            RegisterId::R4 => 4,
            RegisterId::R5 => 5,
            RegisterId::R6 => 6,
            RegisterId::R7 => 7,
            RegisterId::R8 => 8,
            RegisterId::R9 => 9,
            RegisterId::R10 => 10,
            RegisterId::R11 => 11,
            RegisterId::R12 => 12,
            RegisterId::R13 => 13,
            RegisterId::R14 => 14,
            RegisterId::R15 => 15,
            RegisterId::R16 => 16,
        }
    }

    /// The place of the register in the register file, from 0 to 16.
    pub fn index(self) -> (index: usize)
        ensures
            index == self.spec_index(),
    {
        match self {
            RegisterId::R0 => 0,
            RegisterId::R1 => 1,
            RegisterId::R2 => 2,
            RegisterId::R3 => 3,
            RegisterId::R4 => 4,
            RegisterId::R5 => 5,
            RegisterId::R6 => 6,
            RegisterId::R7 => 7,
            RegisterId::R8 => 8,
            RegisterId::R9 => 9,
            RegisterId::R10 => 10,
            RegisterId::R11 => 11,
            RegisterId::R12 => 12,
            RegisterId::R13 => 13,
            RegisterId::R14 => 14,
            RegisterId::R15 => 15,
            RegisterId::R16 => 16,
        }
    }

    /// The register at a place of the register file, if there is one: the
    /// places are 0 to 16.
    pub fn from_index(index: usize) -> (r: Option<RegisterId>)
        ensures
            r is Some <==> index < REGISTER_COUNT,
            r matches Some(register) ==> register.spec_index() == index,
    {
        match index {
            0 => Some(RegisterId::R0),
            1 => Some(RegisterId::R1),
            2 => Some(RegisterId::R2),
            3 => Some(RegisterId::R3),
            4 => Some(RegisterId::R4),
            5 => Some(RegisterId::R5),
            6 => Some(RegisterId::R6),
            7 => Some(RegisterId::R7),
            8 => Some(RegisterId::R8),
            9 => Some(RegisterId::R9),
            10 => Some(RegisterId::R10),
            11 => Some(RegisterId::R11),
            12 => Some(RegisterId::R12),
            13 => Some(RegisterId::R13),
            14 => Some(RegisterId::R14),
            15 => Some(RegisterId::R15),
            16 => Some(RegisterId::R16),
            _ => None,
        }
    }
}

/// What a machine holds, as mathematical values.
#[verifier::ext_equal]
pub struct MachineView {
    /// The flags that are set in the status register.
    pub flags: Set<Flag>,
    /// The program counter.
    pub pc: u16,
    /// The general-purpose registers, in order.
    pub registers: Seq<u16>,
    /// The memory cells, by address.
    pub memory: Seq<u16>,
}

impl MachineView {
    /// The state with every flag clear and every register and cell zero.
    pub open spec fn zeroed() -> MachineView {
        MachineView {
            flags: Set::empty(),
            pc: 0,
            registers: Seq::new(REGISTER_COUNT as nat, |i: int| 0u16),
            memory: Seq::new(MEMORY_SIZE as nat, |a: int| 0u16),
        }
    }

    /// This state with `value` in the register at `index`.
    pub open spec fn with_register(self, index: int, value: u16) -> MachineView {
        MachineView { registers: self.registers.update(index, value), ..self }
    }

    /// This state with `value` in the memory cell at `address`.
    pub open spec fn with_memory(self, address: int, value: u16) -> MachineView {
        MachineView { memory: self.memory.update(address, value), ..self }
    }
}

/// The state of one HERA virtual machine.
///
/// A machine is a plain value: a copy shares nothing with the machine it was
/// copied from. A new machine comes from `new` or `default` and from nowhere
/// else, so every machine starts out zeroed.
#[derive(Copy)]
#[non_exhaustive]
pub struct HeraVM {
    /// Status flags.
    pub status_flags: StatusFlags,
    /// Program counter.
    pub pc: Register,
    /// Register 0. It is a register like the others: nothing keeps it at
    /// zero.
    pub r0: Register,
    /// Register 1.
    pub r1: Register,
    /// Register 2.
    pub r2: Register,
    /// Register 3.
    pub r3: Register,
    /// Register 4.
    pub r4: Register,
    /// Register 5.
    pub r5: Register,
    /// Register 6.
    pub r6: Register,
    /// Register 7.
    pub r7: Register,
    /// Register 8.
    pub r8: Register,
    /// Register 9.
    pub r9: Register,
    /// Register 10.
    pub r10: Register,
    /// Register 11.
    pub r11: Register,
    /// Register 12.
    pub r12: Register,
    /// Register 13.
    pub r13: Register,
    /// Register 14.
    pub r14: Register,
    /// Register 15.
    pub r15: Register,
    /// Register 16.
    pub r16: Register,
    /// Memory.
    pub memory: Memory,
}

impl View for HeraVM {
    type V = MachineView;

    open spec fn view(&self) -> MachineView {
        MachineView {
            flags: self.status_flags@,
            pc: self.pc,
            registers: seq![
                self.r0, self.r1, self.r2, self.r3, self.r4, self.r5, self.r6, self.r7, self.r8,
                self.r9, self.r10, self.r11, self.r12, self.r13, self.r14, self.r15, self.r16,
            ],
            memory: self.memory@,
        }
    }
}

impl HeraVM {
    /// A machine with every flag clear, the program counter at zero, and
    /// zero in every register and in every memory cell.
    pub fn new() -> (vm: HeraVM)
        ensures
            vm@ == MachineView::zeroed(),
    {
        HeraVM::default()
    }

    /// Every machine has seventeen registers and 65536 memory cells.
    pub proof fn lemma_sizes(vm: HeraVM)
        ensures
            vm@.registers.len() == REGISTER_COUNT,
            vm@.memory.len() == MEMORY_SIZE,
    {
    }

    /// A copy is independent of the machine that it was made from. Let
    /// `copy` be a copy of `machine`. After a write to one register of the
    /// copy, the copy has the new value in that register and agrees with
    /// `machine` in everything else; after a write to one memory cell of
    /// the copy, likewise. The machine itself holds what it held.
    pub proof fn lemma_copy_is_independent(
        machine: HeraVM,
        copy: HeraVM,
        register: RegisterId,
        address: u16,
        value: u16,
    )
        requires
            copy == machine,
        ensures
            ({
                let written = copy@.with_register(register.spec_index(), value);
                &&& written.registers[register.spec_index()] == value
                &&& forall|i: int|
                    0 <= i < REGISTER_COUNT && i != register.spec_index()
                        ==> written.registers[i] == machine@.registers[i]
                &&& written.memory == machine@.memory
                &&& written.pc == machine@.pc
                &&& written.flags == machine@.flags
            }),
            ({
                let written = copy@.with_memory(address as int, value);
                &&& written.memory[address as int] == value
                &&& forall|a: int|
                    0 <= a < MEMORY_SIZE && a != address
                        ==> written.memory[a] == machine@.memory[a]
                &&& written.registers == machine@.registers
                &&& written.pc == machine@.pc
                &&& written.flags == machine@.flags
            }),
    {
    }

    /// The value of a register.
    pub fn read_register(&self, register: RegisterId) -> (value: u16)
        ensures
            value == self@.registers[register.spec_index()],
    {
        match register {
            RegisterId::R0 => self.r0,
            RegisterId::R1 => self.r1,
            RegisterId::R2 => self.r2,
            RegisterId::R3 => self.r3,
            RegisterId::R4 => self.r4,
            RegisterId::R5 => self.r5,
            RegisterId::R6 => self.r6,
            RegisterId::R7 => self.r7,
            RegisterId::R8 => self.r8,
            RegisterId::R9 => self.r9,
            RegisterId::R10 => self.r10,
            RegisterId::R11 => self.r11,
            RegisterId::R12 => self.r12,
            RegisterId::R13 => self.r13,
            RegisterId::R14 => self.r14,
            RegisterId::R15 => self.r15,
            RegisterId::R16 => self.r16,
        }
    }

    /// Puts `value` in a register. No other register, no memory cell,
    /// neither the program counter nor the flags change. Register 0 is a
    /// register like the others: it keeps what is written to it.
    pub fn write_register(&mut self, register: RegisterId, value: u16)
        ensures
            final(self)@ == old(self)@.with_register(register.spec_index(), value),
            final(self).status_flags == old(self).status_flags,
    {
        match register {
            RegisterId::R0 => { self.r0 = value; },
            RegisterId::R1 => { self.r1 = value; },
            RegisterId::R2 => { self.r2 = value; },
            RegisterId::R3 => { self.r3 = value; },
            RegisterId::R4 => { self.r4 = value; },
            RegisterId::R5 => { self.r5 = value; },
            RegisterId::R6 => { self.r6 = value; },
            RegisterId::R7 => { self.r7 = value; },
            RegisterId::R8 => { self.r8 = value; },
            RegisterId::R9 => { self.r9 = value; },
            RegisterId::R10 => { self.r10 = value; },
            RegisterId::R11 => { self.r11 = value; },
            RegisterId::R12 => { self.r12 = value; },
            RegisterId::R13 => { self.r13 = value; },
            RegisterId::R14 => { self.r14 = value; },
            RegisterId::R15 => { self.r15 = value; },
            RegisterId::R16 => { self.r16 = value; },
        }
    }

    /// The value of the memory cell at `address`. Every 16-bit address
    /// names a cell.
    pub fn read_memory(&self, address: u16) -> (value: u16)
        ensures
            value == self@.memory[address as int],
    {
        self.memory[address as usize]
    }

    /// Puts `value` in the memory cell at `address`. No other cell, no
    /// register, neither the program counter nor the flags change.
    pub fn write_memory(&mut self, address: u16, value: u16)
        ensures
            final(self)@ == old(self)@.with_memory(address as int, value),
            final(self).status_flags == old(self).status_flags,
    {
        self.memory[address as usize] = value;
    }
}

impl Clone for HeraVM {
    /// A copy of the machine: it holds what the machine holds, in storage
    /// of its own.
    fn clone(&self) -> (copy: HeraVM)
        ensures
            copy == *self,
    {
        *self
    }
}

impl Default for HeraVM {
    /// A machine with every flag clear, the program counter at zero, and
    /// zero in every register and in every memory cell.
    fn default() -> (vm: HeraVM)
        ensures
            vm@ == MachineView::zeroed(),
    {
        HeraVM {
            status_flags: StatusFlags::empty(),
            pc: 0,
            r0: 0,
            r1: 0,
            r2: 0,
            r3: 0,
            r4: 0,
            r5: 0,
            r6: 0,
            r7: 0,
            r8: 0,
            r9: 0,
            r10: 0,
            r11: 0,
            r12: 0,
            r13: 0,
            r14: 0,
            r15: 0,
            r16: 0,
            memory: [0; MEMORY_SIZE],
        }
    }
}

} // verus!
