//! Machine state: the register file, the condition flags, the flat memory
//! store, the stop status, and the injectable input/output buffers.

use vstd::prelude::*;

verus! {

/// Number of words in the memory store: the full 16-bit address space, so
/// every address a program can form is backed by a cell.
pub const MEM_SIZE: usize = 0x10000;

/// Address at which program images are loaded and execution begins.
pub const PC_BASE: u16 = 0x3000;

/// Opcode class: conditional branch.
pub const BR: u16 = 0x0;

/// Opcode class: wrapping addition.
pub const ADD: u16 = 0x1;

/// Opcode class: counter-relative load.
pub const LD: u16 = 0x2;

/// Opcode class: counter-relative store.
pub const ST: u16 = 0x3;

/// Opcode class: jump to subroutine.
pub const JSR: u16 = 0x4;

/// Opcode class: bitwise conjunction.
pub const AND: u16 = 0x5;

/// Opcode class: base-plus-offset load.
pub const LDR: u16 = 0x6;

/// Opcode class: base-plus-offset store.
pub const STR: u16 = 0x7;

/// Opcode class: return from interrupt; deliberately not implemented.
pub const RTI: u16 = 0x8;

/// Opcode class: bitwise complement.
pub const NOT: u16 = 0x9;

/// Opcode class: indirect load.
pub const LDI: u16 = 0xA;

/// Opcode class: indirect store.
pub const STI: u16 = 0xB;

/// Opcode class: unconditional jump.
pub const JMP: u16 = 0xC;

/// Opcode class: reserved, no instruction defined.
pub const RESERVED: u16 = 0xD;

/// Opcode class: load effective address.
pub const LEA: u16 = 0xE;

/// Opcode class: system-call trap.
pub const TRAP: u16 = 0xF;

/// Trap vector: read one input unit into register 0.
pub const TGETC: u16 = 0x20;

/// Trap vector: write the low byte of register 0 as one output character.
pub const TOUT: u16 = 0x21;

/// Trap vector: print a word-per-character string; a documented stub here.
pub const TPUTS: u16 = 0x22;

/// Trap vector: read one input unit into register 0 and echo its low byte.
pub const TIN: u16 = 0x23;

/// Trap vector: print a packed string; a documented stub here.
pub const TPUTSP: u16 = 0x24;

/// Trap vector: stop the engine.
pub const THALT: u16 = 0x25;

/// Trap vector: read one input unit into register 0 as a raw number.
pub const TINU16: u16 = 0x26;

/// Trap vector: print register 0 as a decimal number.
pub const TOUTU16: u16 = 0x27;

/// Condition flag: last written register value was positive (1..0x7FFF).
pub const FP: u16 = 1;

/// Condition flag: last written register value was zero.
pub const FZ: u16 = 2;

/// Condition flag: last written register value was negative (>= 0x8000
/// under two's-complement interpretation).
pub const FN: u16 = 4;

/// Why the engine stopped.
#[derive(Clone, Copy, Debug, PartialEq, Eq, Structural)]
pub enum Stop {
    /// The HALT trap was executed.
    Halt,
    /// A word whose opcode class is not implemented was fetched; carries the
    /// 4-bit opcode value.
    UnimplementedInstruction(u16),
    /// A TRAP instruction carried a vector outside the supported set; carries
    /// the decoded vector.
    UnimplementedTrapVector(u16),
    /// An input-consuming trap found the input queue empty. The program
    /// counter is left on the TRAP instruction itself, so execution can be
    /// resumed after more input arrives.
    InputExhausted,
}

/// The processor registers: eight general registers, the program counter,
/// and the condition-flag register.
pub struct Cpu {
    /// General registers 0-7; register 7 is the conventional link register.
    pub r: Vec<u16>,
    /// Program counter.
    pub rpc: u16,
    /// Condition-flag register: 0 before any flag update, afterwards exactly
    /// one of `FP`, `FZ`, `FN`.
    pub rcnd: u16,
}

/// One machine instance: memory, processor registers, stop status, and the
/// scripted input/output buffers the trap subsystem works against.
pub struct VM {
    /// Word-addressed memory, `MEM_SIZE` cells.
    pub memory: Vec<u16>,
    pub cpu: Cpu,
    /// True once the engine has stopped; no further cycle runs.
    pub stop_flag: bool,
    /// The reason the engine stopped; `Some` exactly when `stop_flag` holds.
    pub stop_reason: Option<Stop>,
    /// Input units not yet consumed: `input[input_pos..]`.
    pub input: Vec<u16>,
    /// How many input units have been consumed.
    pub input_pos: usize,
    /// Bytes written by the output traps, in order.
    pub output: Vec<u8>,
}

/// The flag value `update_flags` computes for a register value `v`.
pub open spec fn flag_for(v: u16) -> u16 {
    if v == 0 {
        FZ
    } else if v > 0x7FFF {
        FN
    } else {
        FP
    }
}

/// 16-bit wrapping addition, as all address and register arithmetic uses.
pub open spec fn wadd(x: u16, y: u16) -> u16 {
    vstd::wrapping::u16_specs::wrapping_add(x, y)
}

/// 16-bit wrapping subtraction.
pub open spec fn wsub(x: u16, y: u16) -> u16 {
    vstd::wrapping::u16_specs::wrapping_sub(x, y)
}

impl VM {
    /// Well-formedness: the backing stores have their fixed sizes, the input
    /// cursor is in range, the stop reason accompanies the stop flag, and the
    /// condition register holds at most one flag.
    pub open spec fn wf(self) -> bool {
        &&& self.memory@.len() == MEM_SIZE
        &&& self.cpu.r@.len() == 8
        &&& self.input_pos <= self.input@.len()
        &&& (self.stop_flag <==> self.stop_reason is Some)
        &&& (self.cpu.rcnd == 0 || self.cpu.rcnd == FP || self.cpu.rcnd == FZ || self.cpu.rcnd
            == FN)
    }

    /// A fresh machine: memory zero-filled, registers zero, program counter
    /// at `PC_BASE`, flags clear, running, no input or output yet.
    pub fn new() -> (vm: VM)
        ensures
            vm.wf(),
            vm.memory@.len() == MEM_SIZE,
            forall|i: int| 0 <= i < MEM_SIZE ==> vm.memory@[i] == 0,
            forall|i: int| 0 <= i < 8 ==> vm.cpu.r@[i] == 0,
            vm.cpu.rpc == PC_BASE,
            vm.cpu.rcnd == 0,
            !vm.stop_flag,
            vm.stop_reason is None,
            vm.input@ == Seq::<u16>::empty(),
            vm.input_pos == 0,
            vm.output@ == Seq::<u8>::empty(),
    {
        VM {
            memory: zero_words(MEM_SIZE),
            cpu: Cpu::new(PC_BASE),
            stop_flag: false,
            stop_reason: None,
            input: Vec::new(),
            input_pos: 0,
            output: Vec::new(),
        }
    }

    /// Update the condition register from the current value of general
    /// register `reg`: exactly one of {negative, zero, positive}.
    pub fn set_flag(&mut self, reg: u16)
        requires
            old(self).wf(),
            reg < 8,
        ensures
            final(self).wf(),
            final(self).cpu.rcnd == flag_for(old(self).cpu.r@[reg as int]),
            final(self).cpu.r@ == old(self).cpu.r@,
            final(self).cpu.rpc == old(self).cpu.rpc,
            final(self).memory@ == old(self).memory@,
            final(self).stop_flag == old(self).stop_flag,
            final(self).stop_reason == old(self).stop_reason,
            final(self).input@ == old(self).input@,
            final(self).input_pos == old(self).input_pos,
            final(self).output@ == old(self).output@,
    {
        let v: u16 = self.cpu.r[reg as usize];
        if v == 0 {
            self.cpu.rcnd = FZ;
        } else if v > 0x7FFF {
            self.cpu.rcnd = FN;
        } else {
            self.cpu.rcnd = FP;
        }
    }

    /// Read the word at `address`. Total: every 16-bit address is backed.
    pub fn mem_read(&self, address: u16) -> (w: u16)
        requires
            self.wf(),
        ensures
            w == self.memory@[address as int],
    {
        self.memory[address as usize]
    }

    /// Write `value` at `address`. Total: every 16-bit address is backed.
    pub fn mem_write(&mut self, address: u16, value: u16)
        requires
            old(self).wf(),
        ensures
            final(self).wf(),
            final(self).memory@ == old(self).memory@.update(address as int, value),
            final(self).cpu.r@ == old(self).cpu.r@,
            final(self).cpu.rpc == old(self).cpu.rpc,
            final(self).cpu.rcnd == old(self).cpu.rcnd,
            final(self).stop_flag == old(self).stop_flag,
            final(self).stop_reason == old(self).stop_reason,
            final(self).input@ == old(self).input@,
            final(self).input_pos == old(self).input_pos,
            final(self).output@ == old(self).output@,
    {
        self.memory.set(address as usize, value);
    }

    /// Append one unit to the scripted input queue.
    pub fn push_input(&mut self, unit: u16)
        requires
            old(self).wf(),
        ensures
            final(self).wf(),
            final(self).input@ == old(self).input@.push(unit),
            final(self).input_pos == old(self).input_pos,
            final(self).memory@ == old(self).memory@,
            final(self).cpu.r@ == old(self).cpu.r@,
            final(self).cpu.rpc == old(self).cpu.rpc,
            final(self).cpu.rcnd == old(self).cpu.rcnd,
            final(self).stop_flag == old(self).stop_flag,
            final(self).stop_reason == old(self).stop_reason,
            final(self).output@ == old(self).output@,
    {
        self.input.push(unit);
    }

    /// Write the built-in demonstration image: register 0 preset to 0x41 and,
    /// at the load base, the three-word program
    /// [TRAP GETC, TRAP OUTU16, TRAP HALT].
    pub fn load_program(&mut self)
        requires
            old(self).wf(),
        ensures
            final(self).wf(),
            final(self).memory@ == old(self).memory@.update(PC_BASE as int, 0xF020u16).update(
                PC_BASE as int + 1,
                0xF027u16,
            ).update(PC_BASE as int + 2, 0xF025u16),
            final(self).cpu.r@ == old(self).cpu.r@.update(0, 0x41u16),
            final(self).cpu.rpc == old(self).cpu.rpc,
            final(self).cpu.rcnd == old(self).cpu.rcnd,
            final(self).stop_flag == old(self).stop_flag,
            final(self).stop_reason == old(self).stop_reason,
            final(self).input@ == old(self).input@,
            final(self).input_pos == old(self).input_pos,
            final(self).output@ == old(self).output@,
    {
        self.cpu.r.set(0, 0x41);
        self.mem_write(PC_BASE, 0xF020);  // TRAP GETC
        self.mem_write(PC_BASE + 1, 0xF027);  // TRAP OUTU16
        self.mem_write(PC_BASE + 2, 0xF025);  // TRAP HALT
    }
}

impl Cpu {
    /// A fresh register file: general registers zero, program counter at
    /// `base`, condition flags clear.
    pub fn new(base: u16) -> (cpu: Cpu)
        ensures
            cpu.r@.len() == 8,
            forall|i: int| 0 <= i < 8 ==> cpu.r@[i] == 0,
            cpu.rpc == base,
            cpu.rcnd == 0,
    {
        Cpu { r: zero_words(8), rpc: base, rcnd: 0 }
    }
}

/// A vector of `n` zero words.
fn zero_words(n: usize) -> (v: Vec<u16>)
    ensures
        v@.len() == n,
        forall|i: int| 0 <= i < n ==> v@[i] == 0,
{
    let mut v: Vec<u16> = Vec::new();
    let mut k: usize = 0;
    while k < n
        invariant
            k <= n,
            v@.len() == k,
            forall|i: int| 0 <= i < k ==> v@[i] == 0,
        decreases n - k,
    {
        v.push(0);
        k = k + 1;
    }
    v
}

/// The condition register never carries two flags at once, and the flag
/// chosen for a value matches its sign under two's-complement reading:
/// zero, negative (high bit set), or positive.
pub proof fn lemma_flag_invariant(v: u16)
    ensures
        flag_for(v) == FP || flag_for(v) == FZ || flag_for(v) == FN,
        flag_for(v) == FZ <==> v == 0,
        flag_for(v) == FN <==> v >= 0x8000,
        flag_for(v) == FP <==> 0 < v < 0x8000,
{
}

} // verus!
