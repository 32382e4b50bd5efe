//! The execution engine: per-opcode handlers, the trap subsystem, one
//! fetch-decode-execute cycle, and the bounded run loop. Every handler is
//! verified against its transition predicate from `effects`.

use vstd::prelude::*;
use crate::decode::{dr, fimm, jimm, sr1, sr2, sximm};
use crate::effects::{
    add_effect, and_effect, br_effect, dec_digits, jmp_effect, jsr_effect, ld_effect, ldi_effect,
    ldr_effect, lea_effect, not_effect, read_effect, runs_to, st_effect, step_effect, sti_effect,
    stop_effect, str_effect, trap_effect, lemma_runs_to_step,
};
use crate::machine::{Stop, VM};
use crate::machine::{ADD, AND, BR, JMP, JSR, LD, LDI, LDR, LEA, NOT, RESERVED, RTI, ST, STI, STR, TRAP};
use crate::machine::{TGETC, THALT, TIN, TINU16, TOUT, TOUTU16, TPUTS, TPUTSP};

verus! {

/// The closed set of opcode classes a 4-bit code can select, the two codes
/// with no implementation included, so the dispatch is an exhaustive match
/// and the unimplemented arms are visible.
pub enum Opcode {
    Br,
    Add,
    Ld,
    St,
    Jsr,
    And,
    Ldr,
    Str,
    Rti,
    Not,
    Ldi,
    Sti,
    Jmp,
    Reserved,
    Lea,
    Trap,
}

/// The opcode class a 4-bit code selects.
pub open spec fn spec_opcode_of(cls: u16) -> Opcode {
    if cls == BR {
        Opcode::Br
    } else if cls == ADD {
        Opcode::Add
    } else if cls == LD {
        Opcode::Ld
    } else if cls == ST {
        Opcode::St
    } else if cls == JSR {
        Opcode::Jsr
    } else if cls == AND {
        Opcode::And
    } else if cls == LDR {
        Opcode::Ldr
    } else if cls == STR {
        Opcode::Str
    } else if cls == RTI {
        Opcode::Rti
    } else if cls == NOT {
        Opcode::Not
    } else if cls == LDI {
        Opcode::Ldi
    } else if cls == STI {
        Opcode::Sti
    } else if cls == JMP {
        Opcode::Jmp
    } else if cls == RESERVED {
        Opcode::Reserved
    } else if cls == LEA {
        Opcode::Lea
    } else {
        Opcode::Trap
    }
}

/// Decode the top-four-bits code `cls` into its opcode class.
pub fn opcode_of(cls: u16) -> (o: Opcode)
    requires
        cls <= TRAP,
    ensures
        o == spec_opcode_of(cls),
{
    if cls == BR {
        Opcode::Br
    } else if cls == ADD {
        Opcode::Add
    } else if cls == LD {
        Opcode::Ld
    } else if cls == ST {
        Opcode::St
    } else if cls == JSR {
        Opcode::Jsr
    } else if cls == AND {
        Opcode::And
    } else if cls == LDR {
        Opcode::Ldr
    } else if cls == STR {
        Opcode::Str
    } else if cls == RTI {
        Opcode::Rti
    } else if cls == NOT {
        Opcode::Not
    } else if cls == LDI {
        Opcode::Ldi
    } else if cls == STI {
        Opcode::Sti
    } else if cls == JMP {
        Opcode::Jmp
    } else if cls == RESERVED {
        Opcode::Reserved
    } else if cls == LEA {
        Opcode::Lea
    } else {
        Opcode::Trap
    }
}

impl VM {
    /// ADD: destination takes the wrapping sum of the first source register
    /// and the second operand (immediate or register); flags updated.
    pub fn add(&mut self, op: u16)
        requires
            old(self).wf(),
        ensures
            final(self).wf(),
            add_effect(*old(self), *final(self), op, old(self).cpu.rpc),
    {
        let d: u16 = dr(op);
        let a: u16 = self.cpu.r[sr1(op) as usize];
        let b: u16 = if fimm(op) == 1 {
            sximm(op, 5)
        } else {
            self.cpu.r[sr2(op) as usize]
        };
        self.cpu.r.set(d as usize, a.wrapping_add(b));
        self.set_flag(d);
    }

    /// AND: like ADD with bitwise conjunction.
    pub fn and(&mut self, op: u16)
        requires
            old(self).wf(),
        ensures
            final(self).wf(),
            and_effect(*old(self), *final(self), op, old(self).cpu.rpc),
    {
        let d: u16 = dr(op);
        let a: u16 = self.cpu.r[sr1(op) as usize];
        let b: u16 = if fimm(op) == 1 {
            sximm(op, 5)
        } else {
            self.cpu.r[sr2(op) as usize]
        };
        self.cpu.r.set(d as usize, a & b);
        self.set_flag(d);
    }

    /// NOT: destination takes the bitwise complement of the first source
    /// register; flags updated.
    pub fn not(&mut self, op: u16)
        requires
            old(self).wf(),
        ensures
            final(self).wf(),
            not_effect(*old(self), *final(self), op, old(self).cpu.rpc),
    {
        let d: u16 = dr(op);
        let a: u16 = self.cpu.r[sr1(op) as usize];
        self.cpu.r.set(d as usize, !a);
        self.set_flag(d);
    }

    /// LD: destination takes the word at counter plus 9-bit offset.
    pub fn ld(&mut self, op: u16)
        requires
            old(self).wf(),
        ensures
            final(self).wf(),
            ld_effect(*old(self), *final(self), op, old(self).cpu.rpc),
    {
        let d: u16 = dr(op);
        let v: u16 = self.mem_read(self.cpu.rpc.wrapping_add(sximm(op, 9)));
        self.cpu.r.set(d as usize, v);
        self.set_flag(d);
    }

    /// LDI: the counter-relative cell holds the address to load from.
    pub fn ldi(&mut self, op: u16)
        requires
            old(self).wf(),
        ensures
            final(self).wf(),
            ldi_effect(*old(self), *final(self), op, old(self).cpu.rpc),
    {
        let d: u16 = dr(op);
        let addr: u16 = self.mem_read(self.cpu.rpc.wrapping_add(sximm(op, 9)));
        let v: u16 = self.mem_read(addr);
        self.cpu.r.set(d as usize, v);
        self.set_flag(d);
    }

    /// LDR: destination takes the word at first source register plus 6-bit
    /// offset.
    pub fn ldr(&mut self, op: u16)
        requires
            old(self).wf(),
        ensures
            final(self).wf(),
            ldr_effect(*old(self), *final(self), op, old(self).cpu.rpc),
    {
        let d: u16 = dr(op);
        let base: u16 = self.cpu.r[sr1(op) as usize];
        let v: u16 = self.mem_read(base.wrapping_add(sximm(op, 6)));
        self.cpu.r.set(d as usize, v);
        self.set_flag(d);
    }

    /// LEA: destination takes the effective address itself; flags updated.
    pub fn lea(&mut self, op: u16)
        requires
            old(self).wf(),
        ensures
            final(self).wf(),
            lea_effect(*old(self), *final(self), op, old(self).cpu.rpc),
    {
        let d: u16 = dr(op);
        self.cpu.r.set(d as usize, self.cpu.rpc.wrapping_add(sximm(op, 9)));
        self.set_flag(d);
    }

    /// ST: the destination-register field's value is stored at counter plus
    /// 9-bit offset. No flag update.
    pub fn st(&mut self, op: u16)
        requires
            old(self).wf(),
        ensures
            final(self).wf(),
            st_effect(*old(self), *final(self), op, old(self).cpu.rpc),
    {
        let v: u16 = self.cpu.r[dr(op) as usize];
        let addr: u16 = self.cpu.rpc.wrapping_add(sximm(op, 9));
        self.mem_write(addr, v);
    }

    /// STI: the counter-relative cell holds the address to store at.
    pub fn sti(&mut self, op: u16)
        requires
            old(self).wf(),
        ensures
            final(self).wf(),
            sti_effect(*old(self), *final(self), op, old(self).cpu.rpc),
    {
        let v: u16 = self.cpu.r[dr(op) as usize];
        let addr: u16 = self.mem_read(self.cpu.rpc.wrapping_add(sximm(op, 9)));
        self.mem_write(addr, v);
    }

    /// STR: the destination-register field's value is stored at first source
    /// register plus 6-bit offset.
    pub fn str(&mut self, op: u16)
        requires
            old(self).wf(),
        ensures
            final(self).wf(),
            str_effect(*old(self), *final(self), op, old(self).cpu.rpc),
    {
        let v: u16 = self.cpu.r[dr(op) as usize];
        let base: u16 = self.cpu.r[sr1(op) as usize];
        self.mem_write(base.wrapping_add(sximm(op, 6)), v);
    }

    /// JMP: the counter takes the first source register's value. Register 7
    /// is untouched.
    pub fn jmp(&mut self, op: u16)
        requires
            old(self).wf(),
        ensures
            final(self).wf(),
            jmp_effect(*old(self), *final(self), op, old(self).cpu.rpc),
    {
        self.cpu.rpc = self.cpu.r[sr1(op) as usize];
    }

    /// JSR: register 7 takes the current counter, then the counter moves to
    /// the long-immediate target or to the first source register's value.
    pub fn jsr(&mut self, op: u16)
        requires
            old(self).wf(),
        ensures
            final(self).wf(),
            jsr_effect(*old(self), *final(self), op, old(self).cpu.rpc),
    {
        let ret: u16 = self.cpu.rpc;
        self.cpu.r.set(7, ret);
        if jimm(op) == 1 {
            self.cpu.rpc = ret.wrapping_add(sximm(op, 11));
        } else {
            self.cpu.rpc = self.cpu.r[sr1(op) as usize];
        }
    }

    /// BR: the counter moves by the 9-bit offset iff the condition field
    /// intersects the current flags. No flag update.
    pub fn br(&mut self, op: u16)
        requires
            old(self).wf(),
        ensures
            final(self).wf(),
            br_effect(*old(self), *final(self), op, old(self).cpu.rpc),
    {
        if self.cpu.rcnd & dr(op) != 0 {
            self.cpu.rpc = self.cpu.rpc.wrapping_add(sximm(op, 9));
        }
    }

    /// TRAP: decode the vector (7-bit sign-extended, as the modelled machine
    /// does) and perform the system call against the input/output buffers.
    pub fn trap(&mut self, op: u16)
        requires
            old(self).wf(),
        ensures
            final(self).wf(),
            trap_effect(*old(self), *final(self), op, old(self).cpu.rpc),
    {
        let vector: u16 = sximm(op, 7);
        if vector == TGETC || vector == TINU16 {
            self.read_input(false);
        } else if vector == TIN {
            self.read_input(true);
        } else if vector == TOUT {
            let x: u16 = self.cpu.r[0];
            proof {
                assert(x & 0xFF < 256) by (bit_vector);
            }
            self.output.push((x & 0xFF) as u8);
            proof {
                assert(self.output@ =~= old(self).output@ + seq![(x & 0xFF) as u8]);
            }
        } else if vector == TPUTS || vector == TPUTSP {
            // The modelled machine leaves the string-printing vectors as
            // stubs; they perform nothing here.
        } else if vector == THALT {
            self.stop_flag = true;
            self.stop_reason = Some(Stop::Halt);
        } else if vector == TOUTU16 {
            let v: u16 = self.cpu.r[0];
            self.push_decimal(v);
        } else {
            self.stop_flag = true;
            self.stop_reason = Some(Stop::UnimplementedTrapVector(vector));
        }
    }

    /// Consume one input unit into register 0, echoing its low byte when
    /// `echo`; with the queue empty, stop with `InputExhausted` and leave the
    /// counter on the TRAP instruction.
    fn read_input(&mut self, echo: bool)
        requires
            old(self).wf(),
        ensures
            final(self).wf(),
            read_effect(*old(self), *final(self), old(self).cpu.rpc, echo),
    {
        if self.input_pos < self.input.len() {
            let u: u16 = self.input[self.input_pos];
            self.cpu.r.set(0, u);
            self.input_pos = self.input_pos + 1;
            if echo {
                self.output.push((u & 0xFF) as u8);
            }
        } else {
            self.cpu.rpc = self.cpu.rpc.wrapping_sub(1);
            self.stop_flag = true;
            self.stop_reason = Some(Stop::InputExhausted);
        }
    }

    /// Append the decimal digits of `n` to the output buffer.
    fn push_decimal(&mut self, n: u16)
        requires
            old(self).wf(),
        ensures
            final(self).wf(),
            final(self).output@ == old(self).output@ + dec_digits(n),
            final(self).cpu.r@ == old(self).cpu.r@,
            final(self).cpu.rpc == old(self).cpu.rpc,
            final(self).cpu.rcnd == old(self).cpu.rcnd,
            final(self).memory@ == old(self).memory@,
            final(self).stop_flag == old(self).stop_flag,
            final(self).stop_reason == old(self).stop_reason,
            final(self).input@ == old(self).input@,
            final(self).input_pos == old(self).input_pos,
        decreases n,
    {
        if n >= 10 {
            self.push_decimal(n / 10);
        }
        self.output.push(0x30 + (n % 10) as u8);
        proof {
            assert(final(self).output@ =~= old(self).output@ + dec_digits(n));
        }
    }

    /// Stop the engine: a word of opcode class `cls` has no implementation.
    fn unimplemented(&mut self, cls: u16)
        requires
            old(self).wf(),
        ensures
            final(self).wf(),
            stop_effect(
                *old(self),
                *final(self),
                old(self).cpu.rpc,
                Stop::UnimplementedInstruction(cls),
            ),
    {
        self.stop_flag = true;
        self.stop_reason = Some(Stop::UnimplementedInstruction(cls));
    }

    /// One engine cycle: fetch the word under the counter, advance the
    /// counter, dispatch on the top four bits.
    pub fn step(&mut self)
        requires
            old(self).wf(),
            !old(self).stop_flag,
        ensures
            final(self).wf(),
            step_effect(*old(self), *final(self)),
    {
        let word: u16 = self.mem_read(self.cpu.rpc);
        self.cpu.rpc = self.cpu.rpc.wrapping_add(1);
        let cls: u16 = word >> 12;
        proof {
            assert(word >> 12 <= 0xF) by (bit_vector);
        }
        match opcode_of(cls) {
            Opcode::Br => self.br(word),
            Opcode::Add => self.add(word),
            Opcode::Ld => self.ld(word),
            Opcode::St => self.st(word),
            Opcode::Jsr => self.jsr(word),
            Opcode::And => self.and(word),
            Opcode::Ldr => self.ldr(word),
            Opcode::Str => self.str(word),
            Opcode::Rti => self.unimplemented(cls),
            Opcode::Not => self.not(word),
            Opcode::Ldi => self.ldi(word),
            Opcode::Sti => self.sti(word),
            Opcode::Jmp => self.jmp(word),
            Opcode::Reserved => self.unimplemented(cls),
            Opcode::Lea => self.lea(word),
            Opcode::Trap => self.trap(word),
        }
    }

    /// Run the engine for at most `fuel` cycles, stopping early once the
    /// machine stops. Returns the number of cycles taken; the final state is
    /// reached from the initial one by exactly that many engine cycles, and
    /// a machine that was already stopped is left untouched.
    pub fn start(&mut self, fuel: u32) -> (steps: u32)
        requires
            old(self).wf(),
        ensures
            final(self).wf(),
            steps <= fuel,
            runs_to(*old(self), *final(self), steps as nat),
            final(self).stop_flag || steps == fuel,
            old(self).stop_flag ==> *final(self) == *old(self) && steps == 0,
    {
        let ghost init: VM = *self;
        let mut steps: u32 = 0;
        while steps < fuel && !self.stop_flag
            invariant
                self.wf(),
                steps <= fuel,
                runs_to(init, *self, steps as nat),
                init.stop_flag ==> *self == init && steps == 0,
            decreases fuel - steps,
        {
            let ghost prev: VM = *self;
            self.step();
            proof {
                lemma_runs_to_step(init, prev, *self, steps as nat);
            }
            steps = steps + 1;
        }
        steps
    }
}

} // verus!
