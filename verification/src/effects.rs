//! The machine's transition relation, one open predicate per instruction:
//! what each opcode and trap vector does to registers, flags, memory, the
//! program counter, the stop status, and the input/output buffers. The
//! execution engine's contracts are stated over these predicates.
//!
//! Every predicate takes the executing-time program counter `xpc` explicitly
//! (the value after the fetch increment) and never reads the pre-state's
//! counter, so the same predicate describes both a bare handler call and a
//! full fetch-decode-execute cycle.

use vstd::prelude::*;
use crate::decode::{spec_dr, spec_sr1, spec_sr2, spec_fimm, spec_jimm, spec_sximm};
use crate::machine::{VM, Stop, flag_for, wadd, wsub, FN, FP, FZ};
use crate::machine::{ADD, AND, BR, JMP, JSR, LD, LDI, LDR, LEA, NOT, ST, STI, STR, TRAP};
use crate::machine::{TGETC, THALT, TIN, TINU16, TOUT, TOUTU16, TPUTS, TPUTSP};

verus! {

/// Memory unchanged.
pub open spec fn same_mem(pre: VM, post: VM) -> bool {
    post.memory@ == pre.memory@
}

/// General registers and condition flags unchanged.
pub open spec fn same_regs(pre: VM, post: VM) -> bool {
    &&& post.cpu.r@ == pre.cpu.r@
    &&& post.cpu.rcnd == pre.cpu.rcnd
}

/// Input queue, input cursor and output buffer unchanged.
pub open spec fn same_io(pre: VM, post: VM) -> bool {
    &&& post.input@ == pre.input@
    &&& post.input_pos == pre.input_pos
    &&& post.output@ == pre.output@
}

/// Stop flag and stop reason unchanged.
pub open spec fn same_stop(pre: VM, post: VM) -> bool {
    &&& post.stop_flag == pre.stop_flag
    &&& post.stop_reason == pre.stop_reason
}

/// General register `d` takes value `v` and the condition flags are updated
/// from `v`; other registers keep their values.
pub open spec fn writes_reg(pre: VM, post: VM, d: u16, v: u16) -> bool {
    &&& post.cpu.r@ == pre.cpu.r@.update(d as int, v)
    &&& post.cpu.rcnd == flag_for(v)
}

/// The second operand of ADD/AND: with the immediate-mode bit set, the
/// 5-bit sign-extended immediate; otherwise the live value of the second
/// source register.
pub open spec fn second_operand(pre: VM, op: u16) -> u16 {
    if spec_fimm(op) == 1 {
        spec_sximm(op, 5)
    } else {
        pre.cpu.r@[spec_sr2(op) as int]
    }
}

/// The value ADD writes: 16-bit wrapping sum.
pub open spec fn add_result(pre: VM, op: u16) -> u16 {
    wadd(pre.cpu.r@[spec_sr1(op) as int], second_operand(pre, op))
}

/// The value AND writes: bitwise conjunction.
pub open spec fn and_result(pre: VM, op: u16) -> u16 {
    pre.cpu.r@[spec_sr1(op) as int] & second_operand(pre, op)
}

/// An instruction that writes `v` to the destination register, updates the
/// flags, and touches nothing else.
pub open spec fn alu_effect(pre: VM, post: VM, op: u16, xpc: u16, v: u16) -> bool {
    &&& writes_reg(pre, post, spec_dr(op), v)
    &&& post.cpu.rpc == xpc
    &&& same_mem(pre, post)
    &&& same_io(pre, post)
    &&& same_stop(pre, post)
}

pub open spec fn add_effect(pre: VM, post: VM, op: u16, xpc: u16) -> bool {
    alu_effect(pre, post, op, xpc, add_result(pre, op))
}

pub open spec fn and_effect(pre: VM, post: VM, op: u16, xpc: u16) -> bool {
    alu_effect(pre, post, op, xpc, and_result(pre, op))
}

pub open spec fn not_effect(pre: VM, post: VM, op: u16, xpc: u16) -> bool {
    alu_effect(pre, post, op, xpc, !pre.cpu.r@[spec_sr1(op) as int])
}

/// LD: load from a counter-relative address.
pub open spec fn ld_effect(pre: VM, post: VM, op: u16, xpc: u16) -> bool {
    alu_effect(pre, post, op, xpc, pre.memory@[wadd(xpc, spec_sximm(op, 9)) as int])
}

/// LDI: load indirect; the counter-relative cell holds the address.
pub open spec fn ldi_effect(pre: VM, post: VM, op: u16, xpc: u16) -> bool {
    alu_effect(
        pre,
        post,
        op,
        xpc,
        pre.memory@[pre.memory@[wadd(xpc, spec_sximm(op, 9)) as int] as int],
    )
}

/// LDR: load from a register base plus a 6-bit offset.
pub open spec fn ldr_effect(pre: VM, post: VM, op: u16, xpc: u16) -> bool {
    alu_effect(
        pre,
        post,
        op,
        xpc,
        pre.memory@[wadd(pre.cpu.r@[spec_sr1(op) as int], spec_sximm(op, 6)) as int],
    )
}

/// LEA: load the effective address itself.
pub open spec fn lea_effect(pre: VM, post: VM, op: u16, xpc: u16) -> bool {
    alu_effect(pre, post, op, xpc, wadd(xpc, spec_sximm(op, 9)))
}

/// An instruction that stores the destination-register field's value at
/// `addr` and touches nothing else. No flag update.
pub open spec fn store_effect(pre: VM, post: VM, op: u16, xpc: u16, addr: u16) -> bool {
    &&& post.memory@ == pre.memory@.update(addr as int, pre.cpu.r@[spec_dr(op) as int])
    &&& post.cpu.rpc == xpc
    &&& same_regs(pre, post)
    &&& same_io(pre, post)
    &&& same_stop(pre, post)
}

pub open spec fn st_effect(pre: VM, post: VM, op: u16, xpc: u16) -> bool {
    store_effect(pre, post, op, xpc, wadd(xpc, spec_sximm(op, 9)))
}

pub open spec fn sti_effect(pre: VM, post: VM, op: u16, xpc: u16) -> bool {
    store_effect(pre, post, op, xpc, pre.memory@[wadd(xpc, spec_sximm(op, 9)) as int])
}

pub open spec fn str_effect(pre: VM, post: VM, op: u16, xpc: u16) -> bool {
    store_effect(pre, post, op, xpc, wadd(pre.cpu.r@[spec_sr1(op) as int], spec_sximm(op, 6)))
}

/// JMP: the counter takes the first source register's value; registers,
/// link register included, are untouched.
pub open spec fn jmp_effect(pre: VM, post: VM, op: u16, xpc: u16) -> bool {
    &&& post.cpu.rpc == pre.cpu.r@[spec_sr1(op) as int]
    &&& same_regs(pre, post)
    &&& same_mem(pre, post)
    &&& same_io(pre, post)
    &&& same_stop(pre, post)
}

/// JSR: register 7 takes the post-increment counter; then the counter moves
/// to a counter-relative target (long-immediate mode) or to the first source
/// register's value, read after the link write.
pub open spec fn jsr_effect(pre: VM, post: VM, op: u16, xpc: u16) -> bool {
    let linked = pre.cpu.r@.update(7, xpc);
    &&& post.cpu.r@ == linked
    &&& post.cpu.rcnd == pre.cpu.rcnd
    &&& post.cpu.rpc == if spec_jimm(op) == 1 {
        wadd(xpc, spec_sximm(op, 11))
    } else {
        linked[spec_sr1(op) as int]
    }
    &&& same_mem(pre, post)
    &&& same_io(pre, post)
    &&& same_stop(pre, post)
}

/// BR: the counter moves by the 9-bit offset iff the condition field (the
/// bits of the destination-register field, read as a flag mask) intersects
/// the current flags; otherwise only the fetch increment remains.
pub open spec fn br_effect(pre: VM, post: VM, op: u16, xpc: u16) -> bool {
    &&& post.cpu.rpc == if pre.cpu.rcnd & spec_dr(op) != 0 {
        wadd(xpc, spec_sximm(op, 9))
    } else {
        xpc
    }
    &&& same_regs(pre, post)
    &&& same_mem(pre, post)
    &&& same_io(pre, post)
    &&& same_stop(pre, post)
}

/// The engine stops for reason `why`, the counter rests at `xpc`, and no
/// register, memory or input/output state changes.
pub open spec fn stop_effect(pre: VM, post: VM, xpc: u16, why: Stop) -> bool {
    &&& post.cpu.rpc == xpc
    &&& post.stop_flag
    &&& post.stop_reason == Some(why)
    &&& same_regs(pre, post)
    &&& same_mem(pre, post)
    &&& same_io(pre, post)
}

/// Nothing changes but the counter resting at `xpc` (the stubbed traps).
pub open spec fn noop_effect(pre: VM, post: VM, xpc: u16) -> bool {
    &&& post.cpu.rpc == xpc
    &&& same_regs(pre, post)
    &&& same_mem(pre, post)
    &&& same_io(pre, post)
    &&& same_stop(pre, post)
}

/// An input-consuming trap. With a unit available, register 0 takes it, the
/// cursor advances, and with `echo` its low byte is also written to the
/// output; the flags are not updated. With the queue empty, the engine stops
/// with `InputExhausted` and the counter is put back on the TRAP instruction
/// (`xpc - 1`), so execution can resume once input arrives.
pub open spec fn read_effect(pre: VM, post: VM, xpc: u16, echo: bool) -> bool {
    if pre.input_pos < pre.input@.len() {
        let u = pre.input@[pre.input_pos as int];
        &&& post.cpu.r@ == pre.cpu.r@.update(0, u)
        &&& post.cpu.rcnd == pre.cpu.rcnd
        &&& post.cpu.rpc == xpc
        &&& post.input@ == pre.input@
        &&& post.input_pos == pre.input_pos + 1
        &&& post.output@ == if echo {
            pre.output@.push((u & 0xFF) as u8)
        } else {
            pre.output@
        }
        &&& same_mem(pre, post)
        &&& same_stop(pre, post)
    } else {
        stop_effect(pre, post, wsub(xpc, 1), Stop::InputExhausted)
    }
}

/// An output trap: `bytes` are appended to the output, nothing else moves.
pub open spec fn output_effect(pre: VM, post: VM, xpc: u16, bytes: Seq<u8>) -> bool {
    &&& post.output@ == pre.output@ + bytes
    &&& post.input@ == pre.input@
    &&& post.input_pos == pre.input_pos
    &&& post.cpu.rpc == xpc
    &&& same_regs(pre, post)
    &&& same_mem(pre, post)
    &&& same_stop(pre, post)
}

/// The ASCII decimal digits of `n`, most significant first, no sign and no
/// leading zeros (a single zero for `n == 0`).
pub open spec fn dec_digits(n: u16) -> Seq<u8>
    decreases n,
{
    if n < 10 {
        seq![(0x30 + n) as u8]
    } else {
        dec_digits((n / 10) as u16).push((0x30 + (n % 10)) as u8)
    }
}

/// TRAP: the vector is the 7-bit sign-extended immediate of the word (the
/// sign extension is deliberate fidelity to the modelled machine: a vector
/// with bit 6 set decodes out of range and stops the engine as unsupported).
pub open spec fn trap_effect(pre: VM, post: VM, op: u16, xpc: u16) -> bool {
    let vector = spec_sximm(op, 7);
    if vector == TGETC || vector == TINU16 {
        read_effect(pre, post, xpc, false)
    } else if vector == TIN {
        read_effect(pre, post, xpc, true)
    } else if vector == TOUT {
        output_effect(pre, post, xpc, seq![(pre.cpu.r@[0] & 0xFF) as u8])
    } else if vector == TPUTS || vector == TPUTSP {
        noop_effect(pre, post, xpc)
    } else if vector == THALT {
        stop_effect(pre, post, xpc, Stop::Halt)
    } else if vector == TOUTU16 {
        output_effect(pre, post, xpc, dec_digits(pre.cpu.r@[0]))
    } else {
        stop_effect(pre, post, xpc, Stop::UnimplementedTrapVector(vector))
    }
}

/// One full fetch-decode-execute cycle: the word under the counter is
/// fetched, the counter advances by one, the top four bits pick the
/// instruction, and the matching effect relates the states. The two opcode
/// classes with no implementation stop the engine.
pub open spec fn step_effect(pre: VM, post: VM) -> bool {
    let word = pre.memory@[pre.cpu.rpc as int];
    let xpc = wadd(pre.cpu.rpc, 1);
    let cls = word >> 12;
    if cls == BR {
        br_effect(pre, post, word, xpc)
    } else if cls == ADD {
        add_effect(pre, post, word, xpc)
    } else if cls == LD {
        ld_effect(pre, post, word, xpc)
    } else if cls == ST {
        st_effect(pre, post, word, xpc)
    } else if cls == JSR {
        jsr_effect(pre, post, word, xpc)
    } else if cls == AND {
        and_effect(pre, post, word, xpc)
    } else if cls == LDR {
        ldr_effect(pre, post, word, xpc)
    } else if cls == STR {
        str_effect(pre, post, word, xpc)
    } else if cls == NOT {
        not_effect(pre, post, word, xpc)
    } else if cls == LDI {
        ldi_effect(pre, post, word, xpc)
    } else if cls == STI {
        sti_effect(pre, post, word, xpc)
    } else if cls == JMP {
        jmp_effect(pre, post, word, xpc)
    } else if cls == LEA {
        lea_effect(pre, post, word, xpc)
    } else if cls == TRAP {
        trap_effect(pre, post, word, xpc)
    } else {
        stop_effect(pre, post, xpc, Stop::UnimplementedInstruction(cls))
    }
}

/// `post` is reached from `pre` by exactly `n` engine cycles, each taken
/// from a running state.
pub open spec fn runs_to(pre: VM, post: VM, n: nat) -> bool
    decreases n,
{
    if n == 0 {
        post == pre
    } else {
        &&& !pre.stop_flag
        &&& exists|mid: VM|
            #[trigger] step_effect(pre, mid) && mid.wf() && runs_to(mid, post, (n - 1) as nat)
    }
}

/// A run extends on the right by one more cycle.
pub proof fn lemma_runs_to_step(a: VM, b: VM, c: VM, n: nat)
    requires
        runs_to(a, b, n),
        !b.stop_flag,
        step_effect(b, c),
        c.wf(),
    ensures
        runs_to(a, c, n + 1),
    decreases n,
{
    if n == 0 {
        assert(step_effect(a, c));
        assert(runs_to(c, c, 0));
    } else {
        let mid = choose|mid: VM|
            #[trigger] step_effect(a, mid) && mid.wf() && runs_to(mid, b, (n - 1) as nat);
        lemma_runs_to_step(mid, b, c, (n - 1) as nat);
    }
}

/// A stopped machine goes nowhere: any run from a stopped state is empty,
/// so the state after a stop is frozen.
pub proof fn lemma_halt_freezes(pre: VM, post: VM, n: nat)
    requires
        pre.stop_flag,
        runs_to(pre, post, n),
    ensures
        n == 0,
        post == pre,
{
}

/// Flag invariant: a cycle executing any register-writing instruction
/// leaves exactly one of {negative, zero, positive} set, and the flag
/// matches the sign of the written value under two's-complement reading.
pub proof fn lemma_flag_invariant_step(pre: VM, post: VM)
    requires
        pre.wf(),
        step_effect(pre, post),
        ({
            let cls = pre.memory@[pre.cpu.rpc as int] >> 12;
            ||| cls == ADD
            ||| cls == AND
            ||| cls == NOT
            ||| cls == LD
            ||| cls == LDI
            ||| cls == LDR
            ||| cls == LEA
        }),
    ensures
        ({
            let word = pre.memory@[pre.cpu.rpc as int];
            let v = post.cpu.r@[spec_dr(word) as int];
            &&& post.cpu.rcnd == flag_for(v)
            &&& (post.cpu.rcnd == FP || post.cpu.rcnd == FZ || post.cpu.rcnd == FN)
            &&& (post.cpu.rcnd == FZ <==> v == 0)
            &&& (post.cpu.rcnd == FN <==> v >= 0x8000)
            &&& (post.cpu.rcnd == FP <==> 0 < v < 0x8000)
        }),
{
    let word = pre.memory@[pre.cpu.rpc as int];
    assert((word >> 9) & 0x7 < 8) by (bit_vector);
}

/// Operand selection: a cycle executing ADD or AND writes the destination
/// register with the result over the second operand, which is the 5-bit
/// sign-extended immediate exactly when the immediate-mode bit is set, and
/// the live value of the second source register exactly when it is clear.
pub proof fn lemma_operand_selection(pre: VM, post: VM)
    requires
        pre.wf(),
        step_effect(pre, post),
        pre.memory@[pre.cpu.rpc as int] >> 12 == ADD || pre.memory@[pre.cpu.rpc as int] >> 12
            == AND,
    ensures
        ({
            let word = pre.memory@[pre.cpu.rpc as int];
            &&& post.cpu.r@[spec_dr(word) as int] == if word >> 12 == ADD {
                add_result(pre, word)
            } else {
                and_result(pre, word)
            }
            &&& (spec_fimm(word) == 1 ==> second_operand(pre, word) == spec_sximm(word, 5))
            &&& (spec_fimm(word) != 1 ==> second_operand(pre, word) == pre.cpu.r@[spec_sr2(
                word,
            ) as int])
        }),
{
    let word = pre.memory@[pre.cpu.rpc as int];
    assert((word >> 9) & 0x7 < 8) by (bit_vector);
}

/// Branch correctness: a cycle executing BR moves the counter by the 9-bit
/// offset iff the condition field intersects the flag register; otherwise
/// only the fetch increment remains.
pub proof fn lemma_branch_correctness(pre: VM, post: VM)
    requires
        pre.wf(),
        step_effect(pre, post),
        pre.memory@[pre.cpu.rpc as int] >> 12 == BR,
    ensures
        ({
            let word = pre.memory@[pre.cpu.rpc as int];
            let xpc = wadd(pre.cpu.rpc, 1);
            post.cpu.rpc == if pre.cpu.rcnd & spec_dr(word) != 0 {
                wadd(xpc, spec_sximm(word, 9))
            } else {
                xpc
            }
        }),
{
}

/// Call linkage: a cycle executing JSR always leaves the post-increment
/// counter in register 7, and a cycle executing JMP leaves every general
/// register untouched.
pub proof fn lemma_call_linkage(pre: VM, post: VM)
    requires
        pre.wf(),
        step_effect(pre, post),
    ensures
        pre.memory@[pre.cpu.rpc as int] >> 12 == JSR ==> post.cpu.r@[7] == wadd(pre.cpu.rpc, 1),
        pre.memory@[pre.cpu.rpc as int] >> 12 == JMP ==> post.cpu.r@ == pre.cpu.r@,
{
}

} // verus!
