use vm16::machine::{Stop, VM, FN, FP, FZ, MEM_SIZE, PC_BASE};
use vm16::decode::{dr, fimm, imm, jimm, sr1, sr2, sximm};

#[test]
fn decoder_fields() {
    // word 0b0001_001_000_1_00101: ADD R1, R0, #5
    let w: u16 = 0x1225;
    assert_eq!(dr(w), 1);
    assert_eq!(sr1(w), 0);
    assert_eq!(sr2(w), 5);
    assert_eq!(fimm(w), 1);
    assert_eq!(jimm(w), 0);
    assert_eq!(imm(w, 5), 5);
    // word 0b0101_011_001_0_00_010: AND R3, R1, R2
    let w2: u16 = 0x5642;
    assert_eq!(dr(w2), 3);
    assert_eq!(sr1(w2), 1);
    assert_eq!(sr2(w2), 2);
    assert_eq!(fimm(w2), 0);
}

#[test]
fn sign_extension_negative() {
    // bit width-1 set: all higher bits become 1
    assert_eq!(sximm(0x0010, 5), 0xFFF0);
    assert_eq!(sximm(0x001F, 5), 0xFFFF);
    assert_eq!(sximm(0x0100, 9), 0xFF00);
    assert_eq!(sximm(0x07FF, 11), 0xFFFF);
    assert_eq!(sximm(0x0001, 1), 0xFFFF);
}

#[test]
fn sign_extension_positive() {
    // bit width-1 clear: higher bits stay 0, low bits unchanged
    assert_eq!(sximm(0x000F, 5), 0x000F);
    assert_eq!(sximm(0xFFEF, 5), 0x000F);
    assert_eq!(sximm(0x00FF, 9), 0x00FF);
    assert_eq!(sximm(0x03FF, 11), 0x03FF);
}

#[test]
fn fresh_machine() {
    let vm = VM::new();
    assert_eq!(vm.memory.len(), MEM_SIZE);
    assert_eq!(vm.memory[0], 0);
    assert_eq!(vm.memory[MEM_SIZE - 1], 0);
    assert_eq!(vm.cpu.r, vec![0u16; 8]);
    assert_eq!(vm.cpu.rpc, PC_BASE);
    assert_eq!(vm.cpu.rcnd, 0);
    assert!(!vm.stop_flag);
    assert_eq!(vm.stop_reason, None);
    assert!(vm.output.is_empty());
}

#[test]
fn memory_covers_every_address() {
    // the store backs the full 16-bit address space, highest cell included
    let mut vm = VM::new();
    vm.mem_write(0xFFFF, 0xABCD);
    vm.mem_write(0x0000, 0x1111);
    assert_eq!(vm.mem_read(0xFFFF), 0xABCD);
    assert_eq!(vm.mem_read(0x0000), 0x1111);
}

#[test]
fn flags_exactly_one() {
    let mut vm = VM::new();
    vm.cpu.r[0] = 0;
    vm.set_flag(0);
    assert_eq!(vm.cpu.rcnd, FZ);
    vm.cpu.r[0] = 1;
    vm.set_flag(0);
    assert_eq!(vm.cpu.rcnd, FP);
    vm.cpu.r[0] = 0x7FFF;
    vm.set_flag(0);
    assert_eq!(vm.cpu.rcnd, FP);
    vm.cpu.r[0] = 0x8000;
    vm.set_flag(0);
    assert_eq!(vm.cpu.rcnd, FN);
    vm.cpu.r[0] = 0xFFFF;
    vm.set_flag(0);
    assert_eq!(vm.cpu.rcnd, FN);
}

#[test]
fn scenario_getc_outu16_halt() {
    let mut vm = VM::new();
    vm.load_program();
    vm.push_input(0x41);
    let steps = vm.start(100);
    assert_eq!(steps, 3);
    assert_eq!(vm.cpu.r[0], 0x41);
    assert_eq!(vm.output, vec![b'6', b'5']);
    assert!(vm.stop_flag);
    assert_eq!(vm.stop_reason, Some(Stop::Halt));
    assert_eq!(vm.cpu.rpc, PC_BASE + 3);
    // the TRAP instruction saves no return address
    assert_eq!(vm.cpu.r[7], 0);
}

#[test]
fn scenario_add_immediate() {
    let mut vm = VM::new();
    vm.cpu.r[0] = 10;
    vm.add(0x1225); // ADD R1, R0, #5
    assert_eq!(vm.cpu.r[1], 15);
    assert_eq!(vm.cpu.rcnd, FP);
}

#[test]
fn scenario_and_disjoint() {
    let mut vm = VM::new();
    vm.cpu.r[1] = 0x0F0F;
    vm.cpu.r[2] = 0xF0F0;
    vm.and(0x5642); // AND R3, R1, R2
    assert_eq!(vm.cpu.r[3], 0);
    assert_eq!(vm.cpu.rcnd, FZ);
}

#[test]
fn scenario_lea_str_ldr() {
    let mut vm = VM::new();
    vm.cpu.r[0] = 0x1234;
    vm.mem_write(PC_BASE, 0xE203); // LEA R1, #3
    vm.mem_write(PC_BASE + 1, 0x7040); // STR R0, [R1 + 0]
    vm.mem_write(PC_BASE + 2, 0x6440); // LDR R2, [R1 + 0]
    vm.mem_write(PC_BASE + 3, 0xF025); // TRAP HALT
    let steps = vm.start(10);
    assert_eq!(steps, 4);
    assert_eq!(vm.cpu.r[1], PC_BASE + 4);
    assert_eq!(vm.mem_read(PC_BASE + 4), 0x1234);
    assert_eq!(vm.cpu.r[2], 0x1234);
    assert_eq!(vm.stop_reason, Some(Stop::Halt));
}

#[test]
fn scenario_reserved_opcode_halts() {
    let mut vm = VM::new();
    vm.mem_write(PC_BASE, 0xD000); // reserved opcode class
    let steps = vm.start(10);
    assert_eq!(steps, 1);
    assert!(vm.stop_flag);
    assert_eq!(vm.stop_reason, Some(Stop::UnimplementedInstruction(0xD)));
    // only the fetch increment happened; nothing else moved
    assert_eq!(vm.cpu.rpc, PC_BASE + 1);
    assert_eq!(vm.cpu.r, vec![0u16; 8]);
    assert_eq!(vm.mem_read(PC_BASE), 0xD000);
    assert!(vm.output.is_empty());
}

#[test]
fn rti_opcode_halts() {
    let mut vm = VM::new();
    vm.mem_write(PC_BASE, 0x8000); // return-from-interrupt class
    vm.start(10);
    assert_eq!(vm.stop_reason, Some(Stop::UnimplementedInstruction(0x8)));
    assert_eq!(vm.cpu.rpc, PC_BASE + 1);
}

#[test]
fn halt_freezes_machine() {
    let mut vm = VM::new();
    vm.mem_write(PC_BASE, 0xF025); // TRAP HALT
    vm.mem_write(PC_BASE + 1, 0x1225); // would be ADD, must never run
    let steps = vm.start(50);
    assert_eq!(steps, 1);
    assert_eq!(vm.cpu.rpc, PC_BASE + 1);
    let again = vm.start(50);
    assert_eq!(again, 0);
    assert_eq!(vm.cpu.rpc, PC_BASE + 1);
    assert_eq!(vm.cpu.r, vec![0u16; 8]);
    assert_eq!(vm.stop_reason, Some(Stop::Halt));
}

#[test]
fn add_wraps() {
    let mut vm = VM::new();
    vm.cpu.r[0] = 0xFFFF;
    vm.add(0x1221); // ADD R1, R0, #1
    assert_eq!(vm.cpu.r[1], 0);
    assert_eq!(vm.cpu.rcnd, FZ);
}

#[test]
fn add_register_mode_uses_live_value() {
    let mut vm = VM::new();
    vm.cpu.r[0] = 7;
    vm.cpu.r[2] = 0x8000;
    vm.add(0x1202); // ADD R1, R0, R2
    assert_eq!(vm.cpu.r[1], 0x8007);
    assert_eq!(vm.cpu.rcnd, FN);
    vm.cpu.r[2] = 1; // live value changed: the next execution sees it
    vm.add(0x1202);
    assert_eq!(vm.cpu.r[1], 8);
    assert_eq!(vm.cpu.rcnd, FP);
}

#[test]
fn not_complements() {
    let mut vm = VM::new();
    vm.cpu.r[1] = 0x0F0F;
    vm.not(0x907F); // NOT R0, R1
    assert_eq!(vm.cpu.r[0], 0xF0F0);
    assert_eq!(vm.cpu.rcnd, FN);
}

#[test]
fn loads_and_stores() {
    let mut vm = VM::new();
    // LD R0, #5 : counter-relative load
    vm.mem_write(PC_BASE + 5, 0xBEEF);
    vm.ld(0x2005);
    assert_eq!(vm.cpu.r[0], 0xBEEF);
    assert_eq!(vm.cpu.rcnd, FN);
    // LDI R0, #6 : indirect load
    vm.mem_write(PC_BASE + 6, 0x4000);
    vm.mem_write(0x4000, 0x0042);
    vm.ldi(0xA006);
    assert_eq!(vm.cpu.r[0], 0x0042);
    assert_eq!(vm.cpu.rcnd, FP);
    // ST R0, #7 : counter-relative store, no flag change
    vm.st(0x3007);
    assert_eq!(vm.mem_read(PC_BASE + 7), 0x0042);
    assert_eq!(vm.cpu.rcnd, FP);
    // STI R0, #6 : indirect store through the cell written above
    vm.cpu.r[0] = 0x7777;
    vm.sti(0xB006);
    assert_eq!(vm.mem_read(0x4000), 0x7777);
}

#[test]
fn branch_taken_iff_mask_meets_flags() {
    let mut vm = VM::new();
    vm.cpu.r[0] = 0;
    vm.set_flag(0); // flags = FZ
    let pc0 = vm.cpu.rpc;
    vm.br(0x0403); // BR z=1 n=0 p=0, offset +3 (cond field = FZ)
    assert_eq!(vm.cpu.rpc, pc0 + 3);
    vm.br(0x0A03); // BR n=1 p=1, offset +3: mask misses FZ
    assert_eq!(vm.cpu.rpc, pc0 + 3);
    // backward branch: offset -1 = 0x1FF, taken on zero
    vm.br(0x05FF);
    assert_eq!(vm.cpu.rpc, pc0 + 2);
}

#[test]
fn jsr_links_and_jmp_does_not() {
    let mut vm = VM::new();
    let pc0 = vm.cpu.rpc;
    vm.jsr(0x4805); // JSR #5: long-immediate mode
    assert_eq!(vm.cpu.r[7], pc0);
    assert_eq!(vm.cpu.rpc, pc0 + 5);
    vm.cpu.r[2] = 0x1234;
    vm.jsr(0x4080); // JSRR R2: register mode
    assert_eq!(vm.cpu.r[7], pc0 + 5);
    assert_eq!(vm.cpu.rpc, 0x1234);
    vm.jmp(0xC1C0); // JMP R7
    assert_eq!(vm.cpu.rpc, pc0 + 5);
    assert_eq!(vm.cpu.r[7], pc0 + 5); // JMP never writes register 7
}

#[test]
fn jsr_register_seven_reads_link() {
    // register-mode JSR through R7 reads the value written by the link step
    let mut vm = VM::new();
    vm.cpu.r[7] = 0x4444;
    let pc0 = vm.cpu.rpc;
    vm.jsr(0x41C0); // JSRR R7
    assert_eq!(vm.cpu.r[7], pc0);
    assert_eq!(vm.cpu.rpc, pc0);
}

#[test]
fn out_trap_writes_low_byte() {
    let mut vm = VM::new();
    vm.cpu.r[0] = 0x1241; // low byte 'A'
    vm.mem_write(PC_BASE, 0xF021); // TRAP OUT
    vm.mem_write(PC_BASE + 1, 0xF025); // TRAP HALT
    vm.start(10);
    assert_eq!(vm.output, vec![0x41]);
}

#[test]
fn in_trap_echoes() {
    let mut vm = VM::new();
    vm.mem_write(PC_BASE, 0xF023); // TRAP IN
    vm.mem_write(PC_BASE + 1, 0xF025); // TRAP HALT
    vm.push_input(0x0178); // low byte 'x'
    vm.start(10);
    assert_eq!(vm.cpu.r[0], 0x0178);
    assert_eq!(vm.output, vec![b'x']);
}

#[test]
fn puts_vectors_are_stubs() {
    let mut vm = VM::new();
    vm.mem_write(PC_BASE, 0xF022); // TRAP PUTS
    vm.mem_write(PC_BASE + 1, 0xF024); // TRAP PUTSP
    vm.mem_write(PC_BASE + 2, 0xF025); // TRAP HALT
    let steps = vm.start(10);
    assert_eq!(steps, 3);
    assert!(vm.output.is_empty());
    assert_eq!(vm.stop_reason, Some(Stop::Halt));
}

#[test]
fn outu16_prints_decimal() {
    let mut vm = VM::new();
    vm.mem_write(PC_BASE, 0xF027); // TRAP OUTU16
    vm.mem_write(PC_BASE + 1, 0xF025); // TRAP HALT
    vm.cpu.r[0] = 0;
    vm.start(10);
    assert_eq!(vm.output, vec![b'0']);

    let mut vm2 = VM::new();
    vm2.mem_write(PC_BASE, 0xF027);
    vm2.mem_write(PC_BASE + 1, 0xF025);
    vm2.cpu.r[0] = 0xFFFF;
    vm2.start(10);
    assert_eq!(vm2.output, b"65535".to_vec());
}

#[test]
fn inu16_stores_raw_value() {
    let mut vm = VM::new();
    vm.mem_write(PC_BASE, 0xF026); // TRAP INU16
    vm.mem_write(PC_BASE + 1, 0xF025); // TRAP HALT
    vm.push_input(54321);
    vm.start(10);
    assert_eq!(vm.cpu.r[0], 54321);
    assert!(vm.output.is_empty());
}

#[test]
fn trap_vector_is_sign_extended() {
    // a vector with bit 6 set decodes out of range: deliberate fidelity to
    // the modelled machine's 7-bit sign extension of the trap immediate
    let mut vm = VM::new();
    vm.mem_write(PC_BASE, 0xF040);
    vm.start(10);
    assert_eq!(vm.stop_reason, Some(Stop::UnimplementedTrapVector(0xFFC0)));
}

#[test]
fn unknown_trap_vector_halts() {
    let mut vm = VM::new();
    vm.mem_write(PC_BASE, 0xF000); // vector 0
    vm.start(10);
    assert!(vm.stop_flag);
    assert_eq!(vm.stop_reason, Some(Stop::UnimplementedTrapVector(0)));
}

#[test]
fn input_exhaustion_stops_and_resumes() {
    let mut vm = VM::new();
    vm.mem_write(PC_BASE, 0xF020); // TRAP GETC
    vm.mem_write(PC_BASE + 1, 0xF025); // TRAP HALT
    vm.start(10);
    assert_eq!(vm.stop_reason, Some(Stop::InputExhausted));
    // the counter is back on the TRAP instruction, so the read can resume
    assert_eq!(vm.cpu.rpc, PC_BASE);
    vm.stop_flag = false;
    vm.stop_reason = None;
    vm.push_input(0x33);
    vm.start(10);
    assert_eq!(vm.cpu.r[0], 0x33);
    assert_eq!(vm.stop_reason, Some(Stop::Halt));
}

#[test]
fn fuel_bounds_the_run() {
    let mut vm = VM::new();
    // an endless loop: BR always (all three condition bits) back to itself
    vm.cpu.r[0] = 1;
    vm.set_flag(0);
    vm.mem_write(PC_BASE, 0x0FFF); // BR nzp, offset -1
    let steps = vm.start(25);
    assert_eq!(steps, 25);
    assert!(!vm.stop_flag);
    assert_eq!(vm.cpu.rpc, PC_BASE);
}

#[test]
fn fetch_wraps_at_top_of_memory() {
    let mut vm = VM::new();
    vm.cpu.rpc = 0xFFFF;
    vm.mem_write(0xFFFF, 0xE000); // LEA R0, #0
    vm.mem_write(0x0000, 0xF025); // TRAP HALT
    let steps = vm.start(10);
    assert_eq!(steps, 2);
    // the counter wrapped to 0x0000 after the fetch, and LEA saw it
    assert_eq!(vm.cpu.r[0], 0x0000);
    assert_eq!(vm.cpu.rcnd, FZ);
    assert_eq!(vm.stop_reason, Some(Stop::Halt));
}

#[test]
fn load_program_writes_demo_image() {
    let mut vm = VM::new();
    vm.load_program();
    assert_eq!(vm.mem_read(PC_BASE), 0xF020);
    assert_eq!(vm.mem_read(PC_BASE + 1), 0xF027);
    assert_eq!(vm.mem_read(PC_BASE + 2), 0xF025);
    assert_eq!(vm.cpu.r[0], 0x41);
}
