use lc3_vm::image::LoadError;
use lc3_vm::instr::{execute_instr, get_op_code, sign_extend, Halt, OpCode, Step};
use lc3_vm::registers::{ConditionFlag, Registers, PC_START};
use lc3_vm::vm::{execute_program, step, Vm, MEMORY_SIZE};

fn image(words: &[u16]) -> Vec<u8> {
    let mut bytes = Vec::new();
    for w in words {
        bytes.push((w >> 8) as u8);
        bytes.push((w & 0xff) as u8);
    }
    bytes
}

fn loaded(words: &[u16]) -> Vm {
    let mut vm = Vm::new();
    vm.load(&image(words)).unwrap();
    vm
}

#[test]
fn new_machine_is_zeroed() {
    let vm = Vm::new();
    assert_eq!(vm.memory.len(), MEMORY_SIZE);
    assert!(vm.memory.iter().all(|w| *w == 0));
    assert_eq!(vm.registers.pc, 0x3000);
    assert_eq!(PC_START, 0x3000);
    for i in 0..10u16 {
        if i != 8 {
            assert_eq!(vm.registers.get(i), 0);
        }
    }
    assert!(vm.output.is_empty());
}

#[test]
fn registers_update_and_get() {
    let mut r = Registers::new();
    for i in 0..10u16 {
        r.update(i, 100 + i);
    }
    for i in 0..10u16 {
        assert_eq!(r.get(i), 100 + i);
    }
    assert_eq!(r.r7, 107);
    assert_eq!(r.pc, 108);
    assert_eq!(r.cond, 109);
}

#[test]
fn condition_flags_from_values() {
    let mut r = Registers::new();
    r.update(1, 0);
    r.update_r_cond_register(1);
    assert_eq!(r.cond, ConditionFlag::ZRO.bits());
    r.update(1, 0x8000);
    r.update_r_cond_register(1);
    assert_eq!(r.cond, ConditionFlag::NEG.bits());
    r.update(1, 0x7fff);
    r.update_r_cond_register(1);
    assert_eq!(r.cond, ConditionFlag::POS.bits());
    assert_eq!(ConditionFlag::POS.bits(), 1);
    assert_eq!(ConditionFlag::ZRO.bits(), 2);
    assert_eq!(ConditionFlag::NEG.bits(), 4);
}

#[test]
fn decode_uses_top_four_bits_only() {
    let table = [
        OpCode::BR,
        OpCode::ADD,
        OpCode::LD,
        OpCode::ST,
        OpCode::JSR,
        OpCode::AND,
        OpCode::LDR,
        OpCode::STR,
        OpCode::RTI,
        OpCode::NOT,
        OpCode::LDI,
        OpCode::STI,
        OpCode::JMP,
        OpCode::RES,
        OpCode::LEA,
        OpCode::TRAP,
    ];
    for n in 0..16u16 {
        for low in [0u16, 1, 0x0abc, 0x0fff] {
            assert_eq!(get_op_code(&((n << 12) | low)), Some(table[n as usize]));
        }
    }
    assert_eq!(get_op_code(&0xF025), Some(OpCode::TRAP));
}

#[test]
fn sign_extend_fields() {
    assert_eq!(sign_extend(0x1f, 5), 0xffff);
    assert_eq!(sign_extend(0x0f, 5), 0x000f);
    assert_eq!(sign_extend(0x100, 9), 0xff00);
    assert_eq!(sign_extend(0x0ff, 9), 0x00ff);
    assert_eq!(sign_extend(0x20, 6), 0xffe0);
    assert_eq!(sign_extend(0x400, 11), 0xfc00);
    for x in [0u16, 1, 0x10, 0x1f, 0x1ff, 0x155, 0xaaaa] {
        for k in [5u8, 6, 9, 11] {
            let once = sign_extend(x, k);
            assert_eq!(sign_extend(once, k), once);
        }
    }
}

#[test]
fn add_register_wraps_to_zero() {
    let mut vm = Vm::new();
    vm.registers.r1 = 0xffff;
    vm.registers.r2 = 0x0001;
    // ADD r0, r1, r2
    assert_eq!(execute_instr(0x1042, &mut vm), Step::Continue);
    assert_eq!(vm.registers.r0, 0x0000);
    assert_eq!(vm.registers.cond, ConditionFlag::ZRO.bits());
}

#[test]
fn add_immediate_negative() {
    let mut vm = Vm::new();
    vm.registers.r1 = 3;
    // ADD r2, r1, #-5
    execute_instr(0x147b, &mut vm);
    assert_eq!(vm.registers.r2, 0xfffe);
    assert_eq!(vm.registers.cond, ConditionFlag::NEG.bits());
}

#[test]
fn and_register_and_immediate() {
    let mut vm = Vm::new();
    vm.registers.r1 = 0xffff;
    vm.registers.r2 = 0x0001;
    // AND r0, r1, r2
    execute_instr(0x5042, &mut vm);
    assert_eq!(vm.registers.r0, 0x0001);
    assert_eq!(vm.registers.cond, ConditionFlag::POS.bits());
    // AND r3, r1, #0
    execute_instr(0x5660, &mut vm);
    assert_eq!(vm.registers.r3, 0);
    assert_eq!(vm.registers.cond, ConditionFlag::ZRO.bits());
}

#[test]
fn not_complements() {
    let mut vm = Vm::new();
    vm.registers.r4 = 0x00ff;
    // NOT r5, r4
    execute_instr(0x9b3f, &mut vm);
    assert_eq!(vm.registers.r5, 0xff00);
    assert_eq!(vm.registers.cond, ConditionFlag::NEG.bits());
}

#[test]
fn lea_computes_address_only() {
    let mut vm = Vm::new();
    let before = vm.memory.clone();
    // LEA r0, #1 with pc at 0x3000
    execute_instr(0xe001, &mut vm);
    assert_eq!(vm.registers.r0, 0x3001);
    assert_eq!(vm.registers.cond, ConditionFlag::POS.bits());
    assert_eq!(vm.memory, before);
}

#[test]
fn loads_pc_relative_indirect_and_based() {
    let mut vm = Vm::new();
    vm.write_memory(0x3005, 0x4000);
    vm.write_memory(0x4000, 0x8001);
    vm.write_memory(0x2ffe, 0x0042);
    // LD r1, #5
    execute_instr(0x2205, &mut vm);
    assert_eq!(vm.registers.r1, 0x4000);
    assert_eq!(vm.registers.cond, ConditionFlag::POS.bits());
    // LDI r2, #5
    execute_instr(0xa405, &mut vm);
    assert_eq!(vm.registers.r2, 0x8001);
    assert_eq!(vm.registers.cond, ConditionFlag::NEG.bits());
    // LDR r3, r1, #0
    execute_instr(0x6640, &mut vm);
    assert_eq!(vm.registers.r3, 0x8001);
    // LD r4, #-2
    execute_instr(0x29fe, &mut vm);
    assert_eq!(vm.registers.r4, 0x0042);
}

#[test]
fn stores_pc_relative_indirect_and_based() {
    let mut vm = Vm::new();
    vm.registers.r1 = 0x1234;
    vm.registers.r2 = 0x5000;
    vm.registers.cond = ConditionFlag::ZRO.bits();
    vm.write_memory(0x3003, 0x6000);
    // ST r1, #2
    execute_instr(0x3202, &mut vm);
    assert_eq!(vm.read_memory(0x3002), 0x1234);
    // STI r1, #3
    execute_instr(0xb203, &mut vm);
    assert_eq!(vm.read_memory(0x6000), 0x1234);
    // STR r1, r2, #-1
    execute_instr(0x72bf, &mut vm);
    assert_eq!(vm.read_memory(0x4fff), 0x1234);
    assert_eq!(vm.registers.cond, ConditionFlag::ZRO.bits());
}

#[test]
fn branch_taken_and_not_taken() {
    let mut vm = Vm::new();
    vm.registers.cond = ConditionFlag::ZRO.bits();
    // BRn #4: not taken
    execute_instr(0x0804, &mut vm);
    assert_eq!(vm.registers.pc, 0x3000);
    // BRz #4: taken
    execute_instr(0x0404, &mut vm);
    assert_eq!(vm.registers.pc, 0x3004);
    // BRnzp #-4
    execute_instr(0x0ffc, &mut vm);
    assert_eq!(vm.registers.pc, 0x3000);
}

#[test]
fn jmp_to_base_register() {
    let mut vm = Vm::new();
    vm.registers.r3 = 0x4567;
    // JMP r3
    execute_instr(0xc0c0, &mut vm);
    assert_eq!(vm.registers.pc, 0x4567);
}

#[test]
fn jsr_saves_pc_in_both_forms() {
    let mut vm = Vm::new();
    // JSR #5
    execute_instr(0x4805, &mut vm);
    assert_eq!(vm.registers.r7, 0x3000);
    assert_eq!(vm.registers.pc, 0x3005);
    // JSRR r3
    vm.registers.r3 = 0x4000;
    execute_instr(0x40c0, &mut vm);
    assert_eq!(vm.registers.r7, 0x3005);
    assert_eq!(vm.registers.pc, 0x4000);
    // JSRR r7 jumps to the old r7
    execute_instr(0x41c0, &mut vm);
    assert_eq!(vm.registers.r7, 0x4000);
    assert_eq!(vm.registers.pc, 0x3005);
}

#[test]
fn reserved_opcodes_are_unimplemented() {
    let mut vm = Vm::new();
    assert_eq!(execute_instr(0x8000, &mut vm), Step::Halted(Halt::Unimplemented(OpCode::RTI)));
    assert_eq!(execute_instr(0xd000, &mut vm), Step::Halted(Halt::Unimplemented(OpCode::RES)));
}

#[test]
fn unknown_trap_vector() {
    let mut vm = Vm::new();
    assert_eq!(execute_instr(0xf0ff, &mut vm), Step::Halted(Halt::UnknownTrap(0xff)));
}

#[test]
fn halt_program_stops_normally() {
    let mut vm = loaded(&[0x3000, 0xf025]);
    assert_eq!(execute_program(&mut vm, 100), Step::Halted(Halt::Normal));
    assert!(vm.take_output().is_empty());
    assert_eq!(vm.registers.pc, 0x3001);
}

#[test]
fn puts_writes_string_without_terminator() {
    let mut vm = loaded(&[0x3000, 0xe001, 0xf022, 'H' as u16, 'i' as u16, 0x0000]);
    assert_eq!(execute_program(&mut vm, 2), Step::Continue);
    assert_eq!(vm.registers.r0, 0x3002);
    assert_eq!(vm.take_output(), b"Hi".to_vec());
    assert!(vm.output.is_empty());
}

#[test]
fn puts_stops_at_zero_word_only() {
    let mut vm = loaded(&[0x3000, 0xe002, 0xf022, 0xf025, 0x0141, 0x0042, 0x0000]);
    assert_eq!(execute_program(&mut vm, 10), Step::Halted(Halt::Normal));
    assert_eq!(vm.take_output(), b"AB".to_vec());
}

#[test]
fn putsp_writes_two_characters_per_word() {
    let mut vm = loaded(&[0x3000, 0xe002, 0xf024, 0xf025, 0x6548, 0x006c, 0x0000]);
    assert_eq!(execute_program(&mut vm, 10), Step::Halted(Halt::Normal));
    assert_eq!(vm.take_output(), b"Hel".to_vec());
}

#[test]
fn out_writes_r0() {
    let mut vm = Vm::new();
    vm.registers.r0 = 0x0141;
    assert_eq!(execute_instr(0xf021, &mut vm), Step::Continue);
    assert_eq!(vm.output, vec![0x41u8]);
    assert_eq!(vm.registers.r7, 0x3000);
}

#[test]
fn input_traps_ask_the_host() {
    let mut vm = loaded(&[0x3000, 0xf020, 0xf023, 0xf025]);
    assert_eq!(execute_program(&mut vm, 10), Step::NeedChar { echo: false });
    vm.receive_char(b'x', false);
    assert_eq!(vm.registers.r0, 'x' as u16);
    assert!(vm.output.is_empty());
    assert_eq!(execute_program(&mut vm, 10), Step::NeedChar { echo: true });
    vm.receive_char(b'y', true);
    assert_eq!(vm.registers.r0, 'y' as u16);
    assert_eq!(vm.output, b"y".to_vec());
    assert_eq!(execute_program(&mut vm, 10), Step::Halted(Halt::Normal));
}

#[test]
fn top_of_memory_is_out_of_bounds() {
    let mut vm = Vm::new();
    vm.registers.pc = 0xffff;
    assert_eq!(step(&mut vm), Step::Halted(Halt::OutOfBounds));
    let mut vm = Vm::new();
    vm.registers.pc = 0xfffe;
    assert_eq!(execute_program(&mut vm, 10), Step::Halted(Halt::OutOfBounds));
    assert_eq!(vm.registers.pc, 0xffff);
}

#[test]
fn load_places_big_endian_words() {
    let mut vm = Vm::new();
    assert_eq!(vm.load(&[0x40, 0x00, 0x12, 0x34, 0xab, 0xcd]), Ok(()));
    assert_eq!(vm.registers.pc, 0x4000);
    assert_eq!(vm.read_memory(0x4000), 0x1234);
    assert_eq!(vm.read_memory(0x4001), 0xabcd);
    assert_eq!(vm.read_memory(0x4002), 0);
}

#[test]
fn load_errors() {
    let mut vm = Vm::new();
    assert_eq!(vm.load(&[]), Err(LoadError::Empty));
    assert_eq!(vm.load(&[0x30, 0x00, 0x12]), Err(LoadError::Truncated));
    assert_eq!(vm.load(&[0xff, 0xff, 0x00, 0x01, 0x00, 0x02]), Err(LoadError::TooLong));
    assert_eq!(vm.load(&[0xff, 0xff, 0x00, 0x01]), Ok(()));
    assert_eq!(vm.read_memory(0xffff), 1);
}

#[test]
fn budget_runs_out() {
    let mut vm = loaded(&[0x3000, 0x0fff]);
    // BRnzp #-1 with no flag set yet never branches; memory is zero after it
    assert_eq!(execute_program(&mut vm, 3), Step::Continue);
    assert_eq!(vm.registers.pc, 0x3003);
}
