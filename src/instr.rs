use vstd::prelude::*;
use crate::registers::{Registers, R_COND, R_PC};
use crate::vm::{Machine, Vm};

verus! {

/// The sixteen opcodes, in the order of their 4-bit codes.
#[derive(Clone, Copy, Debug, PartialEq, Eq, Structural)]
pub enum OpCode {
    /// conditional branch
    BR,
    /// addition
    ADD,
    /// load, pc-relative
    LD,
    /// store, pc-relative
    ST,
    /// jump to subroutine
    JSR,
    /// bitwise and
    AND,
    /// load, base plus offset
    LDR,
    /// store, base plus offset
    STR,
    /// return from interrupt (reserved)
    RTI,
    /// bitwise complement
    NOT,
    /// load indirect
    LDI,
    /// store indirect
    STI,
    /// jump
    JMP,
    /// reserved
    RES,
    /// load effective address
    LEA,
    /// system call
    TRAP,
}

impl OpCode {
    /// The 4-bit code of this opcode.
    pub open spec fn code(self) -> u16 {
        match self {
            OpCode::BR => 0,
            OpCode::ADD => 1,
            OpCode::LD => 2,
            OpCode::ST => 3,
            OpCode::JSR => 4,
            OpCode::AND => 5,
            OpCode::LDR => 6,
            OpCode::STR => 7,
            OpCode::RTI => 8,
            OpCode::NOT => 9,
            OpCode::LDI => 10,
            OpCode::STI => 11,
            OpCode::JMP => 12,
            OpCode::RES => 13,
            OpCode::LEA => 14,
            OpCode::TRAP => 15,
        }
    }
}

/// The opcode whose code is `n`.
pub open spec fn opcode_of(n: u16) -> OpCode
    recommends
        n < 16,
{
    if n == 0 {
        OpCode::BR
    } else if n == 1 {
        OpCode::ADD
    } else if n == 2 {
        OpCode::LD
    } else if n == 3 {
        OpCode::ST
    } else if n == 4 {
        OpCode::JSR
    } else if n == 5 {
        OpCode::AND
    } else if n == 6 {
        OpCode::LDR
    } else if n == 7 {
        OpCode::STR
    } else if n == 8 {
        OpCode::RTI
    } else if n == 9 {
        OpCode::NOT
    } else if n == 10 {
        OpCode::LDI
    } else if n == 11 {
        OpCode::STI
    } else if n == 12 {
        OpCode::JMP
    } else if n == 13 {
        OpCode::RES
    } else if n == 14 {
        OpCode::LEA
    } else {
        OpCode::TRAP
    }
}

/// The opcode of an instruction word: the one named by bits 15 to 12.
pub open spec fn decode(instr: u16) -> OpCode {
    opcode_of(instr >> 12u16)
}

/// Decodes the opcode of `instr`; every word has one.
pub fn get_op_code(instr: &u16) -> (r: Option<OpCode>)
    ensures
        r == Some(decode(*instr)),
        decode(*instr).code() == *instr >> 12u16,
{
    let n = *instr >> 12u16;
    assert(n < 16) by (bit_vector)
        requires
            n == *instr >> 12u16,
    ;
    match n {
        0 => Some(OpCode::BR),
        1 => Some(OpCode::ADD),
        2 => Some(OpCode::LD),
        3 => Some(OpCode::ST),
        4 => Some(OpCode::JSR),
        5 => Some(OpCode::AND),
        6 => Some(OpCode::LDR),
        7 => Some(OpCode::STR),
        8 => Some(OpCode::RTI),
        9 => Some(OpCode::NOT),
        10 => Some(OpCode::LDI),
        11 => Some(OpCode::STI),
        12 => Some(OpCode::JMP),
        13 => Some(OpCode::RES),
        14 => Some(OpCode::LEA),
        _ => Some(OpCode::TRAP),
    }
}

/// Two instruction words decode to the same opcode exactly when their top
/// four bits agree, and each decodes to the opcode whose code those bits are.
pub proof fn lemma_decode_by_top_bits(a: u16, b: u16)
    ensures
        decode(a).code() == a >> 12u16,
        decode(a) == decode(b) <==> (a >> 12u16) == (b >> 12u16),
{
    assert(a >> 12u16 < 16) by (bit_vector);
    assert(b >> 12u16 < 16) by (bit_vector);
}

/// `x` widened from a `k`-bit field: when bit `k - 1` is set, every bit
/// above it is set too; otherwise `x` is unchanged.
pub open spec fn sext(x: u16, k: u16) -> u16 {
    if (x >> ((k - 1) as u16)) & 1u16 == 0 {
        x
    } else {
        x | (0xffffu16 << k)
    }
}

/// Sign-extends the `bit_count`-bit field `x` to 16 bits.
pub fn sign_extend(x: u16, bit_count: u8) -> (r: u16)
    requires
        1 <= bit_count <= 15,
    ensures
        r == sext(x, bit_count as u16),
{
    let k = bit_count as u16;
    if (x >> (k - 1)) & 1 != 0 {
        x | (0xffffu16 << k)
    } else {
        x
    }
}

/// Extending a value that was already extended at the same width changes
/// nothing.
pub proof fn lemma_sext_idempotent(x: u16, k: u16)
    requires
        1 <= k <= 15,
    ensures
        sext(sext(x, k), k) == sext(x, k),
{
    let km1 = (k - 1) as u16;
    assert(((x >> km1) & 1u16 != 0) ==> (((x | (0xffffu16 << k)) >> km1) & 1u16 != 0))
        by (bit_vector)
        requires
            1 <= k <= 15,
            km1 == k - 1,
    ;
    assert((x | (0xffffu16 << k)) | (0xffffu16 << k) == x | (0xffffu16 << k)) by (bit_vector);
}


/// Sum of two words, wrapping at 2^16.
pub open spec fn wadd(a: u16, b: u16) -> u16 {
    (a + b) as u16
}

/// Destination (or, for stores, source) register: bits 11 to 9.
pub open spec fn dr(instr: u16) -> u16 {
    (instr >> 9u16) & 7u16
}

/// First source (or base) register: bits 8 to 6.
pub open spec fn sr1(instr: u16) -> u16 {
    (instr >> 6u16) & 7u16
}

/// Second source register: bits 2 to 0.
pub open spec fn sr2(instr: u16) -> u16 {
    instr & 7u16
}

/// Bit 5: the second operand is an immediate.
pub open spec fn imm_flag(instr: u16) -> bool {
    (instr >> 5u16) & 1u16 == 1
}

/// Bit 11: JSR takes a pc-relative offset rather than a base register.
pub open spec fn long_flag(instr: u16) -> bool {
    (instr >> 11u16) & 1u16 == 1
}

pub open spec fn imm5(instr: u16) -> u16 {
    sext(instr & 0x1fu16, 5)
}

pub open spec fn offset6(instr: u16) -> u16 {
    sext(instr & 0x3fu16, 6)
}

pub open spec fn offset9(instr: u16) -> u16 {
    sext(instr & 0x1ffu16, 9)
}

pub open spec fn offset11(instr: u16) -> u16 {
    sext(instr & 0x7ffu16, 11)
}

/// The pc-relative address named by an instruction.
pub open spec fn pc_address(m: Machine, instr: u16) -> u16 {
    wadd(m.registers.pc, offset9(instr))
}

/// The base-plus-offset address named by an instruction.
pub open spec fn base_address(m: Machine, instr: u16) -> u16 {
    wadd(m.registers.at(sr1(instr) as int), offset6(instr))
}

/// `m` with register `r` holding `v` and the condition flag set from `v`.
pub open spec fn load_reg(m: Machine, r: u16, v: u16) -> Machine {
    m.with_registers(m.registers.set_with_flag(r as int, v))
}

/// The second operand of ADD and AND.
pub open spec fn operand2(m: Machine, instr: u16) -> u16 {
    if imm_flag(instr) {
        imm5(instr)
    } else {
        m.registers.at(sr2(instr) as int)
    }
}

pub open spec fn add_spec(m: Machine, instr: u16) -> Machine {
    load_reg(m, dr(instr), wadd(m.registers.at(sr1(instr) as int), operand2(m, instr)))
}

pub open spec fn and_spec(m: Machine, instr: u16) -> Machine {
    load_reg(m, dr(instr), m.registers.at(sr1(instr) as int) & operand2(m, instr))
}

pub open spec fn not_spec(m: Machine, instr: u16) -> Machine {
    load_reg(m, dr(instr), !m.registers.at(sr1(instr) as int))
}

pub open spec fn ld_spec(m: Machine, instr: u16) -> Machine {
    load_reg(m, dr(instr), m.mem(pc_address(m, instr)))
}

pub open spec fn ldi_spec(m: Machine, instr: u16) -> Machine {
    load_reg(m, dr(instr), m.mem(m.mem(pc_address(m, instr))))
}

pub open spec fn ldr_spec(m: Machine, instr: u16) -> Machine {
    load_reg(m, dr(instr), m.mem(base_address(m, instr)))
}

pub open spec fn lea_spec(m: Machine, instr: u16) -> Machine {
    load_reg(m, dr(instr), pc_address(m, instr))
}

pub open spec fn st_spec(m: Machine, instr: u16) -> Machine {
    m.with_memory(pc_address(m, instr), m.registers.at(dr(instr) as int))
}

pub open spec fn sti_spec(m: Machine, instr: u16) -> Machine {
    m.with_memory(m.mem(pc_address(m, instr)), m.registers.at(dr(instr) as int))
}

pub open spec fn str_spec(m: Machine, instr: u16) -> Machine {
    m.with_memory(base_address(m, instr), m.registers.at(dr(instr) as int))
}

/// BR: branch when one of the condition bits (11 to 9) is among the flags.
pub open spec fn br_spec(m: Machine, instr: u16) -> Machine {
    if dr(instr) & m.registers.cond != 0 {
        m.with_registers(m.registers.set(R_PC as int, pc_address(m, instr)))
    } else {
        m
    }
}

pub open spec fn jmp_spec(m: Machine, instr: u16) -> Machine {
    m.with_registers(m.registers.set(R_PC as int, m.registers.at(sr1(instr) as int)))
}

/// JSR and JSRR: r7 receives the program counter, which then moves to the
/// pc-relative target or to the base register's value.
pub open spec fn jsr_spec(m: Machine, instr: u16) -> Machine {
    let target = if long_flag(instr) {
        wadd(m.registers.pc, offset11(instr))
    } else {
        m.registers.at(sr1(instr) as int)
    };
    m.with_registers(m.registers.set(7, m.registers.pc).set(R_PC as int, target))
}

fn dr_field(instr: u16) -> (r: u16)
    ensures
        r == dr(instr),
        r < 8,
{
    let r = (instr >> 9u16) & 7u16;
    assert(r < 8) by (bit_vector)
        requires
            r == (instr >> 9u16) & 7u16,
    ;
    r
}

fn sr1_field(instr: u16) -> (r: u16)
    ensures
        r == sr1(instr),
        r < 8,
{
    let r = (instr >> 6u16) & 7u16;
    assert(r < 8) by (bit_vector)
        requires
            r == (instr >> 6u16) & 7u16,
    ;
    r
}

fn sr2_field(instr: u16) -> (r: u16)
    ensures
        r == sr2(instr),
        r < 8,
{
    let r = instr & 7u16;
    assert(r < 8) by (bit_vector)
        requires
            r == instr & 7u16,
    ;
    r
}

fn second_operand(instr: u16, vm: &Vm) -> (r: u16)
    ensures
        r == operand2(vm@, instr),
{
    if (instr >> 5u16) & 1u16 == 1 {
        sign_extend(instr & 0x1f, 5)
    } else {
        vm.registers.get(sr2_field(instr))
    }
}

fn pc_target(instr: u16, vm: &Vm) -> (r: u16)
    ensures
        r == pc_address(vm@, instr),
{
    let offset = sign_extend(instr & 0x1ff, 9);
    (vm.registers.pc as u32 + offset as u32) as u16
}

fn base_target(instr: u16, vm: &Vm) -> (r: u16)
    ensures
        r == base_address(vm@, instr),
{
    let offset = sign_extend(instr & 0x3f, 6);
    (vm.registers.get(sr1_field(instr)) as u32 + offset as u32) as u16
}

/// Writes `value` to register `r` and sets the condition flag from it.
fn load_register(vm: &mut Vm, r: u16, value: u16)
    requires
        r < 8,
    ensures
        final(vm)@ == load_reg(old(vm)@, r, value),
{
    vm.registers.update(r, value);
    vm.registers.update_r_cond_register(r);
}

/// LEA: the destination receives a pc-relative address; memory is not read.
pub fn lea(instr: u16, vm: &mut Vm)
    ensures
        final(vm)@ == lea_spec(old(vm)@, instr),
{
    let value = pc_target(instr, vm);
    load_register(vm, dr_field(instr), value);
}

/// ADD: register plus register or immediate, wrapping at 2^16.
pub fn add(instr: u16, vm: &mut Vm)
    ensures
        final(vm)@ == add_spec(old(vm)@, instr),
{
    let a = vm.registers.get(sr1_field(instr));
    let b = second_operand(instr, vm);
    load_register(vm, dr_field(instr), (a as u32 + b as u32) as u16);
}

/// AND: register and register or immediate, bitwise.
pub fn and(instr: u16, vm: &mut Vm)
    ensures
        final(vm)@ == and_spec(old(vm)@, instr),
{
    let a = vm.registers.get(sr1_field(instr));
    let b = second_operand(instr, vm);
    load_register(vm, dr_field(instr), a & b);
}

/// NOT: bitwise complement of a register.
pub fn not(instr: u16, vm: &mut Vm)
    ensures
        final(vm)@ == not_spec(old(vm)@, instr),
{
    let a = vm.registers.get(sr1_field(instr));
    load_register(vm, dr_field(instr), !a);
}

/// LD: load from a pc-relative address.
pub fn ld(instr: u16, vm: &mut Vm)
    requires
        old(vm).wf(),
    ensures
        final(vm)@ == ld_spec(old(vm)@, instr),
{
    let value = vm.read_memory(pc_target(instr, vm));
    load_register(vm, dr_field(instr), value);
}

/// LDI: load from the address held at a pc-relative address.
pub fn ldi(instr: u16, vm: &mut Vm)
    requires
        old(vm).wf(),
    ensures
        final(vm)@ == ldi_spec(old(vm)@, instr),
{
    let indirect = vm.read_memory(pc_target(instr, vm));
    let value = vm.read_memory(indirect);
    load_register(vm, dr_field(instr), value);
}

/// LDR: load from a base register plus offset.
pub fn ldr(instr: u16, vm: &mut Vm)
    requires
        old(vm).wf(),
    ensures
        final(vm)@ == ldr_spec(old(vm)@, instr),
{
    let value = vm.read_memory(base_target(instr, vm));
    load_register(vm, dr_field(instr), value);
}

/// ST: store to a pc-relative address.
pub fn st(instr: u16, vm: &mut Vm)
    requires
        old(vm).wf(),
    ensures
        final(vm)@ == st_spec(old(vm)@, instr),
{
    let address = pc_target(instr, vm);
    let value = vm.registers.get(dr_field(instr));
    vm.write_memory(address as usize, value);
}

/// STI: store to the address held at a pc-relative address.
pub fn sti(instr: u16, vm: &mut Vm)
    requires
        old(vm).wf(),
    ensures
        final(vm)@ == sti_spec(old(vm)@, instr),
{
    let address = vm.read_memory(pc_target(instr, vm));
    let value = vm.registers.get(dr_field(instr));
    vm.write_memory(address as usize, value);
}

/// STR: store to a base register plus offset.
pub fn str(instr: u16, vm: &mut Vm)
    requires
        old(vm).wf(),
    ensures
        final(vm)@ == str_spec(old(vm)@, instr),
{
    let address = base_target(instr, vm);
    let value = vm.registers.get(dr_field(instr));
    vm.write_memory(address as usize, value);
}

/// BR: conditional pc-relative branch.
pub fn br(instr: u16, vm: &mut Vm)
    ensures
        final(vm)@ == br_spec(old(vm)@, instr),
{
    if dr_field(instr) & vm.registers.cond != 0 {
        let target = pc_target(instr, vm);
        vm.registers.update(R_PC, target);
    }
}

/// JMP: the program counter takes a base register's value.
pub fn jmp(instr: u16, vm: &mut Vm)
    ensures
        final(vm)@ == jmp_spec(old(vm)@, instr),
{
    let target = vm.registers.get(sr1_field(instr));
    vm.registers.update(R_PC, target);
}

/// JSR / JSRR: jump to a subroutine, keeping the return address in r7.
pub fn jsr(instr: u16, vm: &mut Vm)
    ensures
        final(vm)@ == jsr_spec(old(vm)@, instr),
{
    let return_address = vm.registers.pc;
    let target = if (instr >> 11u16) & 1u16 == 1 {
        let offset = sign_extend(instr & 0x7ff, 11);
        (return_address as u32 + offset as u32) as u16
    } else {
        vm.registers.get(sr1_field(instr))
    };
    vm.registers.update(7, return_address);
    vm.registers.update(R_PC, target);
}


/// Why the machine stopped.
#[derive(Clone, Copy, Debug, PartialEq, Eq, Structural)]
pub enum Halt {
    /// The halt trap ran.
    Normal,
    /// A reserved opcode was met.
    Unimplemented(OpCode),
    /// The program counter ran past the top of memory.
    OutOfBounds,
    /// A trap with an unknown vector (its low eight bits) was met.
    UnknownTrap(u16),
}

/// What the host must do after one instruction.
#[derive(Clone, Copy, Debug, PartialEq, Eq, Structural)]
pub enum Step {
    /// Nothing: go on executing.
    Continue,
    /// Read one character into r0, echoing it to the output when `echo`.
    NeedChar { echo: bool },
    /// Stop.
    Halted(Halt),
}

/// Characters of the zero-terminated string at `a`, one per word in its low
/// byte, reading at most `fuel` words, wrapping at the top of memory.
pub open spec fn string_at(mem: Seq<u16>, a: u16, fuel: nat) -> Seq<u8>
    decreases fuel,
{
    if fuel == 0 || mem[a as int] == 0 {
        seq![]
    } else {
        seq![mem[a as int] as u8] + string_at(mem, wadd(a, 1), (fuel - 1) as nat)
    }
}

/// The characters of one word of a packed string: the low byte, then the
/// high byte unless it is zero.
pub open spec fn packed_chars(w: u16) -> Seq<u8> {
    if (w >> 8u16) as u8 == 0 {
        seq![(w & 0xffu16) as u8]
    } else {
        seq![(w & 0xffu16) as u8, (w >> 8u16) as u8]
    }
}

/// Characters of the zero-terminated packed string at `a`, two per word.
pub open spec fn packed_string_at(mem: Seq<u16>, a: u16, fuel: nat) -> Seq<u8>
    decreases fuel,
{
    if fuel == 0 || mem[a as int] == 0 {
        seq![]
    } else {
        packed_chars(mem[a as int]) + packed_string_at(mem, wadd(a, 1), (fuel - 1) as nat)
    }
}

/// TRAP: r7 receives the program counter; the routine named by the low
/// eight bits then runs.
pub open spec fn trap_spec(m0: Machine, instr: u16) -> (Machine, Step) {
    let m = m0.with_registers(m0.registers.set(7, m0.registers.pc));
    let vector = instr & 0xffu16;
    if vector == 0x20 {
        (m, Step::NeedChar { echo: false })
    } else if vector == 0x21 {
        (m.with_output(m.output.push(m.registers.r0 as u8)), Step::Continue)
    } else if vector == 0x22 {
        (m.with_output(m.output + string_at(m.memory, m.registers.r0, 0x10000)), Step::Continue)
    } else if vector == 0x23 {
        (m, Step::NeedChar { echo: true })
    } else if vector == 0x24 {
        (m.with_output(m.output + packed_string_at(m.memory, m.registers.r0, 0x10000)), Step::Continue)
    } else if vector == 0x25 {
        (m, Step::Halted(Halt::Normal))
    } else {
        (m, Step::Halted(Halt::UnknownTrap(vector)))
    }
}

/// Appends the zero-terminated string at `start` to the output.
fn put_string(vm: &mut Vm, start: u16)
    requires
        old(vm).wf(),
    ensures
        final(vm)@ == old(vm)@.with_output(old(vm).output@ + string_at(old(vm).memory@, start, 0x10000)),
{
    let ghost mem = vm.memory@;
    let ghost out0 = vm.output@;
    let mut a: u16 = start;
    let mut n: u32 = 0;
    while n < 0x10000
        invariant
            vm.wf(),
            vm.memory@ == mem,
            vm.registers == old(vm).registers,
            n <= 0x10000,
            out0 + string_at(mem, start, 0x10000) == vm.output@ + string_at(mem, a, (0x10000 - n) as nat),
        decreases 0x10000 - n,
    {
        let w = vm.memory[a as usize];
        if w == 0 {
            n = 0x10000;
        } else {
            let ghost rest = string_at(mem, wadd(a, 1), (0x10000 - n - 1) as nat);
            assert(vm.output@.push(w as u8) + rest =~= vm.output@ + (seq![w as u8] + rest));
            vm.output.push(w as u8);
            a = (a as u32 + 1) as u16;
            n = n + 1;
        }
    }
    assert(vm.output@ + string_at(mem, a, 0) =~= vm.output@);
}

/// Appends the zero-terminated packed string at `start` to the output.
fn put_packed_string(vm: &mut Vm, start: u16)
    requires
        old(vm).wf(),
    ensures
        final(vm)@ == old(vm)@.with_output(old(vm).output@ + packed_string_at(old(vm).memory@, start, 0x10000)),
{
    let ghost mem = vm.memory@;
    let ghost out0 = vm.output@;
    let mut a: u16 = start;
    let mut n: u32 = 0;
    while n < 0x10000
        invariant
            vm.wf(),
            vm.memory@ == mem,
            vm.registers == old(vm).registers,
            n <= 0x10000,
            out0 + packed_string_at(mem, start, 0x10000) == vm.output@ + packed_string_at(mem, a, (0x10000 - n) as nat),
        decreases 0x10000 - n,
    {
        let w = vm.memory[a as usize];
        if w == 0 {
            n = 0x10000;
        } else {
            let ghost rest = packed_string_at(mem, wadd(a, 1), (0x10000 - n - 1) as nat);
            let ghost before = vm.output@;
            let low = (w & 0xff) as u8;
            let high = (w >> 8u16) as u8;
            vm.output.push(low);
            if high != 0 {
                vm.output.push(high);
            }
            assert(vm.output@ =~= before + packed_chars(w));
            assert(vm.output@ + rest =~= before + (packed_chars(w) + rest));
            a = (a as u32 + 1) as u16;
            n = n + 1;
        }
    }
    assert(vm.output@ + packed_string_at(mem, a, 0) =~= vm.output@);
}

/// TRAP: the console routines, halt, or an unknown vector.
pub fn trap(instr: u16, vm: &mut Vm) -> (r: Step)
    requires
        old(vm).wf(),
    ensures
        (final(vm)@, r) == trap_spec(old(vm)@, instr),
{
    let return_address = vm.registers.pc;
    vm.registers.update(7, return_address);
    let vector = instr & 0xff;
    if vector == 0x20 {
        Step::NeedChar { echo: false }
    } else if vector == 0x21 {
        let c = vm.registers.r0 as u8;
        vm.output.push(c);
        Step::Continue
    } else if vector == 0x22 {
        let start = vm.registers.r0;
        put_string(vm, start);
        Step::Continue
    } else if vector == 0x23 {
        Step::NeedChar { echo: true }
    } else if vector == 0x24 {
        let start = vm.registers.r0;
        put_packed_string(vm, start);
        Step::Continue
    } else if vector == 0x25 {
        Step::Halted(Halt::Normal)
    } else {
        Step::Halted(Halt::UnknownTrap(vector))
    }
}

/// The effect of executing `instr` on `m`, whose program counter has
/// already moved past it, and what the host must do next.
pub open spec fn exec_spec(m: Machine, instr: u16) -> (Machine, Step) {
    match decode(instr) {
        OpCode::BR => (br_spec(m, instr), Step::Continue),
        OpCode::ADD => (add_spec(m, instr), Step::Continue),
        OpCode::LD => (ld_spec(m, instr), Step::Continue),
        OpCode::ST => (st_spec(m, instr), Step::Continue),
        OpCode::JSR => (jsr_spec(m, instr), Step::Continue),
        OpCode::AND => (and_spec(m, instr), Step::Continue),
        OpCode::LDR => (ldr_spec(m, instr), Step::Continue),
        OpCode::STR => (str_spec(m, instr), Step::Continue),
        OpCode::NOT => (not_spec(m, instr), Step::Continue),
        OpCode::LDI => (ldi_spec(m, instr), Step::Continue),
        OpCode::STI => (sti_spec(m, instr), Step::Continue),
        OpCode::JMP => (jmp_spec(m, instr), Step::Continue),
        OpCode::LEA => (lea_spec(m, instr), Step::Continue),
        OpCode::TRAP => trap_spec(m, instr),
        OpCode::RTI => (m, Step::Halted(Halt::Unimplemented(OpCode::RTI))),
        OpCode::RES => (m, Step::Halted(Halt::Unimplemented(OpCode::RES))),
    }
}

/// Decodes `instr` and executes it on `vm`.
pub fn execute_instr(instr: u16, vm: &mut Vm) -> (r: Step)
    requires
        old(vm).wf(),
    ensures
        (final(vm)@, r) == exec_spec(old(vm)@, instr),
        final(vm).wf(),
{
    match get_op_code(&instr).unwrap() {
        OpCode::BR => {
            br(instr, vm);
            Step::Continue
        },
        OpCode::ADD => {
            crate::instr::add(instr, vm);
            Step::Continue
        },
        OpCode::LD => {
            ld(instr, vm);
            Step::Continue
        },
        OpCode::ST => {
            st(instr, vm);
            Step::Continue
        },
        OpCode::JSR => {
            jsr(instr, vm);
            Step::Continue
        },
        OpCode::AND => {
            and(instr, vm);
            Step::Continue
        },
        OpCode::LDR => {
            ldr(instr, vm);
            Step::Continue
        },
        OpCode::STR => {
            str(instr, vm);
            Step::Continue
        },
        OpCode::NOT => {
            not(instr, vm);
            Step::Continue
        },
        OpCode::LDI => {
            ldi(instr, vm);
            Step::Continue
        },
        OpCode::STI => {
            sti(instr, vm);
            Step::Continue
        },
        OpCode::JMP => {
            jmp(instr, vm);
            Step::Continue
        },
        OpCode::LEA => {
            lea(instr, vm);
            Step::Continue
        },
        OpCode::TRAP => trap(instr, vm),
        op => Step::Halted(Halt::Unimplemented(op)),
    }
}


/// The opcodes whose instructions set the condition flag.
pub open spec fn sets_flags(op: OpCode) -> bool {
    op == OpCode::ADD || op == OpCode::AND || op == OpCode::NOT || op == OpCode::LD || op
        == OpCode::LDI || op == OpCode::LDR || op == OpCode::LEA
}

/// After a flag-setting instruction the condition register holds exactly one
/// flag, the one of the value that the destination register received.
pub proof fn lemma_flag_after_instruction(m: Machine, instr: u16)
    requires
        sets_flags(decode(instr)),
    ensures
        exec_spec(m, instr).0.registers.has_one_flag(),
        exec_spec(m, instr).0.registers.cond == crate::registers::flag_of(
            exec_spec(m, instr).0.registers.at(dr(instr) as int),
        ).spec_bits(),
{
    assert(dr(instr) < 8) by (bit_vector);
}

/// JSR and JSRR leave in r7 the program counter as it was before the jump,
/// in either form.
pub proof fn lemma_jsr_saves_return_address(m: Machine, instr: u16)
    requires
        decode(instr) == OpCode::JSR,
    ensures
        exec_spec(m, instr).0.registers.r7 == m.registers.pc,
        exec_spec(m, instr).1 == Step::Continue,
{
}

} // verus!
