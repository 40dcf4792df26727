use vstd::prelude::*;
use crate::instr::{exec_spec, execute_instr, Halt, Step};
use crate::registers::{Registers, PC_START, R_PC};

verus! {

/// Number of 16-bit words in memory: the whole 16-bit address space.
pub const MEMORY_SIZE: usize = 65536;

/// The state of a machine as a mathematical value: its register file, its
/// memory and the characters it has written to its output stream.
pub struct Machine {
    pub registers: Registers,
    pub memory: Seq<u16>,
    pub output: Seq<u8>,
}

impl Machine {
    pub open spec fn with_registers(self, r: Registers) -> Machine {
        Machine { registers: r, memory: self.memory, output: self.output }
    }

    pub open spec fn with_memory(self, a: u16, v: u16) -> Machine {
        Machine { registers: self.registers, memory: self.memory.update(a as int, v), output: self.output }
    }

    pub open spec fn with_output(self, out: Seq<u8>) -> Machine {
        Machine { registers: self.registers, memory: self.memory, output: out }
    }

    /// The word at address `a`.
    pub open spec fn mem(self, a: u16) -> u16 {
        self.memory[a as int]
    }

    pub open spec fn wf(self) -> bool {
        self.memory.len() == MEMORY_SIZE
    }
}

/// A machine: one register file, one memory covering every 16-bit address,
/// and the characters written by output traps that the host has not yet
/// taken.
pub struct Vm {
    pub memory: Vec<u16>,
    pub registers: Registers,
    pub output: Vec<u8>,
}

impl View for Vm {
    type V = Machine;

    open spec fn view(&self) -> Machine {
        Machine { registers: self.registers, memory: self.memory@, output: self.output@ }
    }
}

impl Vm {
    /// Memory spans exactly the 16-bit address space.
    pub open spec fn wf(&self) -> bool {
        self@.wf()
    }

    /// A machine with zeroed memory, zeroed registers, the program counter at
    /// the start address and no pending output.
    pub fn new() -> (r: Vm)
        ensures
            r.wf(),
            forall|a: int| 0 <= a < MEMORY_SIZE ==> r.memory@[a] == 0,
            forall|i: int| 0 <= i < 10 && i != 8 ==> r.registers.at(i) == 0,
            r.registers.pc == PC_START,
            r.output@.len() == 0,
    {
        let memory = vec![0u16; MEMORY_SIZE];
        assert forall|a: int| 0 <= a < MEMORY_SIZE implies memory@[a] == 0 by {
            assert(cloned(0u16, memory@[a]));
        }
        Vm { memory, registers: Registers::new(), output: Vec::new() }
    }

    /// Stores `value` at `address`.
    pub fn write_memory(&mut self, address: usize, value: u16)
        requires
            old(self).wf(),
            address < MEMORY_SIZE,
        ensures
            final(self)@ == old(self)@.with_memory(address as u16, value),
            final(self).wf(),
    {
        self.memory.set(address, value);
    }

    /// The word at `address`.
    pub fn read_memory(&self, address: u16) -> (r: u16)
        requires
            self.wf(),
        ensures
            r == self@.mem(address),
    {
        self.memory[address as usize]
    }
}


/// `m` after the host hands it the character `c` that a console input trap
/// asked for: r0 holds it, and it is echoed to the output when `echo`.
pub open spec fn input_spec(m: Machine, c: u8, echo: bool) -> Machine {
    let m1 = m.with_registers(m.registers.set(0, c as u16));
    if echo {
        m1.with_output(m1.output.push(c))
    } else {
        m1
    }
}

/// One fetch-decode-execute cycle. The word at the top address is never
/// executed: the program counter would run past the end of memory.
pub open spec fn cycle_spec(m: Machine) -> (Machine, Step) {
    let pc = m.registers.pc;
    if pc == 0xffff {
        (m, Step::Halted(Halt::OutOfBounds))
    } else {
        exec_spec(m.with_registers(m.registers.set(R_PC as int, (pc + 1) as u16)), m.mem(pc))
    }
}

/// At most `n` cycles from `m`, stopping at the first that does not say
/// `Continue`; `Continue` when all `n` said so.
pub open spec fn run(m: Machine, n: nat) -> (Machine, Step)
    decreases n,
{
    if n == 0 {
        (m, Step::Continue)
    } else {
        let (m1, s) = cycle_spec(m);
        if s == Step::Continue {
            run(m1, (n - 1) as nat)
        } else {
            (m1, s)
        }
    }
}

impl Vm {
    /// Hands the machine the character that a console input trap asked for.
    pub fn receive_char(&mut self, c: u8, echo: bool)
        requires
            old(self).wf(),
        ensures
            final(self)@ == input_spec(old(self)@, c, echo),
            final(self).wf(),
    {
        self.registers.update(0, c as u16);
        if echo {
            self.output.push(c);
        }
    }

    /// Hands over the characters written since the last call.
    pub fn take_output(&mut self) -> (r: Vec<u8>)
        ensures
            r@ == old(self).output@,
            final(self)@ == old(self)@.with_output(seq![]),
    {
        let mut out = Vec::new();
        std::mem::swap(&mut out, &mut self.output);
        out
    }
}

/// Fetches the word at the program counter, advances the counter and
/// executes the word.
pub fn step(vm: &mut Vm) -> (r: Step)
    requires
        old(vm).wf(),
    ensures
        (final(vm)@, r) == cycle_spec(old(vm)@),
        final(vm).wf(),
{
    let pc = vm.registers.pc;
    if pc == 0xffff {
        return Step::Halted(Halt::OutOfBounds);
    }
    let instr = vm.read_memory(pc);
    vm.registers.update(R_PC, pc + 1);
    execute_instr(instr, vm)
}

/// Runs at most `max_steps` cycles, stopping early at the first that asks
/// something of the host or halts, and returns what the last cycle said.
pub fn execute_program(vm: &mut Vm, max_steps: u64) -> (r: Step)
    requires
        old(vm).wf(),
    ensures
        (final(vm)@, r) == run(old(vm)@, max_steps as nat),
        final(vm).wf(),
{
    let mut i: u64 = 0;
    while i < max_steps
        invariant
            vm.wf(),
            i <= max_steps,
            run(old(vm)@, max_steps as nat) == run(vm@, (max_steps - i) as nat),
        decreases max_steps - i,
    {
        let s = step(vm);
        if s != Step::Continue {
            return s;
        }
        i = i + 1;
    }
    Step::Continue
}

} // verus!
