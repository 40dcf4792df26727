use vstd::prelude::*;

verus! {

/// Address at which a fresh machine starts executing.
pub const PC_START: u16 = 0x3000;

/// Index of the program counter in the register file.
pub const R_PC: u16 = 8;

/// Index of the condition-flag register in the register file.
pub const R_COND: u16 = 9;

/// The three condition flags; exactly one is held by the condition register
/// after a flag-setting instruction.
#[derive(Clone, Copy, Debug, PartialEq, Eq, Structural)]
pub enum ConditionFlag {
    POS,
    ZRO,
    NEG,
}

impl ConditionFlag {
    pub open spec fn spec_bits(self) -> u16 {
        match self {
            ConditionFlag::POS => 1,
            ConditionFlag::ZRO => 2,
            ConditionFlag::NEG => 4,
        }
    }

    /// The bit of the condition register that stands for this flag.
    pub fn bits(&self) -> (r: u16)
        ensures
            r == self.spec_bits(),
    {
        match self {
            ConditionFlag::POS => 1,
            ConditionFlag::ZRO => 2,
            ConditionFlag::NEG => 4,
        }
    }
}

/// The flag that a register value sets: ZERO for `0`, NEGATIVE when the sign
/// bit is set, POSITIVE otherwise.
pub open spec fn flag_of(v: u16) -> ConditionFlag {
    if v == 0 {
        ConditionFlag::ZRO
    } else if v >= 0x8000 {
        ConditionFlag::NEG
    } else {
        ConditionFlag::POS
    }
}

/// Eight general-purpose registers, the program counter and the condition
/// register; indices 0 to 7, 8 and 9.
#[derive(Clone, Copy, Debug, PartialEq, Eq, Structural)]
pub struct Registers {
    pub r0: u16,
    pub r1: u16,
    pub r2: u16,
    pub r3: u16,
    pub r4: u16,
    pub r5: u16,
    pub r6: u16,
    pub r7: u16,
    pub pc: u16,
    pub cond: u16,
}

impl Registers {
    /// The value of register `i`.
    pub open spec fn at(self, i: int) -> u16
        recommends
            0 <= i < 10,
    {
        if i == 0 {
            self.r0
        } else if i == 1 {
            self.r1
        } else if i == 2 {
            self.r2
        } else if i == 3 {
            self.r3
        } else if i == 4 {
            self.r4
        } else if i == 5 {
            self.r5
        } else if i == 6 {
            self.r6
        } else if i == 7 {
            self.r7
        } else if i == 8 {
            self.pc
        } else {
            self.cond
        }
    }

    /// The register file with register `i` holding `v` and every other
    /// register unchanged.
    pub open spec fn set(self, i: int, v: u16) -> Registers
        recommends
            0 <= i < 10,
    {
        Registers {
            r0: if i == 0 { v } else { self.r0 },
            r1: if i == 1 { v } else { self.r1 },
            r2: if i == 2 { v } else { self.r2 },
            r3: if i == 3 { v } else { self.r3 },
            r4: if i == 4 { v } else { self.r4 },
            r5: if i == 5 { v } else { self.r5 },
            r6: if i == 6 { v } else { self.r6 },
            r7: if i == 7 { v } else { self.r7 },
            pc: if i == 8 { v } else { self.pc },
            cond: if i == 9 { v } else { self.cond },
        }
    }

    /// Register `i` holds `v`, and the condition register the flag of `v`.
    pub open spec fn set_with_flag(self, i: int, v: u16) -> Registers {
        self.set(i, v).set(R_COND as int, flag_of(v).spec_bits())
    }

    /// The condition register holds exactly one of the three flags.
    pub open spec fn has_one_flag(self) -> bool {
        self.cond == 1 || self.cond == 2 || self.cond == 4
    }

    /// All registers zero but the program counter, which is at the start
    /// address.
    pub fn new() -> (r: Registers)
        ensures
            forall|i: int| 0 <= i < 10 && i != R_PC ==> r.at(i) == 0,
            r.pc == PC_START,
    {
        Registers {
            r0: 0,
            r1: 0,
            r2: 0,
            r3: 0,
            r4: 0,
            r5: 0,
            r6: 0,
            r7: 0,
            pc: PC_START,
            cond: 0,
        }
    }

    /// Overwrites register `index`.
    pub fn update(&mut self, index: u16, value: u16)
        requires
            index < 10,
        ensures
            *final(self) == old(self).set(index as int, value),
    {
        match index {
            0 => self.r0 = value,
            1 => self.r1 = value,
            2 => self.r2 = value,
            3 => self.r3 = value,
            4 => self.r4 = value,
            5 => self.r5 = value,
            6 => self.r6 = value,
            7 => self.r7 = value,
            8 => self.pc = value,
            _ => self.cond = value,
        }
    }

    /// The value of register `index`.
    pub fn get(&self, index: u16) -> (r: u16)
        requires
            index < 10,
        ensures
            r == self.at(index as int),
    {
        match index {
            0 => self.r0,
            1 => self.r1,
            2 => self.r2,
            3 => self.r3,
            4 => self.r4,
            5 => self.r5,
            6 => self.r6,
            7 => self.r7,
            8 => self.pc,
            _ => self.cond,
        }
    }

    /// Sets the condition register to the flag of the current value of
    /// register `r`.
    pub fn update_r_cond_register(&mut self, r: u16)
        requires
            r < 10,
        ensures
            *final(self) == old(self).set(R_COND as int, flag_of(old(self).at(r as int)).spec_bits()),
            final(self).has_one_flag(),
    {
        let v = self.get(r);
        if v == 0 {
            self.update(R_COND, ConditionFlag::ZRO.bits());
        } else if (v >> 15u16) != 0 {
            // the sign bit marks a negative value
            assert((v >> 15u16) != 0 ==> v >= 0x8000) by (bit_vector);
            self.update(R_COND, ConditionFlag::NEG.bits());
        } else {
            assert((v >> 15u16) == 0 ==> v < 0x8000) by (bit_vector);
            self.update(R_COND, ConditionFlag::POS.bits());
        }
    }
}

} // verus!
