//! The register file: eight general-purpose registers, the program counter
//! and the condition-code register, together with the condition flags and the
//! addresses of the memory-mapped keyboard registers.

use vstd::prelude::*;

verus! {

/// Address of the memory-mapped keyboard status register.
pub const KBSR_ADDRESS: u16 = 0xFE00;

/// Address of the memory-mapped keyboard data register.
pub const KBDR_ADDRESS: u16 = 0xFE02;

/// The ten register names: eight general-purpose registers, the program
/// counter and the condition-code register. Instructions address the
/// general-purpose registers by their three-bit index; a name is always
/// produced from a decoded index, so an out-of-range index can never reach
/// the register file itself.
#[derive(Clone, Copy, Debug, PartialEq, Eq, Structural)]
pub enum Register {
    Rr0,
    Rr1,
    Rr2,
    Rr3,
    Rr4,
    Rr5,
    Rr6,
    Rr7,
    Rpc,
    Rcond,
}

/// The register name selected by a numeric index below ten.
pub open spec fn reg_of(value: u16) -> Register {
    if value == 0 {
        Register::Rr0
    } else if value == 1 {
        Register::Rr1
    } else if value == 2 {
        Register::Rr2
    } else if value == 3 {
        Register::Rr3
    } else if value == 4 {
        Register::Rr4
    } else if value == 5 {
        Register::Rr5
    } else if value == 6 {
        Register::Rr6
    } else if value == 7 {
        Register::Rr7
    } else if value == 8 {
        Register::Rpc
    } else {
        Register::Rcond
    }
}

impl Register {
    /// Converts a decoded register index into its register name. The decoder
    /// only produces indices below ten, so the conversion is total here.
    pub fn from_index(value: u16) -> (r: Register)
        requires
            value < 10,
        ensures
            r == reg_of(value),
    {
        if value == 0 {
            Register::Rr0
        } else if value == 1 {
            Register::Rr1
        } else if value == 2 {
            Register::Rr2
        } else if value == 3 {
            Register::Rr3
        } else if value == 4 {
            Register::Rr4
        } else if value == 5 {
            Register::Rr5
        } else if value == 6 {
            Register::Rr6
        } else if value == 7 {
            Register::Rr7
        } else if value == 8 {
            Register::Rpc
        } else {
            Register::Rcond
        }
    }
}

/// The register file. Every register holds one 16-bit word.
#[derive(Clone, Copy, Debug, PartialEq, Eq, Structural)]
pub struct Registers {
    pub r_r0: u16,
    pub r_r1: u16,
    pub r_r2: u16,
    pub r_r3: u16,
    pub r_r4: u16,
    pub r_r5: u16,
    pub r_r6: u16,
    pub r_r7: u16,
    pub r_pc: u16,
    pub r_cond: u16,
}

impl Registers {
    /// The contents of the named register.
    pub open spec fn read_reg(self, reg: Register) -> u16 {
        match reg {
            Register::Rr0 => self.r_r0,
            Register::Rr1 => self.r_r1,
            Register::Rr2 => self.r_r2,
            Register::Rr3 => self.r_r3,
            Register::Rr4 => self.r_r4,
            Register::Rr5 => self.r_r5,
            Register::Rr6 => self.r_r6,
            Register::Rr7 => self.r_r7,
            Register::Rpc => self.r_pc,
            Register::Rcond => self.r_cond,
        }
    }

    /// The register file after overwriting the named register.
    pub open spec fn write_reg(self, reg: Register, value: u16) -> Registers {
        match reg {
            Register::Rr0 => Registers { r_r0: value, ..self },
            Register::Rr1 => Registers { r_r1: value, ..self },
            Register::Rr2 => Registers { r_r2: value, ..self },
            Register::Rr3 => Registers { r_r3: value, ..self },
            Register::Rr4 => Registers { r_r4: value, ..self },
            Register::Rr5 => Registers { r_r5: value, ..self },
            Register::Rr6 => Registers { r_r6: value, ..self },
            Register::Rr7 => Registers { r_r7: value, ..self },
            Register::Rpc => Registers { r_pc: value, ..self },
            Register::Rcond => Registers { r_cond: value, ..self },
        }
    }

    /// A fresh register file with every register cleared.
    pub fn new() -> (r: Registers)
        ensures
            forall|reg: Register| r.read_reg(reg) == 0,
    {
        Registers {
            r_r0: 0,
            r_r1: 0,
            r_r2: 0,
            r_r3: 0,
            r_r4: 0,
            r_r5: 0,
            r_r6: 0,
            r_r7: 0,
            r_pc: 0,
            r_cond: 0,
        }
    }

    /// Overwrites the named register with the given word.
    pub fn update(&mut self, reg: Register, value: u16)
        ensures
            *final(self) == old(self).write_reg(reg, value),
    {
        match reg {
            Register::Rr0 => self.r_r0 = value,
            Register::Rr1 => self.r_r1 = value,
            Register::Rr2 => self.r_r2 = value,
            Register::Rr3 => self.r_r3 = value,
            Register::Rr4 => self.r_r4 = value,
            Register::Rr5 => self.r_r5 = value,
            Register::Rr6 => self.r_r6 = value,
            Register::Rr7 => self.r_r7 = value,
            Register::Rpc => self.r_pc = value,
            Register::Rcond => self.r_cond = value,
        }
    }

    /// Reads the named register.
    pub fn get_value(self, reg: Register) -> (r: u16)
        ensures
            r == self.read_reg(reg),
    {
        match reg {
            Register::Rr0 => self.r_r0,
            Register::Rr1 => self.r_r1,
            Register::Rr2 => self.r_r2,
            Register::Rr3 => self.r_r3,
            Register::Rr4 => self.r_r4,
            Register::Rr5 => self.r_r5,
            Register::Rr6 => self.r_r6,
            Register::Rr7 => self.r_r7,
            Register::Rpc => self.r_pc,
            Register::Rcond => self.r_cond,
        }
    }
}

/// Writing a register and reading the same name back yields exactly the
/// written word, and no other register changes.
pub proof fn lemma_update_get_round_trip(regs: Registers, reg: Register, value: u16)
    ensures
        regs.write_reg(reg, value).read_reg(reg) == value,
        forall|other: Register|
            other != reg ==> regs.write_reg(reg, value).read_reg(other) == regs.read_reg(other),
{
}

/// The two memory-mapped device registers: the keyboard status register and
/// the keyboard data register.
#[derive(Clone, Copy, Debug, PartialEq, Eq, Structural)]
pub enum MemoryMappedRegister {
    Kbsr,
    Kbdr,
}

impl MemoryMappedRegister {
    /// The memory address the device register is mapped at.
    pub fn address(self) -> (a: u16)
        ensures
            a == (match self {
                MemoryMappedRegister::Kbsr => KBSR_ADDRESS,
                MemoryMappedRegister::Kbdr => KBDR_ADDRESS,
            }),
    {
        match self {
            MemoryMappedRegister::Kbsr => KBSR_ADDRESS,
            MemoryMappedRegister::Kbdr => KBDR_ADDRESS,
        }
    }
}

/// The three mutually exclusive condition flags summarizing the sign of the
/// last flag-updating register write.
#[derive(Clone, Copy, Debug, PartialEq, Eq, Structural)]
pub enum ConditionFlag {
    FlPos,
    FlZro,
    FlNeg,
}

/// The word stored in the condition-code register for each flag.
pub open spec fn spec_cflag_value(cflag: ConditionFlag) -> u16 {
    match cflag {
        ConditionFlag::FlPos => 1,
        ConditionFlag::FlZro => 2,
        ConditionFlag::FlNeg => 4,
    }
}

impl ConditionFlag {
    /// The one-hot word stored in the condition-code register for this flag.
    pub fn get_cflag_value(cflag: ConditionFlag) -> (r: u16)
        ensures
            r == spec_cflag_value(cflag),
    {
        match cflag {
            ConditionFlag::FlPos => 1,
            ConditionFlag::FlZro => 2,
            ConditionFlag::FlNeg => 4,
        }
    }
}

/// The condition flag matching the signed interpretation of a word: zero
/// selects `FlZro`, a set sign bit selects `FlNeg`, anything else `FlPos`.
pub open spec fn sign_flag(value: u16) -> ConditionFlag {
    if value == 0 {
        ConditionFlag::FlZro
    } else if value >> 15 == 1 {
        ConditionFlag::FlNeg
    } else {
        ConditionFlag::FlPos
    }
}

/// The condition-code word recorded after a write of `value`.
pub open spec fn sign_flag_value(value: u16) -> u16 {
    spec_cflag_value(sign_flag(value))
}

/// After a flag update the condition-code register holds exactly one of the
/// three flag values, and that flag matches the signed interpretation of the
/// written word: zero gives `FlZro`, a word at or above 0x8000 gives `FlNeg`,
/// and every other word gives `FlPos`.
pub proof fn lemma_flag_exclusive(value: u16)
    ensures
        sign_flag_value(value) == 1 || sign_flag_value(value) == 2 || sign_flag_value(value) == 4,
        sign_flag_value(value) == 2 <==> value == 0,
        sign_flag_value(value) == 4 <==> value >= 0x8000,
        sign_flag_value(value) == 1 <==> 0 < value < 0x8000,
{
    assert(value >> 15 == 1 <==> value >= 0x8000) by (bit_vector);
}

} // verus!
