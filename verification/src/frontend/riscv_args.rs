use vstd::prelude::*;

verus! {

/// A register number that names one of the 32 registers.
pub open spec fn is_reg(i: i64) -> bool {
    0 <= i < 32
}

/// Operands of an instruction with no operands.
#[derive(Debug, Clone, Copy, PartialEq, Eq, Structural)]
pub struct ArgsEmpty {}

/// Operands of `fence`.
#[derive(Debug, Clone, Copy, PartialEq, Eq, Structural)]
pub struct ArgsAutoFence {
    pub pred: i64,
    pub succ: i64,
}

/// Register-register operands.
#[derive(Debug, Clone, Copy, PartialEq, Eq, Structural)]
pub struct ArgsR {
    pub rd: i64,
    pub rs1: i64,
    pub rs2: i64,
}

impl ArgsR {
    pub open spec fn valid(self) -> bool {
        is_reg(self.rd) && is_reg(self.rs1) && is_reg(self.rs2)
    }
}

/// Register-immediate operands.
#[derive(Debug, Clone, Copy, PartialEq, Eq, Structural)]
pub struct ArgsI {
    pub rd: i64,
    pub rs1: i64,
    pub imm: i64,
}

impl ArgsI {
    pub open spec fn valid(self) -> bool {
        is_reg(self.rd) && is_reg(self.rs1)
    }
}

/// Store operands: base, value, offset.
#[derive(Debug, Clone, Copy, PartialEq, Eq, Structural)]
pub struct ArgsS {
    pub rs1: i64,
    pub rs2: i64,
    pub imm: i64,
}

impl ArgsS {
    pub open spec fn valid(self) -> bool {
        is_reg(self.rs1) && is_reg(self.rs2)
    }
}

/// Conditional-branch operands: two registers and the offset of the target.
#[derive(Debug, Clone, Copy, PartialEq, Eq, Structural)]
pub struct ArgsB {
    pub rs1: i64,
    pub rs2: i64,
    pub imm: i64,
}

impl ArgsB {
    pub open spec fn valid(self) -> bool {
        is_reg(self.rs1) && is_reg(self.rs2)
    }
}

/// Upper-immediate operands.
#[derive(Debug, Clone, Copy, PartialEq, Eq, Structural)]
pub struct ArgsU {
    pub rd: i64,
    pub imm: i64,
}

impl ArgsU {
    pub open spec fn valid(self) -> bool {
        is_reg(self.rd)
    }
}

/// Jump operands: link register and offset of the target.
#[derive(Debug, Clone, Copy, PartialEq, Eq, Structural)]
pub struct ArgsJ {
    pub rd: i64,
    pub imm: i64,
}

impl ArgsJ {
    pub open spec fn valid(self) -> bool {
        is_reg(self.rd)
    }
}

/// Shift-by-immediate operands.
#[derive(Debug, Clone, Copy, PartialEq, Eq, Structural)]
pub struct ArgsShift {
    pub rd: i64,
    pub rs1: i64,
    pub shamt: i64,
}

impl ArgsShift {
    pub open spec fn valid(self) -> bool {
        is_reg(self.rd) && is_reg(self.rs1)
    }
}

/// Atomic-memory operands with the acquire and release bits.
#[derive(Debug, Clone, Copy, PartialEq, Eq, Structural)]
pub struct ArgsAtomic {
    pub aq: i64,
    pub rl: i64,
    pub rs2: i64,
    pub rs1: i64,
    pub rd: i64,
}

impl ArgsAtomic {
    pub open spec fn valid(self) -> bool {
        is_reg(self.rd) && is_reg(self.rs1) && is_reg(self.rs2)
    }
}

/// CSR operands: the CSR number, a source register (or 5-bit immediate) and
/// the destination.
#[derive(Debug, Clone, Copy, PartialEq, Eq, Structural)]
pub struct ArgsCsr {
    pub csr: i64,
    pub rs1: i64,
    pub rd: i64,
}

impl ArgsCsr {
    pub open spec fn valid(self) -> bool {
        is_reg(self.rd) && is_reg(self.rs1)
    }
}

/// Fused multiply-add operands with a rounding mode.
#[derive(Debug, Clone, Copy, PartialEq, Eq, Structural)]
pub struct ArgsR4Rm {
    pub rd: i64,
    pub rs1: i64,
    pub rs2: i64,
    pub rs3: i64,
    pub rm: i64,
}

impl ArgsR4Rm {
    pub open spec fn valid(self) -> bool {
        is_reg(self.rd) && is_reg(self.rs1) && is_reg(self.rs2) && is_reg(self.rs3)
    }
}

/// Two-source floating-point operands with a rounding mode.
#[derive(Debug, Clone, Copy, PartialEq, Eq, Structural)]
pub struct ArgsRRm {
    pub rd: i64,
    pub rs1: i64,
    pub rs2: i64,
    pub rm: i64,
}

impl ArgsRRm {
    pub open spec fn valid(self) -> bool {
        is_reg(self.rd) && is_reg(self.rs1) && is_reg(self.rs2)
    }
}

/// One-source floating-point operands with a rounding mode.
#[derive(Debug, Clone, Copy, PartialEq, Eq, Structural)]
pub struct ArgsR2Rm {
    pub rd: i64,
    pub rs1: i64,
    pub rm: i64,
}

impl ArgsR2Rm {
    pub open spec fn valid(self) -> bool {
        is_reg(self.rd) && is_reg(self.rs1)
    }
}

/// One-source operands.
#[derive(Debug, Clone, Copy, PartialEq, Eq, Structural)]
pub struct ArgsR2 {
    pub rd: i64,
    pub rs1: i64,
}

impl ArgsR2 {
    pub open spec fn valid(self) -> bool {
        is_reg(self.rd) && is_reg(self.rs1)
    }
}

} // verus!
