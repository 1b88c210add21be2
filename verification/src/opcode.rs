use vstd::prelude::*;

use crate::types::Type;

verus! {

/// IR opcodes. Integer ops (flag `INT`) work on both I32 and I64; the
/// actual type is carried in `Op::op_type`.
#[derive(Debug, Clone, Copy, PartialEq, Eq, Hash, Structural)]
pub enum Opcode {
    Mov,
    SetCond,
    NegSetCond,
    MovCond,
    Add,
    Sub,
    Mul,
    Neg,
    DivS,
    DivU,
    RemS,
    RemU,
    DivS2,
    DivU2,
    MulSH,
    MulUH,
    MulS2,
    MulU2,
    AddCO,
    AddCI,
    AddCIO,
    AddC1O,
    SubBO,
    SubBI,
    SubBIO,
    SubB1O,
    And,
    Or,
    Xor,
    Not,
    AndC,
    OrC,
    Eqv,
    Nand,
    Nor,
    Shl,
    Shr,
    Sar,
    RotL,
    RotR,
    Extract,
    SExtract,
    Deposit,
    Extract2,
    Bswap16,
    Bswap32,
    Bswap64,
    Clz,
    Ctz,
    CtPop,
    BrCond2I32,
    SetCond2I32,
    ExtI32I64,
    ExtUI32I64,
    ExtrlI64I32,
    ExtrhI64I32,
    Ld8U,
    Ld8S,
    Ld16U,
    Ld16S,
    Ld32U,
    Ld32S,
    Ld,
    St8,
    St16,
    St32,
    St,
    QemuLd,
    QemuSt,
    QemuLd2,
    QemuSt2,
    Br,
    BrCond,
    SetLabel,
    GotoTb,
    ExitTb,
    GotoPtr,
    Mb,
    Call,
    PluginCb,
    PluginMemCb,
    Nop,
    Discard,
    InsnStart,
    MovVec,
    DupVec,
    Dup2Vec,
    LdVec,
    StVec,
    DupmVec,
    AddVec,
    SubVec,
    MulVec,
    NegVec,
    AbsVec,
    SsaddVec,
    UsaddVec,
    SssubVec,
    UssubVec,
    SminVec,
    UminVec,
    SmaxVec,
    UmaxVec,
    AndVec,
    OrVec,
    XorVec,
    AndcVec,
    OrcVec,
    NandVec,
    NorVec,
    EqvVec,
    NotVec,
    ShliVec,
    ShriVec,
    SariVec,
    RotliVec,
    ShlsVec,
    ShrsVec,
    SarsVec,
    RotlsVec,
    ShlvVec,
    ShrvVec,
    SarvVec,
    RotlvVec,
    RotrvVec,
    CmpVec,
    BitselVec,
    CmpselVec,
}

/// Number of opcodes.
pub const OPCODE_COUNT: usize = 128;

/// Flags describing properties of an opcode.
#[derive(Debug, Clone, Copy, PartialEq, Eq, Structural)]
pub struct OpFlags(pub u16);

/// Exits the translation block.
pub const FLAG_BB_EXIT: u16 = 0x01;
/// Ends a basic block.
pub const FLAG_BB_END: u16 = 0x02;
/// Clobbers caller-saved registers.
pub const FLAG_CALL_CLOBBER: u16 = 0x04;
/// Has side effects.
pub const FLAG_SIDE_EFFECTS: u16 = 0x08;
/// Operands may be I32 or I64.
pub const FLAG_INT: u16 = 0x10;
/// Not directly emitted to host code.
pub const FLAG_NOT_PRESENT: u16 = 0x20;
/// Vector operation.
pub const FLAG_VECTOR: u16 = 0x40;
/// Conditional branch.
pub const FLAG_COND_BRANCH: u16 = 0x80;
/// Produces carry/borrow output.
pub const FLAG_CARRY_OUT: u16 = 0x100;
/// Consumes carry/borrow input.
pub const FLAG_CARRY_IN: u16 = 0x200;

impl OpFlags {
    pub fn none() -> (r: OpFlags)
        ensures r.0 == 0,
    {
        OpFlags(0)
    }

    pub fn bb_exit() -> (r: OpFlags)
        ensures r.0 == FLAG_BB_EXIT,
    {
        OpFlags(FLAG_BB_EXIT)
    }

    pub fn bb_end() -> (r: OpFlags)
        ensures r.0 == FLAG_BB_END,
    {
        OpFlags(FLAG_BB_END)
    }

    pub fn call_clobber() -> (r: OpFlags)
        ensures r.0 == FLAG_CALL_CLOBBER,
    {
        OpFlags(FLAG_CALL_CLOBBER)
    }

    pub fn side_effects() -> (r: OpFlags)
        ensures r.0 == FLAG_SIDE_EFFECTS,
    {
        OpFlags(FLAG_SIDE_EFFECTS)
    }

    pub fn integer() -> (r: OpFlags)
        ensures r.0 == FLAG_INT,
    {
        OpFlags(FLAG_INT)
    }

    pub fn not_present() -> (r: OpFlags)
        ensures r.0 == FLAG_NOT_PRESENT,
    {
        OpFlags(FLAG_NOT_PRESENT)
    }

    pub fn vector() -> (r: OpFlags)
        ensures r.0 == FLAG_VECTOR,
    {
        OpFlags(FLAG_VECTOR)
    }

    pub fn cond_branch() -> (r: OpFlags)
        ensures r.0 == FLAG_COND_BRANCH,
    {
        OpFlags(FLAG_COND_BRANCH)
    }

    pub fn carry_out() -> (r: OpFlags)
        ensures r.0 == FLAG_CARRY_OUT,
    {
        OpFlags(FLAG_CARRY_OUT)
    }

    pub fn carry_in() -> (r: OpFlags)
        ensures r.0 == FLAG_CARRY_IN,
    {
        OpFlags(FLAG_CARRY_IN)
    }

    pub fn bits(self) -> (r: u16)
        ensures r == self.0,
    {
        self.0
    }

    pub open spec fn spec_contains(self, other: OpFlags) -> bool {
        self.0 & other.0 == other.0
    }

    /// Whether every flag of `other` is set in `self`.
    pub fn contains(self, other: OpFlags) -> (r: bool)
        ensures r == self.spec_contains(other),
    {
        self.0 & other.0 == other.0
    }

    pub fn union(self, other: OpFlags) -> (r: OpFlags)
        ensures r.0 == self.0 | other.0,
    {
        OpFlags(self.0 | other.0)
    }

    /// Whether the single flag bit `f` is set.
    pub open spec fn has(self, f: u16) -> bool {
        self.0 & f == f
    }
}

/// Static definition of an opcode: argument counts and flags.
#[derive(Debug, Clone, Copy)]
pub struct OpDef {
    pub name: &'static str,
    pub nb_oargs: u8,
    pub nb_iargs: u8,
    pub nb_cargs: u8,
    pub flags: OpFlags,
}

impl OpDef {
    pub open spec fn spec_nb_args(&self) -> int {
        self.nb_oargs + self.nb_iargs + self.nb_cargs
    }

    /// Total number of arguments.
    pub fn nb_args(&self) -> (r: u8)
        requires
            self.spec_nb_args() <= 255,
        ensures
            r == self.spec_nb_args(),
    {
        self.nb_oargs + self.nb_iargs + self.nb_cargs
    }
}

/// The opcode at position `i` of the declaration order.
pub open spec fn opcode_at(i: int) -> Opcode {
        if i == 0 {
            Opcode::Mov
        } else if i == 1 {
            Opcode::SetCond
        } else if i == 2 {
            Opcode::NegSetCond
        } else if i == 3 {
            Opcode::MovCond
        } else if i == 4 {
            Opcode::Add
        } else if i == 5 {
            Opcode::Sub
        } else if i == 6 {
            Opcode::Mul
        } else if i == 7 {
            Opcode::Neg
        } else if i == 8 {
            Opcode::DivS
        } else if i == 9 {
            Opcode::DivU
        } else if i == 10 {
            Opcode::RemS
        } else if i == 11 {
            Opcode::RemU
        } else if i == 12 {
            Opcode::DivS2
        } else if i == 13 {
            Opcode::DivU2
        } else if i == 14 {
            Opcode::MulSH
        } else if i == 15 {
            Opcode::MulUH
        } else if i == 16 {
            Opcode::MulS2
        } else if i == 17 {
            Opcode::MulU2
        } else if i == 18 {
            Opcode::AddCO
        } else if i == 19 {
            Opcode::AddCI
        } else if i == 20 {
            Opcode::AddCIO
        } else if i == 21 {
            Opcode::AddC1O
        } else if i == 22 {
            Opcode::SubBO
        } else if i == 23 {
            Opcode::SubBI
        } else if i == 24 {
            Opcode::SubBIO
        } else if i == 25 {
            Opcode::SubB1O
        } else if i == 26 {
            Opcode::And
        } else if i == 27 {
            Opcode::Or
        } else if i == 28 {
            Opcode::Xor
        } else if i == 29 {
            Opcode::Not
        } else if i == 30 {
            Opcode::AndC
        } else if i == 31 {
            Opcode::OrC
        } else if i == 32 {
            Opcode::Eqv
        } else if i == 33 {
            Opcode::Nand
        } else if i == 34 {
            Opcode::Nor
        } else if i == 35 {
            Opcode::Shl
        } else if i == 36 {
            Opcode::Shr
        } else if i == 37 {
            Opcode::Sar
        } else if i == 38 {
            Opcode::RotL
        } else if i == 39 {
            Opcode::RotR
        } else if i == 40 {
            Opcode::Extract
        } else if i == 41 {
            Opcode::SExtract
        } else if i == 42 {
            Opcode::Deposit
        } else if i == 43 {
            Opcode::Extract2
        } else if i == 44 {
            Opcode::Bswap16
        } else if i == 45 {
            Opcode::Bswap32
        } else if i == 46 {
            Opcode::Bswap64
        } else if i == 47 {
            Opcode::Clz
        } else if i == 48 {
            Opcode::Ctz
        } else if i == 49 {
            Opcode::CtPop
        } else if i == 50 {
            Opcode::BrCond2I32
        } else if i == 51 {
            Opcode::SetCond2I32
        } else if i == 52 {
            Opcode::ExtI32I64
        } else if i == 53 {
            Opcode::ExtUI32I64
        } else if i == 54 {
            Opcode::ExtrlI64I32
        } else if i == 55 {
            Opcode::ExtrhI64I32
        } else if i == 56 {
            Opcode::Ld8U
        } else if i == 57 {
            Opcode::Ld8S
        } else if i == 58 {
            Opcode::Ld16U
        } else if i == 59 {
            Opcode::Ld16S
        } else if i == 60 {
            Opcode::Ld32U
        } else if i == 61 {
            Opcode::Ld32S
        } else if i == 62 {
            Opcode::Ld
        } else if i == 63 {
            Opcode::St8
        } else if i == 64 {
            Opcode::St16
        } else if i == 65 {
            Opcode::St32
        } else if i == 66 {
            Opcode::St
        } else if i == 67 {
            Opcode::QemuLd
        } else if i == 68 {
            Opcode::QemuSt
        } else if i == 69 {
            Opcode::QemuLd2
        } else if i == 70 {
            Opcode::QemuSt2
        } else if i == 71 {
            Opcode::Br
        } else if i == 72 {
            Opcode::BrCond
        } else if i == 73 {
            Opcode::SetLabel
        } else if i == 74 {
            Opcode::GotoTb
        } else if i == 75 {
            Opcode::ExitTb
        } else if i == 76 {
            Opcode::GotoPtr
        } else if i == 77 {
            Opcode::Mb
        } else if i == 78 {
            Opcode::Call
        } else if i == 79 {
            Opcode::PluginCb
        } else if i == 80 {
            Opcode::PluginMemCb
        } else if i == 81 {
            Opcode::Nop
        } else if i == 82 {
            Opcode::Discard
        } else if i == 83 {
            Opcode::InsnStart
        } else if i == 84 {
            Opcode::MovVec
        } else if i == 85 {
            Opcode::DupVec
        } else if i == 86 {
            Opcode::Dup2Vec
        } else if i == 87 {
            Opcode::LdVec
        } else if i == 88 {
            Opcode::StVec
        } else if i == 89 {
            Opcode::DupmVec
        } else if i == 90 {
            Opcode::AddVec
        } else if i == 91 {
            Opcode::SubVec
        } else if i == 92 {
            Opcode::MulVec
        } else if i == 93 {
            Opcode::NegVec
        } else if i == 94 {
            Opcode::AbsVec
        } else if i == 95 {
            Opcode::SsaddVec
        } else if i == 96 {
            Opcode::UsaddVec
        } else if i == 97 {
            Opcode::SssubVec
        } else if i == 98 {
            Opcode::UssubVec
        } else if i == 99 {
            Opcode::SminVec
        } else if i == 100 {
            Opcode::UminVec
        } else if i == 101 {
            Opcode::SmaxVec
        } else if i == 102 {
            Opcode::UmaxVec
        } else if i == 103 {
            Opcode::AndVec
        } else if i == 104 {
            Opcode::OrVec
        } else if i == 105 {
            Opcode::XorVec
        } else if i == 106 {
            Opcode::AndcVec
        } else if i == 107 {
            Opcode::OrcVec
        } else if i == 108 {
            Opcode::NandVec
        } else if i == 109 {
            Opcode::NorVec
        } else if i == 110 {
            Opcode::EqvVec
        } else if i == 111 {
            Opcode::NotVec
        } else if i == 112 {
            Opcode::ShliVec
        } else if i == 113 {
            Opcode::ShriVec
        } else if i == 114 {
            Opcode::SariVec
        } else if i == 115 {
            Opcode::RotliVec
        } else if i == 116 {
            Opcode::ShlsVec
        } else if i == 117 {
            Opcode::ShrsVec
        } else if i == 118 {
            Opcode::SarsVec
        } else if i == 119 {
            Opcode::RotlsVec
        } else if i == 120 {
            Opcode::ShlvVec
        } else if i == 121 {
            Opcode::ShrvVec
        } else if i == 122 {
            Opcode::SarvVec
        } else if i == 123 {
            Opcode::RotlvVec
        } else if i == 124 {
            Opcode::RotrvVec
        } else if i == 125 {
            Opcode::CmpVec
        } else if i == 126 {
            Opcode::BitselVec
        } else {
            Opcode::CmpselVec
        }
}

impl Opcode {
    /// The static definition of the opcode.
    pub open spec fn spec_def(self) -> OpDef {
        match self {
            Opcode::Mov => OpDef { name: "mov", nb_oargs: 1, nb_iargs: 1, nb_cargs: 0, flags: OpFlags(0x30) },
            Opcode::SetCond => OpDef { name: "setcond", nb_oargs: 1, nb_iargs: 2, nb_cargs: 1, flags: OpFlags(0x10) },
            Opcode::NegSetCond => OpDef { name: "negsetcond", nb_oargs: 1, nb_iargs: 2, nb_cargs: 1, flags: OpFlags(0x10) },
            Opcode::MovCond => OpDef { name: "movcond", nb_oargs: 1, nb_iargs: 4, nb_cargs: 1, flags: OpFlags(0x10) },
            Opcode::Add => OpDef { name: "add", nb_oargs: 1, nb_iargs: 2, nb_cargs: 0, flags: OpFlags(0x10) },
            Opcode::Sub => OpDef { name: "sub", nb_oargs: 1, nb_iargs: 2, nb_cargs: 0, flags: OpFlags(0x10) },
            Opcode::Mul => OpDef { name: "mul", nb_oargs: 1, nb_iargs: 2, nb_cargs: 0, flags: OpFlags(0x10) },
            Opcode::Neg => OpDef { name: "neg", nb_oargs: 1, nb_iargs: 1, nb_cargs: 0, flags: OpFlags(0x10) },
            Opcode::DivS => OpDef { name: "divs", nb_oargs: 1, nb_iargs: 2, nb_cargs: 0, flags: OpFlags(0x10) },
            Opcode::DivU => OpDef { name: "divu", nb_oargs: 1, nb_iargs: 2, nb_cargs: 0, flags: OpFlags(0x10) },
            Opcode::RemS => OpDef { name: "rems", nb_oargs: 1, nb_iargs: 2, nb_cargs: 0, flags: OpFlags(0x10) },
            Opcode::RemU => OpDef { name: "remu", nb_oargs: 1, nb_iargs: 2, nb_cargs: 0, flags: OpFlags(0x10) },
            Opcode::DivS2 => OpDef { name: "divs2", nb_oargs: 2, nb_iargs: 3, nb_cargs: 0, flags: OpFlags(0x10) },
            Opcode::DivU2 => OpDef { name: "divu2", nb_oargs: 2, nb_iargs: 3, nb_cargs: 0, flags: OpFlags(0x10) },
            Opcode::MulSH => OpDef { name: "mulsh", nb_oargs: 1, nb_iargs: 2, nb_cargs: 0, flags: OpFlags(0x10) },
            Opcode::MulUH => OpDef { name: "muluh", nb_oargs: 1, nb_iargs: 2, nb_cargs: 0, flags: OpFlags(0x10) },
            Opcode::MulS2 => OpDef { name: "muls2", nb_oargs: 2, nb_iargs: 2, nb_cargs: 0, flags: OpFlags(0x10) },
            Opcode::MulU2 => OpDef { name: "mulu2", nb_oargs: 2, nb_iargs: 2, nb_cargs: 0, flags: OpFlags(0x10) },
            Opcode::AddCO => OpDef { name: "addco", nb_oargs: 1, nb_iargs: 2, nb_cargs: 0, flags: OpFlags(0x110) },
            Opcode::AddCI => OpDef { name: "addci", nb_oargs: 1, nb_iargs: 2, nb_cargs: 0, flags: OpFlags(0x210) },
            Opcode::AddCIO => OpDef { name: "addcio", nb_oargs: 1, nb_iargs: 2, nb_cargs: 0, flags: OpFlags(0x310) },
            Opcode::AddC1O => OpDef { name: "addc1o", nb_oargs: 1, nb_iargs: 2, nb_cargs: 0, flags: OpFlags(0x110) },
            Opcode::SubBO => OpDef { name: "subbo", nb_oargs: 1, nb_iargs: 2, nb_cargs: 0, flags: OpFlags(0x110) },
            Opcode::SubBI => OpDef { name: "subbi", nb_oargs: 1, nb_iargs: 2, nb_cargs: 0, flags: OpFlags(0x210) },
            Opcode::SubBIO => OpDef { name: "subbio", nb_oargs: 1, nb_iargs: 2, nb_cargs: 0, flags: OpFlags(0x310) },
            Opcode::SubB1O => OpDef { name: "subb1o", nb_oargs: 1, nb_iargs: 2, nb_cargs: 0, flags: OpFlags(0x110) },
            Opcode::And => OpDef { name: "and", nb_oargs: 1, nb_iargs: 2, nb_cargs: 0, flags: OpFlags(0x10) },
            Opcode::Or => OpDef { name: "or", nb_oargs: 1, nb_iargs: 2, nb_cargs: 0, flags: OpFlags(0x10) },
            Opcode::Xor => OpDef { name: "xor", nb_oargs: 1, nb_iargs: 2, nb_cargs: 0, flags: OpFlags(0x10) },
            Opcode::Not => OpDef { name: "not", nb_oargs: 1, nb_iargs: 1, nb_cargs: 0, flags: OpFlags(0x10) },
            Opcode::AndC => OpDef { name: "andc", nb_oargs: 1, nb_iargs: 2, nb_cargs: 0, flags: OpFlags(0x10) },
            Opcode::OrC => OpDef { name: "orc", nb_oargs: 1, nb_iargs: 2, nb_cargs: 0, flags: OpFlags(0x10) },
            Opcode::Eqv => OpDef { name: "eqv", nb_oargs: 1, nb_iargs: 2, nb_cargs: 0, flags: OpFlags(0x10) },
            Opcode::Nand => OpDef { name: "nand", nb_oargs: 1, nb_iargs: 2, nb_cargs: 0, flags: OpFlags(0x10) },
            Opcode::Nor => OpDef { name: "nor", nb_oargs: 1, nb_iargs: 2, nb_cargs: 0, flags: OpFlags(0x10) },
            Opcode::Shl => OpDef { name: "shl", nb_oargs: 1, nb_iargs: 2, nb_cargs: 0, flags: OpFlags(0x10) },
            Opcode::Shr => OpDef { name: "shr", nb_oargs: 1, nb_iargs: 2, nb_cargs: 0, flags: OpFlags(0x10) },
            Opcode::Sar => OpDef { name: "sar", nb_oargs: 1, nb_iargs: 2, nb_cargs: 0, flags: OpFlags(0x10) },
            Opcode::RotL => OpDef { name: "rotl", nb_oargs: 1, nb_iargs: 2, nb_cargs: 0, flags: OpFlags(0x10) },
            Opcode::RotR => OpDef { name: "rotr", nb_oargs: 1, nb_iargs: 2, nb_cargs: 0, flags: OpFlags(0x10) },
            Opcode::Extract => OpDef { name: "extract", nb_oargs: 1, nb_iargs: 1, nb_cargs: 2, flags: OpFlags(0x10) },
            Opcode::SExtract => OpDef { name: "sextract", nb_oargs: 1, nb_iargs: 1, nb_cargs: 2, flags: OpFlags(0x10) },
            Opcode::Deposit => OpDef { name: "deposit", nb_oargs: 1, nb_iargs: 2, nb_cargs: 2, flags: OpFlags(0x10) },
            Opcode::Extract2 => OpDef { name: "extract2", nb_oargs: 1, nb_iargs: 2, nb_cargs: 1, flags: OpFlags(0x10) },
            Opcode::Bswap16 => OpDef { name: "bswap16", nb_oargs: 1, nb_iargs: 1, nb_cargs: 1, flags: OpFlags(0x10) },
            Opcode::Bswap32 => OpDef { name: "bswap32", nb_oargs: 1, nb_iargs: 1, nb_cargs: 1, flags: OpFlags(0x10) },
            Opcode::Bswap64 => OpDef { name: "bswap64", nb_oargs: 1, nb_iargs: 1, nb_cargs: 1, flags: OpFlags(0x10) },
            Opcode::Clz => OpDef { name: "clz", nb_oargs: 1, nb_iargs: 2, nb_cargs: 0, flags: OpFlags(0x10) },
            Opcode::Ctz => OpDef { name: "ctz", nb_oargs: 1, nb_iargs: 2, nb_cargs: 0, flags: OpFlags(0x10) },
            Opcode::CtPop => OpDef { name: "ctpop", nb_oargs: 1, nb_iargs: 1, nb_cargs: 0, flags: OpFlags(0x10) },
            Opcode::BrCond2I32 => OpDef { name: "brcond2_i32", nb_oargs: 0, nb_iargs: 4, nb_cargs: 2, flags: OpFlags(0x82) },
            Opcode::SetCond2I32 => OpDef { name: "setcond2_i32", nb_oargs: 1, nb_iargs: 4, nb_cargs: 1, flags: OpFlags(0x0) },
            Opcode::ExtI32I64 => OpDef { name: "ext_i32_i64", nb_oargs: 1, nb_iargs: 1, nb_cargs: 0, flags: OpFlags(0x0) },
            Opcode::ExtUI32I64 => OpDef { name: "extu_i32_i64", nb_oargs: 1, nb_iargs: 1, nb_cargs: 0, flags: OpFlags(0x0) },
            Opcode::ExtrlI64I32 => OpDef { name: "extrl_i64_i32", nb_oargs: 1, nb_iargs: 1, nb_cargs: 0, flags: OpFlags(0x0) },
            Opcode::ExtrhI64I32 => OpDef { name: "extrh_i64_i32", nb_oargs: 1, nb_iargs: 1, nb_cargs: 0, flags: OpFlags(0x0) },
            Opcode::Ld8U => OpDef { name: "ld8u", nb_oargs: 1, nb_iargs: 1, nb_cargs: 1, flags: OpFlags(0x10) },
            Opcode::Ld8S => OpDef { name: "ld8s", nb_oargs: 1, nb_iargs: 1, nb_cargs: 1, flags: OpFlags(0x10) },
            Opcode::Ld16U => OpDef { name: "ld16u", nb_oargs: 1, nb_iargs: 1, nb_cargs: 1, flags: OpFlags(0x10) },
            Opcode::Ld16S => OpDef { name: "ld16s", nb_oargs: 1, nb_iargs: 1, nb_cargs: 1, flags: OpFlags(0x10) },
            Opcode::Ld32U => OpDef { name: "ld32u", nb_oargs: 1, nb_iargs: 1, nb_cargs: 1, flags: OpFlags(0x10) },
            Opcode::Ld32S => OpDef { name: "ld32s", nb_oargs: 1, nb_iargs: 1, nb_cargs: 1, flags: OpFlags(0x10) },
            Opcode::Ld => OpDef { name: "ld", nb_oargs: 1, nb_iargs: 1, nb_cargs: 1, flags: OpFlags(0x10) },
            Opcode::St8 => OpDef { name: "st8", nb_oargs: 0, nb_iargs: 2, nb_cargs: 1, flags: OpFlags(0x10) },
            Opcode::St16 => OpDef { name: "st16", nb_oargs: 0, nb_iargs: 2, nb_cargs: 1, flags: OpFlags(0x10) },
            Opcode::St32 => OpDef { name: "st32", nb_oargs: 0, nb_iargs: 2, nb_cargs: 1, flags: OpFlags(0x10) },
            Opcode::St => OpDef { name: "st", nb_oargs: 0, nb_iargs: 2, nb_cargs: 1, flags: OpFlags(0x10) },
            Opcode::QemuLd => OpDef { name: "qemu_ld", nb_oargs: 1, nb_iargs: 1, nb_cargs: 1, flags: OpFlags(0x1c) },
            Opcode::QemuSt => OpDef { name: "qemu_st", nb_oargs: 0, nb_iargs: 2, nb_cargs: 1, flags: OpFlags(0x1c) },
            Opcode::QemuLd2 => OpDef { name: "qemu_ld2", nb_oargs: 2, nb_iargs: 1, nb_cargs: 1, flags: OpFlags(0x1c) },
            Opcode::QemuSt2 => OpDef { name: "qemu_st2", nb_oargs: 0, nb_iargs: 3, nb_cargs: 1, flags: OpFlags(0x1c) },
            Opcode::Br => OpDef { name: "br", nb_oargs: 0, nb_iargs: 0, nb_cargs: 1, flags: OpFlags(0x22) },
            Opcode::BrCond => OpDef { name: "brcond", nb_oargs: 0, nb_iargs: 2, nb_cargs: 2, flags: OpFlags(0x92) },
            Opcode::SetLabel => OpDef { name: "set_label", nb_oargs: 0, nb_iargs: 0, nb_cargs: 1, flags: OpFlags(0x22) },
            Opcode::GotoTb => OpDef { name: "goto_tb", nb_oargs: 0, nb_iargs: 0, nb_cargs: 1, flags: OpFlags(0x23) },
            Opcode::ExitTb => OpDef { name: "exit_tb", nb_oargs: 0, nb_iargs: 0, nb_cargs: 1, flags: OpFlags(0x23) },
            Opcode::GotoPtr => OpDef { name: "goto_ptr", nb_oargs: 0, nb_iargs: 1, nb_cargs: 0, flags: OpFlags(0x3) },
            Opcode::Mb => OpDef { name: "mb", nb_oargs: 0, nb_iargs: 0, nb_cargs: 1, flags: OpFlags(0x20) },
            Opcode::Call => OpDef { name: "call", nb_oargs: 1, nb_iargs: 6, nb_cargs: 2, flags: OpFlags(0x24) },
            Opcode::PluginCb => OpDef { name: "plugin_cb", nb_oargs: 0, nb_iargs: 0, nb_cargs: 1, flags: OpFlags(0x20) },
            Opcode::PluginMemCb => OpDef { name: "plugin_mem_cb", nb_oargs: 0, nb_iargs: 1, nb_cargs: 1, flags: OpFlags(0x20) },
            Opcode::Nop => OpDef { name: "nop", nb_oargs: 0, nb_iargs: 0, nb_cargs: 0, flags: OpFlags(0x20) },
            Opcode::Discard => OpDef { name: "discard", nb_oargs: 1, nb_iargs: 0, nb_cargs: 0, flags: OpFlags(0x20) },
            Opcode::InsnStart => OpDef { name: "insn_start", nb_oargs: 0, nb_iargs: 0, nb_cargs: 2, flags: OpFlags(0x20) },
            Opcode::MovVec => OpDef { name: "mov_vec", nb_oargs: 1, nb_iargs: 1, nb_cargs: 0, flags: OpFlags(0x60) },
            Opcode::DupVec => OpDef { name: "dup_vec", nb_oargs: 1, nb_iargs: 1, nb_cargs: 0, flags: OpFlags(0x40) },
            Opcode::Dup2Vec => OpDef { name: "dup2_vec", nb_oargs: 1, nb_iargs: 2, nb_cargs: 0, flags: OpFlags(0x40) },
            Opcode::LdVec => OpDef { name: "ld_vec", nb_oargs: 1, nb_iargs: 1, nb_cargs: 1, flags: OpFlags(0x40) },
            Opcode::StVec => OpDef { name: "st_vec", nb_oargs: 0, nb_iargs: 2, nb_cargs: 1, flags: OpFlags(0x40) },
            Opcode::DupmVec => OpDef { name: "dupm_vec", nb_oargs: 1, nb_iargs: 1, nb_cargs: 1, flags: OpFlags(0x40) },
            Opcode::AddVec => OpDef { name: "add_vec", nb_oargs: 1, nb_iargs: 2, nb_cargs: 0, flags: OpFlags(0x40) },
            Opcode::SubVec => OpDef { name: "sub_vec", nb_oargs: 1, nb_iargs: 2, nb_cargs: 0, flags: OpFlags(0x40) },
            Opcode::MulVec => OpDef { name: "mul_vec", nb_oargs: 1, nb_iargs: 2, nb_cargs: 0, flags: OpFlags(0x40) },
            Opcode::NegVec => OpDef { name: "neg_vec", nb_oargs: 1, nb_iargs: 1, nb_cargs: 0, flags: OpFlags(0x40) },
            Opcode::AbsVec => OpDef { name: "abs_vec", nb_oargs: 1, nb_iargs: 1, nb_cargs: 0, flags: OpFlags(0x40) },
            Opcode::SsaddVec => OpDef { name: "ssadd_vec", nb_oargs: 1, nb_iargs: 2, nb_cargs: 0, flags: OpFlags(0x40) },
            Opcode::UsaddVec => OpDef { name: "usadd_vec", nb_oargs: 1, nb_iargs: 2, nb_cargs: 0, flags: OpFlags(0x40) },
            Opcode::SssubVec => OpDef { name: "sssub_vec", nb_oargs: 1, nb_iargs: 2, nb_cargs: 0, flags: OpFlags(0x40) },
            Opcode::UssubVec => OpDef { name: "ussub_vec", nb_oargs: 1, nb_iargs: 2, nb_cargs: 0, flags: OpFlags(0x40) },
            Opcode::SminVec => OpDef { name: "smin_vec", nb_oargs: 1, nb_iargs: 2, nb_cargs: 0, flags: OpFlags(0x40) },
            Opcode::UminVec => OpDef { name: "umin_vec", nb_oargs: 1, nb_iargs: 2, nb_cargs: 0, flags: OpFlags(0x40) },
            Opcode::SmaxVec => OpDef { name: "smax_vec", nb_oargs: 1, nb_iargs: 2, nb_cargs: 0, flags: OpFlags(0x40) },
            Opcode::UmaxVec => OpDef { name: "umax_vec", nb_oargs: 1, nb_iargs: 2, nb_cargs: 0, flags: OpFlags(0x40) },
            Opcode::AndVec => OpDef { name: "and_vec", nb_oargs: 1, nb_iargs: 2, nb_cargs: 0, flags: OpFlags(0x40) },
            Opcode::OrVec => OpDef { name: "or_vec", nb_oargs: 1, nb_iargs: 2, nb_cargs: 0, flags: OpFlags(0x40) },
            Opcode::XorVec => OpDef { name: "xor_vec", nb_oargs: 1, nb_iargs: 2, nb_cargs: 0, flags: OpFlags(0x40) },
            Opcode::AndcVec => OpDef { name: "andc_vec", nb_oargs: 1, nb_iargs: 2, nb_cargs: 0, flags: OpFlags(0x40) },
            Opcode::OrcVec => OpDef { name: "orc_vec", nb_oargs: 1, nb_iargs: 2, nb_cargs: 0, flags: OpFlags(0x40) },
            Opcode::NandVec => OpDef { name: "nand_vec", nb_oargs: 1, nb_iargs: 2, nb_cargs: 0, flags: OpFlags(0x40) },
            Opcode::NorVec => OpDef { name: "nor_vec", nb_oargs: 1, nb_iargs: 2, nb_cargs: 0, flags: OpFlags(0x40) },
            Opcode::EqvVec => OpDef { name: "eqv_vec", nb_oargs: 1, nb_iargs: 2, nb_cargs: 0, flags: OpFlags(0x40) },
            Opcode::NotVec => OpDef { name: "not_vec", nb_oargs: 1, nb_iargs: 1, nb_cargs: 0, flags: OpFlags(0x40) },
            Opcode::ShliVec => OpDef { name: "shli_vec", nb_oargs: 1, nb_iargs: 1, nb_cargs: 1, flags: OpFlags(0x40) },
            Opcode::ShriVec => OpDef { name: "shri_vec", nb_oargs: 1, nb_iargs: 1, nb_cargs: 1, flags: OpFlags(0x40) },
            Opcode::SariVec => OpDef { name: "sari_vec", nb_oargs: 1, nb_iargs: 1, nb_cargs: 1, flags: OpFlags(0x40) },
            Opcode::RotliVec => OpDef { name: "rotli_vec", nb_oargs: 1, nb_iargs: 1, nb_cargs: 1, flags: OpFlags(0x40) },
            Opcode::ShlsVec => OpDef { name: "shls_vec", nb_oargs: 1, nb_iargs: 2, nb_cargs: 0, flags: OpFlags(0x40) },
            Opcode::ShrsVec => OpDef { name: "shrs_vec", nb_oargs: 1, nb_iargs: 2, nb_cargs: 0, flags: OpFlags(0x40) },
            Opcode::SarsVec => OpDef { name: "sars_vec", nb_oargs: 1, nb_iargs: 2, nb_cargs: 0, flags: OpFlags(0x40) },
            Opcode::RotlsVec => OpDef { name: "rotls_vec", nb_oargs: 1, nb_iargs: 2, nb_cargs: 0, flags: OpFlags(0x40) },
            Opcode::ShlvVec => OpDef { name: "shlv_vec", nb_oargs: 1, nb_iargs: 2, nb_cargs: 0, flags: OpFlags(0x40) },
            Opcode::ShrvVec => OpDef { name: "shrv_vec", nb_oargs: 1, nb_iargs: 2, nb_cargs: 0, flags: OpFlags(0x40) },
            Opcode::SarvVec => OpDef { name: "sarv_vec", nb_oargs: 1, nb_iargs: 2, nb_cargs: 0, flags: OpFlags(0x40) },
            Opcode::RotlvVec => OpDef { name: "rotlv_vec", nb_oargs: 1, nb_iargs: 2, nb_cargs: 0, flags: OpFlags(0x40) },
            Opcode::RotrvVec => OpDef { name: "rotrv_vec", nb_oargs: 1, nb_iargs: 2, nb_cargs: 0, flags: OpFlags(0x40) },
            Opcode::CmpVec => OpDef { name: "cmp_vec", nb_oargs: 1, nb_iargs: 2, nb_cargs: 1, flags: OpFlags(0x40) },
            Opcode::BitselVec => OpDef { name: "bitsel_vec", nb_oargs: 1, nb_iargs: 3, nb_cargs: 0, flags: OpFlags(0x40) },
            Opcode::CmpselVec => OpDef { name: "cmpsel_vec", nb_oargs: 1, nb_iargs: 4, nb_cargs: 1, flags: OpFlags(0x40) },
        }
    }

    /// Look up the static definition of this opcode.
    pub fn def(self) -> (d: OpDef)
        ensures
            d == self.spec_def(),
    {
        match self {
            Opcode::Mov => OpDef { name: "mov", nb_oargs: 1, nb_iargs: 1, nb_cargs: 0, flags: OpFlags(0x30) },
            Opcode::SetCond => OpDef { name: "setcond", nb_oargs: 1, nb_iargs: 2, nb_cargs: 1, flags: OpFlags(0x10) },
            Opcode::NegSetCond => OpDef { name: "negsetcond", nb_oargs: 1, nb_iargs: 2, nb_cargs: 1, flags: OpFlags(0x10) },
            Opcode::MovCond => OpDef { name: "movcond", nb_oargs: 1, nb_iargs: 4, nb_cargs: 1, flags: OpFlags(0x10) },
            Opcode::Add => OpDef { name: "add", nb_oargs: 1, nb_iargs: 2, nb_cargs: 0, flags: OpFlags(0x10) },
            Opcode::Sub => OpDef { name: "sub", nb_oargs: 1, nb_iargs: 2, nb_cargs: 0, flags: OpFlags(0x10) },
            Opcode::Mul => OpDef { name: "mul", nb_oargs: 1, nb_iargs: 2, nb_cargs: 0, flags: OpFlags(0x10) },
            Opcode::Neg => OpDef { name: "neg", nb_oargs: 1, nb_iargs: 1, nb_cargs: 0, flags: OpFlags(0x10) },
            Opcode::DivS => OpDef { name: "divs", nb_oargs: 1, nb_iargs: 2, nb_cargs: 0, flags: OpFlags(0x10) },
            Opcode::DivU => OpDef { name: "divu", nb_oargs: 1, nb_iargs: 2, nb_cargs: 0, flags: OpFlags(0x10) },
            Opcode::RemS => OpDef { name: "rems", nb_oargs: 1, nb_iargs: 2, nb_cargs: 0, flags: OpFlags(0x10) },
            Opcode::RemU => OpDef { name: "remu", nb_oargs: 1, nb_iargs: 2, nb_cargs: 0, flags: OpFlags(0x10) },
            Opcode::DivS2 => OpDef { name: "divs2", nb_oargs: 2, nb_iargs: 3, nb_cargs: 0, flags: OpFlags(0x10) },
            Opcode::DivU2 => OpDef { name: "divu2", nb_oargs: 2, nb_iargs: 3, nb_cargs: 0, flags: OpFlags(0x10) },
            Opcode::MulSH => OpDef { name: "mulsh", nb_oargs: 1, nb_iargs: 2, nb_cargs: 0, flags: OpFlags(0x10) },
            Opcode::MulUH => OpDef { name: "muluh", nb_oargs: 1, nb_iargs: 2, nb_cargs: 0, flags: OpFlags(0x10) },
            Opcode::MulS2 => OpDef { name: "muls2", nb_oargs: 2, nb_iargs: 2, nb_cargs: 0, flags: OpFlags(0x10) },
            Opcode::MulU2 => OpDef { name: "mulu2", nb_oargs: 2, nb_iargs: 2, nb_cargs: 0, flags: OpFlags(0x10) },
            Opcode::AddCO => OpDef { name: "addco", nb_oargs: 1, nb_iargs: 2, nb_cargs: 0, flags: OpFlags(0x110) },
            Opcode::AddCI => OpDef { name: "addci", nb_oargs: 1, nb_iargs: 2, nb_cargs: 0, flags: OpFlags(0x210) },
            Opcode::AddCIO => OpDef { name: "addcio", nb_oargs: 1, nb_iargs: 2, nb_cargs: 0, flags: OpFlags(0x310) },
            Opcode::AddC1O => OpDef { name: "addc1o", nb_oargs: 1, nb_iargs: 2, nb_cargs: 0, flags: OpFlags(0x110) },
            Opcode::SubBO => OpDef { name: "subbo", nb_oargs: 1, nb_iargs: 2, nb_cargs: 0, flags: OpFlags(0x110) },
            Opcode::SubBI => OpDef { name: "subbi", nb_oargs: 1, nb_iargs: 2, nb_cargs: 0, flags: OpFlags(0x210) },
            Opcode::SubBIO => OpDef { name: "subbio", nb_oargs: 1, nb_iargs: 2, nb_cargs: 0, flags: OpFlags(0x310) },
            Opcode::SubB1O => OpDef { name: "subb1o", nb_oargs: 1, nb_iargs: 2, nb_cargs: 0, flags: OpFlags(0x110) },
            Opcode::And => OpDef { name: "and", nb_oargs: 1, nb_iargs: 2, nb_cargs: 0, flags: OpFlags(0x10) },
            Opcode::Or => OpDef { name: "or", nb_oargs: 1, nb_iargs: 2, nb_cargs: 0, flags: OpFlags(0x10) },
            Opcode::Xor => OpDef { name: "xor", nb_oargs: 1, nb_iargs: 2, nb_cargs: 0, flags: OpFlags(0x10) },
            Opcode::Not => OpDef { name: "not", nb_oargs: 1, nb_iargs: 1, nb_cargs: 0, flags: OpFlags(0x10) },
            Opcode::AndC => OpDef { name: "andc", nb_oargs: 1, nb_iargs: 2, nb_cargs: 0, flags: OpFlags(0x10) },
            Opcode::OrC => OpDef { name: "orc", nb_oargs: 1, nb_iargs: 2, nb_cargs: 0, flags: OpFlags(0x10) },
            Opcode::Eqv => OpDef { name: "eqv", nb_oargs: 1, nb_iargs: 2, nb_cargs: 0, flags: OpFlags(0x10) },
            Opcode::Nand => OpDef { name: "nand", nb_oargs: 1, nb_iargs: 2, nb_cargs: 0, flags: OpFlags(0x10) },
            Opcode::Nor => OpDef { name: "nor", nb_oargs: 1, nb_iargs: 2, nb_cargs: 0, flags: OpFlags(0x10) },
            Opcode::Shl => OpDef { name: "shl", nb_oargs: 1, nb_iargs: 2, nb_cargs: 0, flags: OpFlags(0x10) },
            Opcode::Shr => OpDef { name: "shr", nb_oargs: 1, nb_iargs: 2, nb_cargs: 0, flags: OpFlags(0x10) },
            Opcode::Sar => OpDef { name: "sar", nb_oargs: 1, nb_iargs: 2, nb_cargs: 0, flags: OpFlags(0x10) },
            Opcode::RotL => OpDef { name: "rotl", nb_oargs: 1, nb_iargs: 2, nb_cargs: 0, flags: OpFlags(0x10) },
            Opcode::RotR => OpDef { name: "rotr", nb_oargs: 1, nb_iargs: 2, nb_cargs: 0, flags: OpFlags(0x10) },
            Opcode::Extract => OpDef { name: "extract", nb_oargs: 1, nb_iargs: 1, nb_cargs: 2, flags: OpFlags(0x10) },
            Opcode::SExtract => OpDef { name: "sextract", nb_oargs: 1, nb_iargs: 1, nb_cargs: 2, flags: OpFlags(0x10) },
            Opcode::Deposit => OpDef { name: "deposit", nb_oargs: 1, nb_iargs: 2, nb_cargs: 2, flags: OpFlags(0x10) },
            Opcode::Extract2 => OpDef { name: "extract2", nb_oargs: 1, nb_iargs: 2, nb_cargs: 1, flags: OpFlags(0x10) },
            Opcode::Bswap16 => OpDef { name: "bswap16", nb_oargs: 1, nb_iargs: 1, nb_cargs: 1, flags: OpFlags(0x10) },
            Opcode::Bswap32 => OpDef { name: "bswap32", nb_oargs: 1, nb_iargs: 1, nb_cargs: 1, flags: OpFlags(0x10) },
            Opcode::Bswap64 => OpDef { name: "bswap64", nb_oargs: 1, nb_iargs: 1, nb_cargs: 1, flags: OpFlags(0x10) },
            Opcode::Clz => OpDef { name: "clz", nb_oargs: 1, nb_iargs: 2, nb_cargs: 0, flags: OpFlags(0x10) },
            Opcode::Ctz => OpDef { name: "ctz", nb_oargs: 1, nb_iargs: 2, nb_cargs: 0, flags: OpFlags(0x10) },
            Opcode::CtPop => OpDef { name: "ctpop", nb_oargs: 1, nb_iargs: 1, nb_cargs: 0, flags: OpFlags(0x10) },
            Opcode::BrCond2I32 => OpDef { name: "brcond2_i32", nb_oargs: 0, nb_iargs: 4, nb_cargs: 2, flags: OpFlags(0x82) },
            Opcode::SetCond2I32 => OpDef { name: "setcond2_i32", nb_oargs: 1, nb_iargs: 4, nb_cargs: 1, flags: OpFlags(0x0) },
            Opcode::ExtI32I64 => OpDef { name: "ext_i32_i64", nb_oargs: 1, nb_iargs: 1, nb_cargs: 0, flags: OpFlags(0x0) },
            Opcode::ExtUI32I64 => OpDef { name: "extu_i32_i64", nb_oargs: 1, nb_iargs: 1, nb_cargs: 0, flags: OpFlags(0x0) },
            Opcode::ExtrlI64I32 => OpDef { name: "extrl_i64_i32", nb_oargs: 1, nb_iargs: 1, nb_cargs: 0, flags: OpFlags(0x0) },
            Opcode::ExtrhI64I32 => OpDef { name: "extrh_i64_i32", nb_oargs: 1, nb_iargs: 1, nb_cargs: 0, flags: OpFlags(0x0) },
            Opcode::Ld8U => OpDef { name: "ld8u", nb_oargs: 1, nb_iargs: 1, nb_cargs: 1, flags: OpFlags(0x10) },
            Opcode::Ld8S => OpDef { name: "ld8s", nb_oargs: 1, nb_iargs: 1, nb_cargs: 1, flags: OpFlags(0x10) },
            Opcode::Ld16U => OpDef { name: "ld16u", nb_oargs: 1, nb_iargs: 1, nb_cargs: 1, flags: OpFlags(0x10) },
            Opcode::Ld16S => OpDef { name: "ld16s", nb_oargs: 1, nb_iargs: 1, nb_cargs: 1, flags: OpFlags(0x10) },
            Opcode::Ld32U => OpDef { name: "ld32u", nb_oargs: 1, nb_iargs: 1, nb_cargs: 1, flags: OpFlags(0x10) },
            Opcode::Ld32S => OpDef { name: "ld32s", nb_oargs: 1, nb_iargs: 1, nb_cargs: 1, flags: OpFlags(0x10) },
            Opcode::Ld => OpDef { name: "ld", nb_oargs: 1, nb_iargs: 1, nb_cargs: 1, flags: OpFlags(0x10) },
            Opcode::St8 => OpDef { name: "st8", nb_oargs: 0, nb_iargs: 2, nb_cargs: 1, flags: OpFlags(0x10) },
            Opcode::St16 => OpDef { name: "st16", nb_oargs: 0, nb_iargs: 2, nb_cargs: 1, flags: OpFlags(0x10) },
            Opcode::St32 => OpDef { name: "st32", nb_oargs: 0, nb_iargs: 2, nb_cargs: 1, flags: OpFlags(0x10) },
            Opcode::St => OpDef { name: "st", nb_oargs: 0, nb_iargs: 2, nb_cargs: 1, flags: OpFlags(0x10) },
            Opcode::QemuLd => OpDef { name: "qemu_ld", nb_oargs: 1, nb_iargs: 1, nb_cargs: 1, flags: OpFlags(0x1c) },
            Opcode::QemuSt => OpDef { name: "qemu_st", nb_oargs: 0, nb_iargs: 2, nb_cargs: 1, flags: OpFlags(0x1c) },
            Opcode::QemuLd2 => OpDef { name: "qemu_ld2", nb_oargs: 2, nb_iargs: 1, nb_cargs: 1, flags: OpFlags(0x1c) },
            Opcode::QemuSt2 => OpDef { name: "qemu_st2", nb_oargs: 0, nb_iargs: 3, nb_cargs: 1, flags: OpFlags(0x1c) },
            Opcode::Br => OpDef { name: "br", nb_oargs: 0, nb_iargs: 0, nb_cargs: 1, flags: OpFlags(0x22) },
            Opcode::BrCond => OpDef { name: "brcond", nb_oargs: 0, nb_iargs: 2, nb_cargs: 2, flags: OpFlags(0x92) },
            Opcode::SetLabel => OpDef { name: "set_label", nb_oargs: 0, nb_iargs: 0, nb_cargs: 1, flags: OpFlags(0x22) },
            Opcode::GotoTb => OpDef { name: "goto_tb", nb_oargs: 0, nb_iargs: 0, nb_cargs: 1, flags: OpFlags(0x23) },
            Opcode::ExitTb => OpDef { name: "exit_tb", nb_oargs: 0, nb_iargs: 0, nb_cargs: 1, flags: OpFlags(0x23) },
            Opcode::GotoPtr => OpDef { name: "goto_ptr", nb_oargs: 0, nb_iargs: 1, nb_cargs: 0, flags: OpFlags(0x3) },
            Opcode::Mb => OpDef { name: "mb", nb_oargs: 0, nb_iargs: 0, nb_cargs: 1, flags: OpFlags(0x20) },
            Opcode::Call => OpDef { name: "call", nb_oargs: 1, nb_iargs: 6, nb_cargs: 2, flags: OpFlags(0x24) },
            Opcode::PluginCb => OpDef { name: "plugin_cb", nb_oargs: 0, nb_iargs: 0, nb_cargs: 1, flags: OpFlags(0x20) },
            Opcode::PluginMemCb => OpDef { name: "plugin_mem_cb", nb_oargs: 0, nb_iargs: 1, nb_cargs: 1, flags: OpFlags(0x20) },
            Opcode::Nop => OpDef { name: "nop", nb_oargs: 0, nb_iargs: 0, nb_cargs: 0, flags: OpFlags(0x20) },
            Opcode::Discard => OpDef { name: "discard", nb_oargs: 1, nb_iargs: 0, nb_cargs: 0, flags: OpFlags(0x20) },
            Opcode::InsnStart => OpDef { name: "insn_start", nb_oargs: 0, nb_iargs: 0, nb_cargs: 2, flags: OpFlags(0x20) },
            Opcode::MovVec => OpDef { name: "mov_vec", nb_oargs: 1, nb_iargs: 1, nb_cargs: 0, flags: OpFlags(0x60) },
            Opcode::DupVec => OpDef { name: "dup_vec", nb_oargs: 1, nb_iargs: 1, nb_cargs: 0, flags: OpFlags(0x40) },
            Opcode::Dup2Vec => OpDef { name: "dup2_vec", nb_oargs: 1, nb_iargs: 2, nb_cargs: 0, flags: OpFlags(0x40) },
            Opcode::LdVec => OpDef { name: "ld_vec", nb_oargs: 1, nb_iargs: 1, nb_cargs: 1, flags: OpFlags(0x40) },
            Opcode::StVec => OpDef { name: "st_vec", nb_oargs: 0, nb_iargs: 2, nb_cargs: 1, flags: OpFlags(0x40) },
            Opcode::DupmVec => OpDef { name: "dupm_vec", nb_oargs: 1, nb_iargs: 1, nb_cargs: 1, flags: OpFlags(0x40) },
            Opcode::AddVec => OpDef { name: "add_vec", nb_oargs: 1, nb_iargs: 2, nb_cargs: 0, flags: OpFlags(0x40) },
            Opcode::SubVec => OpDef { name: "sub_vec", nb_oargs: 1, nb_iargs: 2, nb_cargs: 0, flags: OpFlags(0x40) },
            Opcode::MulVec => OpDef { name: "mul_vec", nb_oargs: 1, nb_iargs: 2, nb_cargs: 0, flags: OpFlags(0x40) },
            Opcode::NegVec => OpDef { name: "neg_vec", nb_oargs: 1, nb_iargs: 1, nb_cargs: 0, flags: OpFlags(0x40) },
            Opcode::AbsVec => OpDef { name: "abs_vec", nb_oargs: 1, nb_iargs: 1, nb_cargs: 0, flags: OpFlags(0x40) },
            Opcode::SsaddVec => OpDef { name: "ssadd_vec", nb_oargs: 1, nb_iargs: 2, nb_cargs: 0, flags: OpFlags(0x40) },
            Opcode::UsaddVec => OpDef { name: "usadd_vec", nb_oargs: 1, nb_iargs: 2, nb_cargs: 0, flags: OpFlags(0x40) },
            Opcode::SssubVec => OpDef { name: "sssub_vec", nb_oargs: 1, nb_iargs: 2, nb_cargs: 0, flags: OpFlags(0x40) },
            Opcode::UssubVec => OpDef { name: "ussub_vec", nb_oargs: 1, nb_iargs: 2, nb_cargs: 0, flags: OpFlags(0x40) },
            Opcode::SminVec => OpDef { name: "smin_vec", nb_oargs: 1, nb_iargs: 2, nb_cargs: 0, flags: OpFlags(0x40) },
            Opcode::UminVec => OpDef { name: "umin_vec", nb_oargs: 1, nb_iargs: 2, nb_cargs: 0, flags: OpFlags(0x40) },
            Opcode::SmaxVec => OpDef { name: "smax_vec", nb_oargs: 1, nb_iargs: 2, nb_cargs: 0, flags: OpFlags(0x40) },
            Opcode::UmaxVec => OpDef { name: "umax_vec", nb_oargs: 1, nb_iargs: 2, nb_cargs: 0, flags: OpFlags(0x40) },
            Opcode::AndVec => OpDef { name: "and_vec", nb_oargs: 1, nb_iargs: 2, nb_cargs: 0, flags: OpFlags(0x40) },
            Opcode::OrVec => OpDef { name: "or_vec", nb_oargs: 1, nb_iargs: 2, nb_cargs: 0, flags: OpFlags(0x40) },
            Opcode::XorVec => OpDef { name: "xor_vec", nb_oargs: 1, nb_iargs: 2, nb_cargs: 0, flags: OpFlags(0x40) },
            Opcode::AndcVec => OpDef { name: "andc_vec", nb_oargs: 1, nb_iargs: 2, nb_cargs: 0, flags: OpFlags(0x40) },
            Opcode::OrcVec => OpDef { name: "orc_vec", nb_oargs: 1, nb_iargs: 2, nb_cargs: 0, flags: OpFlags(0x40) },
            Opcode::NandVec => OpDef { name: "nand_vec", nb_oargs: 1, nb_iargs: 2, nb_cargs: 0, flags: OpFlags(0x40) },
            Opcode::NorVec => OpDef { name: "nor_vec", nb_oargs: 1, nb_iargs: 2, nb_cargs: 0, flags: OpFlags(0x40) },
            Opcode::EqvVec => OpDef { name: "eqv_vec", nb_oargs: 1, nb_iargs: 2, nb_cargs: 0, flags: OpFlags(0x40) },
            Opcode::NotVec => OpDef { name: "not_vec", nb_oargs: 1, nb_iargs: 1, nb_cargs: 0, flags: OpFlags(0x40) },
            Opcode::ShliVec => OpDef { name: "shli_vec", nb_oargs: 1, nb_iargs: 1, nb_cargs: 1, flags: OpFlags(0x40) },
            Opcode::ShriVec => OpDef { name: "shri_vec", nb_oargs: 1, nb_iargs: 1, nb_cargs: 1, flags: OpFlags(0x40) },
            Opcode::SariVec => OpDef { name: "sari_vec", nb_oargs: 1, nb_iargs: 1, nb_cargs: 1, flags: OpFlags(0x40) },
            Opcode::RotliVec => OpDef { name: "rotli_vec", nb_oargs: 1, nb_iargs: 1, nb_cargs: 1, flags: OpFlags(0x40) },
            Opcode::ShlsVec => OpDef { name: "shls_vec", nb_oargs: 1, nb_iargs: 2, nb_cargs: 0, flags: OpFlags(0x40) },
            Opcode::ShrsVec => OpDef { name: "shrs_vec", nb_oargs: 1, nb_iargs: 2, nb_cargs: 0, flags: OpFlags(0x40) },
            Opcode::SarsVec => OpDef { name: "sars_vec", nb_oargs: 1, nb_iargs: 2, nb_cargs: 0, flags: OpFlags(0x40) },
            Opcode::RotlsVec => OpDef { name: "rotls_vec", nb_oargs: 1, nb_iargs: 2, nb_cargs: 0, flags: OpFlags(0x40) },
            Opcode::ShlvVec => OpDef { name: "shlv_vec", nb_oargs: 1, nb_iargs: 2, nb_cargs: 0, flags: OpFlags(0x40) },
            Opcode::ShrvVec => OpDef { name: "shrv_vec", nb_oargs: 1, nb_iargs: 2, nb_cargs: 0, flags: OpFlags(0x40) },
            Opcode::SarvVec => OpDef { name: "sarv_vec", nb_oargs: 1, nb_iargs: 2, nb_cargs: 0, flags: OpFlags(0x40) },
            Opcode::RotlvVec => OpDef { name: "rotlv_vec", nb_oargs: 1, nb_iargs: 2, nb_cargs: 0, flags: OpFlags(0x40) },
            Opcode::RotrvVec => OpDef { name: "rotrv_vec", nb_oargs: 1, nb_iargs: 2, nb_cargs: 0, flags: OpFlags(0x40) },
            Opcode::CmpVec => OpDef { name: "cmp_vec", nb_oargs: 1, nb_iargs: 2, nb_cargs: 1, flags: OpFlags(0x40) },
            Opcode::BitselVec => OpDef { name: "bitsel_vec", nb_oargs: 1, nb_iargs: 3, nb_cargs: 0, flags: OpFlags(0x40) },
            Opcode::CmpselVec => OpDef { name: "cmpsel_vec", nb_oargs: 1, nb_iargs: 4, nb_cargs: 1, flags: OpFlags(0x40) },
        }
    }

    /// Position of the opcode in declaration order.
    pub open spec fn spec_index(self) -> nat {
        match self {
            Opcode::Mov => 0,
            Opcode::SetCond => 1,
            Opcode::NegSetCond => 2,
            Opcode::MovCond => 3,
            Opcode::Add => 4,
            Opcode::Sub => 5,
            Opcode::Mul => 6,
            Opcode::Neg => 7,
            Opcode::DivS => 8,
            Opcode::DivU => 9,
            Opcode::RemS => 10,
            Opcode::RemU => 11,
            Opcode::DivS2 => 12,
            Opcode::DivU2 => 13,
            Opcode::MulSH => 14,
            Opcode::MulUH => 15,
            Opcode::MulS2 => 16,
            Opcode::MulU2 => 17,
            Opcode::AddCO => 18,
            Opcode::AddCI => 19,
            Opcode::AddCIO => 20,
            Opcode::AddC1O => 21,
            Opcode::SubBO => 22,
            Opcode::SubBI => 23,
            Opcode::SubBIO => 24,
            Opcode::SubB1O => 25,
            Opcode::And => 26,
            Opcode::Or => 27,
            Opcode::Xor => 28,
            Opcode::Not => 29,
            Opcode::AndC => 30,
            Opcode::OrC => 31,
            Opcode::Eqv => 32,
            Opcode::Nand => 33,
            Opcode::Nor => 34,
            Opcode::Shl => 35,
            Opcode::Shr => 36,
            Opcode::Sar => 37,
            Opcode::RotL => 38,
            Opcode::RotR => 39,
            Opcode::Extract => 40,
            Opcode::SExtract => 41,
            Opcode::Deposit => 42,
            Opcode::Extract2 => 43,
            Opcode::Bswap16 => 44,
            Opcode::Bswap32 => 45,
            Opcode::Bswap64 => 46,
            Opcode::Clz => 47,
            Opcode::Ctz => 48,
            Opcode::CtPop => 49,
            Opcode::BrCond2I32 => 50,
            Opcode::SetCond2I32 => 51,
            Opcode::ExtI32I64 => 52,
            Opcode::ExtUI32I64 => 53,
            Opcode::ExtrlI64I32 => 54,
            Opcode::ExtrhI64I32 => 55,
            Opcode::Ld8U => 56,
            Opcode::Ld8S => 57,
            Opcode::Ld16U => 58,
            Opcode::Ld16S => 59,
            Opcode::Ld32U => 60,
            Opcode::Ld32S => 61,
            Opcode::Ld => 62,
            Opcode::St8 => 63,
            Opcode::St16 => 64,
            Opcode::St32 => 65,
            Opcode::St => 66,
            Opcode::QemuLd => 67,
            Opcode::QemuSt => 68,
            Opcode::QemuLd2 => 69,
            Opcode::QemuSt2 => 70,
            Opcode::Br => 71,
            Opcode::BrCond => 72,
            Opcode::SetLabel => 73,
            Opcode::GotoTb => 74,
            Opcode::ExitTb => 75,
            Opcode::GotoPtr => 76,
            Opcode::Mb => 77,
            Opcode::Call => 78,
            Opcode::PluginCb => 79,
            Opcode::PluginMemCb => 80,
            Opcode::Nop => 81,
            Opcode::Discard => 82,
            Opcode::InsnStart => 83,
            Opcode::MovVec => 84,
            Opcode::DupVec => 85,
            Opcode::Dup2Vec => 86,
            Opcode::LdVec => 87,
            Opcode::StVec => 88,
            Opcode::DupmVec => 89,
            Opcode::AddVec => 90,
            Opcode::SubVec => 91,
            Opcode::MulVec => 92,
            Opcode::NegVec => 93,
            Opcode::AbsVec => 94,
            Opcode::SsaddVec => 95,
            Opcode::UsaddVec => 96,
            Opcode::SssubVec => 97,
            Opcode::UssubVec => 98,
            Opcode::SminVec => 99,
            Opcode::UminVec => 100,
            Opcode::SmaxVec => 101,
            Opcode::UmaxVec => 102,
            Opcode::AndVec => 103,
            Opcode::OrVec => 104,
            Opcode::XorVec => 105,
            Opcode::AndcVec => 106,
            Opcode::OrcVec => 107,
            Opcode::NandVec => 108,
            Opcode::NorVec => 109,
            Opcode::EqvVec => 110,
            Opcode::NotVec => 111,
            Opcode::ShliVec => 112,
            Opcode::ShriVec => 113,
            Opcode::SariVec => 114,
            Opcode::RotliVec => 115,
            Opcode::ShlsVec => 116,
            Opcode::ShrsVec => 117,
            Opcode::SarsVec => 118,
            Opcode::RotlsVec => 119,
            Opcode::ShlvVec => 120,
            Opcode::ShrvVec => 121,
            Opcode::SarvVec => 122,
            Opcode::RotlvVec => 123,
            Opcode::RotrvVec => 124,
            Opcode::CmpVec => 125,
            Opcode::BitselVec => 126,
            Opcode::CmpselVec => 127,
        }
    }

    pub fn index(self) -> (r: usize)
        ensures
            r == self.spec_index(),
            r < OPCODE_COUNT,
    {
        match self {
            Opcode::Mov => 0,
            Opcode::SetCond => 1,
            Opcode::NegSetCond => 2,
            Opcode::MovCond => 3,
            Opcode::Add => 4,
            Opcode::Sub => 5,
            Opcode::Mul => 6,
            Opcode::Neg => 7,
            Opcode::DivS => 8,
            Opcode::DivU => 9,
            Opcode::RemS => 10,
            Opcode::RemU => 11,
            Opcode::DivS2 => 12,
            Opcode::DivU2 => 13,
            Opcode::MulSH => 14,
            Opcode::MulUH => 15,
            Opcode::MulS2 => 16,
            Opcode::MulU2 => 17,
            Opcode::AddCO => 18,
            Opcode::AddCI => 19,
            Opcode::AddCIO => 20,
            Opcode::AddC1O => 21,
            Opcode::SubBO => 22,
            Opcode::SubBI => 23,
            Opcode::SubBIO => 24,
            Opcode::SubB1O => 25,
            Opcode::And => 26,
            Opcode::Or => 27,
            Opcode::Xor => 28,
            Opcode::Not => 29,
            Opcode::AndC => 30,
            Opcode::OrC => 31,
            Opcode::Eqv => 32,
            Opcode::Nand => 33,
            Opcode::Nor => 34,
            Opcode::Shl => 35,
            Opcode::Shr => 36,
            Opcode::Sar => 37,
            Opcode::RotL => 38,
            Opcode::RotR => 39,
            Opcode::Extract => 40,
            Opcode::SExtract => 41,
            Opcode::Deposit => 42,
            Opcode::Extract2 => 43,
            Opcode::Bswap16 => 44,
            Opcode::Bswap32 => 45,
            Opcode::Bswap64 => 46,
            Opcode::Clz => 47,
            Opcode::Ctz => 48,
            Opcode::CtPop => 49,
            Opcode::BrCond2I32 => 50,
            Opcode::SetCond2I32 => 51,
            Opcode::ExtI32I64 => 52,
            Opcode::ExtUI32I64 => 53,
            Opcode::ExtrlI64I32 => 54,
            Opcode::ExtrhI64I32 => 55,
            Opcode::Ld8U => 56,
            Opcode::Ld8S => 57,
            Opcode::Ld16U => 58,
            Opcode::Ld16S => 59,
            Opcode::Ld32U => 60,
            Opcode::Ld32S => 61,
            Opcode::Ld => 62,
            Opcode::St8 => 63,
            Opcode::St16 => 64,
            Opcode::St32 => 65,
            Opcode::St => 66,
            Opcode::QemuLd => 67,
            Opcode::QemuSt => 68,
            Opcode::QemuLd2 => 69,
            Opcode::QemuSt2 => 70,
            Opcode::Br => 71,
            Opcode::BrCond => 72,
            Opcode::SetLabel => 73,
            Opcode::GotoTb => 74,
            Opcode::ExitTb => 75,
            Opcode::GotoPtr => 76,
            Opcode::Mb => 77,
            Opcode::Call => 78,
            Opcode::PluginCb => 79,
            Opcode::PluginMemCb => 80,
            Opcode::Nop => 81,
            Opcode::Discard => 82,
            Opcode::InsnStart => 83,
            Opcode::MovVec => 84,
            Opcode::DupVec => 85,
            Opcode::Dup2Vec => 86,
            Opcode::LdVec => 87,
            Opcode::StVec => 88,
            Opcode::DupmVec => 89,
            Opcode::AddVec => 90,
            Opcode::SubVec => 91,
            Opcode::MulVec => 92,
            Opcode::NegVec => 93,
            Opcode::AbsVec => 94,
            Opcode::SsaddVec => 95,
            Opcode::UsaddVec => 96,
            Opcode::SssubVec => 97,
            Opcode::UssubVec => 98,
            Opcode::SminVec => 99,
            Opcode::UminVec => 100,
            Opcode::SmaxVec => 101,
            Opcode::UmaxVec => 102,
            Opcode::AndVec => 103,
            Opcode::OrVec => 104,
            Opcode::XorVec => 105,
            Opcode::AndcVec => 106,
            Opcode::OrcVec => 107,
            Opcode::NandVec => 108,
            Opcode::NorVec => 109,
            Opcode::EqvVec => 110,
            Opcode::NotVec => 111,
            Opcode::ShliVec => 112,
            Opcode::ShriVec => 113,
            Opcode::SariVec => 114,
            Opcode::RotliVec => 115,
            Opcode::ShlsVec => 116,
            Opcode::ShrsVec => 117,
            Opcode::SarsVec => 118,
            Opcode::RotlsVec => 119,
            Opcode::ShlvVec => 120,
            Opcode::ShrvVec => 121,
            Opcode::SarvVec => 122,
            Opcode::RotlvVec => 123,
            Opcode::RotrvVec => 124,
            Opcode::CmpVec => 125,
            Opcode::BitselVec => 126,
            Opcode::CmpselVec => 127,
        }
    }

    /// The opcode at position `i`, or `None` past the last one.
    pub fn from_index(i: usize) -> (r: Option<Opcode>)
        ensures
            r is Some <==> i < OPCODE_COUNT,
            r matches Some(o) ==> o == opcode_at(i as int) && o.spec_index() == i,
    {
        match i {
            0 => Some(Opcode::Mov),
            1 => Some(Opcode::SetCond),
            2 => Some(Opcode::NegSetCond),
            3 => Some(Opcode::MovCond),
            4 => Some(Opcode::Add),
            5 => Some(Opcode::Sub),
            6 => Some(Opcode::Mul),
            7 => Some(Opcode::Neg),
            8 => Some(Opcode::DivS),
            9 => Some(Opcode::DivU),
            10 => Some(Opcode::RemS),
            11 => Some(Opcode::RemU),
            12 => Some(Opcode::DivS2),
            13 => Some(Opcode::DivU2),
            14 => Some(Opcode::MulSH),
            15 => Some(Opcode::MulUH),
            16 => Some(Opcode::MulS2),
            17 => Some(Opcode::MulU2),
            18 => Some(Opcode::AddCO),
            19 => Some(Opcode::AddCI),
            20 => Some(Opcode::AddCIO),
            21 => Some(Opcode::AddC1O),
            22 => Some(Opcode::SubBO),
            23 => Some(Opcode::SubBI),
            24 => Some(Opcode::SubBIO),
            25 => Some(Opcode::SubB1O),
            26 => Some(Opcode::And),
            27 => Some(Opcode::Or),
            28 => Some(Opcode::Xor),
            29 => Some(Opcode::Not),
            30 => Some(Opcode::AndC),
            31 => Some(Opcode::OrC),
            32 => Some(Opcode::Eqv),
            33 => Some(Opcode::Nand),
            34 => Some(Opcode::Nor),
            35 => Some(Opcode::Shl),
            36 => Some(Opcode::Shr),
            37 => Some(Opcode::Sar),
            38 => Some(Opcode::RotL),
            39 => Some(Opcode::RotR),
            40 => Some(Opcode::Extract),
            41 => Some(Opcode::SExtract),
            42 => Some(Opcode::Deposit),
            43 => Some(Opcode::Extract2),
            44 => Some(Opcode::Bswap16),
            45 => Some(Opcode::Bswap32),
            46 => Some(Opcode::Bswap64),
            47 => Some(Opcode::Clz),
            48 => Some(Opcode::Ctz),
            49 => Some(Opcode::CtPop),
            50 => Some(Opcode::BrCond2I32),
            51 => Some(Opcode::SetCond2I32),
            52 => Some(Opcode::ExtI32I64),
            53 => Some(Opcode::ExtUI32I64),
            54 => Some(Opcode::ExtrlI64I32),
            55 => Some(Opcode::ExtrhI64I32),
            56 => Some(Opcode::Ld8U),
            57 => Some(Opcode::Ld8S),
            58 => Some(Opcode::Ld16U),
            59 => Some(Opcode::Ld16S),
            60 => Some(Opcode::Ld32U),
            61 => Some(Opcode::Ld32S),
            62 => Some(Opcode::Ld),
            63 => Some(Opcode::St8),
            64 => Some(Opcode::St16),
            65 => Some(Opcode::St32),
            66 => Some(Opcode::St),
            67 => Some(Opcode::QemuLd),
            68 => Some(Opcode::QemuSt),
            69 => Some(Opcode::QemuLd2),
            70 => Some(Opcode::QemuSt2),
            71 => Some(Opcode::Br),
            72 => Some(Opcode::BrCond),
            73 => Some(Opcode::SetLabel),
            74 => Some(Opcode::GotoTb),
            75 => Some(Opcode::ExitTb),
            76 => Some(Opcode::GotoPtr),
            77 => Some(Opcode::Mb),
            78 => Some(Opcode::Call),
            79 => Some(Opcode::PluginCb),
            80 => Some(Opcode::PluginMemCb),
            81 => Some(Opcode::Nop),
            82 => Some(Opcode::Discard),
            83 => Some(Opcode::InsnStart),
            84 => Some(Opcode::MovVec),
            85 => Some(Opcode::DupVec),
            86 => Some(Opcode::Dup2Vec),
            87 => Some(Opcode::LdVec),
            88 => Some(Opcode::StVec),
            89 => Some(Opcode::DupmVec),
            90 => Some(Opcode::AddVec),
            91 => Some(Opcode::SubVec),
            92 => Some(Opcode::MulVec),
            93 => Some(Opcode::NegVec),
            94 => Some(Opcode::AbsVec),
            95 => Some(Opcode::SsaddVec),
            96 => Some(Opcode::UsaddVec),
            97 => Some(Opcode::SssubVec),
            98 => Some(Opcode::UssubVec),
            99 => Some(Opcode::SminVec),
            100 => Some(Opcode::UminVec),
            101 => Some(Opcode::SmaxVec),
            102 => Some(Opcode::UmaxVec),
            103 => Some(Opcode::AndVec),
            104 => Some(Opcode::OrVec),
            105 => Some(Opcode::XorVec),
            106 => Some(Opcode::AndcVec),
            107 => Some(Opcode::OrcVec),
            108 => Some(Opcode::NandVec),
            109 => Some(Opcode::NorVec),
            110 => Some(Opcode::EqvVec),
            111 => Some(Opcode::NotVec),
            112 => Some(Opcode::ShliVec),
            113 => Some(Opcode::ShriVec),
            114 => Some(Opcode::SariVec),
            115 => Some(Opcode::RotliVec),
            116 => Some(Opcode::ShlsVec),
            117 => Some(Opcode::ShrsVec),
            118 => Some(Opcode::SarsVec),
            119 => Some(Opcode::RotlsVec),
            120 => Some(Opcode::ShlvVec),
            121 => Some(Opcode::ShrvVec),
            122 => Some(Opcode::SarvVec),
            123 => Some(Opcode::RotlvVec),
            124 => Some(Opcode::RotrvVec),
            125 => Some(Opcode::CmpVec),
            126 => Some(Opcode::BitselVec),
            127 => Some(Opcode::CmpselVec),
            _ => None,
        }
    }

    pub open spec fn spec_fixed_type(self) -> Option<Type> {
        match self {
            Opcode::ExtI32I64 | Opcode::ExtUI32I64 => Some(Type::I64),
            Opcode::ExtrlI64I32 | Opcode::ExtrhI64I32 | Opcode::BrCond2I32 | Opcode::SetCond2I32 => Some(Type::I32),
            _ => None,
        }
    }

    /// The fixed IR type of this opcode, if it is not type-polymorphic.
    pub fn fixed_type(self) -> (r: Option<Type>)
        ensures
            r == self.spec_fixed_type(),
    {
        match self {
            Opcode::ExtI32I64 | Opcode::ExtUI32I64 => Some(Type::I64),
            Opcode::ExtrlI64I32 | Opcode::ExtrhI64I32 | Opcode::BrCond2I32 | Opcode::SetCond2I32 => Some(Type::I32),
            _ => None,
        }
    }

    /// Whether this opcode is type-polymorphic (works on I32 or I64).
    pub fn is_int_polymorphic(self) -> (r: bool)
        ensures
            r == self.spec_def().flags.has(FLAG_INT),
    {
        self.def().flags.contains(OpFlags::integer())
    }

    /// Whether this is a vector operation.
    pub fn is_vector(self) -> (r: bool)
        ensures
            r == self.spec_def().flags.has(FLAG_VECTOR),
    {
        self.def().flags.contains(OpFlags::vector())
    }
}

/// The definitions of all opcodes, in declaration order.
pub fn opcode_defs() -> (v: Vec<OpDef>)
    ensures
        v.len() == OPCODE_COUNT,
        forall|i: int| 0 <= i < OPCODE_COUNT ==> #[trigger] v@[i] == opcode_at(i).spec_def(),
{
    let mut v: Vec<OpDef> = Vec::new();
    let mut i: usize = 0;
    while i < OPCODE_COUNT
        invariant
            i <= OPCODE_COUNT,
            v.len() == i,
            forall|k: int| 0 <= k < i ==> #[trigger] v@[k] == opcode_at(k).spec_def(),
        decreases OPCODE_COUNT - i,
    {
        if let Some(o) = Opcode::from_index(i) {
            v.push(o.def());
        }
        i = i + 1;
    }
    v
}

/// Every opcode has at most 10 arguments, so its arguments fit the argument
/// array of an op.
pub proof fn lemma_opcode_arg_counts(o: Opcode)
    ensures
        o.spec_def().spec_nb_args() <= 10,
{

}

/// Positions and opcodes correspond one to one.
pub proof fn lemma_opcode_index_roundtrip(o: Opcode)
    ensures
        o.spec_index() < OPCODE_COUNT,
        opcode_at(o.spec_index() as int) == o,
{
}

} // verus!
