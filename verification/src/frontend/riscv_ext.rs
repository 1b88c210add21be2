use vstd::prelude::*;

verus! {

/// Bitmask of single-letter RISC-V extensions: bit N stands for the
/// extension whose letter is `'A' + N`.
#[derive(Clone, Copy, Debug, PartialEq, Eq, Structural)]
pub struct MisaExt(pub u32);

impl MisaExt {
    /// No extension.
    pub fn empty() -> (r: Self)
        ensures
            r.0 == 0,
    {
        MisaExt(0)
    }

    /// The base integer ISA (`I`, bit 8).
    pub fn i() -> (r: Self)
        ensures
            r.0 == 0x100,
    {
        MisaExt(0x100)
    }

    /// Multiplication (`M`, bit 12).
    pub fn m() -> (r: Self)
        ensures
            r.0 == 0x1000,
    {
        MisaExt(0x1000)
    }

    /// Atomics (`A`, bit 0).
    pub fn a() -> (r: Self)
        ensures
            r.0 == 0x1,
    {
        MisaExt(0x1)
    }

    /// Single-precision floating point (`F`, bit 5).
    pub fn f() -> (r: Self)
        ensures
            r.0 == 0x20,
    {
        MisaExt(0x20)
    }

    /// Double-precision floating point (`D`, bit 3).
    pub fn d() -> (r: Self)
        ensures
            r.0 == 0x8,
    {
        MisaExt(0x8)
    }

    /// Compressed instructions (`C`, bit 2).
    pub fn c() -> (r: Self)
        ensures
            r.0 == 0x4,
    {
        MisaExt(0x4)
    }

    /// `G` = IMAFD.
    pub fn g() -> (r: Self)
        ensures
            r.0 == 0x1129,
    {
        MisaExt(0x1129)
    }

    /// The bits.
    pub fn bits(self) -> (r: u32)
        ensures
            r == self.0,
    {
        self.0
    }

    /// The extensions among `bits`, ignoring bits past `Z`.
    pub fn from_bits_truncate(bits: u32) -> (r: Self)
        ensures
            r.0 == bits & 0x3ff_ffff,
    {
        MisaExt(bits & 0x3ff_ffff)
    }

    /// Whether every extension of `other` is in `self`.
    pub fn contains(self, other: Self) -> (r: bool)
        ensures
            r == (self.0 & other.0 == other.0),
    {
        (self.0 & other.0) == other.0
    }

    /// The extensions of both.
    pub fn union(self, other: Self) -> (r: Self)
        ensures
            r.0 == self.0 | other.0,
    {
        MisaExt(self.0 | other.0)
    }
}

/// Per-CPU RISC-V extension configuration: single-letter extensions and the
/// Z-extensions relevant to user mode.
#[derive(Clone, Copy, Debug, PartialEq, Eq, Structural)]
pub struct RiscvCfg {
    pub misa: MisaExt,
    pub ext_zicsr: bool,
    pub ext_zifencei: bool,
    pub ext_zba: bool,
    pub ext_zbb: bool,
    pub ext_zbc: bool,
    pub ext_zbs: bool,
}

impl RiscvCfg {
    /// The RV64IMAFDC profile with Zicsr and Zifencei.
    pub fn rv64imafdc() -> (r: Self)
        ensures
            r == (RiscvCfg {
                misa: MisaExt(0x112d),
                ext_zicsr: true,
                ext_zifencei: true,
                ext_zba: false,
                ext_zbb: false,
                ext_zbc: false,
                ext_zbs: false,
            }),
    {
        RiscvCfg {
            misa: MisaExt(0x112d),
            ext_zicsr: true,
            ext_zifencei: true,
            ext_zba: false,
            ext_zbb: false,
            ext_zbc: false,
            ext_zbs: false,
        }
    }
}

impl Default for RiscvCfg {
    fn default() -> (r: Self)
        ensures
            r == RiscvCfg::spec_default_profile(),
    {
        RiscvCfg::rv64imafdc()
    }
}

impl RiscvCfg {
    pub open spec fn spec_default_profile() -> RiscvCfg {
        RiscvCfg {
            misa: MisaExt(0x112d),
            ext_zicsr: true,
            ext_zifencei: true,
            ext_zba: false,
            ext_zbb: false,
            ext_zbc: false,
            ext_zbs: false,
        }
    }
}

} // verus!
