use vstd::prelude::*;

use crate::types::RegSet;

verus! {

/// The register constraint of one argument of an op.
#[derive(Debug, Clone, Copy, PartialEq, Eq, Structural)]
pub struct ArgConstraint {
    /// The host registers the argument may be given.
    pub regs: RegSet,
    /// An output that takes the register of input `alias_index`.
    pub oalias: bool,
    /// An input whose register output `alias_index` may take over.
    pub ialias: bool,
    /// The index of the aliased argument (an input index for `oalias`, an
    /// output index for `ialias`).
    pub alias_index: u8,
    /// An output that must not share a register with any input.
    pub newreg: bool,
}

/// The register constraints of all arguments of an op, outputs first.
#[derive(Debug, Clone, Copy)]
pub struct OpConstraint {
    pub args: [ArgConstraint; 10],
}

/// An argument without constraint (no register).
pub open spec fn spec_unused() -> ArgConstraint {
    ArgConstraint { regs: RegSet(0), oalias: false, ialias: false, alias_index: 0, newreg: false }
}

/// Any register of `regs`.
pub open spec fn spec_r(regs: RegSet) -> ArgConstraint {
    ArgConstraint { regs, oalias: false, ialias: false, alias_index: 0, newreg: false }
}

/// Exactly the register `reg`.
pub open spec fn spec_fixed(reg: u8) -> ArgConstraint {
    ArgConstraint { regs: RegSet(1u64 << reg), oalias: false, ialias: false, alias_index: 0, newreg: false }
}

/// An output in `regs` apart from every input.
pub open spec fn spec_newreg(regs: RegSet) -> ArgConstraint {
    ArgConstraint { regs, oalias: false, ialias: false, alias_index: 0, newreg: true }
}

/// An output in `regs` that takes the register of input `i`.
pub open spec fn spec_oalias(regs: RegSet, i: u8) -> ArgConstraint {
    ArgConstraint { regs, oalias: true, ialias: false, alias_index: i, newreg: false }
}

/// An input in `regs` whose register output `o` may take over.
pub open spec fn spec_ialias(regs: RegSet, o: u8) -> ArgConstraint {
    ArgConstraint { regs, oalias: false, ialias: true, alias_index: o, newreg: false }
}

/// `s` followed by unconstrained arguments up to ten.
pub open spec fn padded(s: Seq<ArgConstraint>) -> Seq<ArgConstraint> {
    s + Seq::new((10 - s.len()) as nat, |k: int| spec_unused())
}

impl ArgConstraint {
    /// An argument without constraint.
    pub fn unused() -> (a: Self)
        ensures
            a == spec_unused(),
    {
        ArgConstraint { regs: RegSet(0), oalias: false, ialias: false, alias_index: 0, newreg: false }
    }
}

impl OpConstraint {
    /// The constraint of an op without register arguments.
    pub fn empty() -> (c: Self)
        ensures
            c.args@ == padded(Seq::empty()),
    {
        let u = ArgConstraint::unused();
        let c = OpConstraint { args: [u, u, u, u, u, u, u, u, u, u] };
        assert(c.args@ =~= padded(Seq::empty()));
        c
    }
}

/// Any register of `regs`.
pub fn r(regs: RegSet) -> (a: ArgConstraint)
    ensures
        a == spec_r(regs),
{
    ArgConstraint { regs, oalias: false, ialias: false, alias_index: 0, newreg: false }
}

/// Exactly the register `reg`.
pub fn fixed(reg: u8) -> (a: ArgConstraint)
    requires
        reg < 64,
    ensures
        a == spec_fixed(reg),
{
    ArgConstraint { regs: RegSet(1u64 << reg), oalias: false, ialias: false, alias_index: 0, newreg: false }
}

/// An output in `regs` apart from every input.
pub fn newreg(regs: RegSet) -> (a: ArgConstraint)
    ensures
        a == spec_newreg(regs),
{
    ArgConstraint { regs, oalias: false, ialias: false, alias_index: 0, newreg: true }
}

fn oalias(regs: RegSet, i: u8) -> (a: ArgConstraint)
    ensures
        a == spec_oalias(regs, i),
{
    ArgConstraint { regs, oalias: true, ialias: false, alias_index: i, newreg: false }
}

fn ialias(regs: RegSet, o: u8) -> (a: ArgConstraint)
    ensures
        a == spec_ialias(regs, o),
{
    ArgConstraint { regs, oalias: false, ialias: true, alias_index: o, newreg: false }
}

fn build(s: &[ArgConstraint]) -> (c: OpConstraint)
    requires
        s@.len() <= 10,
    ensures
        c.args@ == padded(s@),
{
    let mut c = OpConstraint::empty();
    let mut k: usize = 0;
    while k < s.len()
        invariant
            k <= s@.len() <= 10,
            c.args@ == padded(s@.take(k as int)),
        decreases s@.len() - k,
    {
        c.args[k] = s[k];
        proof {
            assert(c.args@ =~= padded(s@.take(k + 1)));
        }
        k = k + 1;
    }
    assert(s@.take(s@.len() as int) =~= s@);
    c
}

/// One output aliasing its one input.
pub fn o1_i1_alias(o0: RegSet, _i0: RegSet) -> (c: OpConstraint)
    ensures
        c.args@ == padded(seq![spec_oalias(o0, 0), spec_ialias(o0, 0)]),
{
    build(&[oalias(o0, 0), ialias(o0, 0)])
}

/// One output, one input.
pub fn o1_i1(o0: RegSet, i0: RegSet) -> (c: OpConstraint)
    ensures
        c.args@ == padded(seq![spec_r(o0), spec_r(i0)]),
{
    build(&[r(o0), r(i0)])
}

/// One output, two inputs.
pub fn o1_i2(o0: RegSet, i0: RegSet, i1: RegSet) -> (c: OpConstraint)
    ensures
        c.args@ == padded(seq![spec_r(o0), spec_r(i0), spec_r(i1)]),
{
    build(&[r(o0), r(i0), r(i1)])
}

/// One output aliasing input 0, and a second input.
pub fn o1_i2_alias(o0: RegSet, _i0: RegSet, i1: RegSet) -> (c: OpConstraint)
    ensures
        c.args@ == padded(seq![spec_oalias(o0, 0), spec_ialias(o0, 0), spec_r(i1)]),
{
    build(&[oalias(o0, 0), ialias(o0, 0), r(i1)])
}

/// One output aliasing input 0, and a second input in the fixed register
/// `i1_reg`.
pub fn o1_i2_alias_fixed(o0: RegSet, _i0: RegSet, i1_reg: u8) -> (c: OpConstraint)
    requires
        i1_reg < 64,
    ensures
        c.args@ == padded(seq![spec_oalias(o0, 0), spec_ialias(o0, 0), spec_fixed(i1_reg)]),
{
    build(&[oalias(o0, 0), ialias(o0, 0), fixed(i1_reg)])
}

/// No output, one input.
pub fn o0_i1(i0: RegSet) -> (c: OpConstraint)
    ensures
        c.args@ == padded(seq![spec_r(i0)]),
{
    build(&[r(i0)])
}

/// No output, two inputs.
pub fn o0_i2(i0: RegSet, i1: RegSet) -> (c: OpConstraint)
    ensures
        c.args@ == padded(seq![spec_r(i0), spec_r(i1)]),
{
    build(&[r(i0), r(i1)])
}

/// One output apart from both inputs.
pub fn n1_i2(o0: RegSet, i0: RegSet, i1: RegSet) -> (c: OpConstraint)
    ensures
        c.args@ == padded(seq![spec_newreg(o0), spec_r(i0), spec_r(i1)]),
{
    build(&[newreg(o0), r(i0), r(i1)])
}

/// One output aliasing input 2, four inputs (conditional move: the output
/// starts as the value of input 2).
pub fn o1_i4_alias2(o0: RegSet, i0: RegSet, i1: RegSet, _i2: RegSet, i3: RegSet) -> (c: OpConstraint)
    ensures
        c.args@ == padded(seq![spec_oalias(o0, 2), spec_r(i0), spec_r(i1), spec_ialias(o0, 0), spec_r(i3)]),
{
    build(&[oalias(o0, 2), r(i0), r(i1), ialias(o0, 0), r(i3)])
}

/// Two outputs in the fixed registers `o0` and `o1`, the first aliasing
/// input 0 (also `o0`), and a second input in `i1` (double-width multiply).
pub fn o2_i2_fixed(o0: u8, o1: u8, i1: RegSet) -> (c: OpConstraint)
    requires
        o0 < 64,
        o1 < 64,
    ensures
        c.args@ == padded(
            seq![
                spec_oalias(RegSet(1u64 << o0), 0),
                spec_fixed(o1),
                spec_ialias(RegSet(1u64 << o0), 0),
                spec_r(i1),
            ],
        ),
{
    let f0 = RegSet(1u64 << o0);
    build(&[oalias(f0, 0), fixed(o1), ialias(f0, 0), r(i1)])
}

/// Two outputs in the fixed registers `o0` and `o1`, aliasing inputs 0 and 1
/// (in the same registers), and a third input in `i2` (double-width divide).
pub fn o2_i3_fixed(o0: u8, o1: u8, i2: RegSet) -> (c: OpConstraint)
    requires
        o0 < 64,
        o1 < 64,
    ensures
        c.args@ == padded(
            seq![
                spec_oalias(RegSet(1u64 << o0), 0),
                spec_oalias(RegSet(1u64 << o1), 1),
                spec_ialias(RegSet(1u64 << o0), 0),
                spec_ialias(RegSet(1u64 << o1), 1),
                spec_r(i2),
            ],
        ),
{
    let f0 = RegSet(1u64 << o0);
    let f1 = RegSet(1u64 << o1);
    build(&[oalias(f0, 0), oalias(f1, 1), ialias(f0, 0), ialias(f1, 1), r(i2)])
}

} // verus!
