use tcg::backend::fold::eval_cond;
use tcg::backend::optimize::optimize;
use tcg::context::Context;
use tcg::op::OpIdx;
use tcg::opcode::Opcode;
use tcg::temp::TempKind;
use tcg::types::{Cond, Type};

#[test]
fn signed_compare_on_32_bits() {
    assert!(eval_cond(0xFFFF_FFFF, 0, Cond::Lt, Type::I32));
    assert!(!eval_cond(0xFFFF_FFFF, 0, Cond::Ltu, Type::I32));
    assert!(eval_cond(0x8000_0000, 0x7FFF_FFFF, Cond::Lt, Type::I32));
    assert!(!eval_cond(0x8000_0000, 0x7FFF_FFFF, Cond::Lt, Type::I64));
}

#[test]
fn add_of_constants_wraps_to_32_bits() {
    let mut ctx = Context::new();
    let t0 = ctx.new_temp(Type::I32);
    let a = ctx.new_const(Type::I32, 0xFFFF_FFFF);
    let b = ctx.new_const(Type::I32, 1);
    ctx.gen_add(Type::I32, t0, a, b);
    optimize(&mut ctx);
    assert_eq!(ctx.num_ops(), 1);
    let op = *ctx.op(OpIdx(0));
    assert_eq!(op.opc, Opcode::Mov);
    assert_eq!(op.nargs, 2);
    assert_eq!(op.args[0], t0);
    let c = ctx.temp(op.args[1]);
    assert_eq!(c.kind, TempKind::Const);
    assert_eq!(c.ty, Type::I32);
    assert_eq!(c.val, 0);
}

#[test]
fn zero_minus_x_becomes_neg() {
    let mut ctx = Context::new();
    let t0 = ctx.new_temp(Type::I64);
    let t1 = ctx.new_temp(Type::I64);
    let z = ctx.new_const(Type::I64, 0);
    ctx.gen_sub(Type::I64, t0, z, t1);
    optimize(&mut ctx);
    let op = *ctx.op(OpIdx(0));
    assert_eq!(op.opc, Opcode::Neg);
    assert_eq!(op.args[0], t0);
    assert_eq!(op.args[1], t1);
    assert_eq!(op.nargs, 2);
    assert_eq!(op.op_type, Type::I64);
}

fn branch_on_constants(c: Cond) -> Context {
    let mut ctx = Context::new();
    let a = ctx.new_const(Type::I64, 1);
    let b = ctx.new_const(Type::I64, 2);
    let l = ctx.new_label();
    ctx.gen_brcond(Type::I64, a, b, c, l);
    ctx.gen_set_label(l);
    optimize(&mut ctx);
    ctx
}

#[test]
fn taken_constant_branch_becomes_br() {
    let ctx = branch_on_constants(Cond::Ltu);
    let op = *ctx.op(OpIdx(0));
    assert_eq!(op.opc, Opcode::Br);
    assert_eq!(op.nargs, 1);
    assert_eq!(op.args[0].0, 0);
    assert_eq!(ctx.op(OpIdx(1)).opc, Opcode::SetLabel);
}

#[test]
fn untaken_constant_branch_becomes_nop() {
    let ctx = branch_on_constants(Cond::Gtu);
    let op = *ctx.op(OpIdx(0));
    assert_eq!(op.opc, Opcode::Nop);
    assert_eq!(op.nargs, 0);
    assert_eq!(ctx.op(OpIdx(1)).opc, Opcode::SetLabel);
}
