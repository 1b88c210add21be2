use tcg::context::Context;
use tcg::dump::{dump_ops, dump_ops_with, DumpLine};
use tcg::types::{Cond, Type};

fn sample() -> Context {
    let mut ctx = Context::new();
    let env = ctx.new_fixed(Type::I64, 5, "env");
    let x1 = ctx.new_global(Type::I64, env, 8, "x1");
    let c = ctx.new_const(Type::I64, 42);
    let t = ctx.new_temp(Type::I64);
    ctx.gen_insn_start(0x1000);
    ctx.gen_add(Type::I64, t, x1, c);
    ctx.gen_mov(Type::I64, x1, t);
    let l = ctx.new_label();
    ctx.gen_br(l);
    ctx.gen_set_label(l);
    ctx.gen_exit_tb(0);
    ctx
}

#[test]
fn dump_text_format() {
    let ctx = sample();
    let text = String::from_utf8(dump_ops(&ctx)).unwrap();
    let expected = " ---- 0x0000000000001000\n insn_start $0x1000\n add_i64 tmp1, x1, $0x2a\n mov_i64 x1, tmp1\n br L0\n L0:\n exit_tb $0x0\n";
    assert_eq!(text, expected);
}

#[test]
fn dump_lines_leave_room_for_annotation() {
    let ctx = sample();
    let lines = dump_ops_with(&ctx);
    assert_eq!(lines.len(), ctx.ops().len());
    match &lines[0] {
        DumpLine::Insn { pc, head, tail } => {
            assert_eq!(*pc, 0x1000);
            assert_eq!(head.as_slice(), b" ---- 0x0000000000001000");
            assert_eq!(tail.as_slice(), b"\n insn_start $0x1000\n");
        }
        DumpLine::Text(_) => panic!("expected an instruction start"),
    }
}

#[test]
fn dump_conditions_and_constants() {
    let mut ctx = Context::new();
    let a = ctx.new_temp(Type::I32);
    let b = ctx.new_temp(Type::I32);
    let d = ctx.new_temp(Type::I32);
    let l = ctx.new_label();
    ctx.gen_brcond(Type::I32, a, b, Cond::Ltu, l);
    ctx.gen_setcond(Type::I32, d, a, b, Cond::Eq);
    let text = String::from_utf8(dump_ops(&ctx)).unwrap();
    assert_eq!(text, " brcond_i32 tmp0, tmp1, ltu, L0\n setcond_i32 tmp2, tmp0, tmp1, eq\n");
}
