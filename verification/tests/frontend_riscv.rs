use tcg::context::Context;
use tcg::frontend::riscv_args::{ArgsAtomic, ArgsB, ArgsCsr, ArgsEmpty, ArgsI, ArgsJ, ArgsR, ArgsR2, ArgsR2Rm, ArgsRRm, ArgsS, ArgsShift, ArgsU};
use tcg::frontend::riscv_cpu::{fpr_offset, gpr_offset, RiscvCpu, PC_OFFSET, USTATUS_FS_DIRTY};
use tcg::frontend::riscv_disas::{is_compressed, FpHelpers, RiscvDisasContext, MAX_BLOCK_INSNS};
use tcg::frontend::riscv_ext::{MisaExt, RiscvCfg};
use tcg::frontend::riscv_fpu::{
    canonical_nan_f32, canonical_nan_f64, fclass_f32, fclass_f64, fcsr_read, fcsr_write, fsgnj_d, fsgnj_s, fsgnjn_d,
    fsgnjx_d, is_nan_f32, is_nan_f64, is_snan_f32, is_snan_f64, map_fenv_flags, map_rm, nanbox_f32, read_f32_bits,
    set_invalid, update_fflags, FE_DOWNWARD, FE_INEXACT, FE_INVALID, FE_TONEAREST, FE_TOWARDZERO, FE_UPWARD,
};
use tcg::frontend::{translator_should_stop, DisasContextBase, DisasJumpType};
use tcg::opcode::Opcode;
use tcg::temp::{TempIdx, TempKind};
use tcg::types::Type;

fn setup(pc: u64) -> (RiscvDisasContext, Context) {
    let mut ir = Context::new();
    let fp = FpHelpers { fadd_s: 0x1234_5678_9abc, fcvt_s_w: 0x4444, feq_d: 0x5555, ..FpHelpers::default() };
    let mut dc = RiscvDisasContext::new(pc, fp);
    dc.init_disas_context(&mut ir);
    (dc, ir)
}

fn args_of(ir: &Context, i: usize) -> Vec<TempIdx> {
    let op = &ir.ops()[i];
    op.args[..op.nargs as usize].to_vec()
}

#[test]
fn offsets_of_registers() {
    assert_eq!(gpr_offset(0), 0);
    assert_eq!(gpr_offset(3), 24);
    assert_eq!(fpr_offset(0), 256);
    assert_eq!(fpr_offset(1), 264);
}

#[test]
fn cpu_reset_state() {
    let c = RiscvCpu::new();
    assert!(c.gpr.iter().all(|&r| r == 0));
    assert_eq!(c.load_res, u64::MAX);
    assert_eq!(c.ustatus, USTATUS_FS_DIRTY);
}

#[test]
fn misa_sets() {
    let g = MisaExt::g();
    assert!(g.contains(MisaExt::i()));
    assert!(g.contains(MisaExt::m()));
    assert!(!g.contains(MisaExt::c()));
    let gc = g.union(MisaExt::c());
    assert_eq!(gc.bits(), 0x112d);
    assert_eq!(MisaExt::from_bits_truncate(0xffff_ffff).bits(), 0x3ff_ffff);
    let cfg = RiscvCfg::default();
    assert_eq!(cfg, RiscvCfg::rv64imafdc());
    assert!(cfg.misa.contains(MisaExt::c()));
}

#[test]
fn should_stop_marks_full_block() {
    let mut b = DisasContextBase::new(0x1000, 2);
    assert!(!translator_should_stop(&mut b));
    b.num_insns = 2;
    assert!(translator_should_stop(&mut b));
    assert_eq!(b.is_jmp, DisasJumpType::TooMany);
    let mut b2 = DisasContextBase::new(0x1000, 2);
    b2.is_jmp = DisasJumpType::NoReturn;
    assert!(translator_should_stop(&mut b2));
    assert_eq!(b2.is_jmp, DisasJumpType::NoReturn);
}

#[test]
fn fenv_flags_map_to_fflags() {
    assert_eq!(map_fenv_flags(0), 0);
    assert_eq!(map_fenv_flags(FE_INEXACT), 0x1);
    assert_eq!(map_fenv_flags(FE_INVALID | FE_INEXACT), 0x11);
    assert_eq!(map_fenv_flags(0x3f), 0x1f);
}

#[test]
fn rounding_modes() {
    let mut c = RiscvCpu::new();
    assert_eq!(map_rm(&mut c, 0), FE_TONEAREST);
    assert_eq!(map_rm(&mut c, 1), FE_TOWARDZERO);
    assert_eq!(map_rm(&mut c, 2), FE_DOWNWARD);
    assert_eq!(map_rm(&mut c, 3), FE_UPWARD);
    assert_eq!(c.fflags, 0);
    c.frm = 3;
    assert_eq!(map_rm(&mut c, 7), FE_UPWARD);
    assert_eq!(map_rm(&mut c, 5), FE_TONEAREST);
    assert_eq!(c.fflags, 0x10);
}

#[test]
fn fflags_accumulate() {
    let mut c = RiscvCpu::new();
    update_fflags(&mut c, 0x1);
    update_fflags(&mut c, 0x4);
    assert_eq!(c.fflags, 0x5);
    update_fflags(&mut c, 0x100);
    assert_eq!(c.fflags, 0x5);
    set_invalid(&mut c);
    assert_eq!(c.fflags, 0x15);
}

#[test]
fn nan_boxing() {
    assert_eq!(nanbox_f32(0x3f80_0000), 0xffff_ffff_3f80_0000);
    assert_eq!(read_f32_bits(0xffff_ffff_3f80_0000), 0x3f80_0000);
    assert_eq!(read_f32_bits(0x0000_0000_3f80_0000), canonical_nan_f32());
    assert_eq!(canonical_nan_f64(), 0x7ff8_0000_0000_0000);
}

#[test]
fn nan_classes() {
    assert!(is_nan_f32(0x7fc0_0000));
    assert!(!is_snan_f32(0x7fc0_0000));
    assert!(is_snan_f32(0x7f80_0001));
    assert!(!is_nan_f32(0x7f80_0000));
    assert!(is_nan_f64(0x7ff8_0000_0000_0000));
    assert!(is_snan_f64(0x7ff0_0000_0000_0001));
    assert!(!is_nan_f64(0x7ff0_0000_0000_0000));
}

#[test]
fn fclass_values() {
    assert_eq!(fclass_f32(0xff80_0000), 1 << 0);
    assert_eq!(fclass_f32(0xbf80_0000), 1 << 1);
    assert_eq!(fclass_f32(0x8000_0001), 1 << 2);
    assert_eq!(fclass_f32(0x8000_0000), 1 << 3);
    assert_eq!(fclass_f32(0x0000_0000), 1 << 4);
    assert_eq!(fclass_f32(0x0000_0001), 1 << 5);
    assert_eq!(fclass_f32(0x3f80_0000), 1 << 6);
    assert_eq!(fclass_f32(0x7f80_0000), 1 << 7);
    assert_eq!(fclass_f32(0x7f80_0001), 1 << 8);
    assert_eq!(fclass_f32(0x7fc0_0000), 1 << 9);
    assert_eq!(fclass_f64(0x3ff0_0000_0000_0000), 1 << 6);
    assert_eq!(fclass_f64(0xfff0_0000_0000_0000), 1 << 0);
    assert_eq!(fclass_f64(0x7ff8_0000_0000_0000), 1 << 9);
}

#[test]
fn sign_injection() {
    assert_eq!(fsgnj_d(0x3ff0_0000_0000_0000, 0x8000_0000_0000_0000), 0xbff0_0000_0000_0000);
    assert_eq!(fsgnjn_d(0x3ff0_0000_0000_0000, 0x8000_0000_0000_0000), 0x3ff0_0000_0000_0000);
    assert_eq!(fsgnjx_d(0xbff0_0000_0000_0000, 0x8000_0000_0000_0000), 0x3ff0_0000_0000_0000);
    assert_eq!(fsgnj_s(0xffff_ffff_3f80_0000, 0xffff_ffff_8000_0000), 0xffff_ffff_bf80_0000);
}

#[test]
fn fcsr_split_and_join() {
    let mut c = RiscvCpu::new();
    let old = fcsr_write(&mut c, 0xff);
    assert_eq!(old, 0);
    assert_eq!(c.fflags, 0x1f);
    assert_eq!(c.frm, 0x7);
    assert_eq!(fcsr_read(&c), 0xff);
}

#[test]
fn init_makes_register_globals() {
    let (dc, ir) = setup(0x1000);
    assert_eq!(dc.env, TempIdx(0));
    assert_eq!(ir.temp(dc.env).kind, TempKind::Fixed);
    assert_eq!(dc.gpr[1], TempIdx(2));
    assert_eq!(ir.temp(dc.gpr[5]).mem_offset, 40);
    assert_eq!(ir.temp(dc.pc).mem_offset, PC_OFFSET);
    assert_eq!(ir.nb_globals(), 36);
    assert_eq!(dc.base.max_insns, MAX_BLOCK_INSNS);
    assert_eq!(ir.num_ops(), 0);
}

#[test]
fn add_writes_destination() {
    let (mut dc, mut ir) = setup(0x1000);
    assert!(dc.trans_add(&mut ir, &ArgsR { rd: 1, rs1: 2, rs2: 3 }));
    assert_eq!(ir.num_ops(), 2);
    assert_eq!(ir.ops()[0].opc, Opcode::Add);
    let d = ir.ops()[0].args[0];
    assert_eq!(args_of(&ir, 0), vec![d, dc.gpr[2], dc.gpr[3]]);
    assert_eq!(ir.ops()[1].opc, Opcode::Mov);
    assert_eq!(args_of(&ir, 1), vec![dc.gpr[1], d]);
}

#[test]
fn write_to_x0_is_dropped() {
    let (mut dc, mut ir) = setup(0x1000);
    assert!(dc.trans_addi(&mut ir, &ArgsI { rd: 0, rs1: 0, imm: 5 }));
    assert_eq!(ir.num_ops(), 1);
    let zero = ir.ops()[0].args[1];
    assert_eq!(ir.temp(zero).val, 0);
    assert_eq!(ir.temp(zero).kind, TempKind::Const);
}

#[test]
fn load_with_offset_adds_first() {
    let (mut dc, mut ir) = setup(0x1000);
    assert!(dc.trans_ld(&mut ir, &ArgsI { rd: 5, rs1: 2, imm: 16 }));
    let opcs: Vec<Opcode> = ir.ops().iter().map(|o| o.opc).collect();
    assert_eq!(opcs, vec![Opcode::Add, Opcode::QemuLd, Opcode::Mov]);
    let (mut dc2, mut ir2) = setup(0x1000);
    assert!(dc2.trans_sd(&mut ir2, &ArgsS { rs1: 2, rs2: 5, imm: 0 }));
    assert_eq!(ir2.num_ops(), 1);
    assert_eq!(ir2.ops()[0].opc, Opcode::QemuSt);
    assert_eq!(args_of(&ir2, 0)[0], dc2.gpr[5]);
}

#[test]
fn branch_ends_block_with_two_exits() {
    let (mut dc, mut ir) = setup(0x1000);
    assert!(dc.trans_beq(&mut ir, &ArgsB { rs1: 1, rs2: 2, imm: -8 }));
    assert_eq!(dc.base.is_jmp, DisasJumpType::NoReturn);
    let opcs: Vec<Opcode> = ir.ops().iter().map(|o| o.opc).collect();
    assert_eq!(
        opcs,
        vec![Opcode::BrCond, Opcode::Mov, Opcode::ExitTb, Opcode::SetLabel, Opcode::Mov, Opcode::ExitTb]
    );
    let not_taken = ir.ops()[1].args[1];
    let taken = ir.ops()[4].args[1];
    assert_eq!(ir.temp(not_taken).val, 0x1004);
    assert_eq!(ir.temp(taken).val, 0x0ff8);
}

#[test]
fn jal_links_and_jumps() {
    let (mut dc, mut ir) = setup(0x2000);
    assert!(dc.trans_jal(&mut ir, &ArgsJ { rd: 1, imm: 0x100 }));
    assert_eq!(dc.base.is_jmp, DisasJumpType::NoReturn);
    let link = ir.ops()[0].args[1];
    assert_eq!(ir.temp(link).val, 0x2004);
    let target = ir.ops()[1].args[1];
    assert_eq!(ir.temp(target).val, 0x2100);
    assert_eq!(ir.ops()[2].opc, Opcode::ExitTb);
}

#[test]
fn lui_and_auipc() {
    let (mut dc, mut ir) = setup(0x3000);
    assert!(dc.trans_lui(&mut ir, &ArgsU { rd: 4, imm: 0x12345000 }));
    assert_eq!(ir.temp(ir.ops()[0].args[1]).val, 0x12345000);
    assert!(dc.trans_auipc(&mut ir, &ArgsU { rd: 4, imm: 0x1000 }));
    assert_eq!(ir.temp(ir.ops()[1].args[1]).val, 0x4000);
}

#[test]
fn ecall_exits_with_code_one() {
    let (mut dc, mut ir) = setup(0x1000);
    assert!(dc.trans_ecall(&mut ir, &ArgsEmpty {}));
    assert_eq!(ir.ops()[1].opc, Opcode::ExitTb);
    assert_eq!(ir.ops()[1].args[0], TempIdx(1));
    assert_eq!(dc.base.is_jmp, DisasJumpType::NoReturn);
}

#[test]
fn division_special_cases_are_selected() {
    let (mut dc, mut ir) = setup(0x1000);
    assert!(dc.trans_div(&mut ir, &ArgsR { rd: 1, rs1: 2, rs2: 3 }));
    let opcs: Vec<Opcode> = ir.ops().iter().map(|o| o.opc).collect();
    assert_eq!(
        opcs,
        vec![
            Opcode::MovCond,
            Opcode::MovCond,
            Opcode::Sar,
            Opcode::DivS2,
            Opcode::Neg,
            Opcode::MovCond,
            Opcode::MovCond,
            Opcode::Mov
        ]
    );
    let (mut dc2, mut ir2) = setup(0x1000);
    assert!(dc2.trans_remuw(&mut ir2, &ArgsR { rd: 1, rs1: 2, rs2: 3 }));
    assert_eq!(ir2.ops().last().unwrap().opc, Opcode::ExtI32I64);
}

#[test]
fn amo_add_loads_computes_stores() {
    let (mut dc, mut ir) = setup(0x1000);
    assert!(dc.trans_amoadd_d(&mut ir, &ArgsAtomic { aq: 1, rl: 1, rs2: 3, rs1: 2, rd: 1 }));
    let opcs: Vec<Opcode> = ir.ops().iter().map(|o| o.opc).collect();
    assert_eq!(
        opcs,
        vec![Opcode::Mb, Opcode::QemuLd, Opcode::Add, Opcode::QemuSt, Opcode::Mb, Opcode::Mov]
    );
}

#[test]
fn sc_always_succeeds() {
    let (mut dc, mut ir) = setup(0x1000);
    assert!(dc.trans_sc_w(&mut ir, &ArgsAtomic { aq: 0, rl: 0, rs2: 3, rs1: 2, rd: 1 }));
    let opcs: Vec<Opcode> = ir.ops().iter().map(|o| o.opc).collect();
    assert_eq!(opcs, vec![Opcode::QemuSt, Opcode::Mov, Opcode::Mov]);
    assert_eq!(ir.ops()[2].args[0], dc.load_res);
}

#[test]
fn csr_access() {
    let (mut dc, mut ir) = setup(0x1000);
    assert!(dc.trans_csrrs(&mut ir, &ArgsCsr { csr: 0xC00, rs1: 0, rd: 1 }));
    assert_eq!(ir.num_ops(), 1);
    assert!(!dc.trans_csrrw(&mut ir, &ArgsCsr { csr: 0xC01, rs1: 2, rd: 1 }));
    assert!(!dc.trans_csrrw(&mut ir, &ArgsCsr { csr: 0x7c0, rs1: 2, rd: 1 }));
    let (mut dc2, mut ir2) = setup(0x1000);
    assert!(dc2.trans_csrrw(&mut ir2, &ArgsCsr { csr: 0x040, rs1: 2, rd: 1 }));
    let opcs: Vec<Opcode> = ir2.ops().iter().map(|o| o.opc).collect();
    assert_eq!(opcs, vec![Opcode::Ld, Opcode::St, Opcode::Mov]);
}

#[test]
fn fp_load_checks_and_boxes() {
    let (mut dc, mut ir) = setup(0x1000);
    assert!(dc.trans_flw(&mut ir, &ArgsI { rd: 1, rs1: 2, imm: 0 }));
    let opcs: Vec<Opcode> = ir.ops().iter().map(|o| o.opc).collect();
    assert_eq!(
        opcs,
        vec![
            Opcode::Ld,
            Opcode::And,
            Opcode::BrCond,
            Opcode::Mov,
            Opcode::ExitTb,
            Opcode::SetLabel,
            Opcode::Ld,
            Opcode::And,
            Opcode::Or,
            Opcode::St,
            Opcode::QemuLd,
            Opcode::Or,
            Opcode::St
        ]
    );
    let (mut dc2, mut ir2) = setup(0x1000);
    assert!(dc2.trans_fmv_x_d(&mut ir2, &ArgsR2 { rd: 3, rs1: 4 }));
    assert_eq!(ir2.ops().last().unwrap().opc, Opcode::Mov);
}

#[test]
fn word_shift_truncates_first() {
    let (mut dc, mut ir) = setup(0x1000);
    assert!(dc.trans_sllw(&mut ir, &ArgsR { rd: 1, rs1: 2, rs2: 3 }));
    let opcs: Vec<Opcode> = ir.ops().iter().map(|o| o.opc).collect();
    assert_eq!(opcs, vec![Opcode::ExtrlI64I32, Opcode::ExtrlI64I32, Opcode::Shl, Opcode::ExtI32I64]);
    assert_eq!(ir.ops()[2].op_type, Type::I32);
    let (mut dc2, mut ir2) = setup(0x1000);
    assert!(dc2.trans_srai(&mut ir2, &ArgsShift { rd: 1, rs1: 2, shamt: 3 }));
    assert_eq!(ir2.ops()[0].opc, Opcode::Sar);
}

#[test]
fn translator_steps() {
    let (mut dc, mut ir) = setup(0x1000);
    dc.insn_start(&mut ir);
    assert_eq!(dc.base.num_insns, 1);
    assert_eq!(ir.ops()[0].opc, Opcode::InsnStart);
    assert!(is_compressed(0x4501));
    assert!(!is_compressed(0x0513));
    dc.set_insn(0x0000_0053, 4);
    dc.finish_insn(&mut ir, false);
    assert_eq!(dc.base.pc_next, 0x1004);
    assert_eq!(dc.base.is_jmp, DisasJumpType::Next);
    assert_eq!(ir.num_ops(), 1);
    dc.set_insn(0xffff_ffff, 4);
    dc.finish_insn(&mut ir, false);
    assert_eq!(dc.base.is_jmp, DisasJumpType::NoReturn);
    assert_eq!(ir.ops().last().unwrap().opc, Opcode::ExitTb);
    let (mut dc2, mut ir2) = setup(0x1000);
    dc2.tb_stop(&mut ir2);
    assert_eq!(ir2.num_ops(), 2);
}

#[test]
fn fp_arith_calls_its_helper() {
    let (mut dc, mut ir) = setup(0x1000);
    assert!(dc.trans_fadd_s(&mut ir, &ArgsRRm { rd: 1, rs1: 2, rs2: 3, rm: 7 }));
    let opcs: Vec<Opcode> = ir.ops().iter().map(|o| o.opc).collect();
    assert_eq!(&opcs[10..], &[Opcode::Ld, Opcode::Ld, Opcode::Call, Opcode::St]);
    let call = &ir.ops()[12];
    assert_eq!(call.args[1], dc.env);
    assert_eq!(call.args[2], ir.ops()[10].args[0]);
    assert_eq!(call.args[3], ir.ops()[11].args[0]);
    assert_eq!(ir.temp(call.args[4]).val, 7);
    assert_eq!(call.args[7], TempIdx(0x5678_9abc));
    assert_eq!(call.args[8], TempIdx(0x1234));
}

#[test]
fn fp_compare_writes_integer_register() {
    let (mut dc, mut ir) = setup(0x1000);
    assert!(dc.trans_feq_d(&mut ir, &ArgsR { rd: 5, rs1: 1, rs2: 2 }));
    let opcs: Vec<Opcode> = ir.ops().iter().map(|o| o.opc).collect();
    assert_eq!(&opcs[6..], &[Opcode::Ld, Opcode::Ld, Opcode::Call, Opcode::Mov]);
    assert_eq!(ir.ops()[9].args[0], dc.gpr[5]);
    let (mut dc2, mut ir2) = setup(0x1000);
    assert!(dc2.trans_fcvt_s_w(&mut ir2, &ArgsR2Rm { rd: 1, rs1: 4, rm: 0 }));
    let opcs2: Vec<Opcode> = ir2.ops().iter().map(|o| o.opc).collect();
    assert_eq!(&opcs2[10..], &[Opcode::Call, Opcode::St]);
    assert_eq!(ir2.ops()[10].args[2], dc2.gpr[4]);
}
