use tcg::opcode::{opcode_defs, OpFlags, Opcode, OPCODE_COUNT};
use tcg::types::Type;

#[test]
fn opcode_def_table_size() {
    assert_eq!(opcode_defs().len(), OPCODE_COUNT);
}

#[test]
fn opcode_def_lookup() {
    let def = Opcode::Add.def();
    assert_eq!(def.name, "add");
    assert_eq!(def.nb_oargs, 1);
    assert_eq!(def.nb_iargs, 2);
    assert_eq!(def.nb_cargs, 0);
    assert!(def.flags.contains(OpFlags::integer()));
}

#[test]
fn opcode_def_nb_args() {
    assert_eq!(Opcode::Add.def().nb_args(), 3); // 1 out + 2 in
    assert_eq!(Opcode::Not.def().nb_args(), 2); // 1 out + 1 in
    assert_eq!(Opcode::BrCond.def().nb_args(), 4); // 0 out + 2 in + 2 const
    assert_eq!(Opcode::Nop.def().nb_args(), 0);
}

#[test]
fn opcode_int_polymorphic() {
    assert!(Opcode::Add.is_int_polymorphic());
    assert!(Opcode::Sub.is_int_polymorphic());
    assert!(Opcode::And.is_int_polymorphic());
    assert!(Opcode::Shl.is_int_polymorphic());
    assert!(!Opcode::ExtI32I64.is_int_polymorphic());
    assert!(!Opcode::Br.is_int_polymorphic());
    assert!(!Opcode::Nop.is_int_polymorphic());
}

#[test]
fn opcode_fixed_type() {
    assert_eq!(Opcode::ExtI32I64.fixed_type(), Some(Type::I64));
    assert_eq!(Opcode::ExtrlI64I32.fixed_type(), Some(Type::I32));
    assert_eq!(Opcode::Add.fixed_type(), None);
}

#[test]
fn opcode_control_flow_flags() {
    let br_def = Opcode::Br.def();
    assert!(br_def.flags.contains(OpFlags::bb_end()));

    let brcond_def = Opcode::BrCond.def();
    assert!(brcond_def.flags.contains(OpFlags::bb_end()));
    assert!(brcond_def.flags.contains(OpFlags::cond_branch()));

    let exit_def = Opcode::ExitTb.def();
    assert!(exit_def.flags.contains(OpFlags::bb_exit()));
    assert!(exit_def.flags.contains(OpFlags::bb_end()));

    let goto_def = Opcode::GotoTb.def();
    assert!(goto_def.flags.contains(OpFlags::bb_exit()));
}

#[test]
fn opcode_side_effects() {
    assert!(Opcode::QemuLd.def().flags.contains(OpFlags::side_effects()));
    assert!(Opcode::QemuSt.def().flags.contains(OpFlags::side_effects()));
    assert!(Opcode::QemuLd.def().flags.contains(OpFlags::call_clobber()));
}

#[test]
fn opcode_carry_flags() {
    assert!(Opcode::AddCO.def().flags.contains(OpFlags::carry_out()));
    assert!(!Opcode::AddCO.def().flags.contains(OpFlags::carry_in()));
    assert!(Opcode::AddCI.def().flags.contains(OpFlags::carry_in()));
    assert!(!Opcode::AddCI.def().flags.contains(OpFlags::carry_out()));
    assert!(Opcode::AddCIO.def().flags.contains(OpFlags::carry_in()));
    assert!(Opcode::AddCIO.def().flags.contains(OpFlags::carry_out()));
}

#[test]
fn opcode_names_unique() {
    let mut names: Vec<&str> = opcode_defs().iter().map(|d| d.name).collect();
    let len_before = names.len();
    names.sort();
    names.dedup();
    assert_eq!(names.len(), len_before, "duplicate opcode names found");
}

#[test]
fn opcode_load_store_args() {
    // Host loads: 1 output, 1 input (base), 1 const (offset)
    let ld = Opcode::Ld.def();
    assert_eq!(ld.nb_oargs, 1);
    assert_eq!(ld.nb_iargs, 1);
    assert_eq!(ld.nb_cargs, 1);

    // Host stores: 0 output, 2 input (value, base), 1 const (offset)
    let st = Opcode::St.def();
    assert_eq!(st.nb_oargs, 0);
    assert_eq!(st.nb_iargs, 2);
    assert_eq!(st.nb_cargs, 1);
}
