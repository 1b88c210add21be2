use tcg::context::Context;
use tcg::opcode::Opcode;
use tcg::serialize::{deserialize, serialize, DeserializeError};
use tcg::temp::{TempIdx, TempKind};
use tcg::types::{TempVal, Type};

fn sample() -> Context {
    let mut ctx = Context::new();
    let env = ctx.new_fixed(Type::I64, 5, "env");
    let x1 = ctx.new_global(Type::I64, env, 8, "x1");
    let _x2 = ctx.new_global(Type::I64, env, 16, "x2");
    let c = ctx.new_const(Type::I64, 42);
    let t = ctx.new_temp(Type::I64);
    ctx.gen_add(Type::I64, t, x1, c);
    ctx.gen_mov(Type::I64, x1, t);
    let l = ctx.new_label();
    ctx.gen_br(l);
    ctx.gen_set_label(l);
    ctx.gen_exit_tb(0);
    ctx
}

#[test]
fn serialize_header_layout() {
    let ctx = sample();
    let bytes = serialize(&ctx);
    assert_eq!(&bytes[0..4], b"TCIR");
    assert_eq!(u16::from_le_bytes([bytes[4], bytes[5]]), 1);
    assert_eq!(u16::from_le_bytes([bytes[6], bytes[7]]), 0);
    assert_eq!(u32::from_le_bytes([bytes[8], bytes[9], bytes[10], bytes[11]]), ctx.nb_globals());
    assert_eq!(u32::from_le_bytes([bytes[12], bytes[13], bytes[14], bytes[15]]), 1);
    assert_eq!(u32::from_le_bytes([bytes[16], bytes[17], bytes[18], bytes[19]]), 1);
    // String table: three distinct names.
    assert_eq!(u32::from_le_bytes([bytes[20], bytes[21], bytes[22], bytes[23]]), 3);
    assert_eq!(u16::from_le_bytes([bytes[24], bytes[25]]), 3);
    assert_eq!(&bytes[26..29], b"env");
}

#[test]
fn serialize_deserialize_roundtrip() {
    let ctx = sample();
    let bytes = serialize(&ctx);
    let back = deserialize(&bytes).expect("reads back");
    assert_eq!(back.len(), 1);
    let r = &back[0];
    assert_eq!(r.nb_globals(), ctx.nb_globals());
    assert_eq!(r.temps().len(), ctx.temps().len());
    for (i, (a, b)) in ctx.temps().iter().zip(r.temps().iter()).enumerate() {
        assert_eq!(b.idx, TempIdx(i as u32));
        assert_eq!(a.kind, b.kind);
        assert_eq!(a.ty, b.ty);
        assert_eq!(a.val, b.val);
        assert_eq!(a.mem_base, b.mem_base);
        assert_eq!(a.mem_offset, b.mem_offset);
        assert_eq!(a.name, b.name);
    }
    assert_eq!(r.temps()[1].kind, TempKind::Global);
    assert_eq!(r.temps()[1].val_type, TempVal::Mem);
    assert_eq!(r.ops().len(), ctx.ops().len());
    for (a, b) in ctx.ops().iter().zip(r.ops().iter()) {
        assert_eq!(a.opc, b.opc);
        assert_eq!(a.op_type, b.op_type);
        assert_eq!(a.nargs, b.nargs);
        assert_eq!(&a.args[..a.nargs as usize], &b.args[..b.nargs as usize]);
    }
    assert_eq!(r.labels().len(), 1);
    assert!(r.ops().iter().any(|o| o.opc == Opcode::SetLabel));
}

#[test]
fn deserialize_concatenated_images() {
    let ctx = sample();
    let mut bytes = serialize(&ctx);
    let again = bytes.clone();
    bytes.extend_from_slice(&again);
    bytes.extend_from_slice(&[1, 2]);
    let back = deserialize(&bytes).expect("reads back");
    assert_eq!(back.len(), 2);
}

#[test]
fn deserialize_errors() {
    let ctx = sample();
    let bytes = serialize(&ctx);
    assert_eq!(deserialize(&[]).map(|v| v.len()), Ok(0));
    let mut bad = bytes.clone();
    bad[0] = b'X';
    assert_eq!(deserialize(&bad).err(), Some(DeserializeError::BadMagic));
    let mut bad = bytes.clone();
    bad[4] = 2;
    assert_eq!(deserialize(&bad).err(), Some(DeserializeError::UnsupportedVersion));
    let cut = &bytes[..bytes.len() - 1];
    assert_eq!(deserialize(cut).err(), Some(DeserializeError::UnexpectedEof));
    // Corrupt the first name's bytes into invalid UTF-8.
    let mut bad = bytes.clone();
    bad[26] = 0xFF;
    assert_eq!(deserialize(&bad).err(), Some(DeserializeError::InvalidUtf8));
}
