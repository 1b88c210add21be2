use vstd::prelude::*;
use vstd::string::StringSliceAdditionalSpecFns;

use crate::bytes::{
    enc16, enc32, enc64, le_u16, le_u32, le_u64, put_le16, put_le32, put_le64, read_le16, read_le32,
    read_le64,
};
use crate::label::Label;
use crate::context::Context;
use crate::op::{Op, MAX_OP_ARGS};
use crate::op::OpIdx;
use crate::opcode::{opcode_at, Opcode, OPCODE_COUNT};
use crate::temp::{Temp, TempIdx, TempKind};
use crate::types::{RegSet, TempVal, Type};
use vstd::utf8::{decode_utf8, valid_utf8};

verus! {

/// Format version written in the header.
pub const IR_VERSION: u16 = 1;

/// Code written for "no register", "no base" or "no name".
pub const NONE_U8: u8 = 0xFF;
pub const NONE_U32: u32 = 0xFFFF_FFFF;

/// The byte that stands for a temp kind.
pub open spec fn kind_code(k: TempKind) -> u8 {
    match k {
        TempKind::Ebb => 0,
        TempKind::Tb => 1,
        TempKind::Global => 2,
        TempKind::Fixed => 3,
        TempKind::Const => 4,
    }
}

/// The byte that stands for a type.
pub open spec fn type_code(t: Type) -> u8 {
    t.spec_index() as u8
}

/// The byte that stands for a register assignment.
pub open spec fn reg_code(r: Option<u8>) -> u8 {
    match r {
        Some(x) => x,
        None => NONE_U8,
    }
}

/// The word that stands for a memory base.
pub open spec fn base_code(b: Option<TempIdx>) -> u32 {
    match b {
        Some(t) => t.0,
        None => NONE_U32,
    }
}

/// The file header of one block's IR.
pub open spec fn ser_header(nb_globals: u32, nb_labels: u32) -> Seq<u8> {
    seq![0x54u8, 0x43u8, 0x49u8, 0x52u8] + enc16(IR_VERSION) + enc16(0) + enc32(nb_globals) + enc32(
        nb_labels,
    ) + enc32(1)
}

/// The distinct temp names (as bytes) among the first `n` temps, in order
/// of first use.
pub open spec fn names_table(temps: Seq<Temp>, n: nat) -> Seq<Seq<u8>>
    decreases n,
{
    if n == 0 || n > temps.len() {
        Seq::empty()
    } else {
        let t = names_table(temps, (n - 1) as nat);
        match temps[n - 1].name {
            Some(s) => if t.contains(s.spec_bytes()) {
                t
            } else {
                t.push(s.spec_bytes())
            },
            None => t,
        }
    }
}

/// The word that stands for a temp's name in the table `tab`.
pub open spec fn name_code(tab: Seq<Seq<u8>>, name: Option<&'static str>) -> u32 {
    match name {
        Some(s) => tab.index_of(s.spec_bytes()) as u32,
        None => NONE_U32,
    }
}

/// The first `n` strings of the table, each as its 16-bit length and bytes.
pub open spec fn ser_strings(tab: Seq<Seq<u8>>, n: nat) -> Seq<u8>
    decreases n,
{
    if n == 0 || n > tab.len() {
        Seq::empty()
    } else {
        ser_strings(tab, (n - 1) as nat) + enc16(tab[n - 1].len() as u16) + tab[n - 1]
    }
}

/// The record of one temp.
pub open spec fn ser_temp(t: Temp, name: u32) -> Seq<u8> {
    seq![kind_code(t.kind), type_code(t.ty), type_code(t.base_type), reg_code(t.reg)] + enc64(t.val)
        + enc32(base_code(t.mem_base)) + enc64(t.mem_offset as u64) + enc32(name)
}

/// The records of the first `n` temps.
pub open spec fn ser_temps(temps: Seq<Temp>, tab: Seq<Seq<u8>>, n: nat) -> Seq<u8>
    decreases n,
{
    if n == 0 || n > temps.len() {
        Seq::empty()
    } else {
        ser_temps(temps, tab, (n - 1) as nat) + ser_temp(temps[n - 1], name_code(tab, temps[n - 1].name))
    }
}

/// The first `n` arguments, as 32-bit words.
pub open spec fn ser_args(args: Seq<TempIdx>, n: nat) -> Seq<u8>
    decreases n,
{
    if n == 0 || n > args.len() {
        Seq::empty()
    } else {
        ser_args(args, (n - 1) as nat) + enc32(args[n - 1].0)
    }
}

/// The record of one op.
pub open spec fn ser_op(op: Op) -> Seq<u8> {
    seq![
        op.opc.spec_index() as u8,
        type_code(op.op_type),
        op.param1,
        op.param2,
        op.nargs,
        0u8,
        0u8,
        0u8,
    ] + ser_args(op.args@, op.nargs as nat)
}

/// The records of the first `n` ops.
pub open spec fn ser_ops(ops: Seq<Op>, n: nat) -> Seq<u8>
    decreases n,
{
    if n == 0 || n > ops.len() {
        Seq::empty()
    } else {
        ser_ops(ops, (n - 1) as nat) + ser_op(ops[n - 1])
    }
}

/// The serialized form of a block's IR: header, string table, temps, ops.
pub open spec fn ser_context(ctx: &Context) -> Seq<u8> {
    ser_header(ctx.spec_nb_globals() as u32, ctx.labels_view().len() as u32) + ser_body(ctx)
}

/// Every op has at most `MAX_OP_ARGS` arguments.
pub open spec fn args_in_range(ops: Seq<Op>) -> bool {
    forall|i: int| 0 <= i < ops.len() ==> (#[trigger] ops[i]).nargs <= MAX_OP_ARGS
}

fn kind_byte(k: TempKind) -> (r: u8)
    ensures
        r == kind_code(k),
{
    match k {
        TempKind::Ebb => 0,
        TempKind::Tb => 1,
        TempKind::Global => 2,
        TempKind::Fixed => 3,
        TempKind::Const => 4,
    }
}

/// Whether two strings have the same bytes.
fn same_bytes(a: &str, b: &str) -> (r: bool)
    ensures
        r == (a.spec_bytes() == b.spec_bytes()),
{
    let x = a.as_bytes();
    let y = b.as_bytes();
    if x.len() != y.len() {
        return false;
    }
    let mut i: usize = 0;
    while i < x.len()
        invariant
            x@ == a.spec_bytes(),
            y@ == b.spec_bytes(),
            x@.len() == y@.len(),
            i <= x@.len(),
            forall|k: int| 0 <= k < i ==> x@[k] == y@[k],
        decreases x@.len() - i,
    {
        if x[i] != y[i] {
            return false;
        }
        i = i + 1;
    }
    assert(x@ =~= y@);
    true
}

/// Intern the temp names: the table of distinct names in order of first
/// use, and each temp's name code.
fn build_strtab(temps: &[Temp]) -> (r: (Vec<&'static str>, Vec<u32>))
    ensures
        ({
            let tab = names_table(temps@, temps@.len());
            &&& r.0@.len() == tab.len()
            &&& forall|k: int| 0 <= k < tab.len() ==> (#[trigger] r.0@[k]).spec_bytes() == tab[k]
            &&& r.1@.len() == temps@.len()
            &&& forall|i: int| 0 <= i < temps@.len() ==> #[trigger] r.1@[i] == name_code(tab, temps@[i].name)
        }),
{
    let mut tab: Vec<&'static str> = Vec::new();
    let mut codes: Vec<u32> = Vec::new();
    let mut i: usize = 0;
    while i < temps.len()
        invariant
            i <= temps@.len(),
            tab@.len() == names_table(temps@, i as nat).len(),
            forall|k: int| 0 <= k < tab@.len() ==> (#[trigger] tab@[k]).spec_bytes() == names_table(temps@, i as nat)[k],
            names_table(temps@, i as nat).no_duplicates(),
            codes@.len() == i,
            forall|j: int| 0 <= j < i ==> #[trigger] codes@[j] == name_code(names_table(temps@, i as nat), temps@[j].name),
            forall|j: int| 0 <= j < i ==> ((#[trigger] temps@[j]).name matches Some(s) ==> names_table(temps@, i as nat).contains(s.spec_bytes())),
        decreases temps@.len() - i,
    {
        let ghost t0 = names_table(temps@, i as nat);
        let ghost t1 = names_table(temps@, (i + 1) as nat);
        match temps[i].name {
            None => {
                codes.push(NONE_U32);
                assert(t1 == t0);
            },
            Some(s) => {
                let mut k: usize = 0;
                let mut found: Option<usize> = None;
                while k < tab.len()
                    invariant_except_break
                        found is None,
                        forall|m: int| 0 <= m < k ==> t0[m] != s.spec_bytes(),
                    invariant
                        k <= tab@.len(),
                        tab@.len() == t0.len(),
                        forall|m: int| 0 <= m < tab@.len() ==> (#[trigger] tab@[m]).spec_bytes() == t0[m],
                    ensures
                        found matches Some(f) ==> f < t0.len() && t0[f as int] == s.spec_bytes(),
                        found is None ==> forall|m: int| 0 <= m < t0.len() ==> t0[m] != s.spec_bytes(),
                    decreases tab@.len() - k,
                {
                    if same_bytes(tab[k], s) {
                        found = Some(k);
                        break;
                    }
                    k = k + 1;
                }
                match found {
                    Some(f) => {
                        assert(t0[f as int] == s.spec_bytes());
                        assert(t0.contains(s.spec_bytes()));
                        assert(t1 == t0);
                        assert(t0.index_of(s.spec_bytes()) == f) by {
                            let w = t0.index_of(s.spec_bytes());
                            assert(0 <= w < t0.len() && t0[w] == s.spec_bytes());
                        }
                        #[verifier::truncate]
                        let c = f as u32;
                        codes.push(c);
                    },
                    None => {
                        assert(!t0.contains(s.spec_bytes()));
                        assert(t1 == t0.push(s.spec_bytes()));
                        let f = tab.len();
                        tab.push(s);
                        assert(t1.index_of(s.spec_bytes()) == f) by {
                            let w = t1.index_of(s.spec_bytes());
                            assert(t1[f as int] == s.spec_bytes());
                            assert(0 <= w < t1.len() && t1[w] == s.spec_bytes());
                        }
                        #[verifier::truncate]
                        let c = f as u32;
                        codes.push(c);
                    },
                }
            },
        }
        proof {
            assert forall|j: int| 0 <= j < i + 1 implies #[trigger] codes@[j] == name_code(t1, temps@[j].name) by {
                if j < i {
                    if let Some(s2) = temps@[j].name {
                        assert(t0.contains(s2.spec_bytes()));
                        let w = t0.index_of(s2.spec_bytes());
                        assert(0 <= w < t0.len() && t0[w] == s2.spec_bytes());
                        assert(t1[w] == t0[w]);
                        let w1 = t1.index_of(s2.spec_bytes());
                        assert(0 <= w1 < t1.len() && t1[w1] == s2.spec_bytes());
                        assert(w1 == w);
                    }
                }
            }
            assert forall|j: int| 0 <= j < i + 1 implies ((#[trigger] temps@[j]).name matches Some(s2) ==> t1.contains(s2.spec_bytes())) by {
                if let Some(s2) = temps@[j].name {
                    if j < i {
                        assert(t0.contains(s2.spec_bytes()));
                        let w = choose|w: int| 0 <= w < t0.len() && t0[w] == s2.spec_bytes();
                        assert(t1[w] == s2.spec_bytes());
                    } else {
                        assert(t1.contains(s2.spec_bytes())) by {
                            let w = t1.index_of(s2.spec_bytes());
                            if t0.contains(s2.spec_bytes()) {
                                let w0 = choose|w: int| 0 <= w < t0.len() && t0[w] == s2.spec_bytes();
                                assert(t1[w0] == s2.spec_bytes());
                            } else {
                                assert(t1[t0.len() as int] == s2.spec_bytes());
                            }
                        }
                    }
                }
            }
        }
        i = i + 1;
    }
    (tab, codes)
}

/// Serialize a block's IR: header, string table, temps and ops, all
/// little-endian.
#[verifier::spinoff_prover]
#[verifier::rlimit(40)]
pub fn serialize(ctx: &Context) -> (r: Vec<u8>)
    requires
        args_in_range(ctx.ops_view()),
    ensures
        r@ == ser_context(ctx),
{
    let temps = ctx.temps();
    let ops = ctx.ops();
    let ghost tab_s = names_table(temps@, temps@.len());
    let mut out: Vec<u8> = Vec::new();
    out.push(0x54);
    out.push(0x43);
    out.push(0x49);
    out.push(0x52);
    put_le16(&mut out, IR_VERSION);
    put_le16(&mut out, 0);
    put_le32(&mut out, ctx.nb_globals());
    #[verifier::truncate]
    let nl = ctx.labels().len() as u32;
    put_le32(&mut out, nl);
    put_le32(&mut out, 1);
    assert(out@ =~= ser_header(ctx.spec_nb_globals() as u32, ctx.labels_view().len() as u32));
    let ghost head = out@;
    let (tab, codes) = build_strtab(temps);
    #[verifier::truncate]
    let nt = tab.len() as u32;
    put_le32(&mut out, nt);
    let ghost head2 = out@;
    let mut k: usize = 0;
    while k < tab.len()
        invariant
            k <= tab@.len(),
            tab@.len() == tab_s.len(),
            forall|m: int| 0 <= m < tab_s.len() ==> (#[trigger] tab@[m]).spec_bytes() == tab_s[m],
            out@ == head2 + ser_strings(tab_s, k as nat),
        decreases tab@.len() - k,
    {
        let b = tab[k].as_bytes();
        #[verifier::truncate]
        let bl = b.len() as u16;
        put_le16(&mut out, bl);
        out.extend_from_slice(b);
        proof {
            assert(out@ =~= head2 + ser_strings(tab_s, (k + 1) as nat));
        }
        k = k + 1;
    }
    #[verifier::truncate]
    let ntemps = temps.len() as u32;
    put_le32(&mut out, ntemps);
    let ghost head3 = out@;
    let mut i: usize = 0;
    while i < temps.len()
        invariant
            i <= temps@.len(),
            codes@.len() == temps@.len(),
            forall|j: int| 0 <= j < temps@.len() ==> #[trigger] codes@[j] == name_code(tab_s, temps@[j].name),
            out@ == head3 + ser_temps(temps@, tab_s, i as nat),
        decreases temps@.len() - i,
    {
        let t = &temps[i];
        out.push(kind_byte(t.kind));
        #[verifier::truncate]
        let ty = t.ty.index() as u8;
        out.push(ty);
        #[verifier::truncate]
        let bty = t.base_type.index() as u8;
        out.push(bty);
        out.push(
            match t.reg {
                Some(x) => x,
                None => NONE_U8,
            },
        );
        put_le64(&mut out, t.val);
        put_le32(
            &mut out,
            match t.mem_base {
                Some(b) => b.0,
                None => NONE_U32,
            },
        );
        #[verifier::truncate]
        let mo = t.mem_offset as u64;
        put_le64(&mut out, mo);
        put_le32(&mut out, codes[i]);
        proof {
            assert(out@ =~= head3 + ser_temps(temps@, tab_s, (i + 1) as nat));
        }
        i = i + 1;
    }
    #[verifier::truncate]
    let nops = ops.len() as u32;
    put_le32(&mut out, nops);
    let ghost head4 = out@;
    let mut i: usize = 0;
    while i < ops.len()
        invariant
            i <= ops@.len(),
            args_in_range(ops@),
            out@ == head4 + ser_ops(ops@, i as nat),
        decreases ops@.len() - i,
    {
        let op = &ops[i];
        let ghost before = out@;
        #[verifier::truncate]
        let oc = op.opc.index() as u8;
        out.push(oc);
        #[verifier::truncate]
        let ty = op.op_type.index() as u8;
        out.push(ty);
        out.push(op.param1);
        out.push(op.param2);
        out.push(op.nargs);
        out.push(0);
        out.push(0);
        out.push(0);
        let ghost mid = out@;
        assert(ops@[i as int].nargs <= MAX_OP_ARGS);
        let mut a: usize = 0;
        while a < op.nargs as usize
            invariant
                a <= op.nargs,
                op.nargs <= MAX_OP_ARGS,
                out@ == mid + ser_args(op.args@, a as nat),
            decreases op.nargs - a,
        {
            put_le32(&mut out, op.args[a].0);
            proof {
                assert(out@ =~= mid + ser_args(op.args@, (a + 1) as nat));
            }
            a = a + 1;
        }
        proof {
            assert(out@ =~= head4 + ser_ops(ops@, (i + 1) as nat));
        }
        i = i + 1;
    }
    proof {
        assert(out@ =~= ser_context(ctx));
    }
    out
}


/// Why a serialized IR image was refused.
#[derive(Debug, Clone, Copy, PartialEq, Eq, Structural)]
pub enum DeserializeError {
    /// The image ends inside a record.
    UnexpectedEof,
    /// A header does not start with the magic bytes.
    BadMagic,
    /// A header names another format version.
    UnsupportedVersion,
    /// A temp kind byte is out of range.
    InvalidTempKind,
    /// A type byte is out of range.
    InvalidType,
    /// An opcode byte is out of range.
    InvalidOpcode,
    /// A name is not UTF-8.
    InvalidUtf8,
    /// A temp refers to a name past the string table.
    InvalidNameIndex,
}

/// The temp kind a byte stands for.
pub open spec fn kind_of(b: u8) -> Option<TempKind> {
    if b == 0 {
        Some(TempKind::Ebb)
    } else if b == 1 {
        Some(TempKind::Tb)
    } else if b == 2 {
        Some(TempKind::Global)
    } else if b == 3 {
        Some(TempKind::Fixed)
    } else if b == 4 {
        Some(TempKind::Const)
    } else {
        None
    }
}

/// The type a byte stands for.
pub open spec fn type_of(b: u8) -> Option<Type> {
    if b == 0 {
        Some(Type::I32)
    } else if b == 1 {
        Some(Type::I64)
    } else if b == 2 {
        Some(Type::I128)
    } else if b == 3 {
        Some(Type::V64)
    } else if b == 4 {
        Some(Type::V128)
    } else if b == 5 {
        Some(Type::V256)
    } else {
        None
    }
}

/// The opcode a byte stands for.
pub open spec fn opcode_of(b: u8) -> Option<Opcode> {
    if (b as int) < OPCODE_COUNT {
        Some(opcode_at(b as int))
    } else {
        None
    }
}

/// Where a freshly read temp of kind `k` lives.
pub open spec fn val_type_of(k: TempKind) -> TempVal {
    match k {
        TempKind::Const => TempVal::Const,
        TempKind::Fixed => TempVal::Reg,
        TempKind::Global => TempVal::Mem,
        _ => TempVal::Dead,
    }
}

/// A temp as read from an image, its name as characters.
pub struct TempDesc {
    pub kind: TempKind,
    pub ty: Type,
    pub base_type: Type,
    pub reg: Option<u8>,
    pub val: u64,
    pub mem_base: Option<TempIdx>,
    pub mem_offset: i64,
    pub name: Option<Seq<char>>,
}

/// An op as read from an image: its arguments are the first
/// `min(nargs, MAX_OP_ARGS)` words.
pub struct OpDesc {
    pub opc: Opcode,
    pub op_type: Type,
    pub param1: u8,
    pub param2: u8,
    pub nargs: u8,
    pub args: Seq<u32>,
}

/// One block's IR as read from an image.
pub struct TbDesc {
    pub nb_globals: u32,
    pub temps: Seq<TempDesc>,
    pub ops: Seq<OpDesc>,
}

/// A byte at `o`, and the offset after it.
pub open spec fn rd_u8(d: Seq<u8>, o: int) -> Result<(u8, int), DeserializeError> {
    if 0 <= o && o + 1 <= d.len() {
        Ok((d[o], o + 1))
    } else {
        Err(DeserializeError::UnexpectedEof)
    }
}

/// A little-endian 16-bit value at `o`, and the offset after it.
pub open spec fn rd_u16(d: Seq<u8>, o: int) -> Result<(u16, int), DeserializeError> {
    if 0 <= o && o + 2 <= d.len() {
        Ok((le_u16(d, o), o + 2))
    } else {
        Err(DeserializeError::UnexpectedEof)
    }
}

/// A little-endian 32-bit value at `o`, and the offset after it.
pub open spec fn rd_u32(d: Seq<u8>, o: int) -> Result<(u32, int), DeserializeError> {
    if 0 <= o && o + 4 <= d.len() {
        Ok((le_u32(d, o), o + 4))
    } else {
        Err(DeserializeError::UnexpectedEof)
    }
}

/// A little-endian 64-bit value at `o`, and the offset after it.
pub open spec fn rd_u64(d: Seq<u8>, o: int) -> Result<(u64, int), DeserializeError> {
    if 0 <= o && o + 8 <= d.len() {
        Ok((le_u64(d, o), o + 8))
    } else {
        Err(DeserializeError::UnexpectedEof)
    }
}

/// A string-table entry at `o`: its 16-bit length, then UTF-8 bytes.
pub open spec fn rd_string(d: Seq<u8>, o: int) -> Result<(Seq<char>, int), DeserializeError> {
    match rd_u16(d, o) {
        Err(e) => Err(e),
        Ok((len, o1)) => if o1 + len > d.len() {
            Err(DeserializeError::UnexpectedEof)
        } else if !valid_utf8(d.subrange(o1, o1 + len)) {
            Err(DeserializeError::InvalidUtf8)
        } else {
            Ok((decode_utf8(d.subrange(o1, o1 + len)), o1 + len))
        },
    }
}

/// `n` string-table entries from `o`.
pub open spec fn rd_strings(d: Seq<u8>, o: int, n: nat) -> Result<(Seq<Seq<char>>, int), DeserializeError>
    decreases n,
{
    if n == 0 {
        Ok((Seq::empty(), o))
    } else {
        match rd_strings(d, o, (n - 1) as nat) {
            Err(e) => Err(e),
            Ok((tab, o1)) => match rd_string(d, o1) {
                Err(e) => Err(e),
                Ok((s, o2)) => Ok((tab.push(s), o2)),
            },
        }
    }
}

/// A temp record at `o`, names taken from `tab`.
pub open spec fn rd_temp(d: Seq<u8>, o: int, tab: Seq<Seq<char>>) -> Result<(TempDesc, int), DeserializeError> {
    match rd_u8(d, o) {
        Err(e) => Err(e),
        Ok((kb, o1)) => match kind_of(kb) {
            None => Err(DeserializeError::InvalidTempKind),
            Some(kind) => match rd_u8(d, o1) {
                Err(e) => Err(e),
                Ok((tb, o2)) => match type_of(tb) {
                    None => Err(DeserializeError::InvalidType),
                    Some(ty) => match rd_u8(d, o2) {
                        Err(e) => Err(e),
                        Ok((bb, o3)) => match type_of(bb) {
                            None => Err(DeserializeError::InvalidType),
                            Some(base_type) => match rd_u8(d, o3) {
                                Err(e) => Err(e),
                                Ok((rb, o4)) => match rd_u64(d, o4) {
                                    Err(e) => Err(e),
                                    Ok((val, o5)) => match rd_u32(d, o5) {
                                        Err(e) => Err(e),
                                        Ok((mb, o6)) => match rd_u64(d, o6) {
                                            Err(e) => Err(e),
                                            Ok((mo, o7)) => match rd_u32(d, o7) {
                                                Err(e) => Err(e),
                                                Ok((ni, o8)) => if ni != NONE_U32 && ni >= tab.len() {
                                                    Err(DeserializeError::InvalidNameIndex)
                                                } else {
                                                    Ok(
                                                        (
                                                            TempDesc {
                                                                kind,
                                                                ty,
                                                                base_type,
                                                                reg: if rb == NONE_U8 {
                                                                    None
                                                                } else {
                                                                    Some(rb)
                                                                },
                                                                val,
                                                                mem_base: if mb == NONE_U32 {
                                                                    None
                                                                } else {
                                                                    Some(TempIdx(mb))
                                                                },
                                                                mem_offset: mo as i64,
                                                                name: if ni == NONE_U32 {
                                                                    None
                                                                } else {
                                                                    Some(tab[ni as int])
                                                                },
                                                            },
                                                            o8,
                                                        ),
                                                    )
                                                },
                                            },
                                        },
                                    },
                                },
                            },
                        },
                    },
                },
            },
        },
    }
}

/// `n` temp records from `o`.
pub open spec fn rd_temps(d: Seq<u8>, o: int, n: nat, tab: Seq<Seq<char>>) -> Result<(Seq<TempDesc>, int), DeserializeError>
    decreases n,
{
    if n == 0 {
        Ok((Seq::empty(), o))
    } else {
        match rd_temps(d, o, (n - 1) as nat, tab) {
            Err(e) => Err(e),
            Ok((ts, o1)) => match rd_temp(d, o1, tab) {
                Err(e) => Err(e),
                Ok((t, o2)) => Ok((ts.push(t), o2)),
            },
        }
    }
}

/// `n` argument words from `o`.
pub open spec fn rd_args(d: Seq<u8>, o: int, n: nat) -> Result<(Seq<u32>, int), DeserializeError>
    decreases n,
{
    if n == 0 {
        Ok((Seq::empty(), o))
    } else {
        match rd_args(d, o, (n - 1) as nat) {
            Err(e) => Err(e),
            Ok((a, o1)) => match rd_u32(d, o1) {
                Err(e) => Err(e),
                Ok((w, o2)) => Ok((a.push(w), o2)),
            },
        }
    }
}

/// How many argument words follow an op header with `nargs`.
pub open spec fn stored_args(nargs: u8) -> nat {
    if nargs as int <= MAX_OP_ARGS {
        nargs as nat
    } else {
        MAX_OP_ARGS as nat
    }
}

/// An op record at `o`.
pub open spec fn rd_op(d: Seq<u8>, o: int) -> Result<(OpDesc, int), DeserializeError> {
    match rd_u8(d, o) {
        Err(e) => Err(e),
        Ok((cb, o1)) => match opcode_of(cb) {
            None => Err(DeserializeError::InvalidOpcode),
            Some(opc) => match rd_u8(d, o1) {
                Err(e) => Err(e),
                Ok((tb, o2)) => match type_of(tb) {
                    None => Err(DeserializeError::InvalidType),
                    Some(op_type) => match rd_u8(d, o2) {
                        Err(e) => Err(e),
                        Ok((p1, o3)) => match rd_u8(d, o3) {
                            Err(e) => Err(e),
                            Ok((p2, o4)) => match rd_u8(d, o4) {
                                Err(e) => Err(e),
                                Ok((nargs, o5)) => if o5 + 3 > d.len() {
                                    Err(DeserializeError::UnexpectedEof)
                                } else {
                                    match rd_args(d, o5 + 3, stored_args(nargs)) {
                                        Err(e) => Err(e),
                                        Ok((args, o6)) => Ok(
                                            (OpDesc { opc, op_type, param1: p1, param2: p2, nargs, args }, o6),
                                        ),
                                    }
                                },
                            },
                        },
                    },
                },
            },
        },
    }
}

/// `n` op records from `o`.
pub open spec fn rd_ops(d: Seq<u8>, o: int, n: nat) -> Result<(Seq<OpDesc>, int), DeserializeError>
    decreases n,
{
    if n == 0 {
        Ok((Seq::empty(), o))
    } else {
        match rd_ops(d, o, (n - 1) as nat) {
            Err(e) => Err(e),
            Ok((ops, o1)) => match rd_op(d, o1) {
                Err(e) => Err(e),
                Ok((op, o2)) => Ok((ops.push(op), o2)),
            },
        }
    }
}

/// One block's IR at `o`: string table, temps, ops.
#[verifier::opaque]
pub open spec fn rd_tb(d: Seq<u8>, o: int, nb_globals: u32) -> Result<(TbDesc, int), DeserializeError> {
    match rd_u32(d, o) {
        Err(e) => Err(e),
        Ok((ns, o1)) => match rd_strings(d, o1, ns as nat) {
            Err(e) => Err(e),
            Ok((tab, o2)) => match rd_u32(d, o2) {
                Err(e) => Err(e),
                Ok((nt, o3)) => match rd_temps(d, o3, nt as nat, tab) {
                    Err(e) => Err(e),
                    Ok((temps, o4)) => match rd_u32(d, o4) {
                        Err(e) => Err(e),
                        Ok((no, o5)) => match rd_ops(d, o5, no as nat) {
                            Err(e) => Err(e),
                            Ok((ops, o6)) => Ok((TbDesc { nb_globals, temps, ops }, o6)),
                        },
                    },
                },
            },
        },
    }
}

/// `n` blocks from `o`, all with `nb_globals` globals.
pub open spec fn rd_tbs(d: Seq<u8>, o: int, n: nat, nb_globals: u32) -> Result<(Seq<TbDesc>, int), DeserializeError>
    decreases n,
{
    if n == 0 {
        Ok((Seq::empty(), o))
    } else {
        match rd_tbs(d, o, (n - 1) as nat, nb_globals) {
            Err(e) => Err(e),
            Ok((tbs, o1)) => match rd_tb(d, o1, nb_globals) {
                Err(e) => Err(e),
                Ok((t, o2)) => Ok((tbs.push(t), o2)),
            },
        }
    }
}

/// A file header at `o`: magic, version, flags, globals, labels and the
/// number of blocks that follow; the globals, block count and the offset
/// after it.
#[verifier::opaque]
pub open spec fn rd_header(d: Seq<u8>, o: int) -> Result<(u32, u32, int), DeserializeError> {
    if d.subrange(o, o + 4) != seq![0x54u8, 0x43u8, 0x49u8, 0x52u8] {
        Err(DeserializeError::BadMagic)
    } else {
        match rd_u16(d, o + 4) {
            Err(e) => Err(e),
            Ok((v, o1)) => if v != IR_VERSION {
                Err(DeserializeError::UnsupportedVersion)
            } else {
                match rd_u16(d, o1) {
                    Err(e) => Err(e),
                    Ok((_f, o2)) => match rd_u32(d, o2) {
                        Err(e) => Err(e),
                        Ok((g, o3)) => match rd_u32(d, o3) {
                            Err(e) => Err(e),
                            Ok((_l, o4)) => match rd_u32(d, o4) {
                                Err(e) => Err(e),
                                Ok((n, o5)) => Ok((g, n, o5)),
                            },
                        },
                    },
                }
            },
        }
    }
}

/// The blocks of the images concatenated in `d` from `o` on; reading stops
/// cleanly where fewer than four bytes are left.
pub open spec fn rd_file(d: Seq<u8>, o: int) -> Result<Seq<TbDesc>, DeserializeError>
    decreases d.len() - o,
{
    if o < 0 || o + 4 > d.len() {
        Ok(Seq::empty())
    } else {
        match rd_header(d, o) {
            Err(e) => Err(e),
            Ok((g, n, o1)) => match rd_tbs(d, o1, n as nat, g) {
                Err(e) => Err(e),
                Ok((tbs, o2)) => if o2 <= o || o2 > d.len() {
                    Ok(tbs)
                } else {
                    match rd_file(d, o2) {
                        Err(e) => Err(e),
                        Ok(rest) => Ok(tbs + rest),
                    }
                },
            },
        }
    }
}

/// `t` is the temp `i` read as `desc`.
pub open spec fn temp_is(t: Temp, desc: TempDesc, i: int) -> bool {
    &&& t.idx == TempIdx(i as u32)
    &&& t.kind == desc.kind
    &&& t.ty == desc.ty
    &&& t.base_type == desc.base_type
    &&& t.val_type == val_type_of(desc.kind)
    &&& t.reg == desc.reg
    &&& t.mem_coherent == (desc.kind == TempKind::Global)
    &&& t.mem_allocated == (desc.kind == TempKind::Global)
    &&& t.val == desc.val
    &&& t.mem_base == desc.mem_base
    &&& t.mem_offset == desc.mem_offset
    &&& (t.name is None <==> desc.name is None)
    &&& (t.name matches Some(s) ==> s@ == desc.name->0)
}

/// `op` is the op `i` read as `desc`.
pub open spec fn op_is(op: Op, desc: OpDesc, i: int) -> bool {
    &&& op.idx == OpIdx(i as u32)
    &&& op.opc == desc.opc
    &&& op.op_type == desc.op_type
    &&& op.param1 == desc.param1
    &&& op.param2 == desc.param2
    &&& op.nargs == desc.nargs
    &&& op.life == crate::op::LifeData(0)
    &&& op.output_pref@ == seq![RegSet(0), RegSet(0)]
    &&& op.args@.len() == MAX_OP_ARGS
    &&& forall|k: int|
        0 <= k < MAX_OP_ARGS ==> #[trigger] op.args@[k] == if k < desc.args.len() {
            TempIdx(desc.args[k])
        } else {
            TempIdx(0)
        }
}

/// Where the label id of a branch sits among its arguments.
pub open spec fn label_pos(opc: Opcode) -> int {
    opc.spec_def().nb_oargs + opc.spec_def().nb_iargs + opc.spec_def().nb_cargs - 1
}

/// How many labels the first `n` ops need: one past every label they set
/// or branch to.
pub open spec fn labels_needed(ops: Seq<Op>, n: nat) -> nat
    decreases n,
{
    if n == 0 || n > ops.len() {
        0
    } else {
        let c = labels_needed(ops, (n - 1) as nat);
        let op = ops[n - 1];
        if op.opc == Opcode::SetLabel {
            if c > op.args@[0].0 {
                c
            } else {
                (op.args@[0].0 + 1) as nat
            }
        } else if op.opc == Opcode::Br || op.opc == Opcode::BrCond {
            if c > op.args@[label_pos(op.opc)].0 {
                c
            } else {
                (op.args@[label_pos(op.opc)].0 + 1) as nat
            }
        } else {
            c
        }
    }
}

/// `ctx` is the block read as `desc`: its temps and ops, fresh labels for
/// every label its ops use, and the default frame and register settings.
pub open spec fn context_is(ctx: Context, desc: TbDesc) -> bool {
    &&& ctx.nb_globals == desc.nb_globals
    &&& ctx.temps@.len() == desc.temps.len()
    &&& forall|i: int| 0 <= i < desc.temps.len() ==> temp_is(#[trigger] ctx.temps@[i], desc.temps[i], i)
    &&& ctx.ops@.len() == desc.ops.len()
    &&& forall|i: int| 0 <= i < desc.ops.len() ==> op_is(#[trigger] ctx.ops@[i], desc.ops[i], i)
    &&& ctx.labels@.len() == labels_needed(ctx.ops@, ctx.ops@.len())
    &&& forall|k: int|
        0 <= k < ctx.labels@.len() ==> (#[trigger] ctx.labels@[k]).id == k && !ctx.labels@[k].present
            && !ctx.labels@[k].has_value && ctx.labels@[k].value == 0 && ctx.labels@[k].uses@.len() == 0
    &&& ctx.frame_reg is None
    &&& ctx.frame_start == 0 && ctx.frame_end == 0 && ctx.frame_alloc_end == 0
    &&& ctx.reserved_regs == RegSet(0)
    &&& ctx.consts@.len() == 0
    &&& ctx.gen_insn_end_off@.len() == 0
    &&& ctx.tb_idx == 0
}


/// The characters of each string.
pub open spec fn strs_view(v: Seq<&'static str>) -> Seq<Seq<char>> {
    v.map_values(|s: &'static str| s@)
}

/// std's `String::from_utf8`: the bytes as a string exactly when they are
/// valid UTF-8; the string holds the characters they encode.
#[verifier::external_body]
fn utf8_string(b: Vec<u8>) -> (r: Option<String>)
    ensures
        r is Some <==> valid_utf8(b@),
        r matches Some(s) ==> s@ == decode_utf8(b@),
{
    match String::from_utf8(b) {
        Ok(s) => Some(s),
        Err(_) => None,
    }
}

/// std's `String::leak`: the string's contents as a slice that lives for
/// the rest of the program.
#[verifier::external_body]
fn leak_string(s: String) -> (r: &'static str)
    ensures
        r@ == s@,
{
    s.leak()
}

fn get_u8(d: &[u8], o: usize) -> (r: Result<(u8, usize), DeserializeError>)
    ensures
        match rd_u8(d@, o as int) {
            Ok((v, o2)) => r == Ok::<(u8, usize), DeserializeError>((v, o2 as usize)),
            Err(e) => r == Err::<(u8, usize), DeserializeError>(e),
        },
{
    if o < d.len() {
        Ok((d[o], o + 1))
    } else {
        Err(DeserializeError::UnexpectedEof)
    }
}

fn get_u16(d: &[u8], o: usize) -> (r: Result<(u16, usize), DeserializeError>)
    ensures
        match rd_u16(d@, o as int) {
            Ok((v, o2)) => r == Ok::<(u16, usize), DeserializeError>((v, o2 as usize)),
            Err(e) => r == Err::<(u16, usize), DeserializeError>(e),
        },
{
    if o <= d.len() && d.len() - o >= 2 {
        Ok((read_le16(d, o), o + 2))
    } else {
        Err(DeserializeError::UnexpectedEof)
    }
}

fn get_u32(d: &[u8], o: usize) -> (r: Result<(u32, usize), DeserializeError>)
    ensures
        match rd_u32(d@, o as int) {
            Ok((v, o2)) => r == Ok::<(u32, usize), DeserializeError>((v, o2 as usize)),
            Err(e) => r == Err::<(u32, usize), DeserializeError>(e),
        },
{
    if o <= d.len() && d.len() - o >= 4 {
        Ok((read_le32(d, o), o + 4))
    } else {
        Err(DeserializeError::UnexpectedEof)
    }
}

fn get_u64(d: &[u8], o: usize) -> (r: Result<(u64, usize), DeserializeError>)
    ensures
        match rd_u64(d@, o as int) {
            Ok((v, o2)) => r == Ok::<(u64, usize), DeserializeError>((v, o2 as usize)),
            Err(e) => r == Err::<(u64, usize), DeserializeError>(e),
        },
{
    if o <= d.len() && d.len() - o >= 8 {
        Ok((read_le64(d, o), o + 8))
    } else {
        Err(DeserializeError::UnexpectedEof)
    }
}

fn get_string(d: &[u8], o: usize) -> (r: Result<(&'static str, usize), DeserializeError>)
    ensures
        match rd_string(d@, o as int) {
            Ok((cs, o2)) => r matches Ok((s, x)) && s@ == cs && x == o2,
            Err(e) => r == Err::<(&'static str, usize), DeserializeError>(e),
        },
{
    let dl = d.len();
    let (len, o1) = match get_u16(d, o) {
        Ok(p) => p,
        Err(e) => {
            return Err(e);
        },
    };
    let len = len as usize;
    if d.len() - o1 < len {
        return Err(DeserializeError::UnexpectedEof);
    }
    let mut bytes: Vec<u8> = Vec::new();
    let mut k: usize = 0;
    while k < len
        invariant
            k <= len,
            dl == d@.len(),
            o1 + len <= d@.len(),
            bytes@ == d@.subrange(o1 as int, o1 + k),
        decreases len - k,
    {
        bytes.push(d[o1 + k]);
        assert(bytes@ =~= d@.subrange(o1 as int, o1 + k + 1));
        k = k + 1;
    }
    match utf8_string(bytes) {
        None => Err(DeserializeError::InvalidUtf8),
        Some(s) => Ok((leak_string(s), o1 + len)),
    }
}

fn kind_from_u8(b: u8) -> (r: Option<TempKind>)
    ensures
        r == kind_of(b),
{
    match b {
        0 => Some(TempKind::Ebb),
        1 => Some(TempKind::Tb),
        2 => Some(TempKind::Global),
        3 => Some(TempKind::Fixed),
        4 => Some(TempKind::Const),
        _ => None,
    }
}

fn type_from_u8(b: u8) -> (r: Option<Type>)
    ensures
        r == type_of(b),
{
    match b {
        0 => Some(Type::I32),
        1 => Some(Type::I64),
        2 => Some(Type::I128),
        3 => Some(Type::V64),
        4 => Some(Type::V128),
        5 => Some(Type::V256),
        _ => None,
    }
}

fn get_temp(d: &[u8], o: usize, tab: &Vec<&'static str>, i: usize) -> (r: Result<(Temp, usize), DeserializeError>)
    ensures
        match rd_temp(d@, o as int, strs_view(tab@)) {
            Ok((desc, o2)) => r matches Ok((t, x)) && temp_is(t, desc, i as int) && x == o2,
            Err(e) => r == Err::<(Temp, usize), DeserializeError>(e),
        },
{
    let dl = d.len();
    let (kb, o1) = match get_u8(d, o) {
        Ok(p) => p,
        Err(e) => {
            return Err(e);
        },
    };
    let kind = match kind_from_u8(kb) {
        Some(k) => k,
        None => {
            return Err(DeserializeError::InvalidTempKind);
        },
    };
    let (tb, o2) = match get_u8(d, o1) {
        Ok(p) => p,
        Err(e) => {
            return Err(e);
        },
    };
    let ty = match type_from_u8(tb) {
        Some(t) => t,
        None => {
            return Err(DeserializeError::InvalidType);
        },
    };
    let (bb, o3) = match get_u8(d, o2) {
        Ok(p) => p,
        Err(e) => {
            return Err(e);
        },
    };
    let base_type = match type_from_u8(bb) {
        Some(t) => t,
        None => {
            return Err(DeserializeError::InvalidType);
        },
    };
    let (rb, o4) = match get_u8(d, o3) {
        Ok(p) => p,
        Err(e) => {
            return Err(e);
        },
    };
    let (val, o5) = match get_u64(d, o4) {
        Ok(p) => p,
        Err(e) => {
            return Err(e);
        },
    };
    let (mb, o6) = match get_u32(d, o5) {
        Ok(p) => p,
        Err(e) => {
            return Err(e);
        },
    };
    let (mo, o7) = match get_u64(d, o6) {
        Ok(p) => p,
        Err(e) => {
            return Err(e);
        },
    };
    let (ni, o8) = match get_u32(d, o7) {
        Ok(p) => p,
        Err(e) => {
            return Err(e);
        },
    };
    let name = if ni == NONE_U32 {
        None
    } else if ni as usize >= tab.len() {
        return Err(DeserializeError::InvalidNameIndex);
    } else {
        Some(tab[ni as usize])
    };
    #[verifier::truncate]
    let mem_offset = mo as i64;
    let is_global = match kind {
        TempKind::Global => true,
        _ => false,
    };
    let t = Temp {
        idx: TempIdx(i as u32),
        ty,
        base_type,
        kind,
        val_type: match kind {
            TempKind::Const => TempVal::Const,
            TempKind::Fixed => TempVal::Reg,
            TempKind::Global => TempVal::Mem,
            _ => TempVal::Dead,
        },
        reg: if rb == NONE_U8 {
            None
        } else {
            Some(rb)
        },
        mem_coherent: is_global,
        mem_allocated: is_global,
        val,
        mem_base: if mb == NONE_U32 {
            None
        } else {
            Some(TempIdx(mb))
        },
        mem_offset,
        name,
    };
    Ok((t, o8))
}

fn get_op(d: &[u8], o: usize, i: usize) -> (r: Result<(Op, usize), DeserializeError>)
    ensures
        match rd_op(d@, o as int) {
            Ok((desc, o2)) => r matches Ok((op, x)) && op_is(op, desc, i as int) && x == o2,
            Err(e) => r == Err::<(Op, usize), DeserializeError>(e),
        },
{
    let dl = d.len();
    let (cb, o1) = match get_u8(d, o) {
        Ok(p) => p,
        Err(e) => {
            return Err(e);
        },
    };
    let opc = match Opcode::from_index(cb as usize) {
        Some(c) => c,
        None => {
            return Err(DeserializeError::InvalidOpcode);
        },
    };
    let (tb, o2) = match get_u8(d, o1) {
        Ok(p) => p,
        Err(e) => {
            return Err(e);
        },
    };
    let op_type = match type_from_u8(tb) {
        Some(t) => t,
        None => {
            return Err(DeserializeError::InvalidType);
        },
    };
    let (p1, o3) = match get_u8(d, o2) {
        Ok(p) => p,
        Err(e) => {
            return Err(e);
        },
    };
    let (p2, o4) = match get_u8(d, o3) {
        Ok(p) => p,
        Err(e) => {
            return Err(e);
        },
    };
    let (nargs, o5) = match get_u8(d, o4) {
        Ok(p) => p,
        Err(e) => {
            return Err(e);
        },
    };
    if d.len() - o5 < 3 {
        return Err(DeserializeError::UnexpectedEof);
    }
    let n = if (nargs as usize) <= MAX_OP_ARGS {
        nargs as usize
    } else {
        MAX_OP_ARGS
    };
    let mut op = Op::new(OpIdx(i as u32), opc, op_type);
    op.param1 = p1;
    op.param2 = p2;
    op.nargs = nargs;
    let mut cur = o5 + 3;
    let mut k: usize = 0;
    let ghost words: Seq<u32> = Seq::empty();
    #[verifier::loop_isolation(false)]
    while k < n
        invariant
            k <= n,
            dl == d@.len(),
            n == stored_args(nargs),
            n <= MAX_OP_ARGS,
            o5 + 3 <= d@.len(),
            rd_args(d@, o5 + 3, k as nat) == Ok::<(Seq<u32>, int), DeserializeError>((words, cur as int)),
            words.len() == k,
            op.idx == OpIdx(i as u32),
            op.opc == opc,
            op.op_type == op_type,
            op.param1 == p1,
            op.param2 == p2,
            op.nargs == nargs,
            op.life == crate::op::LifeData(0),
            op.output_pref@ == seq![RegSet(0), RegSet(0)],
            forall|m: int| 0 <= m < MAX_OP_ARGS ==> #[trigger] op.args@[m] == if m < k {
                TempIdx(words[m])
            } else {
                TempIdx(0)
            },
        decreases n - k,
    {
        let (w, c2) = match get_u32(d, cur) {
            Ok(p) => p,
            Err(e) => {
                assert(rd_args(d@, o5 + 3, (k + 1) as nat) == Err::<(Seq<u32>, int), DeserializeError>(e));
                proof {
                    lemma_rd_args_err(d@, o5 + 3, (k + 1) as nat, n as nat);
                }
                return Err(e);
            },
        };
        op.args[k] = TempIdx(w);
        proof {
            words = words.push(w);
        }
        cur = c2;
        k = k + 1;
    }
    Ok((op, cur))
}

/// An error reading the first `k` arguments is the error reading `n >= k`.
proof fn lemma_rd_args_err(d: Seq<u8>, o: int, k: nat, n: nat)
    requires
        k <= n,
        rd_args(d, o, k) is Err,
    ensures
        rd_args(d, o, n) == rd_args(d, o, k),
    decreases n - k,
{
    if k < n {
        lemma_rd_args_err(d, o, k, (n - 1) as nat);
    }
}


/// An error reading the first `k` strings is the error reading `n >= k`.
proof fn lemma_rd_strings_err(d: Seq<u8>, o: int, k: nat, n: nat)
    requires
        k <= n,
        rd_strings(d, o, k) is Err,
    ensures
        rd_strings(d, o, n) == rd_strings(d, o, k),
    decreases n - k,
{
    if k < n {
        lemma_rd_strings_err(d, o, k, (n - 1) as nat);
    }
}

/// An error reading the first `k` temps is the error reading `n >= k`.
proof fn lemma_rd_temps_err(d: Seq<u8>, o: int, k: nat, n: nat, tab: Seq<Seq<char>>)
    requires
        k <= n,
        rd_temps(d, o, k, tab) is Err,
    ensures
        rd_temps(d, o, n, tab) == rd_temps(d, o, k, tab),
    decreases n - k,
{
    if k < n {
        lemma_rd_temps_err(d, o, k, (n - 1) as nat, tab);
    }
}

/// An error reading the first `k` ops is the error reading `n >= k`.
proof fn lemma_rd_ops_err(d: Seq<u8>, o: int, k: nat, n: nat)
    requires
        k <= n,
        rd_ops(d, o, k) is Err,
    ensures
        rd_ops(d, o, n) == rd_ops(d, o, k),
    decreases n - k,
{
    if k < n {
        lemma_rd_ops_err(d, o, k, (n - 1) as nat);
    }
}

/// An error reading the first `k` blocks is the error reading `n >= k`.
proof fn lemma_rd_tbs_err(d: Seq<u8>, o: int, k: nat, n: nat, g: u32)
    requires
        k <= n,
        rd_tbs(d, o, k, g) is Err,
    ensures
        rd_tbs(d, o, n, g) == rd_tbs(d, o, k, g),
    decreases n - k,
{
    if k < n {
        lemma_rd_tbs_err(d, o, k, (n - 1) as nat, g);
    }
}

/// Make sure `labels` has an entry for label `id`, adding fresh ones.
fn ensure_label(labels: &mut Vec<Label>, id: u32)
    ensures
        final(labels)@.len() == if old(labels)@.len() > id {
            old(labels)@.len()
        } else {
            (id + 1) as nat
        },
        forall|k: int| 0 <= k < old(labels)@.len() ==> #[trigger] final(labels)@[k] == old(labels)@[k],
        forall|k: int|
            old(labels)@.len() <= k < final(labels)@.len() ==> (#[trigger] final(labels)@[k]).id == k
                && !final(labels)@[k].present && !final(labels)@[k].has_value && final(labels)@[k].value == 0
                && final(labels)@[k].uses@.len() == 0,
{
    let ghost l0 = labels@;
    while labels.len() <= id as usize
        invariant
            l0.len() <= labels@.len(),
            labels@.len() <= l0.len() || labels@.len() <= id + 1,
            forall|k: int| 0 <= k < l0.len() ==> #[trigger] labels@[k] == l0[k],
            forall|k: int|
                l0.len() <= k < labels@.len() ==> (#[trigger] labels@[k]).id == k && !labels@[k].present
                    && !labels@[k].has_value && labels@[k].value == 0 && labels@[k].uses@.len() == 0,
        decreases id + 1 - labels@.len(),
    {
        let n = labels.len();
        labels.push(Label::new(n as u32));
    }
}

fn get_header(d: &[u8], o: usize) -> (r: Result<(u32, u32, usize), DeserializeError>)
    requires
        o + 4 <= d@.len(),
    ensures
        match rd_header(d@, o as int) {
            Ok((g, n, o2)) => r == Ok::<(u32, u32, usize), DeserializeError>((g, n, o2 as usize)),
            Err(e) => r == Err::<(u32, u32, usize), DeserializeError>(e),
        },
        rd_header(d@, o as int) matches Ok((g, n, o2)) ==> o2 == o + 20 && o2 <= d@.len(),
{
    proof {
        reveal(rd_header);
        reveal(rd_tb);
    }
    let dl = d.len();
    if !(d[o] == 0x54 && d[o + 1] == 0x43 && d[o + 2] == 0x49 && d[o + 3] == 0x52) {
        assert(d@.subrange(o as int, o + 4) != seq![0x54u8, 0x43u8, 0x49u8, 0x52u8]) by {
            if d@.subrange(o as int, o + 4) == seq![0x54u8, 0x43u8, 0x49u8, 0x52u8] {
                assert(d@[o as int] == d@.subrange(o as int, o + 4)[0]);
                assert(d@[o + 1] == d@.subrange(o as int, o + 4)[1]);
                assert(d@[o + 2] == d@.subrange(o as int, o + 4)[2]);
                assert(d@[o + 3] == d@.subrange(o as int, o + 4)[3]);
            }
        }
        return Err(DeserializeError::BadMagic);
    }
    assert(d@.subrange(o as int, o + 4) =~= seq![0x54u8, 0x43u8, 0x49u8, 0x52u8]);
    let (v, o1) = match get_u16(d, o + 4) {
        Ok(p) => p,
        Err(e) => {
            return Err(e);
        },
    };
    if v != IR_VERSION {
        return Err(DeserializeError::UnsupportedVersion);
    }
    let (_f, o2) = match get_u16(d, o1) {
        Ok(p) => p,
        Err(e) => {
            return Err(e);
        },
    };
    let (g, o3) = match get_u32(d, o2) {
        Ok(p) => p,
        Err(e) => {
            return Err(e);
        },
    };
    let (_l, o4) = match get_u32(d, o3) {
        Ok(p) => p,
        Err(e) => {
            return Err(e);
        },
    };
    let (n, o5) = match get_u32(d, o4) {
        Ok(p) => p,
        Err(e) => {
            return Err(e);
        },
    };
    Ok((g, n, o5))
}

fn get_strtab(d: &[u8], o1: usize, ns: u32) -> (r: Result<(Vec<&'static str>, usize), DeserializeError>)
    ensures
        match rd_strings(d@, o1 as int, ns as nat) {
            Ok((tab, o2)) => r matches Ok((v, x)) && strs_view(v@) == tab && x == o2,
            Err(e) => r == Err::<(Vec<&'static str>, usize), DeserializeError>(e),
        },
{
    let dl = d.len();
    let mut tab: Vec<&'static str> = Vec::new();
    let mut cur = o1;
    let mut k: usize = 0;
    assert(strs_view(tab@) =~= Seq::<Seq<char>>::empty());
    while k < ns as usize
        invariant
            k <= ns,
            dl == d@.len(),
            rd_strings(d@, o1 as int, k as nat) == Ok::<(Seq<Seq<char>>, int), DeserializeError>(
                (strs_view(tab@), cur as int),
            ),
        decreases ns - k,
    {
        match get_string(d, cur) {
            Err(e) => {
                proof {
                    lemma_rd_strings_err(d@, o1 as int, (k + 1) as nat, ns as nat);
                }
                return Err(e);
            },
            Ok((s, c2)) => {
                let ghost before = tab@;
                tab.push(s);
                assert(strs_view(tab@) =~= strs_view(before).push(s@));
                cur = c2;
            },
        }
        k = k + 1;
    }
    Ok((tab, cur))
}

fn get_temps(d: &[u8], o3: usize, nt: u32, tab: &Vec<&'static str>) -> (r: Result<(Vec<Temp>, usize), DeserializeError>)
    ensures
        match rd_temps(d@, o3 as int, nt as nat, strs_view(tab@)) {
            Ok((descs, o4)) => r matches Ok((v, x)) && x == o4 && v@.len() == descs.len() && forall|j: int|
                0 <= j < descs.len() ==> temp_is(#[trigger] v@[j], descs[j], j),
            Err(e) => r == Err::<(Vec<Temp>, usize), DeserializeError>(e),
        },
{
    let dl = d.len();
    let ghost tabv = strs_view(tab@);
    let mut temps: Vec<Temp> = Vec::new();
    let ghost tdescs: Seq<TempDesc> = Seq::empty();
    let mut cur = o3;
    let mut i: usize = 0;
    while i < nt as usize
        invariant
            i <= nt,
            dl == d@.len(),
            tabv == strs_view(tab@),
            rd_temps(d@, o3 as int, i as nat, tabv) == Ok::<(Seq<TempDesc>, int), DeserializeError>(
                (tdescs, cur as int),
            ),
            temps@.len() == i,
            tdescs.len() == i,
            forall|j: int| 0 <= j < i ==> temp_is(#[trigger] temps@[j], tdescs[j], j),
        decreases nt - i,
    {
        match get_temp(d, cur, tab, i) {
            Err(e) => {
                proof {
                    lemma_rd_temps_err(d@, o3 as int, (i + 1) as nat, nt as nat, tabv);
                }
                return Err(e);
            },
            Ok((t, c2)) => {
                let ghost desc = rd_temp(d@, cur as int, tabv)->Ok_0.0;
                temps.push(t);
                proof {
                    tdescs = tdescs.push(desc);
                }
                cur = c2;
            },
        }
        i = i + 1;
    }
    Ok((temps, cur))
}

fn get_ops(d: &[u8], o5: usize, no: u32) -> (r: Result<(Vec<Op>, usize), DeserializeError>)
    ensures
        match rd_ops(d@, o5 as int, no as nat) {
            Ok((descs, o6)) => r matches Ok((v, x)) && x == o6 && v@.len() == descs.len() && forall|j: int|
                0 <= j < descs.len() ==> op_is(#[trigger] v@[j], descs[j], j),
            Err(e) => r == Err::<(Vec<Op>, usize), DeserializeError>(e),
        },
{
    let dl = d.len();
    let mut ops: Vec<Op> = Vec::new();
    let ghost odescs: Seq<OpDesc> = Seq::empty();
    let mut cur = o5;
    let mut i: usize = 0;
    while i < no as usize
        invariant
            i <= no,
            dl == d@.len(),
            rd_ops(d@, o5 as int, i as nat) == Ok::<(Seq<OpDesc>, int), DeserializeError>((odescs, cur as int)),
            ops@.len() == i,
            odescs.len() == i,
            forall|j: int| 0 <= j < i ==> op_is(#[trigger] ops@[j], odescs[j], j),
        decreases no - i,
    {
        match get_op(d, cur, i) {
            Err(e) => {
                proof {
                    lemma_rd_ops_err(d@, o5 as int, (i + 1) as nat, no as nat);
                }
                return Err(e);
            },
            Ok((op, c2)) => {
                let ghost desc = rd_op(d@, cur as int)->Ok_0.0;
                ops.push(op);
                proof {
                    odescs = odescs.push(desc);
                }
                cur = c2;
            },
        }
        i = i + 1;
    }
    Ok((ops, cur))
}

/// Fresh labels for every label the ops set or branch to.
fn labels_for(ops: &Vec<Op>) -> (labels: Vec<Label>)
    ensures
        labels@.len() == labels_needed(ops@, ops@.len()),
        forall|k: int|
            0 <= k < labels@.len() ==> (#[trigger] labels@[k]).id == k && !labels@[k].present
                && !labels@[k].has_value && labels@[k].value == 0 && labels@[k].uses@.len() == 0,
{
    let mut labels: Vec<Label> = Vec::new();
    let mut j: usize = 0;
    while j < ops.len()
        invariant
            j <= ops@.len(),
            labels@.len() == labels_needed(ops@, j as nat),
            forall|k: int|
                0 <= k < labels@.len() ==> (#[trigger] labels@[k]).id == k && !labels@[k].present
                    && !labels@[k].has_value && labels@[k].value == 0 && labels@[k].uses@.len() == 0,
        decreases ops@.len() - j,
    {
        let op = &ops[j];
        if op.opc == Opcode::SetLabel {
            ensure_label(&mut labels, op.args[0].0);
        } else if op.opc == Opcode::Br || op.opc == Opcode::BrCond {
            let def = op.opc.def();
            let pos = (def.nb_oargs + def.nb_iargs + def.nb_cargs - 1) as usize;
            assert(pos == label_pos(op.opc));
            ensure_label(&mut labels, op.args[pos].0);
        }
        j = j + 1;
    }
    labels
}

fn get_tb(d: &[u8], o: usize, nb_globals: u32) -> (r: Result<(Context, usize), DeserializeError>)
    ensures
        match rd_tb(d@, o as int, nb_globals) {
            Ok((desc, o2)) => r matches Ok((c, x)) && context_is(c, desc) && x == o2,
            Err(e) => r == Err::<(Context, usize), DeserializeError>(e),
        },
{
    proof {
        reveal(rd_header);
        reveal(rd_tb);
    }
    let dl = d.len();
    let (ns, o1) = match get_u32(d, o) {
        Ok(p) => p,
        Err(e) => {
            return Err(e);
        },
    };
    let (tab, o2) = match get_strtab(d, o1, ns) {
        Ok(p) => p,
        Err(e) => {
            return Err(e);
        },
    };
    let (nt, o3) = match get_u32(d, o2) {
        Ok(p) => p,
        Err(e) => {
            return Err(e);
        },
    };
    let (temps, o4) = match get_temps(d, o3, nt, &tab) {
        Ok(p) => p,
        Err(e) => {
            return Err(e);
        },
    };
    let (no, o5) = match get_u32(d, o4) {
        Ok(p) => p,
        Err(e) => {
            return Err(e);
        },
    };
    let (ops, o6) = match get_ops(d, o5, no) {
        Ok(p) => p,
        Err(e) => {
            return Err(e);
        },
    };
    let labels = labels_for(&ops);
    let ctx = Context {
        temps,
        ops,
        labels,
        nb_globals,
        frame_reg: None,
        frame_start: 0,
        frame_end: 0,
        frame_alloc_end: 0,
        reserved_regs: RegSet(0),
        consts: Vec::new(),
        gen_insn_end_off: Vec::new(),
        tb_idx: 0,
    };
    Ok((ctx, o6))
}

fn get_tbs(d: &[u8], o1: usize, n: u32, g: u32) -> (r: Result<(Vec<Context>, usize), DeserializeError>)
    ensures
        match rd_tbs(d@, o1 as int, n as nat, g) {
            Ok((descs, o2)) => r matches Ok((v, x)) && x == o2 && v@.len() == descs.len() && forall|j: int|
                0 <= j < descs.len() ==> context_is(#[trigger] v@[j], descs[j]),
            Err(e) => r == Err::<(Vec<Context>, usize), DeserializeError>(e),
        },
{
    let dl = d.len();
    let mut out: Vec<Context> = Vec::new();
    let mut cur = o1;
    let mut t: u32 = 0;
    let ghost tbs: Seq<TbDesc> = Seq::empty();
    while t < n
        invariant
            t <= n,
            dl == d@.len(),
            rd_tbs(d@, o1 as int, t as nat, g) == Ok::<(Seq<TbDesc>, int), DeserializeError>((tbs, cur as int)),
            tbs.len() == t,
            out@.len() == t,
            forall|i: int| 0 <= i < t ==> context_is(#[trigger] out@[i], tbs[i]),
        decreases n - t,
    {
        match get_tb(d, cur, g) {
            Err(e) => {
                proof {
                    lemma_rd_tbs_err(d@, o1 as int, (t + 1) as nat, n as nat, g);
                }
                return Err(e);
            },
            Ok((c, c2)) => {
                let ghost desc = rd_tb(d@, cur as int, g)->Ok_0.0;
                out.push(c);
                proof {
                    tbs = tbs.push(desc);
                }
                cur = c2;
            },
        }
        t = t + 1;
    }
    Ok((out, cur))
}

/// The blocks read so far followed by what the rest of the image gives.
pub open spec fn followed_by(done: Seq<TbDesc>, rest: Result<Seq<TbDesc>, DeserializeError>) -> Result<
    Seq<TbDesc>,
    DeserializeError,
> {
    match rest {
        Ok(r) => Ok(done + r),
        Err(e) => Err(e),
    }
}

/// Read the blocks of the (possibly concatenated) IR images in `data`;
/// reading stops cleanly where fewer than four bytes are left.
pub fn deserialize(data: &[u8]) -> (r: Result<Vec<Context>, DeserializeError>)
    ensures
        match rd_file(data@, 0) {
            Ok(descs) => r matches Ok(v) && v@.len() == descs.len() && forall|i: int|
                0 <= i < descs.len() ==> context_is(#[trigger] v@[i], descs[i]),
            Err(e) => r == Err::<Vec<Context>, DeserializeError>(e),
        },
{
    let dl = data.len();
    let mut out: Vec<Context> = Vec::new();
    let ghost descs: Seq<TbDesc> = Seq::empty();
    let mut o: usize = 0;
    loop
        invariant
            dl == data@.len(),
            o <= dl,
            out@.len() == descs.len(),
            forall|i: int| 0 <= i < descs.len() ==> context_is(#[trigger] out@[i], descs[i]),
            rd_file(data@, 0) == followed_by(descs, rd_file(data@, o as int)),
        decreases dl - o,
    {
        if dl - o < 4 {
            assert(descs + Seq::<TbDesc>::empty() =~= descs);
            return Ok(out);
        }
        let (g, n, o1) = match get_header(data, o) {
            Ok(p) => p,
            Err(e) => {
                return Err(e);
            },
        };
        let (mut more, cur) = match get_tbs(data, o1, n, g) {
            Ok(p) => p,
            Err(e) => {
                return Err(e);
            },
        };
        let ghost tbs = rd_tbs(data@, o1 as int, n as nat, g)->Ok_0.0;
        let ghost out0 = out@;
        let ghost more0 = more@;
        out.append(&mut more);
        proof {
            assert forall|i: int| 0 <= i < descs.len() + tbs.len() implies context_is(
                #[trigger] out@[i],
                (descs + tbs)[i],
            ) by {
                if i < descs.len() {
                    assert(out@[i] == out0[i]);
                } else {
                    assert(out@[i] == more0[i - descs.len()]);
                }
            }
        }
        if cur <= o || cur > dl {
            return Ok(out);
        }
        proof {
            match rd_file(data@, cur as int) {
                Ok(rest) => {
                    assert(descs + (tbs + rest) =~= (descs + tbs) + rest);
                },
                Err(_) => {},
            }
            descs = descs + tbs;
        }
        o = cur;
    }
}


/// What a temp should read back as.
pub open spec fn temp_desc(t: Temp) -> TempDesc {
    TempDesc {
        kind: t.kind,
        ty: t.ty,
        base_type: t.base_type,
        reg: t.reg,
        val: t.val,
        mem_base: t.mem_base,
        mem_offset: t.mem_offset,
        name: match t.name {
            Some(s) => Some(s@),
            None => None,
        },
    }
}

/// What an op should read back as.
pub open spec fn op_desc(op: Op) -> OpDesc {
    OpDesc {
        opc: op.opc,
        op_type: op.op_type,
        param1: op.param1,
        param2: op.param2,
        nargs: op.nargs,
        args: Seq::new(op.nargs as nat, |k: int| op.args@[k].0),
    }
}

/// What a block's IR should read back as.
pub open spec fn context_desc(ctx: &Context) -> TbDesc {
    TbDesc {
        nb_globals: ctx.nb_globals,
        temps: Seq::new(ctx.temps@.len(), |i: int| temp_desc(ctx.temps@[i])),
        ops: Seq::new(ctx.ops@.len(), |i: int| op_desc(ctx.ops@[i])),
    }
}

/// A block's IR that reads back as written: every op has at most
/// `MAX_OP_ARGS` arguments, the counts fit their 32-bit fields, no register
/// or base uses the code reserved for "none", and names are shorter than
/// 64 KiB.
pub open spec fn serializable(ctx: &Context) -> bool {
    &&& args_in_range(ctx.ops@)
    &&& ctx.temps@.len() < NONE_U32
    &&& ctx.ops@.len() <= u32::MAX
    &&& forall|i: int|
        0 <= i < ctx.temps@.len() ==> {
            let t = #[trigger] ctx.temps@[i];
            &&& t.reg != Some(NONE_U8)
            &&& t.mem_base != Some(TempIdx(NONE_U32))
            &&& (t.name matches Some(s) ==> s.spec_bytes().len() < 65536)
        }
}

/// `s` lies in `d` at `o`.
pub open spec fn at(d: Seq<u8>, o: int, s: Seq<u8>) -> bool {
    0 <= o && o + s.len() <= d.len() && d.subrange(o, o + s.len()) == s
}

proof fn lemma_at_split(d: Seq<u8>, o: int, a: Seq<u8>, b: Seq<u8>)
    requires
        at(d, o, a + b),
    ensures
        at(d, o, a),
        at(d, o + a.len(), b),
{
    let whole = d.subrange(o, o + (a + b).len());
    assert(whole == a + b);
    assert(d.subrange(o, o + a.len()) =~= whole.subrange(0, a.len() as int));
    assert(whole.subrange(0, a.len() as int) =~= a);
    assert(d.subrange(o + a.len(), o + a.len() + b.len()) =~= whole.subrange(a.len() as int, (a + b).len() as int));
    assert(whole.subrange(a.len() as int, (a + b).len() as int) =~= b);
}

proof fn lemma_rd_u16_at(d: Seq<u8>, o: int, v: u16)
    requires
        at(d, o, enc16(v)),
    ensures
        rd_u16(d, o) == Ok::<(u16, int), DeserializeError>((v, o + 2)),
{
    crate::bytes::lemma_enc16_roundtrip(v, d, o);
}

proof fn lemma_rd_u32_at(d: Seq<u8>, o: int, v: u32)
    requires
        at(d, o, enc32(v)),
    ensures
        rd_u32(d, o) == Ok::<(u32, int), DeserializeError>((v, o + 4)),
{
    crate::bytes::lemma_enc32_roundtrip(v, d, o);
}

proof fn lemma_rd_u64_at(d: Seq<u8>, o: int, v: u64)
    requires
        at(d, o, enc64(v)),
    ensures
        rd_u64(d, o) == Ok::<(u64, int), DeserializeError>((v, o + 8)),
{
    crate::bytes::lemma_enc64_roundtrip(v, d, o);
}

/// Temp `t` is named by the bytes `b`.
pub open spec fn name_is(t: Temp, b: Seq<u8>) -> bool {
    t.name matches Some(s) && s.spec_bytes() == b
}

/// The names table only holds names of the temps, once each, and holds
/// every one of them.
proof fn lemma_names_table(temps: Seq<Temp>, n: nat)
    requires
        n <= temps.len(),
    ensures
        names_table(temps, n).len() <= n,
        names_table(temps, n).no_duplicates(),
        forall|j: int| 0 <= j < n ==> ((#[trigger] temps[j]).name matches Some(s) ==> names_table(temps, n).contains(s.spec_bytes())),
        forall|k: int| #![trigger names_table(temps, n)[k]] 0 <= k < names_table(temps, n).len() ==> exists|j: int|
            0 <= j < n && name_is(#[trigger] temps[j], names_table(temps, n)[k]),
    decreases n,
{
    if n > 0 {
        lemma_names_table(temps, (n - 1) as nat);
        let t0 = names_table(temps, (n - 1) as nat);
        let t1 = names_table(temps, n);
        assert forall|j: int| 0 <= j < n implies ((#[trigger] temps[j]).name matches Some(s) ==> t1.contains(s.spec_bytes())) by {
            if let Some(s) = temps[j].name {
                if j < n - 1 {
                    let w = choose|w: int| 0 <= w < t0.len() && t0[w] == s.spec_bytes();
                    assert(t1[w] == s.spec_bytes());
                } else if !t0.contains(s.spec_bytes()) {
                    assert(t1[t0.len() as int] == s.spec_bytes());
                }
            }
        }
        assert forall|k: int| #![trigger t1[k]] 0 <= k < t1.len() implies exists|j: int|
            0 <= j < n && name_is(#[trigger] temps[j], t1[k]) by {
            if k < t0.len() {
                let j = choose|j: int| 0 <= j < n - 1 && name_is(#[trigger] temps[j], t0[k]);
                assert(name_is(temps[j], t1[k]));
            } else {
                assert(name_is(temps[n - 1], t1[k]));
            }
        }
    }
}

/// Reading a written string table gives back the decoded names.
proof fn lemma_rd_strings_ser(d: Seq<u8>, o: int, tab: Seq<Seq<u8>>, n: nat)
    requires
        n <= tab.len(),
        forall|k: int| 0 <= k < tab.len() ==> #[trigger] tab[k].len() < 65536 && valid_utf8(tab[k]),
        at(d, o, ser_strings(tab, n)),
    ensures
        rd_strings(d, o, n) == Ok::<(Seq<Seq<char>>, int), DeserializeError>(
            (Seq::new(n, |k: int| decode_utf8(tab[k])), o + ser_strings(tab, n).len()),
        ),
    decreases n,
{
    if n == 0 {
        assert(Seq::new(0, |k: int| decode_utf8(tab[k])) =~= Seq::empty());
    }
    if n > 0 {
        let pre = ser_strings(tab, (n - 1) as nat);
        let e = tab[n - 1];
        assert(ser_strings(tab, n) == pre + enc16(e.len() as u16) + e);
        lemma_at_split(d, o, pre + enc16(e.len() as u16), e);
        lemma_at_split(d, o, pre, enc16(e.len() as u16));
        lemma_rd_strings_ser(d, o, tab, (n - 1) as nat);
        let o1 = o + pre.len();
        lemma_rd_u16_at(d, o1, e.len() as u16);
        assert(d.subrange(o1 + 2, o1 + 2 + e.len()) == e);
        assert(Seq::new((n - 1) as nat, |k: int| decode_utf8(tab[k])).push(decode_utf8(e)) =~= Seq::new(
            n,
            |k: int| decode_utf8(tab[k]),
        ));
    }
}

/// Reading a written argument list gives back the words.
proof fn lemma_rd_args_ser(d: Seq<u8>, o: int, args: Seq<TempIdx>, n: nat)
    requires
        n <= args.len(),
        at(d, o, ser_args(args, n)),
    ensures
        rd_args(d, o, n) == Ok::<(Seq<u32>, int), DeserializeError>(
            (Seq::new(n, |k: int| args[k].0), o + 4 * n),
        ),
        ser_args(args, n).len() == 4 * n,
    decreases n,
{
    if n == 0 {
        assert(Seq::new(0, |k: int| args[k].0) =~= Seq::empty());
    }
    if n > 0 {
        let pre = ser_args(args, (n - 1) as nat);
        lemma_at_split(d, o, pre, enc32(args[n - 1].0));
        lemma_rd_args_ser(d, o, args, (n - 1) as nat);
        lemma_rd_u32_at(d, o + pre.len(), args[n - 1].0);
        assert(Seq::new((n - 1) as nat, |k: int| args[k].0).push(args[n - 1].0) =~= Seq::new(
            n,
            |k: int| args[k].0,
        ));
    }
}

proof fn lemma_kind_type_codes(k: TempKind, t: Type)
    ensures
        kind_of(kind_code(k)) == Some(k),
        type_of(type_code(t)) == Some(t),
{
}

proof fn lemma_offset_roundtrip(x: i64)
    ensures
        (x as u64) as i64 == x,
{
    assert((x as u64) as i64 == x) by (bit_vector);
}

/// Reading a written temp gives back its description.
#[verifier::spinoff_prover]
#[verifier::rlimit(50)]
proof fn lemma_rd_temp_ser(d: Seq<u8>, o: int, t: Temp, tab: Seq<Seq<u8>>)
    requires
        at(d, o, ser_temp(t, name_code(tab, t.name))),
        t.reg != Some(NONE_U8),
        t.mem_base != Some(TempIdx(NONE_U32)),
        tab.len() < NONE_U32,
        t.name matches Some(s) ==> tab.contains(s.spec_bytes()),
    ensures
        rd_temp(d, o, Seq::new(tab.len(), |k: int| decode_utf8(tab[k]))) == Ok::<(TempDesc, int), DeserializeError>(
            (temp_desc(t), o + 28),
        ),
{
    let h = seq![kind_code(t.kind), type_code(t.ty), type_code(t.base_type), reg_code(t.reg)];
    let nc = name_code(tab, t.name);
    let a = h + enc64(t.val);
    let b = a + enc32(base_code(t.mem_base));
    let c = b + enc64(t.mem_offset as u64);
    lemma_at_split(d, o, c, enc32(nc));
    lemma_at_split(d, o, b, enc64(t.mem_offset as u64));
    lemma_at_split(d, o, a, enc32(base_code(t.mem_base)));
    lemma_at_split(d, o, h, enc64(t.val));
    assert(d[o] == h[0] && d[o + 1] == h[1] && d[o + 2] == h[2] && d[o + 3] == h[3]) by {
        assert(d.subrange(o, o + 4)[0] == d[o]);
        assert(d.subrange(o, o + 4)[1] == d[o + 1]);
        assert(d.subrange(o, o + 4)[2] == d[o + 2]);
        assert(d.subrange(o, o + 4)[3] == d[o + 3]);
    }
    lemma_kind_type_codes(t.kind, t.ty);
    lemma_kind_type_codes(t.kind, t.base_type);
    lemma_rd_u64_at(d, o + 4, t.val);
    lemma_rd_u32_at(d, o + 12, base_code(t.mem_base));
    lemma_rd_u64_at(d, o + 16, t.mem_offset as u64);
    lemma_rd_u32_at(d, o + 24, nc);
    lemma_offset_roundtrip(t.mem_offset);
    if let Some(s) = t.name {
        let w = tab.index_of(s.spec_bytes());
        assert(0 <= w < tab.len() && tab[w] == s.spec_bytes());
        vstd::utf8::encode_utf8_decode_utf8(s@);
    }
}

/// Reading written temps gives back their descriptions.
proof fn lemma_rd_temps_ser(d: Seq<u8>, o: int, temps: Seq<Temp>, tab: Seq<Seq<u8>>, n: nat)
    requires
        n <= temps.len(),
        tab.len() < NONE_U32,
        forall|i: int| 0 <= i < temps.len() ==> {
            let t = #[trigger] temps[i];
            &&& t.reg != Some(NONE_U8)
            &&& t.mem_base != Some(TempIdx(NONE_U32))
            &&& (t.name matches Some(s) ==> tab.contains(s.spec_bytes()))
        },
        at(d, o, ser_temps(temps, tab, n)),
    ensures
        rd_temps(d, o, n, Seq::new(tab.len(), |k: int| decode_utf8(tab[k]))) == Ok::<(Seq<TempDesc>, int), DeserializeError>(
            (Seq::new(n, |i: int| temp_desc(temps[i])), o + 28 * n),
        ),
        ser_temps(temps, tab, n).len() == 28 * n,
    decreases n,
{
    if n == 0 {
        assert(Seq::new(0, |i: int| temp_desc(temps[i])) =~= Seq::empty());
    }
    if n > 0 {
        let pre = ser_temps(temps, tab, (n - 1) as nat);
        let t = temps[n - 1];
        lemma_at_split(d, o, pre, ser_temp(t, name_code(tab, t.name)));
        lemma_rd_temps_ser(d, o, temps, tab, (n - 1) as nat);
        lemma_rd_temp_ser(d, o + pre.len(), t, tab);
        assert(Seq::new((n - 1) as nat, |i: int| temp_desc(temps[i])).push(temp_desc(t)) =~= Seq::new(
            n,
            |i: int| temp_desc(temps[i]),
        ));
    }
}

/// Reading a written op gives back its description.
proof fn lemma_rd_op_ser(d: Seq<u8>, o: int, op: Op)
    requires
        op.nargs <= MAX_OP_ARGS,
        at(d, o, ser_op(op)),
    ensures
        rd_op(d, o) == Ok::<(OpDesc, int), DeserializeError>((op_desc(op), o + 8 + 4 * op.nargs)),
        ser_op(op).len() == 8 + 4 * op.nargs,
{
    let h = seq![
        op.opc.spec_index() as u8,
        type_code(op.op_type),
        op.param1,
        op.param2,
        op.nargs,
        0u8,
        0u8,
        0u8,
    ];
    lemma_at_split(d, o, h, ser_args(op.args@, op.nargs as nat));
    assert(forall|k: int| 0 <= k < 8 ==> d[o + k] == #[trigger] h[k]) by {
        assert forall|k: int| 0 <= k < 8 implies d[o + k] == #[trigger] h[k] by {
            assert(d.subrange(o, o + 8)[k] == d[o + k]);
        }
    }
    assert(d[o] == h[0] && d[o + 1] == h[1] && d[o + 2] == h[2] && d[o + 3] == h[3] && d[o + 4] == h[4]);
    crate::opcode::lemma_opcode_index_roundtrip(op.opc);
    lemma_kind_type_codes(TempKind::Ebb, op.op_type);
    lemma_rd_args_ser(d, o + 8, op.args@, op.nargs as nat);
}

/// Reading written ops gives back their descriptions.
proof fn lemma_rd_ops_ser(d: Seq<u8>, o: int, ops: Seq<Op>, n: nat)
    requires
        n <= ops.len(),
        args_in_range(ops),
        at(d, o, ser_ops(ops, n)),
    ensures
        rd_ops(d, o, n) == Ok::<(Seq<OpDesc>, int), DeserializeError>(
            (Seq::new(n, |i: int| op_desc(ops[i])), o + ser_ops(ops, n).len()),
        ),
    decreases n,
{
    if n == 0 {
        assert(Seq::new(0, |i: int| op_desc(ops[i])) =~= Seq::empty());
    }
    if n > 0 {
        let pre = ser_ops(ops, (n - 1) as nat);
        let op = ops[n - 1];
        assert(op.nargs <= MAX_OP_ARGS);
        lemma_at_split(d, o, pre, ser_op(op));
        lemma_rd_ops_ser(d, o, ops, (n - 1) as nat);
        lemma_rd_op_ser(d, o + pre.len(), op);
        assert(Seq::new((n - 1) as nat, |i: int| op_desc(ops[i])).push(op_desc(op)) =~= Seq::new(
            n,
            |i: int| op_desc(ops[i]),
        ));
    }
}

/// The part of `ser_context` after the header.
pub open spec fn ser_body(ctx: &Context) -> Seq<u8> {
    let temps = ctx.temps_view();
    let ops = ctx.ops_view();
    let tab = names_table(temps, temps.len());
    enc32(tab.len() as u32) + ser_strings(tab, tab.len()) + enc32(temps.len() as u32) + ser_temps(
        temps,
        tab,
        temps.len(),
    ) + enc32(ops.len() as u32) + ser_ops(ops, ops.len())
}

proof fn lemma_rd_header_ser(d: Seq<u8>, g: u32, nl: u32)
    requires
        at(d, 0, ser_header(g, nl)),
    ensures
        rd_header(d, 0) == Ok::<(u32, u32, int), DeserializeError>((g, 1u32, 20int)),
{
    reveal(rd_header);
    reveal(rd_tb);
    let h0 = seq![0x54u8, 0x43u8, 0x49u8, 0x52u8];
    let h1 = h0 + enc16(IR_VERSION);
    let h2 = h1 + enc16(0);
    let h3 = h2 + enc32(g);
    let h4 = h3 + enc32(nl);
    assert(ser_header(g, nl) == h4 + enc32(1));
    lemma_at_split(d, 0, h4, enc32(1));
    lemma_at_split(d, 0, h3, enc32(nl));
    lemma_at_split(d, 0, h2, enc32(g));
    lemma_at_split(d, 0, h1, enc16(0));
    lemma_at_split(d, 0, h0, enc16(IR_VERSION));
    lemma_rd_u16_at(d, 4, IR_VERSION);
    lemma_rd_u16_at(d, 6, 0);
    lemma_rd_u32_at(d, 8, g);
    lemma_rd_u32_at(d, 12, nl);
    lemma_rd_u32_at(d, 16, 1);
}

#[verifier::spinoff_prover]
proof fn lemma_rd_tb_ser(d: Seq<u8>, o: int, ctx: &Context)
    requires
        serializable(ctx),
        at(d, o, ser_body(ctx)),
    ensures
        rd_tb(d, o, ctx.nb_globals) == Ok::<(TbDesc, int), DeserializeError>(
            (context_desc(ctx), o + ser_body(ctx).len()),
        ),
{
    reveal(rd_header);
    reveal(rd_tb);
    let temps = ctx.temps_view();
    let ops = ctx.ops_view();
    let tab = names_table(temps, temps.len());
    lemma_names_table(temps, temps.len());
    assert forall|k: int| 0 <= k < tab.len() implies #[trigger] tab[k].len() < 65536 && valid_utf8(tab[k]) by {
        let j = choose|j: int| 0 <= j < temps.len() && name_is(#[trigger] temps[j], tab[k]);
        assert(ctx.temps@[j] == temps[j]);
        if let Some(s) = temps[j].name {
            vstd::utf8::encode_utf8_valid_utf8(s@);
        }
    }
    let s1 = enc32(tab.len() as u32);
    let s2 = s1 + ser_strings(tab, tab.len());
    let s3 = s2 + enc32(temps.len() as u32);
    let s4 = s3 + ser_temps(temps, tab, temps.len());
    let s5 = s4 + enc32(ops.len() as u32);
    assert(ser_body(ctx) == s5 + ser_ops(ops, ops.len()));
    lemma_at_split(d, o, s5, ser_ops(ops, ops.len()));
    lemma_at_split(d, o, s4, enc32(ops.len() as u32));
    lemma_at_split(d, o, s3, ser_temps(temps, tab, temps.len()));
    lemma_at_split(d, o, s2, enc32(temps.len() as u32));
    lemma_at_split(d, o, s1, ser_strings(tab, tab.len()));
    lemma_rd_u32_at(d, o, tab.len() as u32);
    lemma_rd_strings_ser(d, o + 4, tab, tab.len());
    lemma_rd_u32_at(d, o + s2.len(), temps.len() as u32);
    assert forall|i: int| 0 <= i < temps.len() implies {
        let t = #[trigger] temps[i];
        &&& t.reg != Some(NONE_U8)
        &&& t.mem_base != Some(TempIdx(NONE_U32))
        &&& (t.name matches Some(s) ==> tab.contains(s.spec_bytes()))
    } by {
        assert(ctx.temps@[i] == temps[i]);
    }
    lemma_rd_temps_ser(d, o + s3.len(), temps, tab, temps.len());
    lemma_rd_u32_at(d, o + s4.len(), ops.len() as u32);
    lemma_rd_ops_ser(d, o + s5.len(), ops, ops.len());
    let tabc = Seq::new(tab.len(), |k: int| decode_utf8(tab[k]));
    assert(rd_strings(d, o + 4, tab.len()) == Ok::<(Seq<Seq<char>>, int), DeserializeError>((tabc, o + s2.len())));
    assert(rd_temps(d, o + s3.len(), temps.len(), tabc) == Ok::<(Seq<TempDesc>, int), DeserializeError>(
        (context_desc(ctx).temps, o + s4.len()),
    ));
    assert(rd_ops(d, o + s5.len(), ops.len()) == Ok::<(Seq<OpDesc>, int), DeserializeError>(
        (context_desc(ctx).ops, o + ser_body(ctx).len()),
    ));
}

/// Reading back what `serialize` writes gives exactly one block, whose
/// temps and ops are those written.
#[verifier::spinoff_prover]
#[verifier::rlimit(50)]
pub proof fn lemma_serialize_roundtrip(ctx: &Context)
    requires
        serializable(ctx),
    ensures
        rd_file(ser_context(ctx), 0) == Ok::<Seq<TbDesc>, DeserializeError>(seq![context_desc(ctx)]),
{
    let d = ser_context(ctx);
    let hd = ser_header(ctx.spec_nb_globals() as u32, ctx.labels_view().len() as u32);
    assert(at(d, 0, d)) by {
        assert(d.subrange(0, d.len() as int) =~= d);
    }
    lemma_at_split(d, 0, hd, ser_body(ctx));
    lemma_rd_header_ser(d, ctx.spec_nb_globals() as u32, ctx.labels_view().len() as u32);
    lemma_rd_tb_ser(d, 20, ctx);
    let desc = context_desc(ctx);
    assert(rd_tbs(d, 20, 1, ctx.nb_globals) == Ok::<(Seq<TbDesc>, int), DeserializeError>((seq![desc], d.len() as int))) by {
        reveal_with_fuel(rd_tbs, 2);
        assert(Seq::<TbDesc>::empty().push(desc) =~= seq![desc]);
    }
    assert(rd_file(d, d.len() as int) == Ok::<Seq<TbDesc>, DeserializeError>(Seq::empty()));
    assert(seq![desc] + Seq::<TbDesc>::empty() =~= seq![desc]);
}

} // verus!
