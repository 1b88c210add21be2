use tcg::backend::codegen::X86_64CodeGen;
use tcg::exec::env::ExecEnv;
use tcg::exec::exec_loop::{chain_reachable, ExitAction, ExitReason, Pending};
use tcg::exec::tb_store::TbStore;
use tcg::tb::{decode_tb_exit, encode_tb_exit, TranslationBlock, TB_EXIT_NOCHAIN};

fn translate_block(env: &mut ExecEnv, pc: u64, exits: &[u64], gotos: u32) -> usize {
    let idx = env.begin_tb(pc, 0).expect("room for a block");
    for i in 0..gotos {
        env.ir_ctx.gen_goto_tb(i);
    }
    for &e in exits {
        env.ir_ctx.gen_exit_tb(e);
    }
    env.finish_tb(idx, 4).expect("block translates")
}

#[test]
fn tb_exit_encoding_roundtrip() {
    for &(tb, code) in &[(0u32, 0u64), (7, 1), (65535, 2), (u32::MAX, 3), (12, 0x7fff_ffff)] {
        let raw = encode_tb_exit(tb, code);
        assert_eq!(decode_tb_exit(raw), (Some(tb as usize), code));
    }
    assert_eq!(decode_tb_exit(0), (None, 0));
    assert_eq!(decode_tb_exit(5), (None, 5));
    assert_eq!(encode_tb_exit(1, 2), 0x1_8000_0002);
}

#[test]
fn tb_store_insert_lookup_invalidate() {
    let mut store = TbStore::new();
    assert!(store.is_empty());
    let a = store.alloc_tb(0x1000, 0, 0);
    let b = store.alloc_tb(0x2000, 0, 0);
    assert_eq!((a, b), (0, 1));
    assert_eq!(store.len(), 2);
    assert_eq!(store.lookup(0x1000, 0), None);
    store.insert(a);
    store.insert(b);
    assert_eq!(store.lookup(0x1000, 0), Some(a));
    assert_eq!(store.lookup(0x2000, 0), Some(b));
    assert_eq!(store.lookup(0x1000, 1), None);
    let mut buf = tcg::backend::code_buffer::CodeBuffer::new(64).unwrap();
    let gen = X86_64CodeGen::new();
    store.invalidate(a, &mut buf, &gen);
    assert!(store.get(a).invalid);
    assert_eq!(store.get(a).hash_next, None);
    assert_eq!(store.lookup(0x1000, 0), None);
    assert_eq!(store.lookup(0x2000, 0), Some(b));
    store.flush();
    assert!(store.is_empty());
    assert_eq!(store.lookup(0x2000, 0), None);
}

#[test]
fn tb_store_same_bucket_chain() {
    let mut store = TbStore::new();
    // Same pc, different flags: usually different buckets; same key twice
    // shares a bucket.
    let a = store.alloc_tb(0x4000, 3, 0);
    let b = store.alloc_tb(0x4000, 3, 0);
    store.insert(a);
    store.insert(b);
    assert_eq!(TranslationBlock::hash(0x4000, 3), TranslationBlock::hash(0x4000, 3));
    assert_eq!(store.lookup(0x4000, 3), Some(b));
    let mut buf = tcg::backend::code_buffer::CodeBuffer::new(64).unwrap();
    let gen = X86_64CodeGen::new();
    store.invalidate(b, &mut buf, &gen);
    assert_eq!(store.lookup(0x4000, 3), Some(a));
    assert_eq!(store.get(a).hash_next, None);
}

#[test]
fn exec_env_translate_and_find() {
    let mut env = ExecEnv::new(X86_64CodeGen::new());
    assert!(env.code_gen_start > 0);
    assert_eq!(env.code_buf.offset(), env.code_gen_start);
    assert_eq!(env.lookup_tb(0x1000, 0), None);
    let start = env.code_buf.offset();
    let idx = translate_block(&mut env, 0x1000, &[0], 0);
    assert_eq!(idx, 0);
    assert_eq!(env.stats.translate, 1);
    let tb = env.tb_store.get(idx);
    assert_eq!(tb.host_offset, start);
    assert!(tb.host_size > 0);
    assert_eq!(tb.size, 4);
    // Found through the jump cache now.
    assert_eq!(env.lookup_tb(0x1000, 0), Some(idx));
    assert_eq!(env.stats.jc_hit, 1);
    // A different key misses.
    assert_eq!(env.lookup_tb(0x1000, 1), None);
}

#[test]
fn exec_env_goto_tb_offsets_recorded() {
    let mut env = ExecEnv::new(X86_64CodeGen::new());
    let idx = translate_block(&mut env, 0x1000, &[0], 2);
    let tb = env.tb_store.get(idx);
    let j0 = tb.jmp_insn_offset[0].unwrap();
    let r0 = tb.jmp_reset_offset[0].unwrap();
    let j1 = tb.jmp_insn_offset[1].unwrap();
    assert_eq!(r0, j0 + 5);
    assert_eq!((j0 + 1) % 4, 0);
    assert!(j1 > j0);
    assert_eq!(env.code_buf.as_slice()[j0 as usize], 0xE9);
}

#[test]
fn exec_handle_exit_decisions() {
    let mut env = ExecEnv::new(X86_64CodeGen::new());
    let a = translate_block(&mut env, 0x1000, &[0], 1);
    // Real exit code.
    let act = env.handle_exit(a, encode_tb_exit(a as u32, 7), 0x1000, 0);
    assert_eq!(act, ExitAction::Stop(ExitReason::Exit(7)));
    assert_eq!(env.stats.real_exit, 1);
    // Chain exit through slot 0 asks for a lookup that chains.
    let act = env.handle_exit(a, encode_tb_exit(a as u32, 0), 0x2000, 0);
    assert_eq!(act, ExitAction::Find(Pending::Chain { src: a, slot: 0 }));
    assert_eq!(env.stats.chain_exit, [1, 0]);
    // No-chain exit asks for a lookup that caches the successor.
    let act = env.handle_exit(a, encode_tb_exit(a as u32, TB_EXIT_NOCHAIN), 0x2000, 0);
    assert_eq!(act, ExitAction::Find(Pending::NoChain { src: a }));
    // An untagged exit is attributed to the block that was entered.
    let act = env.handle_exit(a, 1, 0x2000, 0);
    assert_eq!(act, ExitAction::Find(Pending::Chain { src: a, slot: 1 }));
}

#[test]
fn exec_chain_and_cycle() {
    let mut env = ExecEnv::new(X86_64CodeGen::new());
    let a = translate_block(&mut env, 0x1000, &[0], 1);
    let b = translate_block(&mut env, 0x2000, &[0], 1);
    // Chain a.slot0 -> b: patches a's jump to b's code.
    assert!(!chain_reachable(&env.tb_store, b, a));
    let next = env.resolve(Pending::Chain { src: a, slot: 0 }, b);
    assert_eq!(next, b);
    assert_eq!(env.stats.chain_patched, 1);
    assert_eq!(env.tb_store.chains[a].jmp_dest[0], Some(b));
    assert_eq!(env.tb_store.chains[b].jmp_list, vec![(a, 0)]);
    let j = env.tb_store.get(a).jmp_insn_offset[0].unwrap() as usize;
    let code = env.code_buf.as_slice();
    let disp = i32::from_le_bytes([code[j + 1], code[j + 2], code[j + 3], code[j + 4]]);
    assert_eq!((j as i64 + 5 + disp as i64) as usize, env.tb_store.get(b).host_offset);
    // Chaining again is only counted.
    env.resolve(Pending::Chain { src: a, slot: 0 }, b);
    assert_eq!(env.stats.chain_already, 1);
    // b.slot0 -> a would close a cycle: refused and cached.
    assert!(chain_reachable(&env.tb_store, a, b));
    env.resolve(Pending::Chain { src: b, slot: 0 }, a);
    assert_eq!(env.stats.chain_cycle, 1);
    assert!(env.tb_store.chains[b].jmp_nochain[0]);
    assert_eq!(env.tb_store.chains[b].jmp_dest[0], Some(a));
    // The cached refused slot is followed without a lookup.
    let act = env.handle_exit(b, encode_tb_exit(b as u32, 0), 0x1000, 0);
    assert_eq!(act, ExitAction::Run(a));
    // No-chain successor is cached and reused.
    env.resolve(Pending::NoChain { src: a }, b);
    let act = env.handle_exit(a, encode_tb_exit(a as u32, TB_EXIT_NOCHAIN), 0x2000, 0);
    assert_eq!(act, ExitAction::Run(b));
}

#[test]
fn exec_invalidate_unchains() {
    let mut env = ExecEnv::new(X86_64CodeGen::new());
    let a = translate_block(&mut env, 0x1000, &[0], 1);
    let b = translate_block(&mut env, 0x2000, &[0], 1);
    env.resolve(Pending::Chain { src: a, slot: 0 }, b);
    let j = env.tb_store.get(a).jmp_insn_offset[0].unwrap() as usize;
    env.tb_store.invalidate(b, &mut env.code_buf, &env.backend);
    assert_eq!(env.tb_store.chains[a].jmp_dest[0], None);
    assert!(env.tb_store.chains[b].jmp_list.is_empty());
    // a's jump points back at its reset offset (the next instruction).
    let code = env.code_buf.as_slice();
    let disp = i32::from_le_bytes([code[j + 1], code[j + 2], code[j + 3], code[j + 4]]);
    assert_eq!(disp, 0);
    assert_eq!(env.lookup_tb(0x2000, 0), None);
}

#[test]
fn exec_next_block_counts() {
    let mut env = ExecEnv::new(X86_64CodeGen::new());
    assert_eq!(env.next_block(None), None);
    assert_eq!(env.next_block(Some(3)), Some(3));
    assert_eq!(env.stats.loop_iters, 2);
    assert_eq!(env.stats.hint_used, 1);
}
