use vstd::prelude::*;

use crate::backend::code_buffer::{CodeBuffer, DEFAULT_CODE_BUF_SIZE};
use crate::backend::codegen::{epilogue_bytes, prologue_bytes, push_seq, pop_seq, X86_64CodeGen};
use crate::backend::emitter::{enc_pop, enc_push};
use crate::backend::regalloc::RegAllocError;
use crate::backend::translate::translate;
use crate::context::Context;
use crate::exec::tb_store::{TbStore, MAX_TBS};
use crate::tb::{jc_index, JumpCache, TranslationBlock};

verus! {

/// Fewest bytes left in the code buffer for a new block to be translated.
pub const MIN_CODE_BUF_REMAINING: usize = 4096;

/// A counter one step on (wrapping at the top).
pub open spec fn bump(x: u64) -> u64 {
    if x == u64::MAX {
        0
    } else {
        (x + 1) as u64
    }
}

/// Step a counter.
pub fn bump_count(x: u64) -> (r: u64)
    ensures
        r == bump(x),
{
    if x == u64::MAX {
        0
    } else {
        x + 1
    }
}

/// Execution statistics of the lookup and chaining pipeline.
pub struct ExecStats {
    pub loop_iters: u64,
    pub jc_hit: u64,
    pub ht_hit: u64,
    pub translate: u64,
    pub chain_exit: [u64; 2],
    pub nochain_exit: u64,
    pub real_exit: u64,
    pub chain_patched: u64,
    pub chain_cycle: u64,
    pub chain_already: u64,
    pub hint_used: u64,
}

impl ExecStats {
    pub open spec fn is_zero(&self) -> bool {
        &&& self.loop_iters == 0
        &&& self.jc_hit == 0
        &&& self.ht_hit == 0
        &&& self.translate == 0
        &&& self.chain_exit@ == seq![0u64, 0u64]
        &&& self.nochain_exit == 0
        &&& self.real_exit == 0
        &&& self.chain_patched == 0
        &&& self.chain_cycle == 0
        &&& self.chain_already == 0
        &&& self.hint_used == 0
    }

    /// All counters at zero.
    pub fn new() -> (s: Self)
        ensures
            s.is_zero(),
    {
        ExecStats {
            loop_iters: 0,
            jc_hit: 0,
            ht_hit: 0,
            translate: 0,
            chain_exit: [0, 0],
            nochain_exit: 0,
            real_exit: 0,
            chain_patched: 0,
            chain_cycle: 0,
            chain_already: 0,
            hint_used: 0,
        }
    }
}

impl Default for ExecStats {
    fn default() -> (s: Self)
        ensures
            s.is_zero(),
    {
        ExecStats::new()
    }
}

/// A valid block for `pc` and `flags`.
pub open spec fn tb_matches(t: TranslationBlock, pc: u64, flags: u32) -> bool {
    !t.invalid && t.pc == pc && t.flags == flags
}

/// The jump and reset offsets recorded for slots that a block's
/// `goto_tb`s filled (at most two), the others kept.
pub open spec fn goto_field(prev: Seq<Option<u32>>, g: Seq<(usize, usize)>, reset: bool) -> Seq<
    Option<u32>,
> {
    Seq::new(
        2,
        |s: int|
            if s < g.len() {
                Some(
                    if reset {
                        g[s].1 as u32
                    } else {
                        g[s].0 as u32
                    },
                )
            } else {
                prev[s]
            },
    )
}

/// Shared translation state of the execution loop: the block store, the
/// jump cache, the code buffer with its backend, and the IR context.
pub struct ExecEnv {
    pub tb_store: TbStore,
    pub jump_cache: JumpCache,
    pub code_buf: CodeBuffer,
    pub backend: X86_64CodeGen,
    pub ir_ctx: Context,
    /// Offset where block code starts (after the prologue and epilogue).
    pub code_gen_start: usize,
    pub stats: ExecStats,
}

impl ExecEnv {
    pub open spec fn wf(&self) -> bool {
        &&& self.tb_store.wf()
        &&& self.jump_cache.wf()
        &&& self.code_buf.wf()
        &&& self.ir_ctx.wf()
        &&& forall|k: int|
            0 <= k < self.jump_cache.entries@.len() ==> (#[trigger] self.jump_cache.entries@[k] matches Some(
                i,
            ) ==> i < self.tb_store.tbs@.len())
    }

    /// Set up the environment: emit the prologue and epilogue into a fresh
    /// code buffer and prepare the IR context for the backend.
    pub fn new(backend: X86_64CodeGen) -> (e: Self)
        ensures
            e.wf(),
            e.tb_store.tbs@.len() == 0,
            e.code_buf.data@.len() == DEFAULT_CODE_BUF_SIZE,
            e.code_buf.bytes() == prologue_bytes() + epilogue_bytes(),
            e.code_gen_start == e.code_buf.offset,
            e.backend.prologue_offset == 0,
            e.backend.epilogue_return_zero_offset == prologue_bytes().len(),
            e.backend.code_gen_start == prologue_bytes().len(),
            e.stats.is_zero(),
            forall|k: int| 0 <= k < e.jump_cache.entries@.len() ==> #[trigger] e.jump_cache.entries@[k] is None,
    {
        let mut backend = backend;
        let mut code_buf = CodeBuffer::with_default_size().unwrap();
        proof {
            lemma_frame_code_len();
        }
        backend.emit_prologue(&mut code_buf);
        backend.emit_epilogue(&mut code_buf);
        let code_gen_start = code_buf.offset();
        let mut ir_ctx = Context::new();
        backend.init_context(&mut ir_ctx);
        proof {
            assert(code_buf.bytes() =~= prologue_bytes() + epilogue_bytes());
        }
        ExecEnv {
            tb_store: TbStore::new(),
            jump_cache: JumpCache::new(),
            code_buf,
            backend,
            ir_ctx,
            code_gen_start,
            stats: ExecStats::new(),
        }
    }

    /// Find a valid block for `pc` and `flags`: first in the jump cache,
    /// then on the hash table (caching what it finds there).
    pub fn lookup_tb(&mut self, pc: u64, flags: u32) -> (r: Option<usize>)
        requires
            old(self).wf(),
        ensures
            final(self).wf(),
            final(self).tb_store == old(self).tb_store,
            final(self).code_buf == old(self).code_buf,
            final(self).ir_ctx == old(self).ir_ctx,
            final(self).backend == old(self).backend,
            ({
                let c = old(self).jump_cache.entries@[jc_index(pc)];
                let tbs = old(self).tb_store.tbs@;
                if c matches Some(i) && tb_matches(tbs[i as int], pc, flags) {
                    &&& r == c
                    &&& final(self).jump_cache == old(self).jump_cache
                    &&& final(self).stats == (ExecStats { jc_hit: bump(old(self).stats.jc_hit), ..old(self).stats })
                } else if old(self).tb_store.spec_lookup(pc, flags) is Some {
                    &&& r == old(self).tb_store.spec_lookup(pc, flags)
                    &&& final(self).jump_cache.entries@ == old(self).jump_cache.entries@.update(
                        jc_index(pc),
                        old(self).tb_store.spec_lookup(pc, flags),
                    )
                    &&& final(self).stats == (ExecStats { ht_hit: bump(old(self).stats.ht_hit), ..old(self).stats })
                } else {
                    &&& r is None
                    &&& final(self).jump_cache == old(self).jump_cache
                    &&& final(self).stats == old(self).stats
                }
            }),
            r matches Some(i) ==> i < old(self).tb_store.tbs@.len() && tb_matches(
                old(self).tb_store.tbs@[i as int],
                pc,
                flags,
            ),
    {
        if let Some(idx) = self.jump_cache.lookup(pc) {
            let tb = self.tb_store.get(idx);
            if !tb.invalid && tb.pc == pc && tb.flags == flags {
                self.stats.jc_hit = bump_count(self.stats.jc_hit);
                return Some(idx);
            }
        }
        if let Some(idx) = self.tb_store.lookup(pc, flags) {
            self.jump_cache.insert(pc, idx);
            self.stats.ht_hit = bump_count(self.stats.ht_hit);
            proof {
                assert forall|k: int| 0 <= k < self.jump_cache.entries@.len() implies (
                #[trigger] self.jump_cache.entries@[k] matches Some(i) ==> i < self.tb_store.tbs@.len()) by {
                    if k != jc_index(pc) {
                        assert(self.jump_cache.entries@[k] == old(self).jump_cache.entries@[k]);
                    }
                }
            }
            return Some(idx);
        }
        None
    }

    /// Start translating a block for `pc` and `flags` (counted as a
    /// translation): refuse when the code buffer is nearly full or the store
    /// is full; else allocate the block and reset the IR context for it.
    pub fn begin_tb(&mut self, pc: u64, flags: u32) -> (r: Option<usize>)
        requires
            old(self).wf(),
        ensures
            final(self).wf(),
            final(self).stats == (ExecStats { translate: bump(old(self).stats.translate), ..old(self).stats }),
            final(self).jump_cache == old(self).jump_cache,
            final(self).code_buf == old(self).code_buf,
            final(self).backend == old(self).backend,
            (old(self).code_buf.data@.len() - old(self).code_buf.offset < MIN_CODE_BUF_REMAINING
                || old(self).tb_store.tbs@.len() >= MAX_TBS) <==> r is None,
            r is None ==> final(self).tb_store == old(self).tb_store && final(self).ir_ctx == old(
                self,
            ).ir_ctx,
            r matches Some(i) ==> {
                &&& i == old(self).tb_store.tbs@.len()
                &&& final(self).tb_store.tbs@.len() == i + 1
                &&& final(self).tb_store.tbs@.subrange(0, i as int) == old(self).tb_store.tbs@
                &&& final(self).tb_store.hash@ == old(self).tb_store.hash@
                &&& final(self).tb_store.tbs@[i as int].pc == pc
                &&& final(self).tb_store.tbs@[i as int].flags == flags
                &&& final(self).tb_store.tbs@[i as int].cflags == 0
                &&& !final(self).tb_store.tbs@[i as int].invalid
                &&& final(self).ir_ctx.tb_idx == i
                &&& final(self).ir_ctx.ops_view().len() == 0
                &&& final(self).ir_ctx.spec_nb_globals() == old(self).ir_ctx.spec_nb_globals()
            },
    {
        self.stats.translate = bump_count(self.stats.translate);
        if self.code_buf.remaining() < MIN_CODE_BUF_REMAINING || self.tb_store.len() >= MAX_TBS {
            return None;
        }
        let idx = self.tb_store.alloc_tb(pc, flags, 0);
        self.ir_ctx.reset();
        self.ir_ctx.tb_idx = idx as u32;
        proof {
            assert forall|k: int| 0 <= k < self.jump_cache.entries@.len() implies (
            #[trigger] self.jump_cache.entries@[k] matches Some(i) ==> i < self.tb_store.tbs@.len()) by {
                assert(old(self).jump_cache.entries@[k] matches Some(i) ==> i < old(self).tb_store.tbs@.len());
            }
        }
        Some(idx)
    }

    /// Finish the block `tb_idx` whose IR the frontend produced from
    /// `guest_size` bytes of guest code: translate it, record its host code
    /// and `goto_tb` offsets, and enter it in the hash table and jump cache.
    pub fn finish_tb(&mut self, tb_idx: usize, guest_size: u32) -> (r: Result<usize, RegAllocError>)
        requires
            old(self).wf(),
            tb_idx < old(self).tb_store.tbs@.len(),
        ensures
            final(self).wf(),
            final(self).stats == old(self).stats,
            final(self).backend == old(self).backend,
            final(self).tb_store.tbs@.len() == old(self).tb_store.tbs@.len(),
            final(self).tb_store.chains@ == old(self).tb_store.chains@,
            final(self).code_buf.data@.len() == old(self).code_buf.data@.len(),
            final(self).code_buf.offset >= old(self).code_buf.offset,
            r is Err ==> final(self).tb_store.hash@ == old(self).tb_store.hash@ && final(self).jump_cache
                == old(self).jump_cache,
            !crate::backend::regalloc::fixed_regs_ok(&old(self).ir_ctx) ==> r == Err::<usize, RegAllocError>(
                RegAllocError::BadTemp,
            ),
            crate::backend::regalloc::fixed_regs_ok(&old(self).ir_ctx) && crate::backend::regalloc::only_markers(
                old(self).ir_ctx.ops_view(),
            ) ==> r == Ok::<usize, RegAllocError>(tb_idx),
            r matches Ok(i) ==> {
                let t = final(self).tb_store.tbs@[tb_idx as int];
                let t0 = old(self).tb_store.tbs@[tb_idx as int];
                &&& i == tb_idx
                &&& t.size == guest_size
                &&& t.host_offset == old(self).code_buf.offset
                &&& t.host_size == final(self).code_buf.offset - old(self).code_buf.offset
                &&& t.pc == t0.pc && t.flags == t0.flags && t.invalid == t0.invalid
                &&& final(self).tb_store.hash@[crate::exec::tb_store::bucket_of(t.pc, t.flags)] == Some(
                    tb_idx,
                )
                &&& t.hash_next == old(self).tb_store.hash@[crate::exec::tb_store::bucket_of(t.pc, t.flags)]
                &&& final(self).jump_cache.entries@ == old(self).jump_cache.entries@.update(
                    jc_index(t.pc),
                    Some(tb_idx),
                )
            },
    {
        self.tb_store.set_size(tb_idx, guest_size);
        let res = translate(&mut self.ir_ctx, &self.backend, &mut self.code_buf);
        match res {
            Err(e) => {
                proof {
                    self.lemma_jc_bound_kept(*old(self));
                }
                Err(e)
            },
            Ok((host_offset, gotos)) => {
                let host_size = self.code_buf.offset() - host_offset;
                self.tb_store.set_host_code(tb_idx, host_offset, host_size, &gotos);
                self.tb_store.insert(tb_idx);
                let pc = self.tb_store.tbs[tb_idx].pc;
                self.jump_cache.insert(pc, tb_idx);
                proof {
                    assert forall|k: int| 0 <= k < self.jump_cache.entries@.len() implies (
                    #[trigger] self.jump_cache.entries@[k] matches Some(i) ==> i < self.tb_store.tbs@.len()) by {
                        assert(old(self).jump_cache.entries@[k] matches Some(i) ==> i < old(
                            self,
                        ).tb_store.tbs@.len());
                        if k != jc_index(pc) {
                            assert(self.jump_cache.entries@[k] == old(self).jump_cache.entries@[k]);
                        }
                    }
                }
                Ok(tb_idx)
            },
        }
    }

    proof fn lemma_jc_bound_kept(&self, before: ExecEnv)
        requires
            before.wf(),
            self.jump_cache == before.jump_cache,
            self.tb_store.tbs@.len() == before.tb_store.tbs@.len(),
        ensures
            forall|k: int|
                0 <= k < self.jump_cache.entries@.len() ==> (#[trigger] self.jump_cache.entries@[k] matches Some(
                    i,
                ) ==> i < self.tb_store.tbs@.len()),
    {
        assert forall|k: int| 0 <= k < self.jump_cache.entries@.len() implies (
        #[trigger] self.jump_cache.entries@[k] matches Some(i) ==> i < self.tb_store.tbs@.len()) by {
            assert(before.jump_cache.entries@[k] matches Some(i) ==> i < before.tb_store.tbs@.len());
        }
    }
}

/// The pushes and pops of `regs` take at most six bytes each.
proof fn lemma_push_pop_len(regs: Seq<crate::backend::regs::Reg>)
    ensures
        push_seq(regs).len() <= 6 * regs.len(),
        pop_seq(regs).len() <= 6 * regs.len(),
    decreases regs.len(),
{
    broadcast use crate::backend::enc::group_enc_len;

    if regs.len() > 0 {
        lemma_push_pop_len(regs.drop_last());
        assert(enc_push(regs.last()).len() <= 6);
        assert(enc_pop(regs.last()).len() <= 6);
    }
}

/// The prologue and epilogue fit in a few hundred bytes.
proof fn lemma_frame_code_len()
    ensures
        prologue_bytes().len() + epilogue_bytes().len() <= 512,
{
    broadcast use crate::backend::enc::group_enc_len;

    lemma_push_pop_len(crate::backend::regs::spec_callee_saved());
}

} // verus!
