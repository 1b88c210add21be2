use vstd::prelude::*;

use crate::backend::code_buffer::{le32, write_at};
use crate::backend::codegen::disp_fits;
use crate::backend::enc::fits_i32;
use crate::exec::env::{bump, bump_count, tb_matches, ExecEnv, ExecStats};
use crate::exec::tb_store::{chain_wf, TbChain, TbStore};
use crate::tb::{decode_tb_exit, spec_decode_tb_exit, TB_EXIT_NOCHAIN};

verus! {

/// Why the execution loop stopped.
#[derive(Debug, Clone, Copy, PartialEq, Eq, Structural)]
pub enum ExitReason {
    /// A block exited with this code.
    Exit(u64),
    /// The code buffer (or the block store) is full; flush and retry.
    BufferFull,
}

/// What to do once the block for the guest's current pc is found.
#[derive(Debug, Clone, Copy, PartialEq, Eq, Structural)]
pub enum Pending {
    /// Nothing.
    Nothing,
    /// Chain slot `slot` of block `src` to it.
    Chain { src: usize, slot: usize },
    /// Remember it as the successor of block `src`'s no-chain exit.
    NoChain { src: usize },
}

/// The decision taken after a block has run.
#[derive(Debug, Clone, Copy, PartialEq, Eq, Structural)]
pub enum ExitAction {
    /// Run this block next.
    Run(usize),
    /// Find the block for the guest's current pc and flags, then resolve.
    Find(Pending),
    /// Leave the loop.
    Stop(ExitReason),
}

/// Whether `target` can be reached from block `cur` by following at most
/// `depth` chained jumps.
pub open spec fn reachable(chains: Seq<TbChain>, cur: usize, target: usize, depth: nat) -> bool
    decreases depth,
{
    cur == target || (depth > 0 && cur < chains.len() && ((chains[cur as int].dest(0) matches Some(
        n,
    ) && reachable(chains, n, target, (depth - 1) as nat)) || (chains[cur as int].dest(1) matches Some(
        n,
    ) && reachable(chains, n, target, (depth - 1) as nat))))
}

/// How far chains are followed when checking for a cycle.
pub const CHAIN_DEPTH: usize = 32;

/// Whether `target` can be reached from `from` within 32 chained jumps.
pub fn chain_reachable(tb_store: &TbStore, from: usize, target: usize) -> (r: bool)
    requires
        tb_store.wf(),
        from < tb_store.tbs@.len(),
    ensures
        r == reachable(tb_store.chains@, from, target, CHAIN_DEPTH as nat),
{
    walk(tb_store, from, target, CHAIN_DEPTH)
}

fn walk(tb_store: &TbStore, cur: usize, target: usize, depth: usize) -> (r: bool)
    requires
        tb_store.wf(),
        cur < tb_store.tbs@.len(),
    ensures
        r == reachable(tb_store.chains@, cur, target, depth as nat),
    decreases depth,
{
    if cur == target {
        return true;
    }
    if depth == 0 {
        return false;
    }
    assert(chain_wf(tb_store.chains@[cur as int], tb_store.tbs@.len() as int));
    let c = &tb_store.chains[cur];
    let mut slot: usize = 0;
    while slot < 2
        invariant
            tb_store.wf(),
            cur < tb_store.tbs@.len(),
            *c == tb_store.chains@[cur as int],
            chain_wf(*c, tb_store.tbs@.len() as int),
            cur != target,
            depth > 0,
            slot <= 2,
            forall|s: int|
                0 <= s < slot ==> !(#[trigger] c.dest(s) matches Some(n) && reachable(
                    tb_store.chains@,
                    n,
                    target,
                    (depth - 1) as nat,
                )),
        decreases 2 - slot,
    {
        assert(c.dest(slot as int) matches Some(d) ==> d < tb_store.tbs@.len());
        if let Some(next) = c.jmp_dest[slot] {
            if walk(tb_store, next, target, depth - 1) {
                return true;
            }
        }
        slot = slot + 1;
    }
    assert(!(c.dest(0) matches Some(n) && reachable(tb_store.chains@, n, target, (depth - 1) as nat)));
    assert(!(c.dest(1) matches Some(n) && reachable(tb_store.chains@, n, target, (depth - 1) as nat)));
    false
}

/// The block whose exit the raw exit value `raw` reports, when block
/// `tb_idx` was entered.
pub open spec fn exit_source(raw: u64, tb_idx: usize) -> usize {
    match spec_decode_tb_exit(raw).0 {
        Some(i) => i,
        None => tb_idx,
    }
}

impl ExecEnv {
    /// Start an iteration of the loop: count it, and run the block chosen
    /// by the previous iteration, if any.
    pub fn next_block(&mut self, hint: Option<usize>) -> (r: Option<usize>)
        ensures
            r == hint,
            final(self).stats == (ExecStats {
                loop_iters: bump(old(self).stats.loop_iters),
                hint_used: if hint is Some {
                    bump(old(self).stats.hint_used)
                } else {
                    old(self).stats.hint_used
                },
                ..old(self).stats
            }),
            final(self).tb_store == old(self).tb_store,
            final(self).jump_cache == old(self).jump_cache,
            final(self).code_buf == old(self).code_buf,
            final(self).backend == old(self).backend,
            final(self).ir_ctx == old(self).ir_ctx,
    {
        self.stats.loop_iters = bump_count(self.stats.loop_iters);
        if hint.is_some() {
            self.stats.hint_used = bump_count(self.stats.hint_used);
        }
        hint
    }

    /// Decide what follows the run of block `tb_idx` that returned `raw`,
    /// the guest being at `pc` with `flags`: an exit through a `goto_tb`
    /// slot goes to the slot's cached destination when chaining it was
    /// refused and that block still matches, else asks for a lookup that
    /// chains the slot; a no-chain exit goes to the block's cached successor
    /// when it matches, else asks for a lookup that caches it; any other
    /// code stops the loop.
    pub fn handle_exit(&mut self, tb_idx: usize, raw: u64, pc: u64, flags: u32) -> (r: ExitAction)
        requires
            old(self).wf(),
        ensures
            final(self).wf(),
            final(self).tb_store == old(self).tb_store,
            final(self).jump_cache == old(self).jump_cache,
            final(self).code_buf == old(self).code_buf,
            final(self).backend == old(self).backend,
            final(self).ir_ctx == old(self).ir_ctx,
            ({
                let code = spec_decode_tb_exit(raw).1;
                let src = exit_source(raw, tb_idx);
                let st = old(self).stats;
                let tbs = old(self).tb_store.tbs@;
                let chains = old(self).tb_store.chains@;
                if code == 0 || code == 1 {
                    let slot = code as int;
                    &&& final(self).stats.chain_exit@ == st.chain_exit@.update(slot, bump(st.chain_exit@[slot]))
                    &&& final(self).stats == (ExecStats { chain_exit: final(self).stats.chain_exit, ..st })
                    &&& if src >= tbs.len() {
                        r == ExitAction::Find(Pending::Nothing)
                    } else if chains[src as int].nochain(slot) && chains[src as int].dest(slot) is Some
                        && tb_matches(tbs[chains[src as int].dest(slot)->0 as int], pc, flags) {
                        r == ExitAction::Run(chains[src as int].dest(slot)->0)
                    } else {
                        r == ExitAction::Find(Pending::Chain { src, slot: slot as usize })
                    }
                } else if code == TB_EXIT_NOCHAIN {
                    &&& final(self).stats == (ExecStats { nochain_exit: bump(st.nochain_exit), ..st })
                    &&& if src >= tbs.len() {
                        r == ExitAction::Find(Pending::Nothing)
                    } else if chains[src as int].exit_target is Some && tb_matches(
                        tbs[chains[src as int].exit_target->0 as int],
                        pc,
                        flags,
                    ) {
                        r == ExitAction::Run(chains[src as int].exit_target->0)
                    } else {
                        r == ExitAction::Find(Pending::NoChain { src })
                    }
                } else {
                    &&& final(self).stats == (ExecStats { real_exit: bump(st.real_exit), ..st })
                    &&& r == ExitAction::Stop(ExitReason::Exit(code))
                }
            }),
            r matches ExitAction::Run(d) ==> d < old(self).tb_store.tbs@.len(),
    {
        let (last, code) = decode_tb_exit(raw);
        let src = match last {
            Some(i) => i,
            None => tb_idx,
        };
        if code == 0 || code == 1 {
            let slot = code as usize;
            let n = self.stats.chain_exit[slot];
            self.stats.chain_exit[slot] = bump_count(n);
            if src >= self.tb_store.len() {
                return ExitAction::Find(Pending::Nothing);
            }
            assert(chain_wf(self.tb_store.chains@[src as int], self.tb_store.tbs@.len() as int));
            let c = &self.tb_store.chains[src];
            if c.jmp_nochain[slot] {
                if let Some(dst) = c.jmp_dest[slot] {
                    let d = &self.tb_store.tbs[dst];
                    if !d.invalid && d.pc == pc && d.flags == flags {
                        return ExitAction::Run(dst);
                    }
                }
            }
            ExitAction::Find(Pending::Chain { src, slot })
        } else if code == TB_EXIT_NOCHAIN {
            self.stats.nochain_exit = bump_count(self.stats.nochain_exit);
            if src >= self.tb_store.len() {
                return ExitAction::Find(Pending::Nothing);
            }
            assert(chain_wf(self.tb_store.chains@[src as int], self.tb_store.tbs@.len() as int));
            if let Some(dst) = self.tb_store.chains[src].exit_target {
                let d = &self.tb_store.tbs[dst];
                if !d.invalid && d.pc == pc && d.flags == flags {
                    return ExitAction::Run(dst);
                }
            }
            ExitAction::Find(Pending::NoChain { src })
        } else {
            self.stats.real_exit = bump_count(self.stats.real_exit);
            ExitAction::Stop(ExitReason::Exit(code))
        }
    }

    /// Apply what was pending now that block `dst` was found, and return it
    /// as the next block to run: chain the slot unless `dst` already reaches
    /// the source (then mark the slot as refused, remembering `dst`), or
    /// cache `dst` as the source's no-chain successor.
    pub fn resolve(&mut self, pending: Pending, dst: usize) -> (r: usize)
        requires
            old(self).wf(),
            dst < old(self).tb_store.tbs@.len(),
        ensures
            final(self).wf(),
            r == dst,
            final(self).tb_store.tbs@ == old(self).tb_store.tbs@,
            final(self).tb_store.hash@ == old(self).tb_store.hash@,
            final(self).jump_cache == old(self).jump_cache,
            final(self).backend == old(self).backend,
            final(self).ir_ctx == old(self).ir_ctx,
            final(self).code_buf.offset == old(self).code_buf.offset,
            final(self).code_buf.data@.len() == old(self).code_buf.data@.len(),
            match pending {
                Pending::Chain { src, slot } => if src < old(self).tb_store.tbs@.len() && slot < 2 {
                    if reachable(old(self).tb_store.chains@, dst, src, CHAIN_DEPTH as nat) {
                        &&& final(self).stats == (ExecStats { chain_cycle: bump(old(self).stats.chain_cycle), ..old(self).stats })
                        &&& final(self).code_buf == old(self).code_buf
                        &&& final(self).tb_store.chains@.len() == old(self).tb_store.chains@.len()
                        &&& final(self).tb_store.chains@[src as int].dest(slot as int) == Some(dst)
                        &&& final(self).tb_store.chains@[src as int].nochain(slot as int)
                    } else {
                        final(self).added_jump(*old(self), src, slot, dst)
                    }
                } else {
                    final(self).tb_store == old(self).tb_store && final(self).stats == old(self).stats
                        && final(self).code_buf == old(self).code_buf
                },
                Pending::NoChain { src } => if src < old(self).tb_store.tbs@.len() {
                    &&& final(self).tb_store.chains@.len() == old(self).tb_store.chains@.len()
                    &&& final(self).tb_store.chains@[src as int].exit_target == Some(dst)
                    &&& final(self).stats == old(self).stats
                    &&& final(self).code_buf == old(self).code_buf
                } else {
                    final(self).tb_store == old(self).tb_store && final(self).stats == old(self).stats
                        && final(self).code_buf == old(self).code_buf
                },
                Pending::Nothing => final(self).tb_store == old(self).tb_store && final(self).stats == old(
                    self,
                ).stats && final(self).code_buf == old(self).code_buf,
            },
    {
        match pending {
            Pending::Chain { src, slot } => {
                if src < self.tb_store.len() && slot < 2 {
                    if !chain_reachable(&self.tb_store, dst, src) {
                        self.tb_add_jump(src, slot, dst);
                    } else {
                        self.stats.chain_cycle = bump_count(self.stats.chain_cycle);
                        self.tb_store.refuse_chain(src, slot, dst);
                    }
                }
            },
            Pending::NoChain { src } => {
                if src < self.tb_store.len() {
                    self.tb_store.set_exit_target(src, dst);
                }
            },
            Pending::Nothing => {},
        }
        dst
    }

    /// `self` is `before` after `tb_add_jump(src, slot, dst)`: nothing
    /// changes when the slot has no jump, `dst` is invalid, or its jump
    /// cannot reach `dst`; a slot already chained to `dst` is only counted;
    /// else the slot's jump is patched to `dst`'s code and both blocks record
    /// the link.
    pub open spec fn added_jump(&self, before: ExecEnv, src: usize, slot: usize, dst: usize) -> bool {
        let tbs = before.tb_store.tbs@;
        let chains = before.tb_store.chains@;
        let j = tbs[src as int].jmp_insn_offset@[slot as int];
        let target = tbs[dst as int].host_offset;
        &&& self.tb_store.tbs@ == tbs
        &&& self.tb_store.hash@ == before.tb_store.hash@
        &&& self.code_buf.offset == before.code_buf.offset
        &&& if j is None || tbs[dst as int].invalid {
            &&& self.tb_store == before.tb_store
            &&& self.stats == before.stats
            &&& self.code_buf == before.code_buf
        } else if chains[src as int].dest(slot as int) == Some(dst) {
            &&& self.tb_store == before.tb_store
            &&& self.stats == (ExecStats { chain_already: bump(before.stats.chain_already), ..before.stats })
            &&& self.code_buf == before.code_buf
        } else if !(j->0 + 5 <= before.code_buf.data@.len() && fits_i32(target - (j->0 + 5))) {
            &&& self.tb_store == before.tb_store
            &&& self.stats == before.stats
            &&& self.code_buf == before.code_buf
        } else {
            &&& self.code_buf.data@ == write_at(
                before.code_buf.data@,
                j->0 + 1,
                le32((target - (j->0 + 5)) as u32),
            )
            &&& self.stats == (ExecStats { chain_patched: bump(before.stats.chain_patched), ..before.stats })
            &&& self.tb_store.chains@.len() == chains.len()
            &&& self.tb_store.chains@[src as int].dest(slot as int) == Some(dst)
            &&& self.tb_store.chains@[dst as int].incoming() == chains[dst as int].incoming().push((src, slot))
            &&& forall|k: int| 0 <= k < chains.len() && k != src && k != dst ==> #[trigger] self.tb_store.chains@[k] == chains[k]
        }
    }

    /// Chain slot `slot` of block `src` directly to block `dst`.
    pub fn tb_add_jump(&mut self, src: usize, slot: usize, dst: usize)
        requires
            old(self).wf(),
            src < old(self).tb_store.tbs@.len(),
            dst < old(self).tb_store.tbs@.len(),
            slot < 2,
        ensures
            final(self).wf(),
            final(self).added_jump(*old(self), src, slot, dst),
            final(self).jump_cache == old(self).jump_cache,
            final(self).backend == old(self).backend,
            final(self).ir_ctx == old(self).ir_ctx,
            final(self).code_buf.data@.len() == old(self).code_buf.data@.len(),
    {
        let jmp_off = match self.tb_store.tbs[src].jmp_insn_offset[slot] {
            Some(off) => off as usize,
            None => {
                return;
            },
        };
        if self.tb_store.tbs[dst].invalid {
            return;
        }
        assert(chain_wf(self.tb_store.chains@[src as int], self.tb_store.tbs@.len() as int));
        if let Some(d) = self.tb_store.chains[src].jmp_dest[slot] {
            if d == dst {
                self.stats.chain_already = bump_count(self.stats.chain_already);
                return;
            }
        }
        let abs_dst = self.tb_store.tbs[dst].host_offset;
        let n = self.code_buf.data.len();
        if !(jmp_off < n && n - jmp_off >= 5 && disp_fits(abs_dst, jmp_off + 5)) {
            return;
        }
        self.backend.patch_jump(&mut self.code_buf, jmp_off, abs_dst);
        self.tb_store.add_link(src, slot, dst);
        self.stats.chain_patched = bump_count(self.stats.chain_patched);
    }
}

} // verus!
