use vstd::prelude::*;

use crate::backend::code_buffer::{le32, write_at, CodeBuffer};
use crate::backend::codegen::{disp_fits, X86_64CodeGen};
use crate::backend::enc::fits_i32;
use crate::exec::env::goto_field;
use crate::tb::{tb_hash_raw, TranslationBlock, TB_HASH_SIZE};

verus! {

/// Most blocks a store holds.
pub const MAX_TBS: usize = 65536;

/// How a block is chained to other blocks.
pub struct TbChain {
    /// The block each `goto_tb` slot has been pointed at.
    pub jmp_dest: [Option<usize>; 2],
    /// The jumps chained into this block, as (source block, slot).
    pub jmp_list: Vec<(usize, usize)>,
    /// Slots left unpatched because chaining them would close a cycle.
    pub jmp_nochain: [bool; 2],
    /// The block last found after a no-chain exit of this block.
    pub exit_target: Option<usize>,
}

impl TbChain {
    /// The block slot `s` points at.
    pub open spec fn dest(&self, s: int) -> Option<usize> {
        self.jmp_dest@[s]
    }

    /// Whether slot `s` was refused chaining.
    pub open spec fn nochain(&self, s: int) -> bool {
        self.jmp_nochain@[s]
    }

    /// The incoming chained jumps.
    pub open spec fn incoming(&self) -> Seq<(usize, usize)> {
        self.jmp_list@
    }

    /// Forget where slot `slot` points.
    pub fn clear_dest(&mut self, slot: usize)
        requires
            slot < 2,
        ensures
            final(self).jmp_dest@ == old(self).jmp_dest@.update(slot as int, None),
            final(self).jmp_list == old(self).jmp_list,
            final(self).jmp_nochain == old(self).jmp_nochain,
            final(self).exit_target == old(self).exit_target,
    {
        self.jmp_dest[slot] = None;
    }

    /// Drop the incoming jump (`src`, `slot`).
    pub fn remove_link(&mut self, src: usize, slot: usize)
        ensures
            final(self).jmp_list@ == old(self).jmp_list@.filter(keep_link(src, slot)),
            final(self).jmp_dest == old(self).jmp_dest,
            final(self).jmp_nochain == old(self).jmp_nochain,
            final(self).exit_target == old(self).exit_target,
    {
        let ghost l = self.jmp_list@;
        let ghost p = keep_link(src, slot);
        let mut out: Vec<(usize, usize)> = Vec::new();
        let mut k: usize = 0;
        while k < self.jmp_list.len()
            invariant
                self.jmp_list@ == l,
                p == keep_link(src, slot),
                k <= l.len(),
                out@ == l.subrange(0, k as int).filter(p),
            decreases l.len() - k,
        {
            let e = self.jmp_list[k];
            proof {
                assert(l.subrange(0, k + 1) =~= l.subrange(0, k as int) + seq![e]);
                Seq::filter_distributes_over_add(l.subrange(0, k as int), seq![e], p);
                reveal_with_fuel(Seq::filter, 2);
                assert(seq![e].drop_last() =~= Seq::<(usize, usize)>::empty());
                assert(Seq::<(usize, usize)>::empty().filter(p) =~= Seq::<(usize, usize)>::empty());
                assert(p(e) == !(e.0 == src && e.1 == slot));
                if p(e) {
                    assert(seq![e].filter(p) =~= seq![e]);
                } else {
                    assert(seq![e].filter(p) =~= Seq::<(usize, usize)>::empty());
                }
            }
            let ghost before = out@;
            if !(e.0 == src && e.1 == slot) {
                out.push(e);
                assert(out@ =~= before + seq![e].filter(p));
            } else {
                assert(out@ =~= before + seq![e].filter(p));
            }
            k = k + 1;
        }
        proof {
            assert(l.subrange(0, l.len() as int) =~= l);
        }
        self.jmp_list = out;
    }

    /// Point slot `slot` at block `d`.
    pub fn set_dest(&mut self, slot: usize, d: usize)
        requires
            slot < 2,
        ensures
            final(self).jmp_dest@ == old(self).jmp_dest@.update(slot as int, Some(d)),
            final(self).jmp_list == old(self).jmp_list,
            final(self).jmp_nochain == old(self).jmp_nochain,
            final(self).exit_target == old(self).exit_target,
    {
        self.jmp_dest[slot] = Some(d);
    }

    /// Mark slot `slot` as refused chaining, pointing at block `d`.
    pub fn set_nochain(&mut self, slot: usize, d: usize)
        requires
            slot < 2,
        ensures
            final(self).jmp_dest@ == old(self).jmp_dest@.update(slot as int, Some(d)),
            final(self).jmp_nochain@ == old(self).jmp_nochain@.update(slot as int, true),
            final(self).jmp_list == old(self).jmp_list,
            final(self).exit_target == old(self).exit_target,
    {
        self.jmp_dest[slot] = Some(d);
        self.jmp_nochain[slot] = true;
    }

    /// Record the incoming jump `e`.
    pub fn push_link(&mut self, e: (usize, usize))
        ensures
            final(self).jmp_list@ == old(self).jmp_list@.push(e),
            final(self).jmp_dest == old(self).jmp_dest,
            final(self).jmp_nochain == old(self).jmp_nochain,
            final(self).exit_target == old(self).exit_target,
    {
        self.jmp_list.push(e);
    }

    /// A block with no chaining.
    pub fn new() -> (c: Self)
        ensures
            c.dest(0) is None && c.dest(1) is None,
            !c.nochain(0) && !c.nochain(1),
            c.incoming().len() == 0,
            c.exit_target is None,
    {
        TbChain { jmp_dest: [None, None], jmp_list: Vec::new(), jmp_nochain: [false, false], exit_target: None }
    }
}

/// The hash bucket of a guest pc and flags.
pub open spec fn bucket_of(pc: u64, flags: u32) -> int {
    (tb_hash_raw(pc, flags) % (TB_HASH_SIZE as u64)) as int
}

/// Every block index in a chain record is below `n`.
pub open spec fn chain_wf(c: TbChain, n: int) -> bool {
    &&& c.jmp_dest@.len() == 2
    &&& c.jmp_nochain@.len() == 2
    &&& forall|s: int| 0 <= s < 2 ==> (#[trigger] c.dest(s) matches Some(d) ==> d < n)
    &&& forall|k: int|
        0 <= k < c.incoming().len() ==> (#[trigger] c.incoming()[k]).0 < n && c.incoming()[k].1 < 2
    &&& c.exit_target matches Some(d) ==> d < n
}

/// The first valid block matching `pc` and `flags` on the hash chain that
/// starts at `cur`, following at most `fuel` links.
pub open spec fn find_in_chain(
    tbs: Seq<TranslationBlock>,
    cur: Option<usize>,
    fuel: nat,
    pc: u64,
    flags: u32,
) -> Option<usize>
    decreases fuel,
{
    match cur {
        None => None,
        Some(i) => if fuel == 0 || i >= tbs.len() {
            None
        } else if !tbs[i as int].invalid && tbs[i as int].pc == pc && tbs[i as int].flags == flags {
            Some(i)
        } else {
            find_in_chain(tbs, tbs[i as int].hash_next, (fuel - 1) as nat, pc, flags)
        },
    }
}

/// Where `target` sits on the hash chain that starts at `cur` (whose
/// predecessor is `prev`), following at most `fuel` links: `None` when it
/// is not met, else the block before it (`None` for the chain's head).
pub open spec fn chain_pred(
    tbs: Seq<TranslationBlock>,
    prev: Option<usize>,
    cur: Option<usize>,
    fuel: nat,
    target: usize,
) -> Option<Option<usize>>
    decreases fuel,
{
    match cur {
        None => None,
        Some(i) => if fuel == 0 || i >= tbs.len() {
            None
        } else if i == target {
            Some(prev)
        } else {
            chain_pred(tbs, Some(i), tbs[i as int].hash_next, (fuel - 1) as nat, target)
        },
    }
}

/// `t` marked invalid.
pub open spec fn invalidated(t: TranslationBlock) -> TranslationBlock {
    TranslationBlock { invalid: true, ..t }
}

/// `t` with its hash link set to `next`.
pub open spec fn relinked(t: TranslationBlock, next: Option<usize>) -> TranslationBlock {
    TranslationBlock { hash_next: next, ..t }
}

/// The code buffer after the jump of slot `slot` of `tb` is pointed back
/// at its reset offset (when the block has both offsets and they fit).
pub open spec fn reset_one(data: Seq<u8>, tb: TranslationBlock, slot: int) -> Seq<u8> {
    match (tb.jmp_insn_offset@[slot], tb.jmp_reset_offset@[slot]) {
        (Some(j), Some(r)) => if j + 5 <= data.len() && fits_i32(r - (j + 5)) {
            write_at(data, j + 1, le32((r - (j + 5)) as u32))
        } else {
            data
        },
        _ => data,
    }
}

/// The code buffer after the first `n` jumps of `links` are reset.
pub open spec fn reset_all(
    data: Seq<u8>,
    tbs: Seq<TranslationBlock>,
    links: Seq<(usize, usize)>,
    n: nat,
) -> Seq<u8>
    decreases n,
{
    if n == 0 {
        data
    } else {
        let e = links[n - 1];
        reset_one(reset_all(data, tbs, links, (n - 1) as nat), tbs[e.0 as int], e.1 as int)
    }
}

/// Keeps every link but (`src`, `slot`).
pub open spec fn keep_link(src: usize, slot: usize) -> spec_fn((usize, usize)) -> bool {
    |e: (usize, usize)| !(e.0 == src && e.1 == slot)
}

/// `list` without the link (`src`, `slot`) when `cond` holds.
pub open spec fn strip_link(list: Seq<(usize, usize)>, src: usize, slot: usize, cond: bool) -> Seq<
    (usize, usize),
> {
    if cond {
        list.filter(keep_link(src, slot))
    } else {
        list
    }
}

/// Where slot `s` of block `i` points once the jumps chained into `i` are
/// unlinked (a slot chained into `i` itself no longer points anywhere).
pub open spec fn out_dest(chains: Seq<TbChain>, i: int, s: int) -> Option<usize> {
    if chains[i].incoming().contains((i as usize, s as usize)) {
        None
    } else {
        chains[i].dest(s)
    }
}

/// Where slot `s` of block `k` points once block `i` is unlinked: nowhere
/// for `i` itself and for the jumps chained into `i`.
pub open spec fn dest_after_unlink(chains: Seq<TbChain>, i: int, k: int, s: int) -> Option<usize> {
    if k == i || chains[i].incoming().contains((k as usize, s as usize)) {
        None
    } else {
        chains[k].dest(s)
    }
}

/// The jumps chained into block `k` once block `i` is unlinked: none for
/// `i` itself; for the others, the jumps of `i`'s slots drop out.
pub open spec fn incoming_after_unlink(chains: Seq<TbChain>, i: int, k: int) -> Seq<(usize, usize)> {
    strip_link(
        strip_link(
            if k == i {
                Seq::<(usize, usize)>::empty()
            } else {
                chains[k].incoming()
            },
            i as usize,
            0,
            out_dest(chains, i, 0) == Some(k as usize),
        ),
        i as usize,
        1,
        out_dest(chains, i, 1) == Some(k as usize),
    )
}

/// Storage of translation blocks with a hash table from (pc, flags) to
/// blocks; each bucket is a chain linked through the blocks' `hash_next`.
pub struct TbStore {
    pub tbs: Vec<TranslationBlock>,
    pub chains: Vec<TbChain>,
    pub hash: Vec<Option<usize>>,
}

impl TbStore {
    pub open spec fn wf(&self) -> bool {
        &&& self.tbs@.len() == self.chains@.len()
        &&& self.tbs@.len() <= MAX_TBS
        &&& self.hash@.len() == TB_HASH_SIZE
        &&& forall|b: int|
            0 <= b < TB_HASH_SIZE ==> (#[trigger] self.hash@[b] matches Some(i) ==> i < self.tbs@.len())
        &&& forall|i: int|
            0 <= i < self.tbs@.len() ==> (#[trigger] self.tbs@[i].hash_next matches Some(j) ==> j
                < self.tbs@.len())
        &&& forall|i: int|
            0 <= i < self.chains@.len() ==> chain_wf(#[trigger] self.chains@[i], self.tbs@.len() as int)
    }

    /// `self` is `before` with block `i` put at the head of its bucket.
    pub open spec fn inserted(&self, before: TbStore, i: usize) -> bool {
        let t = before.tbs@[i as int];
        let b = bucket_of(t.pc, t.flags);
        &&& self.tbs@ == before.tbs@.update(i as int, relinked(t, before.hash@[b]))
        &&& self.hash@ == before.hash@.update(b, Some(i))
        &&& self.chains@ == before.chains@
    }

    /// The block found for (`pc`, `flags`) by a lookup.
    pub open spec fn spec_lookup(&self, pc: u64, flags: u32) -> Option<usize> {
        find_in_chain(self.tbs@, self.hash@[bucket_of(pc, flags)], self.tbs@.len(), pc, flags)
    }

    /// An empty store.
    pub fn new() -> (s: Self)
        ensures
            s.wf(),
            s.tbs@.len() == 0,
            forall|b: int| 0 <= b < TB_HASH_SIZE ==> #[trigger] s.hash@[b] is None,
    {
        let mut hash: Vec<Option<usize>> = Vec::new();
        let mut i: usize = 0;
        while i < TB_HASH_SIZE
            invariant
                i <= TB_HASH_SIZE,
                hash@.len() == i,
                forall|b: int| 0 <= b < i ==> #[trigger] hash@[b] is None,
            decreases TB_HASH_SIZE - i,
        {
            hash.push(None);
            i = i + 1;
        }
        TbStore { tbs: Vec::new(), chains: Vec::new(), hash }
    }

    /// Add a fresh block for (`pc`, `flags`, `cflags`) and return its index.
    pub fn alloc_tb(&mut self, pc: u64, flags: u32, cflags: u32) -> (r: usize)
        requires
            old(self).wf(),
            old(self).tbs@.len() < MAX_TBS,
        ensures
            final(self).wf(),
            r == old(self).tbs@.len(),
            final(self).tbs@.len() == r + 1,
            final(self).tbs@.subrange(0, r as int) == old(self).tbs@,
            final(self).chains@.subrange(0, r as int) == old(self).chains@,
            final(self).hash@ == old(self).hash@,
            final(self).tbs@[r as int].pc == pc,
            final(self).tbs@[r as int].flags == flags,
            final(self).tbs@[r as int].cflags == cflags,
            !final(self).tbs@[r as int].invalid,
            final(self).tbs@[r as int].hash_next is None,
            final(self).tbs@[r as int].jmp_insn_offset@ == seq![None::<u32>, None::<u32>],
            final(self).tbs@[r as int].jmp_reset_offset@ == seq![None::<u32>, None::<u32>],
            final(self).chains@[r as int].dest(0) is None,
            final(self).chains@[r as int].dest(1) is None,
            !final(self).chains@[r as int].nochain(0),
            !final(self).chains@[r as int].nochain(1),
            final(self).chains@[r as int].incoming().len() == 0,
            final(self).chains@[r as int].exit_target is None,
    {
        let idx = self.tbs.len();
        self.tbs.push(TranslationBlock::new(pc, flags, cflags));
        self.chains.push(TbChain::new());
        proof {
            assert(self.tbs@.subrange(0, idx as int) =~= old(self).tbs@);
            assert(self.chains@.subrange(0, idx as int) =~= old(self).chains@);
            assert forall|i: int| 0 <= i < self.chains@.len() implies chain_wf(
                #[trigger] self.chains@[i],
                self.tbs@.len() as int,
            ) by {
                if i < idx {
                    assert(self.chains@[i] == old(self).chains@[i]);
                    assert(chain_wf(old(self).chains@[i], idx as int));
                }
            }
            assert forall|i: int| 0 <= i < self.tbs@.len() implies (#[trigger] self.tbs@[i].hash_next matches Some(
                j,
            ) ==> j < self.tbs@.len()) by {
                if i < idx {
                    assert(self.tbs@[i] == old(self).tbs@[i]);
                }
            }
        }
        idx
    }

    /// The block at `idx`.
    pub fn get(&self, idx: usize) -> (r: &TranslationBlock)
        requires
            idx < self.tbs@.len(),
        ensures
            *r == self.tbs@[idx as int],
    {
        &self.tbs[idx]
    }

    /// Find a valid block for (`pc`, `flags`) on its hash chain.
    pub fn lookup(&self, pc: u64, flags: u32) -> (r: Option<usize>)
        requires
            self.wf(),
        ensures
            r == self.spec_lookup(pc, flags),
            r matches Some(i) ==> i < self.tbs@.len() && !self.tbs@[i as int].invalid
                && self.tbs@[i as int].pc == pc && self.tbs@[i as int].flags == flags,
    {
        let b = TranslationBlock::hash(pc, flags);
        let mut cur = self.hash[b];
        let mut fuel = self.tbs.len();
        proof {
            lemma_find_in_chain_matches(self.tbs@, cur, fuel as nat, pc, flags);
        }
        while fuel > 0
            invariant
                self.wf(),
                b == bucket_of(pc, flags),
                fuel <= self.tbs@.len(),
                cur matches Some(i) ==> i < self.tbs@.len(),
                find_in_chain(self.tbs@, cur, fuel as nat, pc, flags) == self.spec_lookup(pc, flags),
            decreases fuel,
        {
            match cur {
                None => {
                    return None;
                },
                Some(i) => {
                    let tb = &self.tbs[i];
                    if !tb.invalid && tb.pc == pc && tb.flags == flags {
                        return Some(i);
                    }
                    cur = tb.hash_next;
                    fuel = fuel - 1;
                },
            }
        }
        None
    }

    /// Put block `tb_idx` at the head of its hash bucket.
    pub fn insert(&mut self, tb_idx: usize)
        requires
            old(self).wf(),
            tb_idx < old(self).tbs@.len(),
        ensures
            final(self).wf(),
            final(self).inserted(*old(self), tb_idx),
    {
        let pc = self.tbs[tb_idx].pc;
        let flags = self.tbs[tb_idx].flags;
        let b = TranslationBlock::hash(pc, flags);
        let head = self.hash[b];
        self.tbs[tb_idx].hash_next = head;
        self.hash.set(b, Some(tb_idx));
        proof {
            assert forall|i: int| 0 <= i < self.tbs@.len() implies (#[trigger] self.tbs@[i].hash_next matches Some(
                j,
            ) ==> j < self.tbs@.len()) by {
                if i != tb_idx {
                    assert(self.tbs@[i] == old(self).tbs@[i]);
                }
            }
            assert forall|b2: int| 0 <= b2 < TB_HASH_SIZE implies (#[trigger] self.hash@[b2] matches Some(
                i,
            ) ==> i < self.tbs@.len()) by {
                if b2 != b {
                    assert(self.hash@[b2] == old(self).hash@[b2]);
                }
            }
            assert forall|i: int| 0 <= i < self.chains@.len() implies chain_wf(
                #[trigger] self.chains@[i],
                self.tbs@.len() as int,
            ) by {
                assert(self.chains@[i] == old(self).chains@[i]);
            }
        }
    }

    /// Point the jump of slot `slot` of block `src` back at its reset offset.
    fn reset_jump(&self, src: usize, slot: usize, buf: &mut CodeBuffer, backend: &X86_64CodeGen)
        requires
            src < self.tbs@.len(),
            slot < 2,
            old(buf).wf(),
        ensures
            final(buf).wf(),
            final(buf).offset == old(buf).offset,
            final(buf).data@ == reset_one(old(buf).data@, self.tbs@[src as int], slot as int),
    {
        let jo = self.tbs[src].jmp_insn_offset[slot];
        let ro = self.tbs[src].jmp_reset_offset[slot];
        match (jo, ro) {
            (Some(j), Some(r)) => {
                let j = j as usize;
                let r = r as usize;
                let n = buf.data.len();
                if j < n && n - j >= 5 && disp_fits(r, j + 5) {
                    backend.patch_jump(buf, j, r);
                }
            },
            _ => {},
        }
    }

    /// Unlink the jumps chained into block `i`: point each back at its
    /// reset offset and forget where its slot pointed.
    fn unlink_incoming(&mut self, i: usize, buf: &mut CodeBuffer, backend: &X86_64CodeGen)
        requires
            old(self).wf(),
            i < old(self).tbs@.len(),
            old(buf).wf(),
        ensures
            final(self).wf(),
            final(self).tbs@ == old(self).tbs@,
            final(self).hash@ == old(self).hash@,
            final(self).chains@.len() == old(self).chains@.len(),
            forall|k: int, s: int|
                0 <= k < old(self).chains@.len() && 0 <= s < 2 ==> #[trigger] final(self).chains@[k].dest(s)
                    == if old(self).chains@[i as int].incoming().contains((k as usize, s as usize)) {
                    None
                } else {
                    old(self).chains@[k].dest(s)
                },
            forall|k: int|
                0 <= k < old(self).chains@.len() ==> #[trigger] final(self).chains@[k].incoming() == if k
                    == i {
                    Seq::<(usize, usize)>::empty()
                } else {
                    old(self).chains@[k].incoming()
                },
            forall|k: int|
                0 <= k < old(self).chains@.len() ==> (#[trigger] final(self).chains@[k]).jmp_nochain
                    == old(self).chains@[k].jmp_nochain && final(self).chains@[k].exit_target == old(
                    self,
                ).chains@[k].exit_target,
            final(buf).wf(),
            final(buf).offset == old(buf).offset,
            final(buf).data@ == reset_all(
                old(buf).data@,
                old(self).tbs@,
                old(self).chains@[i as int].incoming(),
                old(self).chains@[i as int].incoming().len(),
            ),
    {
        let ghost links = old(self).chains@[i as int].incoming();
        let mut list: Vec<(usize, usize)> = Vec::new();
        core::mem::swap(&mut list, &mut self.chains[i].jmp_list);
        assert(list@ == links);
        assert(chain_wf(old(self).chains@[i as int], old(self).tbs@.len() as int));
        let mut k: usize = 0;
        while k < list.len()
            invariant
                old(self).wf(),
                list@ == links,
                forall|m: int| 0 <= m < links.len() ==> (#[trigger] links[m]).0 < old(self).tbs@.len() && links[m].1 < 2,
                i < old(self).tbs@.len(),
                k <= list@.len(),
                self.tbs@ == old(self).tbs@,
                self.hash@ == old(self).hash@,
                self.chains@.len() == old(self).chains@.len(),
                forall|k2: int, s: int|
                    0 <= k2 < old(self).chains@.len() && 0 <= s < 2 ==> #[trigger] self.chains@[k2].dest(s)
                        == if links.subrange(0, k as int).contains((k2 as usize, s as usize)) {
                        None
                    } else {
                        old(self).chains@[k2].dest(s)
                    },
                forall|k2: int|
                    0 <= k2 < old(self).chains@.len() ==> #[trigger] self.chains@[k2].incoming() == if k2
                        == i {
                        Seq::<(usize, usize)>::empty()
                    } else {
                        old(self).chains@[k2].incoming()
                    },
                forall|k2: int|
                    0 <= k2 < old(self).chains@.len() ==> (#[trigger] self.chains@[k2]).jmp_nochain
                        == old(self).chains@[k2].jmp_nochain && self.chains@[k2].exit_target == old(
                        self,
                    ).chains@[k2].exit_target,
                forall|k2: int|
                    0 <= k2 < old(self).chains@.len() ==> (#[trigger] self.chains@[k2]).jmp_dest@.len() == 2,
                buf.wf(),
                buf.offset == old(buf).offset,
                buf.data@ == reset_all(old(buf).data@, old(self).tbs@, links, k as nat),
            decreases list@.len() - k,
        {
            let (src, slot) = list[k];
            assert(links[k as int] == (src, slot));
            self.reset_jump(src, slot, buf, backend);
            let ghost before = self.chains@;
            self.chains[src].clear_dest(slot);
            proof {
                assert forall|k2: int| 0 <= k2 < self.chains@.len() && k2 != src implies #[trigger] self.chains@[k2]
                    == before[k2] by {}
                assert(self.chains@[src as int].jmp_list == before[src as int].jmp_list);
                assert forall|k2: int| 0 <= k2 < old(self).chains@.len() implies #[trigger] self.chains@[k2].incoming() == if k2
                    == i {
                    Seq::<(usize, usize)>::empty()
                } else {
                    old(self).chains@[k2].incoming()
                } by {
                    assert(before[k2].incoming() == if k2 == i {
                        Seq::<(usize, usize)>::empty()
                    } else {
                        old(self).chains@[k2].incoming()
                    });
                    if k2 == src {
                        assert(self.chains@[k2].jmp_list == before[k2].jmp_list);
                    } else {
                        assert(self.chains@[k2] == before[k2]);
                    }
                }
                assert(links.subrange(0, k + 1) =~= links.subrange(0, k as int).push((src, slot)));
                assert forall|k2: int, s: int|
                    0 <= k2 < old(self).chains@.len() && 0 <= s < 2 implies #[trigger] self.chains@[k2].dest(s)
                    == if links.subrange(0, k + 1).contains((k2 as usize, s as usize)) {
                    None
                } else {
                    old(self).chains@[k2].dest(s)
                } by {
                    let e = (k2 as usize, s as usize);
                    assert(before[k2].dest(s) == if links.subrange(0, k as int).contains(e) {
                        None
                    } else {
                        old(self).chains@[k2].dest(s)
                    });
                    if links.subrange(0, k as int).contains(e) {
                        let w = choose|w: int| 0 <= w < k && #[trigger] links.subrange(0, k as int)[w] == e;
                        assert(links.subrange(0, k + 1)[w] == e);
                    }
                    if k2 == src && s == slot {
                        assert(links.subrange(0, k + 1)[k as int] == e);
                        assert(self.chains@[k2].jmp_dest@[s] is None);
                    } else {
                        if links.subrange(0, k + 1).contains(e) {
                            let w = choose|w: int| 0 <= w < k + 1 && #[trigger] links.subrange(0, k + 1)[w] == e;
                            assert(w != k);
                            assert(links.subrange(0, k as int)[w] == e);
                        }
                        if k2 == src {
                            assert(self.chains@[k2].jmp_dest@[s] == before[k2].jmp_dest@[s]);
                        } else {
                            assert(self.chains@[k2] == before[k2]);
                        }
                    }
                }
            }
            k = k + 1;
        }
        proof {
            assert(links.subrange(0, links.len() as int) =~= links);
            assert forall|m: int| 0 <= m < self.chains@.len() implies chain_wf(
                #[trigger] self.chains@[m],
                self.tbs@.len() as int,
            ) by {
                assert(chain_wf(old(self).chains@[m], old(self).tbs@.len() as int));
                assert forall|s: int| 0 <= s < 2 implies (#[trigger] self.chains@[m].dest(s) matches Some(d)
                    ==> d < self.tbs@.len()) by {
                    assert(old(self).chains@[m].dest(s) matches Some(d) ==> d < self.tbs@.len());
                }
            }
        }
    }

    /// Unlink the jumps of block `i`'s own slots: each slot forgets its
    /// destination, and the destination forgets the incoming jump.
    fn unlink_outgoing(&mut self, i: usize)
        requires
            old(self).wf(),
            i < old(self).tbs@.len(),
        ensures
            final(self).wf(),
            final(self).tbs@ == old(self).tbs@,
            final(self).hash@ == old(self).hash@,
            final(self).chains@.len() == old(self).chains@.len(),
            forall|k: int, s: int|
                0 <= k < old(self).chains@.len() && 0 <= s < 2 ==> #[trigger] final(self).chains@[k].dest(s)
                    == if k == i {
                    None
                } else {
                    old(self).chains@[k].dest(s)
                },
            forall|k: int|
                0 <= k < old(self).chains@.len() ==> #[trigger] final(self).chains@[k].incoming() == strip_link(
                    strip_link(
                        old(self).chains@[k].incoming(),
                        i,
                        0,
                        old(self).chains@[i as int].dest(0) == Some(k as usize),
                    ),
                    i,
                    1,
                    old(self).chains@[i as int].dest(1) == Some(k as usize),
                ),
            forall|k: int|
                0 <= k < old(self).chains@.len() ==> (#[trigger] final(self).chains@[k]).jmp_nochain
                    == old(self).chains@[k].jmp_nochain && final(self).chains@[k].exit_target == old(
                    self,
                ).chains@[k].exit_target,
    {
        let ghost c0 = self.chains@;
        assert(chain_wf(c0[i as int], c0.len() as int));
        self.unlink_slot(i, 0);
        let ghost c1 = self.chains@;
        self.unlink_slot(i, 1);
        proof {
            assert forall|k: int| 0 <= k < c0.len() implies #[trigger] self.chains@[k].incoming() == strip_link(
                strip_link(c0[k].incoming(), i, 0, c0[i as int].dest(0) == Some(k as usize)),
                i,
                1,
                c0[i as int].dest(1) == Some(k as usize),
            ) by {
                assert(c1[k].incoming() == strip_link(c0[k].incoming(), i, 0, c0[i as int].dest(0) == Some(k as usize)));
                assert(c1[i as int].dest(1) == c0[i as int].dest(1));
            }
            assert forall|k: int, s: int| 0 <= k < c0.len() && 0 <= s < 2 implies #[trigger] self.chains@[k].dest(s)
                == if k == i {
                None
            } else {
                c0[k].dest(s)
            } by {
                assert(c1[k].dest(s) == if k == i && s == 0 {
                    None
                } else {
                    c0[k].dest(s)
                });
            }
            assert forall|k: int| 0 <= k < c0.len() implies (#[trigger] self.chains@[k]).jmp_nochain
                == c0[k].jmp_nochain && self.chains@[k].exit_target == c0[k].exit_target by {
                assert(c1[k].jmp_nochain == c0[k].jmp_nochain);
            }
        }
    }

    /// Unlink slot `slot` of block `i`: forget its destination and drop the
    /// jump from the destination's incoming list.
    fn unlink_slot(&mut self, i: usize, slot: usize)
        requires
            old(self).wf(),
            i < old(self).tbs@.len(),
            slot < 2,
        ensures
            final(self).wf(),
            final(self).tbs@ == old(self).tbs@,
            final(self).hash@ == old(self).hash@,
            final(self).chains@.len() == old(self).chains@.len(),
            forall|k: int, s: int|
                0 <= k < old(self).chains@.len() && 0 <= s < 2 ==> #[trigger] final(self).chains@[k].dest(s)
                    == if k == i && s == slot {
                    None
                } else {
                    old(self).chains@[k].dest(s)
                },
            forall|k: int|
                0 <= k < old(self).chains@.len() ==> #[trigger] final(self).chains@[k].incoming() == strip_link(
                    old(self).chains@[k].incoming(),
                    i,
                    slot,
                    old(self).chains@[i as int].dest(slot as int) == Some(k as usize),
                ),
            forall|k: int|
                0 <= k < old(self).chains@.len() ==> (#[trigger] final(self).chains@[k]).jmp_nochain
                    == old(self).chains@[k].jmp_nochain && final(self).chains@[k].exit_target == old(
                    self,
                ).chains@[k].exit_target,
    {
        let ghost c0 = self.chains@;
        assert(chain_wf(c0[i as int], c0.len() as int));
        match self.chains[i].jmp_dest[slot] {
            None => {
                proof {
                    assert forall|k: int, s: int| 0 <= k < c0.len() && 0 <= s < 2 implies #[trigger] self.chains@[k].dest(s)
                        == if k == i && s == slot {
                        None
                    } else {
                        c0[k].dest(s)
                    } by {}
                }
            },
            Some(dst) => {
                self.chains[i].clear_dest(slot);
                let ghost c1 = self.chains@;
                assert(forall|k: int| 0 <= k < c0.len() && k != i ==> #[trigger] c1[k] == c0[k]);
                self.chains[dst].remove_link(i, slot);
                proof {
                    assert(forall|k: int| 0 <= k < c0.len() && k != dst ==> #[trigger] self.chains@[k] == c1[k]);
                    assert(c1[dst as int].jmp_list@ == c0[dst as int].jmp_list@ || dst == i);
                    assert forall|k: int| 0 <= k < c0.len() implies #[trigger] self.chains@[k].incoming() == strip_link(
                        c0[k].incoming(),
                        i,
                        slot,
                        c0[i as int].dest(slot as int) == Some(k as usize),
                    ) by {
                        assert(c1[k].jmp_list == c0[k].jmp_list);
                    }
                    assert forall|k: int, s: int| 0 <= k < c0.len() && 0 <= s < 2 implies #[trigger] self.chains@[k].dest(s)
                        == if k == i && s == slot {
                        None
                    } else {
                        c0[k].dest(s)
                    } by {
                        if k == dst {
                            assert(self.chains@[k].jmp_dest == c1[k].jmp_dest);
                        }
                    }
                    assert forall|k: int| 0 <= k < c0.len() implies (#[trigger] self.chains@[k]).jmp_nochain
                        == c0[k].jmp_nochain && self.chains@[k].exit_target == c0[k].exit_target by {}
                }
            },
        }
        proof {
            assert forall|m: int| 0 <= m < self.chains@.len() implies chain_wf(
                #[trigger] self.chains@[m],
                self.tbs@.len() as int,
            ) by {
                assert(chain_wf(c0[m], self.tbs@.len() as int));
                assert forall|s: int| 0 <= s < 2 implies (#[trigger] self.chains@[m].dest(s) matches Some(d)
                    ==> d < self.tbs@.len()) by {
                    assert(c0[m].dest(s) matches Some(d) ==> d < self.tbs@.len());
                }
                assert forall|q: int| 0 <= q < self.chains@[m].incoming().len() implies (#[trigger] self.chains@[m].incoming()[q]).0
                    < self.tbs@.len() && self.chains@[m].incoming()[q].1 < 2 by {
                    let p = keep_link(i, slot);
                    broadcast use vstd::seq_lib::group_filter_ensures;
                    if self.chains@[m].incoming() != c0[m].incoming() {
                        assert(c0[m].incoming().filter(p).contains(self.chains@[m].incoming()[q]));
                        c0[m].incoming().lemma_filter_contains_rev(p, self.chains@[m].incoming()[q]);
                    }
                }
            }
        }
    }

    /// Mark block `i` invalid and take it off its hash chain.
    fn unlink_hash(&mut self, i: usize)
        requires
            old(self).wf(),
            i < old(self).tbs@.len(),
        ensures
            final(self).wf(),
            final(self).chains@ == old(self).chains@,
            ({
                let t = old(self).tbs@[i as int];
                let b = bucket_of(t.pc, t.flags);
                match chain_pred(old(self).tbs@, None, old(self).hash@[b], old(self).tbs@.len(), i) {
                    None => final(self).tbs@ == old(self).tbs@.update(i as int, invalidated(t))
                        && final(self).hash@ == old(self).hash@,
                    Some(None) => final(self).tbs@ == old(self).tbs@.update(
                        i as int,
                        relinked(invalidated(t), None),
                    ) && final(self).hash@ == old(self).hash@.update(b, t.hash_next),
                    Some(Some(p)) => final(self).tbs@ == old(self).tbs@.update(
                        p as int,
                        relinked(old(self).tbs@[p as int], t.hash_next),
                    ).update(i as int, relinked(invalidated(t), None)) && final(self).hash@ == old(
                        self,
                    ).hash@,
                }
            }),
    {
        let ghost t = old(self).tbs@[i as int];
        let pc = self.tbs[i].pc;
        let flags = self.tbs[i].flags;
        let b = TranslationBlock::hash(pc, flags);
        self.tbs[i].invalid = true;
        let ghost tbs1 = self.tbs@;
        assert(tbs1 == old(self).tbs@.update(i as int, invalidated(t)));
        let mut prev: Option<usize> = None;
        let mut cur = self.hash[b];
        let mut fuel = self.tbs.len();
        proof {
            assert forall|m: int| 0 <= m < self.tbs@.len() implies (#[trigger] self.tbs@[m].hash_next matches Some(
                j,
            ) ==> j < self.tbs@.len()) by {
                assert(old(self).tbs@[m].hash_next == self.tbs@[m].hash_next);
            }
        }
        while fuel > 0
            invariant
                old(self).wf(),
                self.wf(),
                i < old(self).tbs@.len(),
                b == bucket_of(t.pc, t.flags),
                t == old(self).tbs@[i as int],
                self.tbs@ == tbs1,
                tbs1 == old(self).tbs@.update(i as int, invalidated(t)),
                self.hash@ == old(self).hash@,
                self.chains@ == old(self).chains@,
                fuel <= self.tbs@.len(),
                cur matches Some(c) ==> c < self.tbs@.len(),
                prev matches Some(q) ==> q < self.tbs@.len() && q != i,
                chain_pred(old(self).tbs@, None, old(self).hash@[b as int], old(self).tbs@.len(), i) == chain_pred(
                    old(self).tbs@,
                    prev,
                    cur,
                    fuel as nat,
                    i,
                ),
            decreases fuel,
        {
            match cur {
                None => {
                    return;
                },
                Some(idx) => {
                    assert(self.tbs@[idx as int].hash_next == old(self).tbs@[idx as int].hash_next);
                    if idx == i {
                        let next = self.tbs[idx].hash_next;
                        match prev {
                            Some(q) => {
                                self.tbs[q].hash_next = next;
                            },
                            None => {
                                self.hash.set(b, next);
                            },
                        }
                        self.tbs[idx].hash_next = None;
                        proof {
                            match prev {
                                Some(q) => {
                                    assert(self.tbs@ =~= old(self).tbs@.update(
                                        q as int,
                                        relinked(old(self).tbs@[q as int], t.hash_next),
                                    ).update(i as int, relinked(invalidated(t), None)));
                                },
                                None => {
                                    assert(self.tbs@ =~= old(self).tbs@.update(
                                        i as int,
                                        relinked(invalidated(t), None),
                                    ));
                                },
                            }
                            assert forall|m: int| 0 <= m < self.tbs@.len() implies (#[trigger] self.tbs@[m].hash_next matches Some(
                                j,
                            ) ==> j < self.tbs@.len()) by {
                                assert(old(self).tbs@[m].hash_next matches Some(j) ==> j < self.tbs@.len());
                            }
                            assert forall|b2: int| 0 <= b2 < TB_HASH_SIZE implies (#[trigger] self.hash@[b2] matches Some(
                                k,
                            ) ==> k < self.tbs@.len()) by {
                                assert(old(self).hash@[b2] matches Some(k) ==> k < self.tbs@.len());
                            }
                        }
                        return;
                    }
                    prev = cur;
                    cur = self.tbs[idx].hash_next;
                    fuel = fuel - 1;
                },
            }
        }
    }

    /// Invalidate block `tb_idx`: point the jumps chained into it back at
    /// their reset offsets, unlink its own chained jumps, and take it off its
    /// hash chain.
    pub fn invalidate(&mut self, tb_idx: usize, code_buf: &mut CodeBuffer, backend: &X86_64CodeGen)
        requires
            old(self).wf(),
            tb_idx < old(self).tbs@.len(),
            old(code_buf).wf(),
        ensures
            final(self).wf(),
            final(self).tbs@[tb_idx as int].invalid,
            ({
                let t = old(self).tbs@[tb_idx as int];
                let b = bucket_of(t.pc, t.flags);
                match chain_pred(old(self).tbs@, None, old(self).hash@[b], old(self).tbs@.len(), tb_idx) {
                    None => final(self).tbs@ == old(self).tbs@.update(tb_idx as int, invalidated(t))
                        && final(self).hash@ == old(self).hash@,
                    Some(None) => final(self).tbs@ == old(self).tbs@.update(
                        tb_idx as int,
                        relinked(invalidated(t), None),
                    ) && final(self).hash@ == old(self).hash@.update(b, t.hash_next),
                    Some(Some(p)) => final(self).tbs@ == old(self).tbs@.update(
                        p as int,
                        relinked(old(self).tbs@[p as int], t.hash_next),
                    ).update(tb_idx as int, relinked(invalidated(t), None)) && final(self).hash@ == old(
                        self,
                    ).hash@,
                }
            }),
            final(self).chains@.len() == old(self).chains@.len(),
            forall|k: int, s: int|
                0 <= k < old(self).chains@.len() && 0 <= s < 2 ==> #[trigger] final(self).chains@[k].dest(s)
                    == dest_after_unlink(old(self).chains@, tb_idx as int, k, s),
            forall|k: int|
                0 <= k < old(self).chains@.len() ==> #[trigger] final(self).chains@[k].incoming()
                    == incoming_after_unlink(old(self).chains@, tb_idx as int, k),
            forall|k: int|
                0 <= k < old(self).chains@.len() ==> (#[trigger] final(self).chains@[k]).jmp_nochain
                    == old(self).chains@[k].jmp_nochain && final(self).chains@[k].exit_target == old(
                    self,
                ).chains@[k].exit_target,
            final(code_buf).wf(),
            final(code_buf).offset == old(code_buf).offset,
            final(code_buf).data@ == reset_all(
                old(code_buf).data@,
                old(self).tbs@,
                old(self).chains@[tb_idx as int].incoming(),
                old(self).chains@[tb_idx as int].incoming().len(),
            ),
    {
        let ghost c0 = self.chains@;
        self.unlink_incoming(tb_idx, code_buf, backend);
        let ghost c1 = self.chains@;
        self.unlink_outgoing(tb_idx);
        self.unlink_hash(tb_idx);
        proof {
            let t = old(self).tbs@[tb_idx as int];
            let b = bucket_of(t.pc, t.flags);
            lemma_chain_pred_bound(old(self).tbs@, None, old(self).hash@[b], old(self).tbs@.len(), tb_idx);
            match chain_pred(old(self).tbs@, None, old(self).hash@[b], old(self).tbs@.len(), tb_idx) {
                None => {},
                Some(None) => {},
                Some(Some(p)) => {
                    assert(self.tbs@ == old(self).tbs@.update(
                        p as int,
                        relinked(old(self).tbs@[p as int], t.hash_next),
                    ).update(tb_idx as int, relinked(invalidated(t), None)));
                    assert(self.tbs@[tb_idx as int] == relinked(invalidated(t), None));
                },
            }
            assert forall|s: int| 0 <= s < 2 implies #[trigger] c1[tb_idx as int].dest(s) == out_dest(
                c0,
                tb_idx as int,
                s,
            ) by {}
            assert forall|k: int| 0 <= k < c0.len() implies #[trigger] self.chains@[k].incoming()
                == incoming_after_unlink(c0, tb_idx as int, k) by {
                assert(c1[tb_idx as int].dest(0) == out_dest(c0, tb_idx as int, 0));
                assert(c1[tb_idx as int].dest(1) == out_dest(c0, tb_idx as int, 1));
                assert(c1[k].incoming() == if k == tb_idx {
                    Seq::<(usize, usize)>::empty()
                } else {
                    c0[k].incoming()
                });
            }
            assert forall|k: int, s: int| 0 <= k < c0.len() && 0 <= s < 2 implies #[trigger] self.chains@[k].dest(s)
                == dest_after_unlink(c0, tb_idx as int, k, s) by {
                assert(c1[k].dest(s) == if c0[tb_idx as int].incoming().contains((k as usize, s as usize)) {
                    None
                } else {
                    c0[k].dest(s)
                });
            }
            assert forall|k: int| 0 <= k < c0.len() implies (#[trigger] self.chains@[k]).jmp_nochain
                == c0[k].jmp_nochain && self.chains@[k].exit_target == c0[k].exit_target by {
                assert(c1[k].jmp_nochain == c0[k].jmp_nochain);
            }
        }
    }

    /// Record the guest size of block `idx`.
    pub fn set_size(&mut self, idx: usize, size: u32)
        requires
            old(self).wf(),
            idx < old(self).tbs@.len(),
        ensures
            final(self).wf(),
            final(self).tbs@ == old(self).tbs@.update(
                idx as int,
                TranslationBlock { size: size, ..old(self).tbs@[idx as int] },
            ),
            final(self).chains@ == old(self).chains@,
            final(self).hash@ == old(self).hash@,
    {
        self.tbs[idx].size = size;
        proof {
            assert(self.tbs@ =~= old(self).tbs@.update(
                idx as int,
                TranslationBlock { size: size, ..old(self).tbs@[idx as int] },
            ));
            assert forall|i: int| 0 <= i < self.tbs@.len() implies (#[trigger] self.tbs@[i].hash_next matches Some(
                j,
            ) ==> j < self.tbs@.len()) by {
                assert(self.tbs@[i].hash_next == old(self).tbs@[i].hash_next);
            }
        }
    }

    /// Record where block `idx`'s host code lies and the jump and reset
    /// offsets of its `goto_tb`s (the first two).
    pub fn set_host_code(&mut self, idx: usize, host_offset: usize, host_size: usize, gotos: &Vec<(usize, usize)>)
        requires
            old(self).wf(),
            idx < old(self).tbs@.len(),
        ensures
            final(self).wf(),
            final(self).chains@ == old(self).chains@,
            final(self).hash@ == old(self).hash@,
            final(self).tbs@.len() == old(self).tbs@.len(),
            forall|k: int| 0 <= k < old(self).tbs@.len() && k != idx ==> #[trigger] final(self).tbs@[k] == old(self).tbs@[k],
            ({
                let t = final(self).tbs@[idx as int];
                let t0 = old(self).tbs@[idx as int];
                &&& t.host_offset == host_offset
                &&& t.host_size == host_size
                &&& t.jmp_insn_offset@ == goto_field(t0.jmp_insn_offset@, gotos@, false)
                &&& t.jmp_reset_offset@ == goto_field(t0.jmp_reset_offset@, gotos@, true)
                &&& t.pc == t0.pc && t.cs_base == t0.cs_base && t.flags == t0.flags && t.cflags == t0.cflags
                &&& t.size == t0.size && t.icount == t0.icount && t.phys_pc == t0.phys_pc
                &&& t.hash_next == t0.hash_next && t.invalid == t0.invalid
            }),
    {
        let ghost t0 = self.tbs@[idx as int];
        self.tbs[idx].host_offset = host_offset;
        self.tbs[idx].host_size = host_size;
        let mut i: usize = 0;
        while i < 2 && i < gotos.len()
            invariant
                old(self).wf(),
                idx < old(self).tbs@.len(),
                i <= 2,
                i <= gotos@.len(),
                self.chains@ == old(self).chains@,
                self.hash@ == old(self).hash@,
                self.tbs@.len() == old(self).tbs@.len(),
                t0 == old(self).tbs@[idx as int],
                forall|k: int| 0 <= k < old(self).tbs@.len() && k != idx ==> #[trigger] self.tbs@[k] == old(self).tbs@[k],
                ({
                    let t = self.tbs@[idx as int];
                    &&& t.host_offset == host_offset
                    &&& t.host_size == host_size
                    &&& forall|s: int| 0 <= s < 2 ==> #[trigger] t.jmp_insn_offset@[s] == if s < i {
                        Some(gotos@[s].0 as u32)
                    } else {
                        t0.jmp_insn_offset@[s]
                    }
                    &&& forall|s: int| 0 <= s < 2 ==> #[trigger] t.jmp_reset_offset@[s] == if s < i {
                        Some(gotos@[s].1 as u32)
                    } else {
                        t0.jmp_reset_offset@[s]
                    }
                    &&& t.pc == t0.pc && t.cs_base == t0.cs_base && t.flags == t0.flags && t.cflags == t0.cflags
                    &&& t.size == t0.size && t.icount == t0.icount && t.phys_pc == t0.phys_pc
                    &&& t.hash_next == t0.hash_next && t.invalid == t0.invalid
                }),
            decreases 2 - i,
        {
            let (j, r) = gotos[i];
            #[verifier::truncate]
            let j32 = j as u32;
            #[verifier::truncate]
            let r32 = r as u32;
            self.tbs[idx].set_jmp_insn_offset(i, j32);
            self.tbs[idx].set_jmp_reset_offset(i, r32);
            i = i + 1;
        }
        proof {
            let t = self.tbs@[idx as int];
            assert(t.jmp_insn_offset@ =~= goto_field(t0.jmp_insn_offset@, gotos@, false));
            assert(t.jmp_reset_offset@ =~= goto_field(t0.jmp_reset_offset@, gotos@, true));
            assert forall|m: int| 0 <= m < self.tbs@.len() implies (#[trigger] self.tbs@[m].hash_next matches Some(
                j,
            ) ==> j < self.tbs@.len()) by {
                assert(self.tbs@[m].hash_next == old(self).tbs@[m].hash_next);
            }
        }
    }

    /// Refuse chaining slot `slot` of block `src` to block `dst` (it would
    /// close a cycle), remembering `dst`.
    pub fn refuse_chain(&mut self, src: usize, slot: usize, dst: usize)
        requires
            old(self).wf(),
            src < old(self).tbs@.len(),
            dst < old(self).tbs@.len(),
            slot < 2,
        ensures
            final(self).wf(),
            final(self).tbs@ == old(self).tbs@,
            final(self).hash@ == old(self).hash@,
            final(self).chains@.len() == old(self).chains@.len(),
            forall|k: int| 0 <= k < old(self).chains@.len() && k != src ==> #[trigger] final(self).chains@[k] == old(self).chains@[k],
            final(self).chains@[src as int].jmp_dest@ == old(self).chains@[src as int].jmp_dest@.update(slot as int, Some(dst)),
            final(self).chains@[src as int].jmp_nochain@ == old(self).chains@[src as int].jmp_nochain@.update(slot as int, true),
            final(self).chains@[src as int].jmp_list == old(self).chains@[src as int].jmp_list,
            final(self).chains@[src as int].exit_target == old(self).chains@[src as int].exit_target,
    {
        self.chains[src].set_nochain(slot, dst);
        proof {
            lemma_chain_wf_step(old(self).chains@[src as int], self.chains@[src as int], self.tbs@.len() as int);
            self.lemma_chains_wf_after(*old(self), src as int);
        }
    }

    /// Remember block `dst` as the successor of block `src`'s no-chain exit.
    pub fn set_exit_target(&mut self, src: usize, dst: usize)
        requires
            old(self).wf(),
            src < old(self).tbs@.len(),
            dst < old(self).tbs@.len(),
        ensures
            final(self).wf(),
            final(self).tbs@ == old(self).tbs@,
            final(self).hash@ == old(self).hash@,
            final(self).chains@.len() == old(self).chains@.len(),
            forall|k: int| 0 <= k < old(self).chains@.len() && k != src ==> #[trigger] final(self).chains@[k] == old(self).chains@[k],
            final(self).chains@[src as int].exit_target == Some(dst),
            final(self).chains@[src as int].jmp_dest == old(self).chains@[src as int].jmp_dest,
            final(self).chains@[src as int].jmp_nochain == old(self).chains@[src as int].jmp_nochain,
            final(self).chains@[src as int].jmp_list == old(self).chains@[src as int].jmp_list,
    {
        self.chains[src].exit_target = Some(dst);
        proof {
            lemma_chain_wf_step(old(self).chains@[src as int], self.chains@[src as int], self.tbs@.len() as int);
            self.lemma_chains_wf_after(*old(self), src as int);
        }
    }

    /// Record that slot `slot` of block `src` now jumps to block `dst`.
    pub fn add_link(&mut self, src: usize, slot: usize, dst: usize)
        requires
            old(self).wf(),
            src < old(self).tbs@.len(),
            dst < old(self).tbs@.len(),
            slot < 2,
        ensures
            final(self).wf(),
            final(self).tbs@ == old(self).tbs@,
            final(self).hash@ == old(self).hash@,
            final(self).chains@.len() == old(self).chains@.len(),
            forall|k: int| 0 <= k < old(self).chains@.len() && k != src && k != dst ==> #[trigger] final(self).chains@[k] == old(self).chains@[k],
            final(self).chains@[src as int].dest(slot as int) == Some(dst),
            final(self).chains@[dst as int].incoming() == old(self).chains@[dst as int].incoming().push((src, slot)),
    {
        self.chains[src].set_dest(slot, dst);
        let ghost mid = *self;
        proof {
            lemma_chain_wf_step(old(self).chains@[src as int], self.chains@[src as int], self.tbs@.len() as int);
            self.lemma_chains_wf_after(*old(self), src as int);
        }
        self.chains[dst].push_link((src, slot));
        proof {
            assert(self.chains@[dst as int].incoming().subrange(0, mid.chains@[dst as int].incoming().len() as int)
                =~= mid.chains@[dst as int].incoming());
            lemma_chain_wf_step(mid.chains@[dst as int], self.chains@[dst as int], self.tbs@.len() as int);
            self.lemma_chains_wf_after(mid, dst as int);
        }
    }

    /// The store stays well formed when one chain record changes in ways that
    /// keep its block indices in range.
    proof fn lemma_chains_wf_after(&self, before: TbStore, m: int)
        requires
            before.wf(),
            0 <= m < before.chains@.len(),
            self.tbs@ == before.tbs@,
            self.hash@ == before.hash@,
            self.chains@.len() == before.chains@.len(),
            forall|k: int| 0 <= k < before.chains@.len() && k != m ==> #[trigger] self.chains@[k] == before.chains@[k],
            chain_wf(self.chains@[m], self.tbs@.len() as int),
        ensures
            self.wf(),
    {
        assert forall|k: int| 0 <= k < self.chains@.len() implies chain_wf(#[trigger] self.chains@[k], self.tbs@.len() as int) by {
            if k != m {
                assert(self.chains@[k] == before.chains@[k]);
            }
        }
    }

    /// Remove every block and empty the hash table.
    pub fn flush(&mut self)
        requires
            old(self).wf(),
        ensures
            final(self).wf(),
            final(self).tbs@.len() == 0,
            forall|b: int| 0 <= b < TB_HASH_SIZE ==> #[trigger] final(self).hash@[b] is None,
    {
        self.tbs.clear();
        self.chains.clear();
        let mut i: usize = 0;
        while i < TB_HASH_SIZE
            invariant
                i <= TB_HASH_SIZE,
                self.hash@.len() == TB_HASH_SIZE,
                self.tbs@.len() == 0,
                self.chains@.len() == 0,
                forall|b: int| 0 <= b < i ==> #[trigger] self.hash@[b] is None,
            decreases TB_HASH_SIZE - i,
        {
            self.hash.set(i, None);
            i = i + 1;
        }
    }

    /// Number of blocks.
    pub fn len(&self) -> (r: usize)
        ensures
            r == self.tbs@.len(),
    {
        self.tbs.len()
    }

    /// Whether the store has no blocks.
    pub fn is_empty(&self) -> (r: bool)
        ensures
            r == (self.tbs@.len() == 0),
    {
        self.tbs.len() == 0
    }
}

/// A chain record stays well formed when slots are pointed at blocks in
/// range, the exit target is a block in range, and a link in range is added.
pub proof fn lemma_chain_wf_step(c0: TbChain, c1: TbChain, n: int)
    requires
        chain_wf(c0, n),
        c1.jmp_dest@.len() == 2,
        c1.jmp_nochain@.len() == 2,
        forall|s: int| 0 <= s < 2 ==> #[trigger] c1.dest(s) == c0.dest(s) || (c1.dest(s) matches Some(d) && d < n),
        c1.exit_target == c0.exit_target || (c1.exit_target matches Some(d) && d < n),
        c1.incoming() == c0.incoming() || (c1.incoming().len() == c0.incoming().len() + 1
            && c1.incoming().subrange(0, c0.incoming().len() as int) == c0.incoming()
            && c1.incoming().last().0 < n && c1.incoming().last().1 < 2),
    ensures
        chain_wf(c1, n),
{
    assert forall|k: int| 0 <= k < c1.incoming().len() implies (#[trigger] c1.incoming()[k]).0 < n && c1.incoming()[k].1 < 2 by {
        if k < c0.incoming().len() {
            if c1.incoming() != c0.incoming() {
                assert(c1.incoming()[k] == c1.incoming().subrange(0, c0.incoming().len() as int)[k]);
            }
        }
    }
}

/// Once a valid block is inserted, a lookup of its pc and flags finds it.
pub proof fn lemma_insert_then_lookup(before: TbStore, after: TbStore, i: usize)
    requires
        before.wf(),
        i < before.tbs@.len(),
        !before.tbs@[i as int].invalid,
        after.inserted(before, i),
    ensures
        after.spec_lookup(before.tbs@[i as int].pc, before.tbs@[i as int].flags) == Some(i),
{
}

/// A lookup never finds an invalid block.
pub proof fn lemma_lookup_skips_invalid(s: TbStore, i: usize, pc: u64, flags: u32)
    requires
        i < s.tbs@.len(),
        s.tbs@[i as int].invalid,
    ensures
        s.spec_lookup(pc, flags) != Some(i),
{
    lemma_find_in_chain_matches(s.tbs@, s.hash@[bucket_of(pc, flags)], s.tbs@.len(), pc, flags);
}

/// The predecessor found on a chain is a block other than the target.
pub proof fn lemma_chain_pred_bound(
    tbs: Seq<TranslationBlock>,
    prev: Option<usize>,
    cur: Option<usize>,
    fuel: nat,
    target: usize,
)
    requires
        prev matches Some(q) ==> q < tbs.len() && q != target,
    ensures
        chain_pred(tbs, prev, cur, fuel, target) matches Some(Some(q)) ==> q < tbs.len() && q != target,
    decreases fuel,
{
    if let Some(i) = cur {
        if fuel > 0 && i < tbs.len() && i != target {
            lemma_chain_pred_bound(tbs, Some(i), tbs[i as int].hash_next, (fuel - 1) as nat, target);
        }
    }
}

/// A block found on a chain is a valid block matching the key.
pub proof fn lemma_find_in_chain_matches(
    tbs: Seq<TranslationBlock>,
    cur: Option<usize>,
    fuel: nat,
    pc: u64,
    flags: u32,
)
    ensures
        find_in_chain(tbs, cur, fuel, pc, flags) matches Some(i) ==> i < tbs.len()
            && !tbs[i as int].invalid && tbs[i as int].pc == pc && tbs[i as int].flags == flags,
    decreases fuel,
{
    if let Some(i) = cur {
        if fuel > 0 && i < tbs.len() {
            lemma_find_in_chain_matches(tbs, tbs[i as int].hash_next, (fuel - 1) as nat, pc, flags);
        }
    }
}

} // verus!
