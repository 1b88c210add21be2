use vstd::prelude::*;

use crate::linux_user::elf::{
    Elf64Ehdr, Elf64Phdr, ElfError, AT_ENTRY, AT_NULL, AT_PAGESZ, AT_PHDR, AT_PHENT, AT_PHNUM, AT_RANDOM,
    PF_R, PF_W, PF_X, PHDR_SIZE, PT_LOAD, PT_PHDR,
};
use crate::linux_user::guest_space::{
    align_down, align_up, page_align_down, page_align_up, GUEST_STACK_SIZE, GUEST_STACK_TOP,
};

verus! {

/// Auxiliary vector: address of the executable's name.
pub const AT_EXECFN: u64 = 31;

/// Why an executable could not be loaded (I/O failures aside).
#[derive(Debug, Clone, Copy, PartialEq, Eq, Structural)]
pub enum LoadError {
    Elf(ElfError),
    NoLoadSegment,
    SegmentOutOfRange,
}

/// What the loader hands the CPU: entry point, program headers, initial
/// stack pointer and program break.
#[derive(Debug, Clone, Copy, PartialEq, Eq, Structural)]
pub struct ElfInfo {
    pub entry: u64,
    pub phdr_addr: u64,
    pub phnum: u16,
    pub sp: u64,
    pub brk: u64,
}

/// Access rights of a mapped segment.
#[derive(Debug, Clone, Copy, PartialEq, Eq, Structural)]
pub struct SegProt {
    pub readable: bool,
    pub writable: bool,
    pub executable: bool,
}

/// The access rights that segment flags ask for.
pub fn elf_to_prot(flags: u32) -> (r: SegProt)
    ensures
        r.readable == (flags & PF_R != 0),
        r.writable == (flags & PF_W != 0),
        r.executable == (flags & PF_X != 0),
{
    SegProt { readable: flags & PF_R != 0, writable: flags & PF_W != 0, executable: flags & PF_X != 0 }
}

/// How one loadable segment is mapped: the page-aligned range, where its
/// file bytes go and its final access rights.
#[derive(Debug, Clone, Copy, PartialEq, Eq, Structural)]
pub struct SegmentPlan {
    pub aligned_start: u64,
    pub aligned_size: u64,
    pub vaddr: u64,
    pub file_offset: u64,
    pub file_size: u64,
    pub prot: SegProt,
}

/// The layout of a loaded executable.
pub struct LoadPlan {
    pub phdr_addr: u64,
    pub segments: Vec<SegmentPlan>,
    pub brk: u64,
}

/// The address of the program headers: that of the last `PT_PHDR`
/// segment among the first `n`, or 0.
pub open spec fn phdr_seg_addr(ph: Seq<Elf64Phdr>, n: nat) -> u64
    decreases n,
{
    if n == 0 || n > ph.len() {
        0
    } else if ph[n - 1].p_type == PT_PHDR {
        ph[n - 1].p_vaddr
    } else {
        phdr_seg_addr(ph, (n - 1) as nat)
    }
}

/// The address of the first `PT_LOAD` segment among the first `n`.
pub open spec fn first_load(ph: Seq<Elf64Phdr>, n: nat) -> Option<u64>
    decreases n,
{
    if n == 0 || n > ph.len() {
        None
    } else {
        match first_load(ph, (n - 1) as nat) {
            Some(a) => Some(a),
            None => if ph[n - 1].p_type == PT_LOAD {
                Some(ph[n - 1].p_vaddr)
            } else {
                None
            },
        }
    }
}

/// Where the program headers are in guest memory: the `PT_PHDR` segment's
/// address, else (when that is 0) the first loadable segment's address plus
/// the table's file offset (wrapping), else 0.
pub open spec fn phdr_addr_of(ehdr: Elf64Ehdr, ph: Seq<Elf64Phdr>) -> u64 {
    let a = phdr_seg_addr(ph, ph.len());
    if a == 0 {
        match first_load(ph, ph.len()) {
            Some(base) => ((base + ehdr.e_phoff) % 0x1_0000_0000_0000_0000) as u64,
            None => 0,
        }
    } else {
        a
    }
}

/// Why segment `p` is refused for an image of `n` bytes, if it is: its end
/// lies past the stack top (or overflows), or its file bytes lie past the
/// image.
pub open spec fn segment_error(p: Elf64Phdr, n: int) -> Option<LoadError> {
    if p.p_vaddr + p.p_memsz > GUEST_STACK_TOP {
        Some(LoadError::SegmentOutOfRange)
    } else if p.p_filesz > 0 && p.p_offset + p.p_filesz > n {
        Some(LoadError::Elf(ElfError::InvalidPhdr))
    } else {
        None
    }
}

/// The mapping of an accepted loadable segment.
pub open spec fn segment_plan(p: Elf64Phdr, ps: u64) -> SegmentPlan {
    let start = align_down(p.p_vaddr as int, ps as int);
    let end = align_up(p.p_vaddr + p.p_memsz, ps as int);
    SegmentPlan {
        aligned_start: start as u64,
        aligned_size: (end - start) as u64,
        vaddr: p.p_vaddr,
        file_offset: p.p_offset,
        file_size: p.p_filesz,
        prot: SegProt {
            readable: p.p_flags & PF_R != 0,
            writable: p.p_flags & PF_W != 0,
            executable: p.p_flags & PF_X != 0,
        },
    }
}

/// The outcome of planning the first `k` program headers: the first error
/// among the loadable segments, else their mappings and the highest
/// page-aligned segment end.
pub open spec fn plan_segments(ph: Seq<Elf64Phdr>, k: nat, n: int, ps: u64) -> Result<(Seq<SegmentPlan>, u64), LoadError>
    decreases k,
{
    if k == 0 || k > ph.len() {
        Ok((Seq::empty(), 0))
    } else {
        match plan_segments(ph, (k - 1) as nat, n, ps) {
            Err(e) => Err(e),
            Ok((segs, brk)) => {
                let p = ph[k - 1];
                if p.p_type != PT_LOAD {
                    Ok((segs, brk))
                } else {
                    match segment_error(p, n) {
                        Some(e) => Err(e),
                        None => {
                            let end = align_up(p.p_vaddr + p.p_memsz, ps as int);
                            Ok(
                                (
                                    segs.push(segment_plan(p, ps)),
                                    if end > brk {
                                        end as u64
                                    } else {
                                        brk
                                    },
                                ),
                            )
                        },
                    }
                }
            },
        }
    }
}

/// Plan how the executable whose header is `ehdr`, program headers `phdrs`
/// and image size `data_len` is mapped with pages of `page_size` bytes:
/// every loadable segment, in order, and the initial program break; refused
/// with the first bad segment's error, or when nothing is loadable.
pub fn plan_load(ehdr: &Elf64Ehdr, phdrs: &[Elf64Phdr], data_len: usize, page_size: u64) -> (r: Result<LoadPlan, LoadError>)
    requires
        0 < page_size <= 0x1_0000_0000,
    ensures
        match plan_segments(phdrs@, phdrs@.len(), data_len as int, page_size) {
            Err(e) => r == Err::<LoadPlan, LoadError>(e),
            Ok((segs, brk)) => if segs.len() == 0 {
                r == Err::<LoadPlan, LoadError>(LoadError::NoLoadSegment)
            } else {
                r matches Ok(p) && p.segments@ == segs && p.brk == brk && p.phdr_addr == phdr_addr_of(
                    *ehdr,
                    phdrs@,
                )
            },
        },
{
    let mut phdr_addr: u64 = 0;
    let mut first_load_vaddr: Option<u64> = None;
    let mut i: usize = 0;
    while i < phdrs.len()
        invariant
            i <= phdrs@.len(),
            phdr_addr == phdr_seg_addr(phdrs@, i as nat),
            first_load_vaddr == first_load(phdrs@, i as nat),
        decreases phdrs@.len() - i,
    {
        let ph = &phdrs[i];
        if ph.p_type == PT_PHDR {
            phdr_addr = ph.p_vaddr;
        }
        if ph.p_type == PT_LOAD && first_load_vaddr.is_none() {
            first_load_vaddr = Some(ph.p_vaddr);
        }
        i = i + 1;
    }
    if phdr_addr == 0 {
        if let Some(base) = first_load_vaddr {
            phdr_addr = base.wrapping_add(ehdr.e_phoff);
        }
    }
    let mut segments: Vec<SegmentPlan> = Vec::new();
    let mut brk: u64 = 0;
    let mut i: usize = 0;
    while i < phdrs.len()
        invariant
            i <= phdrs@.len(),
            0 < page_size <= 0x1_0000_0000,
            plan_segments(phdrs@, i as nat, data_len as int, page_size) == Ok::<(Seq<SegmentPlan>, u64), LoadError>(
                (segments@, brk),
            ),
        decreases phdrs@.len() - i,
    {
        let ph = &phdrs[i];
        if ph.p_type == PT_LOAD {
            let end = match ph.p_vaddr.checked_add(ph.p_memsz) {
                Some(e) => e,
                None => {
                    proof {
                        lemma_plan_err(phdrs@, (i + 1) as nat, phdrs@.len(), data_len as int, page_size);
                    }
                    return Err(LoadError::SegmentOutOfRange);
                },
            };
            if end > GUEST_STACK_TOP {
                proof {
                    lemma_plan_err(phdrs@, (i + 1) as nat, phdrs@.len(), data_len as int, page_size);
                }
                return Err(LoadError::SegmentOutOfRange);
            }
            if ph.p_filesz > 0 {
                let bad = match ph.p_offset.checked_add(ph.p_filesz) {
                    Some(e) => e > data_len as u64,
                    None => true,
                };
                if bad {
                    proof {
                        lemma_plan_err(phdrs@, (i + 1) as nat, phdrs@.len(), data_len as int, page_size);
                    }
                    return Err(LoadError::Elf(ElfError::InvalidPhdr));
                }
            }
            let aligned_start = page_align_down(ph.p_vaddr, page_size);
            let aligned_end = page_align_up(end, page_size);
            let plan = SegmentPlan {
                aligned_start,
                aligned_size: aligned_end - aligned_start,
                vaddr: ph.p_vaddr,
                file_offset: ph.p_offset,
                file_size: ph.p_filesz,
                prot: elf_to_prot(ph.p_flags),
            };
            segments.push(plan);
            if aligned_end > brk {
                brk = aligned_end;
            }
        }
        i = i + 1;
    }
    if segments.len() == 0 {
        return Err(LoadError::NoLoadSegment);
    }
    Ok(LoadPlan { phdr_addr, segments, brk })
}

/// An error planning the first `k` headers is the error planning `m >= k`.
proof fn lemma_plan_err(ph: Seq<Elf64Phdr>, k: nat, m: nat, n: int, ps: u64)
    requires
        k <= m <= ph.len(),
        plan_segments(ph, k, n, ps) is Err,
    ensures
        plan_segments(ph, m, n, ps) == plan_segments(ph, k, n, ps),
    decreases m - k,
{
    if k < m {
        lemma_plan_err(ph, k, (m - 1) as nat, n, ps);
    }
}


/// Bytes taken by the strings `lens[j..]`, each with its terminator.
pub open spec fn strings_size(lens: Seq<usize>, j: int) -> int
    decreases lens.len() - j,
{
    if j < 0 || j >= lens.len() {
        0
    } else {
        lens[j] + 1 + strings_size(lens, j + 1)
    }
}

proof fn lemma_strings_size_nonneg(lens: Seq<usize>, j: int)
    ensures
        0 <= strings_size(lens, j),
    decreases lens.len() - j,
{
    if 0 <= j < lens.len() {
        lemma_strings_size_nonneg(lens, j + 1);
    }
}

proof fn lemma_strings_size(lens: Seq<usize>, j: int)
    requires
        0 <= j <= lens.len(),
    ensures
        0 <= strings_size(lens, j) <= strings_size(lens, 0),
    decreases j,
{
    lemma_strings_size_nonneg(lens, j);
    if j > 0 {
        lemma_strings_size(lens, j - 1);
        lemma_strings_size_nonneg(lens, j);
    }
}

/// Addresses of strings packed downwards from `top`, the last string
/// highest.
pub open spec fn packed_addrs(top: int, lens: Seq<usize>) -> Seq<u64> {
    Seq::new(lens.len(), |j: int| (top - strings_size(lens, j)) as u64)
}

/// Words of the initial stack frame above `sp`: argc, the argument
/// pointers, a null, the environment pointers, a null, and the auxiliary
/// vector.
pub open spec fn frame_words(argv: Seq<u64>, envp: Seq<u64>, auxv: Seq<u64>) -> Seq<u64> {
    seq![argv.len() as u64] + argv + seq![0u64] + envp + seq![0u64] + auxv
}

/// The auxiliary vector as (type, value) words.
pub open spec fn auxv_words(phdr_addr: u64, phnum: u16, page_size: u64, entry: u64, random: u64, execfn: u64) -> Seq<u64> {
    seq![
        AT_PHDR, phdr_addr, AT_PHENT, PHDR_SIZE as u64, AT_PHNUM, phnum as u64, AT_PAGESZ, page_size,
        AT_ENTRY, entry, AT_RANDOM, random, AT_EXECFN, execfn, AT_NULL, 0u64,
    ]
}

/// The initial stack: where each string goes and the words of the frame at
/// `sp`.
pub struct StackPlan {
    pub sp: u64,
    pub random_addr: u64,
    pub execfn_addr: u64,
    pub argv_addrs: Vec<u64>,
    pub envp_addrs: Vec<u64>,
    pub words: Vec<u64>,
}

/// The 16 bytes placed at the top of the stack for `AT_RANDOM`.
pub const RANDOM_BYTES: [u8; 16] = [
    0xde, 0xad, 0xbe, 0xef, 0xca, 0xfe, 0xba, 0xbe, 0x01, 0x23, 0x45, 0x67, 0x89, 0xab, 0xcd, 0xef,
];

/// The stack space the initial frame needs, with the alignment slack.
pub open spec fn stack_need(argc: int, envc: int, execfn_len: int, argv: Seq<usize>, envp: Seq<usize>) -> int {
    16 + execfn_len + 1 + strings_size(envp, 0) + strings_size(argv, 0) + 16 + (argc + envc + 19) * 8 + 16
}

/// Fill `addrs` with the addresses of strings packed downwards from `top`.
fn pack_strings(top: u64, lens: &[usize]) -> (r: (Vec<u64>, u64))
    requires
        strings_size(lens@, 0) <= top,
    ensures
        r.0@ == packed_addrs(top as int, lens@),
        r.1 == top - strings_size(lens@, 0),
{
    let n = lens.len();
    let mut addrs: Vec<u64> = Vec::new();
    let mut k: usize = 0;
    while k < n
        invariant
            k <= n,
            n == lens@.len(),
            addrs@.len() == k,
        decreases n - k,
    {
        addrs.push(0);
        k = k + 1;
    }
    let mut pos = top;
    let mut j = n;
    proof {
        lemma_strings_size(lens@, n as int);
    }
    while j > 0
        invariant
            j <= n,
            n == lens@.len(),
            addrs@.len() == n,
            strings_size(lens@, 0) <= top,
            pos == top - strings_size(lens@, j as int),
            forall|m: int| j <= m < n ==> #[trigger] addrs@[m] == (top - strings_size(lens@, m)) as u64,
        decreases j,
    {
        j = j - 1;
        proof {
            lemma_strings_size(lens@, j as int);
        }
        pos = pos - (lens[j] as u64 + 1);
        addrs.set(j, pos);
    }
    assert(addrs@ =~= packed_addrs(top as int, lens@));
    (addrs, pos)
}

/// Lay out the initial stack below the stack top: 16 random bytes, the
/// executable's name, the environment strings, then the argument strings
/// (each list packed downwards, its last string highest), and under them,
/// 16-byte aligned, the frame of argc, pointers and auxiliary vector.
pub fn plan_stack(
    entry: u64,
    phdr_addr: u64,
    phnum: u16,
    argv_lens: &[usize],
    envp_lens: &[usize],
    execfn_len: usize,
    page_size: u64,
) -> (r: StackPlan)
    requires
        stack_need(argv_lens@.len() as int, envp_lens@.len() as int, execfn_len as int, argv_lens@, envp_lens@)
            <= GUEST_STACK_SIZE,
    ensures
        r.random_addr == GUEST_STACK_TOP - 16,
        r.execfn_addr == r.random_addr - (execfn_len + 1),
        r.envp_addrs@ == packed_addrs(r.execfn_addr as int, envp_lens@),
        r.argv_addrs@ == packed_addrs(r.execfn_addr - strings_size(envp_lens@, 0), argv_lens@),
        r.sp == align_down(
            align_down(r.execfn_addr - strings_size(envp_lens@, 0) - strings_size(argv_lens@, 0), 16) - (
            argv_lens@.len() + envp_lens@.len() + 19) * 8,
            16,
        ),
        r.words@ == frame_words(
            r.argv_addrs@,
            r.envp_addrs@,
            auxv_words(phdr_addr, phnum, page_size, entry, r.random_addr, r.execfn_addr),
        ),
{
    proof {
        lemma_strings_size(argv_lens@, 0);
        lemma_strings_size(envp_lens@, 0);
    }
    let random_addr = GUEST_STACK_TOP - 16;
    let execfn_addr = random_addr - (execfn_len as u64 + 1);
    let (envp_addrs, env_low) = pack_strings(execfn_addr, envp_lens);
    let (argv_addrs, arg_low) = pack_strings(env_low, argv_lens);
    let pos = page_align_down(arg_low, 16);
    let frame = (argv_lens.len() as u64 + envp_lens.len() as u64 + 19) * 8;
    let sp = page_align_down(pos - frame, 16);
    let mut words: Vec<u64> = Vec::new();
    words.push(argv_lens.len() as u64);
    let mut k: usize = 0;
    while k < argv_addrs.len()
        invariant
            k <= argv_addrs@.len(),
            words@ == seq![argv_lens@.len() as u64] + argv_addrs@.subrange(0, k as int),
        decreases argv_addrs@.len() - k,
    {
        words.push(argv_addrs[k]);
        assert(words@ =~= seq![argv_lens@.len() as u64] + argv_addrs@.subrange(0, k + 1));
        k = k + 1;
    }
    words.push(0);
    let ghost w1 = words@;
    let mut k: usize = 0;
    while k < envp_addrs.len()
        invariant
            k <= envp_addrs@.len(),
            words@ == w1 + envp_addrs@.subrange(0, k as int),
        decreases envp_addrs@.len() - k,
    {
        words.push(envp_addrs[k]);
        assert(words@ =~= w1 + envp_addrs@.subrange(0, k + 1));
        k = k + 1;
    }
    words.push(0);
    let auxv: [u64; 16] = [
        AT_PHDR,
        phdr_addr,
        AT_PHENT,
        PHDR_SIZE as u64,
        AT_PHNUM,
        phnum as u64,
        AT_PAGESZ,
        page_size,
        AT_ENTRY,
        entry,
        AT_RANDOM,
        random_addr,
        AT_EXECFN,
        execfn_addr,
        AT_NULL,
        0,
    ];
    let ghost w2 = words@;
    let mut k: usize = 0;
    while k < 16
        invariant
            k <= 16,
            words@ == w2 + auxv@.subrange(0, k as int),
        decreases 16 - k,
    {
        words.push(auxv[k]);
        assert(words@ =~= w2 + auxv@.subrange(0, k + 1));
        k = k + 1;
    }
    proof {
        assert(argv_addrs@.subrange(0, argv_addrs@.len() as int) =~= argv_addrs@);
        assert(envp_addrs@.subrange(0, envp_addrs@.len() as int) =~= envp_addrs@);
        assert(auxv@.subrange(0, 16) =~= auxv_words(phdr_addr, phnum, page_size, entry, random_addr, execfn_addr));
        assert(words@ =~= frame_words(
            argv_addrs@,
            envp_addrs@,
            auxv_words(phdr_addr, phnum, page_size, entry, random_addr, execfn_addr),
        ));
    }
    StackPlan { sp, random_addr, execfn_addr, argv_addrs, envp_addrs, words }
}

} // verus!
