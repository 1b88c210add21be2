use vstd::prelude::*;

verus! {

/// Guest address space size: 1 GiB.
pub const GUEST_SPACE_SIZE: usize = 1073741824;

/// Default guest stack top address.
pub const GUEST_STACK_TOP: u64 = 0x3FFF_0000;

/// Default guest stack size: 8 MiB.
pub const GUEST_STACK_SIZE: usize = 8388608;

/// A guest address space: `size` bytes of host memory starting at the host
/// address `base`; guest address `a` lives at host address `base + a`.
pub struct GuestSpace {
    base: usize,
    size: usize,
    brk: u64,
}

impl GuestSpace {
    pub closed spec fn spec_base(&self) -> int {
        self.base as int
    }

    pub closed spec fn spec_size(&self) -> int {
        self.size as int
    }

    pub closed spec fn spec_brk(&self) -> u64 {
        self.brk
    }

    pub closed spec fn wf(&self) -> bool {
        self.base + self.size <= usize::MAX
    }

    /// The space over the host region of `size` bytes at `base`, with the
    /// program break at 0.
    pub fn from_host_region(base: usize, size: usize) -> (s: Self)
        requires
            base + size <= usize::MAX,
        ensures
            s.wf(),
            s.spec_base() == base,
            s.spec_size() == size,
            s.spec_brk() == 0,
    {
        GuestSpace { base, size, brk: 0 }
    }

    /// The host address of guest address `guest_addr`.
    pub fn g2h(&self, guest_addr: u64) -> (r: usize)
        requires
            self.wf(),
            guest_addr < self.spec_size(),
        ensures
            r == self.spec_base() + guest_addr,
    {
        self.base + guest_addr as usize
    }

    /// The guest address of host address `host`.
    pub fn h2g(&self, host: usize) -> (r: u64)
        requires
            self.spec_base() <= host < self.spec_base() + self.spec_size(),
        ensures
            r == host - self.spec_base(),
    {
        (host - self.base) as u64
    }

    /// Host address of guest address 0 (the base for instruction fetch).
    pub fn guest_base(&self) -> (r: usize)
        ensures
            r == self.spec_base(),
    {
        self.base
    }

    /// Size of the space in bytes.
    pub fn size(&self) -> (r: usize)
        ensures
            r == self.spec_size(),
    {
        self.size
    }

    /// Current program break (guest address).
    pub fn brk(&self) -> (r: u64)
        ensures
            r == self.spec_brk(),
    {
        self.brk
    }

    /// Set the program break.
    pub fn set_brk(&mut self, brk: u64)
        ensures
            final(self).spec_brk() == brk,
            final(self).spec_base() == old(self).spec_base(),
            final(self).spec_size() == old(self).spec_size(),
            final(self).wf() == old(self).wf(),
    {
        self.brk = brk;
    }
}

/// Translating a guest address to the host and back gives it back.
pub proof fn lemma_g2h_h2g(s: GuestSpace, a: u64)
    requires
        s.wf(),
        a < s.spec_size(),
    ensures
        s.spec_base() <= s.spec_base() + a < s.spec_base() + s.spec_size(),
        (s.spec_base() + a) - s.spec_base() == a,
{
}

/// `addr` rounded up to a multiple of `page_size`.
pub open spec fn align_up(addr: int, page_size: int) -> int {
    (addr + page_size - 1) / page_size * page_size
}

/// `addr` rounded down to a multiple of `page_size`.
pub open spec fn align_down(addr: int, page_size: int) -> int {
    addr / page_size * page_size
}

/// Round `addr` up to a page boundary.
pub fn page_align_up(addr: u64, page_size: u64) -> (r: u64)
    requires
        page_size > 0,
        addr + page_size - 1 <= u64::MAX,
    ensures
        r == align_up(addr as int, page_size as int),
        r % page_size == 0,
        addr <= r < addr + page_size,
{
    let x = addr + (page_size - 1);
    let q = x / page_size;
    proof {
        lemma_align(x as int, page_size as int);
    }
    q * page_size
}

/// Round `addr` down to a page boundary.
pub fn page_align_down(addr: u64, page_size: u64) -> (r: u64)
    requires
        page_size > 0,
    ensures
        r == align_down(addr as int, page_size as int),
        r % page_size == 0,
        r <= addr < r + page_size,
{
    let q = addr / page_size;
    proof {
        lemma_align(addr as int, page_size as int);
    }
    q * page_size
}

proof fn lemma_align(x: int, p: int)
    requires
        x >= 0,
        p > 0,
    ensures
        x / p * p <= x < x / p * p + p,
        (x / p * p) % p == 0,
        x / p >= 0,
{
    vstd::arithmetic::div_mod::lemma_fundamental_div_mod(x, p);
    vstd::arithmetic::div_mod::lemma_mod_multiples_basic(x / p, p);
    vstd::arithmetic::div_mod::lemma_div_pos_is_pos(x, p);
    assert(x / p * p == p * (x / p)) by (nonlinear_arith);
}

} // verus!
