use vstd::prelude::*;

use crate::linux_user::guest_space::{align_up, page_align_up};

verus! {

// RISC-V Linux system call numbers.
pub const SYS_IOCTL: u64 = 29;
pub const SYS_CLOSE: u64 = 57;
pub const SYS_WRITE: u64 = 64;
pub const SYS_WRITEV: u64 = 66;
pub const SYS_READLINKAT: u64 = 78;
pub const SYS_FSTAT: u64 = 80;
pub const SYS_EXIT: u64 = 93;
pub const SYS_EXIT_GROUP: u64 = 94;
pub const SYS_SET_TID_ADDRESS: u64 = 96;
pub const SYS_FUTEX: u64 = 98;
pub const SYS_SET_ROBUST_LIST: u64 = 99;
pub const SYS_CLOCK_GETTIME: u64 = 113;
pub const SYS_TGKILL: u64 = 131;
pub const SYS_RT_SIGACTION: u64 = 134;
pub const SYS_RT_SIGPROCMASK: u64 = 135;
pub const SYS_UNAME: u64 = 160;
pub const SYS_GETPID: u64 = 172;
pub const SYS_GETTID: u64 = 178;
pub const SYS_BRK: u64 = 214;
pub const SYS_MUNMAP: u64 = 215;
pub const SYS_MMAP: u64 = 222;
pub const SYS_MPROTECT: u64 = 226;
pub const SYS_MADVISE: u64 = 233;
pub const SYS_RISCV_HWPROBE: u64 = 258;
pub const SYS_PRLIMIT64: u64 = 261;
pub const SYS_GETRANDOM: u64 = 278;
pub const SYS_RSEQ: u64 = 293;

/// `-ENOSYS`, `-ENOTTY`, `-EAGAIN` as returned in a register.
pub const ENOSYS: u64 = 0xFFFF_FFFF_FFFF_FFDA;
pub const ENOTTY: u64 = 0xFFFF_FFFF_FFFF_FFE7;
pub const EAGAIN: u64 = 0xFFFF_FFFF_FFFF_FFF5;

/// The outcome of a system call.
#[derive(Debug, Clone, Copy, PartialEq, Eq, Structural)]
pub enum SyscallResult {
    /// Continue execution with this value in a0.
    Continue(u64),
    /// The program exited with this code.
    Exit(i32),
}

/// A range of guest memory.
#[derive(Debug, Clone, Copy, PartialEq, Eq, Structural)]
pub struct Region {
    pub addr: u64,
    pub size: u64,
}

/// What a system call needs from the host.
#[derive(Debug, Clone, Copy, PartialEq, Eq, Structural)]
pub enum SyscallAction {
    /// Nothing: the result is known.
    Done(SyscallResult),
    /// Write `len` bytes at guest `buf` to `fd`.
    Write { fd: i32, buf: u64, len: u64 },
    /// Map the region `map` read/write if given, ignoring failure; then
    /// set the program break to `new_brk` and return it.
    Brk { map: Option<Region>, new_brk: u64 },
    /// Map `len` bytes at guest `addr` with `prot`: return `addr`, or
    /// `-ENOMEM` when the mapping fails.
    Mmap { addr: u64, len: u64, prot: i32 },
    /// Change the protection of a range: 0, or `-EINVAL` on failure.
    Mprotect { addr: u64, len: u64, prot: i32 },
    /// Zero `len` bytes at guest `buf` and return `len`.
    GetRandom { buf: u64, len: u64 },
    /// Check that `uaddr` is a guest address, then return `ret`.
    Futex { uaddr: u64, ret: u64 },
    /// The gathering write of `iovcnt` buffers described at `iov`.
    Writev { fd: i32, iov: u64, iovcnt: u64 },
    /// Fill the `stat` at `buf` for `fd`.
    Fstat { fd: i32, buf: u64 },
    /// Report the limits of `resource` at `old_rlim` (when not 0).
    Prlimit { resource: u64, old_rlim: u64 },
    /// Fill the `utsname` at `buf`.
    Uname { buf: u64 },
    /// Resolve the link named at guest `path` into `buf` of `bufsiz` bytes.
    Readlinkat { path: u64, buf: u64, bufsiz: u64 },
    /// Read clock `clk` into the `timespec` at `tp`.
    ClockGettime { clk: i32, tp: u64 },
}

/// The program break after `brk(a0)` when the break is `brk`: the request
/// when it does not shrink the break, mapping the pages between the old and
/// new page-aligned breaks.
pub open spec fn spec_brk_action(a0: u64, brk: u64, ps: u64) -> SyscallAction {
    if a0 == 0 {
        SyscallAction::Done(SyscallResult::Continue(brk))
    } else if a0 >= brk {
        let new_end = align_up(a0 as int, ps as int);
        let old_end = align_up(brk as int, ps as int);
        SyscallAction::Brk {
            map: if a0 + ps - 1 <= u64::MAX && new_end > old_end {
                Some(Region { addr: old_end as u64, size: (new_end - old_end) as u64 })
            } else {
                None
            },
            new_brk: a0,
        }
    } else {
        SyscallAction::Done(SyscallResult::Continue(brk))
    }
}

/// The action for system call `nr` with arguments `a` (a0..a3), the break
/// at `brk` and anonymous mappings placed from `mmap_next`.
pub open spec fn spec_action(nr: u64, a: Seq<u64>, brk: u64, mmap_next: u64, ps: u64) -> SyscallAction {
    if nr == SYS_WRITE {
        SyscallAction::Write { fd: a[0] as i32, buf: a[1], len: a[2] }
    } else if nr == SYS_EXIT || nr == SYS_EXIT_GROUP {
        SyscallAction::Done(SyscallResult::Exit(a[0] as i32))
    } else if nr == SYS_BRK {
        spec_brk_action(a[0], brk, ps)
    } else if nr == SYS_MMAP {
        SyscallAction::Mmap {
            addr: if a[0] != 0 {
                a[0]
            } else {
                mmap_next
            },
            len: if a[1] + ps - 1 <= u64::MAX {
                align_up(a[1] as int, ps as int) as u64
            } else {
                0
            },
            prot: a[2] as i32,
        }
    } else if nr == SYS_MPROTECT {
        SyscallAction::Mprotect { addr: a[0], len: a[1], prot: a[2] as i32 }
    } else if nr == SYS_MUNMAP || nr == SYS_SET_ROBUST_LIST || nr == SYS_RT_SIGACTION || nr
        == SYS_RT_SIGPROCMASK || nr == SYS_MADVISE || nr == SYS_CLOSE {
        SyscallAction::Done(SyscallResult::Continue(0))
    } else if nr == SYS_SET_TID_ADDRESS || nr == SYS_GETPID || nr == SYS_GETTID {
        SyscallAction::Done(SyscallResult::Continue(1))
    } else if nr == SYS_GETRANDOM {
        SyscallAction::GetRandom { buf: a[0], len: a[1] }
    } else if nr == SYS_RSEQ || nr == SYS_RISCV_HWPROBE {
        SyscallAction::Done(SyscallResult::Continue(ENOSYS))
    } else if nr == SYS_FUTEX {
        SyscallAction::Futex {
            uaddr: a[0],
            ret: if a[1] % 128 == 0 {
                EAGAIN
            } else if a[1] % 128 == 1 {
                0
            } else {
                ENOSYS
            },
        }
    } else if nr == SYS_TGKILL {
        SyscallAction::Done(
            if a[2] == 6 {
                SyscallResult::Exit(134)
            } else {
                SyscallResult::Continue(0)
            },
        )
    } else if nr == SYS_WRITEV {
        SyscallAction::Writev { fd: a[0] as i32, iov: a[1], iovcnt: a[2] }
    } else if nr == SYS_IOCTL {
        SyscallAction::Done(SyscallResult::Continue(ENOTTY))
    } else if nr == SYS_FSTAT {
        SyscallAction::Fstat { fd: a[0] as i32, buf: a[1] }
    } else if nr == SYS_PRLIMIT64 {
        SyscallAction::Prlimit { resource: a[1], old_rlim: a[3] }
    } else if nr == SYS_UNAME {
        SyscallAction::Uname { buf: a[0] }
    } else if nr == SYS_READLINKAT {
        SyscallAction::Readlinkat { path: a[1], buf: a[2], bufsiz: a[3] }
    } else if nr == SYS_CLOCK_GETTIME {
        SyscallAction::ClockGettime { clk: a[0] as i32, tp: a[1] }
    } else {
        SyscallAction::Done(SyscallResult::Continue(ENOSYS))
    }
}

/// Where the next anonymous mapping goes after `spec_action`.
pub open spec fn spec_mmap_next(nr: u64, a: Seq<u64>, mmap_next: u64, ps: u64) -> u64 {
    match spec_action(nr, a, 0, mmap_next, ps) {
        SyscallAction::Mmap { addr: _, len, prot: _ } => if a[0] == 0 {
            ((mmap_next + len) % 0x1_0000_0000_0000_0000) as u64
        } else {
            mmap_next
        },
        _ => mmap_next,
    }
}

/// Decide what the system call in `regs` (number in a7, arguments in
/// a0..a3) needs, with the program break at `brk`; an anonymous mapping
/// without an address is placed at `mmap_next`, which moves past it.
pub fn plan_syscall(regs: &[u64; 32], brk: u64, mmap_next: &mut u64, page_size: u64) -> (r: SyscallAction)
    requires
        page_size > 0,
    ensures
        r == spec_action(regs@[17], regs@.subrange(10, 14), brk, *old(mmap_next), page_size),
        *final(mmap_next) == spec_mmap_next(regs@[17], regs@.subrange(10, 14), *old(mmap_next), page_size),
{
    let nr = regs[17];
    let a0 = regs[10];
    let a1 = regs[11];
    let a2 = regs[12];
    let a3 = regs[13];
    let ghost a = regs@.subrange(10, 14);
    assert(a[0] == a0 && a[1] == a1 && a[2] == a2 && a[3] == a3);
    #[verifier::truncate]
    let f0 = a0 as i32;
    #[verifier::truncate]
    let p2 = a2 as i32;
    if nr == SYS_WRITE {
        SyscallAction::Write { fd: f0, buf: a1, len: a2 }
    } else if nr == SYS_EXIT || nr == SYS_EXIT_GROUP {
        SyscallAction::Done(SyscallResult::Exit(f0))
    } else if nr == SYS_BRK {
        if a0 == 0 {
            SyscallAction::Done(SyscallResult::Continue(brk))
        } else if a0 >= brk {
            let map = if a0 <= u64::MAX - (page_size - 1) {
                let new_end = page_align_up(a0, page_size);
                let old_end = page_align_up(brk, page_size);
                if new_end > old_end {
                    Some(Region { addr: old_end, size: new_end - old_end })
                } else {
                    None
                }
            } else {
                None
            };
            SyscallAction::Brk { map, new_brk: a0 }
        } else {
            SyscallAction::Done(SyscallResult::Continue(brk))
        }
    } else if nr == SYS_MMAP {
        let len = if a1 <= u64::MAX - (page_size - 1) {
            page_align_up(a1, page_size)
        } else {
            0
        };
        let addr = if a0 != 0 {
            a0
        } else {
            let at = *mmap_next;
            *mmap_next = at.wrapping_add(len);
            at
        };
        SyscallAction::Mmap { addr, len, prot: p2 }
    } else if nr == SYS_MPROTECT {
        SyscallAction::Mprotect { addr: a0, len: a1, prot: p2 }
    } else if nr == SYS_MUNMAP || nr == SYS_SET_ROBUST_LIST || nr == SYS_RT_SIGACTION || nr
        == SYS_RT_SIGPROCMASK || nr == SYS_MADVISE || nr == SYS_CLOSE {
        SyscallAction::Done(SyscallResult::Continue(0))
    } else if nr == SYS_SET_TID_ADDRESS || nr == SYS_GETPID || nr == SYS_GETTID {
        SyscallAction::Done(SyscallResult::Continue(1))
    } else if nr == SYS_GETRANDOM {
        SyscallAction::GetRandom { buf: a0, len: a1 }
    } else if nr == SYS_RSEQ || nr == SYS_RISCV_HWPROBE {
        SyscallAction::Done(SyscallResult::Continue(ENOSYS))
    } else if nr == SYS_FUTEX {
        let cmd = a1 % 128;
        let ret = if cmd == 0 {
            EAGAIN
        } else if cmd == 1 {
            0
        } else {
            ENOSYS
        };
        SyscallAction::Futex { uaddr: a0, ret }
    } else if nr == SYS_TGKILL {
        if a2 == 6 {
            SyscallAction::Done(SyscallResult::Exit(134))
        } else {
            SyscallAction::Done(SyscallResult::Continue(0))
        }
    } else if nr == SYS_WRITEV {
        SyscallAction::Writev { fd: f0, iov: a1, iovcnt: a2 }
    } else if nr == SYS_IOCTL {
        SyscallAction::Done(SyscallResult::Continue(ENOTTY))
    } else if nr == SYS_FSTAT {
        SyscallAction::Fstat { fd: f0, buf: a1 }
    } else if nr == SYS_PRLIMIT64 {
        SyscallAction::Prlimit { resource: a1, old_rlim: a3 }
    } else if nr == SYS_UNAME {
        SyscallAction::Uname { buf: a0 }
    } else if nr == SYS_READLINKAT {
        SyscallAction::Readlinkat { path: a1, buf: a2, bufsiz: a3 }
    } else if nr == SYS_CLOCK_GETTIME {
        SyscallAction::ClockGettime { clk: f0, tp: a1 }
    } else {
        SyscallAction::Done(SyscallResult::Continue(ENOSYS))
    }
}

/// The system calls that hand guest memory to the host take their arguments
/// in the Linux order: `write(fd, buf, count)` (64), `writev(fd, iov,
/// iovcnt)` (66), `fstat(fd, statbuf)` (80), `mprotect(addr, len, prot)`
/// (226), `getrandom(buf, buflen)` (278), `exit(status)` and `exit_group`
/// (93, 94), `readlinkat(dirfd, path, buf, bufsiz)` (78),
/// `clock_gettime(clockid, tp)` (113), `uname(buf)` (160),
/// `prlimit64(pid, resource, new, old)` (261), `mmap(addr, len, prot, ..)`
/// (222) and `futex(uaddr, op, ..)` (98), with the arguments in a0..a3 and a
/// descriptor, status, clock or protection as a 32-bit integer.
pub proof fn law_syscall_argument_order(a: Seq<u64>, brk: u64, mmap_next: u64, page_size: u64)
    requires
        a.len() == 4,
    ensures
        spec_action(64, a, brk, mmap_next, page_size) matches SyscallAction::Write { fd, buf, len }
            && fd == a[0] as i32 && buf == a[1] && len == a[2],
        spec_action(66, a, brk, mmap_next, page_size) matches SyscallAction::Writev { fd, iov, iovcnt }
            && fd == a[0] as i32 && iov == a[1] && iovcnt == a[2],
        spec_action(80, a, brk, mmap_next, page_size) matches SyscallAction::Fstat { fd, buf }
            && fd == a[0] as i32 && buf == a[1],
        spec_action(226, a, brk, mmap_next, page_size) matches SyscallAction::Mprotect { addr, len, prot }
            && addr == a[0] && len == a[1] && prot == a[2] as i32,
        spec_action(278, a, brk, mmap_next, page_size) matches SyscallAction::GetRandom { buf, len }
            && buf == a[0] && len == a[1],
        spec_action(93, a, brk, mmap_next, page_size) matches SyscallAction::Done(SyscallResult::Exit(code))
            && code == a[0] as i32,
        spec_action(94, a, brk, mmap_next, page_size) matches SyscallAction::Done(SyscallResult::Exit(code))
            && code == a[0] as i32,
        spec_action(78, a, brk, mmap_next, page_size) matches SyscallAction::Readlinkat { path, buf, bufsiz }
            && path == a[1] && buf == a[2] && bufsiz == a[3],
        spec_action(113, a, brk, mmap_next, page_size) matches SyscallAction::ClockGettime { clk, tp }
            && clk == a[0] as i32 && tp == a[1],
        spec_action(160, a, brk, mmap_next, page_size) matches SyscallAction::Uname { buf } && buf == a[0],
        spec_action(261, a, brk, mmap_next, page_size) matches SyscallAction::Prlimit { resource, old_rlim }
            && resource == a[1] && old_rlim == a[3],
        spec_action(222, a, brk, mmap_next, page_size) matches SyscallAction::Mmap { addr, len, prot }
            && prot == a[2] as i32 && (a[0] != 0 ==> addr == a[0]),
        spec_action(98, a, brk, mmap_next, page_size) matches SyscallAction::Futex { uaddr, ret } && uaddr == a[0],
{
}

/// What the emulated calls answer without touching memory, in the Linux
/// conventions, errors as their negated numbers in 64 bits: an unknown call fails with `-ENOSYS` (-38) and `ioctl` with
/// `-ENOTTY` (-25); `futex` waits (operation 0, with or without the private
/// flag 128) fail with `-EAGAIN` (-11) and wakes (operation 1) return 0; and
/// `tgkill` with `SIGABRT` (6) ends the program with status 134 (128 + 6).
pub proof fn law_syscall_answers(a: Seq<u64>, brk: u64, mmap_next: u64, page_size: u64)
    requires
        a.len() == 4,
    ensures
        spec_action(0, a, brk, mmap_next, page_size) matches SyscallAction::Done(SyscallResult::Continue(v))
            && v + 38 == 0x1_0000_0000_0000_0000,
        spec_action(29, a, brk, mmap_next, page_size) matches SyscallAction::Done(SyscallResult::Continue(v))
            && v + 25 == 0x1_0000_0000_0000_0000,
        a[1] == 0 || a[1] == 128 ==> (spec_action(98, a, brk, mmap_next, page_size) matches SyscallAction::Futex { uaddr, ret }
            && ret + 11 == 0x1_0000_0000_0000_0000),
        a[1] == 1 || a[1] == 129 ==> (spec_action(98, a, brk, mmap_next, page_size) matches SyscallAction::Futex { uaddr, ret }
            && ret == 0),
        a[2] == 6 ==> spec_action(131, a, brk, mmap_next, page_size) == SyscallAction::Done(SyscallResult::Exit(134)),
        a[2] != 6 ==> spec_action(131, a, brk, mmap_next, page_size) == SyscallAction::Done(SyscallResult::Continue(0)),
{
}

} // verus!
