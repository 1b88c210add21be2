use tcg::linux_user::elf::{Elf64Ehdr, Elf64Phdr, ElfError, PF_R, PF_W, PF_X, PT_LOAD, PT_PHDR};
use tcg::linux_user::guest_space::GUEST_STACK_TOP;
use tcg::linux_user::loader::{elf_to_prot, plan_load, plan_stack, LoadError};
use tcg::linux_user::syscall::{plan_syscall, Region, SyscallAction, SyscallResult, ENOSYS, SYS_BRK, SYS_EXIT, SYS_FUTEX, SYS_MMAP, SYS_WRITE};

fn ehdr(phoff: u64) -> Elf64Ehdr {
    Elf64Ehdr {
        e_ident: [0; 16],
        e_type: 2,
        e_machine: 243,
        e_version: 1,
        e_entry: 0x10078,
        e_phoff: phoff,
        e_shoff: 0,
        e_flags: 0,
        e_ehsize: 64,
        e_phentsize: 56,
        e_phnum: 2,
        e_shentsize: 0,
        e_shnum: 0,
        e_shstrndx: 0,
    }
}

fn load(vaddr: u64, memsz: u64, filesz: u64, flags: u32) -> Elf64Phdr {
    Elf64Phdr { p_type: PT_LOAD, p_flags: flags, p_offset: 0, p_vaddr: vaddr, p_paddr: vaddr, p_filesz: filesz, p_memsz: memsz, p_align: 4096 }
}

#[test]
fn load_plan_segments_and_brk() {
    let ph = [load(0x10000, 0x1234, 0x1000, PF_R | PF_X), load(0x12000, 0x3000, 0x100, PF_R | PF_W)];
    let plan = plan_load(&ehdr(64), &ph, 0x2000, 4096).unwrap();
    assert_eq!(plan.segments.len(), 2);
    assert_eq!(plan.segments[0].aligned_start, 0x10000);
    assert_eq!(plan.segments[0].aligned_size, 0x2000);
    assert!(plan.segments[0].prot.executable && !plan.segments[0].prot.writable);
    assert_eq!(plan.brk, 0x15000);
    // No PT_PHDR: first loadable segment plus the header table offset.
    assert_eq!(plan.phdr_addr, 0x10040);
}

#[test]
fn load_plan_phdr_segment_and_errors() {
    let mut phdr = load(0x10040, 0x70, 0, PF_R);
    phdr.p_type = PT_PHDR;
    let ph = [phdr, load(0x10000, 0x100, 0x100, PF_R)];
    assert_eq!(plan_load(&ehdr(64), &ph, 0x1000, 4096).unwrap().phdr_addr, 0x10040);
    assert_eq!(plan_load(&ehdr(64), &[phdr], 0x1000, 4096).err(), Some(LoadError::NoLoadSegment));
    let high = [load(GUEST_STACK_TOP, 0x10, 0, PF_R)];
    assert_eq!(plan_load(&ehdr(64), &high, 0x1000, 4096).err(), Some(LoadError::SegmentOutOfRange));
    let past = [load(0x10000, 0x100, 0x2000, PF_R)];
    assert_eq!(plan_load(&ehdr(64), &past, 0x1000, 4096).err(), Some(LoadError::Elf(ElfError::InvalidPhdr)));
}

#[test]
fn segment_prot() {
    let p = elf_to_prot(PF_R | PF_W);
    assert!(p.readable && p.writable && !p.executable);
}

#[test]
fn stack_layout() {
    let plan = plan_stack(0x10078, 0x10040, 2, &[5, 3], &[7], 9, 4096);
    assert_eq!(plan.random_addr, GUEST_STACK_TOP - 16);
    assert_eq!(plan.execfn_addr, GUEST_STACK_TOP - 16 - 10);
    assert_eq!(plan.envp_addrs, vec![plan.execfn_addr - 8]);
    let env_low = plan.execfn_addr - 8;
    assert_eq!(plan.argv_addrs, vec![env_low - 10, env_low - 4]);
    assert_eq!(plan.sp % 16, 0);
    assert_eq!(plan.words[0], 2);
    assert_eq!(plan.words[1], plan.argv_addrs[0]);
    assert_eq!(plan.words[3], 0);
    assert_eq!(plan.words[4], plan.envp_addrs[0]);
    assert_eq!(plan.words[5], 0);
    assert_eq!(plan.words.len(), 1 + 2 + 1 + 1 + 1 + 16);
    assert_eq!(&plan.words[plan.words.len() - 2..], &[0, 0]);
}

#[test]
fn syscall_decisions() {
    let mut regs = [0u64; 32];
    let mut next = 0x2000_0000u64;
    regs[17] = SYS_EXIT;
    regs[10] = 3;
    assert_eq!(plan_syscall(&regs, 0, &mut next, 4096), SyscallAction::Done(SyscallResult::Exit(3)));
    regs[17] = SYS_WRITE;
    regs[10] = 1;
    regs[11] = 0x100;
    regs[12] = 5;
    assert_eq!(plan_syscall(&regs, 0, &mut next, 4096), SyscallAction::Write { fd: 1, buf: 0x100, len: 5 });
    regs[17] = SYS_BRK;
    regs[10] = 0;
    assert_eq!(plan_syscall(&regs, 0x15000, &mut next, 4096), SyscallAction::Done(SyscallResult::Continue(0x15000)));
    regs[10] = 0x17010;
    assert_eq!(
        plan_syscall(&regs, 0x15000, &mut next, 4096),
        SyscallAction::Brk { map: Some(Region { addr: 0x15000, size: 0x3000 }), new_brk: 0x17010 }
    );
    regs[17] = SYS_MMAP;
    regs[10] = 0;
    regs[11] = 100;
    regs[12] = 3;
    assert_eq!(plan_syscall(&regs, 0, &mut next, 4096), SyscallAction::Mmap { addr: 0x2000_0000, len: 4096, prot: 3 });
    assert_eq!(next, 0x2000_1000);
    regs[17] = SYS_FUTEX;
    regs[10] = 0x500;
    regs[11] = 0x80;
    assert_eq!(plan_syscall(&regs, 0, &mut next, 4096), SyscallAction::Futex { uaddr: 0x500, ret: (-11i64) as u64 });
    regs[17] = 9999;
    assert_eq!(plan_syscall(&regs, 0, &mut next, 4096), SyscallAction::Done(SyscallResult::Continue(ENOSYS)));
}
