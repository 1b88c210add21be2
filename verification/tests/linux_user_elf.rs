use tcg::linux_user::elf::{Elf64Ehdr, ElfError, EHDR_SIZE, EM_RISCV, ET_EXEC, PHDR_SIZE, PT_LOAD};
use tcg::linux_user::guest_space::{page_align_down, page_align_up, GuestSpace};

fn make_valid_ehdr() -> Vec<u8> {
    let mut buf = vec![0u8; EHDR_SIZE];
    buf[0..4].copy_from_slice(&[0x7f, b'E', b'L', b'F']);
    buf[4] = 2;
    buf[5] = 1;
    buf[6] = 1;
    buf[16] = ET_EXEC as u8;
    buf[17] = (ET_EXEC >> 8) as u8;
    buf[18] = EM_RISCV as u8;
    buf[19] = (EM_RISCV >> 8) as u8;
    buf[20] = 1;
    let sz = EHDR_SIZE as u16;
    buf[52] = sz as u8;
    buf[53] = (sz >> 8) as u8;
    let phsz = PHDR_SIZE as u16;
    buf[54] = phsz as u8;
    buf[55] = (phsz >> 8) as u8;
    buf
}

#[test]
fn test_parse_valid_ehdr() {
    let buf = make_valid_ehdr();
    let ehdr = Elf64Ehdr::from_bytes(&buf).unwrap();
    ehdr.validate_riscv64().unwrap();
    assert_eq!(ehdr.e_machine, EM_RISCV);
    assert_eq!(ehdr.e_type, ET_EXEC);
}

#[test]
fn test_too_small() {
    let buf = [0u8; 4];
    assert!(Elf64Ehdr::from_bytes(&buf).is_err());
}

#[test]
fn test_invalid_magic() {
    let mut buf = make_valid_ehdr();
    buf[0] = 0;
    let ehdr = Elf64Ehdr::from_bytes(&buf).unwrap();
    assert!(matches!(ehdr.validate_riscv64(), Err(ElfError::InvalidMagic)));
}

#[test]
fn test_wrong_class() {
    let mut buf = make_valid_ehdr();
    buf[4] = 1;
    let ehdr = Elf64Ehdr::from_bytes(&buf).unwrap();
    assert!(matches!(ehdr.validate_riscv64(), Err(ElfError::UnsupportedClass)));
}

#[test]
fn test_wrong_machine() {
    let mut buf = make_valid_ehdr();
    buf[18] = 0x3e;
    buf[19] = 0;
    let ehdr = Elf64Ehdr::from_bytes(&buf).unwrap();
    assert!(matches!(ehdr.validate_riscv64(), Err(ElfError::UnsupportedMachine)));
}

#[test]
fn test_program_headers() {
    let phdr_size = PHDR_SIZE;
    let ehdr_size = EHDR_SIZE;
    let mut buf = make_valid_ehdr();
    let off = ehdr_size as u64;
    buf[32..40].copy_from_slice(&off.to_le_bytes());
    buf[56] = 1;
    buf[57] = 0;
    buf.resize(ehdr_size + phdr_size, 0);
    buf[ehdr_size] = PT_LOAD as u8;
    let ehdr = Elf64Ehdr::from_bytes(&buf).unwrap();
    let phdrs = ehdr.program_headers(&buf).unwrap();
    assert_eq!(phdrs.len(), 1);
    assert_eq!(phdrs[0].p_type, PT_LOAD);
}

#[test]
fn elf_header_fields_little_endian() {
    let mut buf = make_valid_ehdr();
    buf[24..32].copy_from_slice(&0x1122_3344_5566_7788u64.to_le_bytes());
    let ehdr = Elf64Ehdr::from_bytes(&buf).unwrap();
    assert_eq!(ehdr.e_entry, 0x1122_3344_5566_7788);
    assert_eq!(ehdr.e_version, 1);
    assert_eq!(ehdr.e_phentsize as usize, PHDR_SIZE);
}

#[test]
fn elf_other_refusals() {
    let mut buf = make_valid_ehdr();
    buf[5] = 2;
    assert_eq!(Elf64Ehdr::from_bytes(&buf).unwrap().validate_riscv64(), Err(ElfError::UnsupportedEndian));
    let mut buf = make_valid_ehdr();
    buf[6] = 0;
    assert_eq!(Elf64Ehdr::from_bytes(&buf).unwrap().validate_riscv64(), Err(ElfError::InvalidMagic));
    let mut buf = make_valid_ehdr();
    buf[16] = 3;
    assert_eq!(Elf64Ehdr::from_bytes(&buf).unwrap().validate_riscv64(), Err(ElfError::UnsupportedType));
    // Program header table past the end of the image.
    let mut buf = make_valid_ehdr();
    buf[32] = EHDR_SIZE as u8;
    buf[56] = 1;
    let ehdr = Elf64Ehdr::from_bytes(&buf).unwrap();
    assert_eq!(ehdr.program_headers(&buf).err(), Some(ElfError::InvalidPhdr));
    // Entries smaller than a program header.
    let mut buf = make_valid_ehdr();
    buf[54] = 8;
    let ehdr = Elf64Ehdr::from_bytes(&buf).unwrap();
    assert_eq!(ehdr.program_headers(&buf).err(), Some(ElfError::InvalidPhdr));
}

#[test]
fn test_page_align() {
    assert_eq!(page_align_up(0, 4096), 0);
    assert_eq!(page_align_up(1, 4096), 4096);
    assert_eq!(page_align_up(4096, 4096), 4096);
    assert_eq!(page_align_up(4097, 4096), 8192);
    assert_eq!(page_align_down(4095, 4096), 0);
    assert_eq!(page_align_down(4096, 4096), 4096);
}

#[test]
fn test_g2h_h2g_roundtrip() {
    let space = GuestSpace::from_host_region(0x7000_0000_0000, 1 << 30);
    let addr: u64 = 0x1000;
    let host = space.g2h(addr);
    assert_eq!(host, 0x7000_0000_1000);
    assert_eq!(space.h2g(host), addr);
    assert_eq!(space.guest_base(), 0x7000_0000_0000);
}

#[test]
fn guest_space_brk() {
    let mut space = GuestSpace::from_host_region(0x1000, 0x10000);
    assert_eq!(space.brk(), 0);
    space.set_brk(0x8000);
    assert_eq!(space.brk(), 0x8000);
}
