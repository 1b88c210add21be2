use vstd::prelude::*;

use crate::bytes::{le_u16, le_u32, le_u64, read_le16, read_le32, read_le64};

verus! {

/// File type of an executable.
pub const ET_EXEC: u16 = 2;
/// Machine number of RISC-V.
pub const EM_RISCV: u16 = 243;
/// Loadable segment.
pub const PT_LOAD: u32 = 1;
/// Segment holding the program header table.
pub const PT_PHDR: u32 = 6;
/// Segment flag: executable.
pub const PF_X: u32 = 1;
/// Segment flag: writable.
pub const PF_W: u32 = 2;
/// Segment flag: readable.
pub const PF_R: u32 = 4;
/// Auxiliary vector: end.
pub const AT_NULL: u64 = 0;
/// Auxiliary vector: address of the program headers.
pub const AT_PHDR: u64 = 3;
/// Auxiliary vector: size of a program header.
pub const AT_PHENT: u64 = 4;
/// Auxiliary vector: number of program headers.
pub const AT_PHNUM: u64 = 5;
/// Auxiliary vector: page size.
pub const AT_PAGESZ: u64 = 6;
/// Auxiliary vector: entry point.
pub const AT_ENTRY: u64 = 9;
/// Auxiliary vector: address of 16 random bytes.
pub const AT_RANDOM: u64 = 25;

/// Size of an ELF64 file header.
pub const EHDR_SIZE: usize = 64;
/// Size of an ELF64 program header.
pub const PHDR_SIZE: usize = 56;

/// Why an ELF image was refused.
#[derive(Debug, Clone, Copy, PartialEq, Eq, Structural)]
pub enum ElfError {
    TooSmall,
    InvalidMagic,
    UnsupportedClass,
    UnsupportedEndian,
    UnsupportedMachine,
    UnsupportedType,
    InvalidPhdr,
}

impl ElfError {
    /// The error's message.
    pub fn message(&self) -> (r: &'static str)
        ensures
            *self == ElfError::TooSmall ==> r@ == "file too small"@,
            *self == ElfError::InvalidMagic ==> r@ == "invalid ELF magic"@,
            *self == ElfError::UnsupportedClass ==> r@ == "not ELF64"@,
            *self == ElfError::UnsupportedEndian ==> r@ == "not little-endian"@,
            *self == ElfError::UnsupportedMachine ==> r@ == "not RISC-V"@,
            *self == ElfError::UnsupportedType ==> r@ == "not ET_EXEC"@,
            *self == ElfError::InvalidPhdr ==> r@ == "invalid program header"@,
    {
        match self {
            ElfError::TooSmall => "file too small",
            ElfError::InvalidMagic => "invalid ELF magic",
            ElfError::UnsupportedClass => "not ELF64",
            ElfError::UnsupportedEndian => "not little-endian",
            ElfError::UnsupportedMachine => "not RISC-V",
            ElfError::UnsupportedType => "not ET_EXEC",
            ElfError::InvalidPhdr => "invalid program header",
        }
    }
}

/// ELF64 file header.
#[derive(Debug, Clone, Copy)]
pub struct Elf64Ehdr {
    pub e_ident: [u8; 16],
    pub e_type: u16,
    pub e_machine: u16,
    pub e_version: u32,
    pub e_entry: u64,
    pub e_phoff: u64,
    pub e_shoff: u64,
    pub e_flags: u32,
    pub e_ehsize: u16,
    pub e_phentsize: u16,
    pub e_phnum: u16,
    pub e_shentsize: u16,
    pub e_shnum: u16,
    pub e_shstrndx: u16,
}

/// ELF64 program header.
#[derive(Debug, Clone, Copy)]
pub struct Elf64Phdr {
    pub p_type: u32,
    pub p_flags: u32,
    pub p_offset: u64,
    pub p_vaddr: u64,
    pub p_paddr: u64,
    pub p_filesz: u64,
    pub p_memsz: u64,
    pub p_align: u64,
}

/// `h` holds the header fields laid out in `d`.
pub open spec fn ehdr_parsed(h: Elf64Ehdr, d: Seq<u8>) -> bool {
    &&& h.e_ident@ == d.subrange(0, 16)
    &&& h.e_type == le_u16(d, 16)
    &&& h.e_machine == le_u16(d, 18)
    &&& h.e_version == le_u32(d, 20)
    &&& h.e_entry == le_u64(d, 24)
    &&& h.e_phoff == le_u64(d, 32)
    &&& h.e_shoff == le_u64(d, 40)
    &&& h.e_flags == le_u32(d, 48)
    &&& h.e_ehsize == le_u16(d, 52)
    &&& h.e_phentsize == le_u16(d, 54)
    &&& h.e_phnum == le_u16(d, 56)
    &&& h.e_shentsize == le_u16(d, 58)
    &&& h.e_shnum == le_u16(d, 60)
    &&& h.e_shstrndx == le_u16(d, 62)
}

/// `p` holds the program header fields laid out in `d` at `o`.
pub open spec fn phdr_parsed(p: Elf64Phdr, d: Seq<u8>, o: int) -> bool {
    &&& p.p_type == le_u32(d, o)
    &&& p.p_flags == le_u32(d, o + 4)
    &&& p.p_offset == le_u64(d, o + 8)
    &&& p.p_vaddr == le_u64(d, o + 16)
    &&& p.p_paddr == le_u64(d, o + 24)
    &&& p.p_filesz == le_u64(d, o + 32)
    &&& p.p_memsz == le_u64(d, o + 40)
    &&& p.p_align == le_u64(d, o + 48)
}

/// Why `validate_riscv64` refuses a header, if it does.
pub open spec fn spec_validate(h: Elf64Ehdr) -> Result<(), ElfError> {
    if h.e_ident@.subrange(0, 4) != seq![0x7fu8, 0x45u8, 0x4cu8, 0x46u8] {
        Err(ElfError::InvalidMagic)
    } else if h.e_ident@[4] != 2 {
        Err(ElfError::UnsupportedClass)
    } else if h.e_ident@[5] != 1 {
        Err(ElfError::UnsupportedEndian)
    } else if h.e_ident@[6] != 1 {
        Err(ElfError::InvalidMagic)
    } else if h.e_machine != EM_RISCV {
        Err(ElfError::UnsupportedMachine)
    } else if h.e_type != ET_EXEC {
        Err(ElfError::UnsupportedType)
    } else {
        Ok(())
    }
}

/// Whether the program header table of `h` is refused for an image of `n`
/// bytes: entries smaller than a program header, or a table that does not
/// fit (or whose size overflows).
pub open spec fn phdrs_refused(h: Elf64Ehdr, n: int) -> bool {
    ||| (h.e_phentsize as int) < PHDR_SIZE
    ||| (h.e_phoff as usize) + (h.e_phnum as int) * (h.e_phentsize as int) > usize::MAX
    ||| (h.e_phoff as usize) + (h.e_phnum as int) * (h.e_phentsize as int) > n
}

impl Elf64Ehdr {
    /// Read the file header at the start of `data`.
    pub fn from_bytes(data: &[u8]) -> (r: Result<Elf64Ehdr, ElfError>)
        ensures
            data@.len() < EHDR_SIZE <==> r is Err,
            r is Err ==> r == Err::<Elf64Ehdr, ElfError>(ElfError::TooSmall),
            r matches Ok(h) ==> ehdr_parsed(h, data@),
    {
        if data.len() < EHDR_SIZE {
            return Err(ElfError::TooSmall);
        }
        let mut ident = [0u8; 16];
        let mut i: usize = 0;
        while i < 16
            invariant
                i <= 16,
                data@.len() >= EHDR_SIZE,
                ident@.len() == 16,
                forall|k: int| 0 <= k < i ==> ident@[k] == data@[k],
            decreases 16 - i,
        {
            ident[i] = data[i];
            i = i + 1;
        }
        let h = Elf64Ehdr {
            e_ident: ident,
            e_type: read_le16(data, 16),
            e_machine: read_le16(data, 18),
            e_version: read_le32(data, 20),
            e_entry: read_le64(data, 24),
            e_phoff: read_le64(data, 32),
            e_shoff: read_le64(data, 40),
            e_flags: read_le32(data, 48),
            e_ehsize: read_le16(data, 52),
            e_phentsize: read_le16(data, 54),
            e_phnum: read_le16(data, 56),
            e_shentsize: read_le16(data, 58),
            e_shnum: read_le16(data, 60),
            e_shstrndx: read_le16(data, 62),
        };
        assert(h.e_ident@ =~= data@.subrange(0, 16));
        Ok(h)
    }

    /// Check that this is a little-endian ELF64 RISC-V executable.
    pub fn validate_riscv64(&self) -> (r: Result<(), ElfError>)
        ensures
            r == spec_validate(*self),
    {
        if !(self.e_ident[0] == 0x7f && self.e_ident[1] == 0x45 && self.e_ident[2] == 0x4c
            && self.e_ident[3] == 0x46) {
            assert(self.e_ident@.subrange(0, 4) != seq![0x7fu8, 0x45u8, 0x4cu8, 0x46u8]) by {
                if self.e_ident@.subrange(0, 4) == seq![0x7fu8, 0x45u8, 0x4cu8, 0x46u8] {
                    assert(self.e_ident@[0] == self.e_ident@.subrange(0, 4)[0]);
                    assert(self.e_ident@[1] == self.e_ident@.subrange(0, 4)[1]);
                    assert(self.e_ident@[2] == self.e_ident@.subrange(0, 4)[2]);
                    assert(self.e_ident@[3] == self.e_ident@.subrange(0, 4)[3]);
                }
            }
            return Err(ElfError::InvalidMagic);
        }
        assert(self.e_ident@.subrange(0, 4) =~= seq![0x7fu8, 0x45u8, 0x4cu8, 0x46u8]);
        if self.e_ident[4] != 2 {
            return Err(ElfError::UnsupportedClass);
        }
        if self.e_ident[5] != 1 {
            return Err(ElfError::UnsupportedEndian);
        }
        if self.e_ident[6] != 1 {
            return Err(ElfError::InvalidMagic);
        }
        if self.e_machine != EM_RISCV {
            return Err(ElfError::UnsupportedMachine);
        }
        if self.e_type != ET_EXEC {
            return Err(ElfError::UnsupportedType);
        }
        Ok(())
    }

    /// Read the program header table of the image `data`: `e_phnum`
    /// headers laid out back to back from `e_phoff`.
    pub fn program_headers(&self, data: &[u8]) -> (r: Result<Vec<Elf64Phdr>, ElfError>)
        ensures
            phdrs_refused(*self, data@.len() as int) <==> r is Err,
            r is Err ==> r == Err::<Vec<Elf64Phdr>, ElfError>(ElfError::InvalidPhdr),
            r matches Ok(v) ==> v@.len() == self.e_phnum && forall|i: int|
                0 <= i < v@.len() ==> phdr_parsed(
                    #[trigger] v@[i],
                    data@,
                    (self.e_phoff as usize) + i * PHDR_SIZE,
                ),
    {
        let off = self.e_phoff as usize;
        let num = self.e_phnum as usize;
        let ent = self.e_phentsize as usize;
        if ent < PHDR_SIZE {
            return Err(ElfError::InvalidPhdr);
        }
        let size = match num.checked_mul(ent) {
            Some(s) => s,
            None => {
                return Err(ElfError::InvalidPhdr);
            },
        };
        let end = match off.checked_add(size) {
            Some(e) => e,
            None => {
                return Err(ElfError::InvalidPhdr);
            },
        };
        if end > data.len() {
            return Err(ElfError::InvalidPhdr);
        }
        let mut out: Vec<Elf64Phdr> = Vec::new();
        let mut i: usize = 0;
        while i < num
            invariant
                i <= num,
                num == self.e_phnum,
                off == self.e_phoff as usize,
                ent >= PHDR_SIZE,
                off + num * ent <= data@.len(),
                data@.len() <= usize::MAX,
                out@.len() == i,
                forall|k: int| 0 <= k < i ==> phdr_parsed(#[trigger] out@[k], data@, off + k * PHDR_SIZE),
            decreases num - i,
        {
            assert(i * PHDR_SIZE + PHDR_SIZE <= num * ent) by (nonlinear_arith)
                requires
                    i < num,
                    ent >= PHDR_SIZE,
            ;
            let o = off + i * PHDR_SIZE;
            let p = Elf64Phdr {
                p_type: read_le32(data, o),
                p_flags: read_le32(data, o + 4),
                p_offset: read_le64(data, o + 8),
                p_vaddr: read_le64(data, o + 16),
                p_paddr: read_le64(data, o + 24),
                p_filesz: read_le64(data, o + 32),
                p_memsz: read_le64(data, o + 40),
                p_align: read_le64(data, o + 48),
            };
            out.push(p);
            i = i + 1;
        }
        Ok(out)
    }
}

} // verus!
