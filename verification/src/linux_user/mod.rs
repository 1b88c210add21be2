pub mod guest_space;
pub mod elf;
pub mod loader;
pub mod syscall;
