pub mod auxv;
pub mod elf;
