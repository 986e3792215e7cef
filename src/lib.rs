//! Front end of an 8-bit CPU emulator: the register file, the address-space
//! router that maps the 16-bit bus onto working memory and cartridge storage,
//! and a side-effect-free instruction decoder that renders opcodes as text.

pub mod registers;
pub mod text;
pub mod cartridge;
pub mod mmu;
pub mod decode;
