use vstd::prelude::*;

verus! {

/// Cartridge storage as the address-space router sees it: a controller that
/// answers reads of the cartridge window 0x0000..=0x7FFF and takes writes to
/// it. How a controller banks a larger image into that window is its own
/// business; writes may switch banks and so change later reads.
pub trait BankController {
    /// The byte that a read of `addr` returns in the controller's current state.
    spec fn rom_byte(&self, addr: u16) -> u8;

    /// `next` is a state that the controller may be left in by a write of
    /// `value` at `addr`, such as a switch of bank.
    spec fn took_write(&self, addr: u16, value: u8, next: &Self) -> bool;

    fn read_rom(&self, addr: u16) -> (r: u8)
        requires
            addr <= 0x7FFF,
        ensures
            r == self.rom_byte(addr),
    ;

    fn write_rom(&mut self, addr: u16, value: u8)
        requires
            addr <= 0x7FFF,
        ensures
            old(self).took_write(addr, value, final(self)),
    ;
}

/// A cartridge without banking: the image is mapped at address zero, bytes
/// past its end read as 0xFF, and writes are ignored.
pub struct RomOnly {
    rom: Vec<u8>,
}

impl RomOnly {
    pub fn new(rom: Vec<u8>) -> (r: RomOnly)
        ensures
            r.image() == rom@,
    {
        RomOnly { rom }
    }

    /// The cartridge image.
    pub closed spec fn image(&self) -> Seq<u8> {
        self.rom@
    }
}

impl BankController for RomOnly {
    open spec fn rom_byte(&self, addr: u16) -> u8 {
        if (addr as int) < self.image().len() {
            self.image()[addr as int]
        } else {
            0xFF
        }
    }

    open spec fn took_write(&self, addr: u16, value: u8, next: &Self) -> bool {
        *next == *self
    }

    fn read_rom(&self, addr: u16) -> (r: u8) {
        if (addr as usize) < self.rom.len() {
            self.rom[addr as usize]
        } else {
            0xFF
        }
    }

    fn write_rom(&mut self, addr: u16, value: u8)
        ensures
            *final(self) == *old(self),
    {
    }
}

} // verus!
