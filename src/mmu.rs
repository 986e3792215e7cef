use vstd::prelude::*;
use crate::cartridge::BankController;

verus! {

/// Size in bytes of working memory.
pub const WORK_RAM_SIZE: usize = 8192;

/// The ranges of the 16-bit address space, in address order.
#[derive(Clone, Copy, Debug, PartialEq, Eq)]
pub enum Region {
    /// 0x0000..=0x7FFF, served by the bank controller.
    Cartridge,
    /// 0x8000..=0x9FFF.
    VideoRam,
    /// 0xA000..=0xBFFF, RAM on the cartridge.
    ExternalRam,
    /// 0xC000..=0xDFFF.
    WorkRam,
    /// 0xE000..=0xFDFF, an alias of working memory 0x2000 lower.
    Echo,
    /// 0xFE00..=0xFE9F, the sprite attribute table.
    SpriteTable,
    /// 0xFEA0..=0xFEFF.
    Unusable,
    /// 0xFF00..=0xFF7F.
    IoPorts,
    /// 0xFF80..=0xFFFE.
    HighRam,
    /// 0xFFFF.
    InterruptEnable,
}

/// Why an access was not served.
#[derive(Clone, Copy, Debug, PartialEq, Eq)]
pub enum MemError {
    /// The address lies in a range that has no backing behaviour yet.
    UnimplementedRegion { addr: u16, region: Region },
    /// The access reaches past the top of the 16-bit bus: a 16-bit read at
    /// 0xFFFF asks for 0x10000.
    AddressOutOfRange { requested: u32 },
}

/// The range that `addr` falls in.
pub open spec fn region_of(addr: u16) -> Region {
    if addr <= 0x7FFF {
        Region::Cartridge
    } else if addr <= 0x9FFF {
        Region::VideoRam
    } else if addr <= 0xBFFF {
        Region::ExternalRam
    } else if addr <= 0xDFFF {
        Region::WorkRam
    } else if addr <= 0xFDFF {
        Region::Echo
    } else if addr <= 0xFE9F {
        Region::SpriteTable
    } else if addr <= 0xFEFF {
        Region::Unusable
    } else if addr <= 0xFF7F {
        Region::IoPorts
    } else if addr <= 0xFFFE {
        Region::HighRam
    } else {
        Region::InterruptEnable
    }
}

/// The working-memory offset that an address of working memory or of its
/// echo stands for.
pub open spec fn ram_offset(addr: u16) -> int {
    if region_of(addr) == Region::Echo {
        addr - 0xE000
    } else {
        addr - 0xC000
    }
}

/// Classifies an address into its range.
pub fn region(addr: u16) -> (r: Region)
    ensures
        r == region_of(addr),
{
    if addr <= 0x7FFF {
        Region::Cartridge
    } else if addr <= 0x9FFF {
        Region::VideoRam
    } else if addr <= 0xBFFF {
        Region::ExternalRam
    } else if addr <= 0xDFFF {
        Region::WorkRam
    } else if addr <= 0xFDFF {
        Region::Echo
    } else if addr <= 0xFE9F {
        Region::SpriteTable
    } else if addr <= 0xFEFF {
        Region::Unusable
    } else if addr <= 0xFF7F {
        Region::IoPorts
    } else if addr <= 0xFFFE {
        Region::HighRam
    } else {
        Region::InterruptEnable
    }
}

/// The address-space router: owns working memory and the cartridge's bank
/// controller, and routes each access on the 16-bit bus to one of them.
pub struct MMU<B: BankController> {
    mbc: B,
    ram: Vec<u8>,
}

impl<B: BankController> MMU<B> {
    /// Working memory, indexed from 0xC000.
    pub closed spec fn ram(&self) -> Seq<u8> {
        self.ram@
    }

    /// The cartridge's bank controller.
    pub closed spec fn cart(&self) -> B {
        self.mbc
    }

    pub open spec fn wf(&self) -> bool {
        self.ram().len() == WORK_RAM_SIZE
    }

    /// What a read of `addr` gives.
    pub open spec fn read_spec(&self, addr: u16) -> Result<u8, MemError> {
        match region_of(addr) {
            Region::Cartridge => Ok(self.cart().rom_byte(addr)),
            Region::WorkRam => Ok(self.ram()[ram_offset(addr)]),
            Region::Echo => Ok(self.ram()[ram_offset(addr)]),
            Region::InterruptEnable => Ok(0),
            r => Err(MemError::UnimplementedRegion { addr, region: r }),
        }
    }

    /// Whether a write of `value` at `addr` is served: only the cartridge
    /// window, working memory and its echo take writes.
    pub open spec fn writable(addr: u16) -> bool {
        region_of(addr) == Region::Cartridge || region_of(addr) == Region::WorkRam
            || region_of(addr) == Region::Echo
    }

    /// `next` is what a served write of `value` at `addr` leaves of `self`.
    pub open spec fn after_write(&self, addr: u16, value: u8, next: &Self) -> bool {
        &&& next.wf()
        &&& if region_of(addr) == Region::Cartridge {
            &&& next.ram() == self.ram()
            &&& self.cart().took_write(addr, value, &next.cart())
        } else {
            &&& next.ram() == self.ram().update(ram_offset(addr), value)
            &&& next.cart() == self.cart()
        }
    }

    /// A router over the cartridge behind `mbc`, with working memory zeroed.
    pub fn new(mbc: B) -> (m: Self)
        ensures
            m.wf(),
            m.cart() == mbc,
            m.ram() == Seq::new(WORK_RAM_SIZE as nat, |i: int| 0u8),
    {
        let mut ram: Vec<u8> = Vec::new();
        let mut i: usize = 0;
        while i < WORK_RAM_SIZE
            invariant
                i <= WORK_RAM_SIZE,
                ram@ == Seq::new(i as nat, |j: int| 0u8),
            decreases WORK_RAM_SIZE - i,
        {
            ram.push(0);
            i = i + 1;
            assert(ram@ =~= Seq::new(i as nat, |j: int| 0u8));
        }
        MMU { mbc, ram }
    }

    /// Reads the byte at `addr`. The echo range is served from working
    /// memory 0x2000 lower; 0xFFFF reads as zero; the ranges with no backing
    /// behaviour fail with `UnimplementedRegion`.
    pub fn read(&self, addr: u16) -> (r: Result<u8, MemError>)
        requires
            self.wf(),
        ensures
            r == self.read_spec(addr),
    {
        let reg = region(addr);
        match reg {
            Region::Cartridge => Ok(self.mbc.read_rom(addr)),
            Region::WorkRam => Ok(self.ram[(addr - 0xC000) as usize]),
            Region::Echo => Ok(self.ram[(addr - 0xE000) as usize]),
            Region::InterruptEnable => Ok(0),
            _ => Err(MemError::UnimplementedRegion { addr, region: reg }),
        }
    }

    /// What a 16-bit little-endian read at `addr` gives: the byte at `addr`
    /// is the low half, the byte after it the high half.
    pub open spec fn read_wide_spec(&self, addr: u16) -> Result<u16, MemError> {
        match self.read_spec(addr) {
            Err(e) => Err(e),
            Ok(lo) => if addr == 0xFFFF {
                Err(MemError::AddressOutOfRange { requested: 0x10000 })
            } else {
                match self.read_spec((addr + 1) as u16) {
                    Err(e) => Err(e),
                    Ok(hi) => Ok((lo as u16) | ((hi as u16) << 8u16)),
                }
            },
        }
    }

    /// Reads a 16-bit little-endian value from `addr` and the address after
    /// it. The first failing byte read decides the error; at 0xFFFF the
    /// second byte would lie past the bus, which fails with
    /// `AddressOutOfRange` rather than wrapping to 0x0000.
    pub fn read_wide(&self, addr: u16) -> (r: Result<u16, MemError>)
        requires
            self.wf(),
        ensures
            r == self.read_wide_spec(addr),
    {
        let lo = self.read(addr)?;
        if addr == 0xFFFF {
            return Err(MemError::AddressOutOfRange { requested: 0x10000 });
        }
        let hi = self.read(addr + 1)?;
        Ok((lo as u16) | ((hi as u16) << 8u16))
    }

    /// Writes `value` at `addr`. The cartridge window goes to the bank
    /// controller; working memory and its echo share storage. Every other
    /// range, 0xFFFF included, fails with `UnimplementedRegion` and leaves the
    /// router unchanged: writes are served in fewer ranges than reads.
    pub fn write(&mut self, addr: u16, value: u8) -> (r: Result<(), MemError>)
        requires
            old(self).wf(),
        ensures
            Self::writable(addr) ==> r == Ok::<(), MemError>(()) && old(self).after_write(
                addr,
                value,
                final(self),
            ),
            !Self::writable(addr) ==> r == Err::<(), MemError>(
                MemError::UnimplementedRegion { addr, region: region_of(addr) },
            ) && *final(self) == *old(self),
    {
        let reg = region(addr);
        match reg {
            Region::Cartridge => {
                self.mbc.write_rom(addr, value);
                Ok(())
            },
            Region::WorkRam => {
                self.ram.set((addr - 0xC000) as usize, value);
                Ok(())
            },
            Region::Echo => {
                self.ram.set((addr - 0xE000) as usize, value);
                Ok(())
            },
            _ => Err(MemError::UnimplementedRegion { addr, region: reg }),
        }
    }
}

/// A byte written to working memory reads back unchanged from the same address.
pub proof fn lemma_write_then_read<B: BankController>(
    m: MMU<B>,
    next: MMU<B>,
    addr: u16,
    value: u8,
)
    requires
        m.wf(),
        0xC000 <= addr <= 0xDFFF,
        m.after_write(addr, value, &next),
    ensures
        next.read_spec(addr) == Ok::<u8, MemError>(value),
{
}

/// Working memory and its echo are one store: a byte written at `addr` reads
/// back at `addr + 0x2000`, and one written at `addr + 0x2000` reads back at
/// `addr`. The echo ends at 0xFDFF, so this holds for `addr` up to 0xDDFF.
pub proof fn lemma_echo_aliases_work_ram<B: BankController>(
    m: MMU<B>,
    next: MMU<B>,
    addr: u16,
    value: u8,
)
    requires
        m.wf(),
        0xC000 <= addr <= 0xDDFF,
    ensures
        addr + 0x2000 <= 0xFFFF,
        m.after_write(addr, value, &next) ==> next.read_spec((addr + 0x2000) as u16) == Ok::<
            u8,
            MemError,
        >(value),
        m.after_write((addr + 0x2000) as u16, value, &next) ==> next.read_spec(addr) == Ok::<
            u8,
            MemError,
        >(value),
{
}

/// The little-endian composition in arithmetic terms: low byte plus 256
/// times the high byte.
pub proof fn lemma_wide_is_little_endian(lo: u8, hi: u8)
    ensures
        ((lo as u16) | ((hi as u16) << 8u16)) as int == lo as int + 256 * hi as int,
{
    assert(((lo as u16) | ((hi as u16) << 8u16)) == (lo as u16) + 256 * (hi as u16)) by (bit_vector);
}

} // verus!
