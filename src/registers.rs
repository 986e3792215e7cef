use vstd::prelude::*;

verus! {

/// The 16-bit value formed by a high byte and a low byte.
pub open spec fn pair(hi: u8, lo: u8) -> u16 {
    (hi as int * 256 + lo as int) as u16
}

/// The high byte of a 16-bit value.
pub open spec fn high_byte(v: u16) -> u8 {
    (v as int / 256) as u8
}

/// The low byte of a 16-bit value.
pub open spec fn low_byte(v: u16) -> u8 {
    (v as int % 256) as u8
}

/// The CPU register file: eight byte registers, the program counter and the
/// stack pointer. The 16-bit pairs AF, BC, DE and HL are not stored: each is
/// computed from its two byte registers, the first named being the high byte.
#[derive(Clone, Copy, Debug, PartialEq, Eq)]
pub struct Registers {
    pub a: u8,
    pub f: u8,
    pub b: u8,
    pub c: u8,
    pub d: u8,
    pub e: u8,
    pub h: u8,
    pub l: u8,
    pub pc: u16,
    pub sp: u16,
}

impl Registers {
    /// A register file with every register at zero.
    pub fn new() -> (r: Registers)
        ensures
            r == (Registers { a: 0, f: 0, b: 0, c: 0, d: 0, e: 0, h: 0, l: 0, pc: 0, sp: 0 }),
    {
        Registers { a: 0, f: 0, b: 0, c: 0, d: 0, e: 0, h: 0, l: 0, pc: 0, sp: 0 }
    }

    pub fn get_af(&self) -> (r: u16)
        ensures
            r == pair(self.a, self.f),
    {
        (self.a as u16) * 256 + (self.f as u16)
    }

    pub fn get_bc(&self) -> (r: u16)
        ensures
            r == pair(self.b, self.c),
    {
        (self.b as u16) * 256 + (self.c as u16)
    }

    pub fn get_de(&self) -> (r: u16)
        ensures
            r == pair(self.d, self.e),
    {
        (self.d as u16) * 256 + (self.e as u16)
    }

    pub fn get_hl(&self) -> (r: u16)
        ensures
            r == pair(self.h, self.l),
    {
        (self.h as u16) * 256 + (self.l as u16)
    }

    /// Sets AF as two byte writes: A takes the high byte, F the low byte.
    pub fn set_af(&mut self, v: u16)
        ensures
            *final(self) == (Registers { a: high_byte(v), f: low_byte(v), ..*old(self) }),
    {
        self.a = (v / 256) as u8;
        self.f = (v % 256) as u8;
    }

    /// Sets BC as two byte writes: B takes the high byte, C the low byte.
    pub fn set_bc(&mut self, v: u16)
        ensures
            *final(self) == (Registers { b: high_byte(v), c: low_byte(v), ..*old(self) }),
    {
        self.b = (v / 256) as u8;
        self.c = (v % 256) as u8;
    }

    /// Sets DE as two byte writes: D takes the high byte, E the low byte.
    pub fn set_de(&mut self, v: u16)
        ensures
            *final(self) == (Registers { d: high_byte(v), e: low_byte(v), ..*old(self) }),
    {
        self.d = (v / 256) as u8;
        self.e = (v % 256) as u8;
    }

    /// Sets HL as two byte writes: H takes the high byte, L the low byte.
    pub fn set_hl(&mut self, v: u16)
        ensures
            *final(self) == (Registers { h: high_byte(v), l: low_byte(v), ..*old(self) }),
    {
        self.h = (v / 256) as u8;
        self.l = (v % 256) as u8;
    }
}

/// A pair read back from two byte registers splits into exactly those bytes.
pub proof fn lemma_pair_splits(hi: u8, lo: u8)
    ensures
        high_byte(pair(hi, lo)) == hi,
        low_byte(pair(hi, lo)) == lo,
{
}

/// Splitting a 16-bit value into its bytes and joining them again gives the
/// same value, so a pair setter followed by the pair getter is the identity.
pub proof fn lemma_split_then_pair(v: u16)
    ensures
        pair(high_byte(v), low_byte(v)) == v,
{
}

} // verus!
