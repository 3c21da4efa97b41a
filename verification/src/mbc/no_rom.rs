use vstd::prelude::*;

verus! {

/// A cartridge without a bank controller: 32 KiB of ROM mapped directly and
/// 8 KiB of RAM that reads as zeros and ignores writes.
pub struct NoROM {
    pub rom: Vec<u8>,
    pub external_ram: Vec<u8>,
}

impl NoROM {
    pub open spec fn wf(self) -> bool {
        self.external_ram.len() == 0x2000
    }

    pub open spec fn read_ok(self, address: u16) -> bool {
        address < 0x8000 ==> address < self.rom.len()
    }

    pub open spec fn read_value(self, address: u16) -> Option<u8> {
        if address < 0x8000 {
            Some(self.rom@[address as int])
        } else if 0xA000 <= address <= 0xBFFF {
            Some(self.external_ram@[address - 0xA000])
        } else {
            None
        }
    }

    /// The cartridge as it comes up with `rom`: its RAM area reads as zeros.
    pub open spec fn fresh(self, rom: Seq<u8>) -> bool {
        &&& self.wf()
        &&& self.rom@ == rom
        &&& self.external_ram@ == Seq::new(0x2000, |i: int| 0u8)
    }

    pub fn new(rom: Vec<u8>) -> (r: Self)
        ensures
            r.fresh(rom@),
            r.wf(),
            r.rom == rom,
            r.external_ram@ == Seq::new(0x2000, |i: int| 0u8),
    {
        let r = Self { rom, external_ram: vec![0u8; 0x2000] };
        assert(r.external_ram@ =~= Seq::new(0x2000, |i: int| 0u8));
        r
    }

    pub fn read(&self, address: u16) -> (r: Option<u8>)
        requires
            self.wf(),
            self.read_ok(address),
        ensures
            r == self.read_value(address),
    {
        match address {
            0x0000..=0x7FFF => Some(self.rom[address as usize]),
            0xA000..=0xBFFF => Some(self.external_ram[(address - 0xA000) as usize]),
            _ => None,
        }
    }

    /// Nothing on this cartridge is writable.
    pub fn write(&mut self, _address: u16, _value: u8) -> (r: bool)
        ensures
            !r,
            *final(self) == *old(self),
    {
        false
    }
}

} // verus!
