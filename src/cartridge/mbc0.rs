use vstd::prelude::*;

verus! {

/// The simplest cartridge controller: the ROM image is mapped unbanked from
/// address zero. Writes are stored, for controllers that model RAM.
#[derive(Debug)]
pub struct MBC0 {
    rom: Vec<u8>,
}

impl View for MBC0 {
    type V = Seq<u8>;

    closed spec fn view(&self) -> Seq<u8> {
        self.rom@
    }
}

impl MBC0 {
    pub fn new(data: Vec<u8>) -> (r: Self)
        ensures
            r@ == data@,
    {
        MBC0 { rom: data }
    }

    pub fn len(&self) -> (r: usize)
        ensures
            r == self@.len(),
    {
        self.rom.len()
    }

    pub fn get(&self, index: usize) -> (r: u8)
        requires
            index < self@.len(),
        ensures
            r == self@[index as int],
    {
        self.rom[index]
    }

    pub fn set(&mut self, index: usize, value: u8)
        requires
            index < old(self)@.len(),
        ensures
            final(self)@ == old(self)@.update(index as int, value),
    {
        self.rom.set(index, value);
    }

    /// The ROM image, for inspection.
    pub fn rom(&self) -> (r: &Vec<u8>)
        ensures
            r@ == self@,
    {
        &self.rom
    }
}

} // verus!
