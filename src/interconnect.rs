//! The memory bus: a 16-bit address space dispatched to its regions.
//! Reads of unmapped addresses give 0xFF and writes there are discarded.
use vstd::prelude::*;

verus! {

/// The value read from an address that no region backs.
pub const OPEN_BUS: u8 = 0xFF;

/// Whether a region backs this address. Echo RAM (0xE000-0xFDFF) and the
/// unusable block 0xFEA0-0xFEFF are not backed.
pub open spec fn mapped(addr: u16) -> bool {
    addr <= 0xDFFF || (0xFE00 <= addr && addr <= 0xFE9F) || addr >= 0xFF00
}

/// The regions behind the bus.
pub struct Interconnect {
    rom: Vec<u8>,
    vram: Vec<u8>,
    eram: Vec<u8>,
    wram: Vec<u8>,
    oam: Vec<u8>,
    io: Vec<u8>,
    hram: Vec<u8>,
    ie_register: u8,
}

impl Interconnect {
    /// Each region has its size.
    pub closed spec fn wf(&self) -> bool {
        &&& self.rom@.len() == 0x8000
        &&& self.vram@.len() == 0x2000
        &&& self.eram@.len() == 0x2000
        &&& self.wram@.len() == 0x2000
        &&& self.oam@.len() == 0xA0
        &&& self.io@.len() == 0x80
        &&& self.hram@.len() == 0x7F
    }

    /// The byte that a read of `addr` returns.
    pub closed spec fn byte_at(&self, addr: u16) -> u8 {
        if addr <= 0x7FFF {
            self.rom@[addr as int]
        } else if addr <= 0x9FFF {
            self.vram@[addr - 0x8000]
        } else if addr <= 0xBFFF {
            self.eram@[addr - 0xA000]
        } else if addr <= 0xDFFF {
            self.wram@[addr - 0xC000]
        } else if 0xFE00 <= addr && addr <= 0xFE9F {
            self.oam@[addr - 0xFE00]
        } else if 0xFF00 <= addr && addr <= 0xFF7F {
            self.io@[addr - 0xFF00]
        } else if 0xFF80 <= addr && addr <= 0xFFFE {
            self.hram@[addr - 0xFF80]
        } else if addr == 0xFFFF {
            self.ie_register
        } else {
            OPEN_BUS
        }
    }

    /// The whole address space as 0x10000 bytes.
    pub open spec fn view(&self) -> Seq<u8> {
        Seq::new(0x10000, |i: int| self.byte_at(i as u16))
    }

    /// Fills the address space from `memory`, byte `i` of it at address `i`.
    /// Mapped addresses beyond its end hold zero.
    pub fn new(memory: Vec<u8>) -> (r: Self)
        ensures
            r.wf(),
            forall|a: u16|
                #![trigger r@[a as int]]
                mapped(a) ==> r@[a as int] == (if (a as int) < memory@.len() {
                    memory@[a as int]
                } else {
                    0u8
                }),
            forall|a: u16| #![trigger r@[a as int]] !mapped(a) ==> r@[a as int] == OPEN_BUS,
    {
        let mut inter = Interconnect {
            rom: vec![0u8; 0x8000],
            vram: vec![0u8; 0x2000],
            eram: vec![0u8; 0x2000],
            wram: vec![0u8; 0x2000],
            oam: vec![0u8; 0xA0],
            io: vec![0u8; 0x80],
            hram: vec![0u8; 0x7F],
            ie_register: 0,
        };
        assert forall|a: u16| #![trigger inter@[a as int]]
            inter@[a as int] == (if mapped(a) { 0u8 } else { OPEN_BUS }) by {
            assert(inter@[a as int] == inter.byte_at(a));
        }
        let n: usize = if memory.len() < 0x10000 {
            memory.len()
        } else {
            0x10000
        };
        let mut i: usize = 0;
        while i < n
            invariant
                inter.wf(),
                n <= memory@.len(),
                n <= 0x10000,
                i <= n,
                forall|a: u16|
                    #![trigger inter@[a as int]]
                    inter@[a as int] == (if !mapped(a) {
                        OPEN_BUS
                    } else if (a as int) < i {
                        memory@[a as int]
                    } else {
                        0u8
                    }),
            decreases n - i,
        {
            inter.write_byte(i as u16, memory[i]);
            i = i + 1;
        }
        inter
    }

    /// An address that no region backs reads as `OPEN_BUS`, whatever was
    /// written there.
    pub proof fn lemma_unmapped_reads_open_bus(&self, addr: u16)
        ensures
            !mapped(addr) ==> self@[addr as int] == OPEN_BUS,
    {
    }

    /// Reads one byte.
    pub fn read_byte(&self, address: u16) -> (r: u8)
        requires
            self.wf(),
        ensures
            r == self@[address as int],
            !mapped(address) ==> r == OPEN_BUS,
    {
        if address <= 0x7FFF {
            self.rom[address as usize]
        } else if address <= 0x9FFF {
            self.vram[(address - 0x8000) as usize]
        } else if address <= 0xBFFF {
            self.eram[(address - 0xA000) as usize]
        } else if address <= 0xDFFF {
            self.wram[(address - 0xC000) as usize]
        } else if 0xFE00 <= address && address <= 0xFE9F {
            self.oam[(address - 0xFE00) as usize]
        } else if 0xFF00 <= address && address <= 0xFF7F {
            self.io[(address - 0xFF00) as usize]
        } else if 0xFF80 <= address && address <= 0xFFFE {
            self.hram[(address - 0xFF80) as usize]
        } else if address == 0xFFFF {
            self.ie_register
        } else {
            OPEN_BUS
        }
    }

    /// Writes one byte; a write to an unmapped address is discarded.
    pub fn write_byte(&mut self, address: u16, value: u8)
        requires
            old(self).wf(),
        ensures
            final(self).wf(),
            final(self)@ == (if mapped(address) {
                old(self)@.update(address as int, value)
            } else {
                old(self)@
            }),
    {
        if address <= 0x7FFF {
            self.rom.set(address as usize, value);
        } else if address <= 0x9FFF {
            self.vram.set((address - 0x8000) as usize, value);
        } else if address <= 0xBFFF {
            self.eram.set((address - 0xA000) as usize, value);
        } else if address <= 0xDFFF {
            self.wram.set((address - 0xC000) as usize, value);
        } else if 0xFE00 <= address && address <= 0xFE9F {
            self.oam.set((address - 0xFE00) as usize, value);
        } else if 0xFF00 <= address && address <= 0xFF7F {
            self.io.set((address - 0xFF00) as usize, value);
        } else if 0xFF80 <= address && address <= 0xFFFE {
            self.hram.set((address - 0xFF80) as usize, value);
        } else if address == 0xFFFF {
            self.ie_register = value;
        }
        proof {
            let expected = if mapped(address) {
                old(self)@.update(address as int, value)
            } else {
                old(self)@
            };
            assert forall|i: int| 0 <= i < 0x10000 implies #[trigger] self@[i] == expected[i] by {
                assert(self@[i] == self.byte_at(i as u16));
                assert(old(self)@[i] == old(self).byte_at(i as u16));
            }
            assert(self@ =~= expected);
        }
    }
}

} // verus!
