use vstd::prelude::*;

verus! {

/// Number of addressable bytes.
pub const MEMORY_SIZE: usize = 65536;

/// First address of the high RAM region.
pub const HIGH_RAM_START: u16 = 0xFF80;

/// A closed interval `[start, end]` of addresses.
#[derive(Clone, Copy, Debug, PartialEq, Eq)]
pub struct Range {
    pub start: u16,
    pub end: u16,
}

impl Range {
    pub fn new(start: u16, end: u16) -> (r: Self)
        ensures
            r.start == start,
            r.end == end,
    {
        Self { start, end }
    }

    /// Whether `addr` lies in the interval.
    pub open spec fn spec_contains(self, addr: u16) -> bool {
        self.start <= addr <= self.end
    }

    pub fn contains(&self, addr: u16) -> (r: bool)
        ensures
            r == self.spec_contains(addr),
    {
        self.start <= addr && addr <= self.end
    }
}

/// The named regions of the address space. They describe the layout and
/// restrict no access.
pub struct MemoryMap {
    pub rom: Range,
    pub v_ram: Range,
    pub external_ram: Range,
    pub work_ram: Range,
    pub oam: Range,
    pub io: Range,
    pub h_ram: Range,
}

impl MemoryMap {
    /// The fixed hardware layout.
    pub open spec fn is_standard(&self) -> bool {
        &&& self.rom == Range { start: 0x0000, end: 0x7FFF }
        &&& self.v_ram == Range { start: 0x8000, end: 0x9FFF }
        &&& self.external_ram == Range { start: 0xA000, end: 0xBFFF }
        &&& self.work_ram == Range { start: 0xC000, end: 0xDFFF }
        &&& self.oam == Range { start: 0xFE00, end: 0xFE9F }
        &&& self.io == Range { start: 0xFF00, end: 0xFF7F }
        &&& self.h_ram == Range { start: HIGH_RAM_START, end: 0xFFFE }
    }
}

/// A flat space of 65,536 bytes, each freely readable and writable.
pub struct Memory {
    pub memory: Vec<u8>,
    pub map: MemoryMap,
    /// Length of the image last installed by `load`.
    pub rom_size: usize,
}

impl Memory {
    /// Every address has a byte.
    pub open spec fn wf(&self) -> bool {
        self.memory@.len() == MEMORY_SIZE
    }

    pub fn new() -> (r: Self)
        ensures
            r.wf(),
            r.map.is_standard(),
            r.rom_size == 0,
            forall|i: int| 0 <= i < MEMORY_SIZE ==> r.memory@[i] == 0,
    {
        Self {
            memory: vec![0u8; MEMORY_SIZE],
            map: MemoryMap {
                rom: Range::new(0x0000, 0x7FFF),
                v_ram: Range::new(0x8000, 0x9FFF),
                external_ram: Range::new(0xA000, 0xBFFF),
                work_ram: Range::new(0xC000, 0xDFFF),
                oam: Range::new(0xFE00, 0xFE9F),
                io: Range::new(0xFF00, 0xFF7F),
                h_ram: Range::new(HIGH_RAM_START, 0xFFFE),
            },
            rom_size: 0,
        }
    }

    pub fn read(&self, addr: u16) -> (r: u8)
        requires
            self.wf(),
        ensures
            r == self.memory@[addr as int],
    {
        self.memory[addr as usize]
    }

    pub fn write(&mut self, addr: u16, value: u8)
        requires
            old(self).wf(),
        ensures
            final(self).wf(),
            final(self).memory@ == old(self).memory@.update(addr as int, value),
            final(self).map == old(self).map,
            final(self).rom_size == old(self).rom_size,
    {
        self.memory.set(addr as usize, value);
    }

    /// Copies `bytes` to the addresses from 0 on and records their number.
    pub fn load(&mut self, bytes: &[u8])
        requires
            old(self).wf(),
            bytes@.len() <= MEMORY_SIZE,
        ensures
            final(self).wf(),
            final(self).rom_size == bytes@.len(),
            final(self).map == old(self).map,
            forall|i: int| 0 <= i < bytes@.len() ==> final(self).memory@[i] == bytes@[i],
            forall|i: int|
                bytes@.len() <= i < MEMORY_SIZE ==> final(self).memory@[i] == old(self).memory@[i],
    {
        let n: usize = bytes.len();
        let mut i: usize = 0;
        while i < n
            invariant
                n == bytes@.len(),
                n <= MEMORY_SIZE,
                i <= n,
                self.wf(),
                self.map == old(self).map,
                forall|k: int| 0 <= k < i ==> self.memory@[k] == bytes@[k],
                forall|k: int| i <= k < MEMORY_SIZE ==> self.memory@[k] == old(self).memory@[k],
            decreases n - i,
        {
            self.memory.set(i, bytes[i]);
            i = i + 1;
        }
        self.rom_size = n;
    }
}

} // verus!
