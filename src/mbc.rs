use vstd::prelude::*;

verus! {

/// Bytes of one switchable ROM bank.
pub const ROM_BANK_SIZE: usize = 0x4000;
/// Bytes of one cartridge RAM bank.
pub const RAM_BANK_SIZE: usize = 0x2000;
/// RAM writes between two save requests of a battery-backed MBC1.
pub const SAVE_SKIPS: u8 = 20;

/// The ROM byte at `offset`, or `FF` past the end of the image.
pub open spec fn rom_byte(data: Seq<u8>, offset: int) -> u8 {
    if 0 <= offset < data.len() { data[offset] } else { 0xFF }
}

/// Whether `p` is a power of two.
pub open spec fn is_pow2(p: nat) -> bool
    decreases p,
{
    if p == 1 {
        true
    } else if p == 0 || p % 2 == 1 {
        false
    } else {
        is_pow2(p / 2)
    }
}

fn rom_read(data: &Vec<u8>, offset: usize) -> (r: u8)
    ensures
        r == rom_byte(data@, offset as int),
{
    if offset < data.len() { data[offset] } else { 0xFF }
}

/// The least power of two that is at least `n`.
pub fn smallest_pow2_at_least(n: usize) -> (r: usize)
    requires
        n <= 0x100000,
    ensures
        r >= n,
        r >= 1,
        is_pow2(r as nat),
        r == 1 || r / 2 < n,
{
    let mut p: usize = 1;
    while p < n
        invariant
            p >= 1,
            is_pow2(p as nat),
            p == 1 || p / 2 < n,
            p <= 0x200000,
            n <= 0x100000,
        decreases 0x200000 - p,
    {
        proof {
            assert((2 * p) as nat / 2 == p as nat);
            assert(is_pow2((2 * p) as nat));
        }
        p = p * 2;
    }
    p
}

/// A cartridge without a controller: 32 KiB of ROM, nothing switchable.
pub struct MBC0 {
    pub data: Vec<u8>,
}

impl MBC0 {
    pub open spec fn read_spec(&self, address: usize) -> u8 {
        if address < 0x8000 || (0xA000 <= address < 0xC000) {
            rom_byte(self.data@, address as int)
        } else {
            0xFF
        }
    }

    pub fn from_data(data: Vec<u8>) -> (r: MBC0)
        ensures
            r.data@ == data@,
    {
        MBC0 { data }
    }

    /// Reads the image directly at `0000..7FFF` and `A000..BFFF`.
    pub fn read(&self, address: usize) -> (r: u8)
        ensures
            r == self.read_spec(address),
    {
        if address < 0x8000 || (0xA000 <= address && address < 0xC000) {
            rom_read(&self.data, address)
        } else {
            0xFF
        }
    }
}

/// The MBC1 controller: 5+2-bit ROM bank, up to four RAM banks, two banking modes.
pub struct MBC1 {
    pub data: Vec<u8>,
    pub rom_bank_count: usize,
    pub ram_bank_count: usize,
    pub ram_enabled: bool,
    pub battery: bool,
    pub banking_mode: u8,
    pub ram: Vec<u8>,
    pub current_rom_bank_index: usize,
    pub current_ram_bank_index: usize,
    pub rom_bank_mask: usize,
    pub upper_bits: usize,
    pub current_save_skips: u8,
    /// Set when enough RAM writes have gone by that the RAM should be persisted.
    pub save_due: bool,
}

impl MBC1 {
    pub open spec fn wf(&self) -> bool {
        &&& self.ram@.len() == self.ram_bank_count * RAM_BANK_SIZE
        &&& self.ram_bank_count <= 16
        &&& self.rom_bank_mask < 512
        &&& self.current_rom_bank_index < 128
        &&& self.current_ram_bank_index < 4
        &&& self.upper_bits < 4
        &&& self.current_save_skips < SAVE_SKIPS
    }

    /// The RAM bank actually addressed: the selected one, clamped to the last bank.
    pub open spec fn ram_bank(&self) -> int {
        if self.current_ram_bank_index < self.ram_bank_count {
            self.current_ram_bank_index as int
        } else {
            self.ram_bank_count - 1
        }
    }

    pub open spec fn read_spec(&self, address: usize) -> u8 {
        if address < 0x4000 {
            rom_byte(self.data@, address as int)
        } else if address < 0x8000 {
            rom_byte(self.data@, (self.current_rom_bank_index & self.rom_bank_mask) * 0x4000 + (address - 0x4000))
        } else if 0xA000 <= address < 0xC000 {
            if self.ram_enabled && self.ram_bank_count > 0 {
                self.ram@[self.ram_bank() * 0x2000 + (address - 0xA000)]
            } else {
                0xFF
            }
        } else {
            0xFF
        }
    }

    /// A controller over `data` with `rom_bank_count` ROM banks and `ram_bank_count` banks of
    /// zeroed RAM. The ROM bank mask is the least power of two not below the bank count,
    /// minus one, clamped to the last bank.
    pub fn from_data(data: Vec<u8>, rom_bank_count: usize, ram_bank_count: usize, battery: bool) -> (r: MBC1)
        requires
            1 <= rom_bank_count <= 512,
            ram_bank_count <= 16,
        ensures
            r.wf(),
            r.data@ == data@,
            r.current_rom_bank_index == 1,
            r.current_ram_bank_index == 0,
            !r.ram_enabled,
            r.battery == battery,
            r.rom_bank_count == rom_bank_count,
            r.ram_bank_count == ram_bank_count,
            r.rom_bank_mask == (if smallest_pow2_spec(rom_bank_count) - 1 < rom_bank_count - 1 {
                smallest_pow2_spec(rom_bank_count) - 1
            } else {
                rom_bank_count - 1
            }),
            forall|i: int| 0 <= i < r.ram@.len() ==> r.ram@[i] == 0,
    {
        let p = smallest_pow2_at_least(rom_bank_count);
        let mask = if p - 1 < rom_bank_count - 1 { p - 1 } else { rom_bank_count - 1 };
        proof {
            lemma_smallest_pow2_unique(rom_bank_count, p);
        }
        MBC1 {
            data,
            rom_bank_count,
            ram_bank_count,
            ram_enabled: false,
            battery,
            banking_mode: 0,
            ram: zeroed(ram_bank_count * RAM_BANK_SIZE),
            current_rom_bank_index: 1,
            current_ram_bank_index: 0,
            rom_bank_mask: mask,
            upper_bits: 0,
            current_save_skips: 0,
            save_due: false,
        }
    }

    pub fn read(&self, address: usize) -> (r: u8)
        requires
            self.wf(),
        ensures
            r == self.read_spec(address),
    {
        if address < 0x4000 {
            rom_read(&self.data, address)
        } else if address < 0x8000 {
            let bank = self.current_rom_bank_index & self.rom_bank_mask;
            proof {
                lemma_and_bound(self.current_rom_bank_index, self.rom_bank_mask);
            }
            rom_read(&self.data, bank * 0x4000 + (address - 0x4000))
        } else if 0xA000 <= address && address < 0xC000 {
            if self.ram_enabled && self.ram_bank_count > 0 {
                let bank = if self.current_ram_bank_index < self.ram_bank_count {
                    self.current_ram_bank_index
                } else {
                    self.ram_bank_count - 1
                };
                self.ram[bank * 0x2000 + (address - 0xA000)]
            } else {
                0xFF
            }
        } else {
            0xFF
        }
    }

    /// Register writes below `8000` and RAM writes at `A000..BFFF`. The ROM is never changed.
    pub fn write(&mut self, address: usize, value: u8)
        requires
            old(self).wf(),
        ensures
            final(self).wf(),
            final(self).data@ == old(self).data@,
            address < 0x2000 ==> final(self).ram_enabled == (value % 16 == 0xA),
            0x2000 <= address < 0x4000 ==> final(self).current_rom_bank_index == (old(self).current_rom_bank_index / 32) * 32
                + (if value % 32 == 0 { 1 } else { value % 32 }),
            0x4000 <= address < 0x6000 && old(self).banking_mode == 1 ==> final(self).current_ram_bank_index == value % 4
                && final(self).current_rom_bank_index == old(self).current_rom_bank_index,
            0x4000 <= address < 0x6000 && old(self).banking_mode != 1 ==> final(self).current_rom_bank_index
                == old(self).current_rom_bank_index % 32 + (value % 4) * 32,
            0x6000 <= address < 0x8000 ==> final(self).banking_mode == value % 2,
            0xA000 <= address < 0xC000 && old(self).ram_enabled && old(self).ram_bank_count > 0 ==> final(self).ram@
                == old(self).ram@.update(old(self).ram_bank() * 0x2000 + (address - 0xA000), value),
            !(0xA000 <= address < 0xC000 && old(self).ram_enabled && old(self).ram_bank_count > 0) ==> final(self).ram@
                == old(self).ram@,
            final(self).ram_bank_count == old(self).ram_bank_count,
            final(self).battery == old(self).battery,
            0xA000 <= address < 0xC000 ==> final(self).ram_enabled == old(self).ram_enabled
                && final(self).current_ram_bank_index == old(self).current_ram_bank_index
                && final(self).current_rom_bank_index == old(self).current_rom_bank_index
                && final(self).rom_bank_mask == old(self).rom_bank_mask,
            0xA000 <= address < 0xC000 && old(self).ram_enabled && old(self).ram_bank_count > 0 ==> final(self).read_spec(address) == value,
            address < 0x2000 ==> final(self).current_rom_bank_index == old(self).current_rom_bank_index
                && final(self).rom_bank_mask == old(self).rom_bank_mask,
    {
        if address < 0x2000 {
            self.ram_enabled = value % 16 == 0xA;
        } else if address < 0x4000 {
            let bank_number = (value % 32) as usize;
            let bank_number = if bank_number == 0 { 1 } else { bank_number };
            self.current_rom_bank_index = (self.current_rom_bank_index / 32) * 32 + bank_number;
        } else if address < 0x6000 {
            let upper = (value % 4) as usize;
            self.upper_bits = upper;
            if self.banking_mode == 1 {
                self.current_ram_bank_index = upper;
            } else {
                self.current_rom_bank_index = self.current_rom_bank_index % 32 + upper * 32;
            }
        } else if address < 0x8000 {
            self.banking_mode = value % 2;
        } else if 0xA000 <= address && address < 0xC000 {
            if self.ram_enabled && self.ram_bank_count > 0 {
                let bank = if self.current_ram_bank_index < self.ram_bank_count {
                    self.current_ram_bank_index
                } else {
                    self.ram_bank_count - 1
                };
                self.ram.set(bank * 0x2000 + (address - 0xA000), value);
                if self.battery {
                    self.current_save_skips = self.current_save_skips + 1;
                    if self.current_save_skips >= SAVE_SKIPS {
                        self.save_due = true;
                        self.current_save_skips = 0;
                    }
                }
            }
        }
    }
}

/// The MBC3 controller: 7-bit ROM bank, four RAM banks, and a stub of the clock registers.
pub struct MBC3 {
    pub data: Vec<u8>,
    pub rom_bank_count: usize,
    pub ram_bank_count: usize,
    pub ram: Vec<u8>,
    pub rtc_registers: Vec<u8>,
    pub current_rom_bank: usize,
    pub current_ram_bank: usize,
    pub ram_enabled: bool,
    pub rtc_latched: bool,
    pub rtc_selected: bool,
    /// Which clock register (0..4) is mapped at `A000..BFFF` while the clock is selected.
    pub rtc_index: usize,
}

impl MBC3 {
    pub open spec fn wf(&self) -> bool {
        &&& self.ram@.len() == self.ram_bank_count * RAM_BANK_SIZE
        &&& self.ram_bank_count <= 16
        &&& 1 <= self.rom_bank_count <= 512
        &&& self.rtc_registers@.len() == 5
        &&& self.rtc_index < 5
        &&& self.current_rom_bank < 128
        &&& self.current_ram_bank < 4
    }

    pub open spec fn ram_bank(&self) -> int {
        if self.current_ram_bank < self.ram_bank_count {
            self.current_ram_bank as int
        } else {
            self.ram_bank_count - 1
        }
    }

    pub open spec fn read_spec(&self, address: usize) -> u8 {
        if address < 0x4000 {
            rom_byte(self.data@, address as int)
        } else if address < 0x8000 {
            rom_byte(self.data@, (self.current_rom_bank % self.rom_bank_count) * 0x4000 + (address - 0x4000))
        } else if 0xA000 <= address < 0xC000 {
            if !self.ram_enabled {
                0xFF
            } else if self.rtc_selected {
                self.rtc_registers@[self.rtc_index as int]
            } else if self.ram_bank_count > 0 {
                self.ram@[self.ram_bank() * 0x2000 + (address - 0xA000)]
            } else {
                0xFF
            }
        } else {
            0xFF
        }
    }

    pub fn from_data(data: Vec<u8>, rom_bank_count: usize, ram_bank_count: usize) -> (r: MBC3)
        requires
            1 <= rom_bank_count <= 512,
            ram_bank_count <= 16,
        ensures
            r.wf(),
            r.data@ == data@,
            r.current_rom_bank == 1,
            !r.ram_enabled,
            r.rom_bank_count == rom_bank_count,
            r.ram_bank_count == ram_bank_count,
    {
        MBC3 {
            data,
            rom_bank_count,
            ram_bank_count,
            ram: zeroed(ram_bank_count * RAM_BANK_SIZE),
            rtc_registers: vec![0u8, 0u8, 0u8, 0u8, 0u8],
            current_rom_bank: 1,
            current_ram_bank: 0,
            ram_enabled: false,
            rtc_latched: false,
            rtc_selected: false,
            rtc_index: 0,
        }
    }

    pub fn read(&self, address: usize) -> (r: u8)
        requires
            self.wf(),
        ensures
            r == self.read_spec(address),
    {
        if address < 0x4000 {
            rom_read(&self.data, address)
        } else if address < 0x8000 {
            rom_read(&self.data, (self.current_rom_bank % self.rom_bank_count) * 0x4000 + (address - 0x4000))
        } else if 0xA000 <= address && address < 0xC000 {
            if !self.ram_enabled {
                0xFF
            } else if self.rtc_selected {
                self.rtc_registers[self.rtc_index]
            } else if self.ram_bank_count > 0 {
                let bank = if self.current_ram_bank < self.ram_bank_count {
                    self.current_ram_bank
                } else {
                    self.ram_bank_count - 1
                };
                self.ram[bank * 0x2000 + (address - 0xA000)]
            } else {
                0xFF
            }
        } else {
            0xFF
        }
    }

    /// Register writes below `8000`; RAM or clock-register writes at `A000..BFFF`.
    pub fn write(&mut self, address: usize, value: u8)
        requires
            old(self).wf(),
        ensures
            final(self).wf(),
            final(self).data@ == old(self).data@,
            address < 0x2000 ==> final(self).ram_enabled == (value % 16 == 0xA),
            0x2000 <= address < 0x4000 ==> final(self).current_rom_bank == (if value % 128 == 0 { 1 } else { value % 128 }),
            0x4000 <= address < 0x6000 && value <= 3 ==> final(self).current_ram_bank == value && !final(self).rtc_selected,
            0x4000 <= address < 0x6000 && 8 <= value <= 0x0C ==> final(self).rtc_selected && final(self).rtc_index == value - 8,
            final(self).ram_bank_count == old(self).ram_bank_count,
            0x6000 <= address < 0x8000 && value == 1 ==> final(self).rtc_latched,
            address < 0x2000 ==> final(self).current_rom_bank == old(self).current_rom_bank,
            0xA000 <= address < 0xC000 ==> final(self).ram_enabled == old(self).ram_enabled && final(self).rtc_selected
                == old(self).rtc_selected && final(self).rtc_index == old(self).rtc_index
                && final(self).current_ram_bank == old(self).current_ram_bank,
            0xA000 <= address < 0xC000 && old(self).ram_enabled && old(self).rtc_selected ==> final(self).rtc_registers@
                == old(self).rtc_registers@.update(old(self).rtc_index as int, value),
            0xA000 <= address < 0xC000 && old(self).ram_enabled && !old(self).rtc_selected && old(self).ram_bank_count > 0
                ==> final(self).ram@ == old(self).ram@.update(old(self).ram_bank() * 0x2000 + (address - 0xA000), value),
            0xA000 <= address < 0xC000 && old(self).ram_enabled && (old(self).rtc_selected || old(self).ram_bank_count
                > 0) ==> final(self).read_spec(address) == value,
    {
        if address < 0x2000 {
            self.ram_enabled = value % 16 == 0xA;
        } else if address < 0x4000 {
            let bank_number = (value % 128) as usize;
            self.current_rom_bank = if bank_number == 0 { 1 } else { bank_number };
        } else if address < 0x6000 {
            if value <= 3 {
                self.current_ram_bank = value as usize;
                self.rtc_selected = false;
            } else if 8 <= value && value <= 0x0C {
                self.rtc_selected = true;
                self.rtc_index = (value - 8) as usize;
            }
        } else if address < 0x8000 {
            if value == 1 {
                self.rtc_latched = true;
            }
        } else if 0xA000 <= address && address < 0xC000 {
            if self.ram_enabled {
                if self.rtc_selected {
                    self.rtc_registers.set(self.rtc_index, value);
                } else if self.ram_bank_count > 0 {
                    let bank = if self.current_ram_bank < self.ram_bank_count {
                        self.current_ram_bank
                    } else {
                        self.ram_bank_count - 1
                    };
                    self.ram.set(bank * 0x2000 + (address - 0xA000), value);
                }
            }
        }
    }
}

/// The MBC5 controller: 9-bit ROM bank (bank 0 selectable), 4-bit RAM bank.
pub struct MBC5 {
    pub data: Vec<u8>,
    pub rom_bank_count: usize,
    pub ram_bank_count: usize,
    pub ram_enabled: bool,
    pub battery: bool,
    pub ram: Vec<u8>,
    pub current_rom_bank: usize,
    pub current_ram_bank: usize,
}

impl MBC5 {
    pub open spec fn wf(&self) -> bool {
        &&& self.ram@.len() == self.ram_bank_count * RAM_BANK_SIZE
        &&& self.ram_bank_count <= 16
        &&& 1 <= self.rom_bank_count <= 512
        &&& self.current_rom_bank < 512
        &&& self.current_ram_bank < 16
    }

    pub open spec fn read_spec(&self, address: usize) -> u8 {
        if address < 0x4000 {
            rom_byte(self.data@, address as int)
        } else if address < 0x8000 {
            rom_byte(self.data@, (self.current_rom_bank % self.rom_bank_count) * 0x4000 + (address - 0x4000))
        } else if 0xA000 <= address < 0xC000 {
            if self.ram_enabled && self.ram_bank_count > 0 {
                self.ram@[(self.current_ram_bank % self.ram_bank_count) * 0x2000 + (address - 0xA000)]
            } else {
                0xFF
            }
        } else {
            0xFF
        }
    }

    pub fn from_data(data: Vec<u8>, rom_bank_count: usize, ram_bank_count: usize, battery: bool) -> (r: MBC5)
        requires
            1 <= rom_bank_count <= 512,
            ram_bank_count <= 16,
        ensures
            r.wf(),
            r.data@ == data@,
            r.current_rom_bank == 1,
            r.current_ram_bank == 0,
            !r.ram_enabled,
            r.rom_bank_count == rom_bank_count,
            r.ram_bank_count == ram_bank_count,
            r.battery == battery,
    {
        MBC5 {
            data,
            rom_bank_count,
            ram_bank_count,
            ram_enabled: false,
            battery,
            ram: zeroed(ram_bank_count * RAM_BANK_SIZE),
            current_rom_bank: 1,
            current_ram_bank: 0,
        }
    }

    pub fn read(&self, address: usize) -> (r: u8)
        requires
            self.wf(),
        ensures
            r == self.read_spec(address),
    {
        if address < 0x4000 {
            rom_read(&self.data, address)
        } else if address < 0x8000 {
            rom_read(&self.data, (self.current_rom_bank % self.rom_bank_count) * 0x4000 + (address - 0x4000))
        } else if 0xA000 <= address && address < 0xC000 {
            if self.ram_enabled && self.ram_bank_count > 0 {
                self.ram[(self.current_ram_bank % self.ram_bank_count) * 0x2000 + (address - 0xA000)]
            } else {
                0xFF
            }
        } else {
            0xFF
        }
    }

    /// `0000..1FFF` RAM enable, `2000..2FFF` low 8 bits and `3000..3FFF` bit 8 of the ROM
    /// bank, `4000..5FFF` RAM bank; RAM writes at `A000..BFFF`.
    pub fn write(&mut self, address: usize, value: u8)
        requires
            old(self).wf(),
        ensures
            final(self).wf(),
            final(self).data@ == old(self).data@,
            address < 0x2000 ==> final(self).ram_enabled == (value % 16 == 0xA),
            0x2000 <= address < 0x3000 ==> final(self).current_rom_bank == (old(self).current_rom_bank / 256) * 256 + value,
            0x3000 <= address < 0x4000 ==> final(self).current_rom_bank == old(self).current_rom_bank % 256 + (value % 2) * 256,
            0x4000 <= address < 0x6000 ==> final(self).current_ram_bank == value % 16,
            0xA000 <= address < 0xC000 && old(self).ram_enabled && old(self).ram_bank_count > 0 ==> final(self).ram@
                == old(self).ram@.update((old(self).current_ram_bank % old(self).ram_bank_count) * 0x2000 + (address - 0xA000), value),
            final(self).ram_bank_count == old(self).ram_bank_count,
            0xA000 <= address < 0xC000 ==> final(self).ram_enabled == old(self).ram_enabled
                && final(self).current_ram_bank == old(self).current_ram_bank,
            0xA000 <= address < 0xC000 && old(self).ram_enabled && old(self).ram_bank_count > 0 ==> final(self).read_spec(address) == value,
    {
        if address < 0x2000 {
            self.ram_enabled = value % 16 == 0xA;
        } else if address < 0x3000 {
            self.current_rom_bank = (self.current_rom_bank / 256) * 256 + value as usize;
        } else if address < 0x4000 {
            self.current_rom_bank = self.current_rom_bank % 256 + (value % 2) as usize * 256;
        } else if address < 0x6000 {
            self.current_ram_bank = (value % 16) as usize;
        } else if 0xA000 <= address && address < 0xC000 {
            if self.ram_enabled && self.ram_bank_count > 0 {
                let i = (self.current_ram_bank % self.ram_bank_count) * 0x2000 + (address - 0xA000);
                self.ram.set(i, value);
            }
        }
    }
}

/// `n` zero bytes.
pub fn zeroed(n: usize) -> (r: Vec<u8>)
    ensures
        r@.len() == n,
        forall|i: int| 0 <= i < n ==> r@[i] == 0,
{
    let mut v: Vec<u8> = Vec::new();
    let mut i: usize = 0;
    while i < n
        invariant
            i <= n,
            v@.len() == i,
            forall|k: int| 0 <= k < i ==> v@[k] == 0,
        decreases n - i,
    {
        v.push(0);
        i = i + 1;
    }
    v
}

/// The least power of two at least `n`, as a spec value.
pub open spec fn smallest_pow2_spec(n: usize) -> usize {
    choose|p: usize| p >= n && p >= 1 && is_pow2(p as nat) && (p == 1 || p / 2 < n)
}

proof fn lemma_pow2_half(p: nat)
    requires
        is_pow2(p),
        p > 1,
    ensures
        p % 2 == 0,
        is_pow2(p / 2),
{
}

proof fn lemma_pow2_order(p: nat, q: nat)
    requires
        is_pow2(p),
        is_pow2(q),
        p < q,
    ensures
        p <= q / 2,
    decreases q,
{
    lemma_pow2_half(q);
    if p > 1 {
        lemma_pow2_half(p);
        lemma_pow2_order(p / 2, q / 2);
    }
}

proof fn lemma_smallest_pow2_unique(n: usize, p: usize)
    requires
        p >= n,
        p >= 1,
        is_pow2(p as nat),
        p == 1 || p / 2 < n,
    ensures
        smallest_pow2_spec(n) == p,
{
    let q = smallest_pow2_spec(n);
    assert(q >= n && q >= 1 && is_pow2(q as nat) && (q == 1 || q / 2 < n));
    if q < p {
        lemma_pow2_order(q as nat, p as nat);
    } else if p < q {
        lemma_pow2_order(p as nat, q as nat);
    }
}

proof fn lemma_and_bound(x: usize, m: usize)
    ensures
        x & m <= m,
{
    assert(x & m <= m) by (bit_vector);
}

} // verus!
