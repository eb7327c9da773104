use vstd::prelude::*;
use crate::cart_info::{CartridgeInfo, HeaderError, mbc_index_spec};
use crate::mbc::{MBC0, MBC1, MBC3, MBC5, RAM_BANK_SIZE};

verus! {

/// The controller of a loaded cartridge.
pub enum MBCEnum {
    MBC0(MBC0),
    MBC1(MBC1),
    MBC3(MBC3),
    MBC5(MBC5),
}

/// Why a cartridge could not be loaded.
#[derive(Clone, Copy, Debug, PartialEq, Eq, Structural)]
pub enum CartridgeError {
    Header(HeaderError),
    /// The controller family (by its index) is known but not emulated.
    Unsupported(u8),
}

/// The RAM of `ram` after restoring from a save image: each whole bank present in `save` is
/// taken from it, the others are kept.
pub open spec fn restored_ram(ram: Seq<u8>, save: Seq<u8>) -> Seq<u8> {
    Seq::new(ram.len(), |i: int| if (i / 0x2000 + 1) * 0x2000 <= save.len() { save[i] } else { ram[i] })
}

impl MBCEnum {
    pub open spec fn wf(&self) -> bool {
        match self {
            MBCEnum::MBC0(_) => true,
            MBCEnum::MBC1(m) => m.wf(),
            MBCEnum::MBC3(m) => m.wf(),
            MBCEnum::MBC5(m) => m.wf(),
        }
    }

    pub open spec fn read_spec(&self, address: usize) -> u8 {
        match self {
            MBCEnum::MBC0(m) => m.read_spec(address),
            MBCEnum::MBC1(m) => m.read_spec(address),
            MBCEnum::MBC3(m) => m.read_spec(address),
            MBCEnum::MBC5(m) => m.read_spec(address),
        }
    }

    /// The image the controller maps.
    pub open spec fn rom(&self) -> Seq<u8> {
        match self {
            MBCEnum::MBC0(m) => m.data@,
            MBCEnum::MBC1(m) => m.data@,
            MBCEnum::MBC3(m) => m.data@,
            MBCEnum::MBC5(m) => m.data@,
        }
    }

    /// The cartridge RAM, banks in order (empty without RAM).
    pub open spec fn ram(&self) -> Seq<u8> {
        match self {
            MBCEnum::MBC0(_) => Seq::empty(),
            MBCEnum::MBC1(m) => m.ram@,
            MBCEnum::MBC3(m) => m.ram@,
            MBCEnum::MBC5(m) => m.ram@,
        }
    }

    /// Whether the RAM enable register holds `xA` (always false without a controller).
    pub open spec fn ram_enabled(&self) -> bool {
        match self {
            MBCEnum::MBC0(_) => false,
            MBCEnum::MBC1(m) => m.ram_enabled,
            MBCEnum::MBC3(m) => m.ram_enabled,
            MBCEnum::MBC5(m) => m.ram_enabled,
        }
    }

    /// Both controllers are of the same family.
    pub open spec fn same_kind(&self, other: &MBCEnum) -> bool {
        (self is MBC0 <==> other is MBC0) && (self is MBC1 <==> other is MBC1) && (self is MBC3 <==> other is MBC3) && (
        self is MBC5 <==> other is MBC5)
    }

    /// The selected switchable ROM bank register (1 without a controller).
    pub open spec fn rom_bank(&self) -> int {
        match self {
            MBCEnum::MBC0(_) => 1,
            MBCEnum::MBC1(m) => m.current_rom_bank_index as int,
            MBCEnum::MBC3(m) => m.current_rom_bank as int,
            MBCEnum::MBC5(m) => m.current_rom_bank as int,
        }
    }

    /// Whether a write at `A000..BFFF` lands in cartridge RAM (or a clock register).
    pub open spec fn ram_writable(&self) -> bool {
        match self {
            MBCEnum::MBC0(_) => false,
            MBCEnum::MBC1(m) => m.ram_enabled && m.ram_bank_count > 0,
            MBCEnum::MBC3(m) => m.ram_enabled && (m.rtc_selected || m.ram_bank_count > 0),
            MBCEnum::MBC5(m) => m.ram_enabled && m.ram_bank_count > 0,
        }
    }

    pub fn read(&self, address: usize) -> (r: u8)
        requires
            self.wf(),
        ensures
            r == self.read_spec(address),
    {
        match self {
            MBCEnum::MBC0(m) => m.read(address),
            MBCEnum::MBC1(m) => m.read(address),
            MBCEnum::MBC3(m) => m.read(address),
            MBCEnum::MBC5(m) => m.read(address),
        }
    }

    pub fn write(&mut self, address: usize, value: u8)
        requires
            old(self).wf(),
        ensures
            final(self).wf(),
            final(self).rom() == old(self).rom(),
            final(self).ram().len() == old(self).ram().len(),
            final(self).same_kind(&*old(self)),
            *old(self) is MBC0 ==> *final(self) == *old(self),
            !(*old(self) is MBC0) && address < 0x2000 ==> final(self).ram_enabled() == (value % 16 == 0xA),
            0xA000 <= address < 0xC000 ==> final(self).ram_enabled() == old(self).ram_enabled(),
            0xA000 <= address < 0xC000 && old(self).ram_writable() ==> final(self).read_spec(address) == value,
            (*old(self) is MBC1 || *old(self) is MBC3) && address < 0x2000 ==> final(self).rom_bank() == old(self).rom_bank(),
            *old(self) is MBC1 && 0x2000 <= address < 0x4000 ==> final(self).rom_bank() == (old(self).rom_bank() / 32) * 32
                + (if value % 32 == 0 { 1 } else { value % 32 }),
            *old(self) is MBC3 && 0x2000 <= address < 0x4000 ==> final(self).rom_bank() == (if value % 128 == 0 {
                1
            } else {
                value % 128
            }),
            *old(self) is MBC5 && 0x2000 <= address < 0x3000 ==> final(self).rom_bank() == (old(self).rom_bank() / 256) * 256
                + value,
            *old(self) is MBC5 && 0x3000 <= address < 0x4000 ==> final(self).rom_bank() == old(self).rom_bank() % 256 + (
            value % 2) * 256,
    {
        match self {
            MBCEnum::MBC0(_) => {},
            MBCEnum::MBC1(m) => m.write(address, value),
            MBCEnum::MBC3(m) => m.write(address, value),
            MBCEnum::MBC5(m) => m.write(address, value),
        }
    }
}

fn copy_banks(ram: &mut Vec<u8>, save: &Vec<u8>)
    requires
        old(ram)@.len() <= 16 * RAM_BANK_SIZE,
    ensures
        final(ram)@ == restored_ram(old(ram)@, save@),
{
    let n = ram.len();
    let mut i: usize = 0;
    while i < n
        invariant
            n == ram@.len(),
            n == old(ram)@.len(),
            n <= 16 * RAM_BANK_SIZE,
            i <= n,
            forall|k: int| 0 <= k < i ==> ram@[k] == restored_ram(old(ram)@, save@)[k],
            forall|k: int| i <= k < n ==> ram@[k] == old(ram)@[k],
        decreases n - i,
    {
        if (i / RAM_BANK_SIZE + 1) * RAM_BANK_SIZE <= save.len() {
            ram.set(i, save[i]);
        }
        i = i + 1;
    }
    proof {
        assert(ram@ =~= restored_ram(old(ram)@, save@));
    }
}

/// A loaded cartridge: its header and its controller.
pub struct Cartridge {
    pub info: CartridgeInfo,
    pub mbc: MBCEnum,
}

/// The controller family used for a header's controller index: MBC1, MBC3, MBC5 as such;
/// every index without an emulated controller but MBC2 falls back to no controller.
pub open spec fn uses_mbc(index: u8) -> u8 {
    if index == 1 || index == 3 || index == 5 { index } else { 0 }
}

impl Cartridge {
    pub open spec fn wf(&self) -> bool {
        self.mbc.wf()
    }

    /// Loads an image: reads the header and builds its controller. MBC2 images are refused
    /// as unsupported.
    pub fn from_data(path: &str, data: Vec<u8>) -> (r: Result<Cartridge, CartridgeError>)
        ensures
            data@.len() < 0x150 ==> r == Err::<Cartridge, CartridgeError>(CartridgeError::Header(HeaderError::TooShort)),
            data@.len() >= 0x150 && data@[0x148] > 8 ==> r == Err::<Cartridge, CartridgeError>(
                CartridgeError::Header(HeaderError::BadRomSize),
            ),
            data@.len() >= 0x150 && data@[0x148] <= 8 ==> (r.is_ok() <==> mbc_index_spec(data@[0x147]) != 2),
            data@.len() >= 0x150 && data@[0x148] <= 8 && mbc_index_spec(data@[0x147]) == 2 ==> r == Err::<
                Cartridge,
                CartridgeError,
            >(CartridgeError::Unsupported(2)),
            r matches Ok(c) ==> c.wf() && c.mbc.rom() == data@ && c.info.cart_type == data@[0x147]
                && !c.mbc.ram_enabled(),
    {
        let info = match CartridgeInfo::from_data(path, &data) {
            Ok(info) => info,
            Err(e) => {
                return Err(CartridgeError::Header(e));
            },
        };
        let mbc = if info.mbc_index == 1 {
            MBCEnum::MBC1(MBC1::from_data(data, info.rom_bank_count, info.ram_bank_count, info.battery))
        } else if info.mbc_index == 2 {
            return Err(CartridgeError::Unsupported(2));
        } else if info.mbc_index == 3 {
            MBCEnum::MBC3(MBC3::from_data(data, info.rom_bank_count, info.ram_bank_count))
        } else if info.mbc_index == 5 {
            MBCEnum::MBC5(MBC5::from_data(data, info.rom_bank_count, info.ram_bank_count, info.battery))
        } else {
            MBCEnum::MBC0(MBC0::from_data(data))
        };
        Ok(Cartridge { info, mbc })
    }

    /// Reads the cartridge window (`0000..7FFF`, `A000..BFFF`).
    pub fn read(&self, address: usize) -> (r: u8)
        requires
            self.wf(),
        ensures
            r == self.mbc.read_spec(address),
    {
        self.mbc.read(address)
    }

    /// A write into the cartridge window: a controller register below `8000`, RAM at
    /// `A000..BFFF`. The ROM image never changes.
    pub fn write(&mut self, address: usize, value: u8)
        requires
            old(self).wf(),
        ensures
            final(self).wf(),
            final(self).mbc.rom() == old(self).mbc.rom(),
            final(self).info == old(self).info,
            final(self).mbc.same_kind(&old(self).mbc),
            old(self).mbc is MBC0 ==> final(self).mbc == old(self).mbc,
            !(old(self).mbc is MBC0) && address < 0x2000 ==> final(self).mbc.ram_enabled() == (value % 16 == 0xA),
            0xA000 <= address < 0xC000 ==> final(self).mbc.ram_enabled() == old(self).mbc.ram_enabled(),
            0xA000 <= address < 0xC000 && old(self).mbc.ram_writable() ==> final(self).mbc.read_spec(address) == value,
            old(self).mbc is MBC1 && 0x2000 <= address < 0x4000 ==> final(self).mbc.rom_bank() == (old(self).mbc.rom_bank()
                / 32) * 32 + (if value % 32 == 0 { 1 } else { value % 32 }),
            old(self).mbc is MBC3 && 0x2000 <= address < 0x4000 ==> final(self).mbc.rom_bank() == (if value % 128 == 0 {
                1
            } else {
                value % 128
            }),
            old(self).mbc is MBC5 && 0x2000 <= address < 0x3000 ==> final(self).mbc.rom_bank() == (old(self).mbc.rom_bank()
                / 256) * 256 + value,
            old(self).mbc is MBC5 && 0x3000 <= address < 0x4000 ==> final(self).mbc.rom_bank() == old(self).mbc.rom_bank()
                % 256 + (value % 2) * 256,
    {
        self.mbc.write(address, value)
    }

    /// The bytes to persist: all RAM banks in order, for a battery-backed cartridge that has
    /// RAM; `None` otherwise.
    pub fn save_ram(&self) -> (r: Option<Vec<u8>>)
        ensures
            r.is_some() <==> (self.info.battery && self.mbc.ram().len() > 0),
            r matches Some(v) ==> v@ == self.mbc.ram(),
    {
        if !self.info.battery {
            return None;
        }
        let ram = match &self.mbc {
            MBCEnum::MBC0(_) => {
                return None;
            },
            MBCEnum::MBC1(m) => &m.ram,
            MBCEnum::MBC3(m) => &m.ram,
            MBCEnum::MBC5(m) => &m.ram,
        };
        if ram.len() == 0 {
            None
        } else {
            Some(ram.clone())
        }
    }

    /// Restores RAM from a save image laid out as `save_ram` writes it; only whole banks
    /// present in `save` are taken, and only for a battery-backed cartridge.
    pub fn load_ram(&mut self, save: &Vec<u8>)
        requires
            old(self).wf(),
        ensures
            final(self).wf(),
            final(self).info == old(self).info,
            final(self).mbc.rom() == old(self).mbc.rom(),
            final(self).mbc.ram() == (if old(self).info.battery {
                restored_ram(old(self).mbc.ram(), save@)
            } else {
                old(self).mbc.ram()
            }),
    {
        if !self.info.battery {
            return;
        }
        match &mut self.mbc {
            MBCEnum::MBC0(_) => {
                proof {
                    assert(restored_ram(Seq::<u8>::empty(), save@) =~= Seq::<u8>::empty());
                }
            },
            MBCEnum::MBC1(m) => copy_banks(&mut m.ram, save),
            MBCEnum::MBC3(m) => copy_banks(&mut m.ram, save),
            MBCEnum::MBC5(m) => copy_banks(&mut m.ram, save),
        }
    }

    /// Whether a battery-backed MBC1 has seen enough RAM writes that it should be saved;
    /// the request is consumed.
    pub fn save_due(&mut self) -> (r: bool)
        requires
            old(self).wf(),
        ensures
            final(self).wf(),
            final(self).info == old(self).info,
            final(self).mbc.rom() == old(self).mbc.rom(),
            final(self).mbc.ram() == old(self).mbc.ram(),
            forall|a: usize| final(self).mbc.read_spec(a) == old(self).mbc.read_spec(a),
    {
        match &mut self.mbc {
            MBCEnum::MBC1(m) => {
                let due = m.save_due;
                m.save_due = false;
                due
            },
            _ => false,
        }
    }
}

/// While cartridge RAM is disabled, every read of `A000..BFFF` through a memory bank
/// controller yields `FF`.
pub proof fn lemma_disabled_ram_reads_ff(c: Cartridge, address: usize)
    requires
        c.wf(),
        !(c.mbc is MBC0),
        !c.mbc.ram_enabled(),
        0xA000 <= address < 0xC000,
    ensures
        c.mbc.read_spec(address) == 0xFF,
{
}

} // verus!
