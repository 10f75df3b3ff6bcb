//! The address space: decodes every 16-bit address onto exactly one backing
//! byte (boot firmware, cartridge ROM, video memory, external RAM, working
//! RAM, zero-page RAM) or onto a constant zero.
use vstd::prelude::*;

use crate::cpu::{high_byte, low_byte, pair_value};
use crate::gpu::{
    lemma_mask_13, lemma_mask_7, oam_index, vram_index, GPU, OAM_SIZE, VRAM_SIZE,
};

verus! {

/// Bytes of boot firmware, overlaid on 0x0000 to 0x00FF while it is active.
pub const BIOS_SIZE: usize = 0x100;

/// Bytes of cartridge ROM, mapped at 0x0000 to 0x7FFF.
pub const ROM_SIZE: usize = 0x8000;

/// Bytes of external RAM, mapped at 0xA000 to 0xBFFF.
pub const ERAM_SIZE: usize = 0x2000;

/// Bytes of working RAM, mapped at 0xC000 to 0xDFFF and mirrored at 0xE000
/// to 0xFDFF.
pub const WRAM_SIZE: usize = 0x2000;

/// Bytes of zero-page RAM, mapped at 0xFF80 to 0xFFFF.
pub const ZRAM_SIZE: usize = 0x80;

/// The address after `a`, wrapping from 0xFFFF to 0x0000.
pub open spec fn next_address(a: u16) -> u16 {
    if a == 0xFFFF {
        0
    } else {
        (a + 1) as u16
    }
}

/// `n` zero bytes.
pub open spec fn zeros(n: nat) -> Seq<u8> {
    Seq::new(n, |i: int| 0u8)
}

/// The contents of the address space as mathematical sequences.
pub struct MemView {
    /// Whether the boot firmware still overlays the bottom of the space.
    pub inbios: bool,
    pub bios: Seq<u8>,
    pub rom: Seq<u8>,
    pub vram: Seq<u8>,
    pub oam: Seq<u8>,
    pub eram: Seq<u8>,
    pub wram: Seq<u8>,
    pub zram: Seq<u8>,
}

impl MemView {
    pub open spec fn wf(self) -> bool {
        &&& self.bios.len() == BIOS_SIZE
        &&& self.rom.len() == ROM_SIZE
        &&& self.vram.len() == VRAM_SIZE
        &&& self.oam.len() == OAM_SIZE
        &&& self.eram.len() == ERAM_SIZE
        &&& self.wram.len() == WRAM_SIZE
        &&& self.zram.len() == ZRAM_SIZE
    }

    /// The space at power-on: firmware active, the given images loaded,
    /// every RAM byte zero.
    pub open spec fn fresh(bios: Seq<u8>, rom: Seq<u8>) -> MemView {
        MemView {
            inbios: true,
            bios: bios,
            rom: rom,
            vram: zeros(VRAM_SIZE as nat),
            oam: zeros(OAM_SIZE as nat),
            eram: zeros(ERAM_SIZE as nat),
            wram: zeros(WRAM_SIZE as nat),
            zram: zeros(ZRAM_SIZE as nat),
        }
    }

    /// The byte that a read of `addr` returns.
    pub open spec fn load(self, addr: u16) -> u8 {
        if addr < 0x0100 {
            if self.inbios {
                self.bios[addr as int]
            } else {
                self.rom[addr as int]
            }
        } else if addr < 0x8000 {
            self.rom[addr as int]
        } else if addr < 0xA000 {
            self.vram[vram_index(addr)]
        } else if addr < 0xC000 {
            self.eram[addr as int % 0x2000]
        } else if addr < 0xFE00 {
            self.wram[addr as int % 0x2000]
        } else if addr < 0xFEA0 {
            self.oam[oam_index(addr)]
        } else if addr < 0xFF80 {
            0
        } else {
            self.zram[addr as int % 0x80]
        }
    }

    /// The space after a read of `addr`: the first read of 0x0100 ends the
    /// firmware overlay for good; no other read changes anything.
    pub open spec fn touch(self, addr: u16) -> MemView {
        if addr == 0x0100 {
            MemView { inbios: false, ..self }
        } else {
            self
        }
    }

    /// The space after a write of `val` to `addr`. Writes to ROM addresses
    /// land in the cartridge image; writes to the firmware while it overlays
    /// the bottom of the space, to the unusable area and to the I/O ports
    /// are dropped.
    pub open spec fn store(self, addr: u16, val: u8) -> MemView {
        if addr < 0x0100 && self.inbios {
            self
        } else if addr < 0x8000 {
            MemView { rom: self.rom.update(addr as int, val), ..self }
        } else if addr < 0xA000 {
            MemView { vram: self.vram.update(vram_index(addr), val), ..self }
        } else if addr < 0xC000 {
            MemView { eram: self.eram.update(addr as int % 0x2000, val), ..self }
        } else if addr < 0xFE00 {
            MemView { wram: self.wram.update(addr as int % 0x2000, val), ..self }
        } else if addr < 0xFEA0 {
            MemView { oam: self.oam.update(oam_index(addr), val), ..self }
        } else if addr < 0xFF80 {
            self
        } else {
            MemView { zram: self.zram.update(addr as int % 0x80, val), ..self }
        }
    }

    /// The word that a read of `addr` returns: the byte at `addr` is the low
    /// half, read first; the byte after it is the high half.
    pub open spec fn load_word(self, addr: u16) -> u16 {
        pair_value(self.touch(addr).load(next_address(addr)), self.load(addr))
    }

    /// The space after a word read at `addr`.
    pub open spec fn touch_word(self, addr: u16) -> MemView {
        self.touch(addr).touch(next_address(addr))
    }

    /// The space after a word write at `addr`: low byte at `addr`, then the
    /// high byte at the address after it.
    pub open spec fn store_word(self, addr: u16, val: u16) -> MemView {
        self.store(addr, low_byte(val)).store(next_address(addr), high_byte(val))
    }

    /// Whether a byte written to `addr` reads back: everywhere but the
    /// firmware overlay while it is active, the unusable area and the I/O
    /// ports.
    pub open spec fn retains(self, addr: u16) -> bool {
        ||| addr < 0x0100 && !self.inbios
        ||| 0x0100 <= addr < 0xFEA0
        ||| 0xFF80 <= addr
    }
}

/// Why a memory image was refused.
#[derive(Clone, Copy, Debug, PartialEq, Eq, Structural)]
pub enum ImageError {
    /// The firmware image is not exactly `BIOS_SIZE` bytes.
    FirmwareSize,
    /// The cartridge image is not exactly `ROM_SIZE` bytes.
    RomSize,
}

pub struct MMU {
    pub gpu: GPU,
    pub inbios: bool,
    pub bios: Vec<u8>,
    pub rom: Vec<u8>,
    pub wram: Vec<u8>,
    pub eram: Vec<u8>,
    pub zram: Vec<u8>,
}

impl View for MMU {
    type V = MemView;

    open spec fn view(&self) -> MemView {
        MemView {
            inbios: self.inbios,
            bios: self.bios@,
            rom: self.rom@,
            vram: self.gpu.vram@,
            oam: self.gpu.oam@,
            eram: self.eram@,
            wram: self.wram@,
            zram: self.zram@,
        }
    }
}

impl MMU {
    pub open spec fn wf(&self) -> bool {
        self@.wf()
    }

    /// An address space with zeroed firmware and ROM.
    pub fn new() -> (r: MMU)
        ensures
            r.wf(),
            r@ == MemView::fresh(zeros(BIOS_SIZE as nat), zeros(ROM_SIZE as nat)),
    {
        let firmware = vec![0u8; BIOS_SIZE];
        let rom = vec![0u8; ROM_SIZE];
        assert(firmware@ =~= zeros(BIOS_SIZE as nat));
        assert(rom@ =~= zeros(ROM_SIZE as nat));
        MMU::loaded(firmware, rom)
    }

    /// An address space holding the given firmware and cartridge images.
    /// Fails when either image has the wrong size; the firmware is tested first.
    pub fn with_images(firmware: Vec<u8>, rom: Vec<u8>) -> (r: Result<MMU, ImageError>)
        ensures
            r is Ok <==> firmware@.len() == BIOS_SIZE && rom@.len() == ROM_SIZE,
            r is Ok ==> r->Ok_0.wf() && r->Ok_0@ == MemView::fresh(firmware@, rom@),
            r is Err ==> (r->Err_0 == ImageError::FirmwareSize <==> firmware@.len()
                != BIOS_SIZE),
    {
        if firmware.len() != BIOS_SIZE {
            Err(ImageError::FirmwareSize)
        } else if rom.len() != ROM_SIZE {
            Err(ImageError::RomSize)
        } else {
            Ok(MMU::loaded(firmware, rom))
        }
    }

    fn loaded(firmware: Vec<u8>, rom: Vec<u8>) -> (r: MMU)
        requires
            firmware@.len() == BIOS_SIZE,
            rom@.len() == ROM_SIZE,
        ensures
            r.wf(),
            r@ == MemView::fresh(firmware@, rom@),
    {
        let gpu = GPU::new();
        let r = MMU {
            gpu: gpu,
            inbios: true,
            bios: firmware,
            rom: rom,
            wram: vec![0u8; WRAM_SIZE],
            eram: vec![0u8; ERAM_SIZE],
            zram: vec![0u8; ZRAM_SIZE],
        };
        assert(r.gpu.vram@ =~= zeros(VRAM_SIZE as nat));
        assert(r.gpu.oam@ =~= zeros(OAM_SIZE as nat));
        assert(r.wram@ =~= zeros(WRAM_SIZE as nat));
        assert(r.eram@ =~= zeros(ERAM_SIZE as nat));
        assert(r.zram@ =~= zeros(ZRAM_SIZE as nat));
        r
    }

    /// Reads the byte at `address`. Reading 0x0100 ends the firmware overlay.
    pub fn read(&mut self, address: u16) -> (r: u8)
        requires
            old(self).wf(),
        ensures
            final(self).wf(),
            r == old(self)@.load(address),
            final(self)@ == old(self)@.touch(address),
    {
        let addr = address as usize;
        proof {
            lemma_mask_13(address);
            lemma_mask_7(address);
        }
        if address < 0x0100 {
            if self.inbios {
                self.bios[addr]
            } else {
                self.rom[addr]
            }
        } else if address == 0x0100 {
            self.inbios = false;
            self.rom[addr]
        } else if address < 0x8000 {
            self.rom[addr]
        } else if address < 0xA000 {
            self.gpu.read_vram(address)
        } else if address < 0xC000 {
            self.eram[(address & 0x1FFF) as usize]
        } else if address < 0xFE00 {
            // 0xE000 to 0xFDFF mirrors working RAM
            self.wram[(address & 0x1FFF) as usize]
        } else if address < 0xFEA0 {
            self.gpu.read_oam(address)
        } else if address < 0xFF80 {
            // the unusable area and the I/O ports read as zero
            0
        } else {
            self.zram[(address & 0x007F) as usize]
        }
    }

    /// Reads the little-endian word at `address`: the low byte first, then
    /// the high byte from the address after it.
    pub fn read_word(&mut self, address: u16) -> (r: u16)
        requires
            old(self).wf(),
        ensures
            final(self).wf(),
            r == old(self)@.load_word(address),
            final(self)@ == old(self)@.touch_word(address),
    {
        let low = self.read(address);
        let high = self.read(next_addr(address));
        proof {
            crate::cpu::lemma_pair_view(high, low, 0);
        }
        (high as u16) << 8 | low as u16
    }

    /// Writes `val` to `address`.
    pub fn write_byte(&mut self, address: u16, val: u8)
        requires
            old(self).wf(),
        ensures
            final(self).wf(),
            final(self)@ == old(self)@.store(address, val),
    {
        proof {
            lemma_mask_13(address);
            lemma_mask_7(address);
        }
        if address < 0x0100 && self.inbios {
            // the firmware is read-only
        } else if address < 0x8000 {
            self.rom.set(address as usize, val);
        } else if address < 0xA000 {
            self.gpu.write_byte(address, val);
        } else if address < 0xC000 {
            self.eram.set((address & 0x1FFF) as usize, val);
        } else if address < 0xFE00 {
            self.wram.set((address & 0x1FFF) as usize, val);
        } else if address < 0xFF80 {
            // OAM; the rest of this range is dropped by the video unit
            self.gpu.write_byte(address, val);
        } else {
            self.zram.set((address & 0x007F) as usize, val);
        }
        assert(self@ =~= old(self)@.store(address, val));
    }

    /// Writes the little-endian word `val` at `address`: the low byte there,
    /// then the high byte at the address after it.
    pub fn write_word(&mut self, address: u16, val: u16)
        requires
            old(self).wf(),
        ensures
            final(self).wf(),
            final(self)@ == old(self)@.store_word(address, val),
    {
        proof {
            crate::cpu::lemma_split_pair(val);
        }
        let low = val as u8;
        let high = (val >> 8) as u8;
        self.write_byte(address, low);
        self.write_byte(next_addr(address), high);
    }
}

/// A byte written to working RAM reads back from the same address, and from
/// the address 0x2000 above it in the mirror region.
pub proof fn lemma_wram_round_trip(m: MemView, addr: u16, val: u8)
    requires
        m.wf(),
        0xC000 <= addr <= 0xDFFF,
    ensures
        m.store(addr, val).load(addr) == val,
        addr <= 0xDDFF ==> m.store(addr, val).load((addr + 0x2000) as u16) == val,
{
}

/// A word written at `addr` reads back whole, and its low byte reads back
/// from `addr` itself, wherever both bytes land in storage that keeps them.
pub proof fn lemma_word_round_trip(m: MemView, addr: u16, val: u16)
    requires
        m.wf(),
        m.retains(addr),
        m.retains(next_address(addr)),
    ensures
        m.store_word(addr, val).load_word(addr) == val,
        m.store_word(addr, val).load(addr) == low_byte(val),
{
    crate::cpu::lemma_pair_view(0, 0, val);
}

/// While the firmware overlay is active, the bottom 256 addresses read the
/// firmware; one read of 0x0100 ends the overlay, and from then on they read
/// the cartridge ROM. Reads of any other address leave the overlay as it is.
pub proof fn lemma_firmware_overlay(m: MemView, addr: u16, other: u16)
    requires
        m.wf(),
        m.inbios,
        addr < 0x0100,
        other != 0x0100,
    ensures
        m.load(addr) == m.bios[addr as int],
        m.touch(other).inbios,
        !m.touch(0x0100).inbios,
        m.touch(0x0100).load(addr) == m.rom[addr as int],
{
}

/// The address after `a`, wrapping from 0xFFFF to 0x0000.
pub(crate) fn next_addr(a: u16) -> (r: u16)
    ensures
        r == next_address(a),
{
    if a == 0xFFFF {
        0
    } else {
        a + 1
    }
}

} // verus!
