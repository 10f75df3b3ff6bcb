//! Video memory: the tile and map area (VRAM) and the sprite attribute table
//! (OAM). Only the byte surface that the address space routes to is modelled.
use vstd::prelude::*;

verus! {

/// Bytes of VRAM, mapped at 0x8000 to 0x9FFF.
pub const VRAM_SIZE: usize = 0x2000;

/// Bytes of OAM, mapped at 0xFE00 to 0xFE9F.
pub const OAM_SIZE: usize = 0xA0;

/// Whether `address` falls in the VRAM window.
pub open spec fn in_vram(address: u16) -> bool {
    0x8000 <= address <= 0x9FFF
}

/// Whether `address` falls in the OAM window.
pub open spec fn in_oam(address: u16) -> bool {
    0xFE00 <= address <= 0xFE9F
}

/// Where an address lands in VRAM: its low 13 bits.
pub open spec fn vram_index(address: u16) -> int {
    address as int % 0x2000
}

/// Where an address lands in OAM: its low byte.
pub open spec fn oam_index(address: u16) -> int {
    address as int % 0x100
}

pub struct GPU {
    pub vram: Vec<u8>,
    pub oam: Vec<u8>,
}

impl GPU {
    pub open spec fn wf(&self) -> bool {
        self.vram@.len() == VRAM_SIZE && self.oam@.len() == OAM_SIZE
    }

    /// Video memory, all zero.
    pub fn new() -> (r: GPU)
        ensures
            r.wf(),
            forall|i: int| 0 <= i < VRAM_SIZE ==> r.vram@[i] == 0,
            forall|i: int| 0 <= i < OAM_SIZE ==> r.oam@[i] == 0,
    {
        GPU { vram: vec![0u8; VRAM_SIZE], oam: vec![0u8; OAM_SIZE] }
    }

    /// The VRAM byte for an address, masked to 13 bits.
    pub fn read_vram(&self, address: u16) -> (r: u8)
        requires
            self.wf(),
        ensures
            r == self.vram@[vram_index(address)],
    {
        proof {
            lemma_mask_13(address);
        }
        self.vram[(address & 0x1FFF) as usize]
    }

    /// Stores into VRAM at an address masked to 13 bits.
    pub fn write_vram(&mut self, address: u16, val: u8)
        requires
            old(self).wf(),
        ensures
            final(self).vram@ == old(self).vram@.update(vram_index(address), val),
            final(self).oam@ == old(self).oam@,
    {
        proof {
            lemma_mask_13(address);
        }
        self.vram.set((address & 0x1FFF) as usize, val);
    }

    /// The OAM byte for an address, masked to its low byte; the unusable
    /// offsets past the table read as zero.
    pub fn read_oam(&self, address: u16) -> (r: u8)
        requires
            self.wf(),
        ensures
            r == (if oam_index(address) < OAM_SIZE {
                self.oam@[oam_index(address)]
            } else {
                0
            }),
    {
        proof {
            lemma_mask_8(address);
        }
        let i = (address & 0x00FF) as usize;
        if i < OAM_SIZE {
            self.oam[i]
        } else {
            0
        }
    }

    /// Stores into OAM at an address masked to its low byte; a store to the
    /// unusable offsets past the table is dropped.
    pub fn write_oam(&mut self, address: u16, val: u8)
        requires
            old(self).wf(),
        ensures
            final(self).vram@ == old(self).vram@,
            final(self).oam@ == (if oam_index(address) < OAM_SIZE {
                old(self).oam@.update(oam_index(address), val)
            } else {
                old(self).oam@
            }),
    {
        proof {
            lemma_mask_8(address);
        }
        let i = (address & 0x00FF) as usize;
        if i < OAM_SIZE {
            self.oam.set(i, val);
        }
    }

    /// A store routed here by the address space: VRAM and OAM addresses
    /// land in their table, any other address (the I/O ports, which are
    /// not modelled) is dropped.
    pub fn write_byte(&mut self, address: u16, val: u8)
        requires
            old(self).wf(),
        ensures
            final(self).vram@ == (if in_vram(address) {
                old(self).vram@.update(vram_index(address), val)
            } else {
                old(self).vram@
            }),
            final(self).oam@ == (if in_oam(address) {
                old(self).oam@.update(oam_index(address), val)
            } else {
                old(self).oam@
            }),
    {
        if 0x8000 <= address && address <= 0x9FFF {
            self.write_vram(address, val);
        } else if 0xFE00 <= address && address <= 0xFE9F {
            self.write_oam(address, val);
        }
    }
}

/// Masking to 13 bits is the remainder by 0x2000.
pub proof fn lemma_mask_13(x: u16)
    ensures
        x & 0x1FFF == x % 0x2000,
{
    assert(x & 0x1FFF == x % 0x2000) by (bit_vector);
}

/// Masking to the low byte is the remainder by 0x100.
pub proof fn lemma_mask_8(x: u16)
    ensures
        x & 0x00FF == x % 0x100,
{
    assert(x & 0x00FF == x % 0x100) by (bit_vector);
}

/// Masking to 7 bits is the remainder by 0x80.
pub proof fn lemma_mask_7(x: u16)
    ensures
        x & 0x007F == x % 0x80,
{
    assert(x & 0x007F == x % 0x80) by (bit_vector);
}

} // verus!
