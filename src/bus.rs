//! The memory bus: address decoding over cartridge ROM, RAM regions and the
//! I/O register window, with the side effects of writes.
use vstd::prelude::*;

verus! {

/// Joypad register: button group select (bits 5..4) and pressed keys (bits 3..0, 0 = pressed).
pub const JOYP_ADDR: u16 = 0xFF00;
/// Divider register.
pub const DIV_ADDR: u16 = 0xFF04;
/// Timer counter.
pub const TIMA_ADDR: u16 = 0xFF05;
/// Timer modulo.
pub const TMA_ADDR: u16 = 0xFF06;
/// Timer control.
pub const TAC_ADDR: u16 = 0xFF07;
/// Interrupt flag (pending requests).
pub const IF_ADDR: u16 = 0xFF0F;
/// Scanline counter.
pub const LY_ADDR: u16 = 0xFF44;
/// Object attribute memory DMA trigger.
pub const DMA_ADDR: u16 = 0xFF46;
/// Interrupt enable.
pub const IE_ADDR: u16 = 0xFFFF;
/// Start of object attribute memory.
pub const OAM_START: u16 = 0xFE00;
/// Bytes copied by one DMA transfer.
pub const DMA_LEN: u16 = 0xA0;
/// Value read from unmapped addresses.
pub const OPEN_BUS: u8 = 0xFF;

/// The cartridge's bank controller.
#[derive(Clone, Copy, Debug, PartialEq, Eq, Structural)]
pub enum Mbc {
    RomOnly,
    Mbc1,
}

/// The 64KB address space. Addresses below 0x8000 come from `rom`; all others
/// are stored at their own index in `mem`.
#[derive(Clone, Debug)]
pub struct Bus {
    pub rom: Vec<u8>,
    pub mem: Vec<u8>,
    /// ROM bank mapped at 0x4000..0x8000, never 0.
    pub rom_bank: u8,
    pub mbc: Mbc,
    /// Whether the cartridge has external RAM at 0xA000..0xC000.
    pub has_ram: bool,
    /// Cycles since the divider last stepped.
    pub div_counter: u16,
    /// Held buttons, one bit each: Right, Left, Up, Down, A, B, Select, Start from bit 0.
    pub buttons: u8,
}

/// What the joypad register reads: the two select bits as written, and in the
/// low nibble a zero for each held button of every selected group (directions
/// when bit 4 is clear, actions when bit 5 is clear).
pub open spec fn joypad_read(select: u8, buttons: u8) -> u8 {
    let dirs: u8 = if select & 0x10 == 0 { buttons & 0x0F } else { 0 };
    let acts: u8 = if select & 0x20 == 0 { buttons >> 4u8 } else { 0 };
    0xC0u8 | (select & 0x30u8) | (!(dirs | acts) & 0x0Fu8)
}

pub open spec fn rom_byte(rom: Seq<u8>, i: int) -> u8 {
    if 0 <= i < rom.len() { rom[i] } else { OPEN_BUS }
}

impl Bus {
    pub open spec fn wf(&self) -> bool {
        &&& self.mem@.len() == 0x10000
        &&& self.rom_bank >= 1
        &&& self.div_counter < 256
    }

    /// What a read of `addr` returns.
    pub open spec fn read_spec(&self, addr: u16) -> u8 {
        if addr < 0x4000 {
            rom_byte(self.rom@, addr as int)
        } else if addr < 0x8000 {
            rom_byte(self.rom@, self.rom_bank * 0x4000 + (addr - 0x4000))
        } else if 0xA000 <= addr < 0xC000 && !self.has_ram {
            OPEN_BUS
        } else if 0xE000 <= addr < 0xFE00 {
            self.mem@[addr - 0x2000]
        } else if 0xFEA0 <= addr < 0xFF00 {
            OPEN_BUS
        } else if addr == JOYP_ADDR {
            joypad_read(self.mem@[addr as int], self.buttons)
        } else {
            self.mem@[addr as int]
        }
    }

    /// The stored bytes after a write of `val` to `addr`.
    pub open spec fn mem_after_write(&self, addr: u16, val: u8) -> Seq<u8> {
        if addr < 0x8000 || (0xA000 <= addr < 0xC000 && !self.has_ram) || (0xFEA0 <= addr < 0xFF00) {
            self.mem@
        } else if 0xE000 <= addr < 0xFE00 {
            self.mem@.update(addr - 0x2000, val)
        } else if addr == DIV_ADDR {
            self.mem@.update(addr as int, 0)
        } else if addr == DMA_ADDR {
            Seq::new(
                0x10000,
                |i: int|
                    if OAM_START <= i < OAM_START + DMA_LEN {
                        self.read_spec((val * 256 + (i - OAM_START)) as u16)
                    } else if i == DMA_ADDR {
                        val
                    } else {
                        self.mem@[i]
                    },
            )
        } else {
            self.mem@.update(addr as int, val)
        }
    }

    /// The mapped ROM bank after a write: a bank-controller command selects the
    /// bank from the low five bits, bank 0 standing for bank 1.
    pub open spec fn bank_after_write(&self, addr: u16, val: u8) -> u8 {
        if self.mbc == Mbc::Mbc1 && 0x2000 <= addr < 0x4000 {
            if val % 32 == 0 { 1 } else { val % 32 }
        } else {
            self.rom_bank
        }
    }

    /// `post` is `self` after a write of `val` to `addr`.
    pub open spec fn written(&self, post: Bus, addr: u16, val: u8) -> bool {
        &&& post.rom@ == self.rom@
        &&& post.mbc == self.mbc
        &&& post.has_ram == self.has_ram
        &&& post.mem@ == self.mem_after_write(addr, val)
        &&& post.rom_bank == self.bank_after_write(addr, val)
        &&& post.div_counter == if addr == DIV_ADDR { 0 } else { self.div_counter }
        &&& post.buttons == self.buttons
    }

    /// `post` is `self` after a 16-bit write: the low byte to `addr`, then the high byte after it.
    pub open spec fn written16(&self, post: Bus, addr: u16, val: u16) -> bool {
        exists|mid: Bus|
            #[trigger] self.written(mid, addr, (val % 256) as u8)
            && mid.written(post, ((addr + 1) % 0x10000) as u16, (val / 256) as u8)
    }

    /// The little-endian 16-bit value at `addr`.
    pub open spec fn read16_spec(&self, addr: u16) -> u16 {
        (self.read_spec(addr) + 256 * self.read_spec(((addr + 1) % 0x10000) as u16)) as u16
    }

    pub fn read8(&self, addr: u16) -> (r: u8)
        requires
            self.wf(),
        ensures
            r == self.read_spec(addr),
    {
        if addr < 0x4000 {
            if (addr as usize) < self.rom.len() { self.rom[addr as usize] } else { OPEN_BUS }
        } else if addr < 0x8000 {
            let i: usize = self.rom_bank as usize * 0x4000 + (addr - 0x4000) as usize;
            if i < self.rom.len() { self.rom[i] } else { OPEN_BUS }
        } else if 0xA000 <= addr && addr < 0xC000 && !self.has_ram {
            OPEN_BUS
        } else if 0xE000 <= addr && addr < 0xFE00 {
            self.mem[(addr - 0x2000) as usize]
        } else if 0xFEA0 <= addr && addr < 0xFF00 {
            OPEN_BUS
        } else if addr == JOYP_ADDR {
            let select = self.mem[addr as usize];
            let dirs: u8 = if select & 0x10 == 0 { self.buttons & 0x0F } else { 0 };
            let acts: u8 = if select & 0x20 == 0 { self.buttons >> 4u8 } else { 0 };
            0xC0u8 | (select & 0x30u8) | (!(dirs | acts) & 0x0Fu8)
        } else {
            self.mem[addr as usize]
        }
    }

    pub fn read16(&self, addr: u16) -> (r: u16)
        requires
            self.wf(),
        ensures
            r == self.read16_spec(addr),
    {
        let lo = self.read8(addr);
        let next: u16 = if addr == 0xFFFF { 0 } else { addr + 1 };
        let hi = self.read8(next);
        lo as u16 + 256 * hi as u16
    }

    /// Stores a value into an I/O register directly, as the hardware itself does
    /// (no write side effects).
    pub fn set_io(&mut self, addr: u16, v: u8)
        requires
            old(self).wf(),
            addr >= 0xFF00,
        ensures
            final(self).wf(),
            final(self).mem@ == old(self).mem@.update(addr as int, v),
            final(self).rom@ == old(self).rom@,
            final(self).rom_bank == old(self).rom_bank,
            final(self).mbc == old(self).mbc,
            final(self).has_ram == old(self).has_ram,
            final(self).div_counter == old(self).div_counter,
            final(self).buttons == old(self).buttons,
    {
        self.mem.set(addr as usize, v);
    }

    /// Reads an I/O register directly.
    pub fn get_io(&self, addr: u16) -> (r: u8)
        requires
            self.wf(),
        ensures
            r == self.mem@[addr as int],
    {
        self.mem[addr as usize]
    }

    /// Copies the DMA block selected by `page` into object attribute memory.
    fn dma_copy(&mut self, page: u8)
        requires
            old(self).wf(),
        ensures
            final(self).wf(),
            final(self).rom@ == old(self).rom@,
            final(self).rom_bank == old(self).rom_bank,
            final(self).mbc == old(self).mbc,
            final(self).has_ram == old(self).has_ram,
            final(self).div_counter == old(self).div_counter,
            final(self).buttons == old(self).buttons,
            forall|i: int| 0 <= i < 0x10000 ==> #[trigger] final(self).mem@[i] ==
                if OAM_START <= i < OAM_START + DMA_LEN {
                    old(self).read_spec((page * 256 + (i - OAM_START)) as u16)
                } else {
                    old(self).mem@[i]
                },
    {
        let mut block: Vec<u8> = Vec::new();
        let mut i: u16 = 0;
        while i < DMA_LEN
            invariant
                self.wf(),
                i <= DMA_LEN,
                block@.len() == i,
                forall|j: int| 0 <= j < i ==> #[trigger] block@[j] == self.read_spec((page * 256 + j) as u16),
            decreases DMA_LEN - i,
        {
            let b = self.read8(page as u16 * 256 + i);
            block.push(b);
            i = i + 1;
        }
        let ghost pre = *self;
        let mut k: usize = 0;
        while k < DMA_LEN as usize
            invariant
                self.wf(),
                k <= DMA_LEN,
                block@.len() == DMA_LEN,
                self.rom@ == pre.rom@,
                self.rom_bank == pre.rom_bank,
                self.mbc == pre.mbc,
                self.has_ram == pre.has_ram,
                self.div_counter == pre.div_counter,
                self.buttons == pre.buttons,
                forall|j: int| 0 <= j < DMA_LEN ==> #[trigger] block@[j] == pre.read_spec((page * 256 + j) as u16),
                forall|j: int| 0 <= j < 0x10000 ==> #[trigger] self.mem@[j] ==
                    if OAM_START <= j < OAM_START + k { block@[j - OAM_START] } else { pre.mem@[j] },
            decreases DMA_LEN - k,
        {
            self.mem.set(OAM_START as usize + k, block[k]);
            k = k + 1;
        }
    }

    pub fn write8(&mut self, addr: u16, val: u8)
        requires
            old(self).wf(),
        ensures
            final(self).wf(),
            old(self).written(*final(self), addr, val),
    {
        if addr < 0x8000 {
            if self.mbc == Mbc::Mbc1 && 0x2000 <= addr && addr < 0x4000 {
                let b = val % 32;
                self.rom_bank = if b == 0 { 1 } else { b };
            }
        } else if (0xA000 <= addr && addr < 0xC000 && !self.has_ram) || (0xFEA0 <= addr && addr < 0xFF00) {
        } else if 0xE000 <= addr && addr < 0xFE00 {
            self.mem.set((addr - 0x2000) as usize, val);
        } else if addr == DIV_ADDR {
            self.mem.set(addr as usize, 0);
            self.div_counter = 0;
        } else if addr == DMA_ADDR {
            let ghost pre = *self;
            self.dma_copy(val);
            self.mem.set(addr as usize, val);
            assert(self.mem@ =~= pre.mem_after_write(addr, val));
        } else {
            self.mem.set(addr as usize, val);
        }
    }

    /// Writes a 16-bit value, low byte first.
    pub fn write16(&mut self, addr: u16, val: u16)
        requires
            old(self).wf(),
        ensures
            final(self).wf(),
            old(self).written16(*final(self), addr, val),
    {
        let ghost pre = *self;
        self.write8(addr, (val % 256) as u8);
        let ghost mid = *self;
        let next: u16 = if addr == 0xFFFF { 0 } else { addr + 1 };
        self.write8(next, (val / 256) as u8);
        assert(pre.written(mid, addr, (val % 256) as u8));
    }
}

/// Writing any value to the divider register reads back as zero.
pub proof fn lemma_div_write_resets(pre: Bus, post: Bus, val: u8)
    requires
        pre.wf(),
        pre.written(post, DIV_ADDR, val),
    ensures
        post.read_spec(DIV_ADDR) == 0,
        post.div_counter == 0,
{
}

/// A write below 0x8000 never changes what the ROM holds.
pub proof fn lemma_rom_write_keeps_rom(pre: Bus, post: Bus, addr: u16, val: u8)
    requires
        pre.wf(),
        pre.written(post, addr, val),
        addr < 0x8000,
    ensures
        post.rom@ == pre.rom@,
        post.mem@ == pre.mem@,
{
}

} // verus!
