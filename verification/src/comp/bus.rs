//! The bus: what the CPU's sixteen address lines reach.
//!
//! ```text
//! $0000-$1FFF  2 KiB of RAM, repeated four times
//! $2000-$3FFF  the eight PPU registers, repeated every 8 bytes
//! $4014        sprite DMA
//! $4016        controller 1
//! $8000-$FFFF  program ROM; a 16 KiB ROM appears twice
//! ```
//!
//! Everything else reads as 0 and ignores writes.

use vstd::prelude::*;
use crate::comp::controller::Controller;
use crate::comp::controller::ControllerState;
use crate::comp::cpu::high_byte;
use crate::comp::cpu::low_byte;
use crate::comp::cpu::next_addr;
use crate::comp::cpu::spec_next_addr;
use crate::comp::cpu::spec_word;
use crate::comp::cpu::word;
use crate::comp::cpu::Mem;
use crate::comp::ppu::NesPPU;
use crate::comp::ppu::PpuState;
use crate::comp::ppu::lemma_tick_dots;
use crate::comp::ppu::zeroed;
use crate::comp::ppu::OAM_SIZE;
use crate::comp::rom::Cartridge;
use crate::comp::rom::Rom;

verus! {

pub const RAM_SIZE: usize = 2048;

/// The first address above the RAM and its mirrors.
pub const RAM_MIRRORS_END: u16 = 0x2000;

/// The first address above the PPU registers and their mirrors.
pub const PPU_REGISTERS_MIRRORS_END: u16 = 0x4000;

pub const OAM_DMA: u16 = 0x4014;

pub const JOYPAD1: u16 = 0x4016;

pub const PRG_ROM_START: u16 = 0x8000;

/// A program ROM of this size is mapped twice.
pub const PRG_ROM_BANK: usize = 0x4000;

/// CPU cycles that a sprite DMA takes when it starts on an even cycle; one
/// more when it starts on an odd one.
pub const OAM_DMA_CYCLES: u16 = 513;

/// What the bus and the devices on it are, as a value.
#[verifier::ext_equal]
pub struct BusState {
    pub ram: Seq<u8>,
    pub prg: Seq<u8>,
    pub ppu: PpuState,
    pub joypad1: ControllerState,
    /// CPU cycles since power-on.
    pub cycles: usize,
    /// CPU cycles that a sprite DMA has taken and that are not yet charged.
    pub dma_stall: u16,
}

impl BusState {
    /// The memories have their sizes, and the PPU has run three dots for
    /// every CPU cycle.
    #[verifier::opaque]
    pub open spec fn wf(self) -> bool {
        &&& self.ram.len() == RAM_SIZE
        &&& self.ppu.wf()
        &&& self.ppu.elapsed_dots() == 3 * self.cycles
        &&& self.dma_stall <= OAM_DMA_CYCLES + 1
    }

    /// The machine at power-on with a cartridge in it.
    pub open spec fn initial(cartridge: Cartridge) -> BusState {
        BusState {
            ram: Seq::new(RAM_SIZE as nat, |i: int| 0u8),
            prg: cartridge.prg,
            ppu: PpuState::initial(cartridge.chr, cartridge.mirroring),
            joypad1: ControllerState::initial(),
            cycles: 0,
            dma_stall: 0,
        }
    }

    /// The byte of program ROM at an address from `$8000` up. A 16 KiB ROM
    /// fills both halves of the window; where the ROM has no byte, 0.
    #[verifier::opaque]
    pub open spec fn prg_byte(self, addr: u16) -> u8 {
        let i = addr - PRG_ROM_START;
        if self.prg.len() == PRG_ROM_BANK {
            self.prg[i % (PRG_ROM_BANK as int)]
        } else if i < self.prg.len() {
            self.prg[i]
        } else {
            0
        }
    }

    /// The byte that a read at `addr` returns.
    #[verifier::opaque]
    pub open spec fn read_value(self, addr: u16) -> u8 {
        if addr < RAM_MIRRORS_END {
            self.ram[addr as int % RAM_SIZE as int]
        } else if addr < PPU_REGISTERS_MIRRORS_END {
            self.ppu.register_value((addr % 8) as u8)
        } else if addr == JOYPAD1 {
            self.joypad1.read_value()
        } else if addr < PRG_ROM_START {
            0
        } else {
            self.prg_byte(addr)
        }
    }

    /// The bus after a read at `addr`: a PPU register and the controller
    /// react to being read, nothing else does.
    #[verifier::opaque]
    pub open spec fn after_read(self, addr: u16) -> BusState {
        if RAM_MIRRORS_END <= addr < PPU_REGISTERS_MIRRORS_END {
            BusState { ppu: self.ppu.after_register_read((addr % 8) as u8), ..self }
        } else if addr == JOYPAD1 {
            BusState { joypad1: self.joypad1.after_read(), ..self }
        } else {
            self
        }
    }

    /// The 256 bytes of CPU memory that a sprite DMA from page `page` copies.
    #[verifier::opaque]
    pub open spec fn dma_page(self, page: u8) -> Seq<u8> {
        Seq::new(OAM_SIZE as nat, |i: int| self.read_value((page * 256 + i) as u16))
    }

    /// The bus after `data` is written at `addr`. A write to `$4014` copies
    /// a page into sprite memory and stalls the CPU for 513 cycles, 514 when
    /// it falls on an odd cycle; a write to ROM or to an unmapped address
    /// changes nothing.
    #[verifier::opaque]
    pub open spec fn after_write(self, addr: u16, data: u8) -> BusState {
        if addr < RAM_MIRRORS_END {
            BusState { ram: self.ram.update(addr as int % RAM_SIZE as int, data), ..self }
        } else if addr < PPU_REGISTERS_MIRRORS_END {
            BusState { ppu: self.ppu.after_register_write((addr % 8) as u8, data), ..self }
        } else if addr == OAM_DMA {
            BusState {
                ppu: self.ppu.oam_dma(self.dma_page(data)),
                dma_stall: (OAM_DMA_CYCLES + self.cycles % 2) as u16,
                ..self
            }
        } else if addr == JOYPAD1 {
            BusState { joypad1: self.joypad1.write(data), ..self }
        } else {
            self
        }
    }

    /// The bus after `n` CPU cycles: the PPU runs three dots for each.
    #[verifier::opaque]
    pub open spec fn tick(self, n: nat) -> BusState {
        BusState { cycles: (self.cycles + n) as usize, ppu: self.ppu.tick_dots(3 * n), ..self }
    }

    /// The bus after the cycles of a sprite DMA have been charged.
    #[verifier::opaque]
    pub open spec fn settle_dma(self) -> BusState {
        BusState { dma_stall: 0, ..self.tick(self.dma_stall as nat) }
    }

    /// The bus after the CPU has taken the pending interrupt.
    pub open spec fn clear_nmi(self) -> BusState {
        BusState { ppu: PpuState { nmi_pending: false, ..self.ppu }, ..self }
    }
}

/// The bus with the devices on it. Its fields are open to the host, which
/// reads the picture from the PPU and reports the keys to the controller;
/// the contracts speak of its view.
pub struct Bus {
    pub cpu_vram: Vec<u8>,
    pub prg_rom: Vec<u8>,
    pub ppu: NesPPU,
    pub joypad1: Controller,
    pub cycles: usize,
    pub dma_stall: u16,
}

impl View for Bus {
    type V = BusState;

    open spec fn view(&self) -> BusState {
        BusState {
            ram: self.cpu_vram@,
            prg: self.prg_rom@,
            ppu: self.ppu@,
            joypad1: self.joypad1@,
            cycles: self.cycles,
            dma_stall: self.dma_stall,
        }
    }
}

impl Bus {
    /// The machine at power-on with a cartridge in it.
    pub fn new(rom: Rom) -> (bus: Bus)
        ensures
            bus@ == BusState::initial(rom@),
            bus@.wf(),
    {
        proof {
            reveal(BusState::wf);
        }
        Bus {
            cpu_vram: zeroed(RAM_SIZE),
            prg_rom: rom.prg_rom,
            ppu: NesPPU::new(rom.chr_rom, rom.screen_mirroring),
            joypad1: Controller::new(),
            cycles: 0,
            dma_stall: 0,
        }
    }

    fn read_prg_rom(&self, addr: u16) -> (data: u8)
        requires
            addr >= PRG_ROM_START,
        ensures
            data == self@.prg_byte(addr),
    {
        proof {
            reveal(BusState::prg_byte);
        }
        let i: usize = (addr - PRG_ROM_START) as usize;
        if self.prg_rom.len() == PRG_ROM_BANK {
            self.prg_rom[i % PRG_ROM_BANK]
        } else if i < self.prg_rom.len() {
            self.prg_rom[i]
        } else {
            0
        }
    }

    /// The byte that a read at `addr` would return, with none of the read's
    /// effects.
    pub fn peek(&self, addr: u16) -> (data: u8)
        requires
            self@.wf(),
        ensures
            data == self@.read_value(addr),
    {
        proof {
            reveal(BusState::wf);
            reveal(BusState::read_value);
        }
        if addr < RAM_MIRRORS_END {
            self.cpu_vram[addr as usize % RAM_SIZE]
        } else if addr < PPU_REGISTERS_MIRRORS_END {
            self.ppu.peek_register((addr % 8) as u8)
        } else if addr == JOYPAD1 {
            self.joypad1.peek()
        } else if addr < PRG_ROM_START {
            0
        } else {
            self.read_prg_rom(addr)
        }
    }

    /// The word that `peek` finds at `pos` and at the address after it.
    pub fn peek_u16(&self, pos: u16) -> (data: u16)
        requires
            self@.wf(),
        ensures
            data == spec_word(
                self@.read_value(pos),
                self@.read_value(spec_next_addr(pos)),
            ),
    {
        proof {
            reveal(BusState::wf);
        }
        let lo: u8 = self.peek(pos);
        let hi: u8 = self.peek(next_addr(pos));
        word(lo, hi)
    }

    fn read_dma_page(&self, page: u8) -> (bytes: Vec<u8>)
        requires
            self@.wf(),
        ensures
            bytes@ == self@.dma_page(page),
            bytes.len() == OAM_SIZE,
    {
        proof {
            reveal(BusState::wf);
            reveal(BusState::dma_page);
        }
        let base: u16 = page as u16 * 256;
        let mut bytes: Vec<u8> = Vec::new();
        let mut i: u16 = 0;
        while i < 256
            invariant
                i <= 256,
                self@.wf(),
                base == page * 256,
                bytes@ == Seq::new(i as nat, |k: int| self@.read_value((page * 256 + k) as u16)),
            decreases 256 - i,
        {
            bytes.push(self.peek(base + i));
            i += 1;
        }
        bytes
    }

    /// Tells whether the bus is well formed.
    pub fn is_well_formed(&self) -> (b: bool)
        ensures
            b == self@.wf(),
    {
        proof {
            reveal(BusState::wf);
        }
        self.cpu_vram.len() == RAM_SIZE && self.ppu.is_well_formed() && self.dma_stall
            <= OAM_DMA_CYCLES + 1 && self.ppu.frame as u128 * 89342 + self.ppu.scanline as u128
            * 341 + self.ppu.dot as u128 == 3 * self.cycles as u128
    }

    /// CPU cycles since power-on.
    pub fn cycles(&self) -> (n: usize)
        ensures
            n == self@.cycles,
    {
        self.cycles
    }

    /// CPU cycles that a sprite DMA has taken and that `settle_dma` will
    /// charge.
    pub fn dma_stall(&self) -> (n: u16)
        ensures
            n == self@.dma_stall,
    {
        self.dma_stall
    }

    /// Charges `cycles` CPU cycles and runs the PPU for three times as many
    /// dots.
    pub fn tick(&mut self, cycles: u16)
        requires
            old(self)@.wf(),
            old(self)@.cycles + cycles <= usize::MAX,
        ensures
            final(self)@ == old(self)@.tick(cycles as nat),
            final(self)@.wf(),
            final(self)@.cycles == old(self)@.cycles + cycles,
            final(self)@.dma_stall == old(self)@.dma_stall,
    {
        proof {
            reveal(BusState::wf);
            reveal(BusState::tick);
        }
        self.cycles = self.cycles + cycles as usize;
        self.ppu.tick(3 * cycles as u32);
    }

    /// Charges the cycles of a sprite DMA, if one has happened since the
    /// last call.
    pub fn settle_dma(&mut self)
        requires
            old(self)@.wf(),
            old(self)@.cycles + old(self)@.dma_stall <= usize::MAX,
        ensures
            final(self)@ == old(self)@.settle_dma(),
            final(self)@.wf(),
            final(self)@.cycles == old(self)@.cycles + old(self)@.dma_stall,
            final(self)@.dma_stall == 0,
    {
        proof {
            reveal(BusState::wf);
            reveal(BusState::settle_dma);
            reveal(BusState::tick);
        }
        let stall: u16 = self.dma_stall;
        self.tick(stall);
        self.dma_stall = 0;
    }

    /// Takes the PPU's pending interrupt, if there is one.
    pub fn poll_nmi_status(&mut self) -> (nmi: Option<u8>)
        requires
            old(self)@.wf(),
        ensures
            nmi is Some == old(self)@.ppu.nmi_pending,
            final(self)@ == old(self)@.clear_nmi(),
            final(self)@.wf(),
            final(self)@.cycles == old(self)@.cycles,
    {
        proof {
            reveal(BusState::wf);
        }
        self.ppu.poll_nmi_interrupt()
    }

    /// Tells whether the PPU has completed a picture since the host last
    /// asked.
    pub fn take_frame(&mut self) -> (ready: bool)
        requires
            old(self)@.wf(),
        ensures
            ready == old(self)@.ppu.frame_ready,
            final(self)@ == (BusState {
                ppu: PpuState { frame_ready: false, ..old(self)@.ppu },
                ..old(self)@
            }),
            final(self)@.wf(),
    {
        proof {
            reveal(BusState::wf);
        }
        self.ppu.take_frame()
    }
}

impl Mem for Bus {
    open spec fn mem_wf(s: BusState) -> bool {
        s.wf()
    }

    open spec fn read_value(s: BusState, addr: u16) -> u8 {
        s.read_value(addr)
    }

    open spec fn after_read(s: BusState, addr: u16) -> BusState {
        s.after_read(addr)
    }

    open spec fn after_write(s: BusState, addr: u16, data: u8) -> BusState {
        s.after_write(addr, data)
    }

    fn mem_read(&mut self, addr: u16) -> (data: u8)
        ensures
            final(self)@.cycles == old(self)@.cycles,
            final(self)@.dma_stall == old(self)@.dma_stall,
    {
        proof {
            reveal(BusState::wf);
            reveal(BusState::read_value);
            reveal(BusState::after_read);
        }
        if addr < RAM_MIRRORS_END {
            self.cpu_vram[addr as usize % RAM_SIZE]
        } else if addr < PPU_REGISTERS_MIRRORS_END {
            self.ppu.read_register((addr % 8) as u8)
        } else if addr == JOYPAD1 {
            self.joypad1.read()
        } else if addr < PRG_ROM_START {
            0
        } else {
            self.read_prg_rom(addr)
        }
    }

    fn mem_write(&mut self, addr: u16, data: u8)
        ensures
            final(self)@.cycles == old(self)@.cycles,
    {
        proof {
            reveal(BusState::wf);
            reveal(BusState::after_write);
        }
        if addr < RAM_MIRRORS_END {
            self.cpu_vram.set(addr as usize % RAM_SIZE, data);
        } else if addr < PPU_REGISTERS_MIRRORS_END {
            self.ppu.write_register((addr % 8) as u8, data);
        } else if addr == OAM_DMA {
            let page: Vec<u8> = self.read_dma_page(data);
            self.ppu.write_oam_dma(&page);
            self.dma_stall = OAM_DMA_CYCLES + (self.cycles % 2) as u16;
        } else if addr == JOYPAD1 {
            self.joypad1.write(data);
        }
    }

    fn mem_read_u16(&mut self, pos: u16) -> (data: u16)
        ensures
            final(self)@.cycles == old(self)@.cycles,
            final(self)@.dma_stall == old(self)@.dma_stall,
    {
        proof {
            reveal(BusState::wf);
        }
        let lo: u8 = self.mem_read(pos);
        let hi: u8 = self.mem_read(next_addr(pos));
        word(lo, hi)
    }

    fn mem_write_u16(&mut self, pos: u16, data: u16)
        ensures
            final(self)@.cycles == old(self)@.cycles,
    {
        proof {
            reveal(BusState::wf);
        }
        let hi: u8 = high_byte(data);
        let lo: u8 = low_byte(data);
        self.mem_write(pos, lo);
        self.mem_write(next_addr(pos), hi);
    }
}

/// The RAM appears four times: two addresses below `$2000` that differ by a
/// multiple of `$0800` read the same byte, reading either changes nothing,
/// and a write to one is a write to the other.
pub proof fn lemma_ram_mirrors(s: BusState, a: u16, b: u16, data: u8)
    requires
        a < RAM_MIRRORS_END,
        b < RAM_MIRRORS_END,
        a % 0x0800 == b % 0x0800,
    ensures
        s.read_value(a) == s.read_value(b),
        s.after_read(a) == s,
        s.after_write(a, data) == s.after_write(b, data),
{
    reveal(BusState::read_value);
    reveal(BusState::after_read);
    reveal(BusState::after_write);
}

/// The RAM appears four times: an address below `$0800` and the addresses
/// `$0800`, `$1000` and `$1800` above it read the same byte at all times.
pub proof fn lemma_ram_mirrored_every_2k(s: BusState, a: u16)
    requires
        a < 0x0800,
    ensures
        s.read_value(a) == s.read_value((a + 0x0800) as u16),
        s.read_value(a) == s.read_value((a + 0x1000) as u16),
        s.read_value(a) == s.read_value((a + 0x1800) as u16),
{
    reveal(BusState::read_value);
}

/// The PPU registers appear every 8 bytes: an access at any address from
/// `$2000` to `$3FFF` is the access at `$2000 + (k & 7)`.
pub proof fn lemma_ppu_registers_mirror(s: BusState, k: u16, data: u8)
    requires
        RAM_MIRRORS_END <= k < PPU_REGISTERS_MIRRORS_END,
    ensures
        s.read_value(k) == s.read_value((0x2000 + (k & 7)) as u16),
        s.after_read(k) == s.after_read((0x2000 + (k & 7)) as u16),
        s.after_write(k, data) == s.after_write((0x2000 + (k & 7)) as u16, data),
{
    reveal(BusState::read_value);
    reveal(BusState::after_read);
    reveal(BusState::after_write);
    assert(k & 7 == k % 8) by (bit_vector);
}

/// At every moment the PPU has run three dots for each CPU cycle, and a tick
/// keeps it so.
pub proof fn lemma_frame_clock(s: BusState, n: nat)
    requires
        s.wf(),
        s.cycles + n <= usize::MAX,
    ensures
        s.ppu.elapsed_dots() == 3 * s.cycles,
        s.tick(n).wf(),
        s.tick(n).ppu.elapsed_dots() == 3 * s.tick(n).cycles,
{
    reveal(BusState::wf);
    reveal(BusState::tick);
    lemma_tick_dots(s.ppu, 3 * n);
}

/// A sprite DMA stalls the CPU for no more than 514 cycles.
pub proof fn lemma_stall_bounded(s: BusState)
    requires
        s.wf(),
    ensures
        s.dma_stall <= OAM_DMA_CYCLES + 1,
{
    reveal(BusState::wf);
}

/// Reads and writes take no time and keep the bus well formed.
pub proof fn lemma_access_keeps_wf(s: BusState, addr: u16, data: u8)
    requires
        s.wf(),
    ensures
        s.after_read(addr).wf(),
        s.after_write(addr, data).wf(),
        s.after_read(addr).cycles == s.cycles,
        s.after_write(addr, data).cycles == s.cycles,
        s.after_read(addr).dma_stall == s.dma_stall,
{
    reveal(BusState::wf);
    reveal(BusState::after_read);
    reveal(BusState::after_write);
}

} // verus!
