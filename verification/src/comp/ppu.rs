//! The picture processing unit: its memories, the eight registers that the
//! CPU sees, the scanline and dot counters, and the interrupt that it raises
//! when the vertical blank begins.

use vstd::prelude::*;
use crate::comp::rom::Mirroring;

verus! {

pub const VRAM_SIZE: usize = 2048;

pub const PALETTE_SIZE: usize = 32;

pub const OAM_SIZE: usize = 256;

/// Dots in a scanline.
pub const DOTS_PER_SCANLINE: u16 = 341;

/// Scanlines in a frame, the vertical blank included.
pub const SCANLINES_PER_FRAME: u16 = 262;

/// The scanline on which the vertical blank begins.
pub const VBLANK_SCANLINE: u16 = 241;

/// Dots in a frame.
pub const DOTS_PER_FRAME: u32 = 89342;

/// Control bit 2: the data pointer steps by 32 instead of 1.
pub const CTRL_INCREMENT_32: u8 = 0b0000_0100;

/// Control bit 7: raise an interrupt when the vertical blank begins.
pub const CTRL_NMI_ENABLE: u8 = 0b1000_0000;

/// Mask bit 4: sprites are drawn.
pub const MASK_SHOW_SPRITES: u8 = 0b0001_0000;

/// Status bit 5: more than eight sprites on a scanline.
pub const STATUS_SPRITE_OVERFLOW: u8 = 0b0010_0000;

/// Status bit 6: sprite 0 has met the background.
pub const STATUS_SPRITE_ZERO_HIT: u8 = 0b0100_0000;

/// Status bit 7: the vertical blank has begun.
pub const STATUS_VBLANK: u8 = 0b1000_0000;

/// The three status bits that the unit drives; the other five float.
pub const STATUS_DRIVEN: u8 = 0b1110_0000;

/// The cell of the 2 KiB nametable memory that stands behind an address of
/// the nametable region, under the cartridge's mirroring: vertical lays the
/// two physical tables side by side, horizontal one above the other.
pub open spec fn vram_index(mirroring: Mirroring, addr: u16) -> int {
    let offset = addr as int % 0x1000;
    match mirroring {
        Mirroring::VERTICAL => offset % 0x800,
        Mirroring::HORIZONTAL => (offset / 0x800) * 0x400 + offset % 0x400,
        Mirroring::FOUR_SCREEN => offset % 0x800,
    }
}

/// The cell of palette memory behind an address of the palette region: the
/// region repeats every 32 bytes, and entry 0 of each sprite palette is the
/// matching entry of the background palettes.
pub open spec fn palette_index(addr: u16) -> int {
    let i = addr as int % 32;
    if i >= 16 && i % 4 == 0 {
        i - 16
    } else {
        i
    }
}

/// What the unit is, as a value.
#[verifier::ext_equal]
pub struct PpuState {
    pub chr: Seq<u8>,
    pub mirroring: Mirroring,
    pub vram: Seq<u8>,
    pub palette: Seq<u8>,
    pub oam: Seq<u8>,
    pub ctrl: u8,
    pub mask: u8,
    pub status: u8,
    pub oam_addr: u8,
    pub scroll_x: u8,
    pub scroll_y: u8,
    /// The data pointer, 15 bits wide.
    pub addr: u16,
    /// The toggle that the scroll and address registers share: set while the
    /// second write of a pair is awaited.
    pub latch: bool,
    /// The byte that the next buffered read of the data register returns.
    pub buffer: u8,
    /// The last byte that crossed the register window.
    pub open_bus: u8,
    pub scanline: u16,
    pub dot: u16,
    /// Frames completed since power-on.
    pub frame: u64,
    pub nmi_pending: bool,
    /// Set when the vertical blank begins, until the host takes the picture.
    pub frame_ready: bool,
}

impl PpuState {
    /// The memories have their sizes, and the counters and the pointer are
    /// in range.
    pub open spec fn wf(self) -> bool {
        &&& self.vram.len() == VRAM_SIZE
        &&& self.palette.len() == PALETTE_SIZE
        &&& self.oam.len() == OAM_SIZE
        &&& self.scanline < SCANLINES_PER_FRAME
        &&& self.dot < DOTS_PER_SCANLINE
        &&& self.addr < 0x8000
    }

    /// A unit at power-on, with the cartridge's character ROM.
    pub open spec fn initial(chr: Seq<u8>, mirroring: Mirroring) -> PpuState {
        PpuState {
            chr,
            mirroring,
            vram: Seq::new(VRAM_SIZE as nat, |i: int| 0u8),
            palette: Seq::new(PALETTE_SIZE as nat, |i: int| 0u8),
            oam: Seq::new(OAM_SIZE as nat, |i: int| 0u8),
            ctrl: 0,
            mask: 0,
            status: 0,
            oam_addr: 0,
            scroll_x: 0,
            scroll_y: 0,
            addr: 0,
            latch: false,
            buffer: 0,
            open_bus: 0,
            scanline: 0,
            dot: 0,
            frame: 0,
            nmi_pending: false,
            frame_ready: false,
        }
    }

    /// Dots since power-on, as the counters tell it.
    pub open spec fn elapsed_dots(self) -> int {
        self.frame * DOTS_PER_FRAME + self.scanline * DOTS_PER_SCANLINE + self.dot
    }

    /// The address that the data register reaches: the pointer within the
    /// unit's 16 KiB address space.
    pub open spec fn data_addr(self) -> u16 {
        self.addr % 0x4000
    }

    /// The pointer after an access to the data register: 32 further where
    /// control bit 2 is set, else 1 further, within 15 bits.
    pub open spec fn next_addr(self) -> u16 {
        let step: int = if self.ctrl & CTRL_INCREMENT_32 != 0 {
            32
        } else {
            1
        };
        ((self.addr + step) % 0x8000) as u16
    }

    /// The byte behind an address below the palette region: character ROM
    /// up to `$1FFF` (0 where the cartridge has none there), nametable memory
    /// above it.
    pub open spec fn mem_byte(self, addr: u16) -> u8 {
        if addr < 0x2000 {
            if addr < self.chr.len() {
                self.chr[addr as int]
            } else {
                0
            }
        } else {
            self.vram[vram_index(self.mirroring, addr)]
        }
    }

    /// The status byte as a read sees it: the three driven bits, and the
    /// floating bits as the window last held them.
    pub open spec fn status_value(self) -> u8 {
        (self.status & STATUS_DRIVEN) | (self.open_bus & !STATUS_DRIVEN)
    }

    /// The byte that a read of the data register returns: at once from
    /// palette memory, else the buffered byte of the read before.
    pub open spec fn data_value(self) -> u8 {
        if self.data_addr() < 0x3F00 {
            self.buffer
        } else {
            self.palette[palette_index(self.data_addr())]
        }
    }

    /// The byte that a read of register `reg` (0 to 7) returns. The
    /// write-only registers return what the window last held.
    pub open spec fn register_value(self, reg: u8) -> u8 {
        if reg == 2 {
            self.status_value()
        } else if reg == 4 {
            self.oam[self.oam_addr as int]
        } else if reg == 7 {
            self.data_value()
        } else {
            self.open_bus
        }
    }

    /// The unit after a read of register `reg`. Reading the status clears
    /// the vertical-blank flag and the write toggle; reading the data
    /// register refills the buffer and moves the pointer.
    pub open spec fn after_register_read(self, reg: u8) -> PpuState {
        let seen = PpuState { open_bus: self.register_value(reg), ..self };
        if reg == 2 {
            PpuState { status: self.status & !STATUS_VBLANK, latch: false, ..seen }
        } else if reg == 7 {
            PpuState {
                buffer: if self.data_addr() < 0x3F00 {
                    self.mem_byte(self.data_addr())
                } else {
                    self.vram[vram_index(self.mirroring, self.data_addr())]
                },
                addr: self.next_addr(),
                ..seen
            }
        } else {
            seen
        }
    }

    /// The unit after the CPU writes the control register. Enabling the
    /// interrupt while the vertical-blank flag is set raises it at once.
    pub open spec fn write_ctrl(self, data: u8) -> PpuState {
        let raised = self.ctrl & CTRL_NMI_ENABLE == 0 && data & CTRL_NMI_ENABLE != 0 && self.status
            & STATUS_VBLANK != 0;
        PpuState { ctrl: data, nmi_pending: self.nmi_pending || raised, ..self }
    }

    /// The unit after a write to the scroll register: X first, then Y.
    pub open spec fn write_scroll(self, data: u8) -> PpuState {
        if self.latch {
            PpuState { scroll_y: data, latch: false, ..self }
        } else {
            PpuState { scroll_x: data, latch: true, ..self }
        }
    }

    /// The unit after a write to the address register: the high six bits
    /// first, then the low byte.
    pub open spec fn write_addr(self, data: u8) -> PpuState {
        if self.latch {
            PpuState { addr: ((self.addr / 256) * 256 + data) as u16, latch: false, ..self }
        } else {
            PpuState { addr: ((data % 64) * 256 + self.addr % 256) as u16, latch: true, ..self }
        }
    }

    /// The unit after a write to the data register: the byte goes to
    /// nametable or palette memory (character ROM takes no writes), and the
    /// pointer moves.
    pub open spec fn write_data(self, data: u8) -> PpuState {
        let a = self.data_addr();
        let moved = PpuState { addr: self.next_addr(), ..self };
        if a < 0x2000 {
            moved
        } else if a < 0x3F00 {
            PpuState { vram: self.vram.update(vram_index(self.mirroring, a), data), ..moved }
        } else {
            PpuState { palette: self.palette.update(palette_index(a), data), ..moved }
        }
    }

    /// The unit after a write to the sprite data register: the byte goes to
    /// sprite memory at the sprite address, which then moves on by one.
    pub open spec fn write_oam_data(self, data: u8) -> PpuState {
        PpuState {
            oam: self.oam.update(self.oam_addr as int, data),
            oam_addr: ((self.oam_addr + 1) % 256) as u8,
            ..self
        }
    }

    /// The unit after the CPU writes `data` to register `reg` (0 to 7).
    pub open spec fn after_register_write(self, reg: u8, data: u8) -> PpuState {
        let seen = PpuState { open_bus: data, ..self };
        if reg == 0 {
            seen.write_ctrl(data)
        } else if reg == 1 {
            PpuState { mask: data, ..seen }
        } else if reg == 3 {
            PpuState { oam_addr: data, ..seen }
        } else if reg == 4 {
            seen.write_oam_data(data)
        } else if reg == 5 {
            seen.write_scroll(data)
        } else if reg == 6 {
            seen.write_addr(data)
        } else if reg == 7 {
            seen.write_data(data)
        } else {
            seen
        }
    }

    /// The unit after a sprite DMA: the 256 bytes of `page` land in sprite
    /// memory from the sprite address on, wrapping at its end; the sprite
    /// address ends where it began.
    pub open spec fn oam_dma(self, page: Seq<u8>) -> PpuState {
        PpuState {
            oam: Seq::new(
                OAM_SIZE as nat,
                |j: int| page[(j - self.oam_addr + OAM_SIZE as int) % (OAM_SIZE as int)],
            ),
            ..self
        }
    }

    /// The unit one dot later. The end of a scanline notes a sprite-0 hit on
    /// the line that sprite 0 starts on, where sprites are drawn; the end of
    /// the last scanline starts a new frame and clears the three status
    /// flags; dot 1 of scanline 241 sets the vertical-blank flag, offers the
    /// picture to the host, and raises the interrupt where the control
    /// register enables it.
    pub open spec fn tick_dot(self) -> PpuState {
        let moved = if self.dot + 1 < DOTS_PER_SCANLINE {
            PpuState { dot: (self.dot + 1) as u16, ..self }
        } else {
            let hit = self.mask & MASK_SHOW_SPRITES != 0 && self.oam[0] == self.scanline;
            let status = if hit {
                self.status | STATUS_SPRITE_ZERO_HIT
            } else {
                self.status
            };
            if self.scanline + 1 < SCANLINES_PER_FRAME {
                PpuState { dot: 0, scanline: (self.scanline + 1) as u16, status, ..self }
            } else {
                PpuState {
                    dot: 0,
                    scanline: 0,
                    frame: (self.frame + 1) as u64,
                    status: status & !STATUS_DRIVEN,
                    ..self
                }
            }
        };
        if moved.scanline == VBLANK_SCANLINE && moved.dot == 1 {
            PpuState {
                status: moved.status | STATUS_VBLANK,
                nmi_pending: moved.nmi_pending || moved.ctrl & CTRL_NMI_ENABLE != 0,
                frame_ready: true,
                ..moved
            }
        } else {
            moved
        }
    }

    /// The unit `n` dots later.
    pub open spec fn tick_dots(self, n: nat) -> PpuState
        decreases n,
    {
        if n == 0 {
            self
        } else {
            self.tick_dots((n - 1) as nat).tick_dot()
        }
    }
}

/// One dot moves the counters on by exactly one dot and keeps the unit well
/// formed.
pub proof fn lemma_tick_dot(s: PpuState)
    requires
        s.wf(),
        s.frame < u64::MAX,
    ensures
        s.tick_dot().wf(),
        s.tick_dot().elapsed_dots() == s.elapsed_dots() + 1,
{
}

/// `n` dots move the counters on by exactly `n` dots and keep the unit well
/// formed.
pub proof fn lemma_tick_dots(s: PpuState, n: nat)
    requires
        s.wf(),
        s.elapsed_dots() + n <= 3 * u64::MAX,
    ensures
        s.tick_dots(n).wf(),
        s.tick_dots(n).elapsed_dots() == s.elapsed_dots() + n,
    decreases n,
{
    if n > 0 {
        lemma_tick_dots(s, (n - 1) as nat);
        let t = s.tick_dots((n - 1) as nat);
        lemma_frame_bound(t);
        lemma_tick_dot(t);
    }
}

/// A unit that has run for less than three dots per countable CPU cycle has
/// room for another frame.
pub proof fn lemma_frame_bound(s: PpuState)
    requires
        s.elapsed_dots() < 3 * u64::MAX,
    ensures
        s.frame < u64::MAX,
{
}

/// The vertical blank begins at dot 1 of scanline 241: the dot that arrives
/// there sets the flag and, where the control register enables it, raises
/// the interrupt.
pub proof fn lemma_vblank_entry(s: PpuState)
    requires
        s.wf(),
        s.scanline == VBLANK_SCANLINE,
        s.dot == 0,
    ensures
        s.tick_dot().status & STATUS_VBLANK != 0,
        s.tick_dot().frame_ready,
        s.ctrl & CTRL_NMI_ENABLE != 0 ==> s.tick_dot().nmi_pending,
{
    let st = s.status;
    assert((st | STATUS_VBLANK) & STATUS_VBLANK != 0) by (bit_vector);
}

/// The picture processing unit. Its fields are open to the host, which
/// draws from them; the contracts speak of its view.
pub struct NesPPU {
    pub chr_rom: Vec<u8>,
    pub mirroring: Mirroring,
    pub vram: Vec<u8>,
    pub palette_table: Vec<u8>,
    pub oam_data: Vec<u8>,
    pub ctrl: u8,
    pub mask: u8,
    pub status: u8,
    pub oam_addr: u8,
    pub scroll_x: u8,
    pub scroll_y: u8,
    pub addr: u16,
    pub latch: bool,
    pub buffer: u8,
    pub open_bus: u8,
    pub scanline: u16,
    pub dot: u16,
    pub frame: u64,
    pub nmi_pending: bool,
    pub frame_ready: bool,
}

impl View for NesPPU {
    type V = PpuState;

    open spec fn view(&self) -> PpuState {
        PpuState {
            chr: self.chr_rom@,
            mirroring: self.mirroring,
            vram: self.vram@,
            palette: self.palette_table@,
            oam: self.oam_data@,
            ctrl: self.ctrl,
            mask: self.mask,
            status: self.status,
            oam_addr: self.oam_addr,
            scroll_x: self.scroll_x,
            scroll_y: self.scroll_y,
            addr: self.addr,
            latch: self.latch,
            buffer: self.buffer,
            open_bus: self.open_bus,
            scanline: self.scanline,
            dot: self.dot,
            frame: self.frame,
            nmi_pending: self.nmi_pending,
            frame_ready: self.frame_ready,
        }
    }
}

/// A memory of `len` zero bytes.
pub fn zeroed(len: usize) -> (v: Vec<u8>)
    ensures
        v@ == Seq::new(len as nat, |i: int| 0u8),
{
    let mut v: Vec<u8> = Vec::new();
    let mut i: usize = 0;
    while i < len
        invariant
            i <= len,
            v@ == Seq::new(i as nat, |k: int| 0u8),
        decreases len - i,
    {
        v.push(0);
        i += 1;
    }
    v
}

impl NesPPU {
    /// A unit at power-on, with the cartridge's character ROM.
    pub fn new(chr_rom: Vec<u8>, mirroring: Mirroring) -> (ppu: NesPPU)
        ensures
            ppu@ == PpuState::initial(chr_rom@, mirroring),
            ppu@.wf(),
    {
        NesPPU {
            chr_rom,
            mirroring,
            vram: zeroed(VRAM_SIZE),
            palette_table: zeroed(PALETTE_SIZE),
            oam_data: zeroed(OAM_SIZE),
            ctrl: 0,
            mask: 0,
            status: 0,
            oam_addr: 0,
            scroll_x: 0,
            scroll_y: 0,
            addr: 0,
            latch: false,
            buffer: 0,
            open_bus: 0,
            scanline: 0,
            dot: 0,
            frame: 0,
            nmi_pending: false,
            frame_ready: false,
        }
    }

    /// Tells whether the unit is well formed.
    pub fn is_well_formed(&self) -> (b: bool)
        ensures
            b == self@.wf(),
    {
        self.vram.len() == VRAM_SIZE && self.palette_table.len() == PALETTE_SIZE
            && self.oam_data.len() == OAM_SIZE && self.scanline < SCANLINES_PER_FRAME && self.dot
            < DOTS_PER_SCANLINE && self.addr < 0x8000
    }

    /// The cell of nametable memory behind `addr`.
    pub fn mirror_vram_addr(&self, addr: u16) -> (i: usize)
        ensures
            i == vram_index(self.mirroring, addr),
            i < VRAM_SIZE,
    {
        let offset: u16 = addr % 0x1000;
        match self.mirroring {
            Mirroring::VERTICAL => (offset % 0x800) as usize,
            Mirroring::HORIZONTAL => ((offset / 0x800) * 0x400 + offset % 0x400) as usize,
            Mirroring::FOUR_SCREEN => (offset % 0x800) as usize,
        }
    }

    /// The cell of palette memory behind `addr`.
    pub fn mirror_palette_addr(addr: u16) -> (i: usize)
        ensures
            i == palette_index(addr),
            i < PALETTE_SIZE,
    {
        let i: u16 = addr % 32;
        if i >= 16 && i % 4 == 0 {
            (i - 16) as usize
        } else {
            i as usize
        }
    }

    fn next_addr(&self) -> (a: u16)
        requires
            self@.wf(),
        ensures
            a == self@.next_addr(),
            a < 0x8000,
    {
        let step: u16 = if self.ctrl & CTRL_INCREMENT_32 != 0 {
            32
        } else {
            1
        };
        (self.addr + step) % 0x8000
    }

    /// The byte behind an address below the palette region.
    pub fn mem_byte(&self, addr: u16) -> (b: u8)
        requires
            self@.wf(),
        ensures
            b == self@.mem_byte(addr),
    {
        if addr < 0x2000 {
            if (addr as usize) < self.chr_rom.len() {
                self.chr_rom[addr as usize]
            } else {
                0
            }
        } else {
            self.vram[self.mirror_vram_addr(addr)]
        }
    }

    /// The control register.
    pub fn ctrl(&self) -> (b: u8)
        ensures
            b == self@.ctrl,
    {
        self.ctrl
    }

    /// The mask register.
    pub fn mask(&self) -> (b: u8)
        ensures
            b == self@.mask,
    {
        self.mask
    }

    /// Entry `i` of palette memory.
    pub fn palette_entry(&self, i: usize) -> (b: u8)
        requires
            self@.wf(),
            i < PALETTE_SIZE,
        ensures
            b == self@.palette[i as int],
    {
        self.palette_table[i]
    }

    /// Byte `i` of sprite memory.
    pub fn oam_byte(&self, i: usize) -> (b: u8)
        requires
            self@.wf(),
            i < OAM_SIZE,
        ensures
            b == self@.oam[i as int],
    {
        self.oam_data[i]
    }

    /// The byte that a read of register `reg` would return, with none of the
    /// read's effects.
    pub fn peek_register(&self, reg: u8) -> (value: u8)
        requires
            self@.wf(),
        ensures
            value == self@.register_value(reg),
    {
        if reg == 2 {
            (self.status & STATUS_DRIVEN) | (self.open_bus & !STATUS_DRIVEN)
        } else if reg == 4 {
            self.oam_data[self.oam_addr as usize]
        } else if reg == 7 {
            let a: u16 = self.addr % 0x4000;
            if a < 0x3F00 {
                self.buffer
            } else {
                self.palette_table[NesPPU::mirror_palette_addr(a)]
            }
        } else {
            self.open_bus
        }
    }

    /// A read of register `reg` (0 to 7) by the CPU.
    pub fn read_register(&mut self, reg: u8) -> (value: u8)
        requires
            old(self)@.wf(),
        ensures
            value == old(self)@.register_value(reg),
            final(self)@ == old(self)@.after_register_read(reg),
            final(self)@.wf(),
    {
        let value: u8 = self.peek_register(reg);
        if reg == 2 {
            self.status = self.status & !STATUS_VBLANK;
            self.latch = false;
        } else if reg == 7 {
            let a: u16 = self.addr % 0x4000;
            let refill: u8 = if a < 0x3F00 {
                self.mem_byte(a)
            } else {
                self.vram[self.mirror_vram_addr(a)]
            };
            let next: u16 = self.next_addr();
            self.buffer = refill;
            self.addr = next;
        }
        self.open_bus = value;
        value
    }

    /// A write of `data` to register `reg` (0 to 7) by the CPU.
    pub fn write_register(&mut self, reg: u8, data: u8)
        requires
            old(self)@.wf(),
        ensures
            final(self)@ == old(self)@.after_register_write(reg, data),
            final(self)@.wf(),
    {
        self.open_bus = data;
        if reg == 0 {
            let raised: bool = self.ctrl & CTRL_NMI_ENABLE == 0 && data & CTRL_NMI_ENABLE != 0
                && self.status & STATUS_VBLANK != 0;
            self.ctrl = data;
            if raised {
                self.nmi_pending = true;
            }
        } else if reg == 1 {
            self.mask = data;
        } else if reg == 3 {
            self.oam_addr = data;
        } else if reg == 4 {
            self.write_oam_data(data);
        } else if reg == 5 {
            if self.latch {
                self.scroll_y = data;
            } else {
                self.scroll_x = data;
            }
            self.latch = !self.latch;
        } else if reg == 6 {
            if self.latch {
                self.addr = (self.addr / 256) * 256 + data as u16;
            } else {
                self.addr = (data % 64) as u16 * 256 + self.addr % 256;
            }
            self.latch = !self.latch;
        } else if reg == 7 {
            let a: u16 = self.addr % 0x4000;
            let next: u16 = self.next_addr();
            if a < 0x2000 {
            } else if a < 0x3F00 {
                let i: usize = self.mirror_vram_addr(a);
                self.vram.set(i, data);
            } else {
                let i: usize = NesPPU::mirror_palette_addr(a);
                self.palette_table.set(i, data);
            }
            self.addr = next;
        }
    }

    fn write_oam_data(&mut self, data: u8)
        requires
            old(self)@.wf(),
        ensures
            final(self)@ == old(self)@.write_oam_data(data),
            final(self)@.wf(),
    {
        self.oam_data.set(self.oam_addr as usize, data);
        self.oam_addr = if self.oam_addr == 255 {
            0
        } else {
            self.oam_addr + 1
        };
    }

    /// A sprite DMA: copies the 256 bytes of `page` into sprite memory,
    /// starting at the sprite address.
    pub fn write_oam_dma(&mut self, page: &Vec<u8>)
        requires
            old(self)@.wf(),
            page.len() == OAM_SIZE,
        ensures
            final(self)@ == old(self)@.oam_dma(page@),
            final(self)@.wf(),
    {
        let start: usize = self.oam_addr as usize;
        let mut i: usize = 0;
        while i < OAM_SIZE
            invariant
                i <= OAM_SIZE,
                page.len() == OAM_SIZE,
                start == old(self).oam_addr,
                self@.wf(),
                self@ == (PpuState { oam: self.oam_data@, ..old(self)@ }),
                forall|k: int|
                    0 <= k < i ==> self.oam_data@[(start + k) % (OAM_SIZE as int)] == page@[k],
                forall|j: int|
                    0 <= j < OAM_SIZE && (j - start + OAM_SIZE as int) % (OAM_SIZE as int) >= i
                        ==> self.oam_data@[j] == old(self).oam_data@[j],
            decreases OAM_SIZE - i,
        {
            let j: usize = (start + i) % OAM_SIZE;
            self.oam_data.set(j, page[i]);
            i += 1;
        }
        assert(self.oam_data@ =~= old(self)@.oam_dma(page@).oam) by {
            assert forall|j: int| 0 <= j < OAM_SIZE implies self.oam_data@[j] == page@[(j - start
                + OAM_SIZE as int) % (OAM_SIZE as int)] by {
                let k = (j - start + OAM_SIZE as int) % (OAM_SIZE as int);
                assert((start + k) % (OAM_SIZE as int) == j);
            }
        }
    }

    fn tick_dot(&mut self)
        requires
            old(self)@.wf(),
            old(self).frame < u64::MAX,
        ensures
            final(self)@ == old(self)@.tick_dot(),
    {
        if self.dot + 1 < DOTS_PER_SCANLINE {
            self.dot = self.dot + 1;
        } else {
            if self.mask & MASK_SHOW_SPRITES != 0 && self.oam_data[0] as u16 == self.scanline {
                self.status = self.status | STATUS_SPRITE_ZERO_HIT;
            }
            self.dot = 0;
            if self.scanline + 1 < SCANLINES_PER_FRAME {
                self.scanline = self.scanline + 1;
            } else {
                self.scanline = 0;
                self.frame = self.frame + 1;
                self.status = self.status & !STATUS_DRIVEN;
            }
        }
        if self.scanline == VBLANK_SCANLINE && self.dot == 1 {
            self.status = self.status | STATUS_VBLANK;
            if self.ctrl & CTRL_NMI_ENABLE != 0 {
                self.nmi_pending = true;
            }
            self.frame_ready = true;
        }
    }

    /// Runs the unit for `dots` dots.
    pub fn tick(&mut self, dots: u32)
        requires
            old(self)@.wf(),
            old(self)@.elapsed_dots() + dots <= 3 * u64::MAX,
        ensures
            final(self)@ == old(self)@.tick_dots(dots as nat),
            final(self)@.wf(),
            final(self)@.elapsed_dots() == old(self)@.elapsed_dots() + dots,
    {
        let mut i: u32 = 0;
        while i < dots
            invariant
                i <= dots,
                old(self)@.wf(),
                old(self)@.elapsed_dots() + dots <= 3 * u64::MAX,
                self@ == old(self)@.tick_dots(i as nat),
            decreases dots - i,
        {
            proof {
                lemma_tick_dots(old(self)@, i as nat);
                lemma_frame_bound(self@);
            }
            self.tick_dot();
            i += 1;
        }
        proof {
            lemma_tick_dots(old(self)@, dots as nat);
        }
    }

    /// Takes the pending interrupt, if there is one: it is delivered once.
    pub fn poll_nmi_interrupt(&mut self) -> (nmi: Option<u8>)
        ensures
            nmi is Some == old(self)@.nmi_pending,
            final(self)@ == (PpuState { nmi_pending: false, ..old(self)@ }),
    {
        if self.nmi_pending {
            self.nmi_pending = false;
            Some(1)
        } else {
            None
        }
    }

    /// Tells whether a picture has been completed since the host last asked.
    pub fn take_frame(&mut self) -> (ready: bool)
        ensures
            ready == old(self)@.frame_ready,
            final(self)@ == (PpuState { frame_ready: false, ..old(self)@ }),
    {
        let ready: bool = self.frame_ready;
        self.frame_ready = false;
        ready
    }
}

} // verus!
