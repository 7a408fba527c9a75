//! An emulator core for the NES: a 6502 interpreter, the picture processing
//! unit's register file and timing, the bus that ties them together, the
//! controller shift register, the cartridge decoder, a renderer and a
//! disassembling trace formatter.
//!
//! Every component comes as a pair: a value that says what the component
//! is (`CpuState`, `BusState`, `PpuState`, ...) with functions that say
//! what each operation makes of it, and the executable type whose methods
//! are proved to do just that. The executable types never panic; where the
//! hardware has no answer (an undefined opcode, a cycle counter at its end)
//! the run stops and says why.
//!
//! The machine does no input or output. The host asks the bus between
//! instructions whether a picture is ready, draws it from the PPU, and
//! reports the keys to the controller.

pub mod comp;
