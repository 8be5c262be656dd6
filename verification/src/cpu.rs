use crate::bits::{high_byte, low_byte, make_word, split_word, word, zeros};
use crate::instructions::{
    instruction_decode, is_defined, spec_decode, stage_ok, InvalidInstruction, StagePassThrough, CC,
};
use crate::ppu::{Mode, OamEntry, OAM, PPU};
use crate::register_maps::{Interrupt, InterruptEnable, InterruptFlag, IORegisters};
use vstd::array::spec_array_update;
use vstd::prelude::*;
use vstd::std_specs::convert::FromSpecImpl;

verus! {

/// The eight-bit registers. `F` is the flag register.
#[derive(Copy, Clone, Debug, PartialEq, Eq, Structural)]
pub enum Reg8 {
    A,
    B,
    C,
    D,
    E,
    F,
    H,
    L,
}

/// The register pairs and the stack pointer.
#[derive(Copy, Clone, Debug, PartialEq, Eq, Structural)]
pub enum Reg16 {
    AF,
    BC,
    DE,
    HL,
    SP,
}

impl Reg8 {
    /// The register that the three-bit selector `sel` of an opcode names: B, C, D, E, H,
    /// L in this order for zero to five, A for seven. Six names no register but the
    /// memory cell at HL.
    pub open spec fn spec_operand(sel: u8) -> Reg8 {
        if sel == 0 {
            Reg8::B
        } else if sel == 1 {
            Reg8::C
        } else if sel == 2 {
            Reg8::D
        } else if sel == 3 {
            Reg8::E
        } else if sel == 4 {
            Reg8::H
        } else if sel == 5 {
            Reg8::L
        } else {
            Reg8::A
        }
    }

    /// The register that a three-bit selector other than six names.
    #[verifier::when_used_as_spec(spec_operand)]
    pub fn operand(sel: u8) -> (reg: Reg8)
        requires
            sel < 8,
            sel != 6,
        ensures
            reg == Reg8::spec_operand(sel),
            reg != Reg8::F,
    {
        match sel {
            0 => Reg8::B,
            1 => Reg8::C,
            2 => Reg8::D,
            3 => Reg8::E,
            4 => Reg8::H,
            5 => Reg8::L,
            _ => Reg8::A,
        }
    }
}

impl Reg16 {
    /// The pair that the two-bit selector `sel` of an opcode names: BC, DE, HL, and for
    /// three the stack pointer.
    pub open spec fn spec_pair(sel: u8) -> Reg16 {
        if sel == 0 {
            Reg16::BC
        } else if sel == 1 {
            Reg16::DE
        } else if sel == 2 {
            Reg16::HL
        } else {
            Reg16::SP
        }
    }

    /// The pair that a two-bit selector names.
    #[verifier::when_used_as_spec(spec_pair)]
    pub fn pair(sel: u8) -> (reg: Reg16)
        requires
            sel < 4,
        ensures
            reg == Reg16::spec_pair(sel),
    {
        match sel {
            0 => Reg16::BC,
            1 => Reg16::DE,
            2 => Reg16::HL,
            _ => Reg16::SP,
        }
    }

    /// The pair that the two-bit selector `sel` of a `PUSH` or `POP` names: as
    /// `spec_pair`, but three names AF.
    pub open spec fn spec_stack_pair(sel: u8) -> Reg16 {
        if sel == 3 {
            Reg16::AF
        } else {
            Reg16::spec_pair(sel)
        }
    }

    /// The pair that a two-bit selector of a `PUSH` or `POP` names.
    #[verifier::when_used_as_spec(spec_stack_pair)]
    pub fn stack_pair(sel: u8) -> (reg: Reg16)
        requires
            sel < 4,
        ensures
            reg == Reg16::spec_stack_pair(sel),
            reg != Reg16::SP,
    {
        match sel {
            0 => Reg16::BC,
            1 => Reg16::DE,
            2 => Reg16::HL,
            _ => Reg16::AF,
        }
    }

    /// The register that holds the pair's high byte. The stack pointer is no pair of
    /// registers and is treated as AF.
    pub open spec fn spec_high(self) -> Reg8 {
        match self {
            Reg16::BC => Reg8::B,
            Reg16::DE => Reg8::D,
            Reg16::HL => Reg8::H,
            Reg16::AF | Reg16::SP => Reg8::A,
        }
    }

    /// The register that holds the pair's low byte. The stack pointer is no pair of
    /// registers and is treated as AF.
    pub open spec fn spec_low(self) -> Reg8 {
        match self {
            Reg16::BC => Reg8::C,
            Reg16::DE => Reg8::E,
            Reg16::HL => Reg8::L,
            Reg16::AF | Reg16::SP => Reg8::F,
        }
    }

    /// The register that holds the pair's high byte.
    #[verifier::when_used_as_spec(spec_high)]
    pub fn high(self) -> (reg: Reg8)
        ensures
            reg == self.spec_high(),
            reg != Reg8::F,
    {
        match self {
            Reg16::BC => Reg8::B,
            Reg16::DE => Reg8::D,
            Reg16::HL => Reg8::H,
            _ => Reg8::A,
        }
    }

    /// The register that holds the pair's low byte.
    #[verifier::when_used_as_spec(spec_low)]
    pub fn low(self) -> (reg: Reg8)
        ensures
            reg == self.spec_low(),
    {
        match self {
            Reg16::BC => Reg8::C,
            Reg16::DE => Reg8::E,
            Reg16::HL => Reg8::L,
            _ => Reg8::F,
        }
    }
}

/// The four flags, each zero or one.
#[derive(Clone, Copy, PartialEq, Eq, Debug, Structural)]
pub struct Flags {
    /// The result was zero.
    pub Z: u8,
    /// The operation was a subtraction.
    pub N: u8,
    /// A carry or borrow crossed from the low nibble into the high one.
    pub H: u8,
    /// A carry or borrow left the top bit.
    pub C: u8,
}

impl Flags {
    /// Every flag is zero or one.
    pub open spec fn wf(self) -> bool {
        self.Z <= 1 && self.N <= 1 && self.H <= 1 && self.C <= 1
    }

    /// The flag register: Z in bit 7, N in bit 6, H in bit 5, C in bit 4, the low nibble
    /// zero. Only the lowest bit of each flag takes part.
    pub open spec fn bits(self) -> u8 {
        ((self.Z % 2) * 128 + (self.N % 2) * 64 + (self.H % 2) * 32 + (self.C % 2) * 16) as u8
    }

    /// The flags that a byte stands for; its low nibble is dropped.
    pub open spec fn from_bits(val: u8) -> Flags {
        Flags { Z: val / 128, N: (val / 64) % 2, H: (val / 32) % 2, C: (val / 16) % 2 }
    }
}

impl Default for Flags {
    fn default() -> (r: Flags)
        ensures
            r == (Flags { Z: 0, N: 0, H: 0, C: 0 }),
    {
        Flags { Z: 0, N: 0, H: 0, C: 0 }
    }
}

impl From<Flags> for u8 {
    fn from(flags: Flags) -> (r: u8) {
        (flags.Z % 2) * 128 + (flags.N % 2) * 64 + (flags.H % 2) * 32 + (flags.C % 2) * 16
    }
}

impl FromSpecImpl<Flags> for u8 {
    open spec fn obeys_from_spec() -> bool {
        true
    }

    open spec fn from_spec(flags: Flags) -> u8 {
        flags.bits()
    }
}

impl From<u8> for Flags {
    fn from(val: u8) -> (r: Flags) {
        Flags { Z: val / 128, N: (val / 64) % 2, H: (val / 32) % 2, C: (val / 16) % 2 }
    }
}

impl FromSpecImpl<u8> for Flags {
    open spec fn obeys_from_spec() -> bool {
        true
    }

    open spec fn from_spec(val: u8) -> Flags {
        Flags::from_bits(val)
    }
}

/// Decoding the byte of well-formed flags gives the flags back.
pub proof fn lemma_flags_round_trip(flags: Flags)
    requires
        flags.wf(),
    ensures
        Flags::from_bits(flags.bits()) == flags,
{
}

/// Decoding a byte gives well-formed flags, and encoding them keeps the byte's high
/// nibble and clears the low one.
pub proof fn lemma_flags_of_byte(byte: u8)
    ensures
        Flags::from_bits(byte).wf(),
        Flags::from_bits(byte).bits() == byte - byte % 16,
{
    crate::bits::lemma_low_bits(byte);
}

/// The register file.
#[derive(Clone, Copy, Debug, PartialEq, Eq, Structural)]
pub struct RegFile {
    pub A: u8,
    pub B: u8,
    pub C: u8,
    pub D: u8,
    pub E: u8,
    pub H: u8,
    pub L: u8,
    pub SP: u16,
    pub flags: Flags,
}

impl RegFile {
    /// The content of an eight-bit register; for `F`, the flag register's byte.
    pub open spec fn spec_get8(self, reg: Reg8) -> u8 {
        match reg {
            Reg8::A => self.A,
            Reg8::B => self.B,
            Reg8::C => self.C,
            Reg8::D => self.D,
            Reg8::E => self.E,
            Reg8::H => self.H,
            Reg8::L => self.L,
            Reg8::F => self.flags.bits(),
        }
    }

    /// The register file with an eight-bit register replaced; for `F`, with the flags
    /// that the byte stands for.
    pub open spec fn spec_set8(self, reg: Reg8, value: u8) -> RegFile {
        match reg {
            Reg8::A => RegFile { A: value, ..self },
            Reg8::B => RegFile { B: value, ..self },
            Reg8::C => RegFile { C: value, ..self },
            Reg8::D => RegFile { D: value, ..self },
            Reg8::E => RegFile { E: value, ..self },
            Reg8::H => RegFile { H: value, ..self },
            Reg8::L => RegFile { L: value, ..self },
            Reg8::F => RegFile { flags: Flags::from_bits(value), ..self },
        }
    }

    /// The content of a register pair: the first register is the high byte. The low
    /// byte of `AF` is the flag register's byte.
    pub open spec fn spec_get16(self, reg: Reg16) -> u16 {
        match reg {
            Reg16::AF => word(self.A, self.flags.bits()),
            Reg16::BC => word(self.B, self.C),
            Reg16::DE => word(self.D, self.E),
            Reg16::HL => word(self.H, self.L),
            Reg16::SP => self.SP,
        }
    }

    /// The register file with a register pair replaced.
    pub open spec fn spec_set16(self, reg: Reg16, value: u16) -> RegFile {
        match reg {
            Reg16::AF => RegFile {
                A: high_byte(value),
                flags: Flags::from_bits(low_byte(value)),
                ..self
            },
            Reg16::BC => RegFile { B: high_byte(value), C: low_byte(value), ..self },
            Reg16::DE => RegFile { D: high_byte(value), E: low_byte(value), ..self },
            Reg16::HL => RegFile { H: high_byte(value), L: low_byte(value), ..self },
            Reg16::SP => RegFile { SP: value, ..self },
        }
    }

    /// Whether a jump, call or return with condition `cc` is taken.
    pub open spec fn spec_check_condition(self, cc: CC) -> bool {
        match cc {
            CC::NZ => self.flags.Z == 0,
            CC::Z => self.flags.Z == 1,
            CC::C => self.flags.C == 1,
            CC::NC => self.flags.C == 0,
            CC::UC => true,
        }
    }

    /// Reads an eight-bit register other than `F`.
    pub fn get8(&self, reg: Reg8) -> (value: u8)
        requires
            reg != Reg8::F,
        ensures
            value == self.spec_get8(reg),
    {
        match reg {
            Reg8::A => self.A,
            Reg8::B => self.B,
            Reg8::C => self.C,
            Reg8::D => self.D,
            Reg8::E => self.E,
            Reg8::H => self.H,
            _ => self.L,
        }
    }

    /// Writes an eight-bit register other than `F`.
    pub fn set8(&mut self, reg: Reg8, value: u8)
        requires
            reg != Reg8::F,
        ensures
            *final(self) == old(self).spec_set8(reg, value),
    {
        match reg {
            Reg8::A => self.A = value,
            Reg8::B => self.B = value,
            Reg8::C => self.C = value,
            Reg8::D => self.D = value,
            Reg8::E => self.E = value,
            Reg8::H => self.H = value,
            _ => self.L = value,
        }
    }

    /// Writes a register pair.
    pub fn set16(&mut self, reg: Reg16, value: u16)
        ensures
            *final(self) == old(self).spec_set16(reg, value),
    {
        let (hi, lo) = split_word(value);
        match reg {
            Reg16::AF => {
                self.A = hi;
                self.flags = lo.into();
            },
            Reg16::BC => {
                self.B = hi;
                self.C = lo;
            },
            Reg16::DE => {
                self.D = hi;
                self.E = lo;
            },
            Reg16::HL => {
                self.H = hi;
                self.L = lo;
            },
            Reg16::SP => {
                self.SP = value;
            },
        }
    }

    /// Reads a register pair.
    pub fn get16(&self, reg: Reg16) -> (value: u16)
        ensures
            value == self.spec_get16(reg),
    {
        match reg {
            Reg16::AF => make_word(self.A, u8::from(self.flags)),
            Reg16::BC => make_word(self.B, self.C),
            Reg16::DE => make_word(self.D, self.E),
            Reg16::HL => make_word(self.H, self.L),
            Reg16::SP => self.SP,
        }
    }

    /// Tests the condition of a jump, call or return against the flags.
    pub fn check_condition(&self, cc: CC) -> (taken: bool)
        ensures
            taken == self.spec_check_condition(cc),
    {
        match cc {
            CC::NZ => self.flags.Z == 0,
            CC::Z => self.flags.Z == 1,
            CC::C => self.flags.C == 1,
            CC::NC => self.flags.C == 0,
            CC::UC => true,
        }
    }
}

impl Default for RegFile {
    fn default() -> (r: RegFile)
        ensures
            r == (RegFile {
                A: 0,
                B: 0,
                C: 0,
                D: 0,
                E: 0,
                H: 0,
                L: 0,
                SP: 0,
                flags: Flags { Z: 0, N: 0, H: 0, C: 0 },
            }),
    {
        RegFile { A: 0, B: 0, C: 0, D: 0, E: 0, H: 0, L: 0, SP: 0, flags: Flags::default() }
    }
}

/// Writing a register pair and reading it back gives the value written, but for `AF`,
/// whose low nibble always reads zero.
pub proof fn lemma_set16_get16(regs: RegFile, reg: Reg16, value: u16)
    ensures
        reg != Reg16::AF ==> regs.spec_set16(reg, value).spec_get16(reg) == value,
        reg == Reg16::AF ==> regs.spec_set16(reg, value).spec_get16(reg) == value - value % 16,
{
    if reg == Reg16::AF {
        lemma_flags_of_byte(low_byte(value));
    }
}

/// The memory that the bus owns. The range `0xE000..0xFE00` has no memory of its own:
/// it shows the working RAM a second time.
pub struct Memory {
    /// The boot ROM, shown at `0x0000..0x0100` until it is switched off.
    pub boot_rom: [u8; 0x4000],
    /// `0x0000..0x4000`
    pub rom_bank0: [u8; 0x4000],
    /// `0x4000..0x8000`
    pub rom_bank1: [u8; 0x4000],
    /// `0xA000..0xC000`
    pub external_ram: [u8; 0x2000],
    /// `0xC000..0xE000`
    pub working_ram: [u8; 0x2000],
    /// `0xFF80..0xFFFF`
    pub high_ram: [u8; 0x007F],
    /// The boot ROM is still shown.
    pub use_boot: bool,
}

impl Memory {
    /// The memory at power-on: all zeros, the boot ROM shown.
    pub open spec fn reset() -> Memory {
        Memory {
            boot_rom: zeros::<0x4000>(),
            rom_bank0: zeros::<0x4000>(),
            rom_bank1: zeros::<0x4000>(),
            external_ram: zeros::<0x2000>(),
            working_ram: zeros::<0x2000>(),
            high_ram: zeros::<0x007F>(),
            use_boot: true,
        }
    }
}

impl Default for Memory {
    fn default() -> (memory: Memory)
        ensures
            memory == Memory::reset(),
    {
        Memory {
            boot_rom: [0; 0x4000],
            rom_bank0: [0; 0x4000],
            rom_bank1: [0; 0x4000],
            external_ram: [0; 0x2000],
            working_ram: [0; 0x2000],
            high_ram: [0; 0x007F],
            use_boot: true,
        }
    }
}

/// The processor with everything that its bus reaches.
pub struct CPU {
    pub reg_file: RegFile,
    /// The address of the next bus access.
    pub addr_bus: u16,
    pub memory: Memory,
    pub pc: u16,
    pub ppu: PPU,
    /// The interrupt master enable.
    pub ime: bool,
    /// The interrupt enable register (address `0xFFFF`).
    pub ie: InterruptEnable,
    /// The phase of the video generator as the bus sees it.
    pub mode: Mode,
    /// The opcode of the instruction in progress, and what it hands to its next cycle.
    pub pass_in: (u8, StagePassThrough),
    /// The machine cycles that the dispatch of an interrupt still takes.
    pub interrupt_wait: u8,
}

impl CPU {
    /// The processor at power-on around the given video generator.
    pub open spec fn spec_new(ppu: PPU) -> CPU {
        CPU {
            reg_file: RegFile {
                A: 0,
                B: 0,
                C: 0,
                D: 0,
                E: 0,
                H: 0,
                L: 0,
                SP: 0,
                flags: Flags { Z: 0, N: 0, H: 0, C: 0 },
            },
            addr_bus: 0,
            memory: Memory::reset(),
            pc: 0,
            ppu,
            ime: false,
            ie: InterruptEnable::from_bits(0),
            mode: Mode::Off,
            pass_in: (0, StagePassThrough::fresh()),
            interrupt_wait: 0,
        }
    }

    /// Video memory answers the bus: the video generator is not transferring pixels.
    pub open spec fn vram_open(self) -> bool {
        self.mode != Mode::Mode3
    }

    /// The object table answers the bus: the display is off or blanking.
    pub open spec fn oam_open(self) -> bool {
        self.mode == Mode::Off || self.mode == Mode::Mode0 || self.mode == Mode::Mode1
    }

    /// The byte that a read of address `addr` finds.
    ///
    /// Below `0x0100` the boot ROM answers while it is shown, then the first ROM bank.
    /// Video memory and the object table read `0xFF` while the video generator holds
    /// them. `0xE000..0xFE00` shows the working RAM again. `0xFEA0..0xFF00` reads zero.
    #[verifier::opaque]
    pub open spec fn spec_read_at(self, addr: u16) -> u8 {
        if addr < 0x0100 {
            if self.memory.use_boot {
                self.memory.boot_rom[addr as int]
            } else {
                self.memory.rom_bank0[addr as int]
            }
        } else if addr < 0x4000 {
            self.memory.rom_bank0[addr as int]
        } else if addr < 0x8000 {
            self.memory.rom_bank1[addr - 0x4000]
        } else if addr < 0xA000 {
            if self.vram_open() {
                self.ppu.vram[addr - 0x8000]
            } else {
                0xFF
            }
        } else if addr < 0xC000 {
            self.memory.external_ram[addr - 0xA000]
        } else if addr < 0xE000 {
            self.memory.working_ram[addr - 0xC000]
        } else if addr < 0xFE00 {
            self.memory.working_ram[addr - 0xE000]
        } else if addr < 0xFEA0 {
            if self.oam_open() {
                self.ppu.oam.byte_at(addr - 0xFE00)
            } else {
                0xFF
            }
        } else if addr < 0xFF00 {
            0
        } else if addr < 0xFF80 {
            self.ppu.io_registers.spec_get(addr as usize)
        } else if addr < 0xFFFF {
            self.memory.high_ram[addr - 0xFF80]
        } else {
            self.ie.bits()
        }
    }

    /// Entry `slot` of the object table as a transfer from page `page` fills it: the
    /// four bytes that reads of `page * 256 + 4 * slot` and the three addresses after it
    /// find.
    pub open spec fn dma_entry(self, page: u8, slot: int) -> OamEntry {
        OamEntry::from_bytes(
            seq![
                self.spec_read_at((page * 256 + 4 * slot) as u16),
                self.spec_read_at((page * 256 + 4 * slot + 1) as u16),
                self.spec_read_at((page * 256 + 4 * slot + 2) as u16),
                self.spec_read_at((page * 256 + 4 * slot + 3) as u16),
            ],
        )
    }

    /// The object table with its first `n` entries filled by a transfer from page
    /// `page`.
    pub open spec fn dma_image(self, page: u8, n: nat) -> [OamEntry; 40]
        decreases n,
    {
        if n == 0 {
            self.ppu.oam.oam_entries
        } else {
            spec_array_update(
                self.dma_image(page, (n - 1) as nat),
                n - 1,
                self.dma_entry(page, n - 1),
            )
        }
    }

    /// The processor after a write of `data` to address `addr`.
    ///
    /// ROM ignores writes, and so does `0xFEA0..0xFF00`. Video memory and the object
    /// table ignore them while the video generator holds them. A write to
    /// `0xE000..0xFE00` lands in the working RAM. In the register block, a value other
    /// than zero written to `0xFF50` hides the boot ROM for good, and a value up to
    /// `0xDF` written to `0xFF46` fills the whole object table from that page at once.
    #[verifier::opaque]
    pub open spec fn spec_write_at(self, addr: u16, data: u8) -> CPU {
        if addr < 0x8000 {
            self
        } else if addr < 0xA000 {
            if self.vram_open() {
                CPU {
                    ppu: PPU {
                        vram: spec_array_update(self.ppu.vram, addr - 0x8000, data),
                        ..self.ppu
                    },
                    ..self
                }
            } else {
                self
            }
        } else if addr < 0xC000 {
            CPU {
                memory: Memory {
                    external_ram: spec_array_update(self.memory.external_ram, addr - 0xA000, data),
                    ..self.memory
                },
                ..self
            }
        } else if addr < 0xE000 {
            CPU {
                memory: Memory {
                    working_ram: spec_array_update(self.memory.working_ram, addr - 0xC000, data),
                    ..self.memory
                },
                ..self
            }
        } else if addr < 0xFE00 {
            CPU {
                memory: Memory {
                    working_ram: spec_array_update(self.memory.working_ram, addr - 0xE000, data),
                    ..self.memory
                },
                ..self
            }
        } else if addr < 0xFEA0 {
            if self.oam_open() {
                CPU {
                    ppu: PPU { oam: self.ppu.oam.spec_set(addr as usize, data), ..self.ppu },
                    ..self
                }
            } else {
                self
            }
        } else if addr < 0xFF00 {
            self
        } else if addr < 0xFF80 {
            CPU {
                memory: Memory {
                    use_boot: self.memory.use_boot && !(addr == 0xFF50 && data != 0),
                    ..self.memory
                },
                ppu: PPU {
                    oam: if addr == 0xFF46 && data <= 0xDF {
                        OAM { oam_entries: self.dma_image(data, 40) }
                    } else {
                        self.ppu.oam
                    },
                    io_registers: self.ppu.io_registers.spec_set(addr as usize, data),
                    ..self.ppu
                },
                ..self
            }
        } else if addr < 0xFFFF {
            CPU {
                memory: Memory {
                    high_ram: spec_array_update(self.memory.high_ram, addr - 0xFF80, data),
                    ..self.memory
                },
                ..self
            }
        } else {
            CPU { ie: InterruptEnable::from_bits(data), ..self }
        }
    }

    /// The processor after a byte is pushed: the stack pointer goes down by one, and the
    /// byte is written where it then points.
    pub open spec fn spec_push_val(self, val: u8) -> CPU {
        (CPU {
            reg_file: RegFile { SP: self.reg_file.SP.wrapping_sub(1), ..self.reg_file },
            addr_bus: self.reg_file.SP.wrapping_sub(1),
            ..self
        }).spec_write_at(self.reg_file.SP.wrapping_sub(1), val)
    }

    /// The processor after a byte is popped: the stack pointer goes up by one.
    pub open spec fn spec_pop(self) -> CPU {
        CPU {
            reg_file: RegFile { SP: self.reg_file.SP.wrapping_add(1), ..self.reg_file },
            addr_bus: self.reg_file.SP,
            ..self
        }
    }

    /// The flags and the two interrupt registers hold single bits.
    pub open spec fn regs_wf(self) -> bool {
        self.reg_file.flags.wf() && self.ie.wf() && self.ppu.io_registers.interrupt_flag.wf()
    }

    /// The processor is fit to run: its registers are well formed, the instruction in
    /// progress is at a cycle that it has, and a dispatch has at most its four further
    /// cycles to go.
    pub open spec fn wf(self) -> bool {
        self.regs_wf() && stage_ok(self.pass_in.0, self.pass_in.1) && self.interrupt_wait <= 4
    }

    /// What a read finds does not depend on the registers, the program counter, the
    /// address on the bus, or the state of the instruction and interrupt logic other
    /// than the interrupt registers.
    pub proof fn lemma_read_frame(self, other: CPU, addr: u16)
        requires
            self.memory == other.memory,
            self.ppu == other.ppu,
            self.mode == other.mode,
            self.ie == other.ie,
        ensures
            self.spec_read_at(addr) == other.spec_read_at(addr),
    {
        reveal(CPU::spec_read_at);
    }

    /// A write leaves the registers, the program counter, the address on the bus, the
    /// master enable and the state of the instruction in progress as they were.
    pub proof fn lemma_write_frame(self, addr: u16, data: u8)
        ensures
            self.spec_write_at(addr, data).reg_file == self.reg_file,
            self.spec_write_at(addr, data).pc == self.pc,
            self.spec_write_at(addr, data).addr_bus == self.addr_bus,
            self.spec_write_at(addr, data).ime == self.ime,
            self.spec_write_at(addr, data).same_control(self),
    {
        reveal(CPU::spec_write_at);
    }

    /// ROM and the range `0xFEA0..0xFF00` ignore writes, and that range reads zero.
    pub proof fn lemma_unwritable(self, addr: u16, data: u8)
        requires
            addr < 0x8000 || 0xFEA0 <= addr < 0xFF00,
        ensures
            self.spec_write_at(addr, data) == self,
            0xFEA0 <= addr ==> self.spec_read_at(addr) == 0,
    {
        reveal(CPU::spec_write_at);
        reveal(CPU::spec_read_at);
    }

    /// A byte written to external, working or high RAM is read back from the same
    /// address. The working RAM and its echo show the same bytes: what is written
    /// through one is read through the other.
    pub proof fn lemma_ram_round_trip(self, addr: u16, data: u8)
        requires
            0xA000 <= addr < 0xFE00 || 0xFF80 <= addr < 0xFFFF,
        ensures
            self.spec_write_at(addr, data).spec_read_at(addr) == data,
            0xC000 <= addr < 0xDE00 ==> self.spec_write_at(addr, data).spec_read_at(
                (addr + 0x2000) as u16,
            ) == data,
            0xE000 <= addr < 0xFE00 ==> self.spec_write_at(addr, data).spec_read_at(
                (addr - 0x2000) as u16,
            ) == data,
    {
        reveal(CPU::spec_write_at);
        reveal(CPU::spec_read_at);
        broadcast use vstd::array::group_array_axioms;

    }

    /// While the video generator transfers pixels, video memory reads `0xFF` and
    /// ignores writes; in any other phase a byte written there is read back. While the
    /// video generator searches objects or transfers pixels, the object table reads
    /// `0xFF` and ignores writes.
    pub proof fn lemma_video_gate(self, addr: u16, data: u8)
        requires
            0x8000 <= addr < 0xA000 || 0xFE00 <= addr < 0xFEA0,
        ensures
            addr < 0xA000 && self.mode == Mode::Mode3 ==> self.spec_read_at(addr) == 0xFF
                && self.spec_write_at(addr, data) == self,
            addr < 0xA000 && self.mode != Mode::Mode3 ==> self.spec_write_at(
                addr,
                data,
            ).spec_read_at(addr) == data,
            addr >= 0xFE00 && (self.mode == Mode::Mode2 || self.mode == Mode::Mode3)
                ==> self.spec_read_at(addr) == 0xFF && self.spec_write_at(addr, data) == self,
    {
        reveal(CPU::spec_write_at);
        reveal(CPU::spec_read_at);
        broadcast use vstd::array::group_array_axioms;

    }

    /// A value other than zero written to `0xFF50` hides the boot ROM: reads below
    /// `0x0100` then find the first ROM bank. Once hidden, the boot ROM stays hidden
    /// whatever is written anywhere.
    pub proof fn lemma_boot_rom_latch(self, addr: u16, data: u8)
        ensures
            addr == 0xFF50 && data != 0 ==> !self.spec_write_at(addr, data).memory.use_boot,
            !self.memory.use_boot ==> !self.spec_write_at(addr, data).memory.use_boot,
            !self.memory.use_boot ==> forall|low: u16|
                low < 0x0100 ==> #[trigger] self.spec_read_at(low) == self.memory.rom_bank0[low as int],
    {
        reveal(CPU::spec_write_at);
        reveal(CPU::spec_read_at);
    }

    /// A transfer that has filled the first `n` entries of the object table has made
    /// each of them from the page, and left the others as they were.
    pub proof fn lemma_dma_image(self, page: u8, n: nat)
        requires
            n <= 40,
        ensures
            forall|slot: int|
                0 <= slot < 40 ==> #[trigger] self.dma_image(page, n)@[slot] == (if slot < n {
                    self.dma_entry(page, slot)
                } else {
                    self.ppu.oam.oam_entries@[slot]
                }),
        decreases n,
    {
        if n > 0 {
            self.lemma_dma_image(page, (n - 1) as nat);
            let before = self.dma_image(page, (n - 1) as nat);
            vstd::array::axiom_spec_array_update(before, n - 1, self.dma_entry(page, n - 1));
        }
    }

    /// A value up to `0xDF` written to `0xFF46` copies 160 bytes from the page that the
    /// value names into the object table, whatever the video generator's phase: entry
    /// `slot` is made of the four bytes read at `value * 256 + 4 * slot`.
    pub proof fn lemma_dma(self, page: u8)
        requires
            page <= 0xDF,
        ensures
            forall|slot: int|
                0 <= slot < 40 ==> #[trigger] self.spec_write_at(
                    0xFF46,
                    page,
                ).ppu.oam.oam_entries@[slot] == self.dma_entry(page, slot),
            self.spec_write_at(0xFF46, page).ppu.io_registers.dma == page,
    {
        reveal(CPU::spec_write_at);
        self.lemma_dma_image(page, 40);
    }

    /// Of two sources that are both enabled and pending, vertical blank is served
    /// before the timer: the processor jumps to `0x40`, the vertical blank flag is
    /// cleared, and the timer flag stays pending.
    pub proof fn lemma_vblank_before_timer(self)
        requires
            self.ie.has(Interrupt::VBlank),
            self.ie.has(Interrupt::Timer),
            self.ppu.io_registers.interrupt_flag.has(Interrupt::VBlank),
            self.ppu.io_registers.interrupt_flag.has(Interrupt::Timer),
        ensures
            self.spec_handle_interrupts().pc == 0x40,
            !self.spec_handle_interrupts().ime,
            !self.spec_handle_interrupts().ppu.io_registers.interrupt_flag.has(Interrupt::VBlank),
            self.spec_handle_interrupts().ppu.io_registers.interrupt_flag.has(Interrupt::Timer),
    {
    }

    /// The source that is served is the first in rank that is enabled and pending: no
    /// source before it in rank is both.
    pub proof fn lemma_interrupt_priority(self, source: Interrupt, earlier: Interrupt)
        requires
            self.next_interrupt() == Some(source),
            earlier.rank() < source.rank(),
        ensures
            self.ie.has(source) && self.ppu.io_registers.interrupt_flag.has(source),
            !(self.ie.has(earlier) && self.ppu.io_registers.interrupt_flag.has(earlier)),
            self.spec_handle_interrupts().pc == 0x40 + 8 * source.rank(),
    {
    }

    /// The two processors are at the same point of the same instruction, with the same
    /// wait of a dispatch and the same phase of the video generator.
    pub open spec fn same_control(self, other: CPU) -> bool {
        self.pass_in == other.pass_in && self.interrupt_wait == other.interrupt_wait && self.mode
            == other.mode && self.ppu.mode == other.ppu.mode
    }

    /// The video generator is in the same phase for both processors.
    pub open spec fn same_mode(self, other: CPU) -> bool {
        self.mode == other.mode && self.ppu.mode == other.ppu.mode
    }

    /// The source that is served next: the first in rank that is both enabled and
    /// pending.
    pub open spec fn next_interrupt(self) -> Option<Interrupt> {
        let enabled = self.ie;
        let flags = self.ppu.io_registers.interrupt_flag;
        if enabled.has(Interrupt::VBlank) && flags.has(Interrupt::VBlank) {
            Some(Interrupt::VBlank)
        } else if enabled.has(Interrupt::LcdStat) && flags.has(Interrupt::LcdStat) {
            Some(Interrupt::LcdStat)
        } else if enabled.has(Interrupt::Timer) && flags.has(Interrupt::Timer) {
            Some(Interrupt::Timer)
        } else if enabled.has(Interrupt::Serial) && flags.has(Interrupt::Serial) {
            Some(Interrupt::Serial)
        } else if enabled.has(Interrupt::Joypad) && flags.has(Interrupt::Joypad) {
            Some(Interrupt::Joypad)
        } else {
            None
        }
    }

    /// The processor after the interrupt controller has had its turn.
    ///
    /// Where a source is enabled and pending, the first such in rank is served: the
    /// program counter is pushed, high byte first, and set to the source's vector, the
    /// source's flag is cleared, the master enable is cleared, and the dispatch takes four
    /// more machine cycles after this one. The other flags stay as they were. Where no
    /// source is enabled and pending, only the master enable is set.
    pub open spec fn spec_handle_interrupts(self) -> CPU {
        match self.next_interrupt() {
            Some(source) => {
                let pushed = self.spec_push_val(high_byte(self.pc)).spec_push_val(
                    low_byte(self.pc),
                );
                CPU {
                    ime: false,
                    pc: source.spec_vector(),
                    ppu: PPU {
                        io_registers: IORegisters {
                            interrupt_flag: self.ppu.io_registers.interrupt_flag.without(source),
                            ..pushed.ppu.io_registers
                        },
                        ..pushed.ppu
                    },
                    interrupt_wait: 4,
                    ..pushed
                }
            },
            None => CPU { ime: true, ..self },
        }
    }

    /// The processor sleeps in `HALT`.
    pub open spec fn spec_halted(self) -> bool {
        self.pass_in.0 == 0x76
    }

    /// The processor after the instruction with this opcode has run the cycle that
    /// `passed` names, and the opcode and program counter where the opcode names no
    /// instruction. A `DI` that completes clears the master enable.
    pub open spec fn spec_run(self, opcode: u8, passed: StagePassThrough) -> (
        CPU,
        Result<(), InvalidInstruction>,
    ) {
        if is_defined(opcode) {
            let (after, next) = spec_decode(self, opcode, passed);
            (
                CPU {
                    ime: after.ime && !next.di,
                    pass_in: (opcode, StagePassThrough { di: false, ..next }),
                    ..after
                },
                Ok(()),
            )
        } else {
            (self, Err(InvalidInstruction { opcode, pc: self.pc }))
        }
    }

    /// The processor after the timer has run for one machine cycle.
    pub open spec fn ticked(self) -> CPU {
        CPU { ppu: PPU { io_registers: self.ppu.io_registers.spec_tick(), ..self.ppu }, ..self }
    }

    /// One machine cycle of the processor.
    ///
    /// The timer runs in every cycle. A cycle of an interrupt dispatch does nothing
    /// else, and neither does a cycle in `HALT` while no source is both enabled and
    /// pending. `HALT` ends, and the program counter moves past it, once one is. An
    /// instruction in progress runs its next cycle. Between instructions, the interrupt
    /// controller has its turn first, if the master enable is set; unless it starts a
    /// dispatch, the opcode at the program counter is fetched, a pending `EI` sets the
    /// master enable, and the instruction runs its first cycle.
    pub open spec fn spec_step(self) -> (CPU, Result<(), InvalidInstruction>) {
        let ticked = self.ticked();
        let woken = if self.spec_halted() {
            CPU { pass_in: (0x00, self.pass_in.1), ..ticked.advance() }
        } else {
            ticked
        };
        let served = if woken.ime {
            woken.spec_handle_interrupts()
        } else {
            woken
        };
        if self.interrupt_wait > 0 {
            (CPU { interrupt_wait: (self.interrupt_wait - 1) as u8, ..ticked }, Ok(()))
        } else if self.spec_halted() && ticked.next_interrupt() is None {
            (ticked, Ok(()))
        } else if woken.pass_in.1.instruction_stage != 0 {
            woken.spec_run(woken.pass_in.0, woken.pass_in.1)
        } else if served.interrupt_wait > 0 {
            (served, Ok(()))
        } else {
            (CPU {
                addr_bus: served.pc,
                ime: served.ime || served.pass_in.1.ei,
                ..served
            }).spec_run(
                served.spec_read_at(served.pc),
                StagePassThrough { ei: false, ..served.pass_in.1 },
            )
        }
    }

    /// The processor with the program counter moved on by one.
    pub open spec fn advance(self) -> CPU {
        CPU { pc: self.pc.wrapping_add(1), ..self }
    }

    /// The processor with the program counter moved on by one and put on the bus.
    pub open spec fn fetch(self) -> CPU {
        CPU { pc: self.pc.wrapping_add(1), addr_bus: self.pc.wrapping_add(1), ..self }
    }

    /// The byte after the one that the program counter points at.
    pub open spec fn operand(self) -> u8 {
        self.spec_read_at(self.pc.wrapping_add(1))
    }

    /// The processor with `addr` on the bus.
    pub open spec fn at(self, addr: u16) -> CPU {
        CPU { addr_bus: addr, ..self }
    }

    /// The processor with the program counter at `target`.
    pub open spec fn jump(self, target: u16) -> CPU {
        CPU { pc: target, ..self }
    }

    /// The processor with another register file.
    pub open spec fn with_regs(self, reg_file: RegFile) -> CPU {
        CPU { reg_file, ..self }
    }

    /// The processor with an eight-bit register replaced.
    pub open spec fn with_reg8(self, reg: Reg8, value: u8) -> CPU {
        CPU { reg_file: self.reg_file.spec_set8(reg, value), ..self }
    }

    /// The processor with a register pair replaced.
    pub open spec fn with_reg16(self, reg: Reg16, value: u16) -> CPU {
        CPU { reg_file: self.reg_file.spec_set16(reg, value), ..self }
    }

    /// The processor with other flags.
    pub open spec fn with_flags(self, flags: Flags) -> CPU {
        CPU { reg_file: RegFile { flags, ..self.reg_file }, ..self }
    }

    /// The content of HL.
    pub open spec fn hl(self) -> u16 {
        self.reg_file.spec_get16(Reg16::HL)
    }

    /// The operand that the selector `sel` names: a register, or for six the byte at HL.
    pub open spec fn source(self, sel: u8) -> u8 {
        if sel == 6 {
            self.spec_read_at(self.hl())
        } else {
            self.reg_file.spec_get8(Reg8::spec_operand(sel))
        }
    }

    /// The processor after it has read the operand that `sel` names: for six, HL is on
    /// the bus.
    pub open spec fn after_source(self, sel: u8) -> CPU {
        if sel == 6 {
            self.at(self.hl())
        } else {
            self
        }
    }

    /// The processor at power-on around the given video generator.
    pub fn new(ppu: PPU) -> (cpu: CPU)
        ensures
            cpu == CPU::spec_new(ppu),
            ppu.io_registers.interrupt_flag.wf() ==> cpu.wf(),
    {
        proof {
            crate::instructions::lemma_single_cycle();
        }
        CPU {
            reg_file: RegFile::default(),
            addr_bus: 0,
            memory: Memory::default(),
            pc: 0,
            ppu,
            ime: false,
            ie: InterruptEnable::default(),
            mode: Mode::Off,
            pass_in: (0, StagePassThrough::default()),
            interrupt_wait: 0,
        }
    }

    /// Gives the interrupt controller its turn.
    pub fn handle_interrupts(&mut self)
        ensures
            *final(self) == old(self).spec_handle_interrupts(),
            old(self).regs_wf() ==> final(self).regs_wf(),
            final(self).pass_in == old(self).pass_in,
            final(self).same_mode(*old(self)),
            final(self).interrupt_wait == (if old(self).next_interrupt() is Some {
                4
            } else {
                old(self).interrupt_wait
            }),
    {
        let enabled: InterruptEnable = self.ie;
        let flags: InterruptFlag = self.ppu.io_registers.interrupt_flag;
        let source = if enabled.vblank == 1 && flags.vblank == 1 {
            Some(Interrupt::VBlank)
        } else if enabled.lcd_stat == 1 && flags.lcd_stat == 1 {
            Some(Interrupt::LcdStat)
        } else if enabled.timer == 1 && flags.timer == 1 {
            Some(Interrupt::Timer)
        } else if enabled.serial == 1 && flags.serial == 1 {
            Some(Interrupt::Serial)
        } else if enabled.joypad == 1 && flags.joypad == 1 {
            Some(Interrupt::Joypad)
        } else {
            None
        };
        match source {
            Some(source) => {
                let (hi, lo) = split_word(self.pc);
                self.push_val(hi);
                self.push_val(lo);
                self.ime = false;
                self.pc = source.vector();
                self.ppu.io_registers.interrupt_flag = match source {
                    Interrupt::VBlank => InterruptFlag { vblank: 0, ..flags },
                    Interrupt::LcdStat => InterruptFlag { lcd_stat: 0, ..flags },
                    Interrupt::Timer => InterruptFlag { timer: 0, ..flags },
                    Interrupt::Serial => InterruptFlag { serial: 0, ..flags },
                    Interrupt::Joypad => InterruptFlag { joypad: 0, ..flags },
                };
                self.interrupt_wait = 4;
            },
            None => {
                self.ime = true;
            },
        }
    }

    /// Whether the processor sleeps in `HALT`.
    pub fn halted(&self) -> (asleep: bool)
        ensures
            asleep == self.spec_halted(),
    {
        self.pass_in.0 == 0x76
    }

    /// Whether some source is both enabled and pending.
    fn interrupt_requested(&self) -> (requested: bool)
        ensures
            requested == (self.next_interrupt() is Some),
    {
        let enabled: InterruptEnable = self.ie;
        let flags: InterruptFlag = self.ppu.io_registers.interrupt_flag;
        (enabled.vblank == 1 && flags.vblank == 1) || (enabled.lcd_stat == 1 && flags.lcd_stat
            == 1) || (enabled.timer == 1 && flags.timer == 1) || (enabled.serial == 1
            && flags.serial == 1) || (enabled.joypad == 1 && flags.joypad == 1)
    }

    /// Runs the processor for one machine cycle. Fails on an opcode that names no
    /// instruction.
    pub fn step_cpu(&mut self, _debug: bool) -> (result: Result<(), InvalidInstruction>)
        requires
            old(self).wf(),
        ensures
            (*final(self), result) == old(self).spec_step(),
            final(self).wf(),
            final(self).same_mode(*old(self)),
    {
        let mut instruction: u8 = self.pass_in.0;
        let mut pass: StagePassThrough = self.pass_in.1;
        proof {
            crate::instructions::lemma_single_cycle();
        }
        self.ppu.io_registers.tick_timer();
        if self.interrupt_wait > 0 {
            self.interrupt_wait -= 1;
            return Ok(());
        }
        if instruction == 0x76 {
            if self.interrupt_requested() {
                self.pc = self.pc.wrapping_add(1);
                instruction = 0x00;
                self.pass_in = (instruction, pass);
            } else {
                return Ok(());
            }
        }
        if pass.instruction_stage == 0 {
            if self.ime {
                self.handle_interrupts();
                if self.interrupt_wait > 0 {
                    return Ok(());
                }
            }
            instruction = self.read_at(self.pc);
            if pass.ei {
                self.ime = true;
                pass.ei = false;
            }
        }
        self.run(instruction, pass)
    }

    /// Runs the cycle that `passed` names of the instruction with this opcode, and
    /// keeps what it hands on.
    fn run(&mut self, opcode: u8, passed: StagePassThrough) -> (result: Result<
        (),
        InvalidInstruction,
    >)
        requires
            old(self).regs_wf(),
            old(self).interrupt_wait <= 4,
            stage_ok(old(self).pass_in.0, old(self).pass_in.1),
            stage_ok(opcode, passed),
        ensures
            (*final(self), result) == old(self).spec_run(opcode, passed),
            final(self).wf(),
            final(self).same_mode(*old(self)),
    {
        match instruction_decode(opcode, self, passed) {
            Ok(next) => {
                let mut pass = next;
                if pass.di {
                    self.ime = false;
                    pass.di = false;
                }
                self.pass_in = (opcode, pass);
                Ok(())
            },
            Err(invalid) => Err(invalid),
        }
    }

    /// Runs the processor for one machine cycle, as `step_cpu` does.
    pub fn step(&mut self, debug: bool) -> (result: Result<(), InvalidInstruction>)
        requires
            old(self).wf(),
        ensures
            (*final(self), result) == old(self).spec_step(),
            final(self).wf(),
            final(self).same_mode(*old(self)),
    {
        self.step_cpu(debug)
    }

    /// Reads the byte at the address on the bus.
    pub fn read(&self) -> (value: u8)
        ensures
            value == self.spec_read_at(self.addr_bus),
    {
        reveal(CPU::spec_read_at);
        let addr: usize = self.addr_bus as usize;
        match addr {
            0x0000..=0x00FF => {
                if self.memory.use_boot {
                    self.memory.boot_rom[addr]
                } else {
                    self.memory.rom_bank0[addr]
                }
            },
            0x0100..=0x3FFF => self.memory.rom_bank0[addr],
            0x4000..=0x7FFF => self.memory.rom_bank1[addr - 0x4000],
            0x8000..=0x9FFF => match self.mode {
                Mode::Mode3 => 0xFF,
                _ => self.ppu.vram[addr - 0x8000],
            },
            0xA000..=0xBFFF => self.memory.external_ram[addr - 0xA000],
            0xC000..=0xDFFF => self.memory.working_ram[addr - 0xC000],
            0xE000..=0xFDFF => self.memory.working_ram[addr - 0xE000],
            0xFE00..=0xFE9F => match self.mode {
                Mode::Off | Mode::Mode0 | Mode::Mode1 => self.ppu.oam.get(addr - 0xFE00),
                _ => 0xFF,
            },
            0xFEA0..=0xFEFF => 0,
            0xFF00..=0xFF7F => self.ppu.io_registers.get(addr),
            0xFF80..=0xFFFE => self.memory.high_ram[addr - 0xFF80],
            _ => self.ie.into(),
        }
    }

    /// Reads the byte at `addr`, which lies below the echo of the working RAM.
    fn get_data_from_addr(&self, addr: u16) -> (value: u8)
        requires
            addr < 0xE000,
        ensures
            value == self.spec_read_at(addr),
    {
        reveal(CPU::spec_read_at);
        let addr: usize = addr as usize;
        match addr {
            0x0000..=0x00FF => {
                if self.memory.use_boot {
                    self.memory.boot_rom[addr]
                } else {
                    self.memory.rom_bank0[addr]
                }
            },
            0x0100..=0x3FFF => self.memory.rom_bank0[addr],
            0x4000..=0x7FFF => self.memory.rom_bank1[addr - 0x4000],
            0x8000..=0x9FFF => match self.mode {
                Mode::Mode3 => 0xFF,
                _ => self.ppu.vram[addr - 0x8000],
            },
            0xA000..=0xBFFF => self.memory.external_ram[addr - 0xA000],
            _ => self.memory.working_ram[addr - 0xC000],
        }
    }

    /// Fills the object table from page `page`, entry by entry.
    fn oam_dma(&mut self, page: u8)
        requires
            page <= 0xDF,
        ensures
            *final(self) == (CPU {
                ppu: PPU {
                    oam: OAM { oam_entries: old(self).dma_image(page, 40) },
                    ..old(self).ppu
                },
                ..*old(self)
            }),
    {
        let ghost before = *self;
        let mut entries: [OamEntry; 40] = self.ppu.oam.oam_entries;
        let base: u16 = (page as u16) * 256;
        let mut slot: usize = 0;
        while slot < 40
            invariant
                slot <= 40,
                base == page * 256,
                page <= 0xDF,
                *self == before,
                entries == before.dma_image(page, slot as nat),
            decreases 40 - slot,
        {
            let at: u16 = base + 4 * (slot as u16);
            let bytes: [u8; 4] = [
                self.get_data_from_addr(at),
                self.get_data_from_addr(at + 1),
                self.get_data_from_addr(at + 2),
                self.get_data_from_addr(at + 3),
            ];
            assert(bytes@ =~= seq![
                before.spec_read_at((page * 256 + 4 * slot) as u16),
                before.spec_read_at((page * 256 + 4 * slot + 1) as u16),
                before.spec_read_at((page * 256 + 4 * slot + 2) as u16),
                before.spec_read_at((page * 256 + 4 * slot + 3) as u16),
            ]);
            entries[slot] = OamEntry::decode(bytes);
            slot += 1;
        }
        self.ppu.oam = OAM { oam_entries: entries };
    }

    /// Writes `data` to the address on the bus.
    pub fn write_data(&mut self, data: u8)
        ensures
            *final(self) == old(self).spec_write_at(old(self).addr_bus, data),
            old(self).regs_wf() ==> final(self).regs_wf(),
            final(self).same_control(*old(self)),
    {
        reveal(CPU::spec_write_at);
        let addr: usize = self.addr_bus as usize;
        match addr {
            0x0000..=0x7FFF => (),
            0x8000..=0x9FFF => match self.mode {
                Mode::Mode3 => (),
                _ => self.ppu.vram[addr - 0x8000] = data,
            },
            0xA000..=0xBFFF => self.memory.external_ram[addr - 0xA000] = data,
            0xC000..=0xDFFF => self.memory.working_ram[addr - 0xC000] = data,
            0xE000..=0xFDFF => self.memory.working_ram[addr - 0xE000] = data,
            0xFE00..=0xFE9F => match self.mode {
                Mode::Off | Mode::Mode0 | Mode::Mode1 => self.ppu.oam.set(addr, data),
                _ => (),
            },
            0xFEA0..=0xFEFF => (),
            0xFF00..=0xFF7F => {
                if addr == 0xFF50 && data != 0 {
                    self.memory.use_boot = false;
                }
                if addr == 0xFF46 && data <= 0xDF {
                    self.oam_dma(data);
                }
                self.ppu.io_registers.set(addr, data);
            },
            0xFF80..=0xFFFE => self.memory.high_ram[addr - 0xFF80] = data,
            _ => self.ie = data.into(),
        };
    }

    /// Moves the program counter on by one.
    pub fn advance_pc(&mut self)
        ensures
            *final(self) == old(self).advance(),
    {
        self.pc = self.pc.wrapping_add(1);
    }

    /// Moves the program counter on by one and reads the byte it then points at.
    pub fn fetch_operand(&mut self) -> (value: u8)
        ensures
            *final(self) == old(self).fetch(),
            value == old(self).operand(),
    {
        proof {
            old(self).lemma_read_frame(old(self).fetch(), old(self).pc.wrapping_add(1));
        }
        self.pc = self.pc.wrapping_add(1);
        self.addr_bus = self.pc;
        self.read()
    }

    /// Puts `addr` on the bus and reads the byte there.
    pub fn read_at(&mut self, addr: u16) -> (value: u8)
        ensures
            *final(self) == old(self).at(addr),
            value == old(self).spec_read_at(addr),
    {
        proof {
            old(self).lemma_read_frame(old(self).at(addr), addr);
        }
        self.addr_bus = addr;
        self.read()
    }

    /// Puts `addr` on the bus and writes `data` there.
    pub fn write_at(&mut self, addr: u16, data: u8)
        ensures
            *final(self) == old(self).at(addr).spec_write_at(addr, data),
            old(self).regs_wf() ==> final(self).regs_wf(),
            final(self).same_control(*old(self)),
    {
        self.addr_bus = addr;
        self.write_data(data);
    }

    /// Reads the operand that the selector `sel` names.
    pub fn read_source(&mut self, sel: u8) -> (value: u8)
        requires
            sel < 8,
        ensures
            *final(self) == old(self).after_source(sel),
            value == old(self).source(sel),
    {
        if sel == 6 {
            let hl: u16 = self.reg_file.get16(Reg16::HL);
            self.read_at(hl)
        } else {
            self.reg_file.get8(Reg8::operand(sel))
        }
    }

    /// Pops a byte off the stack.
    pub fn pop(&mut self) -> (value: u8)
        ensures
            *final(self) == old(self).spec_pop(),
            value == old(self).spec_read_at(old(self).reg_file.SP),
    {
        proof {
            old(self).lemma_read_frame(old(self).at(old(self).reg_file.SP), old(self).reg_file.SP);
        }
        self.addr_bus = self.reg_file.SP;
        let stack_val = self.read();
        self.reg_file.SP = self.reg_file.SP.wrapping_add(1);
        stack_val
    }

    /// Pushes a register onto the stack; for `F`, the flag register's byte.
    pub fn push(&mut self, push_reg: Reg8)
        ensures
            *final(self) == old(self).spec_push_val(old(self).reg_file.spec_get8(push_reg)),
            old(self).regs_wf() ==> final(self).regs_wf(),
            final(self).same_control(*old(self)),
    {
        self.reg_file.SP = self.reg_file.SP.wrapping_sub(1);
        self.addr_bus = self.reg_file.SP;
        match push_reg {
            Reg8::F => self.write_data(self.reg_file.flags.into()),
            _ => self.write_data(self.reg_file.get8(push_reg)),
        }
    }

    /// Pushes a byte onto the stack.
    pub fn push_val(&mut self, val: u8)
        ensures
            *final(self) == old(self).spec_push_val(val),
            old(self).regs_wf() ==> final(self).regs_wf(),
            final(self).same_control(*old(self)),
    {
        self.reg_file.SP = self.reg_file.SP.wrapping_sub(1);
        self.addr_bus = self.reg_file.SP;
        self.write_data(val);
    }
}

} // verus!
