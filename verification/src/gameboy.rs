use crate::cpu::{Memory, CPU};
use crate::instructions::InvalidInstruction;
use crate::ppu::{GameboyColor, Mode, OamEntry, PPU};
use crate::register_maps::{IORegisters, Interrupt, Joypad};
use byteorder::{ByteOrder, NativeEndian};
use vstd::prelude::*;

verus! {

/// The machine cycles of object search on one scanline.
pub const MODE2_CYCLES: u16 = 20;

/// The machine cycles of pixel transfer on one scanline.
pub const MODE3_CYCLES: u16 = 43;

/// The machine cycles of horizontal blank on one scanline.
pub const MODE0_CYCLES: u16 = 51;

/// The machine cycles of one scanline of vertical blank.
pub const MODE1_CYCLES: u16 = 114;

/// The scanlines that are shown.
pub const VISIBLE_LINES: u8 = 144;

/// The scanlines of a frame, vertical blank included.
pub const FRAME_LINES: u8 = 154;

/// The bytes of a frame buffer: 144 lines of 160 pixels of four bytes.
pub const FRAME_BYTES: usize = 92160;

/// The eight buttons.
#[derive(Clone, Copy, Debug, PartialEq, Eq, Structural)]
pub enum Button {
    Right,
    Left,
    Up,
    Down,
    A,
    B,
    Select,
    Start,
}

impl Button {
    /// The button is one of the four directions, not one of the four actions.
    pub open spec fn is_direction(self) -> bool {
        self == Button::Right || self == Button::Left || self == Button::Up || self
            == Button::Down
    }
}

/// What the platform reports to the machine.
#[derive(Clone, Copy, Debug, PartialEq, Eq, Structural)]
pub enum InputEvent {
    /// The user asked to leave.
    Quit,
    /// A button went down.
    Press(Button),
    /// A button came up.
    Release(Button),
    /// Anything else.
    Other,
}

/// What the platform is to do after a machine cycle.
#[derive(Clone, Copy, Debug, PartialEq, Eq, Structural)]
pub enum FrameEvent {
    /// Nothing.
    Idle,
    /// Pixel transfer has composed the machine's `line` for its `scanline`.
    Line,
    /// The last scanline of a frame has ended: show the frame.
    FrameDone,
    /// The display was switched off: blank the screen.
    DisplayOff,
}

/// The machine: the processor with all it reaches, and the video generator's place in
/// the frame.
pub struct Gameboy {
    pub cpu: CPU,
    /// The phase of the video generator. `Off` also between two frames.
    pub mode: Mode,
    /// The scanline that the video generator is on.
    pub scanline: u8,
    /// The machine cycles that the phase still lasts.
    pub steps_left: u16,
    /// The objects that object search selected for the scanline.
    pub sprites: Vec<OamEntry>,
    /// The pixels that pixel transfer composed for the scanline.
    pub line: Vec<GameboyColor>,
}

/// The machine as a mathematical value.
pub ghost struct GameboyView {
    pub cpu: CPU,
    pub mode: Mode,
    pub scanline: u8,
    pub steps_left: u16,
    pub sprites: Seq<OamEntry>,
    pub line: Seq<GameboyColor>,
}

impl View for Gameboy {
    type V = GameboyView;

    open spec fn view(&self) -> GameboyView {
        GameboyView {
            cpu: self.cpu,
            mode: self.mode,
            scanline: self.scanline,
            steps_left: self.steps_left,
            sprites: self.sprites@,
            line: self.line@,
        }
    }
}

impl Joypad {
    /// The joypad register with the line of `button` at `level`.
    pub open spec fn with_line(self, button: Button, level: u8) -> Joypad {
        match button {
            Button::Down | Button::Start => Joypad { down_or_start: level, ..self },
            Button::Up | Button::Select => Joypad { up_or_select: level, ..self },
            Button::Left | Button::B => Joypad { left_or_b: level, ..self },
            Button::Right | Button::A => Joypad { right_or_a: level, ..self },
        }
    }

    /// The register selects the group of `button`: its select bit for the directions,
    /// or for the actions, is zero.
    pub open spec fn selects(self, button: Button) -> bool {
        if button.is_direction() {
            self.select_direction == 0
        } else {
            self.select_action == 0
        }
    }
}

impl IORegisters {
    /// The register block after the platform reported an event. A button whose group
    /// the joypad register selects sets its line when it goes down; when it comes up it
    /// clears its line and requests the joypad interrupt. Anything else changes nothing.
    pub open spec fn spec_input(self, event: InputEvent) -> IORegisters {
        match event {
            InputEvent::Press(button) if self.joypad.selects(button) => IORegisters {
                joypad: self.joypad.with_line(button, 1),
                ..self
            },
            InputEvent::Release(button) if self.joypad.selects(button) => IORegisters {
                joypad: self.joypad.with_line(button, 0),
                interrupt_flag: self.interrupt_flag.with(Interrupt::Joypad),
                ..self
            },
            _ => self,
        }
    }
}

impl GameboyView {
    /// The machine is fit to run: the processor is, the three records of the video
    /// generator's phase agree, and the scanline is one that the phase occurs on.
    pub open spec fn wf(self) -> bool {
        &&& self.cpu.wf()
        &&& self.cpu.mode == self.mode
        &&& self.cpu.ppu.mode == self.mode
        &&& (self.mode == Mode::Mode2 || self.mode == Mode::Mode3 || self.mode == Mode::Mode0)
            ==> self.scanline < VISIBLE_LINES
        &&& self.mode == Mode::Mode1 ==> VISIBLE_LINES <= self.scanline < FRAME_LINES
        &&& self.mode != Mode::Off ==> self.steps_left <= MODE1_CYCLES
    }

    /// The display is switched on in the LCD control register.
    pub open spec fn lcd_on(self) -> bool {
        self.cpu.ppu.io_registers.lcdc.lcd_ppu_enable != 0
    }

    /// The machine with other registers in the register block.
    pub open spec fn with_io(self, io_registers: IORegisters) -> GameboyView {
        GameboyView {
            cpu: CPU { ppu: PPU { io_registers, ..self.cpu.ppu }, ..self.cpu },
            ..self
        }
    }

    /// The machine with the video generator in phase `mode` for `steps` machine cycles:
    /// the phase is recorded for the bus and shown in the status register.
    pub open spec fn enter(self, mode: Mode, steps: u16) -> GameboyView {
        GameboyView {
            cpu: CPU {
                ppu: PPU {
                    io_registers: self.cpu.ppu.io_registers.spec_enter_mode(mode),
                    mode,
                    ..self.cpu.ppu
                },
                mode,
                ..self.cpu
            },
            mode,
            steps_left: steps,
            ..self
        }
    }

    /// The machine as the video generator starts scanline `line`. LY is set and compared
    /// with LYC. A visible line starts with object search, whose selection is kept. The
    /// first line after them starts vertical blank, which requests its interrupts; the
    /// lines after it continue vertical blank.
    pub open spec fn begin_line(self, line: u8) -> GameboyView {
        let started = GameboyView {
            scanline: line,
            ..self.with_io(self.cpu.ppu.io_registers.spec_start_line(line))
        };
        if line < VISIBLE_LINES {
            GameboyView { sprites: started.cpu.ppu.spec_object_search(), ..started }.enter(
                Mode::Mode2,
                MODE2_CYCLES,
            )
        } else if line == VISIBLE_LINES {
            started.with_io(started.cpu.ppu.io_registers.spec_begin_vblank()).enter(
                Mode::Mode1,
                MODE1_CYCLES,
            )
        } else {
            started.enter(Mode::Mode1, MODE1_CYCLES)
        }
    }

    /// What the video generator does before the processor's next machine cycle while
    /// the display is on, and what the platform is told.
    ///
    /// From `Off` it starts scanline 0. A phase that still lasts goes on. Object search
    /// is followed by pixel transfer, which composes the line from the objects selected;
    /// pixel transfer by horizontal blank; horizontal blank and each line of vertical
    /// blank by the next scanline. After the last scanline the frame is done and the
    /// video generator rests in `Off` until the next cycle.
    pub open spec fn advance_video(self) -> (GameboyView, FrameEvent) {
        if self.mode == Mode::Off {
            (self.begin_line(0), FrameEvent::Idle)
        } else if self.steps_left != 0 {
            (self, FrameEvent::Idle)
        } else if self.mode == Mode::Mode2 {
            (
                GameboyView { line: self.cpu.ppu.spec_draw(self.sprites), ..self }.enter(
                    Mode::Mode3,
                    MODE3_CYCLES,
                ),
                FrameEvent::Line,
            )
        } else if self.mode == Mode::Mode3 {
            (self.enter(Mode::Mode0, MODE0_CYCLES), FrameEvent::Idle)
        } else if self.scanline + 1 < FRAME_LINES {
            (self.begin_line((self.scanline + 1) as u8), FrameEvent::Idle)
        } else {
            (
                GameboyView {
                    cpu: CPU {
                        ppu: PPU { mode: Mode::Off, ..self.cpu.ppu },
                        mode: Mode::Off,
                        ..self.cpu
                    },
                    mode: Mode::Off,
                    ..self
                },
                FrameEvent::FrameDone,
            )
        }
    }

    /// One machine cycle of the whole machine, and what the platform is told, or the
    /// opcode that names no instruction.
    ///
    /// While the display is off the video generator is in `Off` and only the processor
    /// runs; the cycle in which the display is found switched off in another phase puts
    /// the video generator in `Off`, tells the platform, and does not run the processor.
    /// While the display is on, the video generator moves first; unless the frame is
    /// done, the processor then runs one machine cycle, which the phase counts.
    pub open spec fn step_frame(self) -> (GameboyView, Result<FrameEvent, InvalidInstruction>) {
        let (moved, event) = self.advance_video();
        if !self.lcd_on() {
            if self.mode != Mode::Off {
                (
                    GameboyView { scanline: 0, ..self.enter(Mode::Off, 0) },
                    Ok(FrameEvent::DisplayOff),
                )
            } else {
                (
                    GameboyView { cpu: self.cpu.spec_step().0, ..self },
                    match self.cpu.spec_step().1 {
                        Ok(_) => Ok(FrameEvent::Idle),
                        Err(invalid) => Err(invalid),
                    },
                )
            }
        } else if event == FrameEvent::FrameDone {
            (moved, Ok(event))
        } else {
            (
                GameboyView {
                    cpu: moved.cpu.spec_step().0,
                    steps_left: (moved.steps_left - 1) as u16,
                    ..moved
                },
                match moved.cpu.spec_step().1 {
                    Ok(_) => Ok(event),
                    Err(invalid) => Err(invalid),
                },
            )
        }
    }
}

/// The four bytes of a word, the lowest first.
pub open spec fn le_bytes(value: u32) -> Seq<u8> {
    seq![
        (value % 256) as u8,
        ((value / 0x100) % 256) as u8,
        ((value / 0x1_0000) % 256) as u8,
        (value / 0x100_0000) as u8,
    ]
}

/// The four bytes of a word, the highest first.
pub open spec fn be_bytes(value: u32) -> Seq<u8> {
    seq![
        (value / 0x100_0000) as u8,
        ((value / 0x1_0000) % 256) as u8,
        ((value / 0x100) % 256) as u8,
        (value % 256) as u8,
    ]
}

/// The four bytes are those of the word in one of the two byte orders.
pub open spec fn is_native(bytes: Seq<u8>, value: u32) -> bool {
    bytes == le_bytes(value) || bytes == be_bytes(value)
}

/// Calls `byteorder::NativeEndian::write_u32` on a buffer of four bytes. That type is
/// the crate's `LittleEndian` or its `BigEndian`, as the target is; the contract claims
/// only that the buffer then holds the word's four bytes in one of these two orders.
#[verifier::external_body]
fn native_bytes(value: u32) -> (bytes: [u8; 4])
    ensures
        is_native(bytes@, value),
{
    let mut bytes = [0u8; 4];
    NativeEndian::write_u32(&mut bytes, value);
    bytes
}

impl Gameboy {
    /// The machine is fit to run.
    pub open spec fn wf(&self) -> bool {
        self@.wf()
    }

    /// The machine at power-on: all memory and registers zero, the boot ROM shown, the
    /// display off.
    pub open spec fn spec_new() -> GameboyView {
        GameboyView {
            cpu: CPU::spec_new(PPU::spec_new(IORegisters::reset())),
            mode: Mode::Off,
            scanline: 0,
            steps_left: 0,
            sprites: Seq::empty(),
            line: Seq::empty(),
        }
    }

    /// The machine at power-on.
    pub fn new() -> (gameboy: Gameboy)
        ensures
            gameboy@ == Gameboy::spec_new(),
            gameboy.wf(),
    {
        let ppu = PPU::new(IORegisters::default());
        let cpu = CPU::new(ppu);
        proof {
            crate::instructions::lemma_single_cycle();
        }
        Gameboy {
            cpu,
            mode: Mode::Off,
            scanline: 0,
            steps_left: 0,
            sprites: Vec::new(),
            line: Vec::new(),
        }
    }

    /// Copies a boot ROM image to the start of the boot ROM.
    pub fn load_boot_rom(&mut self, binary: &[u8])
        requires
            binary@.len() <= 0x4000,
        ensures
            forall|i: int|
                0 <= i < 0x4000 ==> final(self).cpu.memory.boot_rom[i] == (if i < binary@.len() {
                    binary@[i]
                } else {
                    old(self).cpu.memory.boot_rom[i]
                }),
            final(self)@ == (GameboyView {
                cpu: CPU {
                    memory: Memory {
                        boot_rom: final(self).cpu.memory.boot_rom,
                        ..old(self).cpu.memory
                    },
                    ..old(self).cpu
                },
                ..old(self)@
            }),
    {
        let mut i: usize = 0;
        while i < binary.len()
            invariant
                i <= binary@.len() <= 0x4000,
                forall|k: int|
                    0 <= k < 0x4000 ==> self.cpu.memory.boot_rom[k] == (if k < i {
                        binary@[k]
                    } else {
                        old(self).cpu.memory.boot_rom[k]
                    }),
                self@ == (GameboyView {
                    cpu: CPU {
                        memory: Memory {
                            boot_rom: self.cpu.memory.boot_rom,
                            ..old(self).cpu.memory
                        },
                        ..old(self).cpu
                    },
                    ..old(self)@
                }),
            decreases binary@.len() - i,
        {
            self.cpu.memory.boot_rom[i] = binary[i];
            i += 1;
        }
    }

    /// Copies a cartridge image into the two ROM banks: its first `0x4000` bytes into
    /// the first bank, the rest into the second.
    pub fn load_cartridge(&mut self, binary: &[u8])
        requires
            binary@.len() <= 0x8000,
        ensures
            forall|i: int|
                0 <= i < 0x4000 ==> final(self).cpu.memory.rom_bank0[i] == (if i < binary@.len() {
                    binary@[i]
                } else {
                    old(self).cpu.memory.rom_bank0[i]
                }),
            forall|i: int|
                0 <= i < 0x4000 ==> final(self).cpu.memory.rom_bank1[i] == (if 0x4000 + i
                    < binary@.len() {
                    binary@[0x4000 + i]
                } else {
                    old(self).cpu.memory.rom_bank1[i]
                }),
            final(self)@ == (GameboyView {
                cpu: CPU {
                    memory: Memory {
                        rom_bank0: final(self).cpu.memory.rom_bank0,
                        rom_bank1: final(self).cpu.memory.rom_bank1,
                        ..old(self).cpu.memory
                    },
                    ..old(self).cpu
                },
                ..old(self)@
            }),
    {
        let mut i: usize = 0;
        while i < binary.len()
            invariant
                i <= binary@.len() <= 0x8000,
                forall|k: int|
                    0 <= k < 0x4000 ==> self.cpu.memory.rom_bank0[k] == (if k < i {
                        binary@[k]
                    } else {
                        old(self).cpu.memory.rom_bank0[k]
                    }),
                forall|k: int|
                    0 <= k < 0x4000 ==> self.cpu.memory.rom_bank1[k] == (if 0x4000 + k < i {
                        binary@[0x4000 + k]
                    } else {
                        old(self).cpu.memory.rom_bank1[k]
                    }),
                self@ == (GameboyView {
                    cpu: CPU {
                        memory: Memory {
                            rom_bank0: self.cpu.memory.rom_bank0,
                            rom_bank1: self.cpu.memory.rom_bank1,
                            ..old(self).cpu.memory
                        },
                        ..old(self).cpu
                    },
                    ..old(self)@
                }),
            decreases binary@.len() - i,
        {
            if i < 0x4000 {
                self.cpu.memory.rom_bank0[i] = binary[i];
            } else {
                self.cpu.memory.rom_bank1[i - 0x4000] = binary[i];
            }
            i += 1;
        }
    }

    /// Runs the processor for one machine cycle; the video generator stands still.
    pub fn step_gameboy(&mut self) -> (result: Result<(), InvalidInstruction>)
        requires
            old(self).cpu.wf(),
        ensures
            (final(self).cpu, result) == old(self).cpu.spec_step(),
            final(self)@ == (GameboyView { cpu: final(self).cpu, ..old(self)@ }),
            final(self).cpu.wf(),
    {
        self.cpu.step(false)
    }

    /// Takes an event from the platform. Returns whether the user asked to leave.
    pub fn handle_input(&mut self, event: InputEvent) -> (quit: bool)
        ensures
            quit == (event == InputEvent::Quit),
            final(self)@ == old(self)@.with_io(old(self).cpu.ppu.io_registers.spec_input(event)),
            old(self).wf() ==> final(self).wf(),
    {
        match event {
            InputEvent::Quit => {
                return true;
            },
            InputEvent::Press(button) => {
                match button {
                    Button::Down => {
                        if self.cpu.ppu.io_registers.joypad.select_direction == 0 {
                            self.cpu.ppu.io_registers.joypad.down_or_start = 1;
                        }
                    },
                    Button::Up => {
                        if self.cpu.ppu.io_registers.joypad.select_direction == 0 {
                            self.cpu.ppu.io_registers.joypad.up_or_select = 1;
                        }
                    },
                    Button::Left => {
                        if self.cpu.ppu.io_registers.joypad.select_direction == 0 {
                            self.cpu.ppu.io_registers.joypad.left_or_b = 1;
                        }
                    },
                    Button::Right => {
                        if self.cpu.ppu.io_registers.joypad.select_direction == 0 {
                            self.cpu.ppu.io_registers.joypad.right_or_a = 1;
                        }
                    },
                    Button::Start => {
                        if self.cpu.ppu.io_registers.joypad.select_action == 0 {
                            self.cpu.ppu.io_registers.joypad.down_or_start = 1;
                        }
                    },
                    Button::Select => {
                        if self.cpu.ppu.io_registers.joypad.select_action == 0 {
                            self.cpu.ppu.io_registers.joypad.up_or_select = 1;
                        }
                    },
                    Button::B => {
                        if self.cpu.ppu.io_registers.joypad.select_action == 0 {
                            self.cpu.ppu.io_registers.joypad.left_or_b = 1;
                        }
                    },
                    Button::A => {
                        if self.cpu.ppu.io_registers.joypad.select_action == 0 {
                            self.cpu.ppu.io_registers.joypad.right_or_a = 1;
                        }
                    },
                }
            },
            InputEvent::Release(button) => {
                match button {
                    Button::Down => {
                        if self.cpu.ppu.io_registers.joypad.select_direction == 0 {
                            self.cpu.ppu.io_registers.joypad.down_or_start = 0;
                            self.cpu.ppu.io_registers.interrupt_flag.joypad = 1;
                        }
                    },
                    Button::Up => {
                        if self.cpu.ppu.io_registers.joypad.select_direction == 0 {
                            self.cpu.ppu.io_registers.joypad.up_or_select = 0;
                            self.cpu.ppu.io_registers.interrupt_flag.joypad = 1;
                        }
                    },
                    Button::Left => {
                        if self.cpu.ppu.io_registers.joypad.select_direction == 0 {
                            self.cpu.ppu.io_registers.joypad.left_or_b = 0;
                            self.cpu.ppu.io_registers.interrupt_flag.joypad = 1;
                        }
                    },
                    Button::Right => {
                        if self.cpu.ppu.io_registers.joypad.select_direction == 0 {
                            self.cpu.ppu.io_registers.joypad.right_or_a = 0;
                            self.cpu.ppu.io_registers.interrupt_flag.joypad = 1;
                        }
                    },
                    Button::Start => {
                        if self.cpu.ppu.io_registers.joypad.select_action == 0 {
                            self.cpu.ppu.io_registers.joypad.down_or_start = 0;
                            self.cpu.ppu.io_registers.interrupt_flag.joypad = 1;
                        }
                    },
                    Button::Select => {
                        if self.cpu.ppu.io_registers.joypad.select_action == 0 {
                            self.cpu.ppu.io_registers.joypad.up_or_select = 0;
                            self.cpu.ppu.io_registers.interrupt_flag.joypad = 1;
                        }
                    },
                    Button::B => {
                        if self.cpu.ppu.io_registers.joypad.select_action == 0 {
                            self.cpu.ppu.io_registers.joypad.left_or_b = 0;
                            self.cpu.ppu.io_registers.interrupt_flag.joypad = 1;
                        }
                    },
                    Button::A => {
                        if self.cpu.ppu.io_registers.joypad.select_action == 0 {
                            self.cpu.ppu.io_registers.joypad.right_or_a = 0;
                            self.cpu.ppu.io_registers.interrupt_flag.joypad = 1;
                        }
                    },
                }
            },
            InputEvent::Other => {},
        }
        false
    }

    /// Puts the video generator in a phase for `steps` machine cycles.
    fn enter(&mut self, mode: Mode, steps: u16)
        ensures
            final(self)@ == old(self)@.enter(mode, steps),
            old(self).cpu.wf() ==> final(self).cpu.wf(),
    {
        self.cpu.ppu.io_registers.enter_mode(mode);
        self.cpu.ppu.mode = mode;
        self.cpu.mode = mode;
        self.mode = mode;
        self.steps_left = steps;
    }

    /// Starts a scanline.
    fn begin_line(&mut self, line: u8)
        requires
            line < FRAME_LINES,
            old(self).cpu.wf(),
        ensures
            final(self)@ == old(self)@.begin_line(line),
            final(self).wf(),
            final(self).steps_left > 0,
    {
        self.scanline = line;
        self.cpu.ppu.io_registers.start_line(line);
        if line < VISIBLE_LINES {
            self.sprites = self.cpu.ppu.object_search();
            self.enter(Mode::Mode2, MODE2_CYCLES);
        } else {
            if line == VISIBLE_LINES {
                self.cpu.ppu.io_registers.begin_vblank();
            }
            self.enter(Mode::Mode1, MODE1_CYCLES);
        }
    }

    /// Moves the video generator on before the processor's next machine cycle.
    fn advance_video(&mut self) -> (event: FrameEvent)
        requires
            old(self).wf(),
        ensures
            (final(self)@, event) == old(self)@.advance_video(),
            final(self).wf(),
            event != FrameEvent::FrameDone ==> final(self).steps_left > 0,
            event != FrameEvent::DisplayOff,
    {
        match self.mode {
            Mode::Off => {
                self.begin_line(0);
                FrameEvent::Idle
            },
            _ => {
                if self.steps_left != 0 {
                    return FrameEvent::Idle;
                }
                match self.mode {
                    Mode::Mode2 => {
                        let mut sprites: Vec<OamEntry> = Vec::new();
                        let mut k: usize = 0;
                        while k < self.sprites.len()
                            invariant
                                k <= self.sprites.len(),
                                *self == *old(self),
                                sprites@ == self.sprites@.take(k as int),
                            decreases self.sprites.len() - k,
                        {
                            sprites.push(self.sprites[k]);
                            assert(sprites@ =~= self.sprites@.take(k + 1));
                            k += 1;
                        }
                        assert(sprites@ =~= self.sprites@);
                        self.line = self.cpu.ppu.draw(sprites);
                        self.enter(Mode::Mode3, MODE3_CYCLES);
                        FrameEvent::Line
                    },
                    Mode::Mode3 => {
                        self.enter(Mode::Mode0, MODE0_CYCLES);
                        FrameEvent::Idle
                    },
                    _ => {
                        if self.scanline + 1 < FRAME_LINES {
                            self.begin_line(self.scanline + 1);
                            FrameEvent::Idle
                        } else {
                            self.cpu.ppu.mode = Mode::Off;
                            self.cpu.mode = Mode::Off;
                            self.mode = Mode::Off;
                            FrameEvent::FrameDone
                        }
                    },
                }
            },
        }
    }

    /// Runs the whole machine for one machine cycle. Returns what the platform is to
    /// do, or the opcode that names no instruction.
    pub fn step_frame(&mut self) -> (result: Result<FrameEvent, InvalidInstruction>)
        requires
            old(self).wf(),
        ensures
            (final(self)@, result) == old(self)@.step_frame(),
            final(self).wf(),
    {
        if self.cpu.ppu.io_registers.lcdc.lcd_ppu_enable == 0 {
            match self.mode {
                Mode::Off => {
                    match self.cpu.step(false) {
                        Ok(_) => Ok(FrameEvent::Idle),
                        Err(invalid) => Err(invalid),
                    }
                },
                _ => {
                    self.enter(Mode::Off, 0);
                    self.scanline = 0;
                    Ok(FrameEvent::DisplayOff)
                },
            }
        } else {
            let event = self.advance_video();
            match event {
                FrameEvent::FrameDone => Ok(event),
                _ => {
                    self.steps_left = self.steps_left - 1;
                    match self.cpu.step(false) {
                        Ok(_) => Ok(event),
                        Err(invalid) => Err(invalid),
                    }
                },
            }
        }
    }

    /// Writes a line of pixels into a frame buffer of 144 lines of 160 pixels, each
    /// pixel as the four bytes of its `0xAARRGGBB` value in the byte order of the
    /// machine that runs this.
    pub fn write_line_to_frame_buffer(
        frame_buffer: &mut [u8; FRAME_BYTES],
        color_line: Vec<GameboyColor>,
        scanline: u8,
    )
        requires
            scanline < VISIBLE_LINES,
            color_line.len() <= 160,
        ensures
            forall|index: int|
                0 <= index < color_line.len() ==> is_native(
                    #[trigger] final(frame_buffer)@.subrange(
                        scanline * 640 + 4 * index,
                        scanline * 640 + 4 * index + 4,
                    ),
                    color_line[index].spec_argb(),
                ),
            forall|at: int|
                0 <= at < 92160 && !(scanline * 640 <= at < scanline * 640 + 4 * color_line.len())
                    ==> final(frame_buffer)[at] == old(frame_buffer)[at],
    {
        let mut index: usize = 0;
        while index < color_line.len()
            invariant
                index <= color_line.len() <= 160,
                scanline < VISIBLE_LINES,
                forall|k: int|
                    0 <= k < index ==> is_native(
                        #[trigger] frame_buffer@.subrange(
                            scanline * 640 + 4 * k,
                            scanline * 640 + 4 * k + 4,
                        ),
                        color_line[k].spec_argb(),
                    ),
                forall|at: int|
                    0 <= at < 92160 && !(scanline * 640 <= at < scanline * 640 + 4 * index)
                        ==> frame_buffer[at] == old(frame_buffer)[at],
            decreases color_line.len() - index,
        {
            let begin_index: usize = (scanline as usize) * 160 * 4 + 4 * index;
            let bytes: [u8; 4] = native_bytes(color_line[index].argb());
            let ghost before = frame_buffer@;
            frame_buffer[begin_index] = bytes[0];
            frame_buffer[begin_index + 1] = bytes[1];
            frame_buffer[begin_index + 2] = bytes[2];
            frame_buffer[begin_index + 3] = bytes[3];
            proof {
                assert(frame_buffer@.subrange(begin_index as int, begin_index + 4) =~= bytes@);
                assert forall|k: int| 0 <= k < index implies is_native(
                    #[trigger] frame_buffer@.subrange(
                        scanline * 640 + 4 * k,
                        scanline * 640 + 4 * k + 4,
                    ),
                    color_line[k].spec_argb(),
                ) by {
                    assert(frame_buffer@.subrange(scanline * 640 + 4 * k, scanline * 640 + 4 * k + 4)
                        =~= before.subrange(scanline * 640 + 4 * k, scanline * 640 + 4 * k + 4));
                }
            }
            index += 1;
        }
    }
}

impl Default for Gameboy {
    fn default() -> (gameboy: Gameboy)
        ensures
            gameboy@ == Gameboy::spec_new(),
    {
        Gameboy::new()
    }
}

} // verus!
