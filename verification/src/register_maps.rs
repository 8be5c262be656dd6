use crate::bits::{lemma_byte_bits, lemma_low_bits, zeros};
use crate::ppu::Mode;
use vstd::array::spec_array_update;
use vstd::prelude::*;
use vstd::std_specs::convert::FromSpecImpl;

verus! {

/// The interrupt sources that the CPU may service, one bit each (address `0xFFFF`).
#[derive(Copy, Clone, Debug, PartialEq, Eq, Structural)]
pub struct InterruptEnable {
    /// Vertical blank.
    pub vblank: u8,
    /// LCD status.
    pub lcd_stat: u8,
    /// Timer overflow.
    pub timer: u8,
    /// Serial transfer.
    pub serial: u8,
    /// Joypad.
    pub joypad: u8,
}

impl InterruptEnable {
    /// Every field fits the bits that the register gives it.
    pub open spec fn wf(self) -> bool {
        self.vblank <= 1
            && self.lcd_stat <= 1
            && self.timer <= 1
            && self.serial <= 1
            && self.joypad <= 1
    }

    /// The register byte. Of each field only the bits that the register has for it
    /// take part.
    pub open spec fn bits(self) -> u8 {
        (self.vblank % 2
            + (self.lcd_stat % 2) * 2
            + (self.timer % 2) * 4
            + (self.serial % 2) * 8
            + (self.joypad % 2) * 16) as u8
    }

    /// The fields that a register byte stands for; bits 5 to 7 are dropped.
    pub open spec fn from_bits(item: u8) -> InterruptEnable {
        InterruptEnable {
            vblank: item % 2,
            lcd_stat: (item / 2) % 2,
            timer: (item / 4) % 2,
            serial: (item / 8) % 2,
            joypad: (item / 16) % 2,
        }
    }
}

impl Default for InterruptEnable {
    fn default() -> (r: InterruptEnable)
        ensures
            r == InterruptEnable::from_bits(0),
    {
        InterruptEnable { vblank: 0, lcd_stat: 0, timer: 0, serial: 0, joypad: 0 }
    }
}

impl From<InterruptEnable> for u8 {
    fn from(item: InterruptEnable) -> (r: u8) {
        item.vblank % 2
            + (item.lcd_stat % 2) * 2
            + (item.timer % 2) * 4
            + (item.serial % 2) * 8
            + (item.joypad % 2) * 16
    }
}

impl FromSpecImpl<InterruptEnable> for u8 {
    open spec fn obeys_from_spec() -> bool {
        true
    }

    open spec fn from_spec(item: InterruptEnable) -> u8 {
        item.bits()
    }
}

impl From<u8> for InterruptEnable {
    fn from(item: u8) -> (r: InterruptEnable) {
        InterruptEnable {
            vblank: item % 2,
            lcd_stat: (item / 2) % 2,
            timer: (item / 4) % 2,
            serial: (item / 8) % 2,
            joypad: (item / 16) % 2,
        }
    }
}

impl FromSpecImpl<u8> for InterruptEnable {
    open spec fn obeys_from_spec() -> bool {
        true
    }

    open spec fn from_spec(item: u8) -> InterruptEnable {
        InterruptEnable::from_bits(item)
    }
}

/// The interrupt sources that are pending, one bit each (address `0xFF0F`).
#[derive(Copy, Clone, Debug, PartialEq, Eq, Structural)]
pub struct InterruptFlag {
    /// Vertical blank.
    pub vblank: u8,
    /// LCD status.
    pub lcd_stat: u8,
    /// Timer overflow.
    pub timer: u8,
    /// Serial transfer.
    pub serial: u8,
    /// Joypad.
    pub joypad: u8,
}

impl InterruptFlag {
    /// Every field fits the bits that the register gives it.
    pub open spec fn wf(self) -> bool {
        self.vblank <= 1
            && self.lcd_stat <= 1
            && self.timer <= 1
            && self.serial <= 1
            && self.joypad <= 1
    }

    /// The register byte. Of each field only the bits that the register has for it
    /// take part.
    pub open spec fn bits(self) -> u8 {
        (self.vblank % 2
            + (self.lcd_stat % 2) * 2
            + (self.timer % 2) * 4
            + (self.serial % 2) * 8
            + (self.joypad % 2) * 16) as u8
    }

    /// The fields that a register byte stands for; bits 5 to 7 are dropped.
    pub open spec fn from_bits(item: u8) -> InterruptFlag {
        InterruptFlag {
            vblank: item % 2,
            lcd_stat: (item / 2) % 2,
            timer: (item / 4) % 2,
            serial: (item / 8) % 2,
            joypad: (item / 16) % 2,
        }
    }
}

impl Default for InterruptFlag {
    fn default() -> (r: InterruptFlag)
        ensures
            r == InterruptFlag::from_bits(0),
    {
        InterruptFlag { vblank: 0, lcd_stat: 0, timer: 0, serial: 0, joypad: 0 }
    }
}

impl From<InterruptFlag> for u8 {
    fn from(item: InterruptFlag) -> (r: u8) {
        item.vblank % 2
            + (item.lcd_stat % 2) * 2
            + (item.timer % 2) * 4
            + (item.serial % 2) * 8
            + (item.joypad % 2) * 16
    }
}

impl FromSpecImpl<InterruptFlag> for u8 {
    open spec fn obeys_from_spec() -> bool {
        true
    }

    open spec fn from_spec(item: InterruptFlag) -> u8 {
        item.bits()
    }
}

impl From<u8> for InterruptFlag {
    fn from(item: u8) -> (r: InterruptFlag) {
        InterruptFlag {
            vblank: item % 2,
            lcd_stat: (item / 2) % 2,
            timer: (item / 4) % 2,
            serial: (item / 8) % 2,
            joypad: (item / 16) % 2,
        }
    }
}

impl FromSpecImpl<u8> for InterruptFlag {
    open spec fn obeys_from_spec() -> bool {
        true
    }

    open spec fn from_spec(item: u8) -> InterruptFlag {
        InterruptFlag::from_bits(item)
    }
}

/// The LCD control register (address `0xFF40`).
#[derive(Copy, Clone, Debug, PartialEq, Eq, Structural)]
pub struct LCDC {
    /// Bit 7: the display and the video generator are on.
    pub lcd_ppu_enable: u8,
    /// Bit 6: the window reads its tile map at `0x9C00`, not `0x9800`.
    pub window_tile_map_area: u8,
    /// Bit 5: the window is shown.
    pub window_enable: u8,
    /// Bit 4: tile numbers are unsigned and count from `0x8000`.
    pub bg_window_tile_data_area: u8,
    /// Bit 3: the background reads its tile map at `0x9C00`, not `0x9800`.
    pub bg_tile_map_area: u8,
    /// Bit 2: objects are 16 rows high, not 8.
    pub obj_size: u8,
    /// Bit 1: objects are shown.
    pub obj_enable: u8,
    /// Bit 0: background and window are shown.
    pub bg_window_enable_priority: u8,
}

impl LCDC {
    /// Every field fits the bits that the register gives it.
    pub open spec fn wf(self) -> bool {
        self.lcd_ppu_enable <= 1
            && self.window_tile_map_area <= 1
            && self.window_enable <= 1
            && self.bg_window_tile_data_area <= 1
            && self.bg_tile_map_area <= 1
            && self.obj_size <= 1
            && self.obj_enable <= 1
            && self.bg_window_enable_priority <= 1
    }

    /// The register byte. Of each field only the bits that the register has for it
    /// take part.
    pub open spec fn bits(self) -> u8 {
        ((self.lcd_ppu_enable % 2) * 128
            + (self.window_tile_map_area % 2) * 64
            + (self.window_enable % 2) * 32
            + (self.bg_window_tile_data_area % 2) * 16
            + (self.bg_tile_map_area % 2) * 8
            + (self.obj_size % 2) * 4
            + (self.obj_enable % 2) * 2
            + self.bg_window_enable_priority % 2) as u8
    }

    /// The fields that a register byte stands for.
    pub open spec fn from_bits(item: u8) -> LCDC {
        LCDC {
            lcd_ppu_enable: (item / 128) % 2,
            window_tile_map_area: (item / 64) % 2,
            window_enable: (item / 32) % 2,
            bg_window_tile_data_area: (item / 16) % 2,
            bg_tile_map_area: (item / 8) % 2,
            obj_size: (item / 4) % 2,
            obj_enable: (item / 2) % 2,
            bg_window_enable_priority: item % 2,
        }
    }
}

impl Default for LCDC {
    fn default() -> (r: LCDC)
        ensures
            r == LCDC::from_bits(0),
    {
        LCDC { lcd_ppu_enable: 0, window_tile_map_area: 0, window_enable: 0, bg_window_tile_data_area: 0, bg_tile_map_area: 0, obj_size: 0, obj_enable: 0, bg_window_enable_priority: 0 }
    }
}

impl From<LCDC> for u8 {
    fn from(item: LCDC) -> (r: u8) {
        (item.lcd_ppu_enable % 2) * 128
            + (item.window_tile_map_area % 2) * 64
            + (item.window_enable % 2) * 32
            + (item.bg_window_tile_data_area % 2) * 16
            + (item.bg_tile_map_area % 2) * 8
            + (item.obj_size % 2) * 4
            + (item.obj_enable % 2) * 2
            + item.bg_window_enable_priority % 2
    }
}

impl FromSpecImpl<LCDC> for u8 {
    open spec fn obeys_from_spec() -> bool {
        true
    }

    open spec fn from_spec(item: LCDC) -> u8 {
        item.bits()
    }
}

impl From<u8> for LCDC {
    fn from(item: u8) -> (r: LCDC) {
        LCDC {
            lcd_ppu_enable: (item / 128) % 2,
            window_tile_map_area: (item / 64) % 2,
            window_enable: (item / 32) % 2,
            bg_window_tile_data_area: (item / 16) % 2,
            bg_tile_map_area: (item / 8) % 2,
            obj_size: (item / 4) % 2,
            obj_enable: (item / 2) % 2,
            bg_window_enable_priority: item % 2,
        }
    }
}

impl FromSpecImpl<u8> for LCDC {
    open spec fn obeys_from_spec() -> bool {
        true
    }

    open spec fn from_spec(item: u8) -> LCDC {
        LCDC::from_bits(item)
    }
}

/// The LCD status register (address `0xFF41`).
#[derive(Copy, Clone, Debug, PartialEq, Eq, Structural)]
pub struct LCDStatus {
    /// Bit 6: request an interrupt when LY equals LYC.
    pub lyc_ly_stat_interrupt: u8,
    /// Bit 5: request an interrupt on entering object search.
    pub mode_two_stat_interrupt: u8,
    /// Bit 4: request an interrupt on entering vertical blank.
    pub mode_one_stat_interrupt: u8,
    /// Bit 3: request an interrupt on entering horizontal blank.
    pub mode_zero_stat_interrupt: u8,
    /// Bit 2: LY equals LYC.
    pub lyc_eq_ly: u8,
    /// Bits 1 and 0: the number of the current mode.
    pub mode: u8,
}

impl LCDStatus {
    /// Every field fits the bits that the register gives it.
    pub open spec fn wf(self) -> bool {
        self.lyc_ly_stat_interrupt <= 1
            && self.mode_two_stat_interrupt <= 1
            && self.mode_one_stat_interrupt <= 1
            && self.mode_zero_stat_interrupt <= 1
            && self.lyc_eq_ly <= 1
            && self.mode <= 3
    }

    /// The register byte. Of each field only the bits that the register has for it
    /// take part.
    pub open spec fn bits(self) -> u8 {
        ((self.lyc_ly_stat_interrupt % 2) * 64
            + (self.mode_two_stat_interrupt % 2) * 32
            + (self.mode_one_stat_interrupt % 2) * 16
            + (self.mode_zero_stat_interrupt % 2) * 8
            + (self.lyc_eq_ly % 2) * 4
            + self.mode % 4) as u8
    }

    /// The fields that a register byte stands for; bit 7 is dropped.
    pub open spec fn from_bits(item: u8) -> LCDStatus {
        LCDStatus {
            lyc_ly_stat_interrupt: (item / 64) % 2,
            mode_two_stat_interrupt: (item / 32) % 2,
            mode_one_stat_interrupt: (item / 16) % 2,
            mode_zero_stat_interrupt: (item / 8) % 2,
            lyc_eq_ly: (item / 4) % 2,
            mode: item % 4,
        }
    }
}

impl Default for LCDStatus {
    fn default() -> (r: LCDStatus)
        ensures
            r == LCDStatus::from_bits(0),
    {
        LCDStatus { lyc_ly_stat_interrupt: 0, mode_two_stat_interrupt: 0, mode_one_stat_interrupt: 0, mode_zero_stat_interrupt: 0, lyc_eq_ly: 0, mode: 0 }
    }
}

impl From<LCDStatus> for u8 {
    fn from(item: LCDStatus) -> (r: u8) {
        (item.lyc_ly_stat_interrupt % 2) * 64
            + (item.mode_two_stat_interrupt % 2) * 32
            + (item.mode_one_stat_interrupt % 2) * 16
            + (item.mode_zero_stat_interrupt % 2) * 8
            + (item.lyc_eq_ly % 2) * 4
            + item.mode % 4
    }
}

impl FromSpecImpl<LCDStatus> for u8 {
    open spec fn obeys_from_spec() -> bool {
        true
    }

    open spec fn from_spec(item: LCDStatus) -> u8 {
        item.bits()
    }
}

impl From<u8> for LCDStatus {
    fn from(item: u8) -> (r: LCDStatus) {
        LCDStatus {
            lyc_ly_stat_interrupt: (item / 64) % 2,
            mode_two_stat_interrupt: (item / 32) % 2,
            mode_one_stat_interrupt: (item / 16) % 2,
            mode_zero_stat_interrupt: (item / 8) % 2,
            lyc_eq_ly: (item / 4) % 2,
            mode: item % 4,
        }
    }
}

impl FromSpecImpl<u8> for LCDStatus {
    open spec fn obeys_from_spec() -> bool {
        true
    }

    open spec fn from_spec(item: u8) -> LCDStatus {
        LCDStatus::from_bits(item)
    }
}

/// The joypad register (address `0xFF00`).
#[derive(Copy, Clone, Debug, PartialEq, Eq, Structural)]
pub struct Joypad {
    /// Bit 5: zero selects the action buttons.
    pub select_action: u8,
    /// Bit 4: zero selects the direction buttons.
    pub select_direction: u8,
    /// Bit 3: the line of Down or Start.
    pub down_or_start: u8,
    /// Bit 2: the line of Up or Select.
    pub up_or_select: u8,
    /// Bit 1: the line of Left or B.
    pub left_or_b: u8,
    /// Bit 0: the line of Right or A.
    pub right_or_a: u8,
}

impl Joypad {
    /// Every field fits the bits that the register gives it.
    pub open spec fn wf(self) -> bool {
        self.select_action <= 1
            && self.select_direction <= 1
            && self.down_or_start <= 1
            && self.up_or_select <= 1
            && self.left_or_b <= 1
            && self.right_or_a <= 1
    }

    /// The register byte. Of each field only the bits that the register has for it
    /// take part.
    pub open spec fn bits(self) -> u8 {
        ((self.select_action % 2) * 32
            + (self.select_direction % 2) * 16
            + (self.down_or_start % 2) * 8
            + (self.up_or_select % 2) * 4
            + (self.left_or_b % 2) * 2
            + self.right_or_a % 2) as u8
    }

    /// The fields that a register byte stands for; bits 6 and 7 are dropped.
    pub open spec fn from_bits(item: u8) -> Joypad {
        Joypad {
            select_action: (item / 32) % 2,
            select_direction: (item / 16) % 2,
            down_or_start: (item / 8) % 2,
            up_or_select: (item / 4) % 2,
            left_or_b: (item / 2) % 2,
            right_or_a: item % 2,
        }
    }
}

impl Default for Joypad {
    fn default() -> (r: Joypad)
        ensures
            r == Joypad::from_bits(0),
    {
        Joypad { select_action: 0, select_direction: 0, down_or_start: 0, up_or_select: 0, left_or_b: 0, right_or_a: 0 }
    }
}

impl From<Joypad> for u8 {
    fn from(item: Joypad) -> (r: u8) {
        (item.select_action % 2) * 32
            + (item.select_direction % 2) * 16
            + (item.down_or_start % 2) * 8
            + (item.up_or_select % 2) * 4
            + (item.left_or_b % 2) * 2
            + item.right_or_a % 2
    }
}

impl FromSpecImpl<Joypad> for u8 {
    open spec fn obeys_from_spec() -> bool {
        true
    }

    open spec fn from_spec(item: Joypad) -> u8 {
        item.bits()
    }
}

impl From<u8> for Joypad {
    fn from(item: u8) -> (r: Joypad) {
        Joypad {
            select_action: (item / 32) % 2,
            select_direction: (item / 16) % 2,
            down_or_start: (item / 8) % 2,
            up_or_select: (item / 4) % 2,
            left_or_b: (item / 2) % 2,
            right_or_a: item % 2,
        }
    }
}

impl FromSpecImpl<u8> for Joypad {
    open spec fn obeys_from_spec() -> bool {
        true
    }

    open spec fn from_spec(item: u8) -> Joypad {
        Joypad::from_bits(item)
    }
}

/// The five interrupt sources, from the one served first to the one served last.
#[derive(Copy, Clone, Debug, PartialEq, Eq, Structural)]
pub enum Interrupt {
    VBlank,
    LcdStat,
    Timer,
    Serial,
    Joypad,
}

impl Interrupt {
    /// The address that the processor jumps to when it serves this source.
    pub open spec fn spec_vector(self) -> u16 {
        match self {
            Interrupt::VBlank => 0x40,
            Interrupt::LcdStat => 0x48,
            Interrupt::Timer => 0x50,
            Interrupt::Serial => 0x58,
            Interrupt::Joypad => 0x60,
        }
    }

    /// The source's place in the order of service, from zero.
    pub open spec fn rank(self) -> int {
        match self {
            Interrupt::VBlank => 0,
            Interrupt::LcdStat => 1,
            Interrupt::Timer => 2,
            Interrupt::Serial => 3,
            Interrupt::Joypad => 4,
        }
    }

    /// The address that the processor jumps to when it serves this source.
    #[verifier::when_used_as_spec(spec_vector)]
    pub fn vector(self) -> (address: u16)
        ensures
            address == self.spec_vector(),
    {
        match self {
            Interrupt::VBlank => 0x40,
            Interrupt::LcdStat => 0x48,
            Interrupt::Timer => 0x50,
            Interrupt::Serial => 0x58,
            Interrupt::Joypad => 0x60,
        }
    }
}

impl InterruptEnable {
    /// The source's bit is set.
    pub open spec fn has(self, source: Interrupt) -> bool {
        match source {
            Interrupt::VBlank => self.vblank == 1,
            Interrupt::LcdStat => self.lcd_stat == 1,
            Interrupt::Timer => self.timer == 1,
            Interrupt::Serial => self.serial == 1,
            Interrupt::Joypad => self.joypad == 1,
        }
    }
}

impl InterruptFlag {
    /// The source's bit is set.
    pub open spec fn has(self, source: Interrupt) -> bool {
        match source {
            Interrupt::VBlank => self.vblank == 1,
            Interrupt::LcdStat => self.lcd_stat == 1,
            Interrupt::Timer => self.timer == 1,
            Interrupt::Serial => self.serial == 1,
            Interrupt::Joypad => self.joypad == 1,
        }
    }

    /// The flags with the source's bit cleared.
    pub open spec fn without(self, source: Interrupt) -> InterruptFlag {
        match source {
            Interrupt::VBlank => InterruptFlag { vblank: 0, ..self },
            Interrupt::LcdStat => InterruptFlag { lcd_stat: 0, ..self },
            Interrupt::Timer => InterruptFlag { timer: 0, ..self },
            Interrupt::Serial => InterruptFlag { serial: 0, ..self },
            Interrupt::Joypad => InterruptFlag { joypad: 0, ..self },
        }
    }

    /// The flags with the source's bit set.
    pub open spec fn with(self, source: Interrupt) -> InterruptFlag {
        match source {
            Interrupt::VBlank => InterruptFlag { vblank: 1, ..self },
            Interrupt::LcdStat => InterruptFlag { lcd_stat: 1, ..self },
            Interrupt::Timer => InterruptFlag { timer: 1, ..self },
            Interrupt::Serial => InterruptFlag { serial: 1, ..self },
            Interrupt::Joypad => InterruptFlag { joypad: 1, ..self },
        }
    }
}

/// The four rates at which the timer counter may run, named by the number of clock
/// ticks between two increments.
#[derive(Copy, Clone, Debug, PartialEq, Eq, Structural)]
pub enum InputClockSelect {
    Mode1024,
    Mode16,
    Mode64,
    Mode256,
}

impl InputClockSelect {
    /// The two-bit number that selects this rate in the timer control register.
    pub open spec fn code(self) -> u8 {
        match self {
            InputClockSelect::Mode1024 => 0,
            InputClockSelect::Mode16 => 1,
            InputClockSelect::Mode64 => 2,
            InputClockSelect::Mode256 => 3,
        }
    }

    /// The rate that a two-bit number selects.
    pub open spec fn from_code(code: u8) -> InputClockSelect {
        if code % 4 == 0 {
            InputClockSelect::Mode1024
        } else if code % 4 == 1 {
            InputClockSelect::Mode16
        } else if code % 4 == 2 {
            InputClockSelect::Mode64
        } else {
            InputClockSelect::Mode256
        }
    }

    /// The number of clock ticks between two increments of the timer counter.
    pub open spec fn spec_period(self) -> u16 {
        match self {
            InputClockSelect::Mode1024 => 1024,
            InputClockSelect::Mode16 => 16,
            InputClockSelect::Mode64 => 64,
            InputClockSelect::Mode256 => 256,
        }
    }

    /// The number of clock ticks between two increments of the timer counter.
    #[verifier::when_used_as_spec(spec_period)]
    pub fn period(self) -> (ticks: u16)
        ensures
            ticks == self.spec_period(),
    {
        match self {
            InputClockSelect::Mode1024 => 1024,
            InputClockSelect::Mode16 => 16,
            InputClockSelect::Mode64 => 64,
            InputClockSelect::Mode256 => 256,
        }
    }
}

impl Default for InputClockSelect {
    fn default() -> (r: InputClockSelect)
        ensures
            r == InputClockSelect::Mode1024,
    {
        InputClockSelect::Mode1024
    }
}

/// The timer control register (address `0xFF07`).
#[derive(Copy, Clone, Debug, PartialEq, Eq, Structural)]
pub struct TAC {
    /// Bit 2: the timer counter runs.
    pub timer_enable: bool,
    /// Bits 1 and 0: the rate of the timer counter.
    pub input_clock_select: InputClockSelect,
}

impl TAC {
    /// The register byte.
    pub open spec fn bits(self) -> u8 {
        ((if self.timer_enable { 4int } else { 0int }) + self.input_clock_select.code()) as u8
    }

    /// The fields that a register byte stands for; bits 3 to 7 are dropped.
    pub open spec fn from_bits(val: u8) -> TAC {
        TAC {
            timer_enable: (val / 4) % 2 == 1,
            input_clock_select: InputClockSelect::from_code(val % 4),
        }
    }
}

impl Default for TAC {
    fn default() -> (r: TAC)
        ensures
            r == TAC::from_bits(0),
    {
        TAC { timer_enable: false, input_clock_select: InputClockSelect::Mode1024 }
    }
}

impl From<u8> for TAC {
    fn from(val: u8) -> (r: TAC) {
        let clock_select: u8 = val % 4;
        TAC {
            timer_enable: (val / 4) % 2 == 1,
            input_clock_select: if clock_select == 0 {
                InputClockSelect::Mode1024
            } else if clock_select == 1 {
                InputClockSelect::Mode16
            } else if clock_select == 2 {
                InputClockSelect::Mode64
            } else {
                InputClockSelect::Mode256
            },
        }
    }
}

impl FromSpecImpl<u8> for TAC {
    open spec fn obeys_from_spec() -> bool {
        true
    }

    open spec fn from_spec(val: u8) -> TAC {
        TAC::from_bits(val)
    }
}

impl From<TAC> for u8 {
    fn from(val: TAC) -> (r: u8) {
        let enable: u8 = if val.timer_enable { 4 } else { 0 };
        let select: u8 = match val.input_clock_select {
            InputClockSelect::Mode1024 => 0,
            InputClockSelect::Mode16 => 1,
            InputClockSelect::Mode64 => 2,
            InputClockSelect::Mode256 => 3,
        };
        enable + select
    }
}

impl FromSpecImpl<TAC> for u8 {
    open spec fn obeys_from_spec() -> bool {
        true
    }

    open spec fn from_spec(val: TAC) -> u8 {
        val.bits()
    }
}

/// The divider and the timer counter (addresses `0xFF04` to `0xFF07`).
#[derive(Copy, Clone, Debug, PartialEq, Eq, Structural)]
pub struct Timer {
    /// The timer counter (address `0xFF05`).
    pub tima: u8,
    /// The value that the timer counter restarts from (address `0xFF06`).
    pub tma: u8,
    /// The timer control register (address `0xFF07`).
    pub tac: TAC,
    /// The free-running clock counter. Its high byte is the divider (address `0xFF04`).
    pub timer_counter: u16,
}

impl Timer {
    /// The timer counter is due for an increment on this machine cycle: it runs, and the
    /// clock counter is within four ticks of the next multiple of the selected period.
    pub open spec fn increment_due(self) -> bool {
        self.tac.timer_enable && match self.tac.input_clock_select {
            InputClockSelect::Mode1024 => self.timer_counter % 1024 >= 1020,
            InputClockSelect::Mode16 => self.timer_counter % 16 >= 12,
            InputClockSelect::Mode64 => self.timer_counter % 64 >= 60,
            InputClockSelect::Mode256 => self.timer_counter % 256 >= 252,
        }
    }

    /// The timer counter overflows on this machine cycle.
    pub open spec fn overflows(self) -> bool {
        self.increment_due() && self.tima == 0xFF
    }

    /// The timer after one machine cycle: the clock counter advances by four ticks and
    /// wraps at sixteen bits; the timer counter, where due, goes up by one, or restarts
    /// from `tma` where it was at `0xFF`.
    pub open spec fn spec_tick(self) -> Timer {
        Timer {
            timer_counter: self.timer_counter.wrapping_add(4),
            tima: if !self.increment_due() {
                self.tima
            } else if self.tima == 0xFF {
                self.tma
            } else {
                (self.tima + 1) as u8
            },
            ..self
        }
    }

    /// Runs the timer for one machine cycle. Returns whether the timer counter
    /// overflowed, which is when a timer interrupt is to be requested.
    pub fn tick_timer(&mut self) -> (overflow: bool)
        ensures
            *final(self) == old(self).spec_tick(),
            overflow == old(self).overflows(),
    {
        let old_timer: u16 = self.timer_counter;
        self.timer_counter = self.timer_counter.wrapping_add(4);
        if self.tac.timer_enable {
            let max_clock_count: u16 = self.tac.input_clock_select.period();
            if old_timer % max_clock_count >= max_clock_count - 4 {
                if self.tima == 0xFF {
                    self.tima = self.tma;
                    true
                } else {
                    self.tima += 1;
                    false
                }
            } else {
                false
            }
        } else {
            false
        }
    }
}

impl Default for Timer {
    fn default() -> (r: Timer)
        ensures
            r == (Timer { tima: 0, tma: 0, tac: TAC::from_bits(0), timer_counter: 0 }),
    {
        Timer { tima: 0, tma: 0, tac: TAC::default(), timer_counter: 0 }
    }
}

/// The block of memory-mapped registers at `0xFF00` to `0xFF7F`.
#[derive(Copy, Clone, Debug)]
pub struct IORegisters {
    /// A transfer into the object table has been started.
    pub dma_in_progress: bool,
    /// The machine cycles since the transfer was started.
    pub clock_count_for_dma: u8,
    /// `0xFF00`
    pub joypad: Joypad,
    /// `0xFF01` and `0xFF02`
    pub communication: [u8; 2],
    /// `0xFF04` to `0xFF07`
    pub timer: Timer,
    /// `0xFF0F`
    pub interrupt_flag: InterruptFlag,
    /// `0xFF10` to `0xFF26`
    pub sound: [u8; 0x17],
    /// `0xFF30` to `0xFF3F`
    pub waveform_ram: [u8; 0x10],
    /// `0xFF40`
    pub lcdc: LCDC,
    /// `0xFF41`
    pub lcd_status: LCDStatus,
    /// `0xFF42`
    pub scy: u8,
    /// `0xFF43`
    pub scx: u8,
    /// `0xFF44`
    pub ly: u8,
    /// `0xFF45`
    pub lyc: u8,
    /// `0xFF46`
    pub dma: u8,
    /// `0xFF47`
    pub bgp: u8,
    /// `0xFF48`
    pub obp0: u8,
    /// `0xFF49`
    pub obp1: u8,
    /// `0xFF4A`
    pub wy: u8,
    /// `0xFF4B`
    pub wx: u8,
    /// `0xFF4F`
    pub vbk: u8,
    /// `0xFF50`
    pub use_boot_rom: u8,
    /// `0xFF51` to `0xFF70`
    pub other1: [u8; 0x20],
    /// `0xFF71` to `0xFF7F`
    pub other2: [u8; 0x10],
}

impl IORegisters {
    /// The register block after power-on: every register reads zero.
    pub open spec fn reset() -> IORegisters {
        IORegisters {
            dma_in_progress: false,
            clock_count_for_dma: 0,
            joypad: Joypad::from_bits(0),
            communication: zeros::<2>(),
            timer: Timer { tima: 0, tma: 0, tac: TAC::from_bits(0), timer_counter: 0 },
            interrupt_flag: InterruptFlag::from_bits(0),
            sound: zeros::<0x17>(),
            waveform_ram: zeros::<0x10>(),
            lcdc: LCDC::from_bits(0),
            lcd_status: LCDStatus::from_bits(0),
            scy: 0,
            scx: 0,
            ly: 0,
            lyc: 0,
            dma: 0,
            bgp: 0,
            obp0: 0,
            obp1: 0,
            wy: 0,
            wx: 0,
            vbk: 0,
            use_boot_rom: 0,
            other1: zeros::<0x20>(),
            other2: zeros::<0x10>(),
        }
    }

    /// The byte that a read of bus address `index` finds. An address that holds no
    /// register reads zero, but for `0xFF4D`, which reads `0xFF`.
    pub open spec fn spec_get(self, index: usize) -> u8 {
        if index == 0xFF00 {
            self.joypad.bits()
        } else if index == 0xFF01 || index == 0xFF02 {
            self.communication[index - 0xFF01]
        } else if index == 0xFF04 {
            (self.timer.timer_counter / 256) as u8
        } else if index == 0xFF05 {
            self.timer.tima
        } else if index == 0xFF06 {
            self.timer.tma
        } else if index == 0xFF07 {
            self.timer.tac.bits()
        } else if index == 0xFF0F {
            self.interrupt_flag.bits()
        } else if 0xFF10 <= index <= 0xFF26 {
            self.sound[index - 0xFF10]
        } else if 0xFF30 <= index <= 0xFF3F {
            self.waveform_ram[index - 0xFF30]
        } else if index == 0xFF40 {
            self.lcdc.bits()
        } else if index == 0xFF41 {
            self.lcd_status.bits()
        } else if index == 0xFF42 {
            self.scy
        } else if index == 0xFF43 {
            self.scx
        } else if index == 0xFF44 {
            self.ly
        } else if index == 0xFF45 {
            self.lyc
        } else if index == 0xFF46 {
            self.dma
        } else if index == 0xFF47 {
            self.bgp
        } else if index == 0xFF48 {
            self.obp0
        } else if index == 0xFF49 {
            self.obp1
        } else if index == 0xFF4A {
            self.wy
        } else if index == 0xFF4B {
            self.wx
        } else if index == 0xFF4D {
            0xFF
        } else if index == 0xFF4F {
            self.vbk
        } else if index == 0xFF50 {
            self.use_boot_rom
        } else if 0xFF51 <= index <= 0xFF70 {
            self.other1[index - 0xFF51]
        } else if 0xFF71 <= index <= 0xFF7F {
            self.other2[index - 0xFF71]
        } else {
            0
        }
    }

    /// The register block after a write of `value` to bus address `index`.
    ///
    /// A write to the divider clears the whole clock counter, whatever the value. A write
    /// to the DMA register of a value up to `0xDF` marks a transfer as started. A write to
    /// the boot-ROM latch also releases every joypad line. A write to an address that
    /// holds no register changes nothing.
    pub open spec fn spec_set(self, index: usize, value: u8) -> IORegisters {
        if index == 0xFF00 {
            IORegisters { joypad: Joypad::from_bits(value), ..self }
        } else if index == 0xFF01 || index == 0xFF02 {
            IORegisters {
                communication: spec_array_update(self.communication, index - 0xFF01, value),
                ..self
            }
        } else if index == 0xFF04 {
            IORegisters { timer: Timer { timer_counter: 0, ..self.timer }, ..self }
        } else if index == 0xFF05 {
            IORegisters { timer: Timer { tima: value, ..self.timer }, ..self }
        } else if index == 0xFF06 {
            IORegisters { timer: Timer { tma: value, ..self.timer }, ..self }
        } else if index == 0xFF07 {
            IORegisters { timer: Timer { tac: TAC::from_bits(value), ..self.timer }, ..self }
        } else if index == 0xFF0F {
            IORegisters { interrupt_flag: InterruptFlag::from_bits(value), ..self }
        } else if 0xFF10 <= index <= 0xFF26 {
            IORegisters { sound: spec_array_update(self.sound, index - 0xFF10, value), ..self }
        } else if 0xFF30 <= index <= 0xFF3F {
            IORegisters {
                waveform_ram: spec_array_update(self.waveform_ram, index - 0xFF30, value),
                ..self
            }
        } else if index == 0xFF40 {
            IORegisters { lcdc: LCDC::from_bits(value), ..self }
        } else if index == 0xFF41 {
            IORegisters { lcd_status: LCDStatus::from_bits(value), ..self }
        } else if index == 0xFF42 {
            IORegisters { scy: value, ..self }
        } else if index == 0xFF43 {
            IORegisters { scx: value, ..self }
        } else if index == 0xFF44 {
            IORegisters { ly: value, ..self }
        } else if index == 0xFF45 {
            IORegisters { lyc: value, ..self }
        } else if index == 0xFF46 {
            if value <= 0xDF {
                IORegisters { dma: value, clock_count_for_dma: 0, dma_in_progress: true, ..self }
            } else {
                IORegisters { dma: value, ..self }
            }
        } else if index == 0xFF47 {
            IORegisters { bgp: value, ..self }
        } else if index == 0xFF48 {
            IORegisters { obp0: value, ..self }
        } else if index == 0xFF49 {
            IORegisters { obp1: value, ..self }
        } else if index == 0xFF4A {
            IORegisters { wy: value, ..self }
        } else if index == 0xFF4B {
            IORegisters { wx: value, ..self }
        } else if index == 0xFF4F {
            IORegisters { vbk: value, ..self }
        } else if index == 0xFF50 {
            IORegisters { use_boot_rom: value, joypad: Joypad::from_bits(0xFF), ..self }
        } else if 0xFF51 <= index <= 0xFF70 {
            IORegisters { other1: spec_array_update(self.other1, index - 0xFF51, value), ..self }
        } else if 0xFF71 <= index <= 0xFF7F {
            IORegisters { other2: spec_array_update(self.other2, index - 0xFF71, value), ..self }
        } else {
            self
        }
    }

    /// The register block after one machine cycle of the timer: the timer advances, and
    /// an overflow of the timer counter requests the timer interrupt.
    pub open spec fn spec_tick(self) -> IORegisters {
        IORegisters {
            timer: self.timer.spec_tick(),
            interrupt_flag: if self.timer.overflows() {
                self.interrupt_flag.with(Interrupt::Timer)
            } else {
                self.interrupt_flag
            },
            ..self
        }
    }

    /// The register block with the LCD status interrupt requested where `announce`
    /// holds.
    pub open spec fn announced(self, announce: bool) -> IORegisters {
        if announce {
            IORegisters { interrupt_flag: self.interrupt_flag.with(Interrupt::LcdStat), ..self }
        } else {
            self
        }
    }

    /// The register block as the video generator starts scanline `line`: LY holds the
    /// line, the status register tells whether it equals LYC, and where it does and
    /// the status register asks for it, the LCD status interrupt is requested.
    pub open spec fn spec_start_line(self, line: u8) -> IORegisters {
        (IORegisters {
            ly: line,
            lcd_status: LCDStatus {
                lyc_eq_ly: if line == self.lyc {
                    1
                } else {
                    0
                },
                ..self.lcd_status
            },
            ..self
        }).announced(line == self.lyc && self.lcd_status.lyc_ly_stat_interrupt == 1)
    }

    /// The register block as the video generator enters a phase: the status register
    /// holds the phase's number, and the LCD status interrupt is requested where the
    /// status register asks for it on entering object search or horizontal blank.
    /// Switching the display off also clears LY and shows phase zero.
    pub open spec fn spec_enter_mode(self, mode: Mode) -> IORegisters {
        match mode {
            Mode::Mode2 => (IORegisters {
                lcd_status: LCDStatus { mode: 2, ..self.lcd_status },
                ..self
            }).announced(self.lcd_status.mode_two_stat_interrupt == 1),
            Mode::Mode3 => IORegisters {
                lcd_status: LCDStatus { mode: 3, ..self.lcd_status },
                ..self
            },
            Mode::Mode0 => (IORegisters {
                lcd_status: LCDStatus { mode: 0, ..self.lcd_status },
                ..self
            }).announced(self.lcd_status.mode_zero_stat_interrupt == 1),
            Mode::Mode1 => IORegisters {
                lcd_status: LCDStatus { mode: 1, ..self.lcd_status },
                ..self
            },
            Mode::Off => IORegisters {
                ly: 0,
                lcd_status: LCDStatus { mode: 0, ..self.lcd_status },
                ..self
            },
        }
    }

    /// The register block as vertical blank begins: the vertical blank interrupt is
    /// requested, and the LCD status interrupt where the status register asks for it.
    pub open spec fn spec_begin_vblank(self) -> IORegisters {
        (IORegisters {
            interrupt_flag: self.interrupt_flag.with(Interrupt::VBlank),
            ..self
        }).announced(self.lcd_status.mode_one_stat_interrupt == 1)
    }

    /// Sets LY and compares it with LYC.
    pub fn start_line(&mut self, line: u8)
        ensures
            *final(self) == old(self).spec_start_line(line),
            old(self).interrupt_flag.wf() ==> final(self).interrupt_flag.wf(),
    {
        self.ly = line;
        if self.ly == self.lyc {
            self.lcd_status.lyc_eq_ly = 1;
            if self.lcd_status.lyc_ly_stat_interrupt == 1 {
                self.interrupt_flag.lcd_stat = 1;
            }
        } else {
            self.lcd_status.lyc_eq_ly = 0;
        }
    }

    /// Shows a phase in the status register.
    pub fn enter_mode(&mut self, mode: Mode)
        ensures
            *final(self) == old(self).spec_enter_mode(mode),
            old(self).interrupt_flag.wf() ==> final(self).interrupt_flag.wf(),
    {
        match mode {
            Mode::Mode2 => {
                self.lcd_status.mode = 2;
                if self.lcd_status.mode_two_stat_interrupt == 1 {
                    self.interrupt_flag.lcd_stat = 1;
                }
            },
            Mode::Mode3 => {
                self.lcd_status.mode = 3;
            },
            Mode::Mode0 => {
                self.lcd_status.mode = 0;
                if self.lcd_status.mode_zero_stat_interrupt == 1 {
                    self.interrupt_flag.lcd_stat = 1;
                }
            },
            Mode::Mode1 => {
                self.lcd_status.mode = 1;
            },
            Mode::Off => {
                self.ly = 0;
                self.lcd_status.mode = 0;
            },
        }
    }

    /// Requests the interrupts of the start of vertical blank.
    pub fn begin_vblank(&mut self)
        ensures
            *final(self) == old(self).spec_begin_vblank(),
            old(self).interrupt_flag.wf() ==> final(self).interrupt_flag.wf(),
    {
        self.interrupt_flag.vblank = 1;
        if self.lcd_status.mode_one_stat_interrupt == 1 {
            self.interrupt_flag.lcd_stat = 1;
        }
    }

    /// Reads the register at bus address `index`.
    pub fn get(&self, index: usize) -> (value: u8)
        ensures
            value == self.spec_get(index),
    {
        match index {
            0xFF00 => self.joypad.into(),
            0xFF01 | 0xFF02 => self.communication[index - 0xFF01],
            0xFF04 => (self.timer.timer_counter / 256) as u8,
            0xFF05 => self.timer.tima,
            0xFF06 => self.timer.tma,
            0xFF07 => self.timer.tac.into(),
            0xFF0F => self.interrupt_flag.into(),
            0xFF10..=0xFF26 => self.sound[index - 0xFF10],
            0xFF30..=0xFF3F => self.waveform_ram[index - 0xFF30],
            0xFF40 => self.lcdc.into(),
            0xFF41 => self.lcd_status.into(),
            0xFF42 => self.scy,
            0xFF43 => self.scx,
            0xFF44 => self.ly,
            0xFF45 => self.lyc,
            0xFF46 => self.dma,
            0xFF47 => self.bgp,
            0xFF48 => self.obp0,
            0xFF49 => self.obp1,
            0xFF4A => self.wy,
            0xFF4B => self.wx,
            0xFF4D => 0xFF,
            0xFF4F => self.vbk,
            0xFF50 => self.use_boot_rom,
            0xFF51..=0xFF70 => self.other1[index - 0xFF51],
            0xFF71..=0xFF7F => self.other2[index - 0xFF71],
            _ => 0,
        }
    }

    /// Writes `value` to the register at bus address `index`.
    pub fn set(&mut self, index: usize, value: u8)
        ensures
            *final(self) == old(self).spec_set(index, value),
    {
        match index {
            0xFF00 => self.joypad = value.into(),
            0xFF01 | 0xFF02 => self.communication[index - 0xFF01] = value,
            0xFF04 => self.timer.timer_counter = 0,
            0xFF05 => self.timer.tima = value,
            0xFF06 => self.timer.tma = value,
            0xFF07 => self.timer.tac = value.into(),
            0xFF0F => self.interrupt_flag = value.into(),
            0xFF10..=0xFF26 => self.sound[index - 0xFF10] = value,
            0xFF30..=0xFF3F => self.waveform_ram[index - 0xFF30] = value,
            0xFF40 => self.lcdc = value.into(),
            0xFF41 => self.lcd_status = value.into(),
            0xFF42 => self.scy = value,
            0xFF43 => self.scx = value,
            0xFF44 => self.ly = value,
            0xFF45 => self.lyc = value,
            0xFF46 => {
                self.dma = value;
                if value <= 0xDF {
                    self.clock_count_for_dma = 0;
                    self.dma_in_progress = true;
                }
            },
            0xFF47 => self.bgp = value,
            0xFF48 => self.obp0 = value,
            0xFF49 => self.obp1 = value,
            0xFF4A => self.wy = value,
            0xFF4B => self.wx = value,
            0xFF4F => self.vbk = value,
            0xFF50 => {
                self.use_boot_rom = value;
                self.joypad = 0xFFu8.into();
            },
            0xFF51..=0xFF70 => self.other1[index - 0xFF51] = value,
            0xFF71..=0xFF7F => self.other2[index - 0xFF71] = value,
            _ => (),
        }
    }

    /// Runs the timer for one machine cycle and requests the timer interrupt on overflow.
    pub fn tick_timer(&mut self)
        ensures
            *final(self) == old(self).spec_tick(),
    {
        if self.timer.tick_timer() {
            self.interrupt_flag.timer = 1;
        }
    }
}

impl Default for IORegisters {
    fn default() -> (r: IORegisters)
        ensures
            r == IORegisters::reset(),
    {
        IORegisters {
            dma_in_progress: false,
            clock_count_for_dma: 0,
            joypad: Joypad::default(),
            communication: [0; 2],
            timer: Timer::default(),
            interrupt_flag: InterruptFlag::default(),
            sound: [0; 0x17],
            waveform_ram: [0; 0x10],
            lcdc: LCDC::default(),
            lcd_status: LCDStatus::default(),
            scy: 0,
            scx: 0,
            ly: 0,
            lyc: 0,
            dma: 0,
            bgp: 0,
            obp0: 0,
            obp1: 0,
            wy: 0,
            wx: 0,
            vbk: 0,
            use_boot_rom: 0,
            other1: [0; 0x20],
            other2: [0; 0x10],
        }
    }
}

/// Decoding the byte of an interrupt-enable value with one-bit fields gives the value
/// back.
pub proof fn lemma_interrupt_enable_round_trip(value: InterruptEnable)
    requires
        value.wf(),
    ensures
        InterruptEnable::from_bits(value.bits()) == value,
{
}

/// Decoding a byte gives one-bit fields, and encoding them keeps the byte's five
/// defined bits and clears the rest.
pub proof fn lemma_interrupt_enable_of_byte(byte: u8)
    ensures
        InterruptEnable::from_bits(byte).wf(),
        InterruptEnable::from_bits(byte).bits() == byte % 32,
{
    lemma_low_bits(byte);
}

/// Decoding the byte of an interrupt-flag value with one-bit fields gives the value back.
pub proof fn lemma_interrupt_flag_round_trip(value: InterruptFlag)
    requires
        value.wf(),
    ensures
        InterruptFlag::from_bits(value.bits()) == value,
{
}

/// Decoding a byte gives one-bit fields, and encoding them keeps the byte's five
/// defined bits and clears the rest.
pub proof fn lemma_interrupt_flag_of_byte(byte: u8)
    ensures
        InterruptFlag::from_bits(byte).wf(),
        InterruptFlag::from_bits(byte).bits() == byte % 32,
{
    lemma_low_bits(byte);
}

/// Decoding the byte of an LCD control value with one-bit fields gives the value back.
pub proof fn lemma_lcdc_round_trip(value: LCDC)
    requires
        value.wf(),
    ensures
        LCDC::from_bits(value.bits()) == value,
{
}

/// Every bit of the LCD control register is defined: decoding a byte gives one-bit
/// fields, and encoding them gives the byte back.
pub proof fn lemma_lcdc_of_byte(byte: u8)
    ensures
        LCDC::from_bits(byte).wf(),
        LCDC::from_bits(byte).bits() == byte,
{
    lemma_byte_bits(byte);
}

/// Decoding the byte of a well-formed LCD status value gives the value back.
pub proof fn lemma_lcd_status_round_trip(value: LCDStatus)
    requires
        value.wf(),
    ensures
        LCDStatus::from_bits(value.bits()) == value,
{
}

/// Decoding a byte gives a well-formed LCD status value, and encoding it keeps the
/// byte's seven defined bits and clears bit 7.
pub proof fn lemma_lcd_status_of_byte(byte: u8)
    ensures
        LCDStatus::from_bits(byte).wf(),
        LCDStatus::from_bits(byte).bits() == byte % 128,
{
    lemma_low_bits(byte);
}

/// Decoding the byte of a joypad value with one-bit fields gives the value back.
pub proof fn lemma_joypad_round_trip(value: Joypad)
    requires
        value.wf(),
    ensures
        Joypad::from_bits(value.bits()) == value,
{
}

/// Decoding a byte gives one-bit fields, and encoding them keeps the byte's six defined
/// bits and clears the rest.
pub proof fn lemma_joypad_of_byte(byte: u8)
    ensures
        Joypad::from_bits(byte).wf(),
        Joypad::from_bits(byte).bits() == byte % 64,
{
    lemma_low_bits(byte);
}

/// Decoding the byte of a timer control value gives the value back.
pub proof fn lemma_tac_round_trip(value: TAC)
    ensures
        TAC::from_bits(value.bits()) == value,
{
}

/// Encoding a decoded timer control byte keeps its three defined bits and clears the
/// rest.
pub proof fn lemma_tac_of_byte(byte: u8)
    ensures
        TAC::from_bits(byte).bits() == byte % 8,
{
    lemma_low_bits(byte);
}

} // verus!
