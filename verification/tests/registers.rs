use gameboy_core::cpu::{Flags, Reg16, Reg8, RegFile};
use gameboy_core::instructions::CC;
use gameboy_core::ppu::OamEntry;
use gameboy_core::register_maps::{
    IORegisters, InputClockSelect, InterruptEnable, InterruptFlag, Joypad, LCDStatus, Timer, LCDC,
    TAC,
};

#[test]
fn register_bytes_round_trip_through_their_fields() {
    for byte in 0..=255u8 {
        assert_eq!(u8::from(InterruptEnable::from(byte)), byte & 0x1F);
        assert_eq!(u8::from(InterruptFlag::from(byte)), byte & 0x1F);
        assert_eq!(u8::from(LCDC::from(byte)), byte);
        assert_eq!(u8::from(LCDStatus::from(byte)), byte & 0x7F);
        assert_eq!(u8::from(Joypad::from(byte)), byte & 0x3F);
        assert_eq!(u8::from(TAC::from(byte)), byte & 0x07);
        assert_eq!(u8::from(Flags::from(byte)), byte & 0xF0);
    }
}

#[test]
fn register_fields_round_trip_through_their_bytes() {
    for byte in 0..=255u8 {
        let enable = InterruptEnable::from(byte);
        assert_eq!(InterruptEnable::from(u8::from(enable)), enable);
        let flag = InterruptFlag::from(byte);
        assert_eq!(InterruptFlag::from(u8::from(flag)), flag);
        let lcdc = LCDC::from(byte);
        assert_eq!(LCDC::from(u8::from(lcdc)), lcdc);
        let status = LCDStatus::from(byte);
        assert_eq!(LCDStatus::from(u8::from(status)), status);
        let joypad = Joypad::from(byte);
        assert_eq!(Joypad::from(u8::from(joypad)), joypad);
        let tac = TAC::from(byte);
        assert_eq!(TAC::from(u8::from(tac)), tac);
        let flags = Flags::from(byte);
        assert_eq!(Flags::from(u8::from(flags)), flags);
    }
}

#[test]
fn register_layouts() {
    let lcdc = LCDC::from(0x91);
    assert_eq!(lcdc.lcd_ppu_enable, 1);
    assert_eq!(lcdc.window_tile_map_area, 0);
    assert_eq!(lcdc.window_enable, 0);
    assert_eq!(lcdc.bg_window_tile_data_area, 1);
    assert_eq!(lcdc.bg_tile_map_area, 0);
    assert_eq!(lcdc.obj_size, 0);
    assert_eq!(lcdc.obj_enable, 0);
    assert_eq!(lcdc.bg_window_enable_priority, 1);
    let status = LCDStatus::from(0xC6);
    assert_eq!(status.lyc_ly_stat_interrupt, 1);
    assert_eq!(status.mode_two_stat_interrupt, 0);
    assert_eq!(status.mode_one_stat_interrupt, 0);
    assert_eq!(status.mode_zero_stat_interrupt, 0);
    assert_eq!(status.lyc_eq_ly, 1);
    assert_eq!(status.mode, 2);
    let joypad = Joypad::from(0x2A);
    assert_eq!(joypad.select_action, 1);
    assert_eq!(joypad.select_direction, 0);
    assert_eq!(joypad.down_or_start, 1);
    assert_eq!(joypad.up_or_select, 0);
    assert_eq!(joypad.left_or_b, 1);
    assert_eq!(joypad.right_or_a, 0);
    let flag = InterruptFlag::from(0x15);
    assert_eq!((flag.vblank, flag.lcd_stat, flag.timer, flag.serial, flag.joypad), (1, 0, 1, 0, 1));
    let flags = Flags::from(0xB0);
    assert_eq!((flags.Z, flags.N, flags.H, flags.C), (1, 0, 1, 1));
}

#[test]
fn encoding_ignores_bits_beyond_a_field() {
    let flag = InterruptFlag { vblank: 2, lcd_stat: 3, timer: 0, serial: 0, joypad: 0 };
    assert_eq!(u8::from(flag), 0x02);
    let status = LCDStatus {
        lyc_ly_stat_interrupt: 0,
        mode_two_stat_interrupt: 0,
        mode_one_stat_interrupt: 0,
        mode_zero_stat_interrupt: 0,
        lyc_eq_ly: 0,
        mode: 7,
    };
    assert_eq!(u8::from(status), 0x03);
}

#[test]
fn timer_control_decodes() {
    let tac = TAC::from(5);
    assert!(tac.timer_enable);
    assert_eq!(tac.input_clock_select, InputClockSelect::Mode16);
    assert_eq!(u8::from(tac), 5);
    assert_eq!(TAC::from(0).input_clock_select, InputClockSelect::Mode1024);
    assert_eq!(TAC::from(2).input_clock_select, InputClockSelect::Mode64);
    assert_eq!(TAC::from(3).input_clock_select, InputClockSelect::Mode256);
    assert!(!TAC::from(3).timer_enable);
    assert_eq!(InputClockSelect::Mode1024.period(), 1024);
    assert_eq!(InputClockSelect::Mode16.period(), 16);
    assert_eq!(InputClockSelect::Mode64.period(), 64);
    assert_eq!(InputClockSelect::Mode256.period(), 256);
}

#[test]
fn timer_counts_at_the_selected_rate() {
    let mut timer = Timer::default();
    timer.tac = TAC::from(5);
    let mut overflowed = 0;
    for step in 1..=16 {
        if timer.tick_timer() {
            overflowed += 1;
        }
        assert_eq!(timer.tima, step / 4);
        assert_eq!(timer.timer_counter, 4 * step as u16);
    }
    assert_eq!(overflowed, 0);
    timer.tac = TAC::from(4);
    timer.tima = 0;
    timer.timer_counter = 0;
    for _ in 0..255 {
        assert!(!timer.tick_timer());
    }
    assert_eq!(timer.tima, 0);
    assert!(!timer.tick_timer());
    assert_eq!(timer.tima, 1);
}

#[test]
fn timer_overflow_reloads_and_reports() {
    let mut timer = Timer::default();
    timer.tac = TAC::from(5);
    timer.tma = 0xAB;
    timer.tima = 0xFF;
    assert!(!timer.tick_timer());
    assert!(!timer.tick_timer());
    assert!(!timer.tick_timer());
    assert_eq!(timer.tima, 0xFF);
    assert!(timer.tick_timer());
    assert_eq!(timer.tima, 0xAB);
    assert_eq!(timer.timer_counter, 16);
}

#[test]
fn stopped_timer_only_runs_the_divider() {
    let mut timer = Timer::default();
    timer.tac = TAC::from(1);
    timer.timer_counter = 0xFFFC;
    assert!(!timer.tick_timer());
    assert_eq!(timer.timer_counter, 0);
    assert_eq!(timer.tima, 0);
}

#[test]
fn register_block_timer_tick_requests_the_interrupt() {
    let mut io = IORegisters::default();
    io.set(0xFF07, 0x05);
    io.set(0xFF05, 0xFF);
    io.set(0xFF06, 0x10);
    for _ in 0..3 {
        io.tick_timer();
        assert_eq!(io.get(0xFF0F), 0x00);
    }
    io.tick_timer();
    assert_eq!(io.get(0xFF0F), 0x04);
    assert_eq!(io.get(0xFF05), 0x10);
}

#[test]
fn register_block_reads_and_writes() {
    let mut io = IORegisters::default();
    io.set(0xFF00, 0xFF);
    assert_eq!(io.get(0xFF00), 0x3F);
    io.set(0xFF01, 0x12);
    io.set(0xFF02, 0x34);
    assert_eq!((io.get(0xFF01), io.get(0xFF02)), (0x12, 0x34));
    io.set(0xFF10, 0x56);
    io.set(0xFF26, 0x78);
    assert_eq!((io.get(0xFF10), io.get(0xFF26)), (0x56, 0x78));
    io.set(0xFF30, 0x9A);
    io.set(0xFF3F, 0xBC);
    assert_eq!((io.get(0xFF30), io.get(0xFF3F)), (0x9A, 0xBC));
    io.set(0xFF40, 0x91);
    assert_eq!(io.get(0xFF40), 0x91);
    io.set(0xFF41, 0xFF);
    assert_eq!(io.get(0xFF41), 0x7F);
    let plain: [(usize, u8); 10] = [
        (0xFF42, 1),
        (0xFF43, 2),
        (0xFF44, 3),
        (0xFF45, 4),
        (0xFF47, 5),
        (0xFF48, 6),
        (0xFF49, 7),
        (0xFF4A, 8),
        (0xFF4B, 9),
        (0xFF4F, 10),
    ];
    for (address, value) in plain {
        io.set(address, value);
    }
    for (address, value) in plain {
        assert_eq!(io.get(address), value);
    }
    io.set(0xFF51, 0x11);
    io.set(0xFF70, 0x22);
    io.set(0xFF71, 0x33);
    io.set(0xFF7F, 0x44);
    assert_eq!(
        (io.get(0xFF51), io.get(0xFF70), io.get(0xFF71), io.get(0xFF7F)),
        (0x11, 0x22, 0x33, 0x44)
    );
    assert_eq!(io.get(0xFF4D), 0xFF);
}

#[test]
fn register_block_holes_read_zero_and_ignore_writes() {
    let mut io = IORegisters::default();
    for address in [0xFF03usize, 0xFF08, 0xFF0E, 0xFF27, 0xFF2F, 0xFF4C, 0xFF4E, 0x0000, 0xFF80] {
        io.set(address, 0xAA);
        assert_eq!(io.get(address), 0);
    }
    io.set(0xFF4D, 0x00);
    assert_eq!(io.get(0xFF4D), 0xFF);
    for address in 0xFF00..=0xFF7Fusize {
        if address != 0xFF4D {
            assert_eq!(io.get(address), 0);
        }
    }
}

#[test]
fn divider_write_clears_the_whole_counter() {
    let mut io = IORegisters::default();
    io.timer.timer_counter = 0xABCD;
    assert_eq!(io.get(0xFF04), 0xAB);
    io.set(0xFF04, 0x55);
    assert_eq!(io.timer.timer_counter, 0);
    assert_eq!(io.get(0xFF04), 0);
}

#[test]
fn dma_register_marks_a_transfer() {
    let mut io = IORegisters::default();
    io.clock_count_for_dma = 9;
    io.set(0xFF46, 0xE0);
    assert_eq!(io.get(0xFF46), 0xE0);
    assert!(!io.dma_in_progress);
    assert_eq!(io.clock_count_for_dma, 9);
    io.set(0xFF46, 0xDF);
    assert_eq!(io.get(0xFF46), 0xDF);
    assert!(io.dma_in_progress);
    assert_eq!(io.clock_count_for_dma, 0);
}

#[test]
fn boot_latch_write_releases_the_joypad_lines() {
    let mut io = IORegisters::default();
    io.set(0xFF50, 0x01);
    assert_eq!(io.get(0xFF50), 0x01);
    assert_eq!(io.get(0xFF00), 0x3F);
}

#[test]
fn register_pairs() {
    let mut regs = RegFile::default();
    regs.set16(Reg16::BC, 0x1234);
    regs.set16(Reg16::DE, 0x5678);
    regs.set16(Reg16::HL, 0x9ABC);
    regs.set16(Reg16::SP, 0xDEF0);
    regs.set16(Reg16::AF, 0x12FF);
    assert_eq!((regs.B, regs.C, regs.D, regs.E, regs.H, regs.L), (0x12, 0x34, 0x56, 0x78, 0x9A, 0xBC));
    assert_eq!(regs.SP, 0xDEF0);
    assert_eq!(regs.A, 0x12);
    assert_eq!(regs.flags, Flags { Z: 1, N: 1, H: 1, C: 1 });
    assert_eq!(regs.get16(Reg16::BC), 0x1234);
    assert_eq!(regs.get16(Reg16::DE), 0x5678);
    assert_eq!(regs.get16(Reg16::HL), 0x9ABC);
    assert_eq!(regs.get16(Reg16::SP), 0xDEF0);
    assert_eq!(regs.get16(Reg16::AF), 0x12F0);
    regs.set8(Reg8::A, 0x77);
    assert_eq!(regs.get8(Reg8::A), 0x77);
    regs.set8(Reg8::L, 0x01);
    assert_eq!(regs.get16(Reg16::HL), 0x9A01);
}

#[test]
fn conditions() {
    let mut regs = RegFile::default();
    assert!(regs.check_condition(CC::NZ));
    assert!(regs.check_condition(CC::NC));
    assert!(!regs.check_condition(CC::Z));
    assert!(!regs.check_condition(CC::C));
    assert!(regs.check_condition(CC::UC));
    regs.flags = Flags { Z: 1, N: 0, H: 0, C: 1 };
    assert!(!regs.check_condition(CC::NZ));
    assert!(!regs.check_condition(CC::NC));
    assert!(regs.check_condition(CC::Z));
    assert!(regs.check_condition(CC::C));
    assert!(regs.check_condition(CC::UC));
}

#[test]
fn object_entries_round_trip() {
    let entry = OamEntry::decode([0x10, 0x20, 0x30, 0xFA]);
    assert_eq!(entry.y_coord, 0x10);
    assert_eq!(entry.x_coord, 0x20);
    assert_eq!(entry.data_tile_num, 0x30);
    assert!(entry.sprite_priority);
    assert!(!entry.y_flip);
    assert!(entry.x_flip);
    assert!(!entry.palette);
    assert_eq!(entry.encode(), [0x10, 0x20, 0x30, 0x0A]);
    for attributes in 0..16u8 {
        let entry = OamEntry::decode([1, 2, 3, attributes]);
        assert_eq!(OamEntry::decode(entry.encode()), entry);
        assert_eq!(entry.encode(), [1, 2, 3, attributes]);
    }
}
