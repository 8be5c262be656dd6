use gameboy_core::cpu::{Flags, CPU};
use gameboy_core::instructions::{instruction_decode, InvalidInstruction, StagePassThrough};
use gameboy_core::ppu::PPU;
use gameboy_core::register_maps::IORegisters;

/// A processor with the program in working RAM at `0xC000` and the stack below `0xD000`.
fn cpu_with(program: &[u8]) -> CPU {
    let mut cpu = CPU::new(PPU::new(IORegisters::default()));
    for (i, byte) in program.iter().enumerate() {
        cpu.addr_bus = 0xC000 + i as u16;
        cpu.write_data(*byte);
    }
    cpu.pc = 0xC000;
    cpu.reg_file.SP = 0xD000;
    cpu
}

/// Runs machine cycles until the instruction in progress completes; returns how many.
fn run_instruction(cpu: &mut CPU) -> u32 {
    let mut cycles = 0;
    loop {
        cpu.step(false).unwrap();
        cycles += 1;
        if cpu.pass_in.1.instruction_stage == 0 {
            return cycles;
        }
        assert!(cycles < 10);
    }
}

fn read(cpu: &mut CPU, address: u16) -> u8 {
    cpu.addr_bus = address;
    cpu.read()
}

fn flags(z: u8, n: u8, h: u8, c: u8) -> Flags {
    Flags { Z: z, N: n, H: h, C: c }
}

#[test]
fn nop_only_moves_the_program_counter() {
    let mut cpu = cpu_with(&[0x00]);
    cpu.reg_file.A = 0x12;
    cpu.reg_file.flags = flags(1, 0, 1, 0);
    let before_regs = cpu.reg_file;
    let next = instruction_decode(0x00, &mut cpu, StagePassThrough::default()).unwrap();
    assert_eq!(next, StagePassThrough::default());
    assert_eq!(cpu.pc, 0xC001);
    assert_eq!(cpu.reg_file, before_regs);
    assert_eq!(cpu.addr_bus, 0xC000);
    assert!(!cpu.ime);
    assert_eq!(read(&mut cpu, 0xC000), 0x00);
}

#[test]
fn nop_wraps_the_program_counter() {
    let mut cpu = cpu_with(&[]);
    cpu.pc = 0xFFFF;
    instruction_decode(0x00, &mut cpu, StagePassThrough::default()).unwrap();
    assert_eq!(cpu.pc, 0x0000);
}

#[test]
fn undefined_opcodes_are_reported() {
    let undefined = [0x10u8, 0xD3, 0xDB, 0xDD, 0xE3, 0xE4, 0xEB, 0xEC, 0xED, 0xF4, 0xFC, 0xFD];
    for opcode in 0..=255u8 {
        let mut cpu = cpu_with(&[opcode]);
        cpu.pc = 0xC000;
        let result = instruction_decode(opcode, &mut cpu, StagePassThrough::default());
        if undefined.contains(&opcode) {
            assert_eq!(result, Err(InvalidInstruction { opcode, pc: 0xC000 }));
            assert_eq!(cpu.pc, 0xC000);
        } else {
            assert!(result.is_ok());
        }
    }
}

#[test]
fn stepping_onto_an_undefined_opcode_fails() {
    let mut cpu = cpu_with(&[0x00, 0xDD]);
    assert_eq!(cpu.step(false), Ok(()));
    assert_eq!(cpu.step(false), Err(InvalidInstruction { opcode: 0xDD, pc: 0xC001 }));
}

#[test]
fn every_defined_instruction_runs_to_completion() {
    let undefined = [0x10u8, 0xD3, 0xDB, 0xDD, 0xE3, 0xE4, 0xEB, 0xEC, 0xED, 0xF4, 0xFC, 0xFD];
    for opcode in 0..=255u8 {
        if undefined.contains(&opcode) || opcode == 0x76 {
            continue;
        }
        for second in [0x00u8, 0x06, 0x46, 0x86, 0xC6, 0xFF] {
            for flag_byte in [0x00u8, 0xF0] {
                let mut cpu = cpu_with(&[opcode, second, 0xC1]);
                cpu.reg_file.flags = flag_byte.into();
                cpu.reg_file.H = 0xC8;
                let cycles = run_instruction(&mut cpu);
                assert!(cycles >= 1 && cycles <= 6);
            }
        }
    }
}

#[test]
fn documented_cycle_counts() {
    let cases: [(&[u8], u8, u32); 40] = [
        (&[0x00], 0x00, 1),
        (&[0x3E, 0x05], 0x00, 2),
        (&[0x01, 0x34, 0x12], 0x00, 3),
        (&[0x02], 0x00, 2),
        (&[0x0A], 0x00, 2),
        (&[0x03], 0x00, 2),
        (&[0x04], 0x00, 1),
        (&[0x34], 0x00, 3),
        (&[0x35], 0x00, 3),
        (&[0x36, 0x12], 0x00, 3),
        (&[0x08, 0x00, 0xC1], 0x00, 5),
        (&[0x09], 0x00, 2),
        (&[0x18, 0x02], 0x00, 3),
        (&[0x20, 0x02], 0x00, 3),
        (&[0x20, 0x02], 0x80, 2),
        (&[0x41], 0x00, 1),
        (&[0x46], 0x00, 2),
        (&[0x70], 0x00, 2),
        (&[0x80], 0x00, 1),
        (&[0x86], 0x00, 2),
        (&[0xBE], 0x00, 2),
        (&[0xC6, 0x01], 0x00, 2),
        (&[0xC0], 0x00, 5),
        (&[0xC0], 0x80, 2),
        (&[0xC9], 0x00, 4),
        (&[0xD9], 0x00, 4),
        (&[0xC1], 0x00, 3),
        (&[0xC5], 0x00, 4),
        (&[0xC3, 0x00, 0xC1], 0x00, 4),
        (&[0xC2, 0x00, 0xC1], 0x80, 3),
        (&[0xCD, 0x00, 0xC1], 0x00, 6),
        (&[0xC4, 0x00, 0xC1], 0x80, 3),
        (&[0xC7], 0x00, 4),
        (&[0xE0, 0x80], 0x00, 3),
        (&[0xF0, 0x80], 0x00, 3),
        (&[0xE2], 0x00, 2),
        (&[0xE8, 0x01], 0x00, 4),
        (&[0xF8, 0x01], 0x00, 3),
        (&[0xEA, 0x00, 0xC1], 0x00, 4),
        (&[0xE9], 0x00, 1),
    ];
    for (program, flag_byte, cycles) in cases {
        let mut cpu = cpu_with(program);
        cpu.reg_file.flags = flag_byte.into();
        cpu.reg_file.H = 0xC8;
        assert_eq!(run_instruction(&mut cpu), cycles, "program {:x?}", program);
    }
    let extended: [(u8, u32); 6] =
        [(0x00, 2), (0x06, 4), (0x40, 2), (0x46, 3), (0x86, 4), (0xC6, 4)];
    for (second, cycles) in extended {
        let mut cpu = cpu_with(&[0xCB, second]);
        cpu.reg_file.H = 0xC8;
        assert_eq!(run_instruction(&mut cpu), cycles);
        assert_eq!(cpu.pc, 0xC002);
    }
}

#[test]
fn program_counter_moves_by_the_encoded_length() {
    let cases: [(&[u8], u16); 14] = [
        (&[0x00], 1),
        (&[0x3E, 0x05], 2),
        (&[0x01, 0x34, 0x12], 3),
        (&[0x36, 0x12], 2),
        (&[0x08, 0x00, 0xC1], 3),
        (&[0x86], 1),
        (&[0xC6, 0x01], 2),
        (&[0xC1], 1),
        (&[0xC5], 1),
        (&[0xE0, 0x80], 2),
        (&[0xE8, 0x01], 2),
        (&[0xF8, 0x01], 2),
        (&[0xEA, 0x00, 0xC1], 3),
        (&[0xFA, 0x00, 0xC1], 3),
    ];
    for (program, length) in cases {
        let mut cpu = cpu_with(program);
        cpu.reg_file.H = 0xC8;
        run_instruction(&mut cpu);
        assert_eq!(cpu.pc, 0xC000 + length, "program {:x?}", program);
    }
}

#[test]
fn ld_a_then_halt() {
    let mut cpu = cpu_with(&[0x3E, 0x05, 0x76]);
    let mut steps = 0;
    while !cpu.halted() {
        cpu.step(false).unwrap();
        steps += 1;
        assert!(steps < 10);
    }
    assert_eq!(cpu.reg_file.A, 5);
    assert_eq!(cpu.pc, 0xC002);
    assert_eq!(read(&mut cpu, 0xC002), 0x76);
}

#[test]
fn halt_ends_when_an_enabled_interrupt_is_pending() {
    let mut cpu = cpu_with(&[0x76, 0x3C]);
    cpu.step(false).unwrap();
    assert!(cpu.halted());
    for _ in 0..10 {
        cpu.step(false).unwrap();
        assert!(cpu.halted());
        assert_eq!(cpu.pc, 0xC000);
    }
    cpu.ppu.io_registers.interrupt_flag.timer = 1;
    cpu.step(false).unwrap();
    assert!(cpu.halted());
    cpu.ie.timer = 1;
    cpu.step(false).unwrap();
    assert!(!cpu.halted());
    assert_eq!(cpu.pc, 0xC002);
    assert_eq!(cpu.reg_file.A, 1);
    assert_eq!(cpu.ppu.io_registers.interrupt_flag.timer, 1);
}

#[test]
fn jr_not_taken_moves_two_bytes() {
    for (opcode, flag_byte) in [(0x20u8, 0x80u8), (0x28, 0x00), (0x30, 0x10), (0x38, 0x00)] {
        let mut cpu = cpu_with(&[opcode, 0x05]);
        cpu.reg_file.flags = flag_byte.into();
        assert_eq!(run_instruction(&mut cpu), 2);
        assert_eq!(cpu.pc, 0xC002);
    }
}

#[test]
fn jr_taken_adds_the_signed_offset() {
    for (opcode, flag_byte) in
        [(0x18u8, 0x00u8), (0x18, 0xF0), (0x20, 0x00), (0x28, 0x80), (0x30, 0x00), (0x38, 0x10)]
    {
        for (offset, target) in [(0x05u8, 0xC007u16), (0x00, 0xC002), (0xFE, 0xC000), (0x80, 0xBF82), (0x7F, 0xC081)] {
            let mut cpu = cpu_with(&[opcode, offset]);
            cpu.reg_file.flags = flag_byte.into();
            assert_eq!(run_instruction(&mut cpu), 3);
            assert_eq!(cpu.pc, target);
        }
    }
}

#[test]
fn jr_wraps_around_the_address_space() {
    let mut cpu = cpu_with(&[]);
    cpu.pc = 0xFF80;
    cpu.addr_bus = 0xFF80;
    cpu.write_data(0x18);
    cpu.addr_bus = 0xFF81;
    cpu.write_data(0x7F);
    run_instruction(&mut cpu);
    assert_eq!(cpu.pc, 0x0001);
}

#[test]
fn inc_and_dec_keep_the_carry_flag() {
    let inc = [0x04u8, 0x0C, 0x14, 0x1C, 0x24, 0x2C, 0x34, 0x3C];
    for carry in 0..=1u8 {
        for opcode in inc {
            for value in [0x00u8, 0x0F, 0x7F, 0xFF] {
                for opcode in [opcode, opcode + 1] {
                    let mut cpu = cpu_with(&[opcode]);
                    cpu.reg_file.flags = flags(0, 0, 0, carry);
                    cpu.reg_file.B = value;
                    cpu.reg_file.C = value;
                    cpu.reg_file.D = value;
                    cpu.reg_file.E = value;
                    cpu.reg_file.A = value;
                    if opcode == 0x34 || opcode == 0x35 {
                        cpu.reg_file.H = 0xC8;
                        cpu.reg_file.L = 0x00;
                        cpu.addr_bus = 0xC800;
                        cpu.write_data(value);
                    } else {
                        cpu.reg_file.H = value;
                        cpu.reg_file.L = value;
                    }
                    run_instruction(&mut cpu);
                    assert_eq!(cpu.reg_file.flags.C, carry);
                    let expected =
                        if opcode % 8 == 4 { value.wrapping_add(1) } else { value.wrapping_sub(1) };
                    assert_eq!(cpu.reg_file.flags.Z == 1, expected == 0);
                    assert_eq!(cpu.reg_file.flags.N == 1, opcode % 8 == 5);
                    if opcode == 0x34 || opcode == 0x35 {
                        assert_eq!(read(&mut cpu, 0xC800), expected);
                    }
                }
            }
        }
    }
}

#[test]
fn inc_register_values() {
    let mut cpu = cpu_with(&[0x04, 0x05, 0x05]);
    cpu.reg_file.B = 0xFF;
    run_instruction(&mut cpu);
    assert_eq!(cpu.reg_file.B, 0x00);
    assert_eq!(cpu.reg_file.flags, flags(1, 0, 1, 0));
    run_instruction(&mut cpu);
    assert_eq!(cpu.reg_file.B, 0xFF);
    assert_eq!(cpu.reg_file.flags, flags(0, 1, 1, 0));
    run_instruction(&mut cpu);
    assert_eq!(cpu.reg_file.B, 0xFE);
    assert_eq!(cpu.reg_file.flags, flags(0, 1, 0, 0));
}

#[test]
fn add_instruction_sets_flags() {
    for (a, b) in [(0x3Au8, 0xC6u8), (0x0F, 0x01), (0x12, 0x34), (0xFF, 0xFF), (0x00, 0x00)] {
        let mut cpu = cpu_with(&[0x80]);
        cpu.reg_file.A = a;
        cpu.reg_file.B = b;
        run_instruction(&mut cpu);
        let sum = a as u16 + b as u16;
        assert_eq!(cpu.reg_file.A, sum as u8);
        let decoded = Flags::from(u8::from(cpu.reg_file.flags));
        assert_eq!(decoded.Z == 1, sum as u8 == 0);
        assert_eq!(decoded.C == 1, sum > 255);
        assert_eq!(decoded.H == 1, (a & 0xF) + (b & 0xF) > 0xF);
    }
}

#[test]
fn alu_on_registers_and_memory() {
    let mut cpu = cpu_with(&[0x87, 0x96, 0xA1, 0xBE, 0x8E, 0xAF, 0xB6, 0x98]);
    cpu.reg_file.A = 0x21;
    cpu.reg_file.C = 0x0F;
    cpu.reg_file.H = 0xC8;
    cpu.reg_file.L = 0x10;
    cpu.addr_bus = 0xC810;
    cpu.write_data(0x40);
    run_instruction(&mut cpu);
    assert_eq!(cpu.reg_file.A, 0x42);
    assert_eq!(cpu.reg_file.flags, flags(0, 0, 0, 0));
    run_instruction(&mut cpu);
    assert_eq!(cpu.reg_file.A, 0x02);
    assert_eq!(cpu.reg_file.flags, flags(0, 1, 0, 0));
    run_instruction(&mut cpu);
    assert_eq!(cpu.reg_file.A, 0x02);
    assert_eq!(cpu.reg_file.flags, flags(0, 0, 1, 0));
    run_instruction(&mut cpu);
    assert_eq!(cpu.reg_file.A, 0x02);
    assert_eq!(cpu.reg_file.flags, flags(0, 1, 0, 1));
    run_instruction(&mut cpu);
    assert_eq!(cpu.reg_file.A, 0x43);
    assert_eq!(cpu.reg_file.flags, flags(0, 0, 0, 0));
    run_instruction(&mut cpu);
    assert_eq!(cpu.reg_file.A, 0x00);
    assert_eq!(cpu.reg_file.flags, flags(1, 0, 0, 0));
    run_instruction(&mut cpu);
    assert_eq!(cpu.reg_file.A, 0x40);
    assert_eq!(cpu.reg_file.flags, flags(0, 0, 0, 0));
    cpu.reg_file.B = 0x41;
    run_instruction(&mut cpu);
    assert_eq!(cpu.reg_file.A, 0xFF);
    assert_eq!(cpu.reg_file.flags, flags(0, 1, 1, 1));
}

#[test]
fn alu_immediate() {
    let mut cpu =
        cpu_with(&[0xC6, 0x10, 0xCE, 0xF0, 0xD6, 0x01, 0xDE, 0x00, 0xE6, 0x0F, 0xEE, 0xFF, 0xF6, 0x01, 0xFE, 0xF1]);
    cpu.reg_file.A = 0x05;
    run_instruction(&mut cpu);
    assert_eq!((cpu.reg_file.A, cpu.reg_file.flags), (0x15, flags(0, 0, 0, 0)));
    run_instruction(&mut cpu);
    assert_eq!((cpu.reg_file.A, cpu.reg_file.flags), (0x05, flags(0, 0, 0, 1)));
    run_instruction(&mut cpu);
    assert_eq!((cpu.reg_file.A, cpu.reg_file.flags), (0x04, flags(0, 1, 0, 0)));
    run_instruction(&mut cpu);
    assert_eq!((cpu.reg_file.A, cpu.reg_file.flags), (0x04, flags(0, 1, 0, 0)));
    run_instruction(&mut cpu);
    assert_eq!((cpu.reg_file.A, cpu.reg_file.flags), (0x04, flags(0, 0, 1, 0)));
    run_instruction(&mut cpu);
    assert_eq!((cpu.reg_file.A, cpu.reg_file.flags), (0xFB, flags(0, 0, 0, 0)));
    run_instruction(&mut cpu);
    assert_eq!((cpu.reg_file.A, cpu.reg_file.flags), (0xFB, flags(0, 0, 0, 0)));
    run_instruction(&mut cpu);
    assert_eq!((cpu.reg_file.A, cpu.reg_file.flags), (0xFB, flags(0, 1, 0, 0)));
    assert_eq!(cpu.pc, 0xC010);
}

#[test]
fn daa_corrects_decimal_sums_and_differences() {
    for x in 0..100u8 {
        for y in 0..100u8 {
            let bcd = |v: u8| (v / 10) * 16 + v % 10;
            let mut cpu = cpu_with(&[0x80, 0x27]);
            cpu.reg_file.A = bcd(x);
            cpu.reg_file.B = bcd(y);
            run_instruction(&mut cpu);
            run_instruction(&mut cpu);
            assert_eq!(cpu.reg_file.A, bcd((x + y) % 100));
            assert_eq!(cpu.reg_file.flags.C == 1, x + y >= 100);
            assert_eq!(cpu.reg_file.flags.Z == 1, (x + y) % 100 == 0);
            assert_eq!(cpu.reg_file.flags.H, 0);
            assert_eq!(cpu.reg_file.flags.N, 0);
            let mut cpu = cpu_with(&[0x90, 0x27]);
            cpu.reg_file.A = bcd(x);
            cpu.reg_file.B = bcd(y);
            run_instruction(&mut cpu);
            run_instruction(&mut cpu);
            assert_eq!(cpu.reg_file.A, bcd((100 + x - y) % 100));
            assert_eq!(cpu.reg_file.flags.C == 1, x < y);
            assert_eq!(cpu.reg_file.flags.H, 0);
            assert_eq!(cpu.reg_file.flags.N, 1);
        }
    }
}

#[test]
fn accumulator_rotations_clear_zero() {
    let mut cpu = cpu_with(&[0x07, 0x17, 0x0F, 0x1F]);
    cpu.reg_file.A = 0x80;
    cpu.reg_file.flags = flags(1, 1, 1, 0);
    run_instruction(&mut cpu);
    assert_eq!((cpu.reg_file.A, cpu.reg_file.flags), (0x01, flags(0, 0, 0, 1)));
    run_instruction(&mut cpu);
    assert_eq!((cpu.reg_file.A, cpu.reg_file.flags), (0x03, flags(0, 0, 0, 0)));
    run_instruction(&mut cpu);
    assert_eq!((cpu.reg_file.A, cpu.reg_file.flags), (0x81, flags(0, 0, 0, 1)));
    run_instruction(&mut cpu);
    assert_eq!((cpu.reg_file.A, cpu.reg_file.flags), (0xC0, flags(0, 0, 0, 1)));
    let mut cpu = cpu_with(&[0x17]);
    cpu.reg_file.A = 0x80;
    run_instruction(&mut cpu);
    assert_eq!((cpu.reg_file.A, cpu.reg_file.flags), (0x00, flags(0, 0, 0, 1)));
}

#[test]
fn complement_and_carry_flag_instructions() {
    let mut cpu = cpu_with(&[0x2F, 0x37, 0x3F, 0x3F]);
    cpu.reg_file.A = 0x35;
    cpu.reg_file.flags = flags(1, 0, 0, 0);
    run_instruction(&mut cpu);
    assert_eq!((cpu.reg_file.A, cpu.reg_file.flags), (0xCA, flags(1, 1, 1, 0)));
    run_instruction(&mut cpu);
    assert_eq!(cpu.reg_file.flags, flags(1, 0, 0, 1));
    run_instruction(&mut cpu);
    assert_eq!(cpu.reg_file.flags, flags(1, 0, 0, 0));
    run_instruction(&mut cpu);
    assert_eq!(cpu.reg_file.flags, flags(1, 0, 0, 1));
}

#[test]
fn loads_between_registers_and_memory() {
    let mut cpu = cpu_with(&[0x06, 0x12, 0x48, 0x21, 0x00, 0xC8, 0x71, 0x56, 0x36, 0x99, 0x7E]);
    run_instruction(&mut cpu);
    assert_eq!(cpu.reg_file.B, 0x12);
    run_instruction(&mut cpu);
    assert_eq!(cpu.reg_file.C, 0x12);
    run_instruction(&mut cpu);
    assert_eq!((cpu.reg_file.H, cpu.reg_file.L), (0xC8, 0x00));
    run_instruction(&mut cpu);
    assert_eq!(read(&mut cpu, 0xC800), 0x12);
    run_instruction(&mut cpu);
    assert_eq!(cpu.reg_file.D, 0x12);
    run_instruction(&mut cpu);
    assert_eq!(read(&mut cpu, 0xC800), 0x99);
    run_instruction(&mut cpu);
    assert_eq!(cpu.reg_file.A, 0x99);
    assert_eq!(cpu.pc, 0xC00B);
}

#[test]
fn loads_through_register_pairs() {
    let mut cpu = cpu_with(&[0x02, 0x12, 0x22, 0x32, 0x0A, 0x2A, 0x3A, 0x1A]);
    cpu.reg_file.A = 0x5A;
    cpu.reg_file.B = 0xC8;
    cpu.reg_file.C = 0x01;
    cpu.reg_file.D = 0xC8;
    cpu.reg_file.E = 0x02;
    cpu.reg_file.H = 0xC8;
    cpu.reg_file.L = 0xFF;
    run_instruction(&mut cpu);
    run_instruction(&mut cpu);
    run_instruction(&mut cpu);
    assert_eq!((cpu.reg_file.H, cpu.reg_file.L), (0xC9, 0x00));
    run_instruction(&mut cpu);
    assert_eq!((cpu.reg_file.H, cpu.reg_file.L), (0xC8, 0xFF));
    assert_eq!(read(&mut cpu, 0xC801), 0x5A);
    assert_eq!(read(&mut cpu, 0xC802), 0x5A);
    assert_eq!(read(&mut cpu, 0xC8FF), 0x5A);
    assert_eq!(read(&mut cpu, 0xC900), 0x5A);
    cpu.addr_bus = 0xC801;
    cpu.write_data(0x11);
    cpu.addr_bus = 0xC8FF;
    cpu.write_data(0x22);
    cpu.addr_bus = 0xC900;
    cpu.write_data(0x33);
    cpu.addr_bus = 0xC802;
    cpu.write_data(0x44);
    run_instruction(&mut cpu);
    assert_eq!(cpu.reg_file.A, 0x11);
    run_instruction(&mut cpu);
    assert_eq!(cpu.reg_file.A, 0x22);
    assert_eq!((cpu.reg_file.H, cpu.reg_file.L), (0xC9, 0x00));
    run_instruction(&mut cpu);
    assert_eq!(cpu.reg_file.A, 0x33);
    assert_eq!((cpu.reg_file.H, cpu.reg_file.L), (0xC8, 0xFF));
    run_instruction(&mut cpu);
    assert_eq!(cpu.reg_file.A, 0x44);
}

#[test]
fn hl_steps_wrap() {
    let mut cpu = cpu_with(&[0x2A, 0x3A, 0x3A]);
    cpu.reg_file.H = 0xFF;
    cpu.reg_file.L = 0xFF;
    run_instruction(&mut cpu);
    assert_eq!((cpu.reg_file.H, cpu.reg_file.L), (0x00, 0x00));
    run_instruction(&mut cpu);
    assert_eq!((cpu.reg_file.H, cpu.reg_file.L), (0xFF, 0xFF));
}

#[test]
fn sixteen_bit_arithmetic() {
    let mut cpu = cpu_with(&[0x03, 0x0B, 0x0B, 0x09, 0x39, 0x33]);
    cpu.reg_file.B = 0xFF;
    cpu.reg_file.C = 0xFF;
    cpu.reg_file.flags = flags(1, 1, 0, 0);
    run_instruction(&mut cpu);
    assert_eq!((cpu.reg_file.B, cpu.reg_file.C), (0x00, 0x00));
    assert_eq!(cpu.reg_file.flags, flags(1, 1, 0, 0));
    run_instruction(&mut cpu);
    assert_eq!((cpu.reg_file.B, cpu.reg_file.C), (0xFF, 0xFF));
    run_instruction(&mut cpu);
    assert_eq!((cpu.reg_file.B, cpu.reg_file.C), (0xFF, 0xFE));
    cpu.reg_file.H = 0x00;
    cpu.reg_file.L = 0x02;
    run_instruction(&mut cpu);
    assert_eq!((cpu.reg_file.H, cpu.reg_file.L), (0x00, 0x00));
    assert_eq!(cpu.reg_file.flags, flags(1, 0, 1, 1));
    cpu.reg_file.SP = 0x0FFF;
    cpu.reg_file.L = 0x01;
    run_instruction(&mut cpu);
    assert_eq!((cpu.reg_file.H, cpu.reg_file.L), (0x10, 0x00));
    assert_eq!(cpu.reg_file.flags, flags(1, 0, 1, 0));
    run_instruction(&mut cpu);
    assert_eq!(cpu.reg_file.SP, 0x1000);
}

#[test]
fn stack_pointer_instructions() {
    let mut cpu = cpu_with(&[0x31, 0xF8, 0xFF, 0xE8, 0x02, 0xF8, 0xFE, 0xF9, 0x08, 0x00, 0xC8]);
    run_instruction(&mut cpu);
    assert_eq!(cpu.reg_file.SP, 0xFFF8);
    run_instruction(&mut cpu);
    assert_eq!(cpu.reg_file.SP, 0xFFFA);
    assert_eq!(cpu.reg_file.flags, flags(0, 0, 0, 0));
    run_instruction(&mut cpu);
    assert_eq!((cpu.reg_file.H, cpu.reg_file.L), (0xFF, 0xF8));
    assert_eq!(cpu.reg_file.flags, flags(0, 0, 1, 1));
    assert_eq!(cpu.reg_file.SP, 0xFFFA);
    cpu.reg_file.L = 0x34;
    cpu.reg_file.H = 0x12;
    run_instruction(&mut cpu);
    assert_eq!(cpu.reg_file.SP, 0x1234);
    run_instruction(&mut cpu);
    assert_eq!(read(&mut cpu, 0xC800), 0x34);
    assert_eq!(read(&mut cpu, 0xC801), 0x12);
    assert_eq!(cpu.pc, 0xC00B);
}

#[test]
fn push_and_pop_pairs() {
    let mut cpu = cpu_with(&[0xC5, 0xD1, 0xF5, 0xE1, 0xE5, 0xF1]);
    cpu.reg_file.B = 0x12;
    cpu.reg_file.C = 0x34;
    cpu.reg_file.A = 0x56;
    cpu.reg_file.flags = flags(1, 0, 1, 0);
    run_instruction(&mut cpu);
    assert_eq!(cpu.reg_file.SP, 0xCFFE);
    assert_eq!(read(&mut cpu, 0xCFFF), 0x12);
    assert_eq!(read(&mut cpu, 0xCFFE), 0x34);
    run_instruction(&mut cpu);
    assert_eq!((cpu.reg_file.D, cpu.reg_file.E), (0x12, 0x34));
    assert_eq!(cpu.reg_file.SP, 0xD000);
    run_instruction(&mut cpu);
    run_instruction(&mut cpu);
    assert_eq!((cpu.reg_file.H, cpu.reg_file.L), (0x56, 0xA0));
    cpu.reg_file.L = 0xFF;
    run_instruction(&mut cpu);
    run_instruction(&mut cpu);
    assert_eq!(cpu.reg_file.A, 0x56);
    assert_eq!(cpu.reg_file.flags, flags(1, 1, 1, 1));
    assert_eq!(cpu.reg_file.SP, 0xD000);
}

#[test]
fn jumps_calls_and_returns() {
    let mut cpu = cpu_with(&[0xC3, 0x10, 0xC0]);
    for (i, byte) in [0xCDu8, 0x20, 0xC0, 0xE9].iter().enumerate() {
        cpu.addr_bus = 0xC010 + i as u16;
        cpu.write_data(*byte);
    }
    for (i, byte) in [0xC8u8, 0xC0, 0xC9].iter().enumerate() {
        cpu.addr_bus = 0xC020 + i as u16;
        cpu.write_data(*byte);
    }
    assert_eq!(run_instruction(&mut cpu), 4);
    assert_eq!(cpu.pc, 0xC010);
    assert_eq!(run_instruction(&mut cpu), 6);
    assert_eq!(cpu.pc, 0xC020);
    assert_eq!(cpu.reg_file.SP, 0xCFFE);
    assert_eq!(read(&mut cpu, 0xCFFF), 0xC0);
    assert_eq!(read(&mut cpu, 0xCFFE), 0x13);
    assert_eq!(run_instruction(&mut cpu), 2);
    assert_eq!(cpu.pc, 0xC021);
    assert_eq!(run_instruction(&mut cpu), 5);
    assert_eq!(cpu.pc, 0xC013);
    assert_eq!(cpu.reg_file.SP, 0xD000);
    cpu.reg_file.H = 0x12;
    cpu.reg_file.L = 0x34;
    assert_eq!(run_instruction(&mut cpu), 1);
    assert_eq!(cpu.pc, 0x1234);
}

#[test]
fn conditional_jumps_and_calls_not_taken() {
    for (opcode, flag_byte) in [(0xC2u8, 0x80u8), (0xCA, 0x00), (0xD2, 0x10), (0xDA, 0x00)] {
        let mut cpu = cpu_with(&[opcode, 0x34, 0x12]);
        cpu.reg_file.flags = flag_byte.into();
        assert_eq!(run_instruction(&mut cpu), 3);
        assert_eq!(cpu.pc, 0xC003);
        let mut cpu = cpu_with(&[opcode, 0x34, 0x12]);
        cpu.reg_file.flags = (flag_byte ^ 0x90).into();
        assert_eq!(run_instruction(&mut cpu), 4);
        assert_eq!(cpu.pc, 0x1234);
    }
    for (opcode, flag_byte) in [(0xC4u8, 0x80u8), (0xCC, 0x00), (0xD4, 0x10), (0xDC, 0x00)] {
        let mut cpu = cpu_with(&[opcode, 0x34, 0x12]);
        cpu.reg_file.flags = flag_byte.into();
        assert_eq!(run_instruction(&mut cpu), 3);
        assert_eq!(cpu.pc, 0xC003);
        assert_eq!(cpu.reg_file.SP, 0xD000);
        let mut cpu = cpu_with(&[opcode, 0x34, 0x12]);
        cpu.reg_file.flags = (flag_byte ^ 0x90).into();
        assert_eq!(run_instruction(&mut cpu), 6);
        assert_eq!(cpu.pc, 0x1234);
        assert_eq!(cpu.reg_file.SP, 0xCFFE);
    }
}

#[test]
fn restarts() {
    for (opcode, vector) in [
        (0xC7u8, 0x00u16),
        (0xCF, 0x08),
        (0xD7, 0x10),
        (0xDF, 0x18),
        (0xE7, 0x20),
        (0xEF, 0x28),
        (0xF7, 0x30),
        (0xFF, 0x38),
    ] {
        let mut cpu = cpu_with(&[opcode]);
        assert_eq!(run_instruction(&mut cpu), 4);
        assert_eq!(cpu.pc, vector);
        assert_eq!(read(&mut cpu, 0xCFFF), 0xC0);
        assert_eq!(read(&mut cpu, 0xCFFE), 0x01);
    }
}

#[test]
fn high_page_loads() {
    let mut cpu = cpu_with(&[0xE0, 0x80, 0xF0, 0x80, 0xE2, 0xF2, 0xEA, 0x00, 0xC8, 0xFA, 0x00, 0xC8]);
    cpu.reg_file.A = 0x77;
    run_instruction(&mut cpu);
    assert_eq!(read(&mut cpu, 0xFF80), 0x77);
    cpu.reg_file.A = 0;
    run_instruction(&mut cpu);
    assert_eq!(cpu.reg_file.A, 0x77);
    cpu.reg_file.C = 0x81;
    cpu.reg_file.A = 0x88;
    run_instruction(&mut cpu);
    assert_eq!(read(&mut cpu, 0xFF81), 0x88);
    cpu.reg_file.A = 0;
    run_instruction(&mut cpu);
    assert_eq!(cpu.reg_file.A, 0x88);
    run_instruction(&mut cpu);
    assert_eq!(read(&mut cpu, 0xC800), 0x88);
    cpu.reg_file.A = 0;
    run_instruction(&mut cpu);
    assert_eq!(cpu.reg_file.A, 0x88);
    assert_eq!(cpu.pc, 0xC00C);
}

#[test]
fn extended_rotations_on_registers() {
    let mut cpu = cpu_with(&[0xCB, 0x00, 0xCB, 0x09, 0xCB, 0x12, 0xCB, 0x1B, 0xCB, 0x24, 0xCB, 0x2D, 0xCB, 0x37, 0xCB, 0x3F]);
    cpu.reg_file.B = 0x85;
    cpu.reg_file.C = 0x01;
    cpu.reg_file.D = 0x80;
    cpu.reg_file.E = 0x01;
    cpu.reg_file.H = 0x80;
    cpu.reg_file.L = 0x8A;
    cpu.reg_file.A = 0xF0;
    assert_eq!(run_instruction(&mut cpu), 2);
    assert_eq!((cpu.reg_file.B, cpu.reg_file.flags), (0x0B, flags(0, 0, 0, 1)));
    run_instruction(&mut cpu);
    assert_eq!((cpu.reg_file.C, cpu.reg_file.flags), (0x80, flags(0, 0, 0, 1)));
    run_instruction(&mut cpu);
    assert_eq!((cpu.reg_file.D, cpu.reg_file.flags), (0x01, flags(0, 0, 0, 1)));
    run_instruction(&mut cpu);
    assert_eq!((cpu.reg_file.E, cpu.reg_file.flags), (0x80, flags(0, 0, 0, 1)));
    run_instruction(&mut cpu);
    assert_eq!((cpu.reg_file.H, cpu.reg_file.flags), (0x00, flags(1, 0, 0, 1)));
    run_instruction(&mut cpu);
    assert_eq!((cpu.reg_file.L, cpu.reg_file.flags), (0xC5, flags(0, 0, 0, 0)));
    run_instruction(&mut cpu);
    assert_eq!((cpu.reg_file.A, cpu.reg_file.flags), (0x0F, flags(0, 0, 0, 0)));
    run_instruction(&mut cpu);
    assert_eq!((cpu.reg_file.A, cpu.reg_file.flags), (0x07, flags(0, 0, 0, 1)));
    assert_eq!(cpu.pc, 0xC010);
}

#[test]
fn extended_operations_on_memory_match_those_on_registers() {
    for family in 0..8u8 {
        for value in [0x00u8, 0x01, 0x80, 0x81, 0x7E, 0xF0, 0xFF] {
            for carry in 0..=1u8 {
                let mut on_register = cpu_with(&[0xCB, family * 8]);
                on_register.reg_file.B = value;
                on_register.reg_file.flags = flags(0, 1, 1, carry);
                assert_eq!(run_instruction(&mut on_register), 2);
                let mut on_memory = cpu_with(&[0xCB, family * 8 + 6]);
                on_memory.reg_file.H = 0xC8;
                on_memory.addr_bus = 0xC800;
                on_memory.write_data(value);
                on_memory.reg_file.flags = flags(0, 1, 1, carry);
                assert_eq!(run_instruction(&mut on_memory), 4);
                assert_eq!(read(&mut on_memory, 0xC800), on_register.reg_file.B);
                assert_eq!(on_memory.reg_file.flags, on_register.reg_file.flags);
                assert_eq!(on_memory.pc, 0xC002);
            }
        }
    }
}

#[test]
fn extended_bit_instructions() {
    for bit in 0..8u8 {
        for value in [0x00u8, 0xFF, 0xA5, 0x5A] {
            let mut cpu = cpu_with(&[0xCB, 0x40 + bit * 8 + 1, 0xCB, 0x80 + bit * 8 + 2, 0xCB, 0xC0 + bit * 8 + 3]);
            cpu.reg_file.C = value;
            cpu.reg_file.D = value;
            cpu.reg_file.E = value;
            cpu.reg_file.flags = flags(0, 1, 0, 1);
            run_instruction(&mut cpu);
            assert_eq!(cpu.reg_file.flags, flags((value & (1 << bit) == 0) as u8, 0, 1, 1));
            assert_eq!(cpu.reg_file.C, value);
            run_instruction(&mut cpu);
            assert_eq!(cpu.reg_file.D, value & !(1 << bit));
            run_instruction(&mut cpu);
            assert_eq!(cpu.reg_file.E, value | (1 << bit));
            assert_eq!(cpu.reg_file.flags, flags((value & (1 << bit) == 0) as u8, 0, 1, 1));
            let mut cpu = cpu_with(&[0xCB, 0x46 + bit * 8, 0xCB, 0x86 + bit * 8, 0xCB, 0xC6 + bit * 8]);
            cpu.reg_file.H = 0xC8;
            cpu.addr_bus = 0xC800;
            cpu.write_data(value);
            assert_eq!(run_instruction(&mut cpu), 3);
            assert_eq!(cpu.reg_file.flags.Z == 1, value & (1 << bit) == 0);
            assert_eq!(run_instruction(&mut cpu), 4);
            assert_eq!(read(&mut cpu, 0xC800), value & !(1 << bit));
            assert_eq!(run_instruction(&mut cpu), 4);
            assert_eq!(read(&mut cpu, 0xC800), (value & !(1 << bit)) | (1 << bit));
        }
    }
}

#[test]
fn ei_takes_effect_after_the_next_instruction() {
    let mut cpu = cpu_with(&[0xFB, 0x00, 0x00]);
    cpu.step(false).unwrap();
    assert!(!cpu.ime);
    assert!(cpu.pass_in.1.ei);
    cpu.step(false).unwrap();
    assert!(cpu.ime);
    assert!(!cpu.pass_in.1.ei);
    assert_eq!(cpu.pc, 0xC002);
}

#[test]
fn di_takes_effect_at_once() {
    let mut cpu = cpu_with(&[0xF3, 0x00]);
    cpu.ime = true;
    cpu.step(false).unwrap();
    assert!(!cpu.ime);
    assert!(!cpu.pass_in.1.di);
    assert_eq!(cpu.pc, 0xC001);
}

#[test]
fn reti_enables_interrupts() {
    let mut cpu = cpu_with(&[0xD9]);
    cpu.reg_file.SP = 0xCFFE;
    cpu.addr_bus = 0xCFFE;
    cpu.write_data(0x34);
    cpu.addr_bus = 0xCFFF;
    cpu.write_data(0x12);
    assert_eq!(run_instruction(&mut cpu), 4);
    assert!(cpu.ime);
    assert_eq!(cpu.pc, 0x1234);
    assert_eq!(cpu.reg_file.SP, 0xD000);
}
