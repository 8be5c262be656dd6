use gameboy_core::gameboy::Gameboy;

#[test]
fn load_a_then_halt() {
    let mut gameboy = Gameboy::new();
    gameboy.load_boot_rom(&[0x3E, 0x05, 0x76]);
    let mut steps = 0;
    while !gameboy.cpu.halted() {
        gameboy.step_gameboy().unwrap();
        steps += 1;
        assert!(steps < 10);
    }
    assert_eq!(steps, 3);
    assert_eq!(gameboy.cpu.reg_file.A, 5);
    assert_eq!(gameboy.cpu.pc, 2);
    for _ in 0..100 {
        gameboy.step_gameboy().unwrap();
    }
    assert!(gameboy.cpu.halted());
    assert_eq!(gameboy.cpu.reg_file.A, 5);
    assert_eq!(gameboy.cpu.pc, 2);
}
