use gb_core::error::CoreError;
use gb_core::interrupts::{InterruptType, Interrupts};
use gb_core::register_type::{RegisterType16, RegisterType8};
use gb_core::Core;

#[test]
fn core_starts_at_power_on() {
    let core = Core::new();
    assert_eq!(core.cpu.register.read_16(RegisterType16::PC), 0x0100);
    assert_eq!(core.cpu.register.read_16(RegisterType16::SP), 0xFFFE);
    assert_eq!(core.cpu.memory.read(0x0100), 0x00);
}

#[test]
fn core_loads_a_game_and_runs_it() {
    let mut core = Core::new();
    let mut game = vec![0u8; 0x0104];
    game[0x0100] = 0x3E;
    game[0x0101] = 0x42;
    game[0x0102] = 0x06;
    game[0x0103] = 0x07;
    core.load_game(&game);
    assert_eq!(core.cpu.memory.read(0x0100), 0x3E);
    assert_eq!(core.tick(), Ok(8));
    assert_eq!(core.tick(), Ok(8));
    assert_eq!(core.cpu.register.read_8(RegisterType8::A), 0x42);
    assert_eq!(core.cpu.register.read_8(RegisterType8::B), 0x07);
    assert_eq!(core.cpu.register.read_16(RegisterType16::PC), 0x0104);
}

#[test]
fn core_reports_an_opcode_without_behaviour() {
    let mut core = Core::new();
    let mut game = vec![0u8; 0x0101];
    game[0x0100] = 0x76;
    core.load_game(&game);
    assert_eq!(core.tick(), Err(CoreError::UnimplementedOpcode { opcode: 0x76, pc: 0x0100 }));
    assert_eq!(core.cpu.register.read_16(RegisterType16::PC), 0x0100);
}

#[test]
fn load_game_leaves_the_registers() {
    let mut core = Core::new();
    core.load_game(&[0x01, 0x02]);
    assert_eq!(core.cpu.register.read_16(RegisterType16::PC), 0x0100);
    assert_eq!(core.cpu.register.read_8(RegisterType8::A), 0x01);
    assert_eq!(core.cpu.memory.read(0x0001), 0x02);
}

#[test]
fn interrupts_accept_a_timer_request() {
    let mut interrupts = Interrupts::new();
    interrupts.write(InterruptType::Timer, true);
    interrupts.write(InterruptType::Timer, false);
}
