use chip8::cpu::CPU;
use chip8::fault::Status;
use chip8::keyboard::{Key, KeyEvent, Keyboard};
use chip8::renderer::Renderer;

#[test]
fn new_keyboard_knows_sixteen_released_keys() {
    let keyboard = Keyboard::new();
    for code in 0..16u8 {
        assert_eq!(keyboard.keyState(code), Some(false));
        assert!(!keyboard.isKeyPressed(code));
    }
    for code in 16..=255u8 {
        assert_eq!(keyboard.keyState(code), None);
    }
}

#[test]
fn key_down_and_up_are_recorded() {
    let mut keyboard = Keyboard::new();
    let mut cpu = CPU::new();
    keyboard.onKeyDown(4, &mut cpu);
    assert!(keyboard.isKeyPressed(4));
    assert!(!keyboard.isKeyPressed(5));
    keyboard.onKeyUp(4);
    assert!(!keyboard.isKeyPressed(4));
    keyboard.onKeyDown(200, &mut cpu);
    assert_eq!(keyboard.keyState(200), Some(true));
    keyboard.onKeyUp(201);
    assert_eq!(keyboard.keyState(201), Some(false));
    assert_eq!(cpu.registers(), [0u8; 16]);
    assert!(!cpu.isPaused());
}

#[test]
fn key_down_wakes_a_waiting_machine_only() {
    let mut keyboard = Keyboard::new();
    let mut renderer = Renderer::new();
    let mut cpu = CPU::new();
    keyboard.onKeyDown(3, &mut cpu);
    assert_eq!(cpu.registers()[0], 0);
    assert_eq!(
        cpu.executeInstruction(0xF20A, &mut renderer, &mut keyboard),
        Ok(Status::Executed)
    );
    keyboard.onKeyUp(3);
    assert!(cpu.isPaused());
    keyboard.onKeyDown(0xC, &mut cpu);
    assert!(!cpu.isPaused());
    assert_eq!(cpu.registers()[2], 0xC);
    keyboard.onKeyDown(0xD, &mut cpu);
    assert_eq!(cpu.registers()[2], 0xC);
}

#[test]
fn keys_map_to_the_keypad_layout() {
    let layout = [
        (Key::Key1, 0x1), (Key::Key2, 0x2), (Key::Key3, 0x3), (Key::Key4, 0xC),
        (Key::Q, 0x4), (Key::W, 0x5), (Key::E, 0x6), (Key::R, 0xD),
        (Key::A, 0x7), (Key::S, 0x8), (Key::D, 0x9), (Key::F, 0xE),
        (Key::Z, 0xA), (Key::X, 0x0), (Key::C, 0xB), (Key::V, 0xF),
    ];
    let mut seen = [false; 16];
    for (key, code) in layout {
        assert_eq!(key.code(), code);
        seen[code as usize] = true;
    }
    assert!(seen.iter().all(|s| *s));
}

#[test]
fn handle_input_hears_events_in_order() {
    let mut keyboard = Keyboard::new();
    let mut cpu = CPU::new();
    let events = vec![
        KeyEvent::Down(Key::Q),
        KeyEvent::Down(Key::V),
        KeyEvent::Up(Key::Q),
        KeyEvent::Down(Key::X),
        KeyEvent::Up(Key::X),
        KeyEvent::Down(Key::X),
    ];
    keyboard.handleInput(&events, &mut cpu);
    assert!(!keyboard.isKeyPressed(0x4));
    assert!(keyboard.isKeyPressed(0xF));
    assert!(keyboard.isKeyPressed(0x0));
    assert!(!keyboard.isKeyPressed(0x1));
    keyboard.handleInput(&vec![], &mut cpu);
    assert!(keyboard.isKeyPressed(0xF));
}

#[test]
fn handle_input_gives_a_waiting_machine_the_first_key_that_goes_down() {
    let mut keyboard = Keyboard::new();
    let mut renderer = Renderer::new();
    let mut cpu = CPU::new();
    assert_eq!(
        cpu.executeInstruction(0xF50A, &mut renderer, &mut keyboard),
        Ok(Status::Executed)
    );
    let events = vec![
        KeyEvent::Up(Key::A),
        KeyEvent::Down(Key::R),
        KeyEvent::Down(Key::Z),
    ];
    keyboard.handleInput(&events, &mut cpu);
    assert!(!cpu.isPaused());
    assert_eq!(cpu.registers()[5], 0xD);
    assert!(keyboard.isKeyPressed(0xD));
    assert!(keyboard.isKeyPressed(0xA));
}
