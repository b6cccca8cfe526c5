use chip8::cpu::CPU;
use chip8::fault::Status;
use chip8::keyboard::Keyboard;
use chip8::renderer::Renderer;

fn machine_with_font() -> (CPU, Renderer, Keyboard) {
    let mut cpu = CPU::new();
    cpu.loadSpritesIntoMemory();
    (cpu, Renderer::new(), Keyboard::new())
}

fn execute_all(cpu: &mut CPU, renderer: &mut Renderer, keyboard: &mut Keyboard, opcodes: &[u16]) {
    for opcode in opcodes {
        assert_eq!(
            cpu.executeInstruction(*opcode, renderer, keyboard),
            Ok(Status::Executed)
        );
    }
}

fn lit_pixels(renderer: &Renderer) -> Vec<(usize, usize)> {
    let mut lit = Vec::new();
    for y in 0..144 {
        for x in 0..160 {
            if renderer.isLit(x, y) {
                lit.push((x, y));
            }
        }
    }
    lit
}

#[test]
fn new_display_is_dark() {
    let renderer = Renderer::new();
    assert_eq!(lit_pixels(&renderer), vec![]);
}

#[test]
fn set_pixel_toggles_and_reports_whether_the_pixel_went_off() {
    let mut renderer = Renderer::new();
    assert!(!renderer.setPixel(3, 2));
    assert!(renderer.isLit(3, 2));
    assert_eq!(lit_pixels(&renderer), vec![(3, 2)]);
    assert!(renderer.setPixel(3, 2));
    assert!(!renderer.isLit(3, 2));
    assert_eq!(lit_pixels(&renderer), vec![]);
}

#[test]
fn set_pixel_wraps_both_coordinates() {
    let mut renderer = Renderer::new();
    renderer.setPixel(160, 0);
    assert_eq!(lit_pixels(&renderer), vec![(0, 0)]);
    renderer.setPixel(161, 145);
    assert_eq!(lit_pixels(&renderer), vec![(0, 0), (1, 1)]);
    renderer.setPixel(159, 143);
    assert_eq!(lit_pixels(&renderer), vec![(0, 0), (1, 1), (159, 143)]);
    assert!(renderer.setPixel(320, 288));
    assert_eq!(lit_pixels(&renderer), vec![(1, 1), (159, 143)]);
    assert!(renderer.setPixel(160 * 7 + 1, 144 * 5 + 1));
    assert_eq!(lit_pixels(&renderer), vec![(159, 143)]);
    renderer.setPixel(usize::MAX, usize::MAX);
    assert!(renderer.isLit(usize::MAX % 160, usize::MAX % 144));
}

#[test]
fn clear_after_any_toggles_equals_a_new_display() {
    let mut renderer = Renderer::new();
    renderer.clear();
    for step in 0..500usize {
        renderer.setPixel(step * 37, step * 91 + 5);
    }
    assert!(!lit_pixels(&renderer).is_empty());
    renderer.clear();
    assert_eq!(lit_pixels(&renderer), vec![]);
    assert_eq!(renderer.render(), Renderer::new().render());
}

#[test]
fn clear_screen_instruction_blanks_the_display() {
    let (mut cpu, mut r, mut k) = machine_with_font();
    execute_all(&mut cpu, &mut r, &mut k, &[0x00E0, 0xD015, 0xA005, 0xD125]);
    assert!(!lit_pixels(&r).is_empty());
    execute_all(&mut cpu, &mut r, &mut k, &[0x00E0]);
    assert_eq!(lit_pixels(&r), vec![]);
    assert_eq!(r.render(), Renderer::new().render());
    assert_eq!(cpu.programCounter(), 0x20A);
}

#[test]
fn render_after_a_cycle_shows_what_the_cycle_drew() {
    let (mut cpu, mut r, mut k) = machine_with_font();
    assert_eq!(
        cpu.loadProgramIntoMemory(vec![0xA0, 0x00, 0xD0, 0x05, 0x12, 0x04]),
        Ok(())
    );
    assert_eq!(cpu.cycle(&mut r, &mut k), Ok(vec![]));
    let frame = r.render();
    assert_eq!(frame.len(), 160 * 144 * 4);
    assert_eq!(frame.chunks(4).filter(|p| p[0] == 0xFF).count(), 14);
    assert_eq!(&frame[0..4], &[0xFF, 0xFF, 0xFF, 0xFF]);
    assert_eq!(&frame[16..20], &[0, 0, 0, 0xFF]);
}

#[test]
fn render_gives_four_bytes_per_pixel() {
    let mut renderer = Renderer::new();
    renderer.setPixel(1, 0);
    renderer.setPixel(0, 1);
    let frame = renderer.render();
    assert_eq!(frame.len(), 160 * 144 * 4);
    assert_eq!(&frame[0..4], &[0, 0, 0, 0xFF]);
    assert_eq!(&frame[4..8], &[0xFF, 0xFF, 0xFF, 0xFF]);
    assert_eq!(&frame[8..12], &[0, 0, 0, 0xFF]);
    assert_eq!(&frame[640..644], &[0xFF, 0xFF, 0xFF, 0xFF]);
    let white = frame.chunks(4).filter(|p| p[0] == 0xFF).count();
    assert_eq!(white, 2);
    assert!(frame.chunks(4).all(|p| p[3] == 0xFF && p[0] == p[1] && p[1] == p[2]));
}

#[test]
fn draw_puts_the_glyph_on_the_display() {
    let (mut cpu, mut r, mut k) = machine_with_font();
    execute_all(&mut cpu, &mut r, &mut k, &[0x6002, 0x6103, 0xA000, 0xD015]);
    let expected = vec![
        (2, 3), (3, 3), (4, 3), (5, 3),
        (2, 4), (5, 4),
        (2, 5), (5, 5),
        (2, 6), (5, 6),
        (2, 7), (3, 7), (4, 7), (5, 7),
    ];
    assert_eq!(lit_pixels(&r), expected);
    assert_eq!(cpu.registers()[0xF], 0);
    assert_eq!(cpu.indexRegister(), 0);
    assert_eq!(cpu.programCounter(), 0x208);
}

#[test]
fn drawing_twice_erases_and_reports_collision() {
    let (mut cpu, mut r, mut k) = machine_with_font();
    execute_all(&mut cpu, &mut r, &mut k, &[0x6002, 0x6103, 0xA000, 0xD015]);
    assert_eq!(cpu.registers()[0xF], 0);
    execute_all(&mut cpu, &mut r, &mut k, &[0xD015]);
    assert_eq!(lit_pixels(&r), vec![]);
    assert_eq!(cpu.registers()[0xF], 1);
    execute_all(&mut cpu, &mut r, &mut k, &[0xD015]);
    assert_eq!(cpu.registers()[0xF], 0);
}

#[test]
fn partial_overlap_collides_and_flips_only_covered_pixels() {
    let (mut cpu, mut r, mut k) = machine_with_font();
    execute_all(&mut cpu, &mut r, &mut k, &[0x6000, 0x6100, 0xA000, 0xD011]);
    assert_eq!(lit_pixels(&r), vec![(0, 0), (1, 0), (2, 0), (3, 0)]);
    execute_all(&mut cpu, &mut r, &mut k, &[0x6002, 0xD011]);
    assert_eq!(lit_pixels(&r), vec![(0, 0), (1, 0), (4, 0), (5, 0)]);
    assert_eq!(cpu.registers()[0xF], 1);
    execute_all(&mut cpu, &mut r, &mut k, &[0x6006, 0xD011]);
    assert_eq!(
        lit_pixels(&r),
        vec![(0, 0), (1, 0), (4, 0), (5, 0), (6, 0), (7, 0), (8, 0), (9, 0)]
    );
    assert_eq!(cpu.registers()[0xF], 0);
}

#[test]
fn draw_wraps_around_the_edges() {
    let (mut cpu, mut r, mut k) = machine_with_font();
    execute_all(&mut cpu, &mut r, &mut k, &[0x609E, 0x618F, 0xA000, 0xD012]);
    assert_eq!(
        lit_pixels(&r),
        vec![(1, 0), (158, 0), (0, 143), (1, 143), (158, 143), (159, 143)]
    );
    assert_eq!(cpu.registers()[0xF], 0);
}

#[test]
fn draw_with_large_coordinates_wraps_modulo_the_display() {
    let (mut cpu, mut r, mut k) = machine_with_font();
    execute_all(&mut cpu, &mut r, &mut k, &[0x60FF, 0x61FF, 0xA000, 0xD011]);
    assert_eq!(
        lit_pixels(&r),
        vec![(95, 111), (96, 111), (97, 111), (98, 111)]
    );
}

#[test]
fn draw_of_zero_rows_changes_only_the_flag() {
    let (mut cpu, mut r, mut k) = machine_with_font();
    execute_all(&mut cpu, &mut r, &mut k, &[0x6F09, 0xD010]);
    assert_eq!(lit_pixels(&r), vec![]);
    assert_eq!(cpu.registers()[0xF], 0);
}

#[test]
fn draw_placed_by_the_flag_register_uses_its_value_before_the_instruction() {
    let (mut cpu, mut r, mut k) = machine_with_font();
    execute_all(&mut cpu, &mut r, &mut k, &[0x6F09, 0x6102, 0xA000, 0xDF11]);
    assert_eq!(lit_pixels(&r), vec![(9, 2), (10, 2), (11, 2), (12, 2)]);
    assert_eq!(cpu.registers()[0xF], 0);
    execute_all(&mut cpu, &mut r, &mut k, &[0x6F04, 0xA001, 0xD1F1]);
    assert_eq!(
        lit_pixels(&r),
        vec![(9, 2), (10, 2), (11, 2), (12, 2), (2, 4), (5, 4)]
    );
    assert_eq!(cpu.registers()[0xF], 0);
}

#[test]
fn sprite_placed_by_the_flag_register_stays_in_one_place_when_it_collides() {
    let (mut cpu, mut r, mut k) = machine_with_font();
    r.setPixel(0, 0);
    execute_all(&mut cpu, &mut r, &mut k, &[0x6100, 0xA000, 0xDF11]);
    assert_eq!(lit_pixels(&r), vec![(1, 0), (2, 0), (3, 0)]);
    assert_eq!(cpu.registers()[0xF], 1);
    let (mut cpu, mut r, mut k) = machine_with_font();
    r.setPixel(5, 3);
    execute_all(&mut cpu, &mut r, &mut k, &[0x6105, 0x6F03, 0xA000, 0xD1F2]);
    assert_eq!(
        lit_pixels(&r),
        vec![(6, 3), (7, 3), (8, 3), (5, 4), (8, 4)]
    );
    assert_eq!(cpu.registers()[0xF], 1);
}

#[test]
fn draw_reads_sprite_rows_from_the_index_register_on() {
    let (mut cpu, mut r, mut k) = machine_with_font();
    assert_eq!(cpu.loadProgramIntoMemory(vec![0x81, 0x00, 0x01]), Ok(()));
    execute_all(&mut cpu, &mut r, &mut k, &[0x6000, 0x6100, 0xA200, 0xD013]);
    assert_eq!(lit_pixels(&r), vec![(0, 0), (7, 0), (7, 2)]);
}
