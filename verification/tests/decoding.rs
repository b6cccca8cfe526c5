use chip8::instruction::{decode, Instruction};
use chip8::tile::Tile;

#[test]
fn decode_names_each_instruction() {
    assert_eq!(decode(0x00E0), Instruction::ClearScreen);
    assert_eq!(decode(0x00EE), Instruction::Return);
    assert_eq!(decode(0x1ABC), Instruction::Jump { target: 0xABC });
    assert_eq!(decode(0x2FFF), Instruction::Call { target: 0xFFF });
    assert_eq!(decode(0x3A12), Instruction::SkipIfEqual { x: 0xA, value: 0x12 });
    assert_eq!(decode(0x4B34), Instruction::SkipIfNotEqual { x: 0xB, value: 0x34 });
    assert_eq!(decode(0x5120), Instruction::SkipIfRegistersDiffer { x: 1, y: 2 });
    assert_eq!(decode(0x9340), Instruction::SkipIfRegistersDiffer { x: 3, y: 4 });
    assert_eq!(decode(0x6C56), Instruction::Load { x: 0xC, value: 0x56 });
    assert_eq!(decode(0x7D78), Instruction::AddValue { x: 0xD, value: 0x78 });
    assert_eq!(decode(0x8120), Instruction::Move { x: 1, y: 2 });
    assert_eq!(decode(0x8121), Instruction::Or { x: 1, y: 2 });
    assert_eq!(decode(0x8122), Instruction::And { x: 1, y: 2 });
    assert_eq!(decode(0x8123), Instruction::Xor { x: 1, y: 2 });
    assert_eq!(decode(0x8EF4), Instruction::AddRegister { x: 0xE, y: 0xF });
    assert_eq!(decode(0x8125), Instruction::Subtract { x: 1, y: 2 });
    assert_eq!(decode(0x8126), Instruction::ShiftRight { x: 1 });
    assert_eq!(decode(0x8127), Instruction::SubtractFrom { x: 1, y: 2 });
    assert_eq!(decode(0x812E), Instruction::ShiftLeft { x: 1 });
    assert_eq!(decode(0xA123), Instruction::SetIndex { address: 0x123 });
    assert_eq!(decode(0xB456), Instruction::JumpOffset { base: 0x456 });
    assert_eq!(decode(0xC7F0), Instruction::Random { x: 7, mask: 0xF0 });
    assert_eq!(decode(0xD12F), Instruction::Draw { x: 1, y: 2, rows: 15 });
    assert_eq!(decode(0xE39E), Instruction::SkipIfKeyDown { x: 3 });
    assert_eq!(decode(0xE3A1), Instruction::SkipIfKeyUp { x: 3 });
    assert_eq!(decode(0xF407), Instruction::ReadDelay { x: 4 });
    assert_eq!(decode(0xF40A), Instruction::AwaitKey { x: 4 });
    assert_eq!(decode(0xF415), Instruction::SetDelay { x: 4 });
    assert_eq!(decode(0xF418), Instruction::SetSound { x: 4 });
    assert_eq!(decode(0xF41E), Instruction::AddToIndex { x: 4 });
    assert_eq!(decode(0xF429), Instruction::Glyph { x: 4 });
    assert_eq!(decode(0xF433), Instruction::Decimal { x: 4 });
    assert_eq!(decode(0xF455), Instruction::Store { x: 4 });
    assert_eq!(decode(0xF465), Instruction::Restore { x: 4 });
}

#[test]
fn decode_calls_everything_else_unknown() {
    for opcode in [0x0000u16, 0x00E1, 0x00EF, 0x0FFF, 0x8008, 0x800F, 0xE09F, 0xE0A0, 0xF000, 0xF066] {
        assert_eq!(decode(opcode), Instruction::Unknown);
    }
}

#[test]
fn register_comparisons_ignore_the_last_nibble() {
    assert_eq!(decode(0x512F), Instruction::SkipIfRegistersDiffer { x: 1, y: 2 });
    assert_eq!(decode(0x9127), Instruction::SkipIfRegistersDiffer { x: 1, y: 2 });
}

#[test]
fn every_opcode_decodes_to_operands_in_range() {
    for opcode in 0..=0xFFFFu16 {
        match decode(opcode) {
            Instruction::Jump { target } | Instruction::Call { target } => {
                assert_eq!(target, opcode & 0xFFF)
            }
            Instruction::Draw { x, y, rows } => {
                assert_eq!(
                    (x as u16, y as u16, rows as u16),
                    ((opcode >> 8) & 0xF, (opcode >> 4) & 0xF, opcode & 0xF)
                )
            }
            Instruction::Load { x, value } => {
                assert_eq!((x as u16, value as u16), ((opcode >> 8) & 0xF, opcode & 0xFF))
            }
            _ => {}
        }
    }
}

#[test]
fn new_tile_is_blank() {
    let tile = Tile::new();
    assert_eq!(tile.pixels.len(), 64);
    assert!(tile.pixels.iter().all(|p| *p == 0));
}
