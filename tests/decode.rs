use chip8::{parse_instruction, Instruction};

#[test]
fn decode_scenario_words() {
    assert_eq!(parse_instruction(0x00, 0xE0), Instruction::ClearScreen);
    assert_eq!(parse_instruction(0xA1, 0x23), Instruction::LoadIndex(0x123));
    assert_eq!(parse_instruction(0xD0, 0x15), Instruction::Draw(0, 1, 5));
}

#[test]
fn decode_every_kind() {
    let cases: Vec<(u8, u8, Instruction)> = vec![
        (0x00, 0xEE, Instruction::Return),
        (0x1A, 0xBC, Instruction::Jump(0xABC)),
        (0x2F, 0x00, Instruction::Call(0xF00)),
        (0x3A, 0x42, Instruction::SkipEqImm(0xA, 0x42)),
        (0x4B, 0x07, Instruction::SkipNeImm(0xB, 0x07)),
        (0x51, 0x20, Instruction::SkipEqReg(1, 2)),
        (0x6C, 0xFF, Instruction::LoadImm(0xC, 0xFF)),
        (0x7D, 0x01, Instruction::AddImm(0xD, 0x01)),
        (0x83, 0x40, Instruction::LoadReg(3, 4)),
        (0x83, 0x41, Instruction::Or(3, 4)),
        (0x83, 0x42, Instruction::And(3, 4)),
        (0x83, 0x43, Instruction::Xor(3, 4)),
        (0x83, 0x44, Instruction::AddReg(3, 4)),
        (0x83, 0x45, Instruction::Sub(3, 4)),
        (0x83, 0x46, Instruction::ShiftRight(3, 4)),
        (0x83, 0x47, Instruction::SubReverse(3, 4)),
        (0x83, 0x4E, Instruction::ShiftLeft(3, 4)),
        (0x95, 0x60, Instruction::SkipNeReg(5, 6)),
        (0xB2, 0x34, Instruction::JumpOffset(2, 0x234)),
        (0xC7, 0x0F, Instruction::Random(7, 0x0F)),
        (0xE8, 0x9E, Instruction::SkipKey(8)),
        (0xE8, 0xA1, Instruction::SkipNotKey(8)),
        (0xF9, 0x07, Instruction::LoadDelay(9)),
        (0xF9, 0x0A, Instruction::WaitKey(9)),
        (0xF9, 0x15, Instruction::SetDelay(9)),
        (0xF9, 0x18, Instruction::SetSound(9)),
        (0xF9, 0x1E, Instruction::AddIndex(9)),
        (0xF9, 0x29, Instruction::LoadFont(9)),
        (0xF9, 0x33, Instruction::StoreBcd(9)),
        (0xF9, 0x55, Instruction::StoreRegs(9)),
        (0xF9, 0x65, Instruction::LoadRegs(9)),
    ];
    for (high, low, expected) in cases {
        assert_eq!(parse_instruction(high, low), expected, "word {:02X}{:02X}", high, low);
    }
}

#[test]
fn decode_unassigned_words_are_unknown() {
    assert_eq!(parse_instruction(0x00, 0x00), Instruction::Unknown(0x0000));
    assert_eq!(parse_instruction(0x01, 0xE0), Instruction::Unknown(0x01E0));
    assert_eq!(parse_instruction(0x51, 0x21), Instruction::Unknown(0x5121));
    assert_eq!(parse_instruction(0x83, 0x48), Instruction::Unknown(0x8348));
    assert_eq!(parse_instruction(0x95, 0x6F), Instruction::Unknown(0x956F));
    assert_eq!(parse_instruction(0xE1, 0x00), Instruction::Unknown(0xE100));
    assert_eq!(parse_instruction(0xF1, 0xFF), Instruction::Unknown(0xF1FF));
}

#[test]
fn decode_is_total_over_all_words() {
    for word in 0u32..=0xFFFF {
        let (high, low) = ((word >> 8) as u8, word as u8);
        let ins = parse_instruction(high, low);
        if let Instruction::Unknown(w) = ins {
            assert_eq!(w as u32, word);
        }
    }
}
