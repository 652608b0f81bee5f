use chip8_core::{
    copy_binary_to_memory, decode_words, DummyCHIP8Display, LoadError, CHIP8, MEMORY_SIZE,
    PROGRAM_START,
};

#[test]
fn loaded_bytes_read_back_from_program_start() {
    let mut display = DummyCHIP8Display::new();
    let mut chip8 = CHIP8::new(&mut display);
    let program = [0xDE, 0xAD, 0xBE, 0xEF, 0x01];
    assert_eq!(chip8.load_from_memory(&program), Ok(()));
    for (k, byte) in program.iter().enumerate() {
        assert_eq!(chip8.ram_byte(PROGRAM_START + k), *byte);
    }
    assert_eq!(chip8.ram_byte(PROGRAM_START + program.len()), 0);
    assert_eq!(chip8.ram_byte(PROGRAM_START - 1), 0);
}

#[test]
fn program_filling_memory_exactly_loads() {
    let mut display = DummyCHIP8Display::new();
    let mut chip8 = CHIP8::new(&mut display);
    let program = vec![0x7Au8; MEMORY_SIZE - PROGRAM_START];
    assert_eq!(program.len(), 0xE00);
    assert_eq!(chip8.load_from_memory(&program), Ok(()));
    assert_eq!(chip8.ram_byte(MEMORY_SIZE - 1), 0x7A);
}

#[test]
fn oversized_program_is_refused_untouched() {
    let mut display = DummyCHIP8Display::new();
    let mut chip8 = CHIP8::new(&mut display);
    chip8.load_from_memory(&[0x11, 0x22]).unwrap();
    let program = vec![0x7Au8; MEMORY_SIZE - PROGRAM_START + 1];
    assert_eq!(chip8.load_from_memory(&program), Err(LoadError::BinaryTooBig));
    assert_eq!(chip8.ram_byte(PROGRAM_START), 0x11);
    assert_eq!(chip8.ram_byte(PROGRAM_START + 2), 0);
}

#[test]
fn copy_into_a_slice_at_an_offset() {
    let mut memory = [0u8; 6];
    assert_eq!(copy_binary_to_memory(&[1, 2, 3], &mut memory, 2), Ok(()));
    assert_eq!(memory, [0, 0, 1, 2, 3, 0]);
    assert_eq!(copy_binary_to_memory(&[9, 9, 9, 9, 9], &mut memory, 2), Err(LoadError::BinaryTooBig));
    assert_eq!(memory, [0, 0, 1, 2, 3, 0]);
    assert_eq!(copy_binary_to_memory(&[], &mut memory, 6), Ok(()));
}

#[test]
fn words_are_big_endian() {
    assert_eq!(decode_words(&[0x12, 0x04, 0xCC, 0x00]), Some(vec![0x1204, 0xCC00]));
    assert_eq!(decode_words(&[]), Some(vec![]));
    assert_eq!(decode_words(&[0x12, 0x04, 0xCC]), None);
}
