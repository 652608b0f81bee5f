use chip8_core::{DummyCHIP8Display, CHIP8};

#[test]
fn test_jump() {
    let mut display = DummyCHIP8Display::new();
    let mut chip8 = CHIP8::new(&mut display);

    // 1204  -- jump to the address Ox204, which is two instructions down
    // 0000  -- nothing here
    // CC00  -- we should jump here
    chip8.load_from_memory(&[0x12, 0x04, 0x00, 0x00, 0xCC, 0x00]).unwrap();
    chip8.execute_opcode();
    println!("{:x}", chip8.ca());
    assert_eq!(chip8.ram_byte(chip8.ca()), 0xCC);
}

#[test]
fn test_store() {
    let mut display = DummyCHIP8Display::new();
    let mut chip8 = CHIP8::new(&mut display);

    // 6001 .. 6F10  -- store the values 1 to 16 in registers 0 to F
    chip8
        .load_from_memory(&[
            0x60, 0x01, 0x61, 0x02, 0x62, 0x03, 0x63, 0x04, 0x64, 0x05, 0x65, 0x06, 0x66, 0x07,
            0x67, 0x08, 0x68, 0x09, 0x69, 0x0A, 0x6A, 0x0B, 0x6B, 0x0C, 0x6C, 0x0D, 0x6D, 0x0E,
            0x6E, 0x0F, 0x6F, 0x10,
        ])
        .unwrap();

    for i in 0..15 {
        chip8.execute_opcode();
        assert_eq!(chip8.register(i), (i + 1) as u8);
    }
}

#[test]
fn test_skip3() {
    let mut display = DummyCHIP8Display::new();
    let mut chip8 = CHIP8::new(&mut display);

    // 6001  -- store the value 1 in register 0
    // 3001  -- skip the next instruction if the value in register 0 is equal to 1
    // 0000  -- nothing here
    // 3000  -- we should jump here and do another check
    // 0300  -- we should end up here
    chip8
        .load_from_memory(&[0x60, 0x01, 0x30, 0x01, 0x00, 0x00, 0x30, 0x00, 0x03, 0x00])
        .unwrap();
    chip8.execute_opcode(); // store
    chip8.execute_opcode(); // successful skip
    assert_eq!(chip8.ca(), 0x206);

    chip8.execute_opcode(); // unsuccessful skip
    assert_eq!(chip8.ca(), 0x208);
    assert_eq!(chip8.ram_byte(chip8.ca()), 0x03);
}

#[test]
fn test_skip4() {
    let mut display = DummyCHIP8Display::new();
    let mut chip8 = CHIP8::new(&mut display);

    // 6D0A  -- store the value A in register D
    // 4D0A  -- skip if register D is not equal to A (it is equal, so no skip)
    // 400A  -- skip if register 0 is not equal to A
    // 0000  -- we should skip this instruction
    // 0400  -- we should end up here
    chip8
        .load_from_memory(&[0x6D, 0x0A, 0x4D, 0x0A, 0x40, 0x0A, 0x00, 0x00, 0x04, 0x00])
        .unwrap();
    chip8.execute_opcode(); // store
    chip8.execute_opcode(); // unsuccessful skip
    assert_eq!(chip8.ca(), 0x204);

    chip8.execute_opcode(); // successful skip
    assert_eq!(chip8.ca(), 0x208);
    assert_eq!(chip8.ram_byte(chip8.ca()), 0x04);
}

#[test]
fn test_skip5() {
    let mut display = DummyCHIP8Display::new();
    let mut chip8 = CHIP8::new(&mut display);

    // 5AB0  -- skip if registers A and B are equal (they are)
    // 0000  -- nothing here
    // 6BFF  -- store FF in register B
    // 5AB0  -- skip if registers A and B are equal (they are not)
    // 0500  -- we should end up here
    chip8
        .load_from_memory(&[0x5A, 0xB0, 0x00, 0x00, 0x6B, 0xFF, 0x5A, 0xB0, 0x05, 0x00])
        .unwrap();
    chip8.execute_opcode(); // skip
    assert_eq!(chip8.ca(), 0x204);

    chip8.execute_opcode(); // store
    chip8.execute_opcode(); // unsuccessful skip
    assert_eq!(chip8.ca(), 0x208);
    assert_eq!(chip8.ram_byte(chip8.ca()), 0x05);
}

#[test]
fn test_adding_constant() {
    let mut display = DummyCHIP8Display::new();
    let mut chip8 = CHIP8::new(&mut display);

    // 6001  -- store the value 1 in register 0
    // 70F0  -- add the value 0xF0 to register 0
    // 7000  -- add 0 to register 0 (it shouldn't change)
    // 7010  -- add 0x10 to register 0, it should wrap around
    chip8.load_from_memory(&[0x60, 0x01, 0x70, 0xF0, 0x70, 0x00, 0x70, 0x10]).unwrap();
    chip8.execute_opcode(); // store
    chip8.execute_opcode(); // add
    assert_eq!(chip8.register(0), 0xF1);

    chip8.execute_opcode(); // add 0
    assert_eq!(chip8.register(0), 0xF1);

    chip8.execute_opcode(); // add 0x10
    assert_eq!(chip8.register(0), 0x01);
}

#[test]
fn test_copy_register() {
    let mut display = DummyCHIP8Display::new();
    let mut chip8 = CHIP8::new(&mut display);

    // 6001  -- store the value 1 in register 0
    // 8100  -- copy v0 to v1
    chip8.load_from_memory(&[0x60, 0x01, 0x81, 0x00]).unwrap();
    chip8.execute_opcode(); // store
    chip8.execute_opcode(); // copy
    assert_eq!(chip8.register(1), 0x01);
}

#[test]
fn test_or() {
    let mut display = DummyCHIP8Display::new();
    let mut chip8 = CHIP8::new(&mut display);

    // 605F  -- store 0b0101_1111 in v0
    // 6FAA  -- store 0b1010_1010 in vF
    // 80F1  -- v0 |= vF
    chip8.load_from_memory(&[0x60, 0x5F, 0x6F, 0xAA, 0x80, 0xF1]).unwrap();
    chip8.execute_opcode(); // store
    chip8.execute_opcode(); // store
    assert_eq!(chip8.register(0x0), 0b0101_1111);
    assert_eq!(chip8.register(0xF), 0b1010_1010);

    chip8.execute_opcode(); // or
    assert_eq!(chip8.register(0x0), 0b1111_1111); // changed
    assert_eq!(chip8.register(0xF), 0b1010_1010); // unchanged
}

#[test]
fn test_and() {
    let mut display = DummyCHIP8Display::new();
    let mut chip8 = CHIP8::new(&mut display);

    // 6055  -- store 0b0101_0101 in v0
    // 6FAA  -- store 0b1010_1010 in vF
    // 80F2  -- v0 &= vF
    chip8.load_from_memory(&[0x60, 0x55, 0x6F, 0xAA, 0x80, 0xF2]).unwrap();
    chip8.execute_opcode(); // store
    chip8.execute_opcode(); // store
    assert_eq!(chip8.register(0x0), 0b0101_0101);
    assert_eq!(chip8.register(0xF), 0b1010_1010);

    chip8.execute_opcode(); // and
    assert_eq!(chip8.register(0x0), 0b0000_0000); // changed
    assert_eq!(chip8.register(0xF), 0b1010_1010); // unchanged
}

#[test]
fn test_xor() {
    let mut display = DummyCHIP8Display::new();
    let mut chip8 = CHIP8::new(&mut display);

    // 605D  -- store 0b0101_1101 in v0
    // 6FAA  -- store 0b1010_1010 in vF
    // 80F3  -- v0 ^= vF
    chip8.load_from_memory(&[0x60, 0x5D, 0x6F, 0xAA, 0x80, 0xF3]).unwrap();
    chip8.execute_opcode(); // store
    chip8.execute_opcode(); // store
    assert_eq!(chip8.register(0x0), 0b0101_1101);
    assert_eq!(chip8.register(0xF), 0b1010_1010);

    chip8.execute_opcode(); // xor
    assert_eq!(chip8.register(0x0), 0b1111_0111); // changed
    assert_eq!(chip8.register(0xF), 0b1010_1010); // unchanged
}

#[test]
fn test_add() {
    let mut display = DummyCHIP8Display::new();
    let mut chip8 = CHIP8::new(&mut display);

    // 6CF0  -- store the value F0 in vC
    // 6D01  -- store the value 1 in vD
    // 6E10  -- store the value 10 in vE
    // 6F33  -- store the value 33 in vF
    // 8CD4  -- vC += vD
    // 8EC4  -- vE += vC
    chip8
        .load_from_memory(&[0x6C, 0xF0, 0x6D, 0x01, 0x6E, 0x10, 0x6F, 0x33, 0x8C, 0xD4, 0x8E, 0xC4])
        .unwrap();
    chip8.execute_opcode(); // store
    chip8.execute_opcode(); // store
    chip8.execute_opcode(); // store
    chip8.execute_opcode(); // store
    assert_eq!(chip8.register(0xF), 0x33); // it is about to change, so check that the write worked

    chip8.execute_opcode(); // add 1
    assert_eq!(chip8.register(0xC), 0xF1); // changed
    assert_eq!(chip8.register(0xD), 0x01); // unchanged
    assert_eq!(chip8.register(0xF), 0x00); // carry is 0

    chip8.execute_opcode(); // add F1
    assert_eq!(chip8.register(0xC), 0xF1); // unchanged
    assert_eq!(chip8.register(0xE), 0x01); // overflow
    assert_eq!(chip8.register(0xF), 0x01); // carry is 1
}

#[test]
fn test_sub() {
    let mut display = DummyCHIP8Display::new();
    let mut chip8 = CHIP8::new(&mut display);

    // 650A  -- store the value A in v5
    // 6609  -- store the value 9 in v6
    // 6702  -- store the value 2 in v7
    // 6F66  -- store the value 66 in vF
    // 8565  -- v5 -= v6
    // 8575  -- v5 -= v7
    chip8
        .load_from_memory(&[0x65, 0x0A, 0x66, 0x09, 0x67, 0x02, 0x6F, 0x66, 0x85, 0x65, 0x85, 0x75])
        .unwrap();
    chip8.execute_opcode(); // store
    chip8.execute_opcode(); // store
    chip8.execute_opcode(); // store
    chip8.execute_opcode(); // store
    assert_eq!(chip8.register(0xF), 0x66); // it is about to change, so check that the write worked

    chip8.execute_opcode(); // sub 9
    assert_eq!(chip8.register(0x5), 0x01); // changed
    assert_eq!(chip8.register(0x6), 0x09); // unchanged
    assert_eq!(chip8.register(0xF), 0x01); // no borrow

    chip8.execute_opcode(); // sub 2
    assert_eq!(chip8.register(0x5), 0xFF); // underflow
    assert_eq!(chip8.register(0xF), 0x00); // borrow
}

#[test]
fn test_other_sub() {
    let mut display = DummyCHIP8Display::new();
    let mut chip8 = CHIP8::new(&mut display);

    // 650A  -- store the value A in v5
    // 6609  -- store the value 9 in v6
    // 6702  -- store the value 2 in v7
    // 6F66  -- store the value 66 in vF
    // 8567  -- v5 = v6 - v5
    // 8757  -- v7 = v5 - v7
    chip8
        .load_from_memory(&[0x65, 0x0A, 0x66, 0x09, 0x67, 0x02, 0x6F, 0x66, 0x85, 0x67, 0x87, 0x57])
        .unwrap();
    chip8.execute_opcode(); // store
    chip8.execute_opcode(); // store
    chip8.execute_opcode(); // store
    chip8.execute_opcode(); // store
    assert_eq!(chip8.register(0xF), 0x66); // it is about to change, so check that the write worked

    chip8.execute_opcode(); // sub 9
    assert_eq!(chip8.register(0x5), 0xFF); // underflow
    assert_eq!(chip8.register(0x6), 0x09); // unchanged
    assert_eq!(chip8.register(0xF), 0x00); // borrow

    chip8.execute_opcode(); // sub 2
    assert_eq!(chip8.register(0x7), 0xFD); // changed
    assert_eq!(chip8.register(0xF), 0x01); // no borrow
}
