use vcpu::fault::Fault;
use vcpu::memory::{Memory, MEM_SIZE, MEM_WORDS, WORD_SIZE};

#[test]
fn sizes_agree() {
    assert_eq!(WORD_SIZE, 2);
    assert_eq!(MEM_WORDS, 4096);
    assert_eq!(MEM_SIZE, MEM_WORDS * WORD_SIZE);
    assert_eq!(Memory::new().size(), 8192);
}

#[test]
fn new_memory_is_all_zero() {
    let m = Memory::new();
    let bytes = m.dump();
    assert_eq!(bytes.len(), MEM_SIZE);
    assert!(bytes.iter().all(|b| *b == 0));
    assert_eq!(m.read(0), Ok(0));
    assert_eq!(m.read(4095), Ok(0));
}

#[test]
fn read_composes_high_byte_first() {
    let mut m = Memory::new();
    assert_eq!(m.load(&[0x12, 0x34, 0xAB, 0xCD]), Ok(4));
    assert_eq!(m.read(0), Ok(0x1234));
    assert_eq!(m.read(1), Ok(0xABCD));
    assert_eq!(m.read(2), Ok(0));
}

#[test]
fn write_stores_high_byte_first() {
    let mut m = Memory::new();
    assert_eq!(m.write(3, 0xBEEF), Ok(()));
    let bytes = m.dump();
    assert_eq!(bytes[6], 0xBE);
    assert_eq!(bytes[7], 0xEF);
    assert_eq!(bytes[5], 0);
    assert_eq!(bytes[8], 0);
    assert_eq!(m.read(3), Ok(0xBEEF));
    assert_eq!(m.read(2), Ok(0));
    assert_eq!(m.read(4), Ok(0));
}

#[test]
fn last_word_can_be_read_and_written() {
    let mut m = Memory::new();
    assert_eq!(m.write(4095, 0xFFFF), Ok(()));
    assert_eq!(m.read(4095), Ok(0xFFFF));
    let bytes = m.dump();
    assert_eq!(bytes[8190], 0xFF);
    assert_eq!(bytes[8191], 0xFF);
}

#[test]
fn one_word_past_the_end_is_out_of_bounds() {
    let mut m = Memory::new();
    assert_eq!(m.read(4096), Err(Fault::OutOfBoundsAccess(4096)));
    assert_eq!(m.write(4096, 7), Err(Fault::OutOfBoundsAccess(4096)));
    assert_eq!(m.read(0xFFFF), Err(Fault::OutOfBoundsAccess(0xFFFF)));
    assert_eq!(m.write(0xFFFF, 7), Err(Fault::OutOfBoundsAccess(0xFFFF)));
    assert!(m.dump().iter().all(|b| *b == 0));
}

#[test]
fn load_keeps_what_lies_behind_the_image() {
    let mut m = Memory::new();
    assert_eq!(m.write(0, 0x1111), Ok(()));
    assert_eq!(m.write(1, 0x2222), Ok(()));
    assert_eq!(m.write(2, 0x3333), Ok(()));
    assert_eq!(m.load(&[0xAA, 0xBB, 0xCC]), Ok(3));
    assert_eq!(m.read(0), Ok(0xAABB));
    assert_eq!(m.read(1), Ok(0xCC22));
    assert_eq!(m.read(2), Ok(0x3333));
}

#[test]
fn load_of_nothing_changes_nothing() {
    let mut m = Memory::new();
    assert_eq!(m.write(0, 0x1234), Ok(()));
    assert_eq!(m.load(&[]), Ok(0));
    assert_eq!(m.read(0), Ok(0x1234));
}

#[test]
fn load_fills_memory_to_the_brim() {
    let mut m = Memory::new();
    let image = vec![0x5A_u8; MEM_SIZE];
    assert_eq!(m.load(&image), Ok(MEM_SIZE));
    assert_eq!(m.dump(), image);
    assert_eq!(m.read(4095), Ok(0x5A5A));
}

#[test]
fn load_refuses_an_image_larger_than_memory() {
    let mut m = Memory::new();
    let image = vec![0xFF_u8; MEM_SIZE + 1];
    assert_eq!(m.load(&image), Err(Fault::ProgramTooLarge(MEM_SIZE + 1, MEM_SIZE)));
    assert!(m.dump().iter().all(|b| *b == 0));
}

#[test]
fn refused_load_keeps_earlier_contents() {
    let mut m = Memory::new();
    assert_eq!(m.write(10, 0xCAFE), Ok(()));
    let before = m.dump();
    let image = vec![0x01_u8; MEM_SIZE + 100];
    assert_eq!(m.load(&image), Err(Fault::ProgramTooLarge(MEM_SIZE + 100, MEM_SIZE)));
    assert_eq!(m.dump(), before);
}

#[test]
fn listing_has_the_fixed_layout() {
    let mut m = Memory::new();
    assert_eq!(m.load(&[0x00, 0x0E, 0xAB, 0x9F]), Ok(4));
    let text = m.dump_memory();
    assert_eq!(text.len(), 128 * 137);
    let text = String::from_utf8(text).unwrap();
    let lines: Vec<&str> = text.split('\n').collect();
    assert_eq!(lines.len(), 129);
    assert_eq!(lines[128], "");
    let zero_group = "0000000000000000 ";
    let first = format!("000EAB9F00000000 {}", zero_group.repeat(7));
    assert_eq!(lines[0], first);
    for line in &lines[1..128] {
        assert_eq!(*line, zero_group.repeat(8));
    }
}

#[test]
fn listing_shows_the_last_byte_last() {
    let mut m = Memory::new();
    assert_eq!(m.write(4095, 0x01C7), Ok(()));
    let text = String::from_utf8(m.dump_memory()).unwrap();
    assert!(text.ends_with("00000000000001C7 \n"));
}
