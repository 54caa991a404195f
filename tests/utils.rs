use rust8::error::ChipError;
use rust8::utils::{
    get_addr, get_first_nibble, get_last_byte, get_last_nibble, get_second_nibble,
    get_third_nibble, invalid_instruction,
};

#[test]
fn test_get_addr() {
    assert_eq!(get_addr(0xABCD), 0xBCD);
}

#[test]
fn test_get_last_nibble() {
    assert_eq!(get_last_nibble(0xABCD), 0xD);
}

#[test]
fn test_get_third_nibble() {
    assert_eq!(get_third_nibble(0xABCD), 0xC);
}

#[test]
fn test_get_second_nibble() {
    assert_eq!(get_second_nibble(0xABCD), 0xB);
}

#[test]
fn test_get_first_nibble() {
    assert_eq!(get_first_nibble(0xABCD), 0xA);
}

#[test]
fn test_get_last_byte() {
    assert_eq!(get_last_byte(0xABCD), 0xCD);
}

#[test]
fn invalid_instruction_carries_word_and_address() {
    assert_eq!(
        invalid_instruction(0x9123, 0x204),
        ChipError::InvalidOpcode { op: 0x9123, addr: 0x204 }
    );
}
