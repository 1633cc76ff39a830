use gbcore::registers::Register::{A, AF, F, H, SP};
use gbcore::registers::Registers;

#[test]
fn test_get8_set8() {
    let mut rs = Registers::new();
    rs.set8(A, 42);
    rs.set8(H, 43);
    assert_eq!(rs.get8(A), 42);
    assert_eq!(rs.get8(H), 43);
}

#[test]
fn test_get16_set16() {
    let mut rs = Registers::new();
    rs.set16(AF, 0xDEAD);
    rs.set16(SP, 0xBEEF);
    assert_eq!(rs.get16(AF), 0xDEAD);
    assert_eq!(rs.get8(A), 0xDE);
    assert_eq!(rs.get8(F), 0xAD);
    assert_eq!(rs.get16(SP), 0xBEEF);
}
