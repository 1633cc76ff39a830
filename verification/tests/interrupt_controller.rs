use gbcore::interrupts::Interrupt;
use gbcore::interrupts::InterruptController;

const IE: u16 = 0xFFFF;
const IF: u16 = 0xFF0F;

#[test]
fn test_handle() {
    let mut ic = InterruptController::new();

    assert_eq!(ic.handle(false), None);

    ic.set8(IE, 0xFF);
    assert_eq!(ic.handle(false), None);

    ic.set8(IF, 0xFF);
    assert_eq!(ic.handle(false), Some(0x40));
    assert_eq!(ic.get8(IF), 0xFF);

    assert_eq!(ic.handle(true), Some(0x40));
    assert_eq!(ic.get8(IF), 0xFE);
}

#[test]
fn test_request() {
    let mut ic = InterruptController::new();

    assert_eq!(ic.get8(IF), 0x00);
    ic.request(Interrupt::Timer);
    assert_eq!(ic.get8(IF), 0x04);
    ic.request(Interrupt::Timer);
    assert_eq!(ic.get8(IF), 0x04);
}
