use gbcore::timer::TimerController;

const DIV: u16 = 0xFF04;

#[test]
fn test_read_div() {
    let mut t = TimerController::new();

    assert_eq!(t.get8(DIV), 0);
    let _ = t.tick(32);
    assert_eq!(t.get8(DIV), 0);
    let _ = t.tick(31);
    assert_eq!(t.get8(DIV), 0);
    let _ = t.tick(1);
    assert_eq!(t.get8(DIV), 1);
}

#[test]
fn test_div_big_tick() {
    let mut t = TimerController::new();

    let _ = t.tick(64 * 5 + 63);
    assert_eq!(t.get8(DIV), 5);
    let _ = t.tick(1);
    assert_eq!(t.get8(DIV), 6);
}

#[test]
fn test_div_reset() {
    let mut t = TimerController::new();

    let _ = t.tick(64 * 5 + 4);
    assert_eq!(t.get8(DIV), 5);
    t.set8(DIV, 42);
    assert_eq!(t.get8(DIV), 0);
    let _ = t.tick(61);
    assert_eq!(t.get8(DIV), 1);
}

#[test]
fn test_div_overflow() {
    let mut t = TimerController::new();

    let _ = t.tick(64 * 255 + 63);
    assert_eq!(t.get8(DIV), 255);
    let _ = t.tick(2);
    assert_eq!(t.get8(DIV), 0);
    let _ = t.tick(63);
    assert_eq!(t.get8(DIV), 1);
}
