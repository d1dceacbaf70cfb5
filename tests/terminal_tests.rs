use pty_shell::terminal::{make_raw, RawModeBits, RawModeController, TermAttrs};

fn bits() -> RawModeBits {
    RawModeBits { echo: 0o10, canonical: 0o2, signals: 0o1, min_slot: 6, time_slot: 5 }
}

fn sample() -> TermAttrs {
    let mut cc = vec![0u8; 32];
    cc[5] = 7;
    cc[6] = 9;
    cc[0] = 3;
    TermAttrs {
        input_flags: 0o2400,
        output_flags: 0o5,
        control_flags: 0o277,
        local_flags: 0o105073,
        control_chars: cc,
        input_speed: 15,
        output_speed: 15,
    }
}

fn same(a: &TermAttrs, b: &TermAttrs) -> bool {
    a.input_flags == b.input_flags
        && a.output_flags == b.output_flags
        && a.control_flags == b.control_flags
        && a.local_flags == b.local_flags
        && a.control_chars == b.control_chars
        && a.input_speed == b.input_speed
        && a.output_speed == b.output_speed
}

#[test]
fn raw_mode_clears_echo_canonical_and_signals() {
    let orig = sample();
    let raw = make_raw(&orig, &bits());
    assert_eq!(raw.local_flags, 0o105060);
    assert_eq!(raw.input_flags, orig.input_flags);
    assert_eq!(raw.output_flags, orig.output_flags);
    assert_eq!(raw.control_flags, orig.control_flags);
    assert_eq!(raw.control_chars[6], 1);
    assert_eq!(raw.control_chars[5], 0);
    assert_eq!(raw.control_chars[0], 3);
    assert_eq!(raw.input_speed, 15);
}

#[test]
fn raw_mode_of_already_raw_attrs_is_unchanged() {
    let raw = make_raw(&sample(), &bits());
    let again = make_raw(&raw, &bits());
    assert!(same(&raw, &again));
}

#[test]
fn restore_hands_back_the_original_attributes() {
    let orig = sample();
    let mut c = RawModeController::new();
    assert!(!c.is_raw());
    let raw = c.apply_raw(&orig, &bits());
    assert!(c.is_raw());
    assert!(!same(&raw, &orig));
    let back = c.restore().expect("a snapshot to restore");
    assert!(same(&back, &orig));
    assert!(!c.is_raw());
}

#[test]
fn restore_twice_is_a_no_op() {
    let mut c = RawModeController::new();
    c.apply_raw(&sample(), &bits());
    assert!(c.restore().is_some());
    assert!(c.restore().is_none());
    assert!(c.restore().is_none());
    assert!(!c.is_raw());
}

#[test]
fn restore_without_raw_mode_returns_nothing() {
    let mut c = RawModeController::new();
    assert!(c.restore().is_none());
}

#[test]
fn second_apply_keeps_first_snapshot() {
    let orig = sample();
    let mut c = RawModeController::new();
    let raw = c.apply_raw(&orig, &bits());
    c.apply_raw(&raw, &bits());
    let back = c.restore().unwrap();
    assert!(same(&back, &orig));
}
