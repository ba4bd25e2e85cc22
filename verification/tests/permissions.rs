use remotefs::{UnixPex, UnixPexClass};

#[test]
fn mode_survives_the_round_trip() {
    for mode in [0o000, 0o001, 0o111, 0o321, 0o644, 0o640, 0o755, 0o777] {
        assert_eq!(UnixPex::from_mode(mode).to_mode(), mode);
    }
}

#[test]
fn from_mode_ignores_bits_above_octal_777() {
    assert_eq!(UnixPex::from_mode(0o4755).to_mode(), 0o755);
    assert_eq!(UnixPex::from_mode(0o7777).to_mode(), 0o777);
}

#[test]
fn from_mode_decodes_each_class() {
    let pex = UnixPex::from_mode(0o640);
    assert!(pex.owner().can_read());
    assert!(pex.owner().can_write());
    assert!(!pex.owner().can_execute());
    assert!(pex.group().can_read());
    assert!(!pex.group().can_write());
    assert!(!pex.group().can_execute());
    assert!(!pex.others().can_read());
    assert!(!pex.others().can_write());
    assert!(!pex.others().can_execute());
}

#[test]
fn class_encodes_to_its_octal_digit() {
    assert_eq!(UnixPexClass::new(false, false, false).as_octal(), 0);
    assert_eq!(UnixPexClass::new(false, false, true).as_octal(), 1);
    assert_eq!(UnixPexClass::new(false, true, false).as_octal(), 2);
    assert_eq!(UnixPexClass::new(true, false, false).as_octal(), 4);
    assert_eq!(UnixPexClass::new(true, false, true).as_octal(), 5);
    assert_eq!(UnixPexClass::new(true, true, true).as_octal(), 7);
}

#[test]
fn class_decodes_from_its_octal_digit() {
    let class = UnixPexClass::from_octal(3);
    assert!(!class.can_read());
    assert!(class.can_write());
    assert!(class.can_execute());
}

#[test]
fn aggregate_built_by_class_encodes_exactly() {
    let pex = UnixPex::new(
        UnixPexClass::new(true, true, true),
        UnixPexClass::new(true, false, false),
        UnixPexClass::new(false, false, false),
    );
    assert_eq!(pex.to_mode(), 0o740);
}
