use matter_rgb_lamp::dataver::Dataver;
use matter_rgb_lamp::options::OptionsBitmap;

#[test]
fn truncation_keeps_every_bit() {
    for v in 0..=255u8 {
        assert_eq!(OptionsBitmap::from_bits_truncate(v).bits(), v);
    }
}

#[test]
fn contains_execute_if_off() {
    let flag = OptionsBitmap::execute_if_off();
    assert!(OptionsBitmap::from_bits_truncate(3).contains(flag));
    assert!(!OptionsBitmap::from_bits_truncate(2).contains(flag));
    assert!(OptionsBitmap::from_bits_truncate(2).contains(OptionsBitmap::empty()));
}

#[test]
fn dataver_changes() {
    let mut d = Dataver::new(41);
    assert_eq!(d.changed(), 42);
    assert_eq!(d.get(), 42);
    let mut w = Dataver::new(u32::MAX);
    assert_eq!(w.changed(), 0);
}
