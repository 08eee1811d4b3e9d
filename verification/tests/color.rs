use vexide_devices::color::{Color, Rgb};

#[test]
fn convert_from_raw() {
    assert_eq!(Color::from_raw(0), Color::new(0, 0, 0));
    assert_eq!(Color::from_raw(0xFFF_FFF), Color::new(255, 255, 255));
    assert_eq!(Color::from_raw(0x00A_CE6), Color::new(0, 172, 230));
}

#[test]
fn convert_to_raw() {
    assert_eq!(Color::new(0, 0, 0).into_raw(), 0);
    assert_eq!(Color::new(255, 255, 255).into_raw(), 0xFFF_FFF);
    assert_eq!(Color::new(0, 172, 230).into_raw(), 0x00A_CE6);
}

#[test]
fn color_raw_round_trips_keep_the_reserved_byte() {
    let raw = 0xAB12_3456u32;
    let c = Color::from_raw(raw);
    assert_eq!(c.into_raw(), raw);
    assert_ne!(c, Color::new(0x12, 0x34, 0x56));
    assert_eq!((c.red(), c.green(), c.blue()), (0x12, 0x34, 0x56));
}

#[test]
fn color_from_tuple_and_rgb() {
    let c: Color = (1u8, 2u8, 3u8).into();
    assert_eq!(c, Color::new(1, 2, 3));
    assert_eq!(c.into_tuple(), (1, 2, 3));
    let rgb: Rgb = c.into();
    assert_eq!(rgb, Rgb::new(1, 2, 3));
    assert_eq!(Color::from(rgb), c);
    assert_eq!(u32::from(c), 0x0001_0203);
    assert_eq!(Color::default(), Color::new(0, 0, 0));
}

#[test]
fn rgb_raw_words() {
    assert_eq!(Rgb::new(0x12, 0x34, 0x56).into_raw(), 0x0012_3456);
    assert_eq!(Rgb::from_raw(0xFF12_3456), Rgb::new(0x12, 0x34, 0x56));
    assert_eq!(Rgb::from_raw(Rgb::new(9, 8, 7).into_raw()), Rgb::new(9, 8, 7));
}
