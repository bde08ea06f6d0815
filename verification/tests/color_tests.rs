use pixl::Color;

#[test]
fn rgba_keeps_every_channel() {
    let c = Color::rgba(255, 0, 0, 128);
    assert_eq!((c.r, c.g, c.b, c.a), (255, 0, 0, 128));
}

#[test]
fn rgb_is_fully_opaque() {
    let c = Color::rgb(0, 63, 255);
    assert_eq!(c, Color::rgba(0, 63, 255, 255));
}

#[test]
fn from_hex_splits_the_channels() {
    assert_eq!(Color::from_hex(0xFF00FF), Color::rgb(255, 0, 255));
    assert_eq!(Color::from_hex(0x123456), Color::rgb(0x12, 0x34, 0x56));
    assert_eq!(Color::from_hex(0), Color::rgb(0, 0, 0));
    assert_eq!(Color::from_hex(0xFFFFFF), Color::rgb(255, 255, 255));
}

#[test]
fn from_hex_ignores_the_top_byte() {
    assert_eq!(Color::from_hex(0xAB123456), Color::rgb(0x12, 0x34, 0x56));
    assert_eq!(Color::from_hex(u32::MAX), Color::rgb(255, 255, 255));
    assert_eq!(Color::from_hex(0x0100_0000), Color::rgb(0, 0, 0));
}

#[test]
fn to_hex_packs_the_channels() {
    assert_eq!(Color::rgb(255, 165, 0).to_hex(), 0xFFA500);
    assert_eq!(Color::rgb(1, 2, 3).to_hex(), 65536 + 2 * 256 + 3);
    assert_eq!(Color::rgb(0, 0, 0).to_hex(), 0);
    assert_eq!(Color::rgb(255, 255, 255).to_hex(), 0xFFFFFF);
}

#[test]
fn to_hex_drops_alpha() {
    assert_eq!(Color::rgba(10, 20, 30, 0).to_hex(), Color::rgba(10, 20, 30, 255).to_hex());
    assert_eq!(Color::rgba(10, 20, 30, 77).to_hex(), 0x0A141E);
}

#[test]
fn hex_round_trip_keeps_rgb() {
    let samples = [
        Color::rgba(0, 0, 0, 0),
        Color::rgba(255, 255, 255, 255),
        Color::rgba(1, 2, 3, 4),
        Color::rgba(200, 100, 50, 25),
        Color::rgba(0, 255, 0, 128),
        Color::rgba(17, 0, 254, 1),
    ];
    for c in samples {
        let back = Color::from_hex(c.to_hex());
        assert_eq!((back.r, back.g, back.b), (c.r, c.g, c.b));
        assert_eq!(back.a, 255);
    }
}

#[test]
fn hex_round_trip_over_every_red_and_blue() {
    for r in 0..=255u8 {
        for b in [0u8, 1, 127, 128, 255] {
            let c = Color::rgba(r, 255 - r, b, 9);
            let back = Color::from_hex(c.to_hex());
            assert_eq!((back.r, back.g, back.b, back.a), (r, 255 - r, b, 255));
        }
    }
}

#[test]
fn unpacking_then_packing_keeps_the_low_24_bits() {
    for hex in [0u32, 1, 0xFF, 0x100, 0xFFFF, 0x10000, 0xFFFFFF, 0x1000000, 0xDEADBEEF, u32::MAX] {
        assert_eq!(Color::from_hex(hex).to_hex(), hex % 0x1000000);
    }
}

#[test]
fn named_colors() {
    assert_eq!(Color::black(), Color::rgba(0, 0, 0, 255));
    assert_eq!(Color::white(), Color::rgba(255, 255, 255, 255));
    assert_eq!(Color::red(), Color::rgba(255, 0, 0, 255));
    assert_eq!(Color::green(), Color::rgba(0, 255, 0, 255));
    assert_eq!(Color::blue(), Color::rgba(0, 0, 255, 255));
    assert_eq!(Color::red().to_hex(), 0xFF0000);
    assert_eq!(Color::green().to_hex(), 0x00FF00);
    assert_eq!(Color::blue().to_hex(), 0x0000FF);
}
