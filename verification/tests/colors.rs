use noise_circle::color::{Channel, ColorRole, ColorSet, Rgba};

#[test]
fn from_rgb_takes_the_three_bytes_apart() {
    let colors = ColorSet::from_rgb(0x123456, 0xFF0000, 0x00FF00, 0x0000FF);
    assert_eq!(colors.background, Rgba { red: 0x12, green: 0x34, blue: 0x56, alpha: 255 });
    assert_eq!(colors.border, Rgba { red: 255, green: 0, blue: 0, alpha: 255 });
    assert_eq!(colors.inner, Rgba { red: 0, green: 255, blue: 0, alpha: 255 });
    assert_eq!(colors.outer, Rgba { red: 0, green: 0, blue: 255, alpha: 255 });
}

#[test]
fn from_rgb_gives_every_byte_back_in_every_channel() {
    for byte in 0..=255u32 {
        let colors = ColorSet::from_rgb(byte << 16, byte << 8, byte, byte << 16 | byte << 8 | byte);
        let b = byte as u8;
        assert_eq!(colors.background, Rgba { red: b, green: 0, blue: 0, alpha: 255 });
        assert_eq!(colors.border, Rgba { red: 0, green: b, blue: 0, alpha: 255 });
        assert_eq!(colors.inner, Rgba { red: 0, green: 0, blue: b, alpha: 255 });
        assert_eq!(colors.outer, Rgba { red: b, green: b, blue: b, alpha: 255 });
    }
}

#[test]
fn from_rgb_ignores_the_highest_byte() {
    let colors = ColorSet::from_rgb(0xFF123456, 0x01000000, 0x80FFFFFF, 0x7FABCDEF);
    assert_eq!(colors.background, Rgba { red: 0x12, green: 0x34, blue: 0x56, alpha: 255 });
    assert_eq!(colors.border, Rgba { red: 0, green: 0, blue: 0, alpha: 255 });
    assert_eq!(colors.inner, Rgba { red: 255, green: 255, blue: 255, alpha: 255 });
    assert_eq!(colors.outer, Rgba { red: 0xAB, green: 0xCD, blue: 0xEF, alpha: 255 });
}

#[test]
fn channels_are_read_and_set_one_by_one() {
    let mut color = Rgba { red: 1, green: 2, blue: 3, alpha: 4 };
    assert_eq!(color.get(Channel::Red), 1);
    assert_eq!(color.get(Channel::Green), 2);
    assert_eq!(color.get(Channel::Blue), 3);
    assert_eq!(color.get(Channel::Alpha), 4);
    color.set(Channel::Green, 200);
    assert_eq!(color, Rgba { red: 1, green: 200, blue: 3, alpha: 4 });
    color.set(Channel::Alpha, 0);
    assert_eq!(color, Rgba { red: 1, green: 200, blue: 3, alpha: 0 });
    color.set(Channel::Red, 255);
    color.set(Channel::Blue, 17);
    assert_eq!(color, Rgba { red: 255, green: 200, blue: 17, alpha: 0 });
}

#[test]
fn set_channel_changes_one_channel_of_one_color() {
    let start = ColorSet::from_rgb(0x010203, 0x040506, 0x070809, 0x0A0B0C);
    let roles = [ColorRole::Background, ColorRole::Border, ColorRole::Inner, ColorRole::Outer];
    let channels = [Channel::Red, Channel::Green, Channel::Blue, Channel::Alpha];
    for role in roles {
        for channel in channels {
            let mut colors = start;
            colors.set_channel(role, channel, 99);
            for other in roles {
                for c in channels {
                    let expected =
                        if other == role && c == channel { 99 } else { start.get(other).get(c) };
                    assert_eq!(colors.get(other).get(c), expected);
                }
            }
        }
    }
}
