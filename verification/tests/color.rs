use blog_os::vga_buffer::{Color, ColorCode};

fn palette() -> [Color; 16] {
    [
        Color::Black,
        Color::Blue,
        Color::Green,
        Color::Cyan,
        Color::Red,
        Color::Magenta,
        Color::Brown,
        Color::LightGray,
        Color::DarkGray,
        Color::LightBlue,
        Color::LightGreen,
        Color::LightCyan,
        Color::LightRed,
        Color::Pink,
        Color::Yellow,
        Color::White,
    ]
}

#[test]
fn colors_are_numbered_in_palette_order() {
    for (index, color) in palette().iter().enumerate() {
        assert_eq!(color.code() as usize, index);
    }
    assert_eq!(Color::Black.code(), 0);
    assert_eq!(Color::LightGray.code(), 7);
    assert_eq!(Color::Yellow.code(), 14);
    assert_eq!(Color::White.code(), 15);
}

#[test]
fn attribute_holds_foreground_low_and_background_high() {
    for foreground in palette() {
        for background in palette() {
            let code = ColorCode::new(foreground, background).as_u8();
            assert_eq!(code & 0x0f, foreground.code());
            assert_eq!(code >> 4, background.code());
        }
    }
}

#[test]
fn attribute_of_known_pairs() {
    assert_eq!(ColorCode::new(Color::Yellow, Color::Black).as_u8(), 0x0e);
    assert_eq!(ColorCode::new(Color::Black, Color::Yellow).as_u8(), 0xe0);
    assert_eq!(ColorCode::new(Color::White, Color::Blue).as_u8(), 0x1f);
    assert_eq!(ColorCode::new(Color::White, Color::White).as_u8(), 0xff);
    assert_eq!(ColorCode::new(Color::Black, Color::Black).as_u8(), 0x00);
}

#[test]
fn equal_pairs_give_equal_attributes_and_different_pairs_differ() {
    let all = palette();
    for (i, f1) in all.iter().enumerate() {
        for (j, b1) in all.iter().enumerate() {
            for (k, f2) in all.iter().enumerate() {
                for (l, b2) in all.iter().enumerate() {
                    let same = i == k && j == l;
                    assert_eq!(ColorCode::new(*f1, *b1) == ColorCode::new(*f2, *b2), same);
                }
            }
        }
    }
}
