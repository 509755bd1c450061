use chip8::display::{
    Display, COLOR_OFF, COLOR_ON, DISPLAY_HEIGHT, DISPLAY_PIXELS, DISPLAY_WIDTH, SCALE,
    WINDOW_HEIGHT, WINDOW_WIDTH,
};

#[test]
fn display_constants() {
    assert_eq!(DISPLAY_WIDTH, 64);
    assert_eq!(DISPLAY_HEIGHT, 32);
    assert_eq!(DISPLAY_PIXELS, 2048);
    assert_eq!(SCALE, 8);
    assert_eq!(WINDOW_WIDTH, 512);
    assert_eq!(WINDOW_HEIGHT, 256);
}

#[test]
fn display_new_is_dark() {
    let display = Display::new();
    for y in 0..DISPLAY_HEIGHT {
        for x in 0..DISPLAY_WIDTH {
            assert!(!display.pixel(x, y));
        }
    }
    assert_eq!(display.snapshot(), [false; DISPLAY_PIXELS]);
}

#[test]
fn xor_pixel_flips_and_reports() {
    let mut display = Display::new();
    assert!(!display.xor_pixel(3, 2));
    assert!(display.pixel(3, 2));
    assert!(!display.pixel(2, 3));
    assert!(display.snapshot()[2 * 64 + 3]);
    assert!(display.xor_pixel(3, 2));
    assert!(!display.pixel(3, 2));
    assert_eq!(display.snapshot(), [false; DISPLAY_PIXELS]);
}

#[test]
fn xor_pixel_corners() {
    let mut display = Display::new();
    display.xor_pixel(0, 0);
    display.xor_pixel(63, 0);
    display.xor_pixel(0, 31);
    display.xor_pixel(63, 31);
    let frame = display.snapshot();
    let lit: Vec<usize> = (0..DISPLAY_PIXELS).filter(|p| frame[*p]).collect();
    assert_eq!(lit, vec![0, 63, 31 * 64, 2047]);
}

#[test]
fn clear_darkens_every_pixel() {
    let mut display = Display::new();
    for y in 0..DISPLAY_HEIGHT {
        for x in 0..DISPLAY_WIDTH {
            if (x + y) % 3 == 0 {
                display.xor_pixel(x, y);
            }
        }
    }
    display.clear();
    assert_eq!(display.snapshot(), [false; DISPLAY_PIXELS]);
}

#[test]
fn render_scales_each_pixel() {
    let mut display = Display::new();
    display.xor_pixel(1, 0);
    display.xor_pixel(63, 31);
    let image = display.render();
    assert_eq!(image.len(), 512 * 256);
    for py in 0..WINDOW_HEIGHT {
        for px in 0..WINDOW_WIDTH {
            let expected = if (8..16).contains(&px) && py < 8 || px >= 504 && py >= 248 {
                COLOR_ON
            } else {
                COLOR_OFF
            };
            assert_eq!(image[py * WINDOW_WIDTH + px], expected);
        }
    }
    assert_eq!(COLOR_ON, 0xFFFFFFFF);
    assert_eq!(COLOR_OFF, 0);
}
