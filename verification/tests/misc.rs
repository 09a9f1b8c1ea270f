use narcissus::sqlite::{
    SQLITE_BUSY, SQLITE_CONSTRAINT, SQLITE_CONSTRAINT_UNIQUE, SQLITE_DONE, SQLITE_ERROR,
    SQLITE_ERROR_RETRY, SQLITE_IOERR, SQLITE_IOERR_READ, SQLITE_OK, SQLITE_ROW,
};
use narcissus::font::{GlyphIndex, Oversample};
use narcissus::raw_vec::VirtualRawVec;
use narcissus::sdl2::{
    Bool, EventType, Keycode, MouseButton, PressedState, Scancode, SysWMType, Version, WindowEventId,
};
use narcissus::svg::{black, blue, green, hsl, path_end, red, rgb, svg_end, white, Color, Hsl, PathEnd, Rgb, SvgEnd};

#[test]
fn colors() {
    assert!(black() == rgb(0, 0, 0));
    assert!(white() == Color::Rgb(Rgb { r: 255, g: 255, b: 255 }));
    assert!(red() == rgb(255, 0, 0));
    assert!(green() == rgb(0, 255, 0));
    assert!(blue() == rgb(0, 0, 255));
    assert!(hsl(200, 50, 40) == Color::Hsl(Hsl { h: 200, s: 50, l: 40 }));
    assert!(svg_end() == SvgEnd);
    assert!(path_end() == PathEnd);
}

#[test]
fn oversample_factors() {
    assert_eq!(Oversample::X1.as_i32(), 1);
    assert_eq!(Oversample::X2.as_i32(), 2);
    assert_eq!(Oversample::X8.as_i32(), 8);
    assert!(Oversample::X3 < Oversample::X4);
}

#[test]
fn glyph_index() {
    assert!(GlyphIndex::new(0).is_none());
    assert_eq!(GlyphIndex::new(65).unwrap().get(), 65);
    assert_eq!(GlyphIndex::new(-3).unwrap().get(), -3);
}

#[test]
fn sdl_version() {
    let v = Version::current();
    assert_eq!((v.major, v.minor, v.patch), (2, 24, 2));
}

#[test]
fn raw_vec_growth() {
    let mut v = VirtualRawVec::<u64>::new(100);
    assert_eq!(v.capacity(), 0);
    assert_eq!(v.max_capacity(), 100);
    // Nothing committed yet: room for 3 needs growth to exactly 3 elements.
    assert_eq!(v.reserve(0, 3), Some(3 * 8));
    assert_eq!(v.capacity(), 3);
    // Already enough room.
    assert_eq!(v.reserve(1, 2), None);
    // Growth at least doubles.
    assert_eq!(v.reserve(3, 1), Some(6 * 8));
    assert_eq!(v.capacity(), 6);
    // Growth never passes the maximum, but always covers the request.
    assert_eq!(v.grow(6, 90), 96 * 8);
    assert_eq!(v.double(), 100 * 8);
    assert_eq!(v.capacity(), 100);

    let (mut w, bytes) = VirtualRawVec::<u16>::with_capacity(4, 10);
    assert_eq!(bytes, 8);
    assert_eq!(w.capacity(), 4);
    assert_eq!(w.double(), 16);
    assert_eq!(w.double(), 20);
    let mut z = VirtualRawVec::<u8>::new(5);
    assert_eq!(z.double(), 1);
}

#[test]
fn svg_text() {
    assert_eq!(Rgb { r: 1, g: 22, b: 255 }.to_string(), "rgb(1, 22, 255)");
    assert_eq!(black().to_string(), "rgb(0, 0, 0)");
    assert_eq!(Hsl { h: 120, s: 50, l: 30 }.to_string(), "hsl(120, 50%, 50%)");
    assert_eq!(hsl(400, 150, 7).to_string(), "hsl(40, 100%, 100%)");
    assert_eq!(PathEnd.to_string(), "\" />");
    assert_eq!(svg_end().to_string(), "</svg>");
}

#[test]
fn sdl2_codes() {
    assert_eq!(Bool::False.as_raw(), 0);
    assert_eq!(Bool::True.as_raw(), 1);
    assert_eq!(PressedState::Pressed.as_raw(), 1);
    assert_eq!(MouseButton::Left.as_raw(), 1);
    assert_eq!(MouseButton::X2.as_raw(), 5);
    assert_eq!(Scancode::UNKNOWN.as_raw(), 0);
    assert_eq!(Scancode::A.as_raw(), 4);
    assert_eq!(Scancode::CAPSLOCK.as_raw(), 57);
    assert_eq!(Scancode::NUM_SCANCODES.as_raw(), 512);
    assert_eq!(Keycode::RETURN.as_raw(), 13);
    assert_eq!(Keycode::a.as_raw(), 97);
    assert_eq!(Keycode::DELETE.as_raw(), 127);
    assert_eq!(Keycode::CAPSLOCK.as_raw(), 0x4000_0039);
    assert_eq!(Keycode::F1.as_raw(), Scancode::F1.as_raw() | (1 << 30));
    assert_eq!(EventType::QUIT.as_raw(), 0x100);
    assert_eq!(EventType::APP_TERMINATING.as_raw(), 0x101);
    assert_eq!(EventType::KEYDOWN.as_raw(), 0x300);
    assert_eq!(EventType::KEYUP.as_raw(), 0x301);
    assert_eq!(EventType::CONTROLLERSENSORUPDATE.as_raw(), 0x659);
    assert_eq!(EventType::LASTEVENT.as_raw(), 0xFFFF);
    assert_eq!(WindowEventId::Unused.as_raw(), 0);
    assert_eq!(WindowEventId::DisplayChanged.as_raw(), 18);
    assert_eq!(SysWMType::X11.as_raw(), 2);
    assert_eq!(SysWMType::RISCOS.as_raw(), 14);
}

#[test]
fn sqlite_result_codes() {
    assert_eq!(SQLITE_OK, 0);
    assert_eq!(SQLITE_BUSY, 5);
    assert_eq!(SQLITE_ROW, 100);
    assert_eq!(SQLITE_DONE, 101);
    assert_eq!(SQLITE_ERROR_RETRY, 513);
    assert_eq!(SQLITE_IOERR_READ, 266);
    assert_eq!(SQLITE_ERROR_RETRY & 0xff, SQLITE_ERROR);
    assert_eq!(SQLITE_IOERR_READ & 0xff, SQLITE_IOERR);
    assert_eq!(SQLITE_CONSTRAINT_UNIQUE & 0xff, SQLITE_CONSTRAINT);
}
