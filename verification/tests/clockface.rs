use espwatch::clockface::try_render_clockface;
use espwatch::clockface::format_main;
use espwatch::clockface::format_seconds;
use espwatch::clockface::render_clockface;
use espwatch::clockface::Alignment;
use espwatch::clockface::Baseline;
use espwatch::font::Font;
use espwatch::geometry::Bounds;
use espwatch::time::TimeOfDay;

fn panel() -> Bounds {
    Bounds::with_size(128, 64)
}

#[test]
fn main_text_is_zero_padded() {
    assert_eq!(format_main(0, 0), "00:00");
    assert_eq!(format_main(9, 5), "09:05");
    assert_eq!(format_main(10, 10), "10:10");
    assert_eq!(format_main(23, 59), "23:59");
}

#[test]
fn seconds_text_is_zero_padded() {
    assert_eq!(format_seconds(0), "00");
    assert_eq!(format_seconds(5), "05");
    assert_eq!(format_seconds(10), "10");
    assert_eq!(format_seconds(59), "59");
}

#[test]
fn main_text_has_its_shape_for_every_minute_of_the_day() {
    for hour in 0..24u32 {
        for minute in 0..60u32 {
            let text = format_main(hour, minute);
            let bytes = text.as_bytes();
            assert_eq!(bytes.len(), 5);
            assert!(bytes[0].is_ascii_digit());
            assert!(bytes[1].is_ascii_digit());
            assert_eq!(bytes[2], b':');
            assert!(bytes[3].is_ascii_digit());
            assert!(bytes[4].is_ascii_digit());
            assert_eq!(u32::from(bytes[0] - b'0') * 10 + u32::from(bytes[1] - b'0'), hour);
            assert_eq!(u32::from(bytes[3] - b'0') * 10 + u32::from(bytes[4] - b'0'), minute);
        }
    }
}

#[test]
fn seconds_text_has_its_shape_for_every_second() {
    for second in 0..60u32 {
        let text = format_seconds(second);
        let bytes = text.as_bytes();
        assert_eq!(bytes.len(), 2);
        assert!(bytes[0].is_ascii_digit());
        assert!(bytes[1].is_ascii_digit());
        assert_eq!(u32::from(bytes[0] - b'0') * 10 + u32::from(bytes[1] - b'0'), second);
    }
}

#[test]
fn main_fragment_does_not_depend_on_seconds() {
    let reference = render_clockface(panel(), 13, 7, 0).main;
    for second in 0..60u32 {
        assert_eq!(render_clockface(panel(), 13, 7, second).main, reference);
    }
}

#[test]
fn minute_rollover_leaves_no_digit_behind() {
    let before = render_clockface(panel(), 13, 7, 59);
    assert_eq!(before.main.text, "13:07");
    assert_eq!(before.seconds.text, "59");
    let after = render_clockface(panel(), 13, 8, 0);
    assert_eq!(after.main.text, "13:08");
    assert_eq!(after.seconds.text, "00");
}

#[test]
fn same_second_twice_gives_the_same_full_clockface() {
    let first = render_clockface(panel(), 7, 30, 15);
    let second = render_clockface(panel(), 7, 30, 15);
    assert_eq!(first, second);
    assert_eq!(second.main.text, "07:30");
    assert_eq!(second.seconds.text, "15");
}

#[test]
fn main_fragment_hangs_centred_from_the_top_edge() {
    let face = render_clockface(panel(), 13, 7, 59);
    assert_eq!(face.main.font, Font::Large);
    assert_eq!((face.main.x, face.main.y), (64, 0));
    assert_eq!(face.main.alignment, Alignment::Center);
    assert_eq!(face.main.baseline, Baseline::Top);
}

#[test]
fn seconds_fragment_ends_at_the_bottom_right_pixel() {
    let face = render_clockface(panel(), 13, 7, 59);
    assert_eq!(face.seconds.font, Font::Small);
    assert_eq!((face.seconds.x, face.seconds.y), (127, 63));
    assert_eq!(face.seconds.alignment, Alignment::Right);
    assert_eq!(face.seconds.baseline, Baseline::Alphabetic);
}

#[test]
fn centre_is_half_the_width_whatever_the_offset() {
    let bounds = Bounds { x: 10, y: 20, width: 73, height: 40 };
    let face = render_clockface(bounds, 0, 0, 0);
    assert_eq!((face.main.x, face.main.y), (36, 0));
    assert_eq!((face.seconds.x, face.seconds.y), (82, 59));
}

#[test]
fn clockface_of_a_reading_matches_the_fields() {
    let time = TimeOfDay::new(23, 59, 58).unwrap();
    let face = try_render_clockface(panel(), time).unwrap();
    assert_eq!(face, render_clockface(panel(), 23, 59, 58));
    assert_eq!(face.main.text, "23:59");
    assert_eq!(face.seconds.text, "58");
}

#[test]
fn no_clockface_without_a_pixel() {
    let time = TimeOfDay::new(1, 2, 3).unwrap();
    assert_eq!(try_render_clockface(Bounds::with_size(0, 64), time), None);
    assert_eq!(try_render_clockface(Bounds::with_size(128, 0), time), None);
    assert_eq!(try_render_clockface(Bounds::with_size(0, 0), time), None);
}

#[test]
fn no_clockface_where_a_coordinate_does_not_fit() {
    let time = TimeOfDay::new(1, 2, 3).unwrap();
    let too_wide = Bounds { x: 0, y: 0, width: 0x8000_0000, height: 1 };
    assert_eq!(try_render_clockface(too_wide, time), None);
    let too_far = Bounds { x: i32::MAX, y: 0, width: 1, height: 1 };
    assert_eq!(try_render_clockface(too_far, time), None);
}
