//! The clockface: a time of day turned into two fixed-width text fragments
//! and their places on the display.

use crate::font::digit;
use crate::font::is_digit;
use crate::font::Font;
use crate::geometry::Bounds;
use crate::time::Reading;
use crate::time::TimeOfDay;
use vstd::prelude::*;
use vstd::string::*;

verus! {

/// Where a fragment lies horizontally, relative to its anchor.
#[derive(Clone, Copy, Debug, PartialEq, Eq, Structural)]
pub enum Alignment {
    /// The text starts at the anchor.
    Left,
    /// The text extends equally to both sides of the anchor.
    Center,
    /// The text ends at the anchor.
    Right,
}

/// Which horizontal line of the glyph cell sits on the anchor.
#[derive(Clone, Copy, Debug, PartialEq, Eq, Structural)]
pub enum Baseline {
    /// The top edge of the cell.
    Top,
    /// The bottom edge of the cell.
    Bottom,
    /// The middle of the cell.
    Middle,
    /// The font's alphabetic baseline.
    Alphabetic,
}

/// One piece of text to draw: what, in which font, and where.
#[derive(Debug, PartialEq, Eq)]
pub struct Fragment {
    /// The characters to draw.
    pub text: String,
    /// The font to draw them with.
    pub font: Font,
    /// Horizontal position of the anchor, in pixels.
    pub x: i32,
    /// Vertical position of the anchor, in pixels.
    pub y: i32,
    /// Where the text lies relative to the anchor, horizontally.
    pub alignment: Alignment,
    /// Which line of the glyph cell sits on the anchor.
    pub baseline: Baseline,
}

/// A fragment with its text as a sequence of characters.
pub struct FragmentView {
    pub text: Seq<char>,
    pub font: Font,
    pub x: int,
    pub y: int,
    pub alignment: Alignment,
    pub baseline: Baseline,
}

impl View for Fragment {
    type V = FragmentView;

    open spec fn view(&self) -> FragmentView {
        FragmentView {
            text: self.text@,
            font: self.font,
            x: self.x as int,
            y: self.y as int,
            alignment: self.alignment,
            baseline: self.baseline,
        }
    }
}

/// The two fragments of the clockface.
#[derive(Debug, PartialEq, Eq)]
pub struct Clockface {
    /// Hours and minutes, `HH:MM`.
    pub main: Fragment,
    /// Seconds, `SS`.
    pub seconds: Fragment,
}

/// The clockface with its texts as sequences of characters.
pub struct ClockfaceView {
    pub main: FragmentView,
    pub seconds: FragmentView,
}

impl View for Clockface {
    type V = ClockfaceView;

    open spec fn view(&self) -> ClockfaceView {
        ClockfaceView { main: self.main@, seconds: self.seconds@ }
    }
}

/// A number below one hundred as two decimal digits, tens first.
pub open spec fn two_digits(n: int) -> Seq<char> {
    seq![digit(n / 10), digit(n % 10)]
}

/// The hour and minute field: two digits, a colon, two digits.
pub open spec fn main_text(hour: int, minute: int) -> Seq<char> {
    two_digits(hour) + seq![':'] + two_digits(minute)
}

/// The seconds field: two digits.
pub open spec fn seconds_text(second: int) -> Seq<char> {
    two_digits(second)
}

/// `s` has the shape `DD:DD`.
pub open spec fn is_main_shaped(s: Seq<char>) -> bool {
    &&& s.len() == 5
    &&& is_digit(s[0])
    &&& is_digit(s[1])
    &&& s[2] == ':'
    &&& is_digit(s[3])
    &&& is_digit(s[4])
}

/// `s` has the shape `DD`.
pub open spec fn is_seconds_shaped(s: Seq<char>) -> bool {
    &&& s.len() == 2
    &&& is_digit(s[0])
    &&& is_digit(s[1])
}

/// The clockface of a time of day on a display with the given bounding box.
/// The main fragment is centred on half the width and its top edge lies at
/// height zero, the top edge of a display whose box starts at the origin;
/// the seconds fragment ends at the bottom-right pixel and stands on its
/// baseline there.
pub open spec fn clockface(bounds: Bounds, time: Reading) -> ClockfaceView {
    ClockfaceView {
        main: FragmentView {
            text: main_text(time.hour, time.minute),
            font: Font::Large,
            x: bounds.center_x_spec(),
            y: 0,
            alignment: Alignment::Center,
            baseline: Baseline::Top,
        },
        seconds: FragmentView {
            text: seconds_text(time.second),
            font: Font::Small,
            x: bounds.bottom_right_spec().0,
            y: bounds.bottom_right_spec().1,
            alignment: Alignment::Right,
            baseline: Baseline::Alphabetic,
        },
    }
}

/// The one-character string of a decimal digit.
fn digit_str(d: u32) -> (s: &'static str)
    requires
        d <= 9,
    ensures
        s@ == seq![digit(d as int)],
{
    proof {
        reveal_strlit("0");
        reveal_strlit("1");
        reveal_strlit("2");
        reveal_strlit("3");
        reveal_strlit("4");
        reveal_strlit("5");
        reveal_strlit("6");
        reveal_strlit("7");
        reveal_strlit("8");
        reveal_strlit("9");
    }
    let s = if d == 0 {
        "0"
    } else if d == 1 {
        "1"
    } else if d == 2 {
        "2"
    } else if d == 3 {
        "3"
    } else if d == 4 {
        "4"
    } else if d == 5 {
        "5"
    } else if d == 6 {
        "6"
    } else if d == 7 {
        "7"
    } else if d == 8 {
        "8"
    } else {
        "9"
    };
    assert(s@ =~= seq![digit(d as int)]);
    s
}

/// Appends `n` to `out` as two decimal digits.
fn push_two_digits(out: &mut String, n: u32)
    requires
        n <= 99,
    ensures
        final(out)@ == old(out)@ + two_digits(n as int),
{
    out.append(digit_str(n / 10));
    out.append(digit_str(n % 10));
    assert(out@ =~= old(out)@ + two_digits(n as int));
}

/// Formats hour and minute as `HH:MM`, each zero-padded to two digits.
pub fn format_main(hour: u32, minute: u32) -> (text: String)
    requires
        hour <= 23,
        minute <= 59,
    ensures
        text@ == main_text(hour as int, minute as int),
        text@.len() == 5,
        is_main_shaped(text@),
{
    let mut text = String::new();
    push_two_digits(&mut text, hour);
    proof {
        reveal_strlit(":");
    }
    text.append(":");
    push_two_digits(&mut text, minute);
    proof {
        assert(text@ =~= main_text(hour as int, minute as int));
        main_text_is_shaped(hour as int, minute as int);
    }
    text
}

/// Formats the second as `SS`, zero-padded to two digits.
pub fn format_seconds(second: u32) -> (text: String)
    requires
        second <= 59,
    ensures
        text@ == seconds_text(second as int),
        text@.len() == 2,
        is_seconds_shaped(text@),
{
    let mut text = String::new();
    push_two_digits(&mut text, second);
    proof {
        assert(text@ =~= seconds_text(second as int));
        seconds_text_is_shaped(second as int);
    }
    text
}

/// Lays out the clockface for the given time on a display with the given
/// bounding box.
pub fn render_clockface(bounds: Bounds, hour: u32, minute: u32, second: u32) -> (face: Clockface)
    requires
        hour <= 23,
        minute <= 59,
        second <= 59,
        bounds.drawable(),
    ensures
        face@ == clockface(
            bounds,
            (Reading { hour: hour as int, minute: minute as int, second: second as int }),
        ),
        is_main_shaped(face.main.text@),
        is_seconds_shaped(face.seconds.text@),
{
    let corner = match bounds.bottom_right() {
        Some(corner) => corner,
        None => vstd::pervasive::unreached(),
    };
    Clockface {
        main: Fragment {
            text: format_main(hour, minute),
            font: Font::Large,
            x: bounds.center_x(),
            y: 0,
            alignment: Alignment::Center,
            baseline: Baseline::Top,
        },
        seconds: Fragment {
            text: format_seconds(second),
            font: Font::Small,
            x: corner.0,
            y: corner.1,
            alignment: Alignment::Right,
            baseline: Baseline::Alphabetic,
        },
    }
}

/// Lays out the clockface for a reading, or nothing where the display has
/// no pixel to anchor it to.
pub fn try_render_clockface(bounds: Bounds, time: TimeOfDay) -> (face: Option<Clockface>)
    ensures
        face is Some <==> bounds.drawable(),
        face matches Some(f) ==> f@ == clockface(bounds, time@),
        face matches Some(f) ==> is_main_shaped(f.main.text@) && is_seconds_shaped(
            f.seconds.text@,
        ),
{
    if bounds.is_drawable() {
        Some(render_clockface(bounds, time.hour(), time.minute(), time.second()))
    } else {
        None
    }
}

/// For every hour and minute of the day the main text is five characters
/// long and reads digit, digit, colon, digit, digit: both numbers are padded
/// with a zero to two places.
pub proof fn main_text_is_shaped(hour: int, minute: int)
    requires
        0 <= hour <= 23,
        0 <= minute <= 59,
    ensures
        main_text(hour, minute).len() == 5,
        is_main_shaped(main_text(hour, minute)),
        main_text(hour, minute)[0] == digit(hour / 10),
        main_text(hour, minute)[1] == digit(hour % 10),
        main_text(hour, minute)[3] == digit(minute / 10),
        main_text(hour, minute)[4] == digit(minute % 10),
{
    let s = main_text(hour, minute);
    assert(s[0] == digit(hour / 10));
    assert(s[1] == digit(hour % 10));
    assert(s[3] == digit(minute / 10));
    assert(s[4] == digit(minute % 10));
}

/// For every second of the minute the seconds text is two characters long,
/// both digits: the number is padded with a zero to two places.
pub proof fn seconds_text_is_shaped(second: int)
    requires
        0 <= second <= 59,
    ensures
        seconds_text(second).len() == 2,
        is_seconds_shaped(seconds_text(second)),
        seconds_text(second)[0] == digit(second / 10),
        seconds_text(second)[1] == digit(second % 10),
{
    let s = seconds_text(second);
    assert(s[0] == digit(second / 10));
    assert(s[1] == digit(second % 10));
}

/// The main fragment does not depend on the seconds: two readings of the
/// same hour and minute give the same text at the same place.
pub proof fn main_fragment_ignores_seconds(bounds: Bounds, first: Reading, second: Reading)
    requires
        first.hour == second.hour,
        first.minute == second.minute,
    ensures
        clockface(bounds, first).main == clockface(bounds, second).main,
{
}

/// Every character of the clockface has a glyph in the font it is drawn
/// with: the main text in the large font, the seconds in the small one.
pub proof fn clockface_uses_supported_glyphs(bounds: Bounds, time: Reading)
    requires
        time.in_range(),
    ensures
        forall|i: int|
            0 <= i < clockface(bounds, time).main.text.len() ==> clockface(
                bounds,
                time,
            ).main.font.supports(#[trigger] clockface(bounds, time).main.text[i]),
        forall|i: int|
            0 <= i < clockface(bounds, time).seconds.text.len() ==> clockface(
                bounds,
                time,
            ).seconds.font.supports(#[trigger] clockface(bounds, time).seconds.text[i]),
{
    main_text_is_shaped(time.hour, time.minute);
    seconds_text_is_shaped(time.second);
}

} // verus!
