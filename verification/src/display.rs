//! What the matrix display shows.
//!
//! Nothing in this module touches the device. A [`Display`] turns a request
//! into the calls that the device driver has to be given, in order, as a list
//! of [`DisplayOp`]s; whoever owns the bus makes the calls.

use vstd::prelude::*;
use vstd::utf8::{encode_utf8, is_ascii_chars_encode_utf8};
use crate::queue::{after_receive, DisplayQueue};
use crate::timestamp::{TimeOfDay, Timestamp, UtcOffset};

verus! {

/// Bytes that a text on the display may take: one for each of the four
/// glyph cells of the 32-column matrix.
pub const TEXT_CAPACITY: usize = 4;

/// Column at which the hour's two digits start.
pub const HOUR_COLUMN: i32 = 0;

/// Column at which the minute's two digits start.
pub const MINUTE_COLUMN: i32 = 17;

/// Column at which a text starts.
pub const TEXT_COLUMN: i32 = 0;

/// Column of the two dots between hour and minute.
pub const DOTS_COLUMN: i32 = 15;

/// Row of the upper dot.
pub const UPPER_DOT_ROW: i32 = 3;

/// Row of the lower dot.
pub const LOWER_DOT_ROW: i32 = 5;

/// Highest brightness the device knows.
pub const MAX_INTENSITY: u8 = 0x0F;

/// Brightness that the display is set to when the appliance starts.
pub const STARTUP_INTENSITY: u8 = 0x01;

/// Code of the character `'0'`; the codes of the other digits follow it.
pub const ASCII_ZERO: u8 = 48;

/// Makes `heapless::String`, a string of fixed capacity, known as a type
/// whose inside is not looked into.
#[verifier::external_type_specification]
#[verifier::external_body]
pub struct ExString<const N: usize>(heapless::String<N>);

/// A text that fits the display.
pub type DisplayText = heapless::String<TEXT_CAPACITY>;

/// The characters that a text holds, first to last.
pub uninterp spec fn text_chars(text: DisplayText) -> Seq<char>;

/// Calls `heapless::String::new`, which gives an empty text.
#[verifier::external_body]
fn text_new() -> (r: DisplayText)
    ensures
        text_chars(r) == Seq::<char>::empty(),
{
    heapless::String::new()
}

/// Calls `heapless::String::push`. The character is appended where the text
/// with it still fits the capacity in bytes of UTF-8; otherwise the call
/// fails and the text stays as it was.
#[verifier::external_body]
fn text_push(text: &mut DisplayText, c: char) -> (r: Result<(), ()>)
    ensures
        r is Ok <==> encode_utf8(text_chars(*old(text)).push(c)).len() <= TEXT_CAPACITY,
        r is Ok ==> text_chars(*final(text)) == text_chars(*old(text)).push(c),
        r is Err ==> text_chars(*final(text)) == text_chars(*old(text)),
{
    text.push(c)
}

/// Calls `heapless::String::try_from` on a string slice. The text holds the
/// slice's characters where the slice fits the capacity in bytes of UTF-8;
/// otherwise the call fails.
#[verifier::external_body]
fn text_from_str(s: &str) -> (r: Result<DisplayText, ()>)
    ensures
        r is Ok <==> encode_utf8(s@).len() <= TEXT_CAPACITY,
        r matches Ok(text) ==> text_chars(text) == s@,
{
    heapless::String::try_from(s)
}

/// What can go wrong when a request is turned into device calls.
#[derive(Clone, Copy, Debug, PartialEq, Eq, Structural)]
pub enum DisplayError {
    /// A text does not fit the display.
    Format,
}

/// What the functions of this module return.
pub type DisplayResult<T> = Result<T, DisplayError>;

/// One call to the device driver.
#[derive(Debug, PartialEq, Eq)]
pub enum DisplayOp {
    /// Bring the device up.
    Initialize,
    /// Set the brightness to `level`, `0..=15`.
    SetBrightness { level: u8 },
    /// Blank the whole surface.
    Clear,
    /// Write `text` with its left edge at `column`.
    WriteText { column: i32, text: DisplayText },
    /// Switch the pixel at column `x`, row `y` on or off.
    SetPixel { x: i32, y: i32, on: bool },
}

/// A device call with the text it carries as a sequence of characters.
pub enum DisplayOpView {
    Initialize,
    SetBrightness { level: u8 },
    Clear,
    WriteText { column: i32, text: Seq<char> },
    SetPixel { x: i32, y: i32, on: bool },
}

impl View for DisplayOp {
    type V = DisplayOpView;

    open spec fn view(&self) -> DisplayOpView {
        match *self {
            DisplayOp::Initialize => DisplayOpView::Initialize,
            DisplayOp::SetBrightness { level } => DisplayOpView::SetBrightness { level },
            DisplayOp::Clear => DisplayOpView::Clear,
            DisplayOp::WriteText { column, text } => DisplayOpView::WriteText {
                column,
                text: text_chars(text),
            },
            DisplayOp::SetPixel { x, y, on } => DisplayOpView::SetPixel { x, y, on },
        }
    }
}

/// The device calls of a list, each with its text as characters.
pub open spec fn calls(ops: Seq<DisplayOp>) -> Seq<DisplayOpView> {
    ops.map_values(|op: DisplayOp| op@)
}

/// The character of the decimal digit `d`, and the character that many
/// places after `'0'` for larger `d`.
pub open spec fn digit_char(d: u8) -> char {
    (ASCII_ZERO + d) as char
}

/// The two characters that show `value`: its tens and its ones.
pub open spec fn two_digits(value: u8) -> Seq<char> {
    seq![digit_char(value / 10), digit_char(value % 10)]
}

/// The text of the two digits of `value`, padded with a zero below ten.
fn digits_text(value: u8) -> (r: DisplayResult<DisplayText>)
    ensures
        r matches Ok(text) && text_chars(text) == two_digits(value),
{
    let mut text = text_new();
    let tens = (ASCII_ZERO + value / 10) as char;
    let ones = (ASCII_ZERO + value % 10) as char;
    proof {
        let one = Seq::<char>::empty().push(tens);
        let two = one.push(ones);
        is_ascii_chars_encode_utf8(one);
        is_ascii_chars_encode_utf8(two);
    }
    if text_push(&mut text, tens).is_err() {
        return Err(DisplayError::Format);
    }
    if text_push(&mut text, ones).is_err() {
        return Err(DisplayError::Format);
    }
    Ok(text)
}

/// A request to the display task.
#[derive(Debug, PartialEq, Eq)]
pub enum DisplayCommad {
    /// Show hour and minute of this instant, in local time.
    ShowTime(Timestamp),
    /// Blank the display.
    Clear,
    /// Show this text.
    ShowText(DisplayText),
}

/// A request with the text it carries as a sequence of characters.
pub enum DisplayCommadView {
    ShowTime(Timestamp),
    Clear,
    ShowText(Seq<char>),
}

impl View for DisplayCommad {
    type V = DisplayCommadView;

    open spec fn view(&self) -> DisplayCommadView {
        match *self {
            DisplayCommad::ShowTime(time) => DisplayCommadView::ShowTime(time),
            DisplayCommad::Clear => DisplayCommadView::Clear,
            DisplayCommad::ShowText(text) => DisplayCommadView::ShowText(text_chars(text)),
        }
    }
}

impl DisplayCommad {
    /// The request to show `text`. A text that takes more than
    /// `TEXT_CAPACITY` bytes of UTF-8 is refused here, where the request is
    /// made, and never reaches the display task.
    pub fn show_text(text: &str) -> (r: DisplayResult<DisplayCommad>)
        ensures
            match r {
                Ok(command) => encode_utf8(text@).len() <= TEXT_CAPACITY && command@
                    == DisplayCommadView::ShowText(text@),
                Err(e) => encode_utf8(text@).len() > TEXT_CAPACITY && e == DisplayError::Format,
            },
    {
        match text_from_str(text) {
            Ok(text) => Ok(DisplayCommad::ShowText(text)),
            Err(_) => Err(DisplayError::Format),
        }
    }
}

impl core::convert::From<Timestamp> for DisplayCommad {
    /// The request to show `value`.
    fn from(value: Timestamp) -> (r: DisplayCommad) {
        DisplayCommad::ShowTime(value)
    }
}

impl vstd::std_specs::convert::FromSpecImpl<Timestamp> for DisplayCommad {
    open spec fn obeys_from_spec() -> bool {
        true
    }

    open spec fn from_spec(value: Timestamp) -> DisplayCommad {
        DisplayCommad::ShowTime(value)
    }
}

/// The device calls that write the two digits of `hour` and of `minute` at
/// their columns.
pub open spec fn hh_mm_calls(hour: u8, minute: u8) -> Seq<DisplayOpView> {
    seq![
        DisplayOpView::WriteText { column: HOUR_COLUMN, text: two_digits(hour) },
        DisplayOpView::WriteText { column: MINUTE_COLUMN, text: two_digits(minute) },
    ]
}

/// The device calls that switch the two dots between hour and minute.
pub open spec fn dots_calls(show: bool) -> Seq<DisplayOpView> {
    seq![
        DisplayOpView::SetPixel { x: DOTS_COLUMN, y: UPPER_DOT_ROW, on: show },
        DisplayOpView::SetPixel { x: DOTS_COLUMN, y: LOWER_DOT_ROW, on: show },
    ]
}

/// The device calls that show the time `hour:minute`: the digits, then the
/// dots switched on.
pub open spec fn time_calls(hour: u8, minute: u8) -> Seq<DisplayOpView> {
    hh_mm_calls(hour, minute) + dots_calls(true)
}

/// The device calls that carry out `command` on a display whose local time
/// is `zone` seconds ahead of UTC.
pub open spec fn command_calls(command: DisplayCommadView, zone: int) -> Seq<DisplayOpView> {
    match command {
        DisplayCommadView::ShowTime(time) => time_calls(
            crate::timestamp::hour_at(time@, zone) as u8,
            crate::timestamp::minute_at(time@, zone) as u8,
        ),
        DisplayCommadView::Clear => seq![DisplayOpView::Clear],
        DisplayCommadView::ShowText(text) => seq![
            DisplayOpView::WriteText { column: TEXT_COLUMN, text },
        ],
    }
}

/// The renderer: it knows the offset of local time, and nothing else.
#[derive(Clone, Copy, Debug, PartialEq, Eq, Structural)]
pub struct Display {
    timezone: UtcOffset,
}

impl Display {
    /// The offset under which times are shown.
    pub closed spec fn timezone(&self) -> UtcOffset {
        self.timezone
    }

    /// A renderer for local time at `timezone`, and the call that brings the
    /// device up.
    pub fn init(timezone: UtcOffset) -> (r: (Display, DisplayOp))
        ensures
            r.0.timezone() == timezone,
            r.1@ == DisplayOpView::Initialize,
    {
        (Display { timezone }, DisplayOp::Initialize)
    }

    /// The call that sets the brightness. Only the low four bits of
    /// `intensity` count.
    pub fn set_intensity(&self, intensity: u8) -> (r: DisplayOp)
        ensures
            r@ == (DisplayOpView::SetBrightness { level: intensity & MAX_INTENSITY }),
            (intensity & MAX_INTENSITY) <= MAX_INTENSITY,
    {
        assert(intensity & 0x0F <= 0x0F) by (bit_vector);
        DisplayOp::SetBrightness { level: intensity & MAX_INTENSITY }
    }

    /// The call that writes `text` with its left edge at column `x`, where
    /// the text fits the display.
    pub fn write_str(&self, x: i32, text: &str) -> (r: DisplayResult<DisplayOp>)
        ensures
            match r {
                Ok(op) => encode_utf8(text@).len() <= TEXT_CAPACITY && op@ == (
                DisplayOpView::WriteText { column: x, text: text@ }),
                Err(e) => encode_utf8(text@).len() > TEXT_CAPACITY && e == DisplayError::Format,
            },
    {
        match text_from_str(text) {
            Ok(text) => Ok(DisplayOp::WriteText { column: x, text }),
            Err(_) => Err(DisplayError::Format),
        }
    }

    /// The call that blanks the whole surface.
    pub fn clear(&self) -> (r: DisplayOp)
        ensures
            r@ == DisplayOpView::Clear,
    {
        DisplayOp::Clear
    }

    /// The calls that write `hour` and `minute`, each as two digits, at
    /// their columns.
    pub fn write_hh_mm(&self, hour: u8, minute: u8) -> (r: DisplayResult<Vec<DisplayOp>>)
        ensures
            r matches Ok(ops) && calls(ops@) == hh_mm_calls(hour, minute),
    {
        let h = digits_text(hour)?;
        let m = digits_text(minute)?;
        let mut ops: Vec<DisplayOp> = Vec::new();
        ops.push(DisplayOp::WriteText { column: HOUR_COLUMN, text: h });
        ops.push(DisplayOp::WriteText { column: MINUTE_COLUMN, text: m });
        Ok(ops)
    }

    /// The calls that switch the two dots between hour and minute on or off.
    pub fn show_clock_dots(&self, show: bool) -> (r: Vec<DisplayOp>)
        ensures
            calls(r@) == dots_calls(show),
    {
        let mut ops: Vec<DisplayOp> = Vec::new();
        ops.push(DisplayOp::SetPixel { x: DOTS_COLUMN, y: UPPER_DOT_ROW, on: show });
        ops.push(DisplayOp::SetPixel { x: DOTS_COLUMN, y: LOWER_DOT_ROW, on: show });
        ops
    }

    /// The calls that show `time`: hour and minute as digits, then the dots
    /// switched on.
    pub fn write_time(&self, time: TimeOfDay) -> (r: DisplayResult<Vec<DisplayOp>>)
        ensures
            r matches Ok(ops) && calls(ops@) == time_calls(time.hour_spec(), time.minute_spec()),
    {
        let mut ops = self.write_hh_mm(time.hour(), time.minute())?;
        let mut dots = self.show_clock_dots(true);
        ops.append(&mut dots);
        Ok(ops)
    }

    /// The calls that carry out `command`.
    pub fn render(&self, command: DisplayCommad) -> (r: DisplayResult<Vec<DisplayOp>>)
        ensures
            r matches Ok(ops) && calls(ops@) == command_calls(command@, self.timezone()@),
    {
        match command {
            DisplayCommad::ShowTime(time) => {
                let local = time.with_timezone(self.timezone);
                self.write_time(local.time())
            },
            DisplayCommad::Clear => {
                let mut ops: Vec<DisplayOp> = Vec::new();
                ops.push(self.clear());
                Ok(ops)
            },
            DisplayCommad::ShowText(text) => {
                let mut ops: Vec<DisplayOp> = Vec::new();
                ops.push(DisplayOp::WriteText { column: TEXT_COLUMN, text });
                Ok(ops)
            },
        }
    }
}

/// Seconds until the time is written to the display again after a write
/// that failed.
pub const REFRESH_RETRY_SECONDS: u64 = 10;

/// Seconds until the time is to be written to the display again: up to the
/// next full minute after a write that succeeded at `second` seconds past
/// the minute, and the retry interval after one that failed.
pub open spec fn refresh_delay_spec(second: u8, shown: bool) -> u64 {
    if shown {
        (60 - second) as u64
    } else {
        REFRESH_RETRY_SECONDS
    }
}

/// Seconds until the time is to be written to the display again, after an
/// attempt to show `time` that succeeded (`shown`) or failed.
pub fn refresh_delay(time: TimeOfDay, shown: bool) -> (r: u64)
    ensures
        r == refresh_delay_spec(time.second_spec(), shown),
        1 <= r <= 60,
{
    if shown {
        let second = time.second();
        60 - second as u64
    } else {
        REFRESH_RETRY_SECONDS
    }
}

/// One turn of the display task: takes the oldest request out of `queue` and
/// turns it into device calls. `None` means that no request waits. A request
/// leaves the queue exactly once, whatever becomes of its calls: there is no
/// way to put it back.
pub fn display_task(display: &Display, queue: &mut DisplayQueue) -> (r: Option<Vec<DisplayOp>>)
    ensures
        final(queue)@ == after_receive(old(queue)@),
        match r {
            Some(ops) => old(queue)@.len() > 0 && calls(ops@) == command_calls(
                old(queue)@[0]@,
                display.timezone()@,
            ),
            None => old(queue)@.len() == 0,
        },
{
    match queue.try_receive() {
        Some(command) => {
            let ops = display.render(command);
            Some(ops.unwrap())
        },
        None => None,
    }
}

} // verus!
