use netclock::display::{
    display_task, refresh_delay, Display, DisplayCommad, DisplayError, DisplayOp, DOTS_COLUMN,
    HOUR_COLUMN, LOWER_DOT_ROW, MINUTE_COLUMN, REFRESH_RETRY_SECONDS, TEXT_CAPACITY, TEXT_COLUMN,
    UPPER_DOT_ROW,
};
use netclock::queue::DisplayQueue;
use netclock::timestamp::{TimeOfDay, Timestamp, UtcOffset};

fn display(offset: i32) -> Display {
    Display::init(UtcOffset::east(offset).expect("shorter than a day")).0
}

fn moment(secs: i64) -> Timestamp {
    Timestamp::from_unix_seconds(secs).expect("representable")
}

fn reading(hour: u8, minute: u8, second: u8) -> TimeOfDay {
    TimeOfDay::new(hour, minute, second).expect("a valid reading")
}

/// The calls of a list in a form that can be compared: texts as `&str`.
fn shape(ops: &[DisplayOp]) -> Vec<(&'static str, i32, i32, String)> {
    ops.iter()
        .map(|op| match op {
            DisplayOp::Initialize => ("init", 0, 0, String::new()),
            DisplayOp::SetBrightness { level } => ("brightness", *level as i32, 0, String::new()),
            DisplayOp::Clear => ("clear", 0, 0, String::new()),
            DisplayOp::WriteText { column, text } => ("text", *column, 0, text.as_str().to_string()),
            DisplayOp::SetPixel { x, y, on } => {
                ("pixel", *x, *y, if *on { "on".to_string() } else { "off".to_string() })
            }
        })
        .collect()
}

fn time_shape(hh: &str, mm: &str) -> Vec<(&'static str, i32, i32, String)> {
    vec![
        ("text", 0, 0, hh.to_string()),
        ("text", 17, 0, mm.to_string()),
        ("pixel", 15, 3, "on".to_string()),
        ("pixel", 15, 5, "on".to_string()),
    ]
}

#[test]
fn layout_is_fixed() {
    assert_eq!(HOUR_COLUMN, 0);
    assert_eq!(MINUTE_COLUMN, 17);
    assert_eq!(TEXT_COLUMN, 0);
    assert_eq!((DOTS_COLUMN, UPPER_DOT_ROW, LOWER_DOT_ROW), (15, 3, 5));
    assert_eq!(TEXT_CAPACITY, 4);
}

#[test]
fn init_brings_the_device_up() {
    let zone = UtcOffset::east(3600).expect("shorter than a day");
    let (_, op) = Display::init(zone);
    assert_eq!(op, DisplayOp::Initialize);
}

#[test]
fn intensity_keeps_its_low_four_bits() {
    let display = display(0);
    assert_eq!(display.set_intensity(0x01), DisplayOp::SetBrightness { level: 1 });
    assert_eq!(display.set_intensity(0x0F), DisplayOp::SetBrightness { level: 15 });
    assert_eq!(display.set_intensity(0x10), DisplayOp::SetBrightness { level: 0 });
    assert_eq!(display.set_intensity(0xA7), DisplayOp::SetBrightness { level: 7 });
    assert_eq!(display.set_intensity(0xFF), DisplayOp::SetBrightness { level: 15 });
}

#[test]
fn clear_blanks_the_surface() {
    assert_eq!(display(0).clear(), DisplayOp::Clear);
}

#[test]
fn show_time_14_07_renders_both_pairs_and_the_dots() {
    let ops = display(0).write_time(reading(14, 7, 0)).expect("digits fit");
    assert_eq!(shape(&ops), time_shape("14", "07"));
}

#[test]
fn show_time_midnight_renders_zeros() {
    let ops = display(0).write_time(reading(0, 0, 0)).expect("digits fit");
    assert_eq!(shape(&ops), time_shape("00", "00"));
}

#[test]
fn show_time_last_minute_of_the_day() {
    let ops = display(0).write_time(reading(23, 59, 59)).expect("digits fit");
    assert_eq!(shape(&ops), time_shape("23", "59"));
}

#[test]
fn hours_and_minutes_are_written_at_their_columns() {
    let ops = display(0).write_hh_mm(9, 5).expect("digits fit");
    assert_eq!(
        shape(&ops),
        vec![("text", 0, 0, "09".to_string()), ("text", 17, 0, "05".to_string())]
    );
}

#[test]
fn digits_beyond_two_places_follow_the_character_table() {
    // 123 has twelve tens: the character twelve places after '0'.
    let ops = display(0).write_hh_mm(123, 255).expect("digits fit");
    assert_eq!(
        shape(&ops),
        vec![("text", 0, 0, "<3".to_string()), ("text", 17, 0, "I5".to_string())]
    );
}

#[test]
fn dots_can_be_switched_both_ways() {
    let on = display(0).show_clock_dots(true);
    assert_eq!(
        shape(&on),
        vec![("pixel", 15, 3, "on".to_string()), ("pixel", 15, 5, "on".to_string())]
    );
    let off = display(0).show_clock_dots(false);
    assert_eq!(
        shape(&off),
        vec![("pixel", 15, 3, "off".to_string()), ("pixel", 15, 5, "off".to_string())]
    );
}

#[test]
fn write_str_accepts_what_fits() {
    let op = display(0).write_str(8, "Wifi").expect("four bytes fit");
    assert_eq!(shape(&[op]), vec![("text", 8, 0, "Wifi".to_string())]);
    let op = display(0).write_str(-3, "").expect("nothing fits");
    assert_eq!(shape(&[op]), vec![("text", -3, 0, String::new())]);
    let op = display(0).write_str(0, "äö").expect("four bytes fit");
    assert_eq!(shape(&[op]), vec![("text", 0, 0, "äö".to_string())]);
}

#[test]
fn write_str_refuses_what_does_not_fit() {
    assert_eq!(display(0).write_str(0, "Hello"), Err(DisplayError::Format));
    assert_eq!(display(0).write_str(0, "äöü"), Err(DisplayError::Format));
}

#[test]
fn show_text_is_refused_when_the_request_is_made() {
    assert_eq!(DisplayCommad::show_text("12345"), Err(DisplayError::Format));
    assert_eq!(DisplayCommad::show_text("€€"), Err(DisplayError::Format));
    assert!(DisplayCommad::show_text("1234").is_ok());
    assert!(DisplayCommad::show_text("").is_ok());
}

#[test]
fn render_show_time_converts_to_local_time() {
    // 12:07 UTC is 14:07 two hours east.
    let ops = display(7200).render(DisplayCommad::ShowTime(moment(43_620))).expect("digits fit");
    assert_eq!(shape(&ops), time_shape("14", "07"));
    let ops = display(0).render(DisplayCommad::ShowTime(moment(43_620))).expect("digits fit");
    assert_eq!(shape(&ops), time_shape("12", "07"));
    // 23:30 UTC is half past midnight of the next day one hour east.
    let ops = display(3600).render(DisplayCommad::ShowTime(moment(84_600))).expect("digits fit");
    assert_eq!(shape(&ops), time_shape("00", "30"));
    let ops = display(-3600).render(DisplayCommad::ShowTime(moment(0))).expect("digits fit");
    assert_eq!(shape(&ops), time_shape("23", "00"));
}

#[test]
fn render_clear_and_text() {
    let ops = display(0).render(DisplayCommad::Clear).expect("nothing to fit");
    assert_eq!(shape(&ops), vec![("clear", 0, 0, String::new())]);
    let command = DisplayCommad::show_text("Sync").expect("four bytes fit");
    let ops = display(0).render(command).expect("fits");
    assert_eq!(shape(&ops), vec![("text", 0, 0, "Sync".to_string())]);
}

#[test]
fn timestamp_converts_into_a_show_time_request() {
    let command: DisplayCommad = moment(99).into();
    assert_eq!(command, DisplayCommad::ShowTime(moment(99)));
    assert_eq!(DisplayCommad::from(moment(-5)), DisplayCommad::ShowTime(moment(-5)));
}

#[test]
fn refresh_waits_for_the_next_minute() {
    assert_eq!(refresh_delay(reading(14, 7, 0), true), 60);
    assert_eq!(refresh_delay(reading(14, 7, 1), true), 59);
    assert_eq!(refresh_delay(reading(14, 7, 42), true), 18);
    assert_eq!(refresh_delay(reading(14, 7, 59), true), 1);
}

#[test]
fn refresh_retries_soon_after_a_failure() {
    assert_eq!(REFRESH_RETRY_SECONDS, 10);
    assert_eq!(refresh_delay(reading(14, 7, 0), false), 10);
    assert_eq!(refresh_delay(reading(14, 7, 59), false), 10);
}

#[test]
fn display_task_takes_requests_in_order() {
    let display = display(7200);
    let mut queue = DisplayQueue::new();
    assert_eq!(display_task(&display, &mut queue), None);

    queue.try_send(DisplayCommad::ShowTime(moment(43_620))).expect("room");
    queue.try_send(DisplayCommad::Clear).expect("room");
    queue.try_send(DisplayCommad::show_text("Done").expect("fits")).expect("room");
    assert_eq!(queue.len(), 3);

    let ops = display_task(&display, &mut queue).expect("a request waits");
    assert_eq!(shape(&ops), time_shape("14", "07"));
    let ops = display_task(&display, &mut queue).expect("a request waits");
    assert_eq!(shape(&ops), vec![("clear", 0, 0, String::new())]);
    let ops = display_task(&display, &mut queue).expect("a request waits");
    assert_eq!(shape(&ops), vec![("text", 0, 0, "Done".to_string())]);
    assert_eq!(display_task(&display, &mut queue), None);
    assert!(queue.is_empty());
}
