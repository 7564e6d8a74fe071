//! Drives the display driver against a recording port and checks the
//! emitted event runs, byte for byte and delay for delay.

use lcd1602::BusWidth;
use lcd1602::Direction;
use lcd1602::Event;
use lcd1602::Line;
use lcd1602::RecordedPort;
use lcd1602::LCD1602;

/// The events of one 4-bit bus write of `n`.
fn write_bus_events(n: u8) -> Vec<Event> {
    vec![
        Event::Drive(Line::En, false),
        Event::Drive(Line::D4, n & 0x1 != 0),
        Event::Drive(Line::D5, n & 0x2 != 0),
        Event::Drive(Line::D6, n & 0x4 != 0),
        Event::Drive(Line::D7, n & 0x8 != 0),
        Event::Drive(Line::En, true),
        Event::Drive(Line::En, false),
    ]
}

/// The events of one byte on the chosen register: high nibble, low nibble.
fn byte_events(rs_high: bool, b: u8) -> Vec<Event> {
    let mut out = vec![Event::Drive(Line::Rs, rs_high)];
    out.extend(write_bus_events(b >> 4));
    out.extend(write_bus_events(b & 0x0F));
    out
}

fn command_events(b: u8) -> Vec<Event> {
    byte_events(false, b)
}

fn char_events(b: u8) -> Vec<Event> {
    byte_events(true, b)
}

/// The full expected initialization run.
fn init_events() -> Vec<Event> {
    let mut out = vec![Event::DelayUs(50000)];
    out.extend(write_bus_events(0x02));
    out.push(Event::DelayUs(39));
    out.extend(command_events(0x0C));
    out.extend(command_events(0x01));
    out.push(Event::DelayUs(1530));
    out.extend(command_events(0x06));
    out.push(Event::DelayUs(39));
    out
}

fn new_lcd() -> LCD1602<RecordedPort> {
    LCD1602::new(RecordedPort::new()).unwrap()
}

/// What an operation emitted: the events past the first `before` ones.
fn emitted(lcd: &LCD1602<RecordedPort>, before: usize) -> Vec<Event> {
    lcd.port().events[before..].to_vec()
}

fn delays(events: &[Event]) -> Vec<u64> {
    events
        .iter()
        .filter_map(|e| match e {
            Event::DelayUs(us) => Some(*us),
            Event::Drive(_, _) => None,
        })
        .collect()
}

#[test]
fn init_emits_documented_sequence() {
    let lcd = new_lcd();
    assert_eq!(lcd.port().events, init_events());
}

#[test]
fn init_delays_in_literal_order() {
    let lcd = new_lcd();
    assert_eq!(delays(&lcd.port().events), vec![50000, 39, 1530, 39]);
}

#[test]
fn clear_emits_one_command_and_one_delay() {
    let mut lcd = new_lcd();
    let before = lcd.port().events.len();
    lcd.clear();
    let mut expected = command_events(0x01);
    expected.push(Event::DelayUs(1530));
    let run = emitted(&lcd, before);
    assert_eq!(run, expected);
    assert_eq!(delays(&run), vec![1530]);
}

#[test]
fn home_emits_one_command_and_one_delay() {
    let mut lcd = new_lcd();
    let before = lcd.port().events.len();
    lcd.home();
    let mut expected = command_events(0x02);
    expected.push(Event::DelayUs(1530));
    let run = emitted(&lcd, before);
    assert_eq!(run, expected);
    assert_eq!(delays(&run), vec![1530]);
}

#[test]
fn set_position_row0_emits_address_command() {
    let mut lcd = new_lcd();
    let before = lcd.port().events.len();
    lcd.set_position(5, 0);
    let mut expected = command_events(0x80 | 5);
    expected.push(Event::DelayUs(1530));
    assert_eq!(emitted(&lcd, before), expected);
}

#[test]
fn set_position_row1_uses_second_line_offset() {
    let mut lcd = new_lcd();
    let before = lcd.port().events.len();
    lcd.set_position(3, 1);
    let mut expected = command_events(0x80 | (3 + 0x40));
    expected.push(Event::DelayUs(1530));
    assert_eq!(emitted(&lcd, before), expected);
}

#[test]
fn set_position_invalid_is_silently_ignored() {
    let mut lcd = new_lcd();
    let before = lcd.port().events.len();
    lcd.set_position(16, 0);
    lcd.set_position(0, 2);
    lcd.set_position(255, 255);
    assert_eq!(emitted(&lcd, before), vec![]);
}

#[test]
fn set_position_repeated_calls_emit_identical_runs() {
    let mut lcd = new_lcd();
    let before = lcd.port().events.len();
    lcd.set_position(7, 1);
    let first = emitted(&lcd, before);
    let middle = lcd.port().events.len();
    lcd.set_position(7, 1);
    let second = emitted(&lcd, middle);
    assert_eq!(first, second);
}

#[test]
fn entry_mode_right_to_left_with_tracking_is_0x07() {
    let mut lcd = new_lcd();
    let before = lcd.port().events.len();
    lcd.set_entry_mode(Direction::RightToLeft, true);
    let mut expected = command_events(0x07);
    expected.push(Event::DelayUs(39));
    assert_eq!(emitted(&lcd, before), expected);
}

#[test]
fn entry_mode_left_to_right_without_tracking_is_0x04() {
    let mut lcd = new_lcd();
    let before = lcd.port().events.len();
    lcd.set_entry_mode(Direction::LeftToRight, false);
    let mut expected = command_events(0x04);
    expected.push(Event::DelayUs(39));
    assert_eq!(emitted(&lcd, before), expected);
}

#[test]
fn entry_mode_right_to_left_without_tracking_is_0x06() {
    let mut lcd = new_lcd();
    let before = lcd.port().events.len();
    lcd.set_entry_mode(Direction::RightToLeft, false);
    let mut expected = command_events(0x06);
    expected.push(Event::DelayUs(39));
    assert_eq!(emitted(&lcd, before), expected);
}

#[test]
fn print_empty_emits_only_trailing_delay() {
    let mut lcd = new_lcd();
    let before = lcd.port().events.len();
    lcd.print("");
    let run = emitted(&lcd, before);
    assert_eq!(run, vec![Event::DelayUs(1530)]);
    assert!(!run.contains(&Event::Drive(Line::Rs, true)));
}

#[test]
fn print_single_character_dispatches_its_nibbles() {
    let mut lcd = new_lcd();
    let before = lcd.port().events.len();
    lcd.print("A");
    let mut expected = vec![Event::DelayUs(320)];
    expected.extend(char_events(0x41));
    expected.push(Event::DelayUs(1530));
    let run = emitted(&lcd, before);
    assert_eq!(run, expected);
    // 'A' = 0x41: high nibble 0x4, low nibble 0x1 on the data register
    assert_eq!(run[1], Event::Drive(Line::Rs, true));
    assert_eq!(run[2..9].to_vec(), write_bus_events(0x4));
    assert_eq!(run[9..16].to_vec(), write_bus_events(0x1));
}

#[test]
fn print_two_characters_in_order() {
    let mut lcd = new_lcd();
    let before = lcd.port().events.len();
    lcd.print("Hi");
    let mut expected = vec![Event::DelayUs(320)];
    expected.extend(char_events(b'H'));
    expected.push(Event::DelayUs(320));
    expected.extend(char_events(b'i'));
    expected.push(Event::DelayUs(1530));
    assert_eq!(emitted(&lcd, before), expected);
}

#[test]
fn print_truncates_wide_code_points_to_low_byte() {
    let mut lcd = new_lcd();
    let before = lcd.port().events.len();
    // U+0101 truncates to 0x01: only single-byte code points map correctly
    lcd.print("\u{0101}");
    let mut expected = vec![Event::DelayUs(320)];
    expected.extend(char_events(0x01));
    expected.push(Event::DelayUs(1530));
    assert_eq!(emitted(&lcd, before), expected);
}

#[test]
fn print_per_character_delays() {
    let mut lcd = new_lcd();
    let before = lcd.port().events.len();
    lcd.print("abc");
    assert_eq!(delays(&emitted(&lcd, before)), vec![320, 320, 320, 1530]);
}

#[test]
fn set_bus_width_four_bits_emits_handshake() {
    let mut lcd = new_lcd();
    let before = lcd.port().events.len();
    lcd.set_bus_width(BusWidth::FourBits);
    let mut expected = write_bus_events(0x02);
    expected.push(Event::DelayUs(39));
    assert_eq!(emitted(&lcd, before), expected);
}

#[test]
fn set_bus_width_eight_bits_is_a_no_op() {
    let mut lcd = new_lcd();
    let before = lcd.port().events.len();
    lcd.set_bus_width(BusWidth::EightBits);
    assert_eq!(emitted(&lcd, before), vec![]);
}

#[test]
fn delay_emits_exactly_its_interval() {
    let mut lcd = new_lcd();
    let before = lcd.port().events.len();
    lcd.delay(123);
    assert_eq!(emitted(&lcd, before), vec![Event::DelayUs(123)]);
}

#[test]
fn every_nibble_is_latched_by_one_enable_pulse() {
    let mut lcd = new_lcd();
    let before = lcd.port().events.len();
    lcd.clear();
    let run = emitted(&lcd, before);
    let rising: Vec<usize> = run
        .iter()
        .enumerate()
        .filter(|(_, e)| **e == Event::Drive(Line::En, true))
        .map(|(i, _)| i)
        .collect();
    // two nibbles, two pulses, each rising edge immediately followed by the falling one
    assert_eq!(rising.len(), 2);
    for i in rising {
        assert_eq!(run[i + 1], Event::Drive(Line::En, false));
    }
}
