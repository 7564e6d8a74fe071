//! The wire protocol of the HD44780 controller on a 4-bit bus: which line
//! levels and which delays each driver operation emits, as mathematical
//! sequences of [`Event`]s.

use crate::lcd1602::BusWidth;
use crate::lcd1602::Direction;
use vstd::prelude::*;

verus! {

/// One of the six output lines the driver owns.
#[derive(Clone, Copy, PartialEq, Eq, Structural, Debug)]
pub enum Line {
    /// Enable: a rising-then-falling edge latches the current data nibble.
    En,
    /// Register select: low for a command, high for character data.
    Rs,
    /// Data line carrying bit 0 of a nibble.
    D4,
    /// Data line carrying bit 1 of a nibble.
    D5,
    /// Data line carrying bit 2 of a nibble.
    D6,
    /// Data line carrying bit 3 of a nibble.
    D7,
}

/// One externally observable action of the driver.
#[derive(Clone, Copy, PartialEq, Eq, Structural, Debug)]
pub enum Event {
    /// A line was driven high (`true`) or low (`false`).
    Drive(Line, bool),
    /// The driver suspended for the given number of microseconds.
    DelayUs(u64),
}

/// Whether `mask` selects a set bit of `n`.
pub open spec fn bit(n: u8, mask: u8) -> bool {
    n & mask != 0
}

/// High nibble of a byte.
pub open spec fn hi(b: u8) -> u8 {
    b / 16
}

/// Low nibble of a byte.
pub open spec fn lo(b: u8) -> u8 {
    b % 16
}

/// The enable strobe: rising then immediately falling edge.
pub open spec fn enable_pulse() -> Seq<Event> {
    seq![Event::Drive(Line::En, true), Event::Drive(Line::En, false)]
}

/// Events of one 4-bit bus write: enable idles low, the four data lines take
/// bits 0..3 of the nibble, then enable pulses high and immediately low so
/// the controller latches the nibble.
pub open spec fn write_bus_events(n: u8) -> Seq<Event> {
    seq![
        Event::Drive(Line::En, false),
        Event::Drive(Line::D4, bit(n, 0x1)),
        Event::Drive(Line::D5, bit(n, 0x2)),
        Event::Drive(Line::D6, bit(n, 0x4)),
        Event::Drive(Line::D7, bit(n, 0x8)),
        Event::Drive(Line::En, true),
        Event::Drive(Line::En, false),
    ]
}

/// Events of one full byte transfer: register select chooses the register
/// (low: instruction, high: data), then the high and the low nibble each go
/// out as one bus write.
pub open spec fn byte_events(rs_high: bool, b: u8) -> Seq<Event> {
    seq![Event::Drive(Line::Rs, rs_high)] + write_bus_events(hi(b)) + write_bus_events(lo(b))
}

/// Events of one command byte (instruction register).
pub open spec fn command_events(cmd: u8) -> Seq<Event> {
    byte_events(false, cmd)
}

/// Events of one character byte (data register).
pub open spec fn write_char_events(ch: u8) -> Seq<Event> {
    byte_events(true, ch)
}

/// The byte a character is sent as: its scalar value truncated to the low
/// eight bits. Only single-byte code points map onto the controller's
/// character set; wider code points truncate silently.
pub open spec fn char_byte(c: char) -> u8 {
    c as u8
}

/// Events of one printed character: the per-character execution budget,
/// then the character byte on the data register.
pub open spec fn char_write_events(c: char) -> Seq<Event> {
    seq![Event::DelayUs(320)] + write_char_events(char_byte(c))
}

/// Events of printing a string, one character after the other. The trailing
/// settle delay of the print operation is not included here.
pub open spec fn print_events(s: Seq<char>) -> Seq<Event>
    decreases s.len(),
{
    if s.len() == 0 {
        Seq::empty()
    } else {
        print_events(s.drop_last()) + char_write_events(s.last())
    }
}

/// Whether a cursor position is one the 16x2 controller can address.
pub open spec fn valid_position(x: u8, y: u8) -> bool {
    x <= 15 && y <= 1
}

/// DDRAM address of a valid position: the column, offset by 0x40 on the
/// second row.
pub open spec fn position_addr(x: u8, y: u8) -> u8 {
    if y == 0 {
        x
    } else {
        (0x40 + x) as u8
    }
}

/// The set-DDRAM-address command for a valid position.
pub open spec fn position_cmd(x: u8, y: u8) -> u8 {
    0x80 | position_addr(x, y)
}

/// Events of a positioning call: the address command and its settle delay
/// for a valid position, nothing at all for an invalid one.
pub open spec fn set_position_events(x: u8, y: u8) -> Seq<Event> {
    if valid_position(x, y) {
        command_events(position_cmd(x, y)) + seq![Event::DelayUs(1530)]
    } else {
        Seq::empty()
    }
}

/// Events of the clear operation: command 0x01 and the longest documented
/// execution time.
pub open spec fn clear_events() -> Seq<Event> {
    command_events(0x01) + seq![Event::DelayUs(1530)]
}

/// Events of the home operation: command 0x02 and its settle delay.
pub open spec fn home_events() -> Seq<Event> {
    command_events(0x02) + seq![Event::DelayUs(1530)]
}

/// Events of selecting a bus width: the 4-bit handshake nibble 0x02 and its
/// settle delay; selecting the 8-bit bus emits nothing.
pub open spec fn set_bus_width_events(width: BusWidth) -> Seq<Event> {
    if width is FourBits {
        write_bus_events(0x02) + seq![Event::DelayUs(39)]
    } else {
        Seq::empty()
    }
}

/// The entry-mode command byte: base 0x04, bit 0x02 set for right-to-left
/// addressing, bit 0x01 set for edge tracking.
pub open spec fn entry_mode_cmd(direction: Direction, edge_tracking: bool) -> u8 {
    (0x04 + (if direction is RightToLeft {
        0x02int
    } else {
        0int
    }) + (if edge_tracking {
        0x01int
    } else {
        0int
    })) as u8
}

/// Events of an entry-mode configuration: its command byte and the
/// controller's documented instruction time.
pub open spec fn set_entry_mode_events(direction: Direction, edge_tracking: bool) -> Seq<Event> {
    command_events(entry_mode_cmd(direction, edge_tracking)) + seq![Event::DelayUs(39)]
}

/// Events of the full print operation: every character's events, then the
/// trailing settle delay.
pub open spec fn print_op_events(s: Seq<char>) -> Seq<Event> {
    print_events(s) + seq![Event::DelayUs(1530)]
}

/// Events of initialization: power-on settle, 4-bit handshake, display-mode
/// command 0x0C (no delay of its own), clear, and right-to-left entry mode
/// without edge tracking.
pub open spec fn init_events() -> Seq<Event> {
    seq![Event::DelayUs(50000)] + set_bus_width_events(BusWidth::FourBits) + command_events(0x0C)
        + clear_events() + set_entry_mode_events(Direction::RightToLeft, false)
}

/// The delays of an event run, in order, with the line writes projected
/// away.
pub open spec fn delays_of(events: Seq<Event>) -> Seq<u64>
    decreases events.len(),
{
    if events.len() == 0 {
        Seq::empty()
    } else {
        match events.first() {
            Event::DelayUs(us) => seq![us] + delays_of(events.drop_first()),
            Event::Drive(_, _) => delays_of(events.drop_first()),
        }
    }
}

/// The delay projection distributes over concatenation of event runs.
pub proof fn lemma_delays_of_concat(a: Seq<Event>, b: Seq<Event>)
    ensures
        delays_of(a + b) == delays_of(a) + delays_of(b),
    decreases a.len(),
{
    if a.len() == 0 {
        assert(a + b =~= b);
        assert(delays_of(a) + delays_of(b) =~= delays_of(b));
    } else {
        assert((a + b).first() == a.first());
        assert((a + b).drop_first() =~= a.drop_first() + b);
        lemma_delays_of_concat(a.drop_first(), b);
        match a.first() {
            Event::DelayUs(us) => {
                assert(delays_of(a + b) =~= (seq![us] + delays_of(a.drop_first())) + delays_of(
                    b,
                ));
            },
            Event::Drive(_, _) => {},
        }
    }
}

/// An event run made of line writes alone holds no delay.
pub proof fn lemma_delays_of_drives(events: Seq<Event>)
    requires
        forall|i: int| 0 <= i < events.len() ==> (#[trigger] events[i]) matches Event::Drive(_, _),
    ensures
        delays_of(events) == Seq::<u64>::empty(),
    decreases events.len(),
{
    if events.len() > 0 {
        assert(events[0] matches Event::Drive(_, _));
        assert(forall|i: int|
            0 <= i < events.drop_first().len() ==> events.drop_first()[i] == events[i + 1]);
        lemma_delays_of_drives(events.drop_first());
    }
}

/// A single delay event projects to exactly that delay.
pub proof fn lemma_delays_of_single_delay(us: u64)
    ensures
        delays_of(seq![Event::DelayUs(us)]) == seq![us],
{
    reveal_with_fuel(delays_of, 2);
    assert(seq![Event::DelayUs(us)].drop_first() =~= Seq::<Event>::empty());
    assert(delays_of(seq![Event::DelayUs(us)]) =~= seq![us]);
}

/// One bus write contains no delay.
pub proof fn lemma_write_bus_no_delay(n: u8)
    ensures
        delays_of(write_bus_events(n)) == Seq::<u64>::empty(),
{
    lemma_delays_of_drives(write_bus_events(n));
}

/// One byte transfer contains no delay: the settle delay after a command is
/// the calling operation's own, sized to that operation.
pub proof fn lemma_byte_no_delay(rs_high: bool, b: u8)
    ensures
        delays_of(byte_events(rs_high, b)) == Seq::<u64>::empty(),
{
    lemma_delays_of_drives(byte_events(rs_high, b));
}

/// Law: every byte goes out as its high nibble, then its low nibble, and
/// the two nibbles carry the byte exactly.
pub proof fn lemma_byte_emits_nibbles(rs_high: bool, b: u8)
    ensures
        byte_events(rs_high, b) == seq![Event::Drive(Line::Rs, rs_high)] + write_bus_events(hi(b))
            + write_bus_events(lo(b)),
        hi(b) < 16,
        lo(b) < 16,
        16 * hi(b) + lo(b) == b,
{
}

/// Law: one bus write drives the four data lines to bits 0..3 of the nibble
/// and then issues exactly one enable pulse, rising then falling; the
/// enable line rises nowhere else in the run.
pub proof fn lemma_write_bus_latches(n: u8)
    ensures
        write_bus_events(n).len() == 7,
        write_bus_events(n)[0] == Event::Drive(Line::En, false),
        write_bus_events(n)[1] == Event::Drive(Line::D4, bit(n, 0x1)),
        write_bus_events(n)[2] == Event::Drive(Line::D5, bit(n, 0x2)),
        write_bus_events(n)[3] == Event::Drive(Line::D6, bit(n, 0x4)),
        write_bus_events(n)[4] == Event::Drive(Line::D7, bit(n, 0x8)),
        write_bus_events(n).subrange(5, 7) == enable_pulse(),
        forall|i: int| 0 <= i < 5 ==> write_bus_events(n)[i] != Event::Drive(Line::En, true),
{
    assert(write_bus_events(n).subrange(5, 7) =~= enable_pulse());
}

/// Law: for a nibble in range, the four data-line levels of its bus write
/// determine the nibble exactly — no information is lost on the wire.
pub proof fn lemma_data_lines_encode_nibble(n: u8)
    requires
        n < 16,
    ensures
        n == (if bit(n, 0x1) {
            1u8
        } else {
            0u8
        }) + (if bit(n, 0x2) {
            2u8
        } else {
            0u8
        }) + (if bit(n, 0x4) {
            4u8
        } else {
            0u8
        }) + (if bit(n, 0x8) {
            8u8
        } else {
            0u8
        }),
{
    assert(n < 16 ==> n == (if n & 0x1 != 0 {
        1u8
    } else {
        0u8
    }) + (if n & 0x2 != 0 {
        2u8
    } else {
        0u8
    }) + (if n & 0x4 != 0 {
        4u8
    } else {
        0u8
    }) + (if n & 0x8 != 0 {
        8u8
    } else {
        0u8
    })) by (bit_vector);
}

/// Law: positioning emits the set-DDRAM-address command and one settle
/// delay for a valid position — always the same byte for the same
/// coordinates — and emits nothing at all for an invalid row or column.
pub proof fn lemma_set_position_events(x: u8, y: u8)
    ensures
        valid_position(x, y) ==> set_position_events(x, y) == command_events(position_cmd(x, y))
            + seq![Event::DelayUs(1530)],
        valid_position(x, y) && y == 0 ==> position_cmd(x, y) == 0x80 + x,
        valid_position(x, y) && y == 1 ==> position_cmd(x, y) == 0x80 + 0x40 + x,
        !valid_position(x, y) ==> set_position_events(x, y) == Seq::<Event>::empty(),
{
    let a = position_addr(x, y);
    assert(a < 0x50 ==> (0x80u8 | a) == (0x80u8 + a)) by (bit_vector);
}

/// Law: what a positioning call appends to the log does not depend on what
/// was emitted before it; repeated calls with the same coordinates append
/// identical event runs.
pub proof fn lemma_set_position_history_independent(
    before1: Seq<Event>,
    before2: Seq<Event>,
    x: u8,
    y: u8,
)
    ensures
        (before1 + set_position_events(x, y)).skip(before1.len() as int) == (before2
            + set_position_events(x, y)).skip(before2.len() as int),
{
    assert((before1 + set_position_events(x, y)).skip(before1.len() as int) =~= set_position_events(
        x,
        y,
    ));
    assert((before2 + set_position_events(x, y)).skip(before2.len() as int) =~= set_position_events(
        x,
        y,
    ));
}

/// Law: clear and home each emit exactly one command byte — 0x01 and 0x02 —
/// followed by exactly one 1530 us delay, whatever was emitted before.
pub proof fn lemma_clear_home_events()
    ensures
        clear_events() == command_events(0x01) + seq![Event::DelayUs(1530)],
        home_events() == command_events(0x02) + seq![Event::DelayUs(1530)],
        delays_of(clear_events()) == seq![1530u64],
        delays_of(home_events()) == seq![1530u64],
{
    lemma_byte_no_delay(false, 0x01);
    lemma_byte_no_delay(false, 0x02);
    lemma_delays_of_concat(command_events(0x01), seq![Event::DelayUs(1530)]);
    lemma_delays_of_concat(command_events(0x02), seq![Event::DelayUs(1530)]);
    lemma_delays_of_single_delay(1530);
    assert(Seq::<u64>::empty() + seq![1530u64] =~= seq![1530u64]);
}

/// Law: an entry-mode configuration emits its command byte and exactly one
/// 39 us delay.
pub proof fn lemma_entry_mode_events(direction: Direction, edge_tracking: bool)
    ensures
        set_entry_mode_events(direction, edge_tracking) == command_events(
            entry_mode_cmd(direction, edge_tracking),
        ) + seq![Event::DelayUs(39)],
        delays_of(set_entry_mode_events(direction, edge_tracking)) == seq![39u64],
{
    lemma_byte_no_delay(false, entry_mode_cmd(direction, edge_tracking));
    lemma_delays_of_concat(
        command_events(entry_mode_cmd(direction, edge_tracking)),
        seq![Event::DelayUs(39)],
    );
    lemma_delays_of_single_delay(39);
    assert(Seq::<u64>::empty() + seq![39u64] =~= seq![39u64]);
}

/// Law: one printed character contributes exactly its 320 us execution
/// budget to the delays.
pub proof fn lemma_char_write_delays(c: char)
    ensures
        delays_of(char_write_events(c)) == seq![320u64],
{
    lemma_byte_no_delay(true, char_byte(c));
    lemma_delays_of_concat(seq![Event::DelayUs(320)], write_char_events(char_byte(c)));
    lemma_delays_of_single_delay(320);
    assert(seq![320u64] + Seq::<u64>::empty() =~= seq![320u64]);
}

/// Law: printing n characters delays 320 us once per character, in order,
/// and nowhere else before its trailing settle delay.
pub proof fn lemma_print_delays(s: Seq<char>)
    ensures
        delays_of(print_events(s)) == Seq::new(s.len(), |i: int| 320u64),
    decreases s.len(),
{
    if s.len() == 0 {
        assert(Seq::new(0, |i: int| 320u64) =~= Seq::<u64>::empty());
    } else {
        lemma_print_delays(s.drop_last());
        lemma_delays_of_concat(print_events(s.drop_last()), char_write_events(s.last()));
        lemma_char_write_delays(s.last());
        assert(Seq::new(s.len(), |i: int| 320u64) =~= Seq::new(
            (s.len() - 1) as nat,
            |i: int| 320u64,
        ) + seq![320u64]);
    }
}

/// Law: initialization delays, in the literal order 50 ms power-on settle,
/// 39 us after the 4-bit handshake, 1530 us after clear, 39 us after entry
/// mode — and no others; the display-mode command contributes no delay.
pub proof fn lemma_init_delays()
    ensures
        delays_of(init_events()) == seq![50000u64, 39u64, 1530u64, 39u64],
{
    let a = seq![Event::DelayUs(50000u64)];
    let b = set_bus_width_events(BusWidth::FourBits);
    let c = command_events(0x0C);
    let d = clear_events();
    let e = set_entry_mode_events(Direction::RightToLeft, false);
    lemma_delays_of_concat(a, b);
    lemma_delays_of_concat(a + b, c);
    lemma_delays_of_concat(a + b + c, d);
    lemma_delays_of_concat(a + b + c + d, e);
    lemma_delays_of_single_delay(50000);
    lemma_write_bus_no_delay(0x02);
    lemma_delays_of_concat(write_bus_events(0x02), seq![Event::DelayUs(39)]);
    lemma_delays_of_single_delay(39);
    lemma_byte_no_delay(false, 0x0C);
    lemma_clear_home_events();
    lemma_entry_mode_events(Direction::RightToLeft, false);
    assert(delays_of(init_events()) =~= seq![50000u64, 39u64, 1530u64, 39u64]);
}

} // verus!
