//! The display driver: each operation toggles the six owned lines and
//! suspends for the controller's documented execution time, exactly as the
//! event sequences in [`crate::protocol`] state.

use crate::port::DisplayPort;
use crate::protocol::clear_events;
use crate::protocol::entry_mode_cmd;
use crate::protocol::command_events;
use crate::protocol::home_events;
use crate::protocol::init_events;
use crate::protocol::print_events;
use crate::protocol::print_op_events;
use crate::protocol::set_bus_width_events;
use crate::protocol::set_entry_mode_events;
use crate::protocol::set_position_events;
use crate::protocol::write_bus_events;
use crate::protocol::write_char_events;
use crate::protocol::Event;
use crate::protocol::Line;
use vstd::prelude::*;
use vstd::string::StrSliceExecFns;

verus! {

/// Direction the controller's address counter moves after each character
/// write.
#[derive(Clone, Copy, PartialEq, Eq, Structural, Debug)]
pub enum Direction {
    LeftToRight,
    RightToLeft,
}

/// Width of the parallel bus towards the controller. Only the 4-bit bus is
/// implemented; selecting the 8-bit bus performs no action (a documented
/// gap, not an error).
#[derive(Clone, Copy, PartialEq, Eq, Structural, Debug)]
pub enum BusWidth {
    FourBits,
    EightBits,
}

/// Errors the driver declares. Both variants are forward-compatible guards:
/// current operations silently ignore invalid cursor positions and
/// unsupported bus widths instead of raising them.
#[derive(Clone, Copy, PartialEq, Eq, Structural, Debug)]
pub enum Error {
    InvalidCursorPos,
    UnsupportedBusWidth,
}

/// The display driver. It owns its port — the six output lines and the
/// timer — for its whole lifetime, and every operation states in its
/// contract exactly which events it appends to the port's log.
pub struct LCD1602<P> {
    port: P,
}

impl<P: DisplayPort> LCD1602<P> {
    /// All events this driver has emitted through its port, oldest first.
    pub closed spec fn log(&self) -> Seq<Event> {
        self.port.log()
    }

    /// The owned port; on a [`crate::RecordedPort`] this shows the emitted
    /// run.
    pub fn port(&self) -> (p: &P)
        ensures
            p.log() == self.log(),
    {
        &self.port
    }

    /// Builds the driver around its port and initializes the controller:
    /// power-on settle, 4-bit handshake, display mode 0x0C, clear, then
    /// right-to-left entry mode. Never fails: the error type only bounds
    /// what later revisions may surface.
    pub fn new(port: P) -> (r: Result<LCD1602<P>, Error>)
        ensures
            r matches Ok(lcd) && lcd.log() == port.log() + init_events(),
    {
        let mut lcd = LCD1602 { port };
        lcd.init();
        Ok(lcd)
    }

    fn init(&mut self)
        ensures
            final(self).log() == old(self).log() + init_events(),
    {
        self.delay(50000);
        self.set_bus_width(BusWidth::FourBits);
        self.command(0x0C);
        self.clear();
        self.set_entry_mode(Direction::RightToLeft, false);
        proof {
            assert(self.log() =~= old(self).log() + init_events());
        }
    }

    /// Selects the bus width: the 4-bit handshake nibble and a 39 us settle
    /// for `FourBits`; no action for `EightBits` (a documented gap, not an
    /// error).
    pub fn set_bus_width(&mut self, bus_width: BusWidth)
        ensures
            final(self).log() == old(self).log() + set_bus_width_events(bus_width),
    {
        match bus_width {
            BusWidth::FourBits => {
                self.write_bus(0x02);
                self.delay(39);
                proof {
                    assert(self.log() =~= old(self).log() + set_bus_width_events(bus_width));
                }
            },
            BusWidth::EightBits => {
                proof {
                    assert(self.log() =~= old(self).log() + set_bus_width_events(bus_width));
                }
            },
        }
    }

    /// Configures entry mode: command base 0x04, bit 0x02 for right-to-left
    /// addressing, bit 0x01 for edge tracking, then the controller's 39 us
    /// instruction time.
    pub fn set_entry_mode(&mut self, text_direction: Direction, screen_edge_tracking: bool)
        ensures
            final(self).log() == old(self).log() + set_entry_mode_events(
                text_direction,
                screen_edge_tracking,
            ),
    {
        let mut cmd: u8 = 0x04;
        if text_direction == Direction::RightToLeft {
            cmd = cmd | 0x02;
        }
        if screen_edge_tracking {
            cmd = cmd | 0x01;
        }
        proof {
            assert(0x04u8 | 0x02u8 == 0x06u8) by (bit_vector);
            assert(0x04u8 | 0x01u8 == 0x05u8) by (bit_vector);
            assert(0x06u8 | 0x01u8 == 0x07u8) by (bit_vector);
            assert(cmd == entry_mode_cmd(text_direction, screen_edge_tracking));
        }
        self.command(cmd);
        self.delay(39);
        proof {
            assert(self.log() =~= old(self).log() + set_entry_mode_events(
                text_direction,
                screen_edge_tracking,
            ));
        }
    }

    /// Moves the cursor: command 0x80 | column for row 0, 0x80 | (column +
    /// 0x40) for row 1, followed by a 1530 us settle. A column above 15 or
    /// a row above 1 is silently ignored: nothing is emitted and no error
    /// is raised.
    pub fn set_position(&mut self, x: u8, y: u8)
        ensures
            final(self).log() == old(self).log() + set_position_events(x, y),
    {
        if x <= 15 && y == 0 {
            self.command(0x80 | x);
            self.delay(1530);
            proof {
                assert(self.log() =~= old(self).log() + set_position_events(x, y));
            }
        } else if x <= 15 && y == 1 {
            self.command(0x80 | (x + 0x40));
            self.delay(1530);
            proof {
                assert(self.log() =~= old(self).log() + set_position_events(x, y));
            }
        } else {
            proof {
                assert(self.log() =~= old(self).log() + set_position_events(x, y));
            }
        }
    }

    /// Clears the display: command 0x01 and the longest documented
    /// execution time, 1530 us.
    pub fn clear(&mut self)
        ensures
            final(self).log() == old(self).log() + clear_events(),
    {
        self.command(0x01);
        self.delay(1530);
        proof {
            assert(self.log() =~= old(self).log() + clear_events());
        }
    }

    /// Returns the cursor home: command 0x02 and a 1530 us settle.
    pub fn home(&mut self)
        ensures
            final(self).log() == old(self).log() + home_events(),
    {
        self.command(0x02);
        self.delay(1530);
        proof {
            assert(self.log() =~= old(self).log() + home_events());
        }
    }

    fn command(&mut self, cmd: u8)
        ensures
            final(self).log() == old(self).log() + command_events(cmd),
    {
        self.port.set_line(Line::Rs, false);
        self.write_bus((cmd & 0xF0) >> 4);
        self.write_bus(cmd & 0x0F);
        proof {
            assert((cmd & 0xF0) >> 4 == cmd / 16) by (bit_vector);
            assert(cmd & 0x0F == cmd % 16) by (bit_vector);
            assert(self.log() =~= old(self).log() + command_events(cmd));
        }
    }

    fn write_char(&mut self, ch: u8)
        ensures
            final(self).log() == old(self).log() + write_char_events(ch),
    {
        self.port.set_line(Line::Rs, true);
        self.write_bus((ch & 0xF0) >> 4);
        self.write_bus(ch & 0x0F);
        proof {
            assert((ch & 0xF0) >> 4 == ch / 16) by (bit_vector);
            assert(ch & 0x0F == ch % 16) by (bit_vector);
            assert(self.log() =~= old(self).log() + write_char_events(ch));
        }
    }

    /// Prints a string: a 320 us budget before each character, the
    /// character's scalar value truncated to its low eight bits on the data
    /// register, and one trailing 1530 us settle after the whole string.
    pub fn print(&mut self, s: &str)
        ensures
            final(self).log() == old(self).log() + print_op_events(s@),
    {
        let n: usize = s.unicode_len();
        let mut i: usize = 0;
        while i < n
            invariant
                n == s@.len(),
                i <= n,
                self.log() == old(self).log() + print_events(s@.take(i as int)),
            decreases n - i,
        {
            let c: char = s.get_char(i);
            self.delay(320);
            let b: u8 = #[verifier::truncate] (c as u8);
            self.write_char(b);
            proof {
                assert(s@.take(i + 1 as int).drop_last() =~= s@.take(i as int));
                assert(self.log() =~= old(self).log() + print_events(s@.take(i + 1 as int)));
            }
            i = i + 1;
        }
        self.delay(1530);
        proof {
            assert(s@.take(n as int) =~= s@);
            assert(self.log() =~= old(self).log() + print_op_events(s@));
        }
    }

    /// Suspends for the given number of microseconds; every settle time of
    /// the protocol is issued through this.
    pub fn delay(&mut self, interval_us: u64)
        ensures
            final(self).log() == old(self).log().push(Event::DelayUs(interval_us)),
    {
        self.port.delay_us(interval_us);
    }

    fn write_bus(&mut self, data: u8)
        ensures
            final(self).log() == old(self).log() + write_bus_events(data),
    {
        self.port.set_line(Line::En, false);
        self.port.set_line(Line::D4, data & 0x1 > 0);
        self.port.set_line(Line::D5, data & 0x2 > 0);
        self.port.set_line(Line::D6, data & 0x4 > 0);
        self.port.set_line(Line::D7, data & 0x8 > 0);
        self.port.set_line(Line::En, true);
        self.port.set_line(Line::En, false);
        proof {
            assert(self.log() =~= old(self).log() + write_bus_events(data));
        }
    }
}

} // verus!
