//! The capability the driver consumes: six digital output lines and a
//! microsecond timer, observed as one totally ordered run of [`Event`]s —
//! the order in which the physical bus sees them.

use crate::protocol::Event;
use crate::protocol::Line;
use vstd::prelude::*;

verus! {

/// The digital output lines and the timer of one display, as a single
/// capability.
///
/// The six lines and the timer share one implementation because the
/// driver's correctness lies in the total order of line writes and delays:
/// `log()` is that order, and each operation appends exactly what it did.
/// An implementation binds the lines to real hardware; [`RecordedPort`]
/// records the run for inspection instead.
pub trait DisplayPort {
    /// The events emitted through this port so far, oldest first.
    ///
    /// The default stands for a port whose history is not observed, as on
    /// real hardware; an implementation that records its history, such as
    /// [`RecordedPort`], overrides it.
    open spec fn log(&self) -> Seq<Event> {
        Seq::empty()
    }

    /// Drive one line high (`true`) or low (`false`).
    fn set_line(&mut self, line: Line, high: bool)
        ensures
            final(self).log() == old(self).log().push(Event::Drive(line, high)),
    ;

    /// Suspend for `us` microseconds before the next event.
    fn delay_us(&mut self, us: u64)
        ensures
            final(self).log() == old(self).log().push(Event::DelayUs(us)),
    ;
}

/// A test double: a port that drives no hardware and records every event.
pub struct RecordedPort {
    /// The recorded events, oldest first.
    pub events: Vec<Event>,
}

impl RecordedPort {
    /// An empty recording.
    pub fn new() -> (r: RecordedPort)
        ensures
            r.log() == Seq::<Event>::empty(),
    {
        RecordedPort { events: Vec::new() }
    }
}

impl DisplayPort for RecordedPort {
    open spec fn log(&self) -> Seq<Event> {
        self.events@
    }

    fn set_line(&mut self, line: Line, high: bool) {
        self.events.push(Event::Drive(line, high));
    }

    fn delay_us(&mut self, us: u64) {
        self.events.push(Event::DelayUs(us));
    }
}

} // verus!
