//! The log pipeline: a bounded line queue on the producer side and the
//! append-only store behind the log view.
//!
//! A process-wide logging facility formats leveled messages and hands each
//! one to [`Logs::write`]; blank messages are filtered out and, when the
//! queue is full, further lines are silently dropped rather than blocking
//! the producer. Once per frame the log view drains the queue through
//! [`LogsView::check_logs`], which appends in order and never rewrites
//! history.

use vstd::prelude::*;

use crate::input::trimmed;

verus! {

/// A bounded FIFO queue of log lines between producer and log view.
pub struct Logs {
    /// Queued lines, oldest first.
    pub lines: Vec<String>,
    /// Most lines ever held at once; writes beyond this are dropped.
    pub capacity: usize,
}

impl Logs {
    /// The queue never holds more lines than its capacity.
    pub open spec fn wf(self) -> bool {
        self.lines@.len() <= self.capacity
    }

    /// An empty queue with the given capacity.
    pub fn new(capacity: usize) -> (r: Self)
        ensures
            r.lines@.len() == 0,
            r.capacity == capacity,
            r.wf(),
    {
        Logs { lines: Vec::new(), capacity }
    }

    /// Accept one formatted message.
    ///
    /// A message that is blank (nothing but whitespace) is ignored; a
    /// non-blank message is appended, unless the queue is full, in which
    /// case it is dropped. Returns whether the message was queued.
    pub fn write(&mut self, buf: &str) -> (accepted: bool)
        requires
            old(self).wf(),
        ensures
            final(self).wf(),
            final(self).capacity == old(self).capacity,
            accepted <==> trimmed(buf@).len() > 0 && old(self).lines@.len() < old(self).capacity,
            accepted ==> {
                &&& final(self).lines@.len() == old(self).lines@.len() + 1
                &&& final(self).lines@.drop_last() == old(self).lines@
                &&& final(self).lines@.last()@ == buf@
            },
            !accepted ==> final(self).lines@ == old(self).lines@,
    {
        let v = crate::input::chars_of(buf);
        let (a, b) = crate::input::trim_bounds(&v);
        if b > a && self.lines.len() < self.capacity {
            let line = buf.to_owned();
            self.lines.push(line);
            proof {
                assert(self.lines@.drop_last() =~= old(self).lines@);
            }
            true
        } else {
            false
        }
    }

    /// Flushing is a no-op: lines are visible to the consumer as soon as
    /// they are queued.
    pub fn flush(&mut self)
        ensures
            *final(self) == *old(self),
    {
    }

    /// Remove and return the oldest queued line, if any.
    pub fn try_recv(&mut self) -> (r: Option<String>)
        requires
            old(self).wf(),
        ensures
            final(self).wf(),
            final(self).capacity == old(self).capacity,
            old(self).lines@.len() == 0 ==> r is None && final(self).lines@ == old(self).lines@,
            old(self).lines@.len() > 0 ==> {
                &&& r == Some(old(self).lines@[0])
                &&& final(self).lines@ == old(self).lines@.drop_first()
            },
    {
        if self.lines.len() > 0 {
            let line = self.lines.remove(0);
            proof {
                assert(self.lines@ =~= old(self).lines@.drop_first());
            }
            Some(line)
        } else {
            None
        }
    }
}

/// What one per-frame look at the log queue found.
pub enum LogEvent {
    /// A line arrived; append it to the view.
    Line(String),
    /// Nothing new this frame.
    Empty,
    /// The producer side is gone; no further lines will arrive.
    Disconnected,
}

/// The store behind the log view: every line ever displayed, in arrival
/// order. Lines are only ever appended, never rewritten or dropped.
pub struct LogsView {
    /// All received lines, oldest first.
    pub logs: Vec<String>,
    /// Whether the producer side was observed disconnected.
    pub disconnected: bool,
}

impl LogsView {
    /// An empty view.
    pub fn new() -> (r: Self)
        ensures
            r.logs@.len() == 0,
            !r.disconnected,
    {
        LogsView { logs: Vec::new(), disconnected: false }
    }

    /// Fold one queue observation into the view: a received line is
    /// appended after everything already shown; an empty poll changes
    /// nothing; a disconnect is recorded and the lines kept.
    pub fn check_logs(&mut self, event: LogEvent)
        ensures
            event matches LogEvent::Line(l) ==> final(self).logs@ == old(self).logs@.push(l)
                && final(self).disconnected == old(self).disconnected,
            event is Empty ==> *final(self) == *old(self),
            event is Disconnected ==> {
                &&& final(self).logs@ == old(self).logs@
                &&& final(self).disconnected
            },
    {
        match event {
            LogEvent::Line(l) => {
                self.logs.push(l);
            },
            LogEvent::Empty => {},
            LogEvent::Disconnected => {
                self.disconnected = true;
            },
        }
    }
}

} // verus!
