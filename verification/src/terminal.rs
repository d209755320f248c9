//! The terminal: text goes to the framebuffer and to the serial port, as far
//! as they are attached.

use vstd::prelude::*;

verus! {

/// A place that the terminal writes to.
#[derive(Clone, Copy, Debug, PartialEq, Eq, Structural)]
pub enum Sink {
    FrameBuffer,
    SerialPort,
}

/// What is to be done next to write one piece of text.
#[derive(Clone, Copy, Debug, PartialEq, Eq, Structural)]
pub enum WriteStep {
    /// The text is to be written to the sink, under the sink's lock.
    Write(Sink),
    /// The text is written to every sink that is attached.
    Written,
    /// A sink refused the text, and the sinks after it were left out.
    Refused,
}

/// The terminal, which knows the sinks that are attached to it.
#[derive(Clone, Copy, Debug, PartialEq, Eq, Structural)]
pub struct Terminal {
    pub framebuffer: bool,
    pub serial_port: bool,
}

impl Terminal {
    /// A terminal with the sinks that are said to be attached.
    pub fn new(framebuffer: bool, serial_port: bool) -> (terminal: Terminal)
        ensures
            terminal == (Terminal { framebuffer, serial_port }),
    {
        Terminal { framebuffer, serial_port }
    }

    /// The sinks of the terminal, in the order in which a text reaches them:
    /// the framebuffer before the serial port.
    pub open spec fn sinks(self) -> Seq<Sink> {
        (if self.framebuffer {
            seq![Sink::FrameBuffer]
        } else {
            Seq::empty()
        }) + (if self.serial_port {
            seq![Sink::SerialPort]
        } else {
            Seq::empty()
        })
    }

    /// The step after `done` sinks have taken the text: the next sink, or the
    /// end.
    pub open spec fn step_after(self, done: int) -> WriteStep {
        if 0 <= done < self.sinks().len() {
            WriteStep::Write(self.sinks()[done])
        } else {
            WriteStep::Written
        }
    }

    /// The first step of a write: the first sink that is attached.
    pub fn write_str(&self) -> (step: WriteStep)
        ensures
            step == self.step_after(0),
    {
        if self.framebuffer {
            WriteStep::Write(Sink::FrameBuffer)
        } else if self.serial_port {
            WriteStep::Write(Sink::SerialPort)
        } else {
            WriteStep::Written
        }
    }

    /// The step after `sink` has answered: the write is over if the sink
    /// refused the text, and else it goes on with the sink that follows.
    pub fn written(&self, sink: Sink, accepted: bool) -> (step: WriteStep)
        ensures
            !accepted ==> step == WriteStep::Refused,
            accepted && sink == Sink::FrameBuffer && self.serial_port ==> step == WriteStep::Write(
                Sink::SerialPort,
            ),
            accepted && !(sink == Sink::FrameBuffer && self.serial_port) ==> step
                == WriteStep::Written,
    {
        if !accepted {
            WriteStep::Refused
        } else {
            match sink {
                Sink::FrameBuffer => if self.serial_port {
                    WriteStep::Write(Sink::SerialPort)
                } else {
                    WriteStep::Written
                },
                Sink::SerialPort => WriteStep::Written,
            }
        }
    }

    /// Nothing is held back by the terminal, so there is nothing to flush.
    pub fn flush(&self) {
    }
}

} // verus!
