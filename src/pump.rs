use vstd::prelude::*;

verus! {

/// Bytes asked of each read of the terminal's master side.
pub const READ_CHUNK: usize = 10240;

/// What one read of the master side gave.
pub enum ReadOutcome {
    Bytes(Vec<u8>),
    Failed,
}

/// Why the pump ended.
#[derive(Clone, Copy, Debug, PartialEq, Eq, Structural)]
pub enum EndReason {
    /// A read returned no bytes: the child closed its side.
    Closed,
    /// A read failed.
    ReadFailed,
    /// A write to the output pipe failed or wrote fewer bytes than asked.
    WriteFailed,
}

/// What the pump thread is to do next.
pub enum PumpAction {
    /// Write these bytes to the output pipe, then report how it went.
    Forward(Vec<u8>),
    /// Send the one shutdown message of the session, then stop.
    Finish(EndReason),
    /// Read again.
    Read,
    /// The pump has ended already: do nothing.
    Stop,
}

/// The decisions of the thread that relays the child's output into the
/// reactor's pipe.
pub struct OutputPump {
    ended: bool,
    read: Ghost<Seq<u8>>,
    forwarded: Ghost<Seq<u8>>,
    finishes: Ghost<nat>,
}

impl OutputPump {
    /// Every byte read so far, in order.
    pub closed spec fn read_bytes(&self) -> Seq<u8> {
        self.read@
    }

    /// Every byte handed to the pipe so far, in order.
    pub closed spec fn forwarded(&self) -> Seq<u8> {
        self.forwarded@
    }

    /// How many shutdown messages were asked for.
    pub closed spec fn finishes(&self) -> nat {
        self.finishes@
    }

    /// Has the pump ended?
    pub closed spec fn ended(&self) -> bool {
        self.ended
    }

    /// Nothing read is held back, and a shutdown was asked for once the pump
    /// ended and never before.
    pub open spec fn wf(&self) -> bool {
        &&& self.forwarded() == self.read_bytes()
        &&& self.finishes() == if self.ended() {
            1nat
        } else {
            0nat
        }
    }

    /// A pump that has read nothing.
    pub fn new() -> (r: Self)
        ensures
            r.wf(),
            !r.ended(),
            r.read_bytes() == Seq::<u8>::empty(),
    {
        OutputPump {
            ended: false,
            read: Ghost(Seq::empty()),
            forwarded: Ghost(Seq::empty()),
            finishes: Ghost(0),
        }
    }

    /// Has the pump ended?
    pub fn is_ended(&self) -> (r: bool)
        ensures
            r == self.ended(),
    {
        self.ended
    }

    /// Decides on a read: bytes are forwarded as they are, an empty read means
    /// the child closed its side, and a failed read ends the pump.
    pub fn on_read(&mut self, outcome: ReadOutcome) -> (r: PumpAction)
        requires
            old(self).wf(),
        ensures
            final(self).wf(),
            old(self).ended() ==> r is Stop && *final(self) == *old(self),
            !old(self).ended() ==> match outcome {
                ReadOutcome::Bytes(b) => if b@.len() == 0 {
                    r == PumpAction::Finish(EndReason::Closed) && final(self).ended()
                        && final(self).read_bytes() == old(self).read_bytes()
                } else {
                    (r matches PumpAction::Forward(f) && f@ == b@) && !final(self).ended()
                        && final(self).read_bytes() == old(self).read_bytes() + b@
                },
                ReadOutcome::Failed => r == PumpAction::Finish(EndReason::ReadFailed)
                    && final(self).ended() && final(self).read_bytes() == old(self).read_bytes(),
            },
    {
        if self.ended {
            return PumpAction::Stop;
        }
        match outcome {
            ReadOutcome::Bytes(b) => {
                if b.len() == 0 {
                    self.finish(EndReason::Closed)
                } else {
                    proof {
                        self.read@ = self.read@ + b@;
                        self.forwarded@ = self.forwarded@ + b@;
                    }
                    PumpAction::Forward(b)
                }
            },
            ReadOutcome::Failed => self.finish(EndReason::ReadFailed),
        }
    }

    /// Decides on a write of `asked` bytes that wrote `written`, or failed
    /// (`None`): all written means read again, anything else ends the pump.
    pub fn on_written(&mut self, asked: usize, written: Option<usize>) -> (r: PumpAction)
        requires
            old(self).wf(),
        ensures
            final(self).wf(),
            final(self).read_bytes() == old(self).read_bytes(),
            old(self).ended() ==> r is Stop && *final(self) == *old(self),
            !old(self).ended() ==> if written == Some(asked) {
                r is Read && !final(self).ended()
            } else {
                r == PumpAction::Finish(EndReason::WriteFailed) && final(self).ended()
            },
    {
        if self.ended {
            return PumpAction::Stop;
        }
        match written {
            Some(n) => {
                if n == asked {
                    PumpAction::Read
                } else {
                    self.finish(EndReason::WriteFailed)
                }
            },
            None => self.finish(EndReason::WriteFailed),
        }
    }

    fn finish(&mut self, reason: EndReason) -> (r: PumpAction)
        requires
            old(self).wf(),
            !old(self).ended(),
        ensures
            final(self).wf(),
            final(self).ended(),
            final(self).read_bytes() == old(self).read_bytes(),
            r == PumpAction::Finish(reason),
    {
        self.ended = true;
        proof {
            self.finishes@ = 1;
        }
        PumpAction::Finish(reason)
    }
}

} // verus!
