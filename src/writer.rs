use vstd::prelude::*;

verus! {

/// Why a whole-buffer write stopped short.
#[derive(Clone, Copy, Debug, PartialEq, Eq, Structural)]
pub enum WriteFailure {
    /// The sink accepted no byte while some were left.
    WriteZero,
    /// The sink claimed more bytes than it was offered.
    Overrun,
    /// The sink reported an error; it is passed on unchanged.
    Io,
}

/// Where a whole-buffer write stands.
#[derive(Clone, Copy, Debug, PartialEq, Eq, Structural)]
pub enum WritePhase {
    Writing,
    Flushing,
    Finished,
    Failed(WriteFailure),
}

/// What the sink reported for the last operation it was asked to do.
#[derive(Clone, Copy, Debug, PartialEq, Eq, Structural)]
pub enum WriteEvent {
    /// A write took this many bytes from the front of what was offered.
    Accepted(usize),
    /// The operation was interrupted before it did anything.
    Interrupted,
    /// A flush completed.
    Flushed,
    /// The operation failed.
    Error,
}

/// What the sink is to do next.
#[derive(Clone, Copy, Debug, PartialEq, Eq, Structural)]
pub enum WriteAction {
    /// Write the bytes of the buffer from this offset to its end.
    Write(usize),
    /// Flush the sink.
    Flush,
    /// Every byte was written and flushed.
    Done,
    /// Stop and report the failure.
    Fail(WriteFailure),
}

/// The progress of writing a buffer of `total` bytes, of which the first
/// `written` have reached the sink.
#[derive(Clone, Copy, Debug, PartialEq, Eq, Structural)]
pub struct WriteAll {
    pub total: usize,
    pub written: usize,
    pub phase: WritePhase,
}

impl WriteAll {
    pub open spec fn wf(self) -> bool {
        &&& self.written <= self.total
        &&& self.phase is Writing ==> self.written < self.total
        &&& (self.phase is Flushing || self.phase is Finished) ==> self.written == self.total
    }

    /// The state before any operation: writing, or flushing at once when
    /// there is nothing to write.
    pub open spec fn start_spec(total: usize) -> WriteAll {
        WriteAll {
            total,
            written: 0,
            phase: if total == 0 { WritePhase::Flushing } else { WritePhase::Writing },
        }
    }

    /// The operation that the state asks for.
    pub open spec fn action_spec(self) -> WriteAction {
        match self.phase {
            WritePhase::Writing => WriteAction::Write(self.written),
            WritePhase::Flushing => WriteAction::Flush,
            WritePhase::Finished => WriteAction::Done,
            WritePhase::Failed(f) => WriteAction::Fail(f),
        }
    }

    /// The state after the sink reports `ev`. A finished or failed write
    /// ignores further events; an event that does not answer the operation
    /// asked for changes nothing, so the same operation is asked again.
    pub open spec fn next_spec(self, ev: WriteEvent) -> WriteAll {
        match self.phase {
            WritePhase::Writing => match ev {
                WriteEvent::Accepted(n) => if n == 0 {
                    WriteAll { phase: WritePhase::Failed(WriteFailure::WriteZero), ..self }
                } else if n > self.total - self.written {
                    WriteAll { phase: WritePhase::Failed(WriteFailure::Overrun), ..self }
                } else if self.written + n == self.total {
                    WriteAll { written: self.total, phase: WritePhase::Flushing, ..self }
                } else {
                    WriteAll { written: (self.written + n) as usize, ..self }
                },
                WriteEvent::Error => WriteAll {
                    phase: WritePhase::Failed(WriteFailure::Io),
                    ..self
                },
                _ => self,
            },
            WritePhase::Flushing => match ev {
                WriteEvent::Flushed => WriteAll { phase: WritePhase::Finished, ..self },
                WriteEvent::Error => WriteAll {
                    phase: WritePhase::Failed(WriteFailure::Io),
                    ..self
                },
                _ => self,
            },
            _ => self,
        }
    }

    /// The state after each of `evs` in turn.
    pub open spec fn run_spec(self, evs: Seq<WriteEvent>) -> WriteAll
        decreases evs.len(),
    {
        if evs.len() == 0 {
            self
        } else {
            self.next_spec(evs[0]).run_spec(evs.drop_first())
        }
    }

    /// The bytes of `buf` that the events hand to the sink, in order.
    pub open spec fn delivered(self, buf: Seq<u8>, evs: Seq<WriteEvent>) -> Seq<u8>
        decreases evs.len(),
    {
        if evs.len() == 0 {
            Seq::empty()
        } else {
            let nxt = self.next_spec(evs[0]);
            buf.subrange(self.written as int, nxt.written as int) + nxt.delivered(
                buf,
                evs.drop_first(),
            )
        }
    }

    pub fn start(total: usize) -> (r: WriteAll)
        ensures
            r == WriteAll::start_spec(total),
            r.wf(),
    {
        WriteAll {
            total,
            written: 0,
            phase: if total == 0 { WritePhase::Flushing } else { WritePhase::Writing },
        }
    }

    pub fn action(&self) -> (r: WriteAction)
        ensures
            r == self.action_spec(),
    {
        match self.phase {
            WritePhase::Writing => WriteAction::Write(self.written),
            WritePhase::Flushing => WriteAction::Flush,
            WritePhase::Finished => WriteAction::Done,
            WritePhase::Failed(f) => WriteAction::Fail(f),
        }
    }

    pub fn on_event(&mut self, ev: WriteEvent) -> (r: WriteAction)
        requires
            old(self).wf(),
        ensures
            *final(self) == old(self).next_spec(ev),
            final(self).wf(),
            r == final(self).action_spec(),
    {
        match self.phase {
            WritePhase::Writing => match ev {
                WriteEvent::Accepted(n) => {
                    if n == 0 {
                        self.phase = WritePhase::Failed(WriteFailure::WriteZero);
                    } else if n > self.total - self.written {
                        self.phase = WritePhase::Failed(WriteFailure::Overrun);
                    } else if self.written + n == self.total {
                        self.written = self.total;
                        self.phase = WritePhase::Flushing;
                    } else {
                        self.written = self.written + n;
                    }
                },
                WriteEvent::Error => {
                    self.phase = WritePhase::Failed(WriteFailure::Io);
                },
                _ => {},
            },
            WritePhase::Flushing => match ev {
                WriteEvent::Flushed => {
                    self.phase = WritePhase::Finished;
                },
                WriteEvent::Error => {
                    self.phase = WritePhase::Failed(WriteFailure::Io);
                },
                _ => {},
            },
            _ => {},
        }
        self.action()
    }
}


/// Each event keeps a well-formed state well formed, and never takes back a
/// byte that reached the sink.
pub proof fn lemma_next_keeps_wf(s: WriteAll, ev: WriteEvent)
    requires
        s.wf(),
    ensures
        s.next_spec(ev).wf(),
        s.next_spec(ev).total == s.total,
        s.written <= s.next_spec(ev).written,
{
}

/// Driven by any events, the bytes handed to the sink are the buffer from
/// where the write stood up to where it ends, each once and in order.
pub proof fn lemma_run_delivers_in_order(s: WriteAll, buf: Seq<u8>, evs: Seq<WriteEvent>)
    requires
        s.wf(),
        buf.len() == s.total,
    ensures
        s.run_spec(evs).wf(),
        s.run_spec(evs).total == s.total,
        buf.subrange(0, s.written as int) + s.delivered(buf, evs) == buf.subrange(
            0,
            s.run_spec(evs).written as int,
        ),
    decreases evs.len(),
{
    if evs.len() > 0 {
        let nxt = s.next_spec(evs[0]);
        lemma_next_keeps_wf(s, evs[0]);
        lemma_run_delivers_in_order(nxt, buf, evs.drop_first());
        assert(buf.subrange(0, s.written as int) + buf.subrange(
            s.written as int,
            nxt.written as int,
        ) =~= buf.subrange(0, nxt.written as int));
        assert(buf.subrange(0, s.written as int) + s.delivered(buf, evs) =~= buf.subrange(
            0,
            s.written as int,
        ) + buf.subrange(s.written as int, nxt.written as int) + nxt.delivered(
            buf,
            evs.drop_first(),
        ));
    }
}

/// A whole-buffer write that reports success has handed the sink exactly
/// the buffer: every byte, once, in order, with nothing left out.
pub proof fn lemma_done_delivers_whole_buffer(buf: Seq<u8>, evs: Seq<WriteEvent>)
    requires
        buf.len() <= usize::MAX,
        WriteAll::start_spec(buf.len() as usize).run_spec(evs).action_spec() == WriteAction::Done,
    ensures
        WriteAll::start_spec(buf.len() as usize).delivered(buf, evs) == buf,
{
    let s = WriteAll::start_spec(buf.len() as usize);
    lemma_run_delivers_in_order(s, buf, evs);
    assert(buf.subrange(0, 0) + s.delivered(buf, evs) =~= s.delivered(buf, evs));
    assert(buf.subrange(0, buf.len() as int) =~= buf);
}

/// Once a write has finished or failed, no later event changes it.
pub proof fn lemma_stopped_write_stays(s: WriteAll, evs: Seq<WriteEvent>)
    requires
        s.phase is Finished || s.phase is Failed,
    ensures
        s.run_spec(evs) == s,
    decreases evs.len(),
{
    if evs.len() > 0 {
        lemma_stopped_write_stays(s.next_spec(evs[0]), evs.drop_first());
    }
}

} // verus!
