use vstd::prelude::*;
use vstd::utf8::{decode_utf8, valid_utf8};

verus! {

/// Why a whole-stream read stopped short.
#[derive(Clone, Copy, Debug, PartialEq, Eq, Structural)]
pub enum ReadFailure {
    /// The source claimed more bytes than the buffer it was given holds.
    Overrun,
    /// The source reported an error; it is passed on unchanged.
    Io,
}

/// Where a whole-stream read stands.
#[derive(Clone, Copy, Debug, PartialEq, Eq, Structural)]
pub enum ReadPhase {
    Reading,
    Finished,
    Failed(ReadFailure),
}

/// What the source reported for the last read.
#[derive(Clone, Copy, Debug, PartialEq, Eq, Structural)]
pub enum ReadEvent {
    /// The read placed this many bytes at the front of the buffer; none
    /// means the end of input.
    Filled(usize),
    /// The read was interrupted before it did anything.
    Interrupted,
    /// The read failed.
    Error,
}

/// What the source is to do next.
#[derive(Clone, Copy, Debug, PartialEq, Eq, Structural)]
pub enum ReadAction {
    /// Read more bytes.
    Read,
    /// The input has ended; everything is collected.
    Finished,
    /// Stop and report the failure.
    Fail(ReadFailure),
}

/// The bytes a whole-stream read has collected, and where it stands.
pub struct ReadState {
    pub data: Seq<u8>,
    pub phase: ReadPhase,
}

/// Reading a stream to its end.
pub struct ReadAll {
    data: Vec<u8>,
    phase: ReadPhase,
}

impl View for ReadAll {
    type V = ReadState;

    closed spec fn view(&self) -> ReadState {
        ReadState { data: self.data@, phase: self.phase }
    }
}

/// The operation that the state asks for.
pub open spec fn read_action_spec(st: ReadState) -> ReadAction {
    match st.phase {
        ReadPhase::Reading => ReadAction::Read,
        ReadPhase::Finished => ReadAction::Finished,
        ReadPhase::Failed(f) => ReadAction::Fail(f),
    }
}

/// The state after a read into `buf` reports `ev`. A finished or failed read
/// ignores further events.
pub open spec fn read_next_spec(st: ReadState, ev: ReadEvent, buf: Seq<u8>) -> ReadState {
    match st.phase {
        ReadPhase::Reading => match ev {
            ReadEvent::Filled(n) => if n == 0 {
                ReadState { phase: ReadPhase::Finished, ..st }
            } else if n > buf.len() {
                ReadState { phase: ReadPhase::Failed(ReadFailure::Overrun), ..st }
            } else {
                ReadState { data: st.data + buf.subrange(0, n as int), ..st }
            },
            ReadEvent::Interrupted => st,
            ReadEvent::Error => ReadState { phase: ReadPhase::Failed(ReadFailure::Io), ..st },
        },
        _ => st,
    }
}

/// The state after each read in turn, given as what it reported and the
/// buffer it read into.
pub open spec fn read_run_spec(st: ReadState, reads: Seq<(ReadEvent, Seq<u8>)>) -> ReadState
    decreases reads.len(),
{
    if reads.len() == 0 {
        st
    } else {
        read_run_spec(read_next_spec(st, reads[0].0, reads[0].1), reads.drop_first())
    }
}

/// The bytes that the reads produced, in order, up to the end of input or a
/// failure.
pub open spec fn produced(st: ReadState, reads: Seq<(ReadEvent, Seq<u8>)>) -> Seq<u8>
    decreases reads.len(),
{
    if reads.len() == 0 || !(st.phase is Reading) {
        Seq::empty()
    } else {
        let nxt = read_next_spec(st, reads[0].0, reads[0].1);
        let got = match reads[0].0 {
            ReadEvent::Filled(n) => if nxt.phase is Reading {
                reads[0].1.subrange(0, n as int)
            } else {
                Seq::empty()
            },
            _ => Seq::empty(),
        };
        got + produced(nxt, reads.drop_first())
    }
}

/// Relies on String::from_utf8: it succeeds exactly on valid UTF-8 and
/// then holds the characters that the bytes encode.
#[verifier::external_body]
fn text_from_utf8(bytes: Vec<u8>) -> (r: Option<String>)
    ensures
        r is Some <==> valid_utf8(bytes@),
        r matches Some(t) ==> t@ == decode_utf8(bytes@),
{
    String::from_utf8(bytes).ok()
}

impl ReadAll {
    pub fn new() -> (r: ReadAll)
        ensures
            r@.data == Seq::<u8>::empty(),
            r@.phase == ReadPhase::Reading,
    {
        ReadAll { data: Vec::new(), phase: ReadPhase::Reading }
    }

    pub fn action(&self) -> (r: ReadAction)
        ensures
            r == read_action_spec(self@),
    {
        match self.phase {
            ReadPhase::Reading => ReadAction::Read,
            ReadPhase::Finished => ReadAction::Finished,
            ReadPhase::Failed(f) => ReadAction::Fail(f),
        }
    }

    /// Takes what a read into `buf` reported.
    pub fn on_event(&mut self, ev: ReadEvent, buf: &[u8]) -> (r: ReadAction)
        ensures
            final(self)@ == read_next_spec(old(self)@, ev, buf@),
            r == read_action_spec(final(self)@),
    {
        if let ReadPhase::Reading = self.phase {
            match ev {
                ReadEvent::Filled(n) => {
                    if n == 0 {
                        self.phase = ReadPhase::Finished;
                    } else if n > buf.len() {
                        self.phase = ReadPhase::Failed(ReadFailure::Overrun);
                    } else {
                        let ghost start = self.data@;
                        let mut i: usize = 0;
                        while i < n
                            invariant
                                n <= buf@.len(),
                                i <= n,
                                self.data@ == start + buf@.subrange(0, i as int),
                                self.phase == ReadPhase::Reading,
                            decreases n - i,
                        {
                            self.data.push(buf[i]);
                            i = i + 1;
                            assert(self.data@ =~= start + buf@.subrange(0, i as int));
                        }
                    }
                },
                ReadEvent::Interrupted => {},
                ReadEvent::Error => {
                    self.phase = ReadPhase::Failed(ReadFailure::Io);
                },
            }
        }
        self.action()
    }

    /// The collected bytes.
    pub fn into_bytes(self) -> (r: Vec<u8>)
        ensures
            r@ == self@.data,
    {
        self.data
    }

    /// The collected bytes as text: `None` when they are not valid UTF-8.
    pub fn into_text(self) -> (r: Option<String>)
        ensures
            r is Some <==> valid_utf8(self@.data),
            r matches Some(t) ==> t@ == decode_utf8(self@.data),
    {
        text_from_utf8(self.data)
    }
}

/// Driven by any reads, a read collects what it held before followed by
/// the bytes the reads produced, in order, with nothing dropped or repeated.
pub proof fn lemma_read_collects_in_order(st: ReadState, reads: Seq<(ReadEvent, Seq<u8>)>)
    ensures
        read_run_spec(st, reads).data == st.data + produced(st, reads),
    decreases reads.len(),
{
    if reads.len() == 0 {
        assert(st.data + Seq::<u8>::empty() =~= st.data);
    } else if !(st.phase is Reading) {
        lemma_stopped_read_stays(st, reads);
        assert(st.data + Seq::<u8>::empty() =~= st.data);
    } else {
        let nxt = read_next_spec(st, reads[0].0, reads[0].1);
        lemma_read_collects_in_order(nxt, reads.drop_first());
        assert(read_run_spec(st, reads).data =~= st.data + produced(st, reads));
    }
}

/// Once a read has finished or failed, no later read changes it.
pub proof fn lemma_stopped_read_stays(st: ReadState, reads: Seq<(ReadEvent, Seq<u8>)>)
    requires
        !(st.phase is Reading),
    ensures
        read_run_spec(st, reads) == st,
    decreases reads.len(),
{
    if reads.len() > 0 {
        lemma_stopped_read_stays(read_next_spec(st, reads[0].0, reads[0].1), reads.drop_first());
    }
}

} // verus!
