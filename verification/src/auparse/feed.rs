use vstd::prelude::*;
use crate::auparse::channel::{unbounded, ChannelReceiver, ChannelSender};
use crate::auparse::entry::Entry;

verus! {

/// Raw audit text going into a feed, or the end of the input.
pub enum Input {
    Raw(String),
    Done,
}

/// A parsed entry coming out of a feed, or the end of the output.
pub enum Output {
    Parsed(Entry),
    Done,
}

/// The parser's callback event type that announces a complete event.
pub const CB_EVENT_READY: u32 = 0;

/// The two ends that a feed's user holds (`tx` for raw input, `rx` for parsed output), and the
/// parser side's sink for parsed output with the number of entries it has put out.
///
/// The stream decides what goes to the sink; its caller hands each returned `Output` to
/// `sink()`. Beside the count, `emitted` records (for proofs only) the entries that the stream
/// has put out, each returned as `Output::Parsed`.
pub struct Stream {
    pub tx: ChannelSender<Input>,
    pub rx: ChannelReceiver<Output>,
    count: u32,
    e_tx: ChannelSender<Output>,
    emitted: Ghost<Seq<Entry>>,
}

impl Stream {
    /// The number of entries that this stream has put out.
    pub closed spec fn spec_count(&self) -> nat {
        self.count as nat
    }

    /// The entries that this stream has put out (each returned as `Output::Parsed`), oldest
    /// first.
    pub closed spec fn emitted(&self) -> Seq<Entry> {
        self.emitted@
    }

    /// The user's end for raw input.
    pub closed spec fn spec_tx(&self) -> ChannelSender<Input> {
        self.tx
    }

    /// The user's end for parsed output.
    pub closed spec fn spec_rx(&self) -> ChannelReceiver<Output> {
        self.rx
    }

    /// The sending end of the output channel.
    pub closed spec fn spec_sink(&self) -> ChannelSender<Output> {
        self.e_tx
    }

    /// The count is the number of entries put out.
    pub open spec fn wf(&self) -> bool {
        self.spec_count() == self.emitted().len()
    }

    /// Opens a stream: one unbounded channel for raw input and one for parsed output.
    /// Returns the stream and the receiving end of the input channel, which the parser side
    /// reads.
    pub fn new() -> (r: (Stream, ChannelReceiver<Input>))
        ensures
            r.0.spec_tx().channel() == r.1.channel(),
            r.0.spec_rx().channel() == r.0.spec_sink().channel(),
            r.0.wf(),
            r.0.spec_count() == 0,
            r.0.emitted() == Seq::<Entry>::empty(),
    {
        let (source_tx, source_rx) = unbounded::<Input>();
        let (sink_tx, sink_rx) = unbounded::<Output>();
        let stream = Stream {
            tx: source_tx,
            rx: sink_rx,
            count: 0,
            e_tx: sink_tx,
            emitted: Ghost(Seq::empty()),
        };
        (stream, source_rx)
    }

    /// The number of entries that this stream has put out.
    pub fn count(&self) -> (n: u32)
        ensures
            n == self.spec_count(),
    {
        self.count
    }

    /// The sending end of the output channel, to which each output of this stream goes.
    ///
    /// Any holder of the stream can reach it, so any holder can put outputs (`Done` too) on the
    /// channel; only the parser's callback and cleanup are meant to.
    pub fn sink(&self) -> (s: &ChannelSender<Output>)
        ensures
            *s == self.spec_sink(),
    {
        &self.e_tx
    }

    /// Whether a parser callback of the given event type asks for the next entry to be read.
    pub fn accepts(cb_event_type: u32) -> (b: bool)
        ensures
            b == (cb_event_type == CB_EVENT_READY),
    {
        cb_event_type == CB_EVENT_READY
    }

    /// Puts out the entry read for a ready event, if one was read: counts it and returns the
    /// output for the sink, `Output::Parsed` of it. Without an entry nothing changes and there is
    /// no output. Meant for the parser's callback only, though any holder of the stream can call it.
    pub fn on_entry(&mut self, entry: Option<Entry>) -> (out: Option<Output>)
        requires
            old(self).wf(),
            entry is Some ==> old(self).spec_count() < u32::MAX,
        ensures
            final(self).wf(),
            final(self).spec_sink() == old(self).spec_sink(),
            final(self).spec_tx() == old(self).spec_tx(),
            final(self).spec_rx() == old(self).spec_rx(),
            match entry {
                Some(e) => {
                    &&& out == Some(Output::Parsed(e))
                    &&& final(self).spec_count() == old(self).spec_count() + 1
                    &&& final(self).emitted() == old(self).emitted().push(e)
                },
                None => {
                    &&& out is None
                    &&& final(self).spec_count() == old(self).spec_count()
                    &&& final(self).emitted() == old(self).emitted()
                },
            },
    {
        match entry {
            Some(e) => {
                self.count = self.count + 1;
                self.emitted = Ghost(self.emitted@.push(e));
                Some(Output::Parsed(e))
            },
            None => None,
        }
    }

    /// Closes the stream: returns the last output for the sink, `Output::Done`, the number of
    /// entries put out, and the sink itself. The stream is consumed, so nothing follows `Done`
    /// from it. Meant for the parser's cleanup only, though any holder of the stream can call it.
    pub fn finish(self) -> (r: (Output, u32, ChannelSender<Output>))
        requires
            self.wf(),
        ensures
            r.0 == Output::Done,
            r.1 == self.spec_count(),
            r.2 == self.spec_sink(),
    {
        (Output::Done, self.count, self.e_tx)
    }
}

impl Clone for Stream {
    /// Another stream on the same channels, with the same count and put-out entries; the
    /// parser's callback works on such a clone while the user holds the original.
    fn clone(&self) -> (c: Self)
        ensures
            c.spec_tx().channel() == self.spec_tx().channel(),
            c.spec_rx().channel() == self.spec_rx().channel(),
            c.spec_sink().channel() == self.spec_sink().channel(),
            c.spec_count() == self.spec_count(),
            c.emitted() == self.emitted(),
    {
        Stream {
            tx: self.tx.clone(),
            rx: self.rx.clone(),
            count: self.count,
            e_tx: self.e_tx.clone(),
            emitted: self.emitted,
        }
    }
}

/// What the feeding side does next with the parser.
pub enum PumpAction {
    /// Feed this raw text to the parser.
    Feed(String),
    /// The input is complete: age out and flush the parser's pending events.
    Finish,
    /// The input channel gave nothing (all senders are gone): wait on it again.
    Retry,
}

/// The feeding side's state: how many raw inputs it has taken, and whether the input ended.
///
/// Beside the count, `fed` records (for proofs only) the texts handed to the parser.
pub struct Pump {
    received: i32,
    finished: bool,
    fed: Ghost<Seq<Seq<char>>>,
}

impl Pump {
    /// The number of raw inputs taken.
    pub closed spec fn spec_received(&self) -> int {
        self.received as int
    }

    /// Whether `Input::Done` has been taken.
    pub closed spec fn spec_finished(&self) -> bool {
        self.finished
    }

    /// The texts handed to the parser, oldest first.
    pub closed spec fn fed(&self) -> Seq<Seq<char>> {
        self.fed@
    }

    /// The count is the number of texts handed to the parser.
    pub open spec fn wf(&self) -> bool {
        self.spec_received() == self.fed().len()
    }

    /// A pump that has taken nothing.
    pub fn new() -> (p: Pump)
        ensures
            p.wf(),
            p.spec_received() == 0,
            !p.spec_finished(),
            p.fed() == Seq::<Seq<char>>::empty(),
    {
        Pump { received: 0, finished: false, fed: Ghost(Seq::empty()) }
    }

    /// The number of raw inputs taken.
    pub fn received(&self) -> (n: i32)
        ensures
            n == self.spec_received(),
    {
        self.received
    }

    /// Whether `Input::Done` has been taken.
    pub fn is_finished(&self) -> (b: bool)
        ensures
            b == self.spec_finished(),
    {
        self.finished
    }

    /// Takes what one receive on the input channel gave (`None` when the channel is empty and
    /// all its senders are gone) and says what to do next.
    pub fn step(&mut self, input: Option<Input>) -> (a: PumpAction)
        requires
            old(self).wf(),
            !old(self).spec_finished(),
            input matches Some(Input::Raw(_)) ==> old(self).spec_received() < i32::MAX,
        ensures
            final(self).wf(),
            match input {
                Some(Input::Raw(text)) => {
                    &&& a == PumpAction::Feed(text)
                    &&& final(self).spec_received() == old(self).spec_received() + 1
                    &&& final(self).fed() == old(self).fed().push(text@)
                    &&& !final(self).spec_finished()
                },
                Some(Input::Done) => {
                    &&& a is Finish
                    &&& final(self).spec_received() == old(self).spec_received()
                    &&& final(self).fed() == old(self).fed()
                    &&& final(self).spec_finished()
                },
                None => {
                    &&& a is Retry
                    &&& final(self).spec_received() == old(self).spec_received()
                    &&& final(self).fed() == old(self).fed()
                    &&& !final(self).spec_finished()
                },
            },
    {
        match input {
            Some(Input::Raw(text)) => {
                self.received = self.received + 1;
                self.fed = Ghost(self.fed@.push(text@));
                PumpAction::Feed(text)
            },
            Some(Input::Done) => {
                self.finished = true;
                PumpAction::Finish
            },
            None => PumpAction::Retry,
        }
    }
}

} // verus!
