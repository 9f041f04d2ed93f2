//! The decisions of the two producers that feed a multiplexer's channel.
//!
//! Each producer runs a loop on its own thread: the key reader blocks on the
//! terminal, the ticker sleeps. What a loop does with each outcome is decided
//! here; the loop itself performs the reads, sends and sleeps.
use vstd::prelude::*;
use crate::channel::Channel;
use crate::event::{Config, Event, DEFAULT_TICK_RATE_MS};

verus! {

/// What one blocking read of the key source gave.
#[derive(Debug, Clone, Copy, PartialEq, Eq)]
pub enum ReadOutcome<K> {
    /// A decoded key.
    Key(K),
    /// Bytes that did not decode to a key.
    Malformed,
    /// The key source has no more input.
    Ended,
}

/// The key reader: it forwards decoded keys until its input ends or its
/// channel's receiver is gone.
#[derive(Debug, Clone, Copy, PartialEq, Eq)]
pub struct InputProducer {
    /// Reading, as opposed to stopped.
    pub running: bool,
}

impl InputProducer {
    /// A key reader about to read.
    pub fn new() -> (r: InputProducer)
        ensures
            r.running,
    {
        InputProducer { running: true }
    }

    /// What to send after a read: a key becomes an input event; a malformed
    /// read is skipped and reading goes on; the end of input stops the reader
    /// without sending anything.
    pub fn on_read<K>(&mut self, outcome: ReadOutcome<K>) -> (r: Option<Event<K>>)
        requires
            old(self).running,
        ensures
            match outcome {
                ReadOutcome::Key(k) => r == Some(Event::Input(k)) && final(self).running,
                ReadOutcome::Malformed => r is None && final(self).running,
                ReadOutcome::Ended => r is None && !final(self).running,
            },
    {
        match outcome {
            ReadOutcome::Key(k) => Some(Event::Input(k)),
            ReadOutcome::Malformed => None,
            ReadOutcome::Ended => {
                self.running = false;
                None
            },
        }
    }

    /// After an attempt to send: a failed send stops the reader.
    pub fn on_sent(&mut self, delivered: bool)
        ensures
            final(self).running == (old(self).running && delivered),
    {
        if !delivered {
            self.running = false;
        }
    }
}

impl InputProducer {
    /// One round of the key reader's loop: acts on one read and sends what it
    /// yields; when the reader stops, because its input ended or its send
    /// failed, it lets go of its sending end. Returns whether it reads on.
    pub fn round<K>(&mut self, channel: &mut Channel<Event<K>>, outcome: ReadOutcome<K>) -> (r:
        bool)
        requires
            old(self).running,
        ensures
            r == final(self).running,
            r == (outcome is Malformed || (outcome is Key && old(channel)@.receiver_open)),
            final(channel)@ == match outcome {
                ReadOutcome::Key(k) => if old(channel)@.receiver_open {
                    old(channel)@.send(Event::Input(k)).0
                } else {
                    old(channel)@.release()
                },
                ReadOutcome::Malformed => old(channel)@,
                ReadOutcome::Ended => old(channel)@.release(),
            },
    {
        match self.on_read(outcome) {
            Some(e) => {
                let sent = channel.send(e);
                self.on_sent(sent.is_ok());
            },
            None => {},
        }
        if !self.running {
            channel.release();
        }
        self.running
    }
}

/// The ticker: it sends a tick, sleeps one interval, and repeats until its
/// channel's receiver is gone.
#[derive(Debug, Clone, Copy, PartialEq, Eq)]
pub struct Ticker {
    /// Ticking, as opposed to stopped.
    pub running: bool,
    /// Time slept after each tick, in milliseconds.
    pub interval_ms: u64,
}

impl Ticker {
    /// A ticker about to send its first tick, with the configured interval.
    pub fn new(config: Config) -> (r: Ticker)
        requires
            config.wf(),
        ensures
            r.running,
            r.interval_ms == config.tick_rate_ms,
    {
        Ticker { running: true, interval_ms: config.tick_rate_ms }
    }

    /// The event the ticker sends.
    pub fn event<K>(&self) -> (r: Event<K>)
        ensures
            r == Event::<K>::Tick,
    {
        Event::Tick
    }

    /// After an attempt to send a tick: how long to sleep before the next one,
    /// or `None` when the send failed and the ticker stops.
    pub fn on_sent(&mut self, delivered: bool) -> (r: Option<u64>)
        ensures
            final(self).interval_ms == old(self).interval_ms,
            final(self).running == (old(self).running && delivered),
            delivered && old(self).running ==> r == Some(old(self).interval_ms),
            !(delivered && old(self).running) ==> r is None,
    {
        if delivered && self.running {
            Some(self.interval_ms)
        } else {
            self.running = false;
            None
        }
    }
}

impl Ticker {
    /// One round of the ticker's loop: sends a tick and returns how long to
    /// sleep before the next round; when the send fails the ticker stops, lets
    /// go of its sending end and returns `None`.
    pub fn round<K>(&mut self, channel: &mut Channel<Event<K>>) -> (r: Option<u64>)
        requires
            old(self).running,
        ensures
            final(self).interval_ms == old(self).interval_ms,
            final(self).running == old(channel)@.receiver_open,
            old(channel)@.receiver_open ==> r == Some(old(self).interval_ms) && final(channel)@
                == old(channel)@.send(Event::Tick).0,
            !old(channel)@.receiver_open ==> r is None && final(channel)@ == old(channel)@.release(),
    {
        let sent = channel.send(self.event());
        let r = self.on_sent(sent.is_ok());
        if !self.running {
            channel.release();
        }
        r
    }
}

/// A multiplexer's parts at start-up: one channel and the two producers that
/// each hold one of its sending ends.
pub struct Multiplexer<K> {
    pub channel: Channel<Event<K>>,
    pub input: InputProducer,
    pub ticker: Ticker,
}

impl<K> Multiplexer<K> {
    /// Lays out a multiplexer with the default configuration.
    pub fn new() -> (r: Multiplexer<K>)
        ensures
            r.channel@.queue == Seq::<Event<K>>::empty(),
            r.channel@.senders == 2,
            r.channel@.receiver_open,
            r.input.running,
            r.ticker.running,
            r.ticker.interval_ms == DEFAULT_TICK_RATE_MS,
    {
        Multiplexer::with_config(Config::default())
    }

    /// Lays out a multiplexer: an empty channel with a live receiver and
    /// exactly two sending ends, a running key reader, and a running ticker
    /// with the configured interval.
    pub fn with_config(config: Config) -> (r: Multiplexer<K>)
        requires
            config.wf(),
        ensures
            r.channel@.queue == Seq::<Event<K>>::empty(),
            r.channel@.senders == 2,
            r.channel@.receiver_open,
            r.input.running,
            r.ticker.running,
            r.ticker.interval_ms == config.tick_rate_ms,
    {
        let mut channel = Channel::new();
        channel.add_sender();
        Multiplexer { channel, input: InputProducer::new(), ticker: Ticker::new(config) }
    }
}

} // verus!
