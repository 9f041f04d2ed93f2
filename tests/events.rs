use doc_events::channel::{Channel, Received, SendError};
use doc_events::event::{Config, Event, DEFAULT_TICK_RATE_MS};
use doc_events::producer::{InputProducer, Multiplexer, ReadOutcome, Ticker};

#[test]
fn default_config_ticks_every_250_ms() {
    let c = Config::default();
    assert_eq!(c.tick_rate_ms, 250);
    assert_eq!(DEFAULT_TICK_RATE_MS, 250);
    let m: Multiplexer<char> = Multiplexer::new();
    assert_eq!(m.ticker.interval_ms, 250);
}

#[test]
fn zero_tick_rate_is_rejected() {
    assert!(Config::from_millis(0).is_none());
    assert_eq!(Config::from_millis(100).unwrap().tick_rate_ms, 100);
}

#[test]
fn multiplexer_starts_with_two_senders() {
    let m: Multiplexer<char> = Multiplexer::with_config(Config::from_millis(10).unwrap());
    assert_eq!(m.channel.senders(), 2);
    assert_eq!(m.channel.len(), 0);
    assert!(m.channel.is_receiver_open());
    assert!(m.input.running);
    assert!(m.ticker.running);
    assert_eq!(m.ticker.interval_ms, 10);
}

#[test]
fn interleaved_events_come_out_in_arrival_order() {
    let mut ch: Channel<Event<char>> = Channel::new();
    let sent = vec![
        Event::Input('a'),
        Event::Tick,
        Event::Input('b'),
        Event::Tick,
        Event::Tick,
        Event::Input('c'),
    ];
    for e in sent.iter() {
        assert!(ch.send(*e).is_ok());
    }
    let mut got = Vec::new();
    for _ in 0..sent.len() {
        match ch.try_recv() {
            Received::Item(e) => got.push(e),
            other => panic!("unexpected {:?}", other),
        }
    }
    assert_eq!(got, sent);
    assert_eq!(ch.try_recv(), Received::Empty);
}

#[test]
fn closed_and_drained_channel_stays_closed() {
    let mut ch: Channel<Event<char>> = Channel::new();
    assert!(ch.send(Event::Tick).is_ok());
    ch.drop_sender();
    assert_eq!(ch.try_recv(), Received::Item(Event::Tick));
    for _ in 0..5 {
        assert_eq!(ch.try_recv(), Received::Closed);
    }
}

#[test]
fn send_after_receiver_closed_hands_value_back() {
    let mut ch: Channel<Event<char>> = Channel::new();
    ch.close_receiver();
    assert_eq!(ch.send(Event::Input('x')), Err(SendError(Event::Input('x'))));
    assert_eq!(ch.len(), 0);
}

#[test]
fn senders_are_counted() {
    let mut ch: Channel<u8> = Channel::new();
    ch.add_sender();
    ch.add_sender();
    assert_eq!(ch.senders(), 3);
    ch.drop_sender();
    assert_eq!(ch.senders(), 2);
    ch.release();
    ch.release();
    ch.release();
    assert_eq!(ch.senders(), 0);
    assert_eq!(ch.try_recv(), Received::Closed);
}

#[test]
fn tick_cadence_over_one_second() {
    // A simulated clock: each round sends a tick, then sleeps the interval.
    let mut m: Multiplexer<char> = Multiplexer::with_config(Config::from_millis(250).unwrap());
    let mut now: u64 = 0;
    while now < 1000 {
        let sleep = m.ticker.round(&mut m.channel).unwrap();
        now += sleep;
    }
    let mut ticks = 0;
    while let Received::Item(e) = m.channel.try_recv() {
        assert_eq!(e, Event::Tick);
        ticks += 1;
    }
    assert!((3..=5).contains(&ticks));
}

#[test]
fn first_event_without_input_is_a_tick() {
    let mut m: Multiplexer<char> = Multiplexer::new();
    assert_eq!(m.ticker.round(&mut m.channel), Some(250));
    assert_eq!(m.channel.try_recv(), Received::Item(Event::Tick));
}

#[test]
fn key_before_any_tick_is_received_first() {
    let mut m: Multiplexer<char> = Multiplexer::new();
    assert!(m.input.round(&mut m.channel, ReadOutcome::Key('a')));
    assert_eq!(m.channel.try_recv(), Received::Item(Event::Input('a')));
}

#[test]
fn closed_input_and_dropped_senders_end_the_stream() {
    let mut m: Multiplexer<char> = Multiplexer::new();
    assert!(m.input.round(&mut m.channel, ReadOutcome::Key('q')));
    assert!(!m.input.round(&mut m.channel, ReadOutcome::Ended));
    assert_eq!(m.channel.senders(), 1);
    m.channel.release();
    assert_eq!(m.channel.try_recv(), Received::Item(Event::Input('q')));
    assert_eq!(m.channel.try_recv(), Received::Closed);
    assert_eq!(m.channel.try_recv(), Received::Closed);
}

#[test]
fn malformed_input_is_skipped() {
    let mut m: Multiplexer<char> = Multiplexer::new();
    assert!(m.input.round(&mut m.channel, ReadOutcome::Malformed));
    assert!(m.input.running);
    assert_eq!(m.channel.len(), 0);
    assert!(m.input.round(&mut m.channel, ReadOutcome::Key('z')));
    assert_eq!(m.channel.try_recv(), Received::Item(Event::Input('z')));
}

#[test]
fn producers_stop_when_receiver_is_gone() {
    let mut m: Multiplexer<char> = Multiplexer::new();
    m.channel.close_receiver();
    assert_eq!(m.ticker.round(&mut m.channel), None);
    assert!(!m.ticker.running);
    assert!(!m.input.round(&mut m.channel, ReadOutcome::Key('a')));
    assert!(!m.input.running);
    assert_eq!(m.channel.senders(), 0);
}

#[test]
fn producer_steps() {
    let mut p = InputProducer::new();
    assert_eq!(p.on_read(ReadOutcome::Key(7u8)), Some(Event::Input(7u8)));
    assert_eq!(p.on_read::<u8>(ReadOutcome::Malformed), None);
    assert!(p.running);
    p.on_sent(false);
    assert!(!p.running);
    let mut t = Ticker::new(Config::from_millis(40).unwrap());
    assert_eq!(t.event::<u8>(), Event::Tick);
    assert_eq!(t.on_sent(true), Some(40));
    assert_eq!(t.on_sent(false), None);
    assert!(!t.running);
}
