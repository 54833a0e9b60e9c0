use audit_userspace_rs::auparse::entry::Entry;
use audit_userspace_rs::auparse::feed::{Input, Output, Pump, PumpAction, Stream, CB_EVENT_READY};
use audit_userspace_rs::auparse::types::Type;

#[test]
fn new_stream_counts_nothing_and_connects_input() {
    let (stream, source_rx) = Stream::new();
    assert_eq!(stream.count(), 0);
    stream.tx.handle().send(Input::Raw("type=SYSCALL".to_string())).unwrap();
    match source_rx.handle().recv().unwrap() {
        Input::Raw(s) => assert_eq!(s, "type=SYSCALL"),
        Input::Done => panic!("expected raw input"),
    }
}

#[test]
fn stream_puts_out_entries_then_done() {
    let (stream, _source_rx) = Stream::new();
    let rx = stream.rx.clone();
    let mut sink = stream.clone();
    for e in [Some(Entry::parse(1300, 5, 1, 2, 3)), None, Some(Entry::parse(1127, 6, 4, 5, 6))] {
        let had = e.is_some();
        let out = sink.on_entry(e);
        assert_eq!(out.is_some(), had);
        if let Some(o) = out {
            sink.sink().handle().send(o).unwrap();
        }
    }
    assert_eq!(sink.count(), 2);
    assert_eq!(stream.count(), 0);
    let (done, count, tx) = sink.finish();
    assert!(matches!(done, Output::Done));
    assert_eq!(count, 2);
    tx.handle().send(done).unwrap();
    match rx.handle().recv().unwrap() {
        Output::Parsed(e) => {
            assert_eq!(e.etype, Type::Syscall);
            assert_eq!(e.time, 5);
        }
        Output::Done => panic!("expected an entry"),
    }
    match rx.handle().recv().unwrap() {
        Output::Parsed(e) => assert_eq!(e.etype, Type::SystemBoot),
        Output::Done => panic!("expected an entry"),
    }
    assert!(matches!(rx.handle().recv().unwrap(), Output::Done));
}

#[test]
fn stream_without_receiver_still_counts() {
    let (stream, _source_rx) = Stream::new();
    let mut sink = stream.clone();
    drop(stream);
    let out = sink.on_entry(Some(Entry::parse(1302, 0, 0, 0, 0)));
    match out {
        Some(Output::Parsed(e)) => assert_eq!(e.etype, Type::Path),
        _ => panic!("expected a parsed output"),
    }
    assert_eq!(sink.count(), 1);
    assert!(sink.on_entry(None).is_none());
    assert_eq!(sink.count(), 1);
}

#[test]
fn only_ready_events_are_accepted() {
    assert_eq!(CB_EVENT_READY, 0);
    assert!(Stream::accepts(0));
    assert!(!Stream::accepts(1));
}

#[test]
fn pump_feeds_raw_input_and_finishes_on_done() {
    let mut p = Pump::new();
    assert_eq!(p.received(), 0);
    assert!(!p.is_finished());
    match p.step(Some(Input::Raw("a".to_string()))) {
        PumpAction::Feed(t) => assert_eq!(t, "a"),
        _ => panic!("expected feed"),
    }
    assert!(matches!(p.step(None), PumpAction::Retry));
    match p.step(Some(Input::Raw("b\n".to_string()))) {
        PumpAction::Feed(t) => assert_eq!(t, "b\n"),
        _ => panic!("expected feed"),
    }
    assert_eq!(p.received(), 2);
    assert!(matches!(p.step(Some(Input::Done)), PumpAction::Finish));
    assert!(p.is_finished());
    assert_eq!(p.received(), 2);
}
