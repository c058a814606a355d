use log_bootstrap::chain::SinkChain;
use log_bootstrap::record::Level;
use log_bootstrap::record::Record;

#[test]
fn one_record_lands_once_with_its_message() {
    let mut c = SinkChain::new();
    c.emit(Record { level: Level::Info, msg: "hello".to_string() });
    assert_eq!(c.written_len(), 0);
    c.flush();
    assert_eq!(c.written_len(), 1);
    assert_eq!(c.queued_len(), 0);
    let r = c.written_at(0);
    assert_eq!(r.msg, "hello");
    assert_eq!(r.level, Level::Info);
}

#[test]
fn two_records_land_in_issue_order() {
    let mut c = SinkChain::new();
    c.emit(Record { level: Level::Info, msg: "first".to_string() });
    c.emit(Record { level: Level::Error, msg: "second".to_string() });
    c.flush();
    assert_eq!(c.written_len(), 2);
    assert_eq!(c.written_at(0).msg, "first");
    assert_eq!(c.written_at(1).msg, "second");
}

#[test]
fn bridged_and_direct_calls_share_the_file() {
    let mut c = SinkChain::new();
    c.emit(Record { level: Level::Info, msg: "structured".to_string() });
    c.emit_bridged(Level::Warning, "ad hoc".to_string());
    c.flush();
    assert_eq!(c.written_len(), 2);
    assert_eq!(c.written_at(0).msg, "structured");
    assert_eq!(c.written_at(1).msg, "ad hoc");
    assert_eq!(c.written_at(1).level, Level::Warning);
}

#[test]
fn worker_steps_one_record_at_a_time() {
    let mut c = SinkChain::new();
    assert!(!c.drain_one());
    c.emit(Record { level: Level::Debug, msg: "a".to_string() });
    c.emit(Record { level: Level::Trace, msg: "b".to_string() });
    assert!(c.drain_one());
    assert_eq!(c.written_len(), 1);
    assert_eq!(c.queued_len(), 1);
    assert_eq!(c.written_at(0).msg, "a");
    assert!(c.drain_one());
    assert!(!c.drain_one());
    assert_eq!(c.written_len(), 2);
}

#[test]
fn flush_of_an_idle_chain_writes_nothing() {
    let mut c = SinkChain::new();
    c.flush();
    assert_eq!(c.written_len(), 0);
    c.flush();
    assert_eq!(c.written_len(), 0);
}

#[test]
fn the_file_is_never_rotated_or_renamed() {
    let mut c = SinkChain::new();
    assert_eq!(c.path(), "fastype.log");
    let mut i: usize = 0;
    while i < 1000 {
        c.emit(Record { level: Level::Info, msg: "bulk".to_string() });
        i += 1;
    }
    c.flush();
    assert_eq!(c.path(), "fastype.log");
    assert_eq!(c.written_len(), 1000);
    c.emit_bridged(Level::Error, "still here".to_string());
    c.flush();
    assert_eq!(c.path(), "fastype.log");
    assert_eq!(c.written_len(), 1001);
    assert_eq!(c.written_at(1000).msg, "still here");
}
