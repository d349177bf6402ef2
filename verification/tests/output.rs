use omnyssh_core::output::{ChannelEvent, OutputCollector};

fn collect(events: Vec<ChannelEvent>) -> (String, Option<u32>) {
    let mut collector = OutputCollector::new();
    for event in events {
        if !collector.take(event) {
            break;
        }
    }
    collector.finish()
}

fn data(text: &str) -> ChannelEvent {
    ChannelEvent::Data(text.as_bytes().to_vec())
}

#[test]
fn output_is_collected_in_order() {
    let events = vec![data("one\r"), data("\ntwo"), data(" three"), ChannelEvent::Close];
    assert_eq!(collect(events), ("one\ntwo three\n".to_string(), None));
}

#[test]
fn output_may_follow_the_exit_status() {
    let events = vec![
        data("a\n"),
        ChannelEvent::ExitStatus(2),
        data("b\n"),
        ChannelEvent::Eof,
        ChannelEvent::Close,
    ];
    assert_eq!(collect(events), ("a\nb\n".to_string(), Some(2)));
}

#[test]
fn exit_status_may_follow_the_end_of_output() {
    let events = vec![data("a"), ChannelEvent::Eof, ChannelEvent::ExitStatus(0), ChannelEvent::Ended];
    assert_eq!(collect(events), ("a\n".to_string(), Some(0)));
}

#[test]
fn last_exit_status_counts() {
    let events = vec![ChannelEvent::ExitStatus(1), ChannelEvent::ExitStatus(7), ChannelEvent::Close];
    assert_eq!(collect(events), (String::new(), Some(7)));
}

#[test]
fn standard_error_is_discarded() {
    let events = vec![
        ChannelEvent::Other,
        data("a"),
        ChannelEvent::ExtendedData,
        data("b"),
        ChannelEvent::Close,
    ];
    assert_eq!(collect(events), ("ab\n".to_string(), None));
}

#[test]
fn nothing_is_read_after_close() {
    let events = vec![data("a\n"), ChannelEvent::Close, data("b\n"), ChannelEvent::ExitStatus(1)];
    assert_eq!(collect(events), ("a\n".to_string(), None));
}

#[test]
fn only_close_and_end_stop_the_collection() {
    let mut collector = OutputCollector::new();
    assert!(collector.take(data("x")));
    assert!(collector.take(ChannelEvent::ExtendedData));
    assert!(collector.take(ChannelEvent::ExitStatus(0)));
    assert!(collector.take(ChannelEvent::Eof));
    assert!(collector.take(ChannelEvent::Other));
    assert!(!collector.take(ChannelEvent::Close));
    assert!(!collector.take(ChannelEvent::Ended));
}

#[test]
fn invalid_bytes_are_replaced() {
    let events = vec![ChannelEvent::Data(vec![0x61, 0xff, 0x62]), ChannelEvent::Ended];
    assert_eq!(collect(events), ("a\u{fffd}b\n".to_string(), None));
}

#[test]
fn characters_may_be_split_over_messages() {
    let events = vec![
        ChannelEvent::Data(vec![0xc3]),
        ChannelEvent::Data(vec![0xbc]),
        ChannelEvent::Close,
    ];
    assert_eq!(collect(events), ("\u{fc}\n".to_string(), None));
}

#[test]
fn output_is_empty_only_without_bytes() {
    assert_eq!(collect(vec![ChannelEvent::Data(Vec::new())]), (String::new(), None));
    assert_eq!(collect(vec![ChannelEvent::Data(vec![0xff])]), ("\u{fffd}\n".to_string(), None));
    assert_eq!(collect(vec![ChannelEvent::Data(vec![0xe2, 0x82])]).0.is_empty(), false);
}
