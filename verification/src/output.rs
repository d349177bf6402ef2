//! Collecting the output of a remote command from the messages of its channel.

use vstd::prelude::*;
use vstd::utf8::*;

use crate::text::{lossy_text, normalise, normalised, text_from_bytes};

verus! {

/// One message of a command's channel, as far as its output is concerned.
#[derive(Clone, Debug, PartialEq, Eq)]
pub enum ChannelEvent {
    /// A piece of standard output.
    Data(Vec<u8>),
    /// A piece of standard error.
    ExtendedData,
    /// The exit status of the command.
    ExitStatus(u32),
    /// The end of the output; the exit status may still follow.
    Eof,
    /// The channel was closed.
    Close,
    /// The channel gives no more messages.
    Ended,
    /// Any other message.
    Other,
}

/// What was collected of a command's output.
pub ghost struct Collected {
    pub stdout: Seq<u8>,
    pub exit_status: Option<u32>,
}

/// Collects standard output and the exit status.
pub struct OutputCollector {
    buf: Vec<u8>,
    exit_status: Option<u32>,
}

impl View for OutputCollector {
    type V = Collected;

    closed spec fn view(&self) -> Collected {
        Collected { stdout: self.buf@, exit_status: self.exit_status }
    }
}

/// Whether no message of the channel is read after this one.
pub open spec fn is_last(event: ChannelEvent) -> bool {
    event is Close || event is Ended
}

/// What is collected after one more message.
pub open spec fn after_event(so_far: Collected, event: ChannelEvent) -> Collected {
    match event {
        ChannelEvent::Data(data) => Collected { stdout: so_far.stdout + data@, ..so_far },
        ChannelEvent::ExitStatus(code) => Collected { exit_status: Some(code), ..so_far },
        _ => so_far,
    }
}

/// Nothing, as is collected before the first message.
pub open spec fn nothing_collected() -> Collected {
    Collected { stdout: Seq::empty(), exit_status: None }
}

impl OutputCollector {
    /// Starts with nothing collected.
    pub fn new() -> (collector: OutputCollector)
        ensures
            collector@ == nothing_collected(),
            collector@.stdout == Seq::<u8>::empty(),
            collector@.exit_status is None,
    {
        let collector = OutputCollector { buf: Vec::new(), exit_status: None };
        assert(collector@.stdout =~= Seq::<u8>::empty());
        collector
    }

    /// Takes the next message of the channel; tells whether to wait for another.
    /// Standard error is discarded. The exit status and the end of output end
    /// nothing: trailing output, or the status, may still arrive.
    pub fn take(&mut self, event: ChannelEvent) -> (more: bool)
        ensures
            final(self)@ == after_event(old(self)@, event),
            more == !is_last(event),
            match event {
                ChannelEvent::Close | ChannelEvent::Ended => !more,
                ChannelEvent::Data(_) | ChannelEvent::ExtendedData | ChannelEvent::ExitStatus(_)
                | ChannelEvent::Eof | ChannelEvent::Other => more,
            },
            final(self)@.stdout == match event {
                ChannelEvent::Data(data) => old(self)@.stdout + data@,
                _ => old(self)@.stdout,
            },
            final(self)@.exit_status == match event {
                ChannelEvent::ExitStatus(code) => Some(code),
                _ => old(self)@.exit_status,
            },
    {
        match event {
            ChannelEvent::Data(data) => {
                self.buf.extend_from_slice(data.as_slice());
                assert(self@.stdout =~= old(self)@.stdout + data@);
                true
            },
            ChannelEvent::ExitStatus(code) => {
                self.exit_status = Some(code);
                true
            },
            ChannelEvent::Close => false,
            ChannelEvent::Ended => false,
            ChannelEvent::ExtendedData => true,
            ChannelEvent::Eof => true,
            ChannelEvent::Other => true,
        }
    }

    /// The output as text with normalised line endings, and the exit status if
    /// there was one.
    pub fn finish(self) -> (result: (String, Option<u32>))
        ensures
            result.0@ == normalised(lossy_text(self@.stdout)),
            valid_utf8(self@.stdout) ==> result.0@ == normalised(decode_utf8(self@.stdout)),
            (result.0@.len() == 0) == (self@.stdout.len() == 0),
            result.1 == self@.exit_status,
    {
        let raw = text_from_bytes(&self.buf);
        (normalise(raw.as_str()), self.exit_status)
    }
}

/// What is collected, on top of `so_far`, from a channel that gives `events`.
pub open spec fn collected(so_far: Collected, events: Seq<ChannelEvent>) -> Collected
    decreases events.len(),
{
    if events.len() == 0 || is_last(events[0]) {
        so_far
    } else {
        collected(after_event(so_far, events[0]), events.skip(1))
    }
}

/// The messages that come before the channel is closed or ends.
pub open spec fn before_last(events: Seq<ChannelEvent>) -> Seq<ChannelEvent>
    decreases events.len(),
{
    if events.len() == 0 || is_last(events[0]) {
        Seq::empty()
    } else {
        seq![events[0]] + before_last(events.skip(1))
    }
}

/// All pieces of standard output in `events`, in order.
pub open spec fn stdout_of(events: Seq<ChannelEvent>) -> Seq<u8>
    decreases events.len(),
{
    if events.len() == 0 {
        Seq::empty()
    } else {
        match events[0] {
            ChannelEvent::Data(data) => data@ + stdout_of(events.skip(1)),
            _ => stdout_of(events.skip(1)),
        }
    }
}

/// The last exit status in `events`.
pub open spec fn exit_status_of(events: Seq<ChannelEvent>) -> Option<u32>
    decreases events.len(),
{
    if events.len() == 0 {
        None
    } else {
        match (exit_status_of(events.skip(1)), events[0]) {
            (Some(code), _) => Some(code),
            (None, ChannelEvent::ExitStatus(code)) => Some(code),
            _ => None,
        }
    }
}

/// Of all the messages before the channel is closed or ends, the standard
/// output is collected in order and without gaps, and of the exit statuses the
/// last, in whatever order output, exit status and end of output arrive.
pub proof fn collected_is_all_output(events: Seq<ChannelEvent>)
    ensures
        collected(nothing_collected(), events) == (Collected {
            stdout: stdout_of(before_last(events)),
            exit_status: exit_status_of(before_last(events)),
        }),
{
    lemma_collected(nothing_collected(), events);
    let result = collected(nothing_collected(), events);
    assert(result.stdout =~= stdout_of(before_last(events)));
}

proof fn lemma_collected(so_far: Collected, events: Seq<ChannelEvent>)
    ensures
        collected(so_far, events).stdout == so_far.stdout + stdout_of(before_last(events)),
        collected(so_far, events).exit_status == match exit_status_of(before_last(events)) {
            Some(code) => Some(code),
            None => so_far.exit_status,
        },
    decreases events.len(),
{
    if events.len() == 0 || is_last(events[0]) {
        assert(so_far.stdout + Seq::<u8>::empty() =~= so_far.stdout);
    } else {
        let rest = events.skip(1);
        let heard = before_last(events);
        lemma_collected(after_event(so_far, events[0]), rest);
        assert(heard.skip(1) =~= before_last(rest));
        assert(collected(so_far, events).stdout =~= so_far.stdout + stdout_of(heard));
    }
}

/// Standard error, the end of output and unrelated messages change nothing,
/// wherever they arrive.
pub proof fn other_events_change_nothing(
    so_far: Collected,
    before: Seq<ChannelEvent>,
    event: ChannelEvent,
    after: Seq<ChannelEvent>,
)
    requires
        event is ExtendedData || event is Eof || event is Other,
    ensures
        collected(so_far, before + seq![event] + after) == collected(so_far, before + after),
    decreases before.len(),
{
    let with = before + seq![event] + after;
    let without = before + after;
    if before.len() == 0 {
        assert(with.skip(1) =~= after);
        assert(without =~= after);
    } else {
        assert(with.skip(1) =~= before.skip(1) + seq![event] + after);
        assert(without.skip(1) =~= before.skip(1) + after);
        if !is_last(before[0]) {
            other_events_change_nothing(
                after_event(so_far, before[0]),
                before.skip(1),
                event,
                after,
            );
        }
    }
}

/// What comes after the message that closes or ends the channel is not read.
pub proof fn nothing_collected_after_last(
    so_far: Collected,
    before: Seq<ChannelEvent>,
    event: ChannelEvent,
    after: Seq<ChannelEvent>,
)
    requires
        is_last(event),
    ensures
        collected(so_far, before + seq![event] + after) == collected(so_far, before),
    decreases before.len(),
{
    let all = before + seq![event] + after;
    if before.len() > 0 {
        assert(all.skip(1) =~= before.skip(1) + seq![event] + after);
        if !is_last(before[0]) {
            nothing_collected_after_last(
                after_event(so_far, before[0]),
                before.skip(1),
                event,
                after,
            );
        }
    }
}

/// Reading goes on after every message but the one that closes or ends the
/// channel, whatever the message carries.
pub proof fn reading_goes_on_until_the_channel_ends(data: Vec<u8>, code: u32)
    ensures
        !is_last(ChannelEvent::Data(data)),
        !is_last(ChannelEvent::ExitStatus(code)),
        !is_last(ChannelEvent::ExtendedData),
        !is_last(ChannelEvent::Eof),
        !is_last(ChannelEvent::Other),
        is_last(ChannelEvent::Close),
        is_last(ChannelEvent::Ended),
{
}

/// The standard output of a sequence of messages is that of its parts, one after
/// the other: each piece of standard output counts whole, and nothing else does.
pub proof fn stdout_is_its_pieces(
    first: Seq<ChannelEvent>,
    second: Seq<ChannelEvent>,
    event: ChannelEvent,
)
    ensures
        stdout_of(first + second) == stdout_of(first) + stdout_of(second),
        stdout_of(seq![event]) == match event {
            ChannelEvent::Data(data) => data@,
            _ => Seq::<u8>::empty(),
        },
        stdout_of(Seq::<ChannelEvent>::empty()) == Seq::<u8>::empty(),
    decreases first.len(),
{
    assert(seq![event].skip(1) =~= Seq::<ChannelEvent>::empty());
    assert(stdout_of(seq![event].skip(1)) =~= Seq::<u8>::empty());
    assert(stdout_of(seq![event]) =~= match event {
        ChannelEvent::Data(data) => data@,
        _ => Seq::<u8>::empty(),
    });
    if first.len() == 0 {
        assert(first + second =~= second);
        assert(Seq::<u8>::empty() + stdout_of(second) =~= stdout_of(second));
    } else {
        assert((first + second).skip(1) =~= first.skip(1) + second);
        stdout_is_its_pieces(first.skip(1), second, event);
        assert(stdout_of(first + second) =~= stdout_of(first) + stdout_of(second));
    }
}

/// Of the exit statuses in a sequence of messages the last one counts; messages
/// without one leave it as it was.
pub proof fn last_exit_status_counts(events: Seq<ChannelEvent>, event: ChannelEvent)
    ensures
        exit_status_of(events.push(event)) == match event {
            ChannelEvent::ExitStatus(code) => Some(code),
            _ => exit_status_of(events),
        },
        exit_status_of(Seq::<ChannelEvent>::empty()) is None,
    decreases events.len(),
{
    let all = events.push(event);
    if events.len() == 0 {
        assert(all.skip(1) =~= Seq::<ChannelEvent>::empty());
        assert(exit_status_of(all.skip(1)) is None);
    } else {
        assert(all.skip(1) =~= events.skip(1).push(event));
        last_exit_status_counts(events.skip(1), event);
    }
}

/// A channel that gives `events`, none of which closes or ends it, and then
/// closes or ends, is read to that point: all standard output in `events` is
/// collected, and the last exit status, however long the output is and in
/// whatever order the messages come.
pub proof fn everything_before_the_end_is_collected(
    events: Seq<ChannelEvent>,
    end: ChannelEvent,
    unread: Seq<ChannelEvent>,
)
    requires
        forall|i: int|
            0 <= i < events.len() ==> !(#[trigger] events[i] is Close) && !(events[i] is Ended),
        end is Close || end is Ended,
    ensures
        collected(
            Collected { stdout: Seq::empty(), exit_status: None },
            events + seq![end] + unread,
        ) == (Collected { stdout: stdout_of(events), exit_status: exit_status_of(events) }),
{
    lemma_before_last(events, end, unread);
    collected_is_all_output(events + seq![end] + unread);
}

proof fn lemma_before_last(
    events: Seq<ChannelEvent>,
    end: ChannelEvent,
    unread: Seq<ChannelEvent>,
)
    requires
        forall|i: int|
            0 <= i < events.len() ==> !(#[trigger] events[i] is Close) && !(events[i] is Ended),
        end is Close || end is Ended,
    ensures
        before_last(events + seq![end] + unread) == events,
    decreases events.len(),
{
    let all = events + seq![end] + unread;
    if events.len() == 0 {
        assert(all[0] == end);
        assert(before_last(all) =~= events);
    } else {
        assert(all[0] == events[0]);
        assert(all.skip(1) =~= events.skip(1) + seq![end] + unread);
        lemma_before_last(events.skip(1), end, unread);
        assert(before_last(all) =~= events);
    }
}

} // verus!
