//! Running a command on a session, and opening a file transfer channel.

use vstd::prelude::*;
use vstd::string::*;

use crate::error::SshError;

verus! {

/// Seconds after which a command is given up.
pub const COMMAND_TIMEOUT_SECS: u64 = 30;

/// One run of a command on a session.
pub struct CommandRun {
    pub command: String,
}

/// What to do next to run a command.
#[derive(Debug, PartialEq, Eq)]
pub enum ExecAction {
    /// Open a session channel.
    OpenChannel,
    /// Send the command on the channel.
    Exec { want_reply: bool, command: String },
    /// Collect the output within the given time.
    Collect { timeout_secs: u64 },
}

/// How a run goes on after the channel was opened, or could not be.
pub open spec fn after_channel(run: CommandRun, reply: Result<(), String>) -> Result<
    ExecAction,
    SshError,
> {
    match reply {
        Ok(()) => Ok(ExecAction::Exec { want_reply: true, command: run.command }),
        Err(cause) => Err(SshError::ChannelFailed { cause }),
    }
}

/// How a run goes on after the command was sent, or could not be.
pub open spec fn after_exec(reply: Result<(), String>) -> Result<ExecAction, SshError> {
    match reply {
        Ok(()) => Ok(ExecAction::Collect { timeout_secs: COMMAND_TIMEOUT_SECS }),
        Err(cause) => Err(SshError::ExecFailed { cause }),
    }
}

/// How a run ends: with what was collected, or, for `None`, with the timeout.
pub open spec fn after_collect(
    run: CommandRun,
    output: Option<(String, Option<u32>)>,
) -> Result<(String, Option<u32>), SshError> {
    match output {
        Some(output) => Ok(output),
        None => Err(SshError::CommandTimedOut { command: run.command }),
    }
}

impl CommandRun {
    /// Starts a run: each command has a channel of its own.
    pub fn exec(&self) -> (action: ExecAction)
        ensures
            action == ExecAction::OpenChannel,
    {
        ExecAction::OpenChannel
    }

    /// Goes on after the channel was opened, or could not be.
    pub fn channel_opened(&self, reply: Result<(), String>) -> (next: Result<ExecAction, SshError>)
        ensures
            next == after_channel(*self, reply),
            match reply {
                Ok(()) => next == Ok::<ExecAction, SshError>(
                    ExecAction::Exec { want_reply: true, command: self.command },
                ),
                Err(cause) => next == Err::<ExecAction, SshError>(SshError::ChannelFailed { cause }),
            },
    {
        match reply {
            Ok(()) => Ok(ExecAction::Exec { want_reply: true, command: self.command.clone() }),
            Err(cause) => Err(SshError::ChannelFailed { cause }),
        }
    }

    /// Goes on after the command was sent, or could not be.
    pub fn exec_sent(&self, reply: Result<(), String>) -> (next: Result<ExecAction, SshError>)
        ensures
            next == after_exec(reply),
            match reply {
                Ok(()) => next == Ok::<ExecAction, SshError>(
                    ExecAction::Collect { timeout_secs: 30 },
                ),
                Err(cause) => next == Err::<ExecAction, SshError>(SshError::ExecFailed { cause }),
            },
    {
        match reply {
            Ok(()) => Ok(ExecAction::Collect { timeout_secs: COMMAND_TIMEOUT_SECS }),
            Err(cause) => Err(SshError::ExecFailed { cause }),
        }
    }

    /// Ends a run with the output and exit status that were collected, or, for
    /// `None`, with the timeout.
    pub fn output_collected(&self, output: Option<(String, Option<u32>)>) -> (result: Result<
        (String, Option<u32>),
        SshError,
    >)
        ensures
            result == after_collect(*self, output),
            match output {
                Some(output) => result == Ok::<(String, Option<u32>), SshError>(output),
                None => result == Err::<(String, Option<u32>), SshError>(
                    SshError::CommandTimedOut { command: self.command },
                ),
            },
    {
        match output {
            Some(output) => Ok(output),
            None => Err(SshError::CommandTimedOut { command: self.command.clone() }),
        }
    }
}

/// The result of a whole run, given what came of each of its actions.
pub open spec fn exec_result(
    run: CommandRun,
    channel: Result<(), String>,
    sent: Result<(), String>,
    output: Option<(String, Option<u32>)>,
) -> Result<(String, Option<u32>), SshError> {
    match after_channel(run, channel) {
        Err(error) => Err(error),
        Ok(_) => match after_exec(sent) {
            Err(error) => Err(error),
            Ok(_) => after_collect(run, output),
        },
    }
}

/// A run gives its output exactly when the channel opened, the command was sent
/// and the output was collected in time; otherwise it reports the first of
/// these that failed.
pub proof fn exec_reports_first_failure(
    run: CommandRun,
    channel: Result<(), String>,
    sent: Result<(), String>,
    output: Option<(String, Option<u32>)>,
)
    ensures
        exec_result(run, channel, sent, output) == match (channel, sent, output) {
            (Err(cause), _, _) => Err(SshError::ChannelFailed { cause }),
            (Ok(()), Err(cause), _) => Err(SshError::ExecFailed { cause }),
            (Ok(()), Ok(()), None) => Err(SshError::CommandTimedOut { command: run.command }),
            (Ok(()), Ok(()), Some(output)) => Ok(output),
        },
{
}

/// What comes of the actions of a run, but for the output.
pub ghost struct ExecReplies {
    pub channel: Result<(), String>,
    pub sent: Result<(), String>,
}

/// The actions of a run from `action` on.
pub open spec fn exec_actions(run: CommandRun, action: ExecAction, replies: ExecReplies) -> Seq<
    ExecAction,
>
    decreases
        match action {
            ExecAction::OpenChannel => 2nat,
            ExecAction::Exec { .. } => 1nat,
            ExecAction::Collect { .. } => 0nat,
        },
{
    match action {
        ExecAction::OpenChannel => seq![action] + match after_channel(run, replies.channel) {
            Ok(next) => exec_actions(run, next, replies),
            Err(_) => Seq::empty(),
        },
        ExecAction::Exec { .. } => seq![action] + match after_exec(replies.sent) {
            Ok(next) => exec_actions(run, next, replies),
            Err(_) => Seq::empty(),
        },
        ExecAction::Collect { .. } => seq![action],
    }
}

/// How many of the actions open a channel.
pub open spec fn channels_opened(actions: Seq<ExecAction>) -> nat
    decreases actions.len(),
{
    if actions.len() == 0 {
        0
    } else if actions[0] is OpenChannel {
        1 + channels_opened(actions.skip(1))
    } else {
        channels_opened(actions.skip(1))
    }
}

proof fn lemma_channels_opened(first: Seq<ExecAction>, second: Seq<ExecAction>)
    ensures
        channels_opened(first + second) == channels_opened(first) + channels_opened(second),
    decreases first.len(),
{
    if first.len() == 0 {
        assert(first + second =~= second);
    } else {
        assert((first + second).skip(1) =~= first.skip(1) + second);
        lemma_channels_opened(first.skip(1), second);
    }
}

/// All actions on a session on which `runs` are performed one after the other.
pub open spec fn session_actions(runs: Seq<(CommandRun, ExecReplies)>) -> Seq<ExecAction>
    decreases runs.len(),
{
    if runs.len() == 0 {
        Seq::empty()
    } else {
        session_actions(runs.drop_last()) + exec_actions(
            runs.last().0,
            ExecAction::OpenChannel,
            runs.last().1,
        )
    }
}

/// Every run begins by opening a channel, and opens no other, whatever comes of
/// its actions.
pub proof fn each_run_opens_one_channel(run: CommandRun, replies: ExecReplies)
    ensures
        exec_actions(run, ExecAction::OpenChannel, replies)[0] == ExecAction::OpenChannel,
        channels_opened(exec_actions(run, ExecAction::OpenChannel, replies)) == 1,
{
    reveal_with_fuel(exec_actions, 3);
    reveal_with_fuel(channels_opened, 4);
    let actions = exec_actions(run, ExecAction::OpenChannel, replies);
    match (replies.channel, replies.sent) {
        (Err(_), _) => {
            assert(actions.skip(1) =~= Seq::<ExecAction>::empty());
        },
        (Ok(()), Err(_)) => {
            assert(actions.skip(1).skip(1) =~= Seq::<ExecAction>::empty());
        },
        (Ok(()), Ok(())) => {
            assert(actions.skip(1).skip(1).skip(1) =~= Seq::<ExecAction>::empty());
        },
    }
}

/// The actions of a run, and nothing but them, in their order: its own channel is
/// opened, the command is sent on it as it is, with a reply asked for, and then
/// the output is collected for up to thirty seconds. A failure leaves out all that
/// would follow.
pub proof fn run_sends_its_command(run: CommandRun, replies: ExecReplies)
    ensures
        ({
            let actions = exec_actions(run, ExecAction::OpenChannel, replies);
            &&& actions.len() == (if replies.channel is Err {
                1
            } else if replies.sent is Err {
                2
            } else {
                3nat
            })
            &&& actions[0] == ExecAction::OpenChannel
            &&& replies.channel is Ok ==> actions[1] == (ExecAction::Exec {
                want_reply: true,
                command: run.command,
            })
            &&& replies.channel is Ok && replies.sent is Ok ==> actions[2] == (ExecAction::Collect {
                timeout_secs: 30,
            })
        }),
{
    reveal_with_fuel(exec_actions, 3);
}

/// As many channels are opened on a session as commands are run on it, whether
/// the commands succeed, fail or time out: no channel is used twice.
pub proof fn each_command_has_its_own_channel(runs: Seq<(CommandRun, ExecReplies)>)
    ensures
        channels_opened(session_actions(runs)) == runs.len(),
    decreases runs.len(),
{
    if runs.len() > 0 {
        each_command_has_its_own_channel(runs.drop_last());
        each_run_opens_one_channel(runs.last().0, runs.last().1);
        lemma_channels_opened(
            session_actions(runs.drop_last()),
            exec_actions(runs.last().0, ExecAction::OpenChannel, runs.last().1),
        );
    }
}

/// What `run_command` makes of a run: its output, whatever the exit status.
pub open spec fn output_of(run: Result<(String, Option<u32>), SshError>) -> Result<
    String,
    SshError,
> {
    match run {
        Ok((output, _)) => Ok(output),
        Err(error) => Err(error),
    }
}

/// What `run_command_checked` makes of a run: its output, unless it exited with
/// a status other than zero.
pub open spec fn checked_output_of(run: Result<(String, Option<u32>), SshError>) -> Result<
    String,
    SshError,
> {
    match run {
        Ok((output, None)) => Ok(output),
        Ok((output, Some(code))) => if code == 0 {
            Ok(output)
        } else {
            Err(SshError::ExitStatus { code })
        },
        Err(error) => Err(error),
    }
}

/// The output of a run. The exit status is ignored.
pub fn run_command(run: Result<(String, Option<u32>), SshError>) -> (output: Result<
    String,
    SshError,
>)
    ensures
        output == output_of(run),
        match run {
            Ok((text, _)) => output == Ok::<String, SshError>(text),
            Err(error) => output == Err::<String, SshError>(error),
        },
{
    match run {
        Ok((output, _)) => Ok(output),
        Err(error) => Err(error),
    }
}

/// The output of a run that exited with status zero. A missing exit status
/// counts as success.
pub fn run_command_checked(run: Result<(String, Option<u32>), SshError>) -> (output: Result<
    String,
    SshError,
>)
    ensures
        output == checked_output_of(run),
        match run {
            Ok((text, None)) => output == Ok::<String, SshError>(text),
            Ok((text, Some(code))) => if code == 0 {
                output == Ok::<String, SshError>(text)
            } else {
                output == Err::<String, SshError>(SshError::ExitStatus { code })
            },
            Err(error) => output == Err::<String, SshError>(error),
        },
{
    match run {
        Ok((output, None)) => Ok(output),
        Ok((output, Some(code))) => {
            if code == 0 {
                Ok(output)
            } else {
                Err(SshError::ExitStatus { code })
            }
        },
        Err(error) => Err(error),
    }
}

/// The exit status of a run that ended with one other than zero.
pub open spec fn failure_status(run: Result<(String, Option<u32>), SshError>) -> Option<u32> {
    match run {
        Ok((_, Some(code))) => if code != 0 {
            Some(code)
        } else {
            None
        },
        _ => None,
    }
}

/// The checked and the plain result of a run are the same, but for a run that
/// exited with a status other than zero: that is an error, which names the
/// status, where the plain result is the output.
pub proof fn checked_differs_on_failure_only(run: Result<(String, Option<u32>), SshError>)
    ensures
        match failure_status(run) {
            Some(code) => checked_output_of(run) == Err::<String, _>(SshError::ExitStatus { code })
                && output_of(run) is Ok,
            None => checked_output_of(run) == output_of(run),
        },
{
}

/// A run that came to an end gives exactly its output, whatever the output is:
/// unchecked with any exit status, checked with a missing one and with zero. An
/// exit status other than zero is the one thing that the check adds, and it is
/// reported as it is.
pub proof fn ended_run_gives_its_output(output: String, status: Option<u32>)
    ensures
        output_of(Ok((output, status))) == Ok::<String, SshError>(output),
        checked_output_of(Ok((output, None))) == Ok::<String, SshError>(output),
        checked_output_of(Ok((output, Some(0u32)))) == Ok::<String, SshError>(output),
        status is Some && status->0 != 0 ==> checked_output_of(Ok((output, status))) == Err::<
            String,
            SshError,
        >(SshError::ExitStatus { code: status->0 }),
{
}

/// The checked and the unchecked command give the same for every run but one that
/// exited with a status other than zero, and what they give is the output itself.
pub proof fn commands_give_the_output(
    text: String,
    status: Option<u32>,
    output: Result<String, SshError>,
    checked: Result<String, SshError>,
)
    requires
        call_ensures(run_command, (Ok((text, status)),), output),
        call_ensures(run_command_checked, (Ok((text, status)),), checked),
    ensures
        output == Ok::<String, SshError>(text),
        status is None || status == Some(0u32) ==> checked == output,
        checked == output || (status matches Some(code) && code != 0 && checked == Err::<
            String,
            SshError,
        >(SshError::ExitStatus { code })),
{
}

/// A run that failed is reported as it failed, checked or not.
pub proof fn failed_run_keeps_its_error(error: SshError)
    ensures
        output_of(Err(error)) == Err::<String, SshError>(error),
        checked_output_of(Err(error)) == Err::<String, SshError>(error),
{
}

/// What to do next to open a file transfer channel.
#[derive(Debug, PartialEq, Eq)]
pub enum SftpAction {
    /// Open a session channel.
    OpenChannel,
    /// Ask the server for a subsystem on the channel.
    RequestSubsystem { want_reply: bool, name: String },
    /// Wait for the next message on the channel.
    AwaitAnswer,
    /// Hand the channel out as a stream.
    Stream,
}

/// A message on the channel, as far as the request for the subsystem is
/// concerned.
#[derive(Debug, PartialEq, Eq)]
pub enum SubsystemEvent {
    /// The server granted the request.
    Granted,
    /// The server refused the request, or closed the channel; with the text of
    /// the error.
    Refused(String),
    /// Any other message.
    Other,
}

/// Starts to open a file transfer channel.
pub fn open_sftp_channel() -> (action: SftpAction)
    ensures
        action == SftpAction::OpenChannel,
{
    SftpAction::OpenChannel
}

/// Whether `next` is what follows on opening the channel with `reply`.
pub open spec fn follows_sftp_channel(
    reply: Result<(), String>,
    next: Result<SftpAction, SshError>,
) -> bool {
    match reply {
        Ok(()) => next matches Ok(SftpAction::RequestSubsystem { want_reply, name }) && want_reply
            && name@ == "sftp"@,
        Err(cause) => next == Err::<SftpAction, _>(SshError::SftpChannelFailed { cause }),
    }
}

/// How it goes on after the request for the subsystem was sent, or could not be.
pub open spec fn after_sftp_request(reply: Result<(), String>) -> Result<SftpAction, SshError> {
    match reply {
        Ok(()) => Ok(SftpAction::AwaitAnswer),
        Err(cause) => Err(SshError::SftpRefused { cause }),
    }
}

/// How it goes on after a message on the channel.
pub open spec fn after_sftp_event(event: SubsystemEvent) -> Result<SftpAction, SshError> {
    match event {
        SubsystemEvent::Granted => Ok(SftpAction::Stream),
        SubsystemEvent::Refused(cause) => Err(SshError::SftpRefused { cause }),
        SubsystemEvent::Other => Ok(SftpAction::AwaitAnswer),
    }
}

/// Goes on after the channel was opened, or could not be: the server is asked
/// for the `sftp` subsystem.
pub fn sftp_channel_opened(reply: Result<(), String>) -> (next: Result<SftpAction, SshError>)
    ensures
        follows_sftp_channel(reply, next),
        match reply {
            Ok(()) => next matches Ok(SftpAction::RequestSubsystem { want_reply, name })
                && want_reply && name@ == "sftp"@,
            Err(cause) => next == Err::<SftpAction, SshError>(
                SshError::SftpChannelFailed { cause },
            ),
        },
{
    match reply {
        Ok(()) => Ok(SftpAction::RequestSubsystem { want_reply: true, name: "sftp".to_owned() }),
        Err(cause) => Err(SshError::SftpChannelFailed { cause }),
    }
}

/// Goes on after the request for the subsystem was sent, or could not be.
pub fn sftp_requested(reply: Result<(), String>) -> (next: Result<SftpAction, SshError>)
    ensures
        next == after_sftp_request(reply),
        match reply {
            Ok(()) => next == Ok::<SftpAction, SshError>(SftpAction::AwaitAnswer),
            Err(cause) => next == Err::<SftpAction, SshError>(SshError::SftpRefused { cause }),
        },
{
    match reply {
        Ok(()) => Ok(SftpAction::AwaitAnswer),
        Err(cause) => Err(SshError::SftpRefused { cause }),
    }
}

/// Goes on after a message on the channel: only a channel whose subsystem the
/// server granted is handed out.
pub fn sftp_answered(event: SubsystemEvent) -> (next: Result<SftpAction, SshError>)
    ensures
        next == after_sftp_event(event),
        match event {
            SubsystemEvent::Granted => next == Ok::<SftpAction, SshError>(SftpAction::Stream),
            SubsystemEvent::Refused(cause) => next == Err::<SftpAction, SshError>(
                SshError::SftpRefused { cause },
            ),
            SubsystemEvent::Other => next == Ok::<SftpAction, SshError>(SftpAction::AwaitAnswer),
        },
{
    match event {
        SubsystemEvent::Granted => Ok(SftpAction::Stream),
        SubsystemEvent::Refused(cause) => Err(SshError::SftpRefused { cause }),
        SubsystemEvent::Other => Ok(SftpAction::AwaitAnswer),
    }
}

/// What waiting for the server's answer comes to, given the messages on the
/// channel.
pub open spec fn sftp_answer(events: Seq<SubsystemEvent>) -> Result<SftpAction, SshError>
    decreases events.len(),
{
    if events.len() == 0 {
        Ok(SftpAction::AwaitAnswer)
    } else {
        match after_sftp_event(events[0]) {
            Ok(SftpAction::AwaitAnswer) => sftp_answer(events.skip(1)),
            next => next,
        }
    }
}

/// The channel is handed out exactly when the server granted the subsystem
/// before it refused it or closed the channel; the first of these decides.
pub proof fn sftp_needs_the_servers_grant(events: Seq<SubsystemEvent>, answer: int)
    requires
        0 <= answer < events.len(),
        !(events[answer] is Other),
        forall|i: int| 0 <= i < answer ==> #[trigger] events[i] is Other,
    ensures
        sftp_answer(events) == after_sftp_event(events[answer]),
        sftp_answer(events) == Ok::<SftpAction, SshError>(SftpAction::Stream)
            <==> events[answer] is Granted,
        events[answer] matches SubsystemEvent::Refused(cause) ==> sftp_answer(events) == Err::<
            SftpAction,
            SshError,
        >(SshError::SftpRefused { cause }),
    decreases events.len(),
{
    if answer > 0 {
        assert(events[0] is Other);
        assert forall|i: int| 0 <= i < answer - 1 implies #[trigger] events.skip(1)[i] is Other by {
            assert(events[i + 1] is Other);
        }
        sftp_needs_the_servers_grant(events.skip(1), answer - 1);
    }
}

/// The way to the server's answer: the channel is opened first, then the `sftp`
/// subsystem is asked for with a reply wanted, and then the answer is awaited. A
/// channel that could not be opened and a request that could not be sent are
/// errors of their own, with the cause they gave.
pub proof fn sftp_is_requested_in_order(
    opened: Result<(), String>,
    sent: Result<(), String>,
    start: SftpAction,
    request: Result<SftpAction, SshError>,
    wait: Result<SftpAction, SshError>,
)
    requires
        call_ensures(open_sftp_channel, (), start),
        call_ensures(sftp_channel_opened, (opened,), request),
        call_ensures(sftp_requested, (sent,), wait),
    ensures
        start == SftpAction::OpenChannel,
        opened is Ok ==> (request matches Ok(SftpAction::RequestSubsystem { want_reply, name })
            && want_reply && name@ == "sftp"@),
        opened matches Err(cause) ==> request == Err::<SftpAction, SshError>(
            SshError::SftpChannelFailed { cause },
        ),
        sent is Ok ==> wait == Ok::<SftpAction, SshError>(SftpAction::AwaitAnswer),
        sent matches Err(cause) ==> wait == Err::<SftpAction, SshError>(
            SshError::SftpRefused { cause },
        ),
{
}

} // verus!
