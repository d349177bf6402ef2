use omnyssh_core::command::{
    open_sftp_channel, run_command, run_command_checked, sftp_answered, sftp_channel_opened,
    sftp_requested, CommandRun, ExecAction, SftpAction, SubsystemEvent,
};
use omnyssh_core::error::SshError;

fn uptime() -> CommandRun {
    CommandRun { command: "uptime".to_string() }
}

#[test]
fn command_runs_on_its_own_channel() {
    let run = uptime();
    assert_eq!(run.exec(), ExecAction::OpenChannel);
    assert_eq!(
        run.channel_opened(Ok(())),
        Ok(ExecAction::Exec { want_reply: true, command: "uptime".to_string() })
    );
    assert_eq!(run.exec_sent(Ok(())), Ok(ExecAction::Collect { timeout_secs: 30 }));
    let output = ("up 3 days\n".to_string(), Some(0));
    assert_eq!(run.output_collected(Some(output.clone())), Ok(output));
}

#[test]
fn command_failures_are_reported() {
    let run = uptime();
    let error = run.channel_opened(Err("gone".to_string())).unwrap_err();
    assert_eq!(error, SshError::ChannelFailed { cause: "gone".to_string() });
    assert_eq!(error.full(), "open SSH channel: gone");
    let error = run.exec_sent(Err("gone".to_string())).unwrap_err();
    assert_eq!(error, SshError::ExecFailed { cause: "gone".to_string() });
    assert_eq!(error.full(), "exec SSH command: gone");
    let error = run.output_collected(None).unwrap_err();
    assert_eq!(error, SshError::CommandTimedOut { command: "uptime".to_string() });
    assert_eq!(error.full(), "command timed out (30 s): uptime");
}

#[test]
fn plain_run_ignores_the_exit_status() {
    assert_eq!(run_command(Ok(("out\n".to_string(), Some(3)))), Ok("out\n".to_string()));
    assert_eq!(run_command(Ok(("out\n".to_string(), None))), Ok("out\n".to_string()));
    assert_eq!(
        run_command(Err(SshError::ExecFailed { cause: "x".to_string() })),
        Err(SshError::ExecFailed { cause: "x".to_string() })
    );
}

#[test]
fn checked_run_fails_on_nonzero_status_only() {
    assert_eq!(run_command_checked(Ok(("out\n".to_string(), Some(0)))), Ok("out\n".to_string()));
    assert_eq!(run_command_checked(Ok(("out\n".to_string(), None))), Ok("out\n".to_string()));
    let error = run_command_checked(Ok(("out\n".to_string(), Some(127)))).unwrap_err();
    assert_eq!(error, SshError::ExitStatus { code: 127 });
    assert_eq!(error.message(), "remote command exited with status 127");
    assert_eq!(
        run_command_checked(Err(SshError::ExecFailed { cause: "x".to_string() })),
        Err(SshError::ExecFailed { cause: "x".to_string() })
    );
}

#[test]
fn sftp_channel_is_handed_out_once_granted() {
    assert_eq!(open_sftp_channel(), SftpAction::OpenChannel);
    assert_eq!(
        sftp_channel_opened(Ok(())),
        Ok(SftpAction::RequestSubsystem { want_reply: true, name: "sftp".to_string() })
    );
    assert_eq!(sftp_requested(Ok(())), Ok(SftpAction::AwaitAnswer));
    assert_eq!(sftp_answered(SubsystemEvent::Other), Ok(SftpAction::AwaitAnswer));
    assert_eq!(sftp_answered(SubsystemEvent::Granted), Ok(SftpAction::Stream));
}

#[test]
fn sftp_failures_are_reported() {
    let error = sftp_channel_opened(Err("closed".to_string())).unwrap_err();
    assert_eq!(error.full(), "open SFTP session channel: closed");
    let error = sftp_requested(Err("denied".to_string())).unwrap_err();
    assert_eq!(error.full(), "request SFTP subsystem: denied");
    let error = sftp_answered(SubsystemEvent::Refused("no sftp".to_string())).unwrap_err();
    assert_eq!(error, SshError::SftpRefused { cause: "no sftp".to_string() });
    assert_eq!(error.full(), "request SFTP subsystem: no sftp");
}

#[test]
fn every_run_opens_a_channel_of_its_own() {
    let mut opened = 0;
    let replies = [
        (Ok(()), Ok(())),
        (Err("gone".to_string()), Ok(())),
        (Ok(()), Err("gone".to_string())),
    ];
    for (channel, sent) in replies {
        let run = uptime();
        let mut action = Ok(run.exec());
        let (mut channel, mut sent) = (Some(channel), Some(sent));
        while let Ok(next) = action {
            action = match next {
                ExecAction::OpenChannel => {
                    opened += 1;
                    run.channel_opened(channel.take().unwrap())
                }
                ExecAction::Exec { .. } => run.exec_sent(sent.take().unwrap()),
                ExecAction::Collect { .. } => break,
            };
        }
    }
    assert_eq!(opened, 3);
}
