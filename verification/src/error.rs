//! The errors of a session, and the text each is reported with.

use vstd::prelude::*;
use vstd::string::*;

use crate::text::append_decimal;

verus! {

/// What went wrong in connecting, authenticating or running a command.
///
/// A `cause` is the text of the error that the failed operation gave.
#[derive(Debug, PartialEq, Eq)]
pub enum SshError {
    /// Connecting a hop took longer than the connect timeout.
    ConnectTimedOut,
    /// The TCP connection or the SSH handshake failed.
    ConnectFailed { cause: String },
    /// A bastion could not open the tunnel to the next hop.
    TunnelFailed { hostname: String, port: u16, cause: String },
    /// No authentication method was accepted by the named host.
    AuthenticationFailed { name: String },
    /// The named bastion could not be connected.
    ProxyJumpFailed { hop: String, error: Box<SshError> },
    /// The target could not be connected through the named bastion.
    ConnectViaFailed { hop: String, error: Box<SshError> },
    /// Loading the host list panicked.
    HostListPanicked { cause: String },
    /// The host list could not be loaded.
    HostListFailed { cause: String },
    /// The jump chain could not be resolved; `cause` is the whole report.
    ChainUnresolved { cause: String },
    /// The SSH agent could not be reached.
    AgentUnreachable { cause: String },
    /// The SSH agent did not list its identities.
    AgentSilent { cause: String },
    /// Loading a key file panicked.
    KeyLoadPanicked { cause: String },
    /// A key file could not be loaded.
    KeyLoadFailed { path: String, cause: String },
    /// The public key request failed.
    PublicKeyFailed { cause: String },
    /// The password request failed.
    PasswordFailed { cause: String },
    /// The channel for a command could not be opened.
    ChannelFailed { cause: String },
    /// The command could not be sent.
    ExecFailed { cause: String },
    /// The command ran longer than the command timeout.
    CommandTimedOut { command: String },
    /// The command exited with a status other than zero.
    ExitStatus { code: u32 },
    /// The channel for file transfer could not be opened.
    SftpChannelFailed { cause: String },
    /// The file transfer subsystem could not be requested, or the server refused
    /// it.
    SftpRefused { cause: String },
}

impl SshError {
    /// The text of the error that the failed operation gave, where the message
    /// does not hold it already.
    pub open spec fn cause_text(self) -> Option<Seq<char>> {
        match self {
            SshError::ConnectFailed { cause } => Some(cause@),
            SshError::TunnelFailed { hostname: _, port: _, cause } => Some(cause@),
            SshError::HostListPanicked { cause } => Some(cause@),
            SshError::AgentUnreachable { cause } => Some(cause@),
            SshError::AgentSilent { cause } => Some(cause@),
            SshError::KeyLoadPanicked { cause } => Some(cause@),
            SshError::KeyLoadFailed { path: _, cause } => Some(cause@),
            SshError::PublicKeyFailed { cause } => Some(cause@),
            SshError::PasswordFailed { cause } => Some(cause@),
            SshError::ChannelFailed { cause } => Some(cause@),
            SshError::ExecFailed { cause } => Some(cause@),
            SshError::SftpChannelFailed { cause } => Some(cause@),
            SshError::SftpRefused { cause } => Some(cause@),
            _ => None,
        }
    }

    /// What the session says of the error, without the cause.
    pub open spec fn message_text(self) -> Seq<char>
        decreases self, 0nat,
    {
        match self {
            SshError::ConnectTimedOut => "SSH connection timed out (10 s)"@,
            SshError::ConnectFailed { cause: _ } => "SSH connection failed"@,
            SshError::TunnelFailed { hostname, port, cause: _ } => "open tunnel to "@ + hostname@
                + ":"@ + crate::text::decimal(port as nat),
            SshError::AuthenticationFailed { name } => "SSH authentication failed for "@ + name@,
            SshError::ProxyJumpFailed { hop, error } => "ProxyJump via '"@ + hop@ + "' failed: "@
                + error.full_text(),
            SshError::ConnectViaFailed { hop, error } => "connecting via '"@ + hop@ + "' failed: "@
                + error.full_text(),
            SshError::HostListPanicked { cause: _ } => "host list load panicked"@,
            SshError::HostListFailed { cause } =>
                "could not load hosts for ProxyJump resolution: "@ + cause@,
            SshError::ChainUnresolved { cause } => cause@,
            SshError::AgentUnreachable { cause: _ } => "connect to SSH agent"@,
            SshError::AgentSilent { cause: _ } => "request agent identities"@,
            SshError::KeyLoadPanicked { cause: _ } => "spawn_blocking panicked"@,
            SshError::KeyLoadFailed { path, cause: _ } => "load key from "@ + path@,
            SshError::PublicKeyFailed { cause: _ } => "authenticate_publickey"@,
            SshError::PasswordFailed { cause: _ } => "authenticate with password"@,
            SshError::ChannelFailed { cause: _ } => "open SSH channel"@,
            SshError::ExecFailed { cause: _ } => "exec SSH command"@,
            SshError::CommandTimedOut { command } => "command timed out (30 s): "@ + command@,
            SshError::ExitStatus { code } => "remote command exited with status "@
                + crate::text::decimal(code as nat),
            SshError::SftpChannelFailed { cause: _ } => "open SFTP session channel"@,
            SshError::SftpRefused { cause: _ } => "request SFTP subsystem"@,
        }
    }

    /// The message, and after a colon the cause where there is one.
    pub open spec fn full_text(self) -> Seq<char>
        decreases self, 1nat,
    {
        match self.cause_text() {
            Some(cause) => self.message_text() + ": "@ + cause,
            None => self.message_text(),
        }
    }

    /// The text of the error that the failed operation gave, where the message
    /// does not hold it already.
    pub fn cause(&self) -> (cause: Option<String>)
        ensures
            match (cause, self.cause_text()) {
                (Some(cause), Some(text)) => cause@ == text,
                (None, None) => true,
                _ => false,
            },
    {
        match self {
            SshError::ConnectFailed { cause } => Some(cause.clone()),
            SshError::TunnelFailed { hostname: _, port: _, cause } => Some(cause.clone()),
            SshError::HostListPanicked { cause } => Some(cause.clone()),
            SshError::AgentUnreachable { cause } => Some(cause.clone()),
            SshError::AgentSilent { cause } => Some(cause.clone()),
            SshError::KeyLoadPanicked { cause } => Some(cause.clone()),
            SshError::KeyLoadFailed { path: _, cause } => Some(cause.clone()),
            SshError::PublicKeyFailed { cause } => Some(cause.clone()),
            SshError::PasswordFailed { cause } => Some(cause.clone()),
            SshError::ChannelFailed { cause } => Some(cause.clone()),
            SshError::ExecFailed { cause } => Some(cause.clone()),
            SshError::SftpChannelFailed { cause } => Some(cause.clone()),
            SshError::SftpRefused { cause } => Some(cause.clone()),
            _ => None,
        }
    }

    /// What the session says of the error, without the cause.
    pub fn message(&self) -> (text: String)
        ensures
            text@ == self.message_text(),
        decreases self, 0nat,
    {
        match self {
            SshError::ConnectTimedOut => "SSH connection timed out (10 s)".to_owned(),
            SshError::ConnectFailed { cause: _ } => "SSH connection failed".to_owned(),
            SshError::TunnelFailed { hostname, port, cause: _ } => {
                let mut text = "open tunnel to ".to_owned();
                text.append(hostname.as_str());
                text.append(":");
                append_decimal(&mut text, *port as u32);
                text
            },
            SshError::AuthenticationFailed { name } => {
                let mut text = "SSH authentication failed for ".to_owned();
                text.append(name.as_str());
                text
            },
            SshError::ProxyJumpFailed { hop, error } => {
                let mut text = "ProxyJump via '".to_owned();
                text.append(hop.as_str());
                text.append("' failed: ");
                text.append(error.full().as_str());
                text
            },
            SshError::ConnectViaFailed { hop, error } => {
                let mut text = "connecting via '".to_owned();
                text.append(hop.as_str());
                text.append("' failed: ");
                text.append(error.full().as_str());
                text
            },
            SshError::HostListPanicked { cause: _ } => "host list load panicked".to_owned(),
            SshError::HostListFailed { cause } => {
                let mut text = "could not load hosts for ProxyJump resolution: ".to_owned();
                text.append(cause.as_str());
                text
            },
            SshError::ChainUnresolved { cause } => cause.clone(),
            SshError::AgentUnreachable { cause: _ } => "connect to SSH agent".to_owned(),
            SshError::AgentSilent { cause: _ } => "request agent identities".to_owned(),
            SshError::KeyLoadPanicked { cause: _ } => "spawn_blocking panicked".to_owned(),
            SshError::KeyLoadFailed { path, cause: _ } => {
                let mut text = "load key from ".to_owned();
                text.append(path.as_str());
                text
            },
            SshError::PublicKeyFailed { cause: _ } => "authenticate_publickey".to_owned(),
            SshError::PasswordFailed { cause: _ } => "authenticate with password".to_owned(),
            SshError::ChannelFailed { cause: _ } => "open SSH channel".to_owned(),
            SshError::ExecFailed { cause: _ } => "exec SSH command".to_owned(),
            SshError::CommandTimedOut { command } => {
                let mut text = "command timed out (30 s): ".to_owned();
                text.append(command.as_str());
                text
            },
            SshError::ExitStatus { code } => {
                let mut text = "remote command exited with status ".to_owned();
                append_decimal(&mut text, *code);
                text
            },
            SshError::SftpChannelFailed { cause: _ } => "open SFTP session channel".to_owned(),
            SshError::SftpRefused { cause: _ } => "request SFTP subsystem".to_owned(),
        }
    }

    /// The message, and after a colon the cause where there is one.
    pub fn full(&self) -> (text: String)
        ensures
            text@ == self.full_text(),
        decreases self, 1nat,
    {
        let mut text = self.message();
        if let Some(cause) = self.cause() {
            text.append(": ");
            text.append(cause.as_str());
        }
        text
    }
}

/// Every error is reported by its message, followed after a colon by its cause
/// where it has one. So the text of what failed is at the end of the report, whole.
pub proof fn report_ends_in_the_cause(error: SshError)
    ensures
        error.cause_text() is None ==> error.full_text() == error.message_text(),
        error.cause_text() matches Some(cause) ==> error.full_text() == error.message_text() + ": "@
            + cause,
{
}

/// An error that holds another one, of a bastion that was not connected or was
/// connected in vain, reports it whole after the name of the bastion.
pub proof fn wrapped_error_is_reported_whole(hop: String, error: Box<SshError>)
    ensures
        (SshError::ProxyJumpFailed { hop, error }).full_text() == "ProxyJump via '"@ + hop@
            + "' failed: "@ + error.full_text(),
        (SshError::ConnectViaFailed { hop, error }).full_text() == "connecting via '"@ + hop@
            + "' failed: "@ + error.full_text(),
        (SshError::ProxyJumpFailed { hop, error }).cause_text() is None,
        (SshError::ConnectViaFailed { hop, error }).cause_text() is None,
{
    let jump = SshError::ProxyJumpFailed { hop, error };
    let via = SshError::ConnectViaFailed { hop, error };
    assert(jump.full_text() == jump.message_text());
    assert(via.full_text() == via.message_text());
}

/// The wording of the errors of connecting and of finding the bastions.
pub proof fn connect_errors_read(hostname: String, port: u16, name: String, cause: String)
    ensures
        SshError::ConnectTimedOut.full_text() == "SSH connection timed out (10 s)"@,
        (SshError::ConnectFailed { cause }).full_text() == "SSH connection failed"@ + ": "@ + cause@,
        (SshError::TunnelFailed { hostname, port, cause }).full_text() == "open tunnel to "@
            + hostname@ + ":"@ + crate::text::decimal(port as nat) + ": "@ + cause@,
        (SshError::AuthenticationFailed { name }).full_text() == "SSH authentication failed for "@
            + name@,
        (SshError::HostListPanicked { cause }).full_text() == "host list load panicked"@ + ": "@
            + cause@,
        (SshError::HostListFailed { cause }).full_text()
            == "could not load hosts for ProxyJump resolution: "@ + cause@,
        (SshError::ChainUnresolved { cause }).full_text() == cause@,
{
}

/// The wording of the errors of authenticating.
pub proof fn authentication_errors_read(path: String, cause: String)
    ensures
        (SshError::AgentUnreachable { cause }).full_text() == "connect to SSH agent"@ + ": "@
            + cause@,
        (SshError::AgentSilent { cause }).full_text() == "request agent identities"@ + ": "@
            + cause@,
        (SshError::KeyLoadPanicked { cause }).full_text() == "spawn_blocking panicked"@ + ": "@
            + cause@,
        (SshError::KeyLoadFailed { path, cause }).full_text() == "load key from "@ + path@ + ": "@
            + cause@,
        (SshError::PublicKeyFailed { cause }).full_text() == "authenticate_publickey"@ + ": "@
            + cause@,
        (SshError::PasswordFailed { cause }).full_text() == "authenticate with password"@ + ": "@
            + cause@,
{
}

/// The wording of the errors of running a command and of file transfer.
pub proof fn command_errors_read(command: String, code: u32, cause: String)
    ensures
        (SshError::ChannelFailed { cause }).full_text() == "open SSH channel"@ + ": "@ + cause@,
        (SshError::ExecFailed { cause }).full_text() == "exec SSH command"@ + ": "@ + cause@,
        (SshError::CommandTimedOut { command }).full_text() == "command timed out (30 s): "@
            + command@,
        (SshError::ExitStatus { code }).full_text() == "remote command exited with status "@
            + crate::text::decimal(code as nat),
        (SshError::SftpChannelFailed { cause }).full_text() == "open SFTP session channel"@ + ": "@
            + cause@,
        (SshError::SftpRefused { cause }).full_text() == "request SFTP subsystem"@ + ": "@ + cause@,
{
}

/// Which errors hold their cause apart from the message: those of an operation
/// that gave an error text of its own.
pub proof fn causes_are_kept(error: SshError)
    ensures
        match error {
            SshError::ConnectFailed { cause } | SshError::TunnelFailed { cause, .. }
            | SshError::HostListPanicked { cause } | SshError::AgentUnreachable { cause }
            | SshError::AgentSilent { cause } | SshError::KeyLoadPanicked { cause }
            | SshError::KeyLoadFailed { cause, .. } | SshError::PublicKeyFailed { cause }
            | SshError::PasswordFailed { cause } | SshError::ChannelFailed { cause }
            | SshError::ExecFailed { cause } | SshError::SftpChannelFailed { cause }
            | SshError::SftpRefused { cause } => error.cause_text() == Some(cause@),
            SshError::ConnectTimedOut | SshError::AuthenticationFailed { .. }
            | SshError::ProxyJumpFailed { .. } | SshError::ConnectViaFailed { .. }
            | SshError::HostListFailed { .. } | SshError::ChainUnresolved { .. }
            | SshError::CommandTimedOut { .. } | SshError::ExitStatus { .. } =>
                error.cause_text() is None,
        },
{
}

} // verus!
