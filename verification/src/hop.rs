//! Connecting one hop: directly, or through a bastion that is connected already.

use vstd::prelude::*;
use vstd::string::*;

use crate::error::SshError;
use crate::host::{known_hosts_handler, Host, KnownHostsHandler};
use crate::text::decimal;

verus! {

/// Seconds that a hop may take to be connected, its handshake included. The
/// authentication is not counted.
pub const CONNECT_TIMEOUT_SECS: u64 = 10;

/// The same in milliseconds.
pub const CONNECT_TIMEOUT_MS: u64 = 10_000;

/// What came of a stage that is given only so much time.
#[derive(Debug, PartialEq, Eq)]
pub enum Reply {
    Done,
    TimedOut,
    /// The text of the error.
    Failed(String),
}

/// What to do next to connect a hop.
#[derive(Debug, PartialEq, Eq)]
pub enum HopAction {
    /// Connect to the address over TCP and perform the SSH handshake.
    Connect { address: String, handler: KnownHostsHandler, timeout_ms: u64 },
    /// Have the bastion open a channel to the hop.
    OpenTunnel {
        hostname: String,
        port: u32,
        originator: String,
        originator_port: u32,
        timeout_ms: u64,
    },
    /// Perform the SSH handshake over the channel that was opened.
    Handshake { handler: KnownHostsHandler, timeout_ms: u64 },
    /// Authenticate on the connection.
    Authenticate,
}

/// The stage that a reply is about.
#[derive(Clone, Copy, Debug, PartialEq, Eq)]
pub enum HopStage {
    /// Opening the channel to the hop on its bastion.
    Tunnel,
    /// The SSH handshake, with the TCP connection where there is no tunnel.
    Session,
}

/// The host-key verifier of a connection to `host`.
pub open spec fn handler_of(host: Host) -> KnownHostsHandler {
    KnownHostsHandler { host: host.hostname, port: host.port }
}

/// Whether `action` starts a direct connection to `host`, with the whole time of
/// a hop.
pub open spec fn starts_direct(host: Host, action: HopAction) -> bool {
    action matches HopAction::Connect { address, handler, timeout_ms } && address@
        == host.address_text() && handler == handler_of(host) && timeout_ms == CONNECT_TIMEOUT_MS
}

/// Whether `action` starts a connection to `host` through a bastion, with the
/// whole time of a hop.
pub open spec fn starts_tunnelled(host: Host, action: HopAction) -> bool {
    action matches HopAction::OpenTunnel {
        hostname,
        port,
        originator,
        originator_port,
        timeout_ms,
    } && hostname == host.hostname && port == host.port && originator@ == "127.0.0.1"@
        && originator_port == 0 && timeout_ms == CONNECT_TIMEOUT_MS
}

/// Starts to connect `host` directly.
pub fn connect_direct(host: &Host) -> (action: HopAction)
    ensures
        starts_direct(*host, action),
        action matches HopAction::Connect { address, handler, timeout_ms } && address@
            == host.hostname@ + ":"@ + decimal(host.port as nat) && handler.host@
            == host.hostname@ && handler.port == host.port && timeout_ms == 10_000,
{
    HopAction::Connect {
        address: host.address(),
        handler: known_hosts_handler(host),
        timeout_ms: CONNECT_TIMEOUT_MS,
    }
}

/// Starts to connect `host` through a bastion: its channel carries a second SSH
/// session, which is verified and authenticated in its own right. The
/// originator is the loopback, as servers only log it.
pub fn connect_tunnelled(host: &Host) -> (action: HopAction)
    ensures
        starts_tunnelled(*host, action),
        action matches HopAction::OpenTunnel {
            hostname,
            port,
            originator,
            originator_port,
            timeout_ms,
        } && hostname@ == host.hostname@ && port == host.port && originator@ == "127.0.0.1"@
            && originator_port == 0 && timeout_ms == 10_000,
{
    HopAction::OpenTunnel {
        hostname: host.hostname.clone(),
        port: host.port as u32,
        originator: "127.0.0.1".to_owned(),
        originator_port: 0,
        timeout_ms: CONNECT_TIMEOUT_MS,
    }
}

/// A request to open a tunnel names the hostname and the port of the host itself,
/// whatever else is configured for it, and is granted the whole time of a hop.
pub proof fn tunnel_leads_to_the_host(host: Host, action: HopAction)
    ensures
        starts_tunnelled(host, action) ==> (action matches HopAction::OpenTunnel {
            hostname,
            port,
            originator,
            originator_port,
            timeout_ms,
        } && hostname@ == host.hostname@ && port == host.port && originator@ == "127.0.0.1"@
            && originator_port == 0 && timeout_ms == 10_000),
{
}

/// A direct connection goes to the hostname and the port of the host itself,
/// checks the key under both, and is granted the whole time of a hop.
pub proof fn direct_connection_leads_to_the_host(host: Host, action: HopAction)
    ensures
        starts_direct(host, action) ==> (action matches HopAction::Connect {
            address,
            handler,
            timeout_ms,
        } && address@ == host.hostname@ + ":"@ + decimal(host.port as nat) && handler.host@
            == host.hostname@ && handler.port == host.port && timeout_ms == 10_000),
{
}

/// The hostname and the port are all that connecting a host depends on: two
/// hosts that agree in both are connected by the same requests, directly and
/// through a tunnel, and go on in the same way after every reply.
pub proof fn same_address_same_requests(
    host: Host,
    other: Host,
    action: HopAction,
    stage: HopStage,
    reply: Reply,
    spent_ms: u64,
)
    requires
        host.hostname == other.hostname,
        host.port == other.port,
    ensures
        starts_direct(host, action) == starts_direct(other, action),
        starts_tunnelled(host, action) == starts_tunnelled(other, action),
        after_stage(host, stage, reply, spent_ms) == after_stage(other, stage, reply, spent_ms),
{
}

/// Two hosts with the same hostname and port are asked for by the same request,
/// whatever their names, users, keys, passwords and bastions are.
pub proof fn same_address_same_tunnel(
    host: &Host,
    other: &Host,
    request: HopAction,
    other_request: HopAction,
)
    requires
        host.hostname@ == other.hostname@,
        host.port == other.port,
        call_ensures(connect_tunnelled, (host,), request),
        call_ensures(connect_tunnelled, (other,), other_request),
    ensures
        request is OpenTunnel && other_request is OpenTunnel,
        request->OpenTunnel_hostname@ == host.hostname@,
        request->OpenTunnel_port == host.port,
        request->OpenTunnel_hostname@ == other_request->OpenTunnel_hostname@,
        request->OpenTunnel_port == other_request->OpenTunnel_port,
        request->originator@ == other_request->originator@,
        request->originator_port == other_request->originator_port,
        granted_ms(request) == granted_ms(other_request),
{
}

/// A tunnel leads to one host only: a request that starts the connection to two
/// hosts finds them at the same hostname and port.
pub proof fn tunnel_tells_hosts_apart(host: Host, other: Host, action: HopAction)
    requires
        starts_tunnelled(host, action),
        starts_tunnelled(other, action),
    ensures
        host.hostname@ == other.hostname@,
        host.port == other.port,
{
}

/// How connecting `host` goes on after a stage, when `spent_ms` milliseconds
/// have passed since the hop was begun. All stages share the time of one hop:
/// the handshake is granted what the tunnel left of it.
pub open spec fn after_stage(host: Host, stage: HopStage, reply: Reply, spent_ms: u64) -> Result<
    HopAction,
    SshError,
> {
    match (stage, reply) {
        (_, Reply::TimedOut) => Err(SshError::ConnectTimedOut),
        (HopStage::Tunnel, Reply::Failed(cause)) => Err(
            SshError::TunnelFailed { hostname: host.hostname, port: host.port, cause },
        ),
        (HopStage::Session, Reply::Failed(cause)) => Err(SshError::ConnectFailed { cause }),
        (HopStage::Tunnel, Reply::Done) => if spent_ms < CONNECT_TIMEOUT_MS {
            Ok(
                HopAction::Handshake {
                    handler: handler_of(host),
                    timeout_ms: (CONNECT_TIMEOUT_MS - spent_ms) as u64,
                },
            )
        } else {
            Err(SshError::ConnectTimedOut)
        },
        (HopStage::Session, Reply::Done) => if spent_ms <= CONNECT_TIMEOUT_MS {
            Ok(HopAction::Authenticate)
        } else {
            Err(SshError::ConnectTimedOut)
        },
    }
}

/// Goes on after a stage of connecting `host`, when `spent_ms` milliseconds have
/// passed since the hop was begun.
pub fn stage_finished(host: &Host, stage: HopStage, reply: Reply, spent_ms: u64) -> (next: Result<
    HopAction,
    SshError,
>)
    ensures
        next == after_stage(*host, stage, reply, spent_ms),
        reply is TimedOut ==> next == Err::<HopAction, SshError>(SshError::ConnectTimedOut),
        reply matches Reply::Failed(cause) ==> next == Err::<HopAction, SshError>(
            match stage {
                HopStage::Tunnel => SshError::TunnelFailed {
                    hostname: host.hostname,
                    port: host.port,
                    cause,
                },
                HopStage::Session => SshError::ConnectFailed { cause },
            },
        ),
        reply is Done && stage is Tunnel && spent_ms < 10_000 ==> (next matches Ok(
            HopAction::Handshake { handler, timeout_ms },
        ) && handler.host@ == host.hostname@ && handler.port == host.port && spent_ms + timeout_ms
            == 10_000),
        reply is Done && stage is Tunnel && spent_ms >= 10_000 ==> next == Err::<
            HopAction,
            SshError,
        >(SshError::ConnectTimedOut),
        reply is Done && stage is Session && spent_ms <= 10_000 ==> next == Ok::<
            HopAction,
            SshError,
        >(HopAction::Authenticate),
        reply is Done && stage is Session && spent_ms > 10_000 ==> next == Err::<
            HopAction,
            SshError,
        >(SshError::ConnectTimedOut),
{
    match reply {
        Reply::TimedOut => Err(SshError::ConnectTimedOut),
        Reply::Done => match stage {
            HopStage::Tunnel => {
                if spent_ms < CONNECT_TIMEOUT_MS {
                    Ok(
                        HopAction::Handshake {
                            handler: known_hosts_handler(host),
                            timeout_ms: CONNECT_TIMEOUT_MS - spent_ms,
                        },
                    )
                } else {
                    Err(SshError::ConnectTimedOut)
                }
            },
            HopStage::Session => {
                if spent_ms <= CONNECT_TIMEOUT_MS {
                    Ok(HopAction::Authenticate)
                } else {
                    Err(SshError::ConnectTimedOut)
                }
            },
        },
        Reply::Failed(cause) => match stage {
            HopStage::Tunnel => Err(
                SshError::TunnelFailed { hostname: host.hostname.clone(), port: host.port, cause },
            ),
            HopStage::Session => Err(SshError::ConnectFailed { cause }),
        },
    }
}

/// How connecting `host` ends: a refusal is an error.
pub open spec fn after_authentication(host: Host, accepted: bool) -> Result<(), SshError> {
    if accepted {
        Ok(())
    } else {
        Err(SshError::AuthenticationFailed { name: host.name })
    }
}

/// Ends connecting `host`, converting a refusal into an error.
pub fn finish_auth(host: &Host, accepted: bool) -> (result: Result<(), SshError>)
    ensures
        result == after_authentication(*host, accepted),
        accepted ==> result == Ok::<(), SshError>(()),
        !accepted ==> result == Err::<(), SshError>(
            SshError::AuthenticationFailed { name: host.name },
        ),
{
    if !accepted {
        return Err(SshError::AuthenticationFailed { name: host.name.clone() });
    }
    Ok(())
}

/// The stage that `action` performs; none for the authentication.
pub open spec fn stage_of(action: HopAction) -> Option<HopStage> {
    match action {
        HopAction::OpenTunnel { .. } => Some(HopStage::Tunnel),
        HopAction::Connect { .. } => Some(HopStage::Session),
        HopAction::Handshake { .. } => Some(HopStage::Session),
        HopAction::Authenticate => None,
    }
}

/// The milliseconds that `action` is granted.
pub open spec fn granted_ms(action: HopAction) -> u64 {
    match action {
        HopAction::OpenTunnel { timeout_ms, .. } => timeout_ms,
        HopAction::Connect { timeout_ms, .. } => timeout_ms,
        HopAction::Handshake { timeout_ms, .. } => timeout_ms,
        HopAction::Authenticate => 0,
    }
}

/// What comes of the stages of a hop: the reply of each, with the milliseconds
/// since the hop was begun, and whether the authentication is accepted.
pub ghost struct HopReplies {
    pub tunnel: Reply,
    pub tunnel_ms: u64,
    pub session: Reply,
    pub session_ms: u64,
    pub accepted: bool,
}

/// How connecting `host` goes on after `stage`, given what comes of it.
pub open spec fn after_reply(host: Host, stage: HopStage, replies: HopReplies) -> Result<
    HopAction,
    SshError,
> {
    match stage {
        HopStage::Tunnel => after_stage(host, stage, replies.tunnel, replies.tunnel_ms),
        HopStage::Session => after_stage(host, stage, replies.session, replies.session_ms),
    }
}

/// The number of stages from `action` on.
pub open spec fn stages_left(action: HopAction) -> nat {
    match stage_of(action) {
        Some(HopStage::Tunnel) => 2,
        Some(HopStage::Session) => 1,
        None => 0,
    }
}

/// What connecting `host` comes to from `action` on.
pub open spec fn hop_result(host: Host, action: HopAction, replies: HopReplies) -> Result<
    (),
    SshError,
>
    decreases stages_left(action),
{
    match stage_of(action) {
        None => after_authentication(host, replies.accepted),
        Some(stage) => match after_reply(host, stage, replies) {
            Err(error) => Err(error),
            Ok(next) => hop_result(host, next, replies),
        },
    }
}

/// A hop counts as connected only when its tunnel, if it needs one, its
/// handshake and its authentication all succeeded, and the first two within the
/// time of one hop; otherwise the first of these that did not is what is
/// reported. A tunnelled hop is verified and authenticated as a direct one is.
pub proof fn hop_reports_first_failure(host: Host, action: HopAction, replies: HopReplies)
    requires
        action is Connect || action is OpenTunnel,
    ensures
        hop_result(host, action, replies) == (if action is OpenTunnel && replies.tunnel is Failed {
            Err(
                SshError::TunnelFailed {
                    hostname: host.hostname,
                    port: host.port,
                    cause: replies.tunnel->Failed_0,
                },
            )
        } else if action is OpenTunnel && (replies.tunnel is TimedOut || replies.tunnel_ms
            >= CONNECT_TIMEOUT_MS) {
            Err(SshError::ConnectTimedOut)
        } else if replies.session is Failed {
            Err(SshError::ConnectFailed { cause: replies.session->Failed_0 })
        } else if replies.session is TimedOut || replies.session_ms > CONNECT_TIMEOUT_MS {
            Err(SshError::ConnectTimedOut)
        } else if !replies.accepted {
            Err(SshError::AuthenticationFailed { name: host.name })
        } else {
            Ok(())
        }),
{
    reveal_with_fuel(hop_result, 3);
}

/// A hop that is connected took no longer than the time of one hop, tunnel and
/// handshake together.
pub proof fn connected_hop_is_in_time(host: Host, action: HopAction, replies: HopReplies)
    requires
        action is Connect || action is OpenTunnel,
        hop_result(host, action, replies) is Ok,
    ensures
        replies.session_ms <= CONNECT_TIMEOUT_MS,
{
    hop_reports_first_failure(host, action, replies);
}

/// Whatever was spent of a hop's time, no more than the rest is granted.
pub proof fn spent_and_granted_fit_one_hop(
    host: Host,
    stage: HopStage,
    reply: Reply,
    spent_ms: u64,
)
    ensures
        after_stage(host, stage, reply, spent_ms) matches Ok(next) ==> spent_ms + granted_ms(next)
            <= CONNECT_TIMEOUT_MS,
{
}

/// The latest moment, in milliseconds since the hop was begun, at which the last
/// of its stages ends, when `action` is begun after `begun_ms`.
pub open spec fn latest_end_ms(
    host: Host,
    action: HopAction,
    begun_ms: u64,
    replies: HopReplies,
) -> int
    decreases stages_left(action),
{
    let end = begun_ms + granted_ms(action);
    match stage_of(action) {
        None => end,
        Some(stage) => match after_reply(host, stage, replies) {
            Err(_) => end,
            Ok(next) => {
                let spent_ms = match stage {
                    HopStage::Tunnel => replies.tunnel_ms,
                    HopStage::Session => replies.session_ms,
                };
                latest_end_ms(host, next, spent_ms, replies)
            },
        },
    }
}

/// All the time that a hop is granted ends within the time of one hop, whatever
/// its stages take of it.
pub proof fn hop_ends_in_time(host: Host, action: HopAction, replies: HopReplies)
    requires
        starts_direct(host, action) || starts_tunnelled(host, action),
    ensures
        latest_end_ms(host, action, 0, replies) <= CONNECT_TIMEOUT_MS,
{
    reveal_with_fuel(latest_end_ms, 3);
}

} // verus!
