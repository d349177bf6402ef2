use omnyssh_core::error::SshError;
use omnyssh_core::hop::{
    connect_direct, connect_tunnelled, finish_auth, stage_finished, HopAction, HopStage, Reply,
};
use omnyssh_core::host::{known_hosts_handler, Host, KnownHostsHandler};
use omnyssh_core::known_hosts::{KeyAction, KeyLookup};
use omnyssh_core::route::{
    chain_resolved, connect_and_auth, connect_budget, hosts_loaded, jump_chain, ChainAction,
    HostList, Leg, LegEnd,
};

fn host(name: &str, port: u16) -> Host {
    Host {
        name: name.to_string(),
        hostname: format!("{}.example.org", name),
        port,
        user: "ada".to_string(),
        identity_file: None,
        password: None,
        proxy_jump: None,
    }
}

fn handler() -> KnownHostsHandler {
    known_hosts_handler(&host("web", 2222))
}

#[test]
fn keys_are_looked_up_under_the_hosts_own_name() {
    assert_eq!(
        handler(),
        KnownHostsHandler { host: "web.example.org".to_string(), port: 2222 }
    );
    assert_eq!(
        handler().check_server_key(),
        KeyAction::LookUp { host: "web.example.org".to_string(), port: 2222 }
    );
}

#[test]
fn known_key_is_accepted() {
    assert_eq!(handler().key_looked_up(KeyLookup::Known), KeyAction::Accept);
}

#[test]
fn unknown_key_is_recorded_and_accepted() {
    assert_eq!(
        handler().key_looked_up(KeyLookup::Unknown),
        KeyAction::Record { host: "web.example.org".to_string(), port: 2222 }
    );
    assert_eq!(handler().key_recorded(true), KeyAction::Accept);
    assert_eq!(handler().key_recorded(false), KeyAction::Accept);
}

#[test]
fn changed_key_is_refused() {
    assert_eq!(handler().key_looked_up(KeyLookup::Changed), KeyAction::Refuse);
}

#[test]
fn recorded_key_is_accepted_again_and_another_refused() {
    let mut recorded: Option<u8> = None;
    for (key, accepted) in [(7, true), (7, true), (8, false), (7, true)] {
        let mut action = handler().check_server_key();
        let verdict = loop {
            action = match action {
                KeyAction::LookUp { .. } => handler().key_looked_up(match recorded {
                    None => KeyLookup::Unknown,
                    Some(known) if known == key => KeyLookup::Known,
                    Some(_) => KeyLookup::Changed,
                }),
                KeyAction::Record { .. } => {
                    recorded = Some(key);
                    handler().key_recorded(true)
                }
                KeyAction::Accept => break true,
                KeyAction::Refuse => break false,
            };
        };
        assert_eq!(verdict, accepted);
        assert_eq!(recorded, Some(7));
    }
}

#[test]
fn key_is_refused_where_it_cannot_be_checked() {
    assert_eq!(handler().key_looked_up(KeyLookup::Failed), KeyAction::Refuse);
}

#[test]
fn direct_connection_goes_to_the_address() {
    assert_eq!(host("web", 2222).address(), "web.example.org:2222");
    assert_eq!(
        connect_direct(&host("web", 2222)),
        HopAction::Connect {
            address: "web.example.org:2222".to_string(),
            handler: handler(),
            timeout_ms: 10_000,
        }
    );
}

#[test]
fn tunnelled_connection_opens_a_channel_first() {
    let web = host("web", 2222);
    assert_eq!(
        connect_tunnelled(&web),
        HopAction::OpenTunnel {
            hostname: "web.example.org".to_string(),
            port: 2222,
            originator: "127.0.0.1".to_string(),
            originator_port: 0,
            timeout_ms: 10_000,
        }
    );
    assert_eq!(
        stage_finished(&web, HopStage::Tunnel, Reply::Done, 0),
        Ok(HopAction::Handshake { handler: handler(), timeout_ms: 10_000 })
    );
    assert_eq!(
        stage_finished(&web, HopStage::Session, Reply::Done, 500),
        Ok(HopAction::Authenticate)
    );
}

#[test]
fn hop_failures_are_reported() {
    let web = host("web", 2222);
    for stage in [HopStage::Tunnel, HopStage::Session] {
        let error = stage_finished(&web, stage, Reply::TimedOut, 10_000).unwrap_err();
        assert_eq!(error, SshError::ConnectTimedOut);
        assert_eq!(error.full(), "SSH connection timed out (10 s)");
    }
    let failed = Reply::Failed("refused".to_string());
    let error = stage_finished(&web, HopStage::Tunnel, failed, 40).unwrap_err();
    assert_eq!(error.message(), "open tunnel to web.example.org:2222");
    assert_eq!(error.cause(), Some("refused".to_string()));
    assert_eq!(error.full(), "open tunnel to web.example.org:2222: refused");
    let failed = Reply::Failed("refused".to_string());
    let error = stage_finished(&web, HopStage::Session, failed, 40).unwrap_err();
    assert_eq!(error.full(), "SSH connection failed: refused");
}

#[test]
fn handshake_gets_what_the_tunnel_left() {
    let web = host("web", 2222);
    assert_eq!(
        stage_finished(&web, HopStage::Tunnel, Reply::Done, 8_000),
        Ok(HopAction::Handshake { handler: handler(), timeout_ms: 2_000 })
    );
    assert_eq!(
        stage_finished(&web, HopStage::Tunnel, Reply::Done, 9_999),
        Ok(HopAction::Handshake { handler: handler(), timeout_ms: 1 })
    );
    assert_eq!(
        stage_finished(&web, HopStage::Tunnel, Reply::Done, 10_000),
        Err(SshError::ConnectTimedOut)
    );
    assert_eq!(
        stage_finished(&web, HopStage::Tunnel, Reply::Done, u64::MAX),
        Err(SshError::ConnectTimedOut)
    );
}

#[test]
fn slow_tunnel_and_slow_handshake_are_too_slow_together() {
    let web = host("web", 2222);
    assert_eq!(
        stage_finished(&web, HopStage::Session, Reply::Done, 10_000),
        Ok(HopAction::Authenticate)
    );
    assert_eq!(
        stage_finished(&web, HopStage::Session, Reply::Done, 16_000),
        Err(SshError::ConnectTimedOut)
    );
}

#[test]
fn refused_authentication_is_an_error() {
    assert_eq!(finish_auth(&host("web", 22), true), Ok(()));
    let error = finish_auth(&host("web", 22), false).unwrap_err();
    assert_eq!(error, SshError::AuthenticationFailed { name: "web".to_string() });
    assert_eq!(error.full(), "SSH authentication failed for web");
    assert_eq!(error.cause(), None);
}

#[test]
fn hosts_are_loaded_only_for_a_jump() {
    assert!(matches!(jump_chain(None), ChainAction::Ready { chain } if chain.is_empty()));
    assert!(matches!(jump_chain(Some("bastion")), ChainAction::LoadHosts));
    let known = vec![host("bastion", 22)];
    let next = hosts_loaded(HostList::Loaded(known.clone()));
    assert!(matches!(next, Ok(ChainAction::Resolve { known: k }) if k == known));
    let next = chain_resolved(Ok(known.clone()));
    assert!(matches!(next, Ok(ChainAction::Ready { chain }) if chain == known));
}

#[test]
fn chain_failures_are_reported() {
    let error = hosts_loaded(HostList::Panicked("oops".to_string())).err().unwrap();
    assert_eq!(error.full(), "host list load panicked: oops");
    let error = hosts_loaded(HostList::Failed("no file".to_string())).err().unwrap();
    assert_eq!(error.full(), "could not load hosts for ProxyJump resolution: no file");
    assert_eq!(error.cause(), None);
    let error = chain_resolved(Err("cycle".to_string())).err().unwrap();
    assert_eq!(error, SshError::ChainUnresolved { cause: "cycle".to_string() });
    assert_eq!(error.full(), "cycle");
}

#[test]
fn each_leg_rides_on_the_one_before() {
    let chain = vec![host("outer", 22), host("inner", 22)];
    let mut route = connect_and_auth(chain, host("web", 22));
    let mut legs = Vec::new();
    while let Some(leg) = route.next_leg() {
        legs.push(leg);
        assert_eq!(route.leg_finished(Ok(())), Ok(()));
    }
    assert_eq!(
        legs,
        vec![
            Leg { end: LegEnd::Bastion(0), via: None },
            Leg { end: LegEnd::Bastion(1), via: Some(0) },
            Leg { end: LegEnd::Target, via: Some(1) },
        ]
    );
    assert!(route.finished);
}

#[test]
fn legs_start_at_the_right_host() {
    let route = connect_and_auth(vec![host("outer", 22)], host("web", 2222));
    let first = Leg { end: LegEnd::Bastion(0), via: None };
    let last = Leg { end: LegEnd::Target, via: Some(0) };
    assert_eq!(route.leg_host(first).name, "outer");
    assert_eq!(route.leg_host(last).name, "web");
    assert_eq!(route.start_leg(first), connect_direct(&host("outer", 22)));
    assert_eq!(route.start_leg(last), connect_tunnelled(&host("web", 2222)));
}

#[test]
fn without_bastions_the_target_is_connected_directly() {
    let mut route = connect_and_auth(Vec::new(), host("web", 22));
    assert_eq!(route.next_leg(), Some(Leg { end: LegEnd::Target, via: None }));
    assert_eq!(
        route.leg_finished(Err(SshError::ConnectTimedOut)),
        Err(SshError::ConnectTimedOut)
    );
    assert_eq!(route.leg_finished(Ok(())), Ok(()));
    assert_eq!(route.next_leg(), None);
}

#[test]
fn failed_leg_names_its_bastion() {
    let chain = vec![host("outer", 22), host("inner", 22)];
    let mut route = connect_and_auth(chain, host("web", 22));
    assert_eq!(route.leg_finished(Ok(())), Ok(()));
    let error = SshError::ConnectFailed { cause: "refused".to_string() };
    let error = route.leg_finished(Err(error)).unwrap_err();
    assert_eq!(
        error.full(),
        "ProxyJump via 'inner' failed: SSH connection failed: refused"
    );
    assert_eq!(route.leg_finished(Ok(())), Ok(()));
    let error = route.leg_finished(Err(SshError::ConnectTimedOut)).unwrap_err();
    assert_eq!(
        error.message(),
        "connecting via 'inner' failed: SSH connection timed out (10 s)"
    );
    assert_eq!(error.cause(), None);
}

#[test]
fn budget_grows_with_the_chain() {
    assert_eq!(connect_budget(&Ok(Vec::new())), 10);
    assert_eq!(connect_budget(&Ok(vec![host("outer", 22), host("inner", 22)])), 30);
    assert_eq!(connect_budget(&Err(SshError::ConnectTimedOut)), 10);
}
