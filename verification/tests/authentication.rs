use std::path::PathBuf;

use omnyssh_core::auth::{
    authenticate, authenticate_in, authenticate_with, is_accepted, AuthAction, Authenticator,
};
use omnyssh_core::error::SshError;
use omnyssh_core::host::Host;
use omnyssh_core::method::{
    agent_connected, identities_listed, key_answered, key_loaded, try_agent_auth, try_key_auth,
    try_password_auth, AgentAction, KeyFileAction, KeyLoad,
};

fn host() -> Host {
    Host {
        name: "web".to_string(),
        hostname: "web.example.org".to_string(),
        port: 22,
        user: "ada".to_string(),
        identity_file: Some("/keys/web".to_string()),
        password: Some("opensesame".to_string()),
        proxy_jump: None,
    }
}

fn full_plan() -> Authenticator {
    authenticate_with(
        &host(),
        true,
        Some("/keys/web".to_string()),
        vec![PathBuf::from("/home/ada/.ssh/id_rsa"), PathBuf::from("/home/ada/.ssh/id_ecdsa")],
    )
}

fn ada() -> String {
    "ada".to_string()
}

fn shown(action: AuthAction) -> String {
    format!("{:?}", action)
}

fn agent() -> String {
    shown(AuthAction::TryAgent { user: ada() })
}

fn key(path: &str) -> String {
    shown(AuthAction::TryKey { user: ada(), path: path.to_string() })
}

fn probe(path: &str) -> String {
    shown(AuthAction::ProbeFile { path: &PathBuf::from(path) })
}

fn password() -> String {
    shown(AuthAction::TryPassword { user: ada(), password: "opensesame".to_string() })
}

fn finished(accepted: bool) -> String {
    shown(AuthAction::Finished { accepted })
}

fn actions(mut auth: Authenticator, answers: &[bool]) -> Vec<String> {
    let mut actions = vec![shown(auth.action())];
    for yes in answers {
        auth.answer(*yes);
        actions.push(shown(auth.action()));
    }
    actions
}

#[test]
fn methods_are_tried_in_order() {
    assert_eq!(
        actions(full_plan(), &[false, false, true, false, true, false, false]),
        vec![
            agent(),
            key("/keys/web"),
            probe("/home/ada/.ssh/id_rsa"),
            key("/home/ada/.ssh/id_rsa"),
            probe("/home/ada/.ssh/id_ecdsa"),
            key("/home/ada/.ssh/id_ecdsa"),
            password(),
            finished(false),
        ]
    );
}

#[test]
fn missing_default_keys_are_skipped() {
    assert_eq!(
        actions(full_plan(), &[false, false, false, false, true]),
        vec![
            agent(),
            key("/keys/web"),
            probe("/home/ada/.ssh/id_rsa"),
            probe("/home/ada/.ssh/id_ecdsa"),
            password(),
            finished(true),
        ]
    );
}

#[test]
fn accepted_method_ends_authentication() {
    let done = finished(true);
    assert_eq!(actions(full_plan(), &[true])[1], done);
    assert_eq!(actions(full_plan(), &[false, true])[2], done);
    assert_eq!(actions(full_plan(), &[false, false, true, true])[4], done);
    assert_eq!(actions(full_plan(), &[true, false, false])[3], done);
}

#[test]
fn only_configured_methods_are_tried() {
    let mut plain = host();
    plain.identity_file = None;
    plain.password = None;
    let auth = authenticate_with(&plain, false, None, Vec::new());
    assert_eq!(shown(auth.action()), finished(false));
}

#[test]
fn plan_follows_the_home_directories() {
    let mut web = host();
    web.identity_file = Some("~/web".to_string());
    let ada_home = Some(PathBuf::from("/home/ada"));
    let auth = authenticate_in(&web, true, ada_home.clone(), ada_home);
    assert_eq!(
        actions(auth, &[false; 8]),
        vec![
            agent(),
            key("/home/ada/web"),
            probe("/home/ada/.ssh/id_ed25519"),
            probe("/home/ada/.ssh/id_rsa"),
            probe("/home/ada/.ssh/id_ecdsa"),
            probe("/home/ada/.ssh/id_ecdsa_sk"),
            probe("/home/ada/.ssh/id_ed25519_sk"),
            password(),
            finished(false),
        ]
    );
    let auth = authenticate_in(&web, false, None, None);
    assert_eq!(actions(auth, &[false, true]), vec![key("~/web"), password(), finished(true)]);
}

#[test]
fn agent_comes_first_and_the_identity_file_next() {
    let auth = authenticate(&host(), true);
    assert_eq!(
        actions(auth, &[false])[..2],
        [agent(), key("/keys/web")]
    );
    let mut at_home = host();
    at_home.identity_file = Some("~/web".to_string());
    let expected = match dirs::home_dir() {
        Some(home) => format!("{}/web", home.to_string_lossy()),
        None => "~/web".to_string(),
    };
    assert_eq!(shown(authenticate(&at_home, false).action()), key(&expected));
}

#[test]
fn failed_attempt_counts_as_refused() {
    assert!(is_accepted(Ok(true)));
    assert!(!is_accepted(Ok(false)));
    assert!(!is_accepted(Err(SshError::PasswordFailed { cause: "x".to_string() })));
}

#[test]
fn agent_identities_are_offered_until_one_is_accepted() {
    assert_eq!(try_agent_auth(), AgentAction::Connect);
    assert_eq!(agent_connected(Ok(())), Ok(AgentAction::ListIdentities));
    let mut search = identities_listed(Ok(4)).ok().unwrap();
    assert_eq!(search.action(), AgentAction::Offer { identity: 0 });
    search.answered(Ok(false));
    assert_eq!(search.action(), AgentAction::Offer { identity: 1 });
    search.answered(Err("sign".to_string()));
    assert_eq!(search.action(), AgentAction::Offer { identity: 2 });
    search.answered(Ok(true));
    assert_eq!(search.action(), AgentAction::Finished { accepted: true });
}

#[test]
fn agent_without_accepted_identity_is_refused() {
    let mut search = identities_listed(Ok(1)).ok().unwrap();
    search.answered(Ok(false));
    assert_eq!(search.action(), AgentAction::Finished { accepted: false });
    let empty = identities_listed(Ok(0)).ok().unwrap();
    assert_eq!(empty.action(), AgentAction::Finished { accepted: false });
}

#[test]
fn agent_failures_are_reported() {
    let error = agent_connected(Err("no socket".to_string())).unwrap_err();
    assert_eq!(error.full(), "connect to SSH agent: no socket");
    let error = identities_listed(Err("locked".to_string())).err().unwrap();
    assert_eq!(error.full(), "request agent identities: locked");
}

#[test]
fn key_is_offered_once_loaded() {
    let path = "/keys/web".to_string();
    assert_eq!(try_key_auth(&path), KeyFileAction::Load { path: path.clone() });
    assert_eq!(key_loaded(&path, KeyLoad::Loaded), Ok(KeyFileAction::Offer));
    assert_eq!(key_answered(Ok(true)), Ok(true));
    assert_eq!(key_answered(Ok(false)), Ok(false));
}

#[test]
fn key_failures_are_reported() {
    let path = "/keys/web".to_string();
    let error = key_loaded(&path, KeyLoad::Panicked("oops".to_string())).unwrap_err();
    assert_eq!(error.full(), "spawn_blocking panicked: oops");
    let error = key_loaded(&path, KeyLoad::Failed("encrypted".to_string())).unwrap_err();
    assert_eq!(error.full(), "load key from /keys/web: encrypted");
    let error = key_answered(Err("closed".to_string())).unwrap_err();
    assert_eq!(error.full(), "authenticate_publickey: closed");
}

#[test]
fn password_answer_is_passed_on() {
    assert_eq!(try_password_auth(Ok(true)), Ok(true));
    assert_eq!(try_password_auth(Ok(false)), Ok(false));
    let error = try_password_auth(Err("closed".to_string())).unwrap_err();
    assert_eq!(error.full(), "authenticate with password: closed");
}
