use omnyssh_core::config::{client_config, offer_nist_ecdh};

fn names(list: &[&str]) -> Vec<String> {
    list.iter().map(|name| name.to_string()).collect()
}

#[test]
fn client_config_advertises_nist_ecdh_kex() {
    let config = client_config();
    for algorithm in [
        russh::kex::ECDH_SHA2_NISTP256,
        russh::kex::ECDH_SHA2_NISTP384,
        russh::kex::ECDH_SHA2_NISTP521,
    ] {
        assert!(
            config.preferred.kex.iter().any(|name| name == algorithm.as_ref()),
            "missing KEX algorithm {}",
            algorithm.as_ref()
        );
    }
}

#[test]
fn nist_ecdh_comes_after_curve25519() {
    assert_eq!(
        client_config().preferred.kex,
        names(&[
            "curve25519-sha256",
            "curve25519-sha256@libssh.org",
            "ecdh-sha2-nistp256",
            "ecdh-sha2-nistp384",
            "ecdh-sha2-nistp521",
            "diffie-hellman-group16-sha512",
            "diffie-hellman-group14-sha256",
            "ext-info-c",
            "ext-info-s",
            "kex-strict-c-v00@openssh.com",
            "kex-strict-s-v00@openssh.com",
        ])
    );
}

#[test]
fn default_key_exchanges_keep_their_order() {
    let defaults: Vec<String> = russh::Preferred::default()
        .kex
        .iter()
        .map(|name| name.as_ref().to_string())
        .collect();
    let kept: Vec<String> = client_config()
        .preferred
        .kex
        .into_iter()
        .filter(|name| !name.starts_with("ecdh-sha2-nistp"))
        .collect();
    assert_eq!(kept, defaults);
}

#[test]
fn no_sha1_key_exchange_is_offered() {
    assert!(client_config().preferred.kex.iter().all(|name| !name.ends_with("sha1")));
}

#[test]
fn connections_are_kept_alive_and_never_idle_out() {
    let config = client_config();
    assert_eq!(config.inactivity_timeout_secs, None);
    assert_eq!(config.keepalive_interval_secs, Some(15));
    assert_eq!(config.keepalive_max, 3);
    assert_eq!(russh::client::Config::default().inactivity_timeout, None);
}

#[test]
fn offered_algorithms_are_not_repeated() {
    let kex = names(&["a", "ecdh-sha2-nistp384", "b", "c"]);
    assert_eq!(
        offer_nist_ecdh(kex),
        names(&["a", "ecdh-sha2-nistp384", "ecdh-sha2-nistp256", "b", "ecdh-sha2-nistp521", "c"])
    );
    let all = names(&["ecdh-sha2-nistp521", "ecdh-sha2-nistp384", "ecdh-sha2-nistp256"]);
    assert_eq!(offer_nist_ecdh(all.clone()), all);
}

#[test]
fn two_entries_are_room_enough() {
    assert_eq!(
        offer_nist_ecdh(names(&["a", "b"])),
        names(&["a", "b", "ecdh-sha2-nistp256", "ecdh-sha2-nistp384", "ecdh-sha2-nistp521"])
    );
}
