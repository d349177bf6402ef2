use std::path::PathBuf;

use omnyssh_core::keys::{
    default_key_paths, default_key_paths_in, expand_tilde, expand_tilde_in, expand_tilde_to,
};

#[test]
fn tilde_stands_for_the_home_directory() {
    assert_eq!(expand_tilde_to("~", Some("/home/ada")), "/home/ada");
    assert_eq!(expand_tilde_to("~/.ssh/id_rsa", Some("/home/ada")), "/home/ada/.ssh/id_rsa");
    assert_eq!(expand_tilde_to("~/a~b", Some("/home/ada")), "/home/ada/a~b");
}

#[test]
fn other_tildes_are_left_alone() {
    assert_eq!(expand_tilde_to("~ada/key", Some("/home/bob")), "~ada/key");
    assert_eq!(expand_tilde_to("/keys/~", Some("/home/bob")), "/keys/~");
    assert_eq!(expand_tilde_to("", Some("/home/bob")), "");
    assert_eq!(expand_tilde("/etc/ssh/key"), "/etc/ssh/key");
}

#[test]
fn without_a_home_directory_nothing_is_expanded() {
    assert_eq!(expand_tilde_to("~/key", None), "~/key");
    assert_eq!(expand_tilde_in("~/key", &None), "~/key");
    assert_eq!(expand_tilde_in("~/key", &Some(PathBuf::from("/home/ada"))), "/home/ada/key");
    assert_eq!(default_key_paths_in(None), Vec::<PathBuf>::new());
}

#[test]
fn home_directory_comes_from_the_environment() {
    let expected = match dirs::home_dir() {
        Some(home) => format!("{}/key", home.to_string_lossy()),
        None => "~/key".to_string(),
    };
    assert_eq!(expand_tilde("~/key"), expected);
}

#[test]
fn default_keys_are_in_order_of_priority() {
    let paths: Vec<String> = default_key_paths_in(Some(PathBuf::from("/home/ada")))
        .into_iter()
        .map(|path| path.to_string_lossy().replace(std::path::MAIN_SEPARATOR, "/"))
        .collect();
    assert_eq!(
        paths,
        vec![
            "/home/ada/.ssh/id_ed25519",
            "/home/ada/.ssh/id_rsa",
            "/home/ada/.ssh/id_ecdsa",
            "/home/ada/.ssh/id_ecdsa_sk",
            "/home/ada/.ssh/id_ed25519_sk",
        ]
    );
}

#[test]
fn a_slash_at_the_end_is_not_doubled() {
    let keys = default_key_paths_in(Some(PathBuf::from("/")));
    assert_eq!(keys[1], PathBuf::from("/.ssh/id_rsa"));
    assert!(!keys[1].to_string_lossy().contains("//"));
    let keys = default_key_paths_in(Some(PathBuf::new()));
    assert_eq!(keys[1], PathBuf::from(".ssh/id_rsa"));
}

#[test]
fn default_keys_are_under_the_home_directory() {
    let expected: Vec<PathBuf> = match dirs::home_dir() {
        Some(home) => {
            let ssh = home.join(".ssh");
            ["id_ed25519", "id_rsa", "id_ecdsa", "id_ecdsa_sk", "id_ed25519_sk"]
                .iter()
                .map(|name| ssh.join(name))
                .collect()
        }
        None => Vec::new(),
    };
    assert_eq!(default_key_paths(), expected);
}
