//! Where private keys are looked for: the home directory, `~` in a configured
//! path, and the default key files.
//!
//! A path that comes from the system need not be text; what it is, and how it is
//! joined, is left to the platform.

use std::path::PathBuf;

use vstd::prelude::*;
use vstd::string::*;

use crate::home::{user_home, UserHome};

verus! {

/// A path of the platform.
#[verifier::external_type_specification]
#[verifier::external_body]
pub struct ExPathBuf(std::path::PathBuf);

/// The path that `Path::join` gives for `directory` and `name`.
pub uninterp spec fn joined_path(directory: PathBuf, name: Seq<char>) -> PathBuf;

/// The text that `Path::to_string_lossy` gives for `path`.
pub uninterp spec fn path_text(path: PathBuf) -> Seq<char>;

/// Calls `Path::join`. Its result depends on the two paths alone, by the rules
/// of the platform. Which separator it puts between them is not stated.
#[verifier::external_body]
fn join_path(directory: &PathBuf, name: &str) -> (path: PathBuf)
    ensures
        path == joined_path(*directory, name@),
{
    directory.join(name)
}

/// Calls `Path::to_string_lossy`. Its result depends on the path alone. What
/// replaces a part of the path that is no text is not stated.
#[verifier::external_body]
pub(crate) fn text_of_path(path: &PathBuf) -> (text: String)
    ensures
        text@ == path_text(*path),
{
    path.to_string_lossy().into_owned()
}

/// Calls `dirs::home_dir`. Nothing is stated of the result: it depends on the
/// environment and on the user database.
#[verifier::external_body]
pub(crate) fn home_dir() -> (home: Option<PathBuf>) {
    dirs::home_dir()
}

/// The text of a home directory.
pub open spec fn home_text(home: Option<PathBuf>) -> Option<Seq<char>> {
    match home {
        Some(home) => Some(path_text(home)),
        None => None,
    }
}

/// Whether `path` stands for the home directory or something in it: it is `~`,
/// or begins with `~/`.
pub open spec fn starts_at_home(path: Seq<char>) -> bool {
    path.len() > 0 && path[0] == '~' && (path.len() == 1 || path[1] == '/')
}

/// `path` with a leading `~` replaced by the home directory, if there is one.
pub open spec fn expanded(path: Seq<char>, home: Option<Seq<char>>) -> Seq<char> {
    match home {
        Some(home) if starts_at_home(path) => home + path.skip(1),
        _ => path,
    }
}

/// `path` with a leading `~` replaced by `home`, if there is one. Only `~`
/// alone and `~/` at the beginning stand for the home directory.
pub fn expand_tilde_to(path: &str, home: Option<&str>) -> (out: String)
    ensures
        out@ == expanded(
            path@,
            match home {
                Some(home) => Some(home@),
                None => None,
            },
        ),
        ({
            let at_home = path@.len() > 0 && path@[0] == '~' && (path@.len() == 1 || path@[1]
                == '/');
            match home {
                Some(home) if at_home => out@ == home@ + path@.skip(1),
                _ => out@ == path@,
            }
        }),
{
    let length: usize = path.unicode_len();
    if length > 0 && path.get_char(0) == '~' && (length == 1 || path.get_char(1) == '/') {
        if let Some(home) = home {
            let mut out = home.to_owned();
            out.append(path.substring_char(1, length));
            assert(path@.subrange(1, length as int) =~= path@.skip(1));
            return out;
        }
    }
    path.to_owned()
}

/// `path` with a leading `~` replaced by the directory `home`, if there is one.
pub fn expand_tilde_in(path: &str, home: &Option<PathBuf>) -> (out: String)
    ensures
        out@ == expanded(path@, home_text(*home)),
        ({
            let at_home = path@.len() > 0 && path@[0] == '~' && (path@.len() == 1 || path@[1]
                == '/');
            match *home {
                Some(home) if at_home => out@ == path_text(home) + path@.skip(1),
                _ => out@ == path@,
            }
        }),
{
    match home {
        Some(home) => expand_tilde_to(path, Some(text_of_path(home).as_str())),
        None => expand_tilde_to(path, None),
    }
}

/// `path` with a leading `~` replaced by the user's home directory. Which
/// directory that is, and whether there is one, the environment decides.
pub fn expand_tilde(path: &str) -> (out: String)
    ensures
        exists|home: Option<PathBuf>| out@ == expanded(path@, #[trigger] home_text(home)),
        !starts_at_home(path@) ==> out@ == path@,
        exists|home: UserHome| out@ == expanded(path@, home_text(#[trigger] home@)),
{
    let home = user_home();
    let out = expand_tilde_in(path, home.path());
    assert(out@ == expanded(path@, home_text(home@)));
    out
}

/// A `~` alone, and one before a `/`, is replaced by the home directory and by
/// nothing else, and what follows it is kept. Every other path is kept whole, and
/// so is every path while there is no home directory.
pub proof fn tilde_is_the_home_directory(rest: Seq<char>, path: Seq<char>, home: Seq<char>)
    ensures
        expanded(seq!['~'], Some(home)) == home,
        expanded(seq!['~', '/'] + rest, Some(home)) == home + seq!['/'] + rest,
        path.len() == 0 || path[0] != '~' ==> expanded(path, Some(home)) == path,
        path.len() > 1 && path[1] != '/' ==> expanded(path, Some(home)) == path,
        expanded(path, None) == path,
{
    assert(seq!['~'].skip(1) =~= Seq::<char>::empty());
    assert(expanded(seq!['~'], Some(home)) =~= home);
    assert(expanded(seq!['~', '/'] + rest, Some(home)) =~= home + seq!['/'] + rest);
}

/// The home directory enters a path as its text.
pub proof fn home_directory_enters_as_text(path: Seq<char>, home: PathBuf)
    ensures
        expanded(path, home_text(Some(home))) == expanded(path, Some(path_text(home))),
        expanded(path, home_text(None)) == path,
{
}

/// The names of the default private keys, in the order in which they are tried.
pub open spec fn default_key_names() -> Seq<Seq<char>> {
    seq!["id_ed25519"@, "id_rsa"@, "id_ecdsa"@, "id_ecdsa_sk"@, "id_ed25519_sk"@]
}

/// The default private key files of the user whose home directory is `home`.
pub open spec fn default_keys(home: Option<PathBuf>) -> Seq<PathBuf> {
    match home {
        Some(home) => default_key_names().map_values(
            |name: Seq<char>| joined_path(joined_path(home, ".ssh"@), name),
        ),
        None => Seq::empty(),
    }
}

/// The default private key files in the `.ssh` directory of `home`, in the
/// order in which they are tried; none without a home directory.
pub fn default_key_paths_in(home: Option<PathBuf>) -> (paths: Vec<PathBuf>)
    ensures
        paths@ == default_keys(home),
        match home {
            Some(home) => {
                let ssh = joined_path(home, ".ssh"@);
                &&& paths@.len() == 5
                &&& paths@[0] == joined_path(ssh, "id_ed25519"@)
                &&& paths@[1] == joined_path(ssh, "id_rsa"@)
                &&& paths@[2] == joined_path(ssh, "id_ecdsa"@)
                &&& paths@[3] == joined_path(ssh, "id_ecdsa_sk"@)
                &&& paths@[4] == joined_path(ssh, "id_ed25519_sk"@)
            },
            None => paths@.len() == 0,
        },
{
    let mut paths: Vec<PathBuf> = Vec::new();
    if let Some(home) = &home {
        let ssh = join_path(home, ".ssh");
        paths.push(join_path(&ssh, "id_ed25519"));
        paths.push(join_path(&ssh, "id_rsa"));
        paths.push(join_path(&ssh, "id_ecdsa"));
        paths.push(join_path(&ssh, "id_ecdsa_sk"));
        paths.push(join_path(&ssh, "id_ed25519_sk"));
    }
    assert(paths@ =~= default_keys(home));
    paths
}

/// The default private key files of the user, in the order in which they are
/// tried. Which directory they are in, the environment decides.
pub fn default_key_paths() -> (paths: Vec<PathBuf>)
    ensures
        exists|home: Option<PathBuf>| paths@ == #[trigger] default_keys(home),
        exists|home: UserHome| paths@ == default_keys(#[trigger] home@),
{
    let home = user_home();
    let ghost found = home;
    let paths = default_key_paths_in(home.into_path());
    assert(paths@ == default_keys(found@));
    paths
}

/// Where there is a home directory, the default keys are five files, all directly
/// in its `.ssh` directory, and their order is fixed; where there is none, there
/// are no default keys.
pub proof fn default_keys_are_in_the_ssh_directory(home: PathBuf)
    ensures
        default_keys(Some(home)).len() == 5,
        default_keys(Some(home))[0] == joined_path(joined_path(home, ".ssh"@), "id_ed25519"@),
        default_keys(Some(home))[1] == joined_path(joined_path(home, ".ssh"@), "id_rsa"@),
        default_keys(Some(home))[2] == joined_path(joined_path(home, ".ssh"@), "id_ecdsa"@),
        default_keys(Some(home))[3] == joined_path(joined_path(home, ".ssh"@), "id_ecdsa_sk"@),
        default_keys(Some(home))[4] == joined_path(joined_path(home, ".ssh"@), "id_ed25519_sk"@),
        default_keys(None).len() == 0,
{
}

} // verus!
