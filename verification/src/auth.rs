//! Authenticating on a connection: which methods are tried, and in which order.

use std::path::PathBuf;

use vstd::prelude::*;
use vstd::string::*;

use crate::error::SshError;
use crate::home::{user_home, UserHome};
use crate::host::Host;
use crate::keys::{
    default_key_paths_in, default_keys, default_keys_are_in_the_ssh_directory, expand_tilde_in,
    expanded, home_text, joined_path, path_text, text_of_path,
};

verus! {

/// A way to authenticate.
pub ghost enum Method {
    /// The identities of the SSH agent.
    Agent,
    /// The private key file that the user configured.
    IdentityFile(Seq<char>),
    /// A default private key file, tried only where it exists.
    DefaultKey(PathBuf),
    /// The password that the user configured.
    Password(Seq<char>),
}

/// A way to authenticate, as held by an [`Authenticator`].
enum Attempt {
    Agent,
    IdentityFile(String),
    DefaultKey(PathBuf),
    Password(String),
}

impl View for Attempt {
    type V = Method;

    closed spec fn view(&self) -> Method {
        match self {
            Attempt::Agent => Method::Agent,
            Attempt::IdentityFile(path) => Method::IdentityFile(path@),
            Attempt::DefaultKey(path) => Method::DefaultKey(*path),
            Attempt::Password(password) => Method::Password(password@),
        }
    }
}

spec fn methods_of(attempts: Seq<Attempt>) -> Seq<Method> {
    attempts.map_values(|attempt: Attempt| attempt@)
}

/// What to do next to authenticate.
#[derive(Debug, PartialEq, Eq)]
pub enum AuthAction<'a> {
    /// Try the identities of the SSH agent.
    TryAgent { user: String },
    /// See whether the file exists.
    ProbeFile { path: &'a PathBuf },
    /// Try the private key in the file.
    TryKey { user: String, path: String },
    /// Try the password.
    TryPassword { user: String, password: String },
    /// Authentication is over.
    Finished { accepted: bool },
}

/// An [`AuthAction`], without the user.
pub ghost enum Step {
    TryAgent,
    ProbeFile(PathBuf),
    TryKey(Seq<char>),
    TryPassword(Seq<char>),
    Finished(bool),
}

impl<'a> AuthAction<'a> {
    /// Whether this action is `step` for `user`.
    pub open spec fn is_step(self, step: Step, user: Seq<char>) -> bool {
        match (self, step) {
            (AuthAction::TryAgent { user: u }, Step::TryAgent) => u@ == user,
            (AuthAction::ProbeFile { path }, Step::ProbeFile(p)) => *path == p,
            (AuthAction::TryKey { user: u, path }, Step::TryKey(p)) => u@ == user && path@ == p,
            (
                AuthAction::TryPassword { user: u, password },
                Step::TryPassword(p),
            ) => u@ == user && password@ == p,
            (AuthAction::Finished { accepted }, Step::Finished(a)) => accepted == a,
            _ => false,
        }
    }
}

/// How far an authentication has come.
pub ghost struct AuthState {
    pub user: Seq<char>,
    /// The methods, in the order in which they are tried.
    pub methods: Seq<Method>,
    /// The method that is tried next, or was accepted.
    pub next: int,
    /// Whether that method is a default key whose file is known to exist.
    pub probed: bool,
    /// Whether that method was accepted.
    pub accepted: bool,
}

impl AuthState {
    /// No more methods are done with than there are, and only a default key is
    /// looked for before it is tried.
    pub open spec fn wf(self) -> bool {
        &&& 0 <= self.next <= self.methods.len()
        &&& self.probed ==> self.next < self.methods.len() && self.methods[self.next] is DefaultKey
    }

    /// Whether a method was accepted, or none is left.
    pub open spec fn finished(self) -> bool {
        self.accepted || self.next >= self.methods.len()
    }

    /// Whether the next method is a default key that has still to be looked for.
    pub open spec fn probing(self) -> bool {
        !self.finished() && self.methods[self.next] is DefaultKey && !self.probed
    }

    /// What to do next.
    pub open spec fn step(self) -> Step {
        if self.finished() {
            Step::Finished(self.accepted)
        } else {
            match self.methods[self.next] {
                Method::Agent => Step::TryAgent,
                Method::IdentityFile(path) => Step::TryKey(path),
                Method::DefaultKey(path) => if self.probed {
                    Step::TryKey(path_text(path))
                } else {
                    Step::ProbeFile(path)
                },
                Method::Password(password) => Step::TryPassword(password),
            }
        }
    }

    /// How it goes on after the next step: `yes` is whether the file exists, or
    /// whether the method was accepted.
    pub open spec fn after(self, yes: bool) -> AuthState {
        if self.finished() {
            self
        } else if !yes {
            AuthState { next: self.next + 1, probed: false, ..self }
        } else if self.probing() {
            AuthState { probed: true, ..self }
        } else {
            AuthState { accepted: true, ..self }
        }
    }
}

/// The beginning of an authentication of `user` by `methods`.
pub open spec fn auth_start(user: Seq<char>, methods: Seq<Method>) -> AuthState {
    AuthState { user, methods, next: 0, probed: false, accepted: false }
}

/// The one method that `value` gives, if there is a value.
pub open spec fn optional(value: Option<Seq<char>>, method: spec_fn(Seq<char>) -> Method) -> Seq<
    Method,
> {
    match value {
        Some(value) => seq![method(value)],
        None => Seq::empty(),
    }
}

/// The methods by which to authenticate, in order: the agent, where there can
/// be one, then the configured identity file, then the default keys, and the
/// configured password last.
pub open spec fn plan(
    agent: bool,
    identity: Option<Seq<char>>,
    default_keys: Seq<PathBuf>,
    password: Option<Seq<char>>,
) -> Seq<Method> {
    (if agent {
        seq![Method::Agent]
    } else {
        Seq::empty()
    }) + optional(identity, |path: Seq<char>| Method::IdentityFile(path)) + default_keys.map_values(
        |path: PathBuf| Method::DefaultKey(path),
    ) + optional(password, |password: Seq<char>| Method::Password(password))
}

/// The text of an optional string.
pub open spec fn optional_text(value: Option<String>) -> Option<Seq<char>> {
    match value {
        Some(value) => Some(value@),
        None => None,
    }
}

/// An authentication on one connection.
pub struct Authenticator {
    user: String,
    attempts: Vec<Attempt>,
    next: usize,
    probed: bool,
    accepted: bool,
}

impl View for Authenticator {
    type V = AuthState;

    closed spec fn view(&self) -> AuthState {
        AuthState {
            user: self.user@,
            methods: methods_of(self.attempts@),
            next: self.next as int,
            probed: self.probed,
            accepted: self.accepted,
        }
    }
}

/// Starts to authenticate as the user of `host`, with the agent where `agent`
/// says that there can be one, the key file `identity`, and `default_keys`.
pub fn authenticate_with(
    host: &Host,
    agent: bool,
    identity: Option<String>,
    default_keys: Vec<PathBuf>,
) -> (auth: Authenticator)
    ensures
        auth@.wf(),
        auth@ == auth_start(
            host.user@,
            plan(
                agent,
                optional_text(identity),
                default_keys@,
                optional_text(host.password),
            ),
        ),
        auth@.user == host.user@,
        auth@.next == 0 && !auth@.probed && !auth@.accepted,
        ({
            let agents = if agent {
                1int
            } else {
                0
            };
            let before = if identity is Some {
                agents + 1
            } else {
                agents
            };
            let after = before + default_keys@.len();
            &&& agent ==> auth@.methods[0] == Method::Agent
            &&& identity matches Some(path) ==> auth@.methods[agents] == Method::IdentityFile(path@)
            &&& forall|i: int|
                0 <= i < default_keys@.len() ==> auth@.methods[before + i] == Method::DefaultKey(
                    #[trigger] default_keys@[i],
                )
            &&& match host.password {
                Some(password) => auth@.methods.len() == after + 1 && auth@.methods[after]
                    == Method::Password(password@),
                None => auth@.methods.len() == after,
            }
        }),
{
    proof {
        plan_lists_every_method(
            agent,
            optional_text(identity),
            default_keys@,
            optional_text(host.password),
        );
    }
    let mut attempts: Vec<Attempt> = Vec::new();
    let ghost first = if agent {
        seq![Method::Agent]
    } else {
        Seq::empty()
    };
    if agent {
        attempts.push(Attempt::Agent);
    }
    assert(methods_of(attempts@) =~= first);
    let ghost second = first + optional(
        optional_text(identity),
        |path: Seq<char>| Method::IdentityFile(path),
    );
    if let Some(path) = &identity {
        attempts.push(Attempt::IdentityFile(path.clone()));
    }
    assert(methods_of(attempts@) =~= second);
    let ghost keys = default_keys@.map_values(|path: PathBuf| Method::DefaultKey(path));
    let ghost all = default_keys@;
    let mut rest: Vec<PathBuf> = default_keys;
    let ghost mut done: int = 0;
    while rest.len() > 0
        invariant
            0 <= done <= all.len(),
            rest@ == all.skip(done),
            keys == all.map_values(|path: PathBuf| Method::DefaultKey(path)),
            methods_of(attempts@) =~= second + keys.take(done),
        decreases rest.len(),
    {
        let ghost before = attempts@;
        attempts.push(Attempt::DefaultKey(rest.remove(0)));
        assert(rest@ =~= all.skip(done + 1));
        assert(keys[done] == attempts@.last()@);
        assert(keys.take(done + 1) =~= keys.take(done).push(keys[done]));
        assert(methods_of(attempts@) =~= methods_of(before).push(keys[done]));
        proof {
            done = done + 1;
        }
    }
    assert(methods_of(attempts@) =~= second + keys);
    if let Some(password) = &host.password {
        attempts.push(Attempt::Password(password.clone()));
    }
    assert(methods_of(attempts@) =~= second + keys + optional(
        optional_text(host.password),
        |password: Seq<char>| Method::Password(password),
    ));
    Authenticator { user: host.user.clone(), attempts, next: 0, probed: false, accepted: false }
}

/// The methods by which to authenticate to `host`, when a `~` in its identity
/// file stands for `identity_home` and the default keys are those of
/// `keys_home`.
pub open spec fn host_plan(
    host: Host,
    agent: bool,
    identity_home: Option<PathBuf>,
    keys_home: Option<PathBuf>,
) -> Seq<Method> {
    plan(
        agent,
        match host.identity_file {
            Some(path) => Some(expanded(path@, home_text(identity_home))),
            None => None,
        },
        default_keys(keys_home),
        optional_text(host.password),
    )
}

/// Starts to authenticate as the user of `host`, with the agent where `agent`
/// says that there can be one. A `~` in the identity file stands for
/// `identity_home`; the default keys are looked for in `keys_home`.
pub fn authenticate_in(
    host: &Host,
    agent: bool,
    identity_home: Option<PathBuf>,
    keys_home: Option<PathBuf>,
) -> (auth: Authenticator)
    ensures
        auth@.wf(),
        auth@ == auth_start(host.user@, host_plan(*host, agent, identity_home, keys_home)),
        auth@.user == host.user@,
        auth@.next == 0 && !auth@.probed && !auth@.accepted,
        host.identity_file matches Some(path) ==> auth@.methods.contains(
            Method::IdentityFile(expanded(path@, home_text(identity_home))),
        ),
        keys_home matches Some(home) ==> {
            let ssh = joined_path(home, ".ssh"@);
            &&& auth@.methods.contains(Method::DefaultKey(joined_path(ssh, "id_ed25519"@)))
            &&& auth@.methods.contains(Method::DefaultKey(joined_path(ssh, "id_rsa"@)))
            &&& auth@.methods.contains(Method::DefaultKey(joined_path(ssh, "id_ecdsa"@)))
            &&& auth@.methods.contains(Method::DefaultKey(joined_path(ssh, "id_ecdsa_sk"@)))
            &&& auth@.methods.contains(Method::DefaultKey(joined_path(ssh, "id_ed25519_sk"@)))
        },
        host.password matches Some(password) ==> auth@.methods.contains(
            Method::Password(password@),
        ),
        agent ==> auth@.methods.contains(Method::Agent),
{
    proof {
        host_plan_holds_every_method(*host, agent, identity_home, keys_home);
    }
    let identity = match &host.identity_file {
        Some(path) => Some(expand_tilde_in(path.as_str(), &identity_home)),
        None => None,
    };
    authenticate_with(host, agent, identity, default_key_paths_in(keys_home))
}

/// Starts to authenticate as the user of `host`, with the agent where `agent`
/// says that there can be one. A `~` in the identity file and the default keys
/// are looked for in one and the same home directory, that of the user; which
/// directory it is, the environment decides.
pub fn authenticate(host: &Host, agent: bool) -> (auth: Authenticator)
    ensures
        auth@.wf(),
        exists|identity_home: Option<PathBuf>, keys_home: Option<PathBuf>|
            auth@ == auth_start(
                host.user@,
                #[trigger] host_plan(*host, agent, identity_home, keys_home),
            ),
        exists|home: UserHome|
            {
                &&& auth@ == auth_start(
                    host.user@,
                    host_plan(*host, agent, #[trigger] home@, home@),
                )
                &&& host.identity_file matches Some(path) ==> auth@.methods.contains(
                    Method::IdentityFile(expanded(path@, home_text(home@))),
                )
                &&& home@ matches Some(directory) ==> {
                    let ssh = joined_path(directory, ".ssh"@);
                    &&& auth@.methods.contains(Method::DefaultKey(joined_path(ssh, "id_ed25519"@)))
                    &&& auth@.methods.contains(Method::DefaultKey(joined_path(ssh, "id_rsa"@)))
                    &&& auth@.methods.contains(Method::DefaultKey(joined_path(ssh, "id_ecdsa"@)))
                    &&& auth@.methods.contains(Method::DefaultKey(joined_path(ssh, "id_ecdsa_sk"@)))
                    &&& auth@.methods.contains(
                        Method::DefaultKey(joined_path(ssh, "id_ed25519_sk"@)),
                    )
                }
            },
        agent ==> auth@.methods.contains(Method::Agent),
        host.password matches Some(password) ==> auth@.methods.contains(
            Method::Password(password@),
        ),
        auth@.user == host.user@,
        auth@.next == 0 && !auth@.probed && !auth@.accepted,
{
    let home = user_home();
    let ghost found = home;
    let identity = match &host.identity_file {
        Some(path) => Some(expand_tilde_in(path.as_str(), home.path())),
        None => None,
    };
    let auth = authenticate_with(host, agent, identity, default_key_paths_in(home.into_path()));
    assert(auth@ == auth_start(host.user@, host_plan(*host, agent, found@, found@)));
    proof {
        host_plan_holds_every_method(*host, agent, found@, found@);
    }
    auth
}

/// Whether an attempt counts as accepted: one that failed does not.
pub fn is_accepted(outcome: Result<bool, SshError>) -> (accepted: bool)
    ensures
        accepted == (outcome == Ok::<bool, SshError>(true)),
{
    match outcome {
        Ok(accepted) => accepted,
        Err(_) => false,
    }
}

impl Authenticator {
    /// What to do next.
    pub fn action(&self) -> (action: AuthAction<'_>)
        ensures
            action.is_step(self@.step(), self@.user),
            self@.accepted || self@.next >= self@.methods.len() ==> (
            action matches AuthAction::Finished { accepted } && accepted == self@.accepted),
            !self@.accepted && self@.next < self@.methods.len() ==> match self@.methods[self@.next] {
                Method::Agent => action matches AuthAction::TryAgent { user } && user@
                    == self@.user,
                Method::IdentityFile(file) => action matches AuthAction::TryKey { user, path }
                    && user@ == self@.user && path@ == file,
                Method::DefaultKey(file) => if self@.probed {
                    action matches AuthAction::TryKey { user, path } && user@ == self@.user && path@
                        == path_text(file)
                } else {
                    action matches AuthAction::ProbeFile { path } && *path == file
                },
                Method::Password(secret) => action matches AuthAction::TryPassword {
                    user,
                    password,
                } && user@ == self@.user && password@ == secret,
            },
    {
        if self.accepted || self.next >= self.attempts.len() {
            return AuthAction::Finished { accepted: self.accepted };
        }
        let ghost method = self@.methods[self@.next];
        assert(method == self.attempts@[self.next as int]@);
        match &self.attempts[self.next] {
            Attempt::Agent => AuthAction::TryAgent { user: self.user.clone() },
            Attempt::IdentityFile(path) => AuthAction::TryKey {
                user: self.user.clone(),
                path: path.clone(),
            },
            Attempt::DefaultKey(path) => {
                if self.probed {
                    AuthAction::TryKey { user: self.user.clone(), path: text_of_path(path) }
                } else {
                    AuthAction::ProbeFile { path }
                }
            },
            Attempt::Password(password) => AuthAction::TryPassword {
                user: self.user.clone(),
                password: password.clone(),
            },
        }
    }

    /// Goes on after the next step: `yes` is whether the file exists, or
    /// whether the method was accepted.
    pub fn answer(&mut self, yes: bool)
        ensures
            final(self)@ == old(self)@.after(yes),
            old(self)@.wf() ==> final(self)@.wf(),
            final(self)@.user == old(self)@.user,
            final(self)@.methods == old(self)@.methods,
            old(self)@.accepted || old(self)@.next >= old(self)@.methods.len() ==> final(self)@
                == old(self)@,
            !old(self)@.accepted && old(self)@.next < old(self)@.methods.len() ==> {
                let default_key = old(self)@.methods[old(self)@.next] is DefaultKey;
                if !yes {
                    &&& final(self)@.next == old(self)@.next + 1
                    &&& !final(self)@.probed
                    &&& !final(self)@.accepted
                } else if default_key && !old(self)@.probed {
                    &&& final(self)@.next == old(self)@.next
                    &&& final(self)@.probed
                    &&& !final(self)@.accepted
                } else {
                    &&& final(self)@.next == old(self)@.next
                    &&& final(self)@.probed == old(self)@.probed
                    &&& final(self)@.accepted
                }
            },
    {
        if self.accepted || self.next >= self.attempts.len() {
            return;
        }
        let ghost method = self@.methods[self@.next];
        assert(method == self.attempts@[self.next as int]@);
        let is_default_key: bool = match &self.attempts[self.next] {
            Attempt::DefaultKey(_) => true,
            _ => false,
        };
        if !yes {
            self.next = self.next + 1;
            self.probed = false;
        } else if is_default_key && !self.probed {
            self.probed = true;
        } else {
            self.accepted = true;
        }
    }
}

/// Whether `method` can be tried, given which files are `present`: a default key
/// only where its file exists.
pub open spec fn usable(method: Method, present: spec_fn(PathBuf) -> bool) -> bool {
    match method {
        Method::DefaultKey(path) => present(path),
        _ => true,
    }
}

/// The methods that can be tried, in order.
pub open spec fn usable_methods(methods: Seq<Method>, present: spec_fn(PathBuf) -> bool) -> Seq<
    Method,
> {
    methods.filter(|method: Method| usable(method, present))
}

impl AuthState {
    /// The answer to the next step, given which files are `present` and which
    /// methods the server `accepts`.
    pub open spec fn answer(
        self,
        present: spec_fn(PathBuf) -> bool,
        accepts: spec_fn(Method) -> bool,
    ) -> bool {
        if self.probing() {
            usable(self.methods[self.next], present)
        } else {
            accepts(self.methods[self.next])
        }
    }

    /// A bound on the steps that are left.
    pub open spec fn steps_left(self) -> int {
        if self.finished() {
            0
        } else if self.probed {
            2 * (self.methods.len() - self.next) - 1
        } else {
            2 * (self.methods.len() - self.next)
        }
    }
}

/// Whether the rest of the authentication ends in acceptance.
pub open spec fn auth_result(
    state: AuthState,
    present: spec_fn(PathBuf) -> bool,
    accepts: spec_fn(Method) -> bool,
) -> bool
    decreases state.steps_left(),
{
    if state.finished() {
        state.accepted
    } else {
        auth_result(state.after(state.answer(present, accepts)), present, accepts)
    }
}

/// The methods that are tried in the rest of the authentication, in order.
pub open spec fn tried(
    state: AuthState,
    present: spec_fn(PathBuf) -> bool,
    accepts: spec_fn(Method) -> bool,
) -> Seq<Method>
    decreases state.steps_left(),
{
    if state.finished() {
        Seq::empty()
    } else {
        let rest = tried(state.after(state.answer(present, accepts)), present, accepts);
        if state.probing() {
            rest
        } else {
            seq![state.methods[state.next]] + rest
        }
    }
}

/// The methods are tried in their order, default keys without a file being left
/// out, until one is accepted: none is tried after that, and all of them are
/// where none is accepted. The authentication succeeds exactly when the last
/// method tried was accepted.
pub proof fn first_accepted_method_wins(
    user: Seq<char>,
    methods: Seq<Method>,
    present: spec_fn(PathBuf) -> bool,
    accepts: spec_fn(Method) -> bool,
)
    ensures
        ({
            let start = auth_start(user, methods);
            let tries = tried(start, present, accepts);
            let all = usable_methods(methods, present);
            let success = auth_result(start, present, accepts);
            &&& tries.is_prefix_of(all)
            &&& forall|i: int| 0 <= i < tries.len() - 1 ==> !accepts(#[trigger] tries[i])
            &&& success == (tries.len() > 0 && accepts(tries.last()))
            &&& !success ==> tries == all
        }),
{
    let start = auth_start(user, methods);
    lemma_first_accepted_method_wins(start, present, accepts);
    assert(methods.skip(0) =~= methods);
}

proof fn lemma_first_accepted_method_wins(
    state: AuthState,
    present: spec_fn(PathBuf) -> bool,
    accepts: spec_fn(Method) -> bool,
)
    requires
        state.wf(),
        !state.accepted,
        state.probed ==> usable(state.methods[state.next], present),
    ensures
        ({
            let tries = tried(state, present, accepts);
            let all = usable_methods(state.methods.skip(state.next), present);
            let success = auth_result(state, present, accepts);
            &&& tries.is_prefix_of(all)
            &&& forall|i: int| 0 <= i < tries.len() - 1 ==> !accepts(#[trigger] tries[i])
            &&& success == (tries.len() > 0 && accepts(tries.last()))
            &&& !success ==> tries == all
        }),
    decreases state.steps_left(),
{
    let tries = tried(state, present, accepts);
    let all = usable_methods(state.methods.skip(state.next), present);
    if state.finished() {
        assert(state.methods.skip(state.next) =~= Seq::<Method>::empty());
        assert(all =~= Seq::<Method>::empty()) by {
            reveal(Seq::filter);
        }
    } else {
        let method = state.methods[state.next];
        let yes = state.answer(present, accepts);
        let after = state.after(yes);
        lemma_usable_from(state.methods, state.next, present);
        if state.probing() {
            lemma_first_accepted_method_wins(after, present, accepts);
            if !yes {
                assert(Seq::<Method>::empty() + usable_methods(
                    state.methods.skip(state.next + 1),
                    present,
                ) =~= usable_methods(state.methods.skip(state.next + 1), present));
            }
        } else if yes {
            assert(auth_result(after, present, accepts));
            assert(tried(after, present, accepts) =~= Seq::<Method>::empty());
            assert(tries =~= seq![method]);
        } else {
            lemma_first_accepted_method_wins(after, present, accepts);
            let rest = tried(after, present, accepts);
            assert(tries == seq![method] + rest);
            assert forall|i: int| 0 <= i < tries.len() - 1 implies !accepts(#[trigger] tries[i]) by {
                if i > 0 {
                    assert(tries[i] == rest[i - 1]);
                }
            }
            if rest.len() > 0 {
                assert(tries.last() == rest.last());
            }
        }
    }
}

proof fn lemma_usable_from(methods: Seq<Method>, k: int, present: spec_fn(PathBuf) -> bool)
    requires
        0 <= k < methods.len(),
    ensures
        usable_methods(methods.skip(k), present) == (if usable(methods[k], present) {
            seq![methods[k]]
        } else {
            Seq::empty()
        }) + usable_methods(methods.skip(k + 1), present),
{
    let can = |method: Method| usable(method, present);
    assert(methods.skip(k) =~= seq![methods[k]] + methods.skip(k + 1));
    Seq::filter_distributes_over_add(seq![methods[k]], methods.skip(k + 1), can);
    reveal(Seq::filter);
    assert(seq![methods[k]].drop_last() =~= Seq::<Method>::empty());
    assert(Seq::<Method>::empty().filter(can) =~= Seq::<Method>::empty());
    assert(seq![methods[k]].filter(can) =~= (if usable(methods[k], present) {
        seq![methods[k]]
    } else {
        Seq::empty()
    }));
}

/// Authentication succeeds exactly when the server accepts one of the methods
/// that can be tried.
pub proof fn accepted_if_any_method_is(
    user: Seq<char>,
    methods: Seq<Method>,
    present: spec_fn(PathBuf) -> bool,
    accepts: spec_fn(Method) -> bool,
)
    ensures
        auth_result(auth_start(user, methods), present, accepts) <==> exists|i: int|
            0 <= i < methods.len() && usable(#[trigger] methods[i], present) && accepts(methods[i]),
{
    lemma_accepted_if_any_method_is(auth_start(user, methods), present, accepts);
}

proof fn lemma_accepted_if_any_method_is(
    state: AuthState,
    present: spec_fn(PathBuf) -> bool,
    accepts: spec_fn(Method) -> bool,
)
    requires
        state.wf(),
        !state.accepted,
        state.probed ==> usable(state.methods[state.next], present),
    ensures
        auth_result(state, present, accepts) <==> exists|i: int|
            state.next <= i < state.methods.len() && usable(#[trigger] state.methods[i], present)
                && accepts(state.methods[i]),
    decreases state.steps_left(),
{
    if !state.finished() {
        let yes = state.answer(present, accepts);
        let after = state.after(yes);
        if state.probing() || !yes {
            lemma_accepted_if_any_method_is(after, present, accepts);
        } else {
            assert(auth_result(after, present, accepts));
            assert(usable(state.methods[state.next], present));
        }
    }
}

/// The place of a method in the order of authentication.
pub open spec fn rank(method: Method) -> int {
    match method {
        Method::Agent => 0,
        Method::IdentityFile(_) => 1,
        Method::DefaultKey(_) => 2,
        Method::Password(_) => 3,
    }
}

/// The agent comes before the identity file, that before the default keys, and
/// those before the password.
pub proof fn plan_is_ordered(
    agent: bool,
    identity: Option<Seq<char>>,
    default_keys: Seq<PathBuf>,
    password: Option<Seq<char>>,
)
    ensures
        ({
            let methods = plan(agent, identity, default_keys, password);
            forall|i: int, j: int|
                0 <= i <= j < methods.len() ==> rank(#[trigger] methods[i]) <= rank(
                    #[trigger] methods[j],
                )
        }),
{
}

/// Each source of methods has its place, whatever the others hold. The agent is
/// first. The identity file follows it, then all default keys in their order, and
/// then the password. There is nothing else.
pub proof fn plan_lists_every_method(
    agent: bool,
    identity: Option<Seq<char>>,
    default_keys: Seq<PathBuf>,
    password: Option<Seq<char>>,
)
    ensures
        ({
            let methods = plan(agent, identity, default_keys, password);
            let agents = if agent {
                1int
            } else {
                0
            };
            let before = if identity is Some {
                agents + 1
            } else {
                agents
            };
            let after = before + default_keys.len();
            &&& agent ==> methods[0] == Method::Agent
            &&& identity matches Some(path) ==> methods[agents] == Method::IdentityFile(path)
            &&& forall|i: int|
                0 <= i < default_keys.len() ==> methods[before + i] == Method::DefaultKey(
                    #[trigger] default_keys[i],
                )
            &&& match password {
                Some(password) => methods.len() == after + 1 && methods[after] == Method::Password(
                    password,
                ),
                None => methods.len() == after,
            }
        }),
{
}

/// What a host is authenticated by, from what is configured for it. Where there
/// is a home directory for the keys, all five default keys in it are among the
/// methods, whatever else is. The identity file is looked for in the home
/// directory given for it. Without a home directory there is no default key, and
/// nothing but the configured methods and the agent.
pub proof fn host_plan_holds_every_method(
    host: Host,
    agent: bool,
    identity_home: Option<PathBuf>,
    keys_home: Option<PathBuf>,
)
    ensures
        ({
            let methods = host_plan(host, agent, identity_home, keys_home);
            &&& agent <==> methods.contains(Method::Agent)
            &&& host.identity_file matches Some(path) ==> methods.contains(
                Method::IdentityFile(expanded(path@, home_text(identity_home))),
            )
            &&& keys_home matches Some(home) ==> {
                let ssh = joined_path(home, ".ssh"@);
                &&& methods.contains(Method::DefaultKey(joined_path(ssh, "id_ed25519"@)))
                &&& methods.contains(Method::DefaultKey(joined_path(ssh, "id_rsa"@)))
                &&& methods.contains(Method::DefaultKey(joined_path(ssh, "id_ecdsa"@)))
                &&& methods.contains(Method::DefaultKey(joined_path(ssh, "id_ecdsa_sk"@)))
                &&& methods.contains(Method::DefaultKey(joined_path(ssh, "id_ed25519_sk"@)))
            }
            &&& host.password matches Some(password) ==> methods.contains(
                Method::Password(password@),
            )
            &&& methods.len() == (if agent {
                1int
            } else {
                0
            }) + (if host.identity_file is Some {
                1int
            } else {
                0
            }) + (if keys_home is Some {
                5int
            } else {
                0
            }) + (if host.password is Some {
                1int
            } else {
                0
            })
        }),
{
    let methods = host_plan(host, agent, identity_home, keys_home);
    let identity = match host.identity_file {
        Some(path) => Some(expanded(path@, home_text(identity_home))),
        None => None,
    };
    let keys = default_keys(keys_home);
    let password = optional_text(host.password);
    let agents = if agent {
        1int
    } else {
        0
    };
    let before = if identity is Some {
        agents + 1
    } else {
        agents
    };
    plan_lists_every_method(agent, identity, keys, password);
    if agent {
        assert(methods[0] == Method::Agent);
    }
    if identity is Some {
        assert(methods[agents] == Method::IdentityFile(identity->0));
    }
    if let Some(home) = keys_home {
        default_keys_are_in_the_ssh_directory(home);
        assert(methods[before] == Method::DefaultKey(keys[0]));
        assert(methods[before + 1] == Method::DefaultKey(keys[1]));
        assert(methods[before + 2] == Method::DefaultKey(keys[2]));
        assert(methods[before + 3] == Method::DefaultKey(keys[3]));
        assert(methods[before + 4] == Method::DefaultKey(keys[4]));
    }
    if password is Some {
        assert(methods[before + keys.len()] == Method::Password(password->0));
    }
}

/// Each home directory has its own part in the plan: that of the identity file
/// matters only where one is configured, and that of the keys adds to the methods
/// and changes none of those before them.
pub proof fn home_directories_have_their_own_part(
    host: Host,
    agent: bool,
    identity_home: Option<PathBuf>,
    keys_home: Option<PathBuf>,
    other: Option<PathBuf>,
)
    ensures
        host.identity_file is None ==> host_plan(host, agent, identity_home, keys_home)
            == host_plan(host, agent, other, keys_home),
        host.password is None ==> host_plan(host, agent, identity_home, None).is_prefix_of(
            host_plan(host, agent, identity_home, keys_home),
        ),
{
}

/// An authentication begins with nothing tried and nothing accepted, as the user
/// and by the methods that it was given.
pub proof fn authentication_begins_at_the_first_method(user: Seq<char>, methods: Seq<Method>)
    ensures
        auth_start(user, methods).user == user,
        auth_start(user, methods).methods == methods,
        auth_start(user, methods).next == 0,
        !auth_start(user, methods).probed,
        !auth_start(user, methods).accepted,
{
}

/// A method is done with by one refusal, and accepted by one acceptance. A
/// default key takes two answers: it is offered only after its file was found.
pub proof fn answers_decide_the_next_step(state: AuthState)
    requires
        state.wf(),
        !state.accepted,
        state.next < state.methods.len(),
    ensures
        state.after(false).next == state.next + 1,
        !state.after(false).accepted,
        !state.after(false).probed,
        state.methods[state.next] is DefaultKey && !state.probed ==> {
            let path = state.methods[state.next]->DefaultKey_0;
            &&& state.step() == Step::ProbeFile(path)
            &&& !state.after(true).accepted
            &&& state.after(true).step() == Step::TryKey(path_text(path))
            &&& state.after(true).after(true).step() == Step::Finished(true)
        },
        !(state.methods[state.next] is DefaultKey && !state.probed) ==> state.after(true).step()
            == Step::Finished(true),
        state.methods[state.next] is Agent ==> state.step() == Step::TryAgent,
        state.methods[state.next] matches Method::IdentityFile(path) ==> state.step()
            == Step::TryKey(path),
        state.methods[state.next] matches Method::Password(password) ==> state.step()
            == Step::TryPassword(password),
{
}

/// Whatever [`authenticate`] gives was made for one home directory, that of the
/// user: a `~` in the identity file stands for it, and where there is one, all
/// five default keys in it are tried.
pub proof fn authentication_uses_the_users_home(host: &Host, agent: bool, auth: Authenticator)
    requires
        call_ensures(authenticate, (host, agent), auth),
    ensures
        exists|home: UserHome|
            {
                let methods = auth@.methods;
                &&& host.identity_file matches Some(path) ==> methods.contains(
                    Method::IdentityFile(expanded(path@, home_text(#[trigger] home@))),
                )
                &&& match home@ {
                    Some(directory) => forall|i: int|
                        0 <= i < 5 ==> methods.contains(
                            Method::DefaultKey(
                                #[trigger] default_keys(Some(directory))[i],
                            ),
                        ),
                    None => forall|i: int|
                        0 <= i < methods.len() ==> !(#[trigger] methods[i] is DefaultKey),
                }
            },
{
}

} // verus!
