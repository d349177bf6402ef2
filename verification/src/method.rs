//! The single authentication methods: the agent, a key file, a password.

use vstd::prelude::*;
use vstd::string::*;

use crate::error::SshError;

verus! {

/// What to do next to authenticate with the SSH agent.
#[derive(Debug, PartialEq, Eq)]
pub enum AgentAction {
    /// Connect to the agent.
    Connect,
    /// Ask the agent for its identities.
    ListIdentities,
    /// Offer the identity with this place in the agent's list.
    Offer { identity: usize },
    /// The agent's identities were tried.
    Finished { accepted: bool },
}

/// The search for an identity of the agent that the server accepts.
pub struct AgentSearch {
    /// How many identities the agent has.
    pub identities: usize,
    /// The identity that is offered next, or was accepted.
    pub next: usize,
    pub accepted: bool,
}

/// Starts to authenticate with the SSH agent.
pub fn try_agent_auth() -> (action: AgentAction)
    ensures
        action == AgentAction::Connect,
{
    AgentAction::Connect
}

/// Goes on after the agent was connected, or could not be.
pub fn agent_connected(reply: Result<(), String>) -> (next: Result<AgentAction, SshError>)
    ensures
        next == match reply {
            Ok(()) => Ok(AgentAction::ListIdentities),
            Err(cause) => Err(SshError::AgentUnreachable { cause }),
        },
{
    match reply {
        Ok(()) => Ok(AgentAction::ListIdentities),
        Err(cause) => Err(SshError::AgentUnreachable { cause }),
    }
}

/// Goes on after the agent told how many identities it has, or failed to.
pub fn identities_listed(reply: Result<usize, String>) -> (search: Result<AgentSearch, SshError>)
    ensures
        search == match reply {
            Ok(identities) => Ok(AgentSearch { identities, next: 0, accepted: false }),
            Err(cause) => Err(SshError::AgentSilent { cause }),
        },
{
    match reply {
        Ok(identities) => Ok(AgentSearch { identities, next: 0, accepted: false }),
        Err(cause) => Err(SshError::AgentSilent { cause }),
    }
}

impl AgentSearch {
    /// Whether an identity was accepted, or none is left.
    pub open spec fn finished(self) -> bool {
        self.accepted || self.next >= self.identities
    }

    /// What to do next.
    pub open spec fn next_action(self) -> AgentAction {
        if self.finished() {
            AgentAction::Finished { accepted: self.accepted }
        } else {
            AgentAction::Offer { identity: self.next }
        }
    }

    /// How it goes on after the next identity was accepted or not.
    pub open spec fn after(self, accepted: bool) -> AgentSearch {
        if self.finished() {
            self
        } else if accepted {
            AgentSearch { accepted: true, ..self }
        } else {
            AgentSearch { next: (self.next + 1) as usize, ..self }
        }
    }

    /// What to do next.
    pub fn action(&self) -> (action: AgentAction)
        ensures
            action == self.next_action(),
            if self.accepted || self.next >= self.identities {
                action == (AgentAction::Finished { accepted: self.accepted })
            } else {
                action == (AgentAction::Offer { identity: self.next })
            },
    {
        if self.accepted || self.next >= self.identities {
            AgentAction::Finished { accepted: self.accepted }
        } else {
            AgentAction::Offer { identity: self.next }
        }
    }

    /// Goes on after the server answered to the identity. One with which the
    /// request failed is passed over like one that was refused.
    pub fn answered(&mut self, reply: Result<bool, String>)
        ensures
            *final(self) == old(self).after(reply == Ok::<bool, String>(true)),
            final(self).identities == old(self).identities,
            old(self).accepted || old(self).next >= old(self).identities ==> *final(self) == *old(
                self,
            ),
            !old(self).accepted && old(self).next < old(self).identities ==> match reply {
                Ok(true) => final(self).accepted && final(self).next == old(self).next,
                Ok(false) | Err(_) => !final(self).accepted && final(self).next == old(self).next
                    + 1,
            },
    {
        if self.accepted || self.next >= self.identities {
            return;
        }
        match reply {
            Ok(true) => {
                self.accepted = true;
            },
            _ => {
                self.next = self.next + 1;
            },
        }
    }
}

/// Whether the rest of the search ends in acceptance, given which identities
/// the server accepts.
pub open spec fn agent_result(search: AgentSearch, accepts: spec_fn(usize) -> bool) -> bool
    decreases
            (if search.accepted {
                0int
            } else {
                search.identities - search.next
            }),
{
    match search.next_action() {
        AgentAction::Offer { identity } => agent_result(search.after(accepts(identity)), accepts),
        _ => search.accepted,
    }
}

/// The identities that are offered in the rest of the search, in order.
pub open spec fn offered_identities(search: AgentSearch, accepts: spec_fn(usize) -> bool) -> Seq<
    usize,
>
    decreases
            (if search.accepted {
                0int
            } else {
                search.identities - search.next
            }),
{
    match search.next_action() {
        AgentAction::Offer { identity } => seq![identity] + offered_identities(
            search.after(accepts(identity)),
            accepts,
        ),
        _ => Seq::empty(),
    }
}

/// The agent's identities are offered in the order in which it lists them, each
/// once, up to the first that is accepted; the search succeeds exactly when
/// there is one.
pub proof fn first_accepted_identity_wins(identities: usize, accepts: spec_fn(usize) -> bool)
    ensures
        ({
            let start = AgentSearch { identities, next: 0, accepted: false };
            let offers = offered_identities(start, accepts);
            let success = agent_result(start, accepts);
            &&& success <==> exists|identity: usize|
                identity < identities && #[trigger] accepts(identity)
            &&& offers.len() <= identities
            &&& forall|i: int| 0 <= i < offers.len() ==> #[trigger] offers[i] == i
            &&& forall|i: int| 0 <= i < offers.len() - 1 ==> !accepts(#[trigger] offers[i])
            &&& success ==> offers.len() > 0 && accepts(offers.last())
            &&& !success ==> offers.len() == identities
        }),
{
    lemma_first_accepted_identity_wins(
        AgentSearch { identities, next: 0, accepted: false },
        accepts,
    );
}

proof fn lemma_first_accepted_identity_wins(search: AgentSearch, accepts: spec_fn(usize) -> bool)
    requires
        !search.accepted,
        search.next <= search.identities,
    ensures
        ({
            let offers = offered_identities(search, accepts);
            let success = agent_result(search, accepts);
            &&& success <==> exists|identity: usize|
                search.next <= identity < search.identities && #[trigger] accepts(identity)
            &&& offers.len() <= search.identities - search.next
            &&& forall|i: int| 0 <= i < offers.len() ==> #[trigger] offers[i] == search.next + i
            &&& forall|i: int| 0 <= i < offers.len() - 1 ==> !accepts(#[trigger] offers[i])
            &&& success ==> offers.len() > 0 && accepts(offers.last())
            &&& !success ==> offers.len() == search.identities - search.next
        }),
    decreases search.identities - search.next,
{
    let offers = offered_identities(search, accepts);
    if search.next < search.identities {
        let after = search.after(accepts(search.next));
        let rest = offered_identities(after, accepts);
        assert(offers == seq![search.next] + rest);
        if accepts(search.next) {
            assert(agent_result(after, accepts));
            assert(rest =~= Seq::<usize>::empty());
        } else {
            lemma_first_accepted_identity_wins(after, accepts);
            assert forall|i: int| 0 <= i < offers.len() implies #[trigger] offers[i] == search.next
                + i by {
                if i > 0 {
                    assert(offers[i] == rest[i - 1]);
                }
            }
            assert forall|i: int| 0 <= i < offers.len() - 1 implies !accepts(
                #[trigger] offers[i],
            ) by {
                if i > 0 {
                    assert(offers[i] == rest[i - 1]);
                }
            }
            if rest.len() > 0 {
                assert(offers.last() == rest.last());
            }
        }
    }
}

/// What to do next to authenticate with a private key file.
#[derive(Debug, PartialEq, Eq)]
pub enum KeyFileAction {
    /// Load the key, which has no passphrase, from the file.
    Load { path: String },
    /// Offer the key to the server.
    Offer,
}

/// What came of loading a key file. The texts are those of the errors.
#[derive(Debug, PartialEq, Eq)]
pub enum KeyLoad {
    Panicked(String),
    Failed(String),
    Loaded,
}

/// Starts to authenticate with the private key in the file `path`.
pub fn try_key_auth(path: &String) -> (action: KeyFileAction)
    ensures
        action == (KeyFileAction::Load { path: *path }),
{
    KeyFileAction::Load { path: path.clone() }
}

/// Goes on after the key was loaded from the file `path`, or could not be.
pub fn key_loaded(path: &String, load: KeyLoad) -> (next: Result<KeyFileAction, SshError>)
    ensures
        next == match load {
            KeyLoad::Panicked(cause) => Err(SshError::KeyLoadPanicked { cause }),
            KeyLoad::Failed(cause) => Err(SshError::KeyLoadFailed { path: *path, cause }),
            KeyLoad::Loaded => Ok(KeyFileAction::Offer),
        },
{
    match load {
        KeyLoad::Panicked(cause) => Err(SshError::KeyLoadPanicked { cause }),
        KeyLoad::Failed(cause) => Err(SshError::KeyLoadFailed { path: path.clone(), cause }),
        KeyLoad::Loaded => Ok(KeyFileAction::Offer),
    }
}

/// Ends the authentication with a key file with the server's answer.
pub fn key_answered(reply: Result<bool, String>) -> (result: Result<bool, SshError>)
    ensures
        result == match reply {
            Ok(accepted) => Ok(accepted),
            Err(cause) => Err(SshError::PublicKeyFailed { cause }),
        },
{
    match reply {
        Ok(accepted) => Ok(accepted),
        Err(cause) => Err(SshError::PublicKeyFailed { cause }),
    }
}

/// Ends the authentication with a password with the server's answer.
pub fn try_password_auth(reply: Result<bool, String>) -> (result: Result<bool, SshError>)
    ensures
        result == match reply {
            Ok(accepted) => Ok(accepted),
            Err(cause) => Err(SshError::PasswordFailed { cause }),
        },
{
    match reply {
        Ok(accepted) => Ok(accepted),
        Err(cause) => Err(SshError::PasswordFailed { cause }),
    }
}

/// The server's answer is what comes of a key and of a password, and the failure
/// to get one is an error of that method, never a refusal.
pub proof fn servers_answer_is_kept(
    reply: Result<bool, String>,
    by_key: Result<bool, SshError>,
    by_password: Result<bool, SshError>,
)
    requires
        call_ensures(key_answered, (reply,), by_key),
        call_ensures(try_password_auth, (reply,), by_password),
    ensures
        reply matches Ok(accepted) ==> by_key == Ok::<bool, SshError>(accepted) && by_password
            == Ok::<bool, SshError>(accepted),
        reply matches Err(cause) ==> by_key == Err::<bool, SshError>(
            SshError::PublicKeyFailed { cause },
        ) && by_password == Err::<bool, SshError>(SshError::PasswordFailed { cause }),
{
}

/// An agent that lists its identities is asked to offer the first one, and one
/// that lists none has been tried in vain.
pub proof fn listed_identities_are_offered(
    identities: usize,
    search: AgentSearch,
    action: AgentAction,
)
    requires
        call_ensures(identities_listed, (Ok(identities),), Ok(search)),
        call_ensures(AgentSearch::action, (&search,), action),
    ensures
        action == (if identities > 0 {
            AgentAction::Offer { identity: 0 }
        } else {
            AgentAction::Finished { accepted: false }
        }),
{
}

} // verus!
