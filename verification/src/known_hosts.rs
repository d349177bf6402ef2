//! Whether a server's key is accepted: trust on first use, refuse on change.

use vstd::prelude::*;

use crate::host::{known_hosts_handler, Host, KnownHostsHandler};

verus! {

/// What the lookup of a server's key in `known_hosts` gave.
#[derive(Clone, Copy, Debug, PartialEq, Eq)]
pub enum KeyLookup {
    /// The key is recorded for the host.
    Known,
    /// No key of its kind is recorded for the host.
    Unknown,
    /// Another key of its kind is recorded for the host.
    Changed,
    /// `known_hosts` could not be read or understood.
    Failed,
}

/// What to do next about a server's key.
#[derive(Debug, PartialEq, Eq)]
pub enum KeyAction {
    /// Look the key up for this host and port.
    LookUp { host: String, port: u16 },
    /// Record the key for this host and port.
    Record { host: String, port: u16 },
    /// Go on with the connection.
    Accept,
    /// Refuse the connection.
    Refuse,
}

/// How the check of a server's key goes on after the lookup.
pub open spec fn after_lookup(handler: KnownHostsHandler, found: KeyLookup) -> KeyAction {
    match found {
        KeyLookup::Known => KeyAction::Accept,
        KeyLookup::Unknown => KeyAction::Record { host: handler.host, port: handler.port },
        KeyLookup::Changed | KeyLookup::Failed => KeyAction::Refuse,
    }
}

/// How it goes on after recording the key: recording is best-effort.
pub open spec fn after_record(recorded: bool) -> KeyAction {
    KeyAction::Accept
}

impl KnownHostsHandler {
    /// Starts the check of a server's key.
    pub fn check_server_key(&self) -> (action: KeyAction)
        ensures
            action == (KeyAction::LookUp { host: self.host, port: self.port }),
    {
        KeyAction::LookUp { host: self.host.clone(), port: self.port }
    }

    /// Goes on with what the lookup gave: a known key is accepted, an unknown
    /// one recorded first, and a changed one refused, as is every key while
    /// `known_hosts` cannot be consulted.
    pub fn key_looked_up(&self, found: KeyLookup) -> (action: KeyAction)
        ensures
            action == after_lookup(*self, found),
            match found {
                KeyLookup::Known => action == KeyAction::Accept,
                KeyLookup::Unknown => action matches KeyAction::Record { host, port } && host@
                    == self.host@ && port == self.port,
                KeyLookup::Changed | KeyLookup::Failed => action == KeyAction::Refuse,
            },
    {
        match found {
            KeyLookup::Known => KeyAction::Accept,
            KeyLookup::Unknown => KeyAction::Record { host: self.host.clone(), port: self.port },
            KeyLookup::Changed => KeyAction::Refuse,
            KeyLookup::Failed => KeyAction::Refuse,
        }
    }

    /// Goes on after the key was recorded, or could not be: recording is
    /// best-effort, so the key is accepted either way.
    pub fn key_recorded(&self, recorded: bool) -> (action: KeyAction)
        ensures
            action == after_record(recorded),
            action == KeyAction::Accept,
    {
        KeyAction::Accept
    }
}

/// The actions of a whole check, from `action` on: what each leads to when the
/// lookup gives `found` and recording the key works or does not.
pub open spec fn key_actions(
    handler: KnownHostsHandler,
    action: KeyAction,
    found: KeyLookup,
    recorded: bool,
) -> Seq<KeyAction>
    decreases
        match action {
            KeyAction::LookUp { host: _, port: _ } => 2nat,
            KeyAction::Record { host: _, port: _ } => 1nat,
            _ => 0nat,
        },
{
    match action {
        KeyAction::LookUp { host: _, port: _ } => seq![action] + key_actions(
            handler,
            after_lookup(handler, found),
            found,
            recorded,
        ),
        KeyAction::Record { host: _, port: _ } => seq![action] + key_actions(
            handler,
            after_record(recorded),
            found,
            recorded,
        ),
        _ => seq![action],
    }
}

/// The whole policy. A check looks the key up once, under the handler's own
/// name and port. A known key is accepted. An unknown key is recorded under the
/// same name and port, once, and accepted whether or not recording it worked. A
/// changed key is refused, and so is every key while `known_hosts` cannot be
/// consulted; neither is recorded.
pub proof fn trust_on_first_use(handler: KnownHostsHandler, found: KeyLookup, recorded: bool)
    ensures
        ({
            let lookup = KeyAction::LookUp { host: handler.host, port: handler.port };
            let record = KeyAction::Record { host: handler.host, port: handler.port };
            key_actions(handler, lookup, found, recorded) == match found {
                KeyLookup::Known => seq![lookup, KeyAction::Accept],
                KeyLookup::Unknown => seq![lookup, record, KeyAction::Accept],
                KeyLookup::Changed => seq![lookup, KeyAction::Refuse],
                KeyLookup::Failed => seq![lookup, KeyAction::Refuse],
            }
        }),
{
    reveal_with_fuel(key_actions, 3);
    let lookup = KeyAction::LookUp { host: handler.host, port: handler.port };
    let record = KeyAction::Record { host: handler.host, port: handler.port };
    let all = key_actions(handler, lookup, found, recorded);
    match found {
        KeyLookup::Known => {
            assert(all =~= seq![lookup, KeyAction::Accept]);
        },
        KeyLookup::Unknown => {
            assert(all =~= seq![lookup, record, KeyAction::Accept]);
        },
        _ => {
            assert(all =~= seq![lookup, KeyAction::Refuse]);
        },
    }
}

/// A whole check of `key` against the record `store`, from `action` on: whether
/// the key is accepted, and the record afterwards. `lookup` is what a lookup in
/// a record gives, `record` what recording a key makes of it; `works` is whether
/// recording works.
pub open spec fn check_against<S, K>(
    handler: KnownHostsHandler,
    action: KeyAction,
    store: S,
    key: K,
    works: bool,
    lookup: spec_fn(S, String, u16, K) -> KeyLookup,
    record: spec_fn(S, String, u16, K) -> S,
) -> (bool, S)
    decreases
        match action {
            KeyAction::LookUp { .. } => 2nat,
            KeyAction::Record { .. } => 1nat,
            _ => 0nat,
        },
{
    match action {
        KeyAction::LookUp { host, port } => check_against(
            handler,
            after_lookup(handler, lookup(store, host, port, key)),
            store,
            key,
            works,
            lookup,
            record,
        ),
        KeyAction::Record { host, port } => check_against(
            handler,
            after_record(works),
            if works {
                record(store, host, port, key)
            } else {
                store
            },
            key,
            works,
            lookup,
            record,
        ),
        KeyAction::Accept => (true, store),
        KeyAction::Refuse => (false, store),
    }
}

/// Trust on first use, over two checks of one host and port. The record is any
/// in which a key that was recorded is then found as known, and another key of
/// its kind as changed. The first key, of which nothing was known, is accepted
/// and recorded. After that, of the keys of its kind exactly that key is
/// accepted, and the record stays as it is.
pub proof fn recorded_key_is_the_only_one_accepted<S, K>(
    handler: KnownHostsHandler,
    store: S,
    first: K,
    second: K,
    works: bool,
    lookup: spec_fn(S, String, u16, K) -> KeyLookup,
    record: spec_fn(S, String, u16, K) -> S,
    same_kind: spec_fn(K, K) -> bool,
)
    requires
        lookup(store, handler.host, handler.port, first) is Unknown,
        forall|s: S, key: K|
            lookup(
                #[trigger] record(s, handler.host, handler.port, key),
                handler.host,
                handler.port,
                key,
            ) is Known,
        forall|s: S, key: K, other: K|
            same_kind(key, other) && key != other ==> (#[trigger] lookup(
                record(s, handler.host, handler.port, key),
                handler.host,
                handler.port,
                other,
            )) is Changed,
        same_kind(first, second),
    ensures
        ({
            let start = KeyAction::LookUp { host: handler.host, port: handler.port };
            let recorded = record(store, handler.host, handler.port, first);
            &&& check_against(handler, start, store, first, true, lookup, record) == (
                true,
                recorded,
            )
            &&& check_against(handler, start, recorded, second, works, lookup, record) == (
                second == first,
                recorded,
            )
        }),
{
    reveal_with_fuel(check_against, 3);
    let recorded = record(store, handler.host, handler.port, first);
    if second != first {
        assert(lookup(recorded, handler.host, handler.port, second) is Changed);
    }
}

/// The key of a server is looked up, and an unknown one recorded, under the
/// hostname and the port of the host that is connected, and under no other name of
/// it.
pub proof fn key_is_kept_under_the_hostname(
    host: &Host,
    handler: KnownHostsHandler,
    lookup: KeyAction,
    record: KeyAction,
)
    requires
        call_ensures(known_hosts_handler, (host,), handler),
        call_ensures(KnownHostsHandler::check_server_key, (&handler,), lookup),
        call_ensures(KnownHostsHandler::key_looked_up, (&handler, KeyLookup::Unknown), record),
    ensures
        lookup matches KeyAction::LookUp { host: name, port } && name@ == host.hostname@ && port
            == host.port,
        record matches KeyAction::Record { host: name, port } && name@ == host.hostname@ && port
            == host.port,
{
}

} // verus!
