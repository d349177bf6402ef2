//! The way to a host: its chain of bastions, and the walk along them.

use vstd::prelude::*;

use crate::error::SshError;
use crate::hop::{
    connect_direct, connect_tunnelled, hop_ends_in_time, hop_reports_first_failure, hop_result,
    latest_end_ms, starts_direct, starts_tunnelled, HopAction, HopReplies, CONNECT_TIMEOUT_MS,
    CONNECT_TIMEOUT_SECS,
};
use crate::host::Host;
use crate::text::decimal;

verus! {

/// What to do next to find the bastions of a host.
pub enum ChainAction {
    /// Load the list of all known hosts.
    LoadHosts,
    /// Resolve the jump value of the host against the known hosts.
    Resolve { known: Vec<Host> },
    /// These are the bastions, nearest first.
    Ready { chain: Vec<Host> },
}

/// What came of loading the host list. The texts are those of the errors.
pub enum HostList {
    Panicked(String),
    Failed(String),
    Loaded(Vec<Host>),
}

/// How finding the bastions goes on after the host list was loaded, or could
/// not be.
pub open spec fn after_load(list: HostList) -> Result<ChainAction, SshError> {
    match list {
        HostList::Panicked(cause) => Err(SshError::HostListPanicked { cause }),
        HostList::Failed(cause) => Err(SshError::HostListFailed { cause }),
        HostList::Loaded(known) => Ok(ChainAction::Resolve { known }),
    }
}

/// How finding the bastions ends after the chain was resolved, or could not be.
pub open spec fn after_resolve(resolved: Result<Vec<Host>, String>) -> Result<
    ChainAction,
    SshError,
> {
    match resolved {
        Ok(chain) => Ok(ChainAction::Ready { chain }),
        Err(cause) => Err(SshError::ChainUnresolved { cause }),
    }
}

/// Starts to find the bastions of a host with the given jump value. A host
/// without one has none, and the host list is not loaded for it.
pub fn jump_chain(jump_value: Option<&str>) -> (action: ChainAction)
    ensures
        match jump_value {
            None => action matches ChainAction::Ready { chain } && chain@ == Seq::<Host>::empty(),
            Some(_) => action == ChainAction::LoadHosts,
        },
{
    match jump_value {
        None => ChainAction::Ready { chain: Vec::new() },
        Some(_) => ChainAction::LoadHosts,
    }
}

/// Goes on after the host list was loaded, or could not be.
pub fn hosts_loaded(list: HostList) -> (next: Result<ChainAction, SshError>)
    ensures
        next == after_load(list),
        match list {
            HostList::Panicked(cause) => next == Err::<ChainAction, SshError>(
                SshError::HostListPanicked { cause },
            ),
            HostList::Failed(cause) => next == Err::<ChainAction, SshError>(
                SshError::HostListFailed { cause },
            ),
            HostList::Loaded(known) => next == Ok::<ChainAction, SshError>(
                ChainAction::Resolve { known },
            ),
        },
{
    match list {
        HostList::Panicked(cause) => Err(SshError::HostListPanicked { cause }),
        HostList::Failed(cause) => Err(SshError::HostListFailed { cause }),
        HostList::Loaded(known) => Ok(ChainAction::Resolve { known }),
    }
}

/// Ends finding the bastions after the chain was resolved, or could not be.
pub fn chain_resolved(resolved: Result<Vec<Host>, String>) -> (next: Result<ChainAction, SshError>)
    ensures
        next == after_resolve(resolved),
        match resolved {
            Ok(chain) => next == Ok::<ChainAction, SshError>(ChainAction::Ready { chain }),
            Err(cause) => next == Err::<ChainAction, SshError>(
                SshError::ChainUnresolved { cause },
            ),
        },
{
    match resolved {
        Ok(chain) => Ok(ChainAction::Ready { chain }),
        Err(cause) => Err(SshError::ChainUnresolved { cause }),
    }
}

/// The bastions that are found from `action` on, given what loading the host
/// list and resolving the chain against it come to.
pub open spec fn found_chain(
    action: ChainAction,
    list: HostList,
    resolve: spec_fn(Seq<Host>) -> Result<Vec<Host>, String>,
) -> Result<Vec<Host>, SshError>
    decreases
        match action {
            ChainAction::LoadHosts => 2nat,
            ChainAction::Resolve { .. } => 1nat,
            ChainAction::Ready { .. } => 0nat,
        },
{
    match action {
        ChainAction::LoadHosts => match after_load(list) {
            Err(error) => Err(error),
            Ok(next) => found_chain(next, list, resolve),
        },
        ChainAction::Resolve { known } => match after_resolve(resolve(known@)) {
            Err(error) => Err(error),
            Ok(next) => found_chain(next, list, resolve),
        },
        ChainAction::Ready { chain } => Ok(chain),
    }
}

/// A chain is found only by resolving it against the host list that was loaded:
/// a list that could not be loaded, like a chain that could not be resolved, is
/// an error, and never stands for an empty list or chain.
pub proof fn chain_needs_host_list(
    list: HostList,
    resolve: spec_fn(Seq<Host>) -> Result<Vec<Host>, String>,
)
    ensures
        found_chain(ChainAction::LoadHosts, list, resolve) == match list {
            HostList::Panicked(cause) => Err(SshError::HostListPanicked { cause }),
            HostList::Failed(cause) => Err(SshError::HostListFailed { cause }),
            HostList::Loaded(known) => match resolve(known@) {
                Ok(chain) => Ok(chain),
                Err(cause) => Err(SshError::ChainUnresolved { cause }),
            },
        },
{
    reveal_with_fuel(found_chain, 3);
}

/// A host without a jump value has no bastions, whatever the host list holds; for
/// one with a jump value the host list decides.
pub proof fn chain_is_empty_without_a_jump(
    jump_value: Option<&str>,
    action: ChainAction,
    list: HostList,
    resolve: spec_fn(Seq<Host>) -> Result<Vec<Host>, String>,
)
    requires
        call_ensures(jump_chain, (jump_value,), action),
    ensures
        jump_value is None ==> (found_chain(action, list, resolve) matches Ok(chain)
            && chain@.len() == 0),
        jump_value is Some ==> found_chain(action, list, resolve) == found_chain(
            ChainAction::LoadHosts,
            list,
            resolve,
        ),
{
}

/// Where a leg of the walk ends.
#[derive(Clone, Copy, Debug, PartialEq, Eq)]
pub enum LegEnd {
    /// At the bastion with this place in the chain.
    Bastion(usize),
    /// At the host that is to be reached.
    Target,
}

/// One leg of the walk: a connection to make.
#[derive(Clone, Copy, Debug, PartialEq, Eq)]
pub struct Leg {
    pub end: LegEnd,
    /// The bastion, by its place in the chain, on which the connection rides;
    /// none for a direct connection.
    pub via: Option<usize>,
}

/// The walk along the bastions to the target.
pub struct Route {
    /// The bastions, nearest first.
    pub chain: Vec<Host>,
    pub target: Host,
    /// How many of the bastions are connected.
    pub connected: usize,
    /// Whether the target is connected.
    pub finished: bool,
}

/// Leg `n`, counted from zero, of the walk along `bastions` bastions.
pub open spec fn leg_at(bastions: nat, n: nat) -> Leg {
    Leg {
        end: if n < bastions {
            LegEnd::Bastion(n as usize)
        } else {
            LegEnd::Target
        },
        via: if n == 0 {
            None
        } else {
            Some((n - 1) as usize)
        },
    }
}

/// The error that the failure of leg `n` with `error` is reported as. It names
/// the bastion that could not be connected, or the one through which the target
/// could not be; the failure of a direct connection is reported as it is.
pub open spec fn leg_error(chain: Seq<Host>, n: nat, error: SshError) -> SshError {
    if n < chain.len() {
        SshError::ProxyJumpFailed { hop: chain[n as int].name, error: Box::new(error) }
    } else if chain.len() > 0 {
        SshError::ConnectViaFailed { hop: chain.last().name, error: Box::new(error) }
    } else {
        error
    }
}

/// Starts the walk along `chain` to `host`.
pub fn connect_and_auth(chain: Vec<Host>, host: Host) -> (route: Route)
    ensures
        route == (Route { chain, target: host, connected: 0, finished: false }),
        route.wf(),
{
    Route { chain, target: host, connected: 0, finished: false }
}

impl Route {
    /// The target is connected only after all bastions are.
    pub open spec fn wf(self) -> bool {
        &&& self.connected <= self.chain@.len()
        &&& self.finished ==> self.connected == self.chain@.len()
    }

    /// The next leg to connect; none once the target is connected.
    pub open spec fn leg(self) -> Option<Leg> {
        if self.finished {
            None
        } else {
            Some(leg_at(self.chain@.len(), self.connected as nat))
        }
    }

    /// How many legs are still to be connected.
    pub open spec fn legs_left(self) -> int {
        if self.finished {
            0
        } else {
            self.chain@.len() + 1 - self.connected
        }
    }

    /// The walk once its next leg is connected.
    pub open spec fn after_leg(self) -> Route {
        if self.connected < self.chain.len() {
            Route { connected: (self.connected + 1) as usize, ..self }
        } else {
            Route { finished: true, ..self }
        }
    }

    /// The next leg to connect; none once the target is connected.
    pub fn next_leg(&self) -> (leg: Option<Leg>)
        ensures
            leg == self.leg(),
            self.finished ==> leg is None,
            !self.finished ==> (leg matches Some(leg) && (if self.connected < self.chain@.len() {
                leg.end == LegEnd::Bastion(self.connected)
            } else {
                leg.end == LegEnd::Target
            }) && (if self.connected == 0 {
                leg.via is None
            } else {
                leg.via matches Some(via) && via + 1 == self.connected
            })),
    {
        if self.finished {
            return None;
        }
        let end = if self.connected < self.chain.len() {
            LegEnd::Bastion(self.connected)
        } else {
            LegEnd::Target
        };
        let via: Option<usize> = if self.connected == 0 {
            None
        } else {
            Some(self.connected - 1)
        };
        Some(Leg { end, via })
    }

    /// The host at which `leg` ends.
    pub fn leg_host(&self, leg: Leg) -> (host: &Host)
        requires
            leg.end matches LegEnd::Bastion(place) ==> place < self.chain@.len(),
        ensures
            *host == end_of(self.chain@, self.target, leg),
            match leg.end {
                LegEnd::Bastion(place) => *host == self.chain@[place as int],
                LegEnd::Target => *host == self.target,
            },
    {
        match leg.end {
            LegEnd::Bastion(place) => &self.chain[place],
            LegEnd::Target => &self.target,
        }
    }

    /// Starts to connect `leg`: directly, or through the bastion on which it
    /// rides.
    pub fn start_leg(&self, leg: Leg) -> (action: HopAction)
        requires
            leg.end matches LegEnd::Bastion(place) ==> place < self.chain@.len(),
        ensures
            starts_leg(self.chain@, self.target, leg, action),
            ({
                let host = match leg.end {
                    LegEnd::Bastion(place) => self.chain@[place as int],
                    LegEnd::Target => self.target,
                };
                match leg.via {
                    None => action matches HopAction::Connect { address, handler, timeout_ms }
                        && address@ == host.hostname@ + ":"@ + decimal(host.port as nat)
                        && handler.host@ == host.hostname@ && handler.port == host.port
                        && timeout_ms == 10_000,
                    Some(_) => action matches HopAction::OpenTunnel {
                        hostname,
                        port,
                        originator,
                        originator_port,
                        timeout_ms,
                    } && hostname@ == host.hostname@ && port == host.port && originator@
                        == "127.0.0.1"@ && originator_port == 0 && timeout_ms == 10_000,
                }
            }),
    {
        match leg.via {
            None => connect_direct(self.leg_host(leg)),
            Some(_) => connect_tunnelled(self.leg_host(leg)),
        }
    }

    /// Goes on after the next leg was connected, or could not be: each leg that
    /// is connected brings the next one, and the first that is not ends the
    /// walk.
    pub fn leg_finished(&mut self, outcome: Result<(), SshError>) -> (result: Result<(), SshError>)
        ensures
            old(self).wf() && old(self).leg() is Some ==> final(self).wf(),
            match outcome {
                Ok(()) => result == Ok::<(), SshError>(()) && *final(self) == old(self).after_leg(),
                Err(error) => result == Err::<(), SshError>(
                    leg_error(old(self).chain@, old(self).connected as nat, error),
                ) && *final(self) == *old(self),
            },
            final(self).chain == old(self).chain,
            final(self).target == old(self).target,
            outcome is Ok ==> result is Ok && (if old(self).connected < old(self).chain@.len() {
                final(self).connected == old(self).connected + 1 && final(self).finished == old(
                    self,
                ).finished
            } else {
                final(self).connected == old(self).connected && final(self).finished
            }),
            outcome matches Err(error) ==> (result matches Err(reported) && (if old(self).connected
                < old(self).chain@.len() {
                reported matches SshError::ProxyJumpFailed { hop, error: inner } && hop@ == old(
                    self,
                ).chain@[old(self).connected as int].name@ && *inner == error
            } else if old(self).chain@.len() > 0 {
                reported matches SshError::ConnectViaFailed { hop, error: inner } && hop@ == old(
                    self,
                ).chain@[old(self).chain@.len() - 1].name@ && *inner == error
            } else {
                reported == error
            })),
    {
        let bastions: usize = self.chain.len();
        match outcome {
            Ok(()) => {
                if self.connected < bastions {
                    self.connected = self.connected + 1;
                } else {
                    self.finished = true;
                }
                Ok(())
            },
            Err(error) => {
                if self.connected < bastions {
                    let hop = self.chain[self.connected].name.clone();
                    Err(SshError::ProxyJumpFailed { hop, error: Box::new(error) })
                } else if bastions > 0 {
                    let hop = self.chain[bastions - 1].name.clone();
                    Err(SshError::ConnectViaFailed { hop, error: Box::new(error) })
                } else {
                    Err(error)
                }
            },
        }
    }
}

/// All legs of the walk along `bastions` bastions, in order.
pub open spec fn legs(bastions: nat) -> Seq<Leg> {
    Seq::new(bastions + 1, |n: int| leg_at(bastions, n as nat))
}

/// The first leg is the only direct one. Every later leg rides on the bastion
/// at which the leg before it ended, and the last leg ends at the target.
pub proof fn legs_ride_on_each_other(bastions: nat)
    requires
        bastions <= usize::MAX,
    ensures
        legs(bastions)[0].via is None,
        forall|n: int|
            #![trigger legs(bastions)[n]]
            0 < n <= bastions ==> (legs(bastions)[n].via matches Some(via) && via == n - 1 && legs(
                bastions,
            )[n - 1].end == LegEnd::Bastion(via)),
        legs(bastions).last().end == LegEnd::Target,
{
}

/// What the rest of the walk comes to, given the outcome of each leg.
pub open spec fn route_result(
    route: Route,
    outcomes: spec_fn(Leg) -> Result<(), SshError>,
) -> Result<(), SshError>
    decreases route.legs_left(),
    when route.wf()
{
    match route.leg() {
        None => Ok(()),
        Some(leg) => match outcomes(leg) {
            Err(error) => Err(leg_error(route.chain@, route.connected as nat, error)),
            Ok(()) => route_result(route.after_leg(), outcomes),
        },
    }
}

/// The walk succeeds exactly when every bastion and the target were connected.
pub proof fn route_needs_every_leg(
    chain: Vec<Host>,
    target: Host,
    outcomes: spec_fn(Leg) -> Result<(), SshError>,
)
    ensures
        route_result(Route { chain, target, connected: 0, finished: false }, outcomes) is Ok
            <==> forall|n: int|
            0 <= n < legs(chain@.len()).len() ==> outcomes(#[trigger] legs(chain@.len())[n]) is Ok,
{
    let route = Route { chain, target, connected: 0, finished: false };
    if forall|n: int|
        0 <= n < legs(chain@.len()).len() ==> outcomes(#[trigger] legs(chain@.len())[n]) is Ok {
        lemma_route_connects(route, outcomes);
    } else {
        let failed = choose|n: int|
            0 <= n < legs(chain@.len()).len() && !(outcomes(#[trigger] legs(chain@.len())[n]) is Ok);
        lemma_route_stops(route, failed as nat, outcomes);
    }
}

proof fn lemma_route_connects(route: Route, outcomes: spec_fn(Leg) -> Result<(), SshError>)
    requires
        route.wf(),
        forall|n: int|
            0 <= n < legs(route.chain@.len()).len() ==> outcomes(
                #[trigger] legs(route.chain@.len())[n],
            ) is Ok,
    ensures
        route_result(route, outcomes) is Ok,
    decreases route.legs_left(),
{
    if !route.finished {
        assert(legs(route.chain@.len())[route.connected as int] == route.leg()->0);
        lemma_route_connects(route.after_leg(), outcomes);
    }
}

proof fn lemma_route_stops(
    route: Route,
    failed: nat,
    outcomes: spec_fn(Leg) -> Result<(), SshError>,
)
    requires
        route.wf(),
        !route.finished,
        route.connected <= failed <= route.chain@.len(),
        outcomes(legs(route.chain@.len())[failed as int]) is Err,
    ensures
        route_result(route, outcomes) is Err,
    decreases failed - route.connected,
{
    if route.connected < failed {
        lemma_route_stops(route.after_leg(), failed, outcomes);
    }
}

/// The walk ends at the first leg that fails, and reports that failure.
pub proof fn route_reports_first_failure(
    chain: Vec<Host>,
    target: Host,
    failed: nat,
    outcomes: spec_fn(Leg) -> Result<(), SshError>,
)
    requires
        failed < legs(chain@.len()).len(),
        outcomes(legs(chain@.len())[failed as int]) is Err,
        forall|n: int| 0 <= n < failed ==> outcomes(#[trigger] legs(chain@.len())[n]) is Ok,
    ensures
        route_result(Route { chain, target, connected: 0, finished: false }, outcomes) == Err::<
            (),
            SshError,
        >(leg_error(chain@, failed, outcomes(legs(chain@.len())[failed as int])->Err_0)),
{
    lemma_route_reports_first_failure(
        Route { chain, target, connected: 0, finished: false },
        failed,
        outcomes,
    );
}

proof fn lemma_route_reports_first_failure(
    route: Route,
    failed: nat,
    outcomes: spec_fn(Leg) -> Result<(), SshError>,
)
    requires
        route.wf(),
        !route.finished,
        route.connected <= failed <= route.chain@.len(),
        outcomes(legs(route.chain@.len())[failed as int]) is Err,
        forall|n: int| 0 <= n < failed ==> outcomes(#[trigger] legs(route.chain@.len())[n]) is Ok,
    ensures
        route_result(route, outcomes) == Err::<(), SshError>(
            leg_error(
                route.chain@,
                failed,
                outcomes(legs(route.chain@.len())[failed as int])->Err_0,
            ),
        ),
    decreases failed - route.connected,
{
    if route.connected < failed {
        assert(legs(route.chain@.len())[route.connected as int] == route.leg()->0);
        lemma_route_reports_first_failure(route.after_leg(), failed, outcomes);
    }
}

/// The host at which `leg` ends.
pub open spec fn end_of(chain: Seq<Host>, target: Host, leg: Leg) -> Host {
    match leg.end {
        LegEnd::Bastion(place) => chain[place as int],
        LegEnd::Target => target,
    }
}

/// A leg that ends at a bastion ends at the host with that very place in the
/// chain, and one that ends at the target ends at the target, whatever it rides
/// on.
pub proof fn leg_ends_at_its_place(
    chain: Seq<Host>,
    target: Host,
    place: usize,
    via: Option<usize>,
)
    ensures
        place < chain.len() ==> end_of(chain, target, Leg { end: LegEnd::Bastion(place), via })
            == chain[place as int],
        end_of(chain, target, Leg { end: LegEnd::Target, via }) == target,
{
}

/// The host of a leg that ends at a bastion is the one at that place in the chain,
/// counted from its beginning; that of a leg that ends at the target is the
/// target.
pub proof fn leg_host_is_at_its_place(
    route: &Route,
    place: usize,
    via: Option<usize>,
    bastion: &Host,
    last: &Host,
)
    requires
        place < route.chain@.len(),
        call_ensures(Route::leg_host, (route, Leg { end: LegEnd::Bastion(place), via }), bastion),
        call_ensures(Route::leg_host, (route, Leg { end: LegEnd::Target, via }), last),
    ensures
        *bastion == route.chain@[place as int],
        *last == route.target,
{
}

/// A walk begins with a direct connection: to the first bastion, or to the target
/// where there is none.
pub proof fn walk_begins_directly(
    chain: Vec<Host>,
    target: Host,
    route: Route,
    leg: Leg,
    action: HopAction,
)
    requires
        call_ensures(connect_and_auth, (chain, target), route),
        call_ensures(Route::next_leg, (&route,), Some(leg)),
        call_ensures(Route::start_leg, (&route, leg), action),
    ensures
        ({
            let first = if chain@.len() > 0 {
                chain@[0]
            } else {
                target
            };
            action matches HopAction::Connect { address, handler, .. } && address@
                == first.hostname@ + ":"@ + decimal(first.port as nat) && handler.host@
                == first.hostname@ && handler.port == first.port
        }),
{
}

/// The legs of the walk connect the bastions in the order of the chain, and then
/// the target: the leg with the number `n` connects the bastion at place `n`, by
/// way of the bastion just before it, and the one after the last bastion
/// connects the target.
pub proof fn legs_follow_the_chain(chain: Seq<Host>, target: Host, n: nat)
    requires
        chain.len() <= usize::MAX,
        n <= chain.len(),
    ensures
        legs(chain.len()).len() == chain.len() + 1,
        end_of(chain, target, legs(chain.len())[n as int]) == (if n < chain.len() {
            chain[n as int]
        } else {
            target
        }),
        n == 0 ==> legs(chain.len())[n as int].via is None,
        n > 0 ==> (legs(chain.len())[n as int].via matches Some(via) && via + 1 == n
            && chain[via as int] == end_of(chain, target, legs(chain.len())[n - 1])),
{
}

/// The walk after `count` more legs were connected.
pub open spec fn walked(route: Route, count: nat) -> Route
    decreases count,
{
    if count == 0 {
        route
    } else {
        walked(route, (count - 1) as nat).after_leg()
    }
}

/// The walk from its beginning: after `n` legs were connected, the next one
/// connects the bastion at place `n`, then the target, and then there is none.
pub proof fn walk_follows_the_chain(chain: Vec<Host>, target: Host, n: nat)
    requires
        n <= chain@.len() + 1,
    ensures
        ({
            let route = walked(Route { chain, target, connected: 0, finished: false }, n);
            &&& route.chain == chain
            &&& route.target == target
            &&& n < chain@.len() ==> (route.leg() matches Some(leg) && end_of(chain@, target, leg)
                == chain@[n as int])
            &&& n == chain@.len() ==> (route.leg() matches Some(leg) && end_of(chain@, target, leg)
                == target)
            &&& n <= chain@.len() ==> route.leg() == Some(legs(chain@.len())[n as int])
            &&& n > chain@.len() ==> route.leg() is None
        }),
{
    lemma_walked(chain, target, n);
}

proof fn lemma_walked(chain: Vec<Host>, target: Host, n: nat)
    requires
        n <= chain@.len() + 1,
    ensures
        walked(Route { chain, target, connected: 0, finished: false }, n) == (if n <= chain.len() {
            Route { chain, target, connected: n as usize, finished: false }
        } else {
            Route { chain, target, connected: chain.len(), finished: true }
        }),
    decreases n,
{
    if n > 0 {
        lemma_walked(chain, target, (n - 1) as nat);
    }
}

/// A leg is begun at the host at which it ends. Its first request names the
/// hostname and the port of that host: the bastion at place `n` of the chain for
/// leg `n`, and the target for the last leg. Only the first leg is direct.
pub proof fn leg_request_leads_to_its_host(
    chain: Seq<Host>,
    target: Host,
    n: nat,
    action: HopAction,
)
    requires
        chain.len() <= usize::MAX,
        n <= chain.len(),
        starts_leg(chain, target, legs(chain.len())[n as int], action),
    ensures
        ({
            let host = if n < chain.len() {
                chain[n as int]
            } else {
                target
            };
            &&& n == 0 ==> (action matches HopAction::Connect { address, handler, .. } && address@
                == host.hostname@ + ":"@ + decimal(host.port as nat) && handler.host@
                == host.hostname@ && handler.port == host.port)
            &&& n > 0 ==> (action matches HopAction::OpenTunnel { hostname, port, .. } && hostname@
                == host.hostname@ && port == host.port)
        }),
{
}

/// The failure of a leg names the bastion that this leg was to connect, by its
/// place in the chain; that of the last leg names the last bastion, through which
/// the target was to be connected. Without bastions the failure is reported as it
/// is.
pub proof fn failure_names_the_bastion(chain: Seq<Host>, n: nat, error: SshError)
    ensures
        n < chain.len() ==> (leg_error(chain, n, error) matches SshError::ProxyJumpFailed {
            hop,
            error: inner,
        } && hop@ == chain[n as int].name@ && *inner == error),
        n >= chain.len() && chain.len() > 0 ==> (leg_error(
            chain,
            n,
            error,
        ) matches SshError::ConnectViaFailed { hop, error: inner } && hop@ == chain[chain.len()
            - 1].name@ && *inner == error),
        chain.len() == 0 ==> leg_error(chain, n, error) == error,
{
}

/// Whether `action` starts the connection that `leg` asks for: to the host at
/// which it ends, directly or through a tunnel.
pub open spec fn starts_leg(chain: Seq<Host>, target: Host, leg: Leg, action: HopAction) -> bool {
    if leg.via is None {
        starts_direct(end_of(chain, target, leg), action)
    } else {
        starts_tunnelled(end_of(chain, target, leg), action)
    }
}

/// Whether each leg of the walk along `chain` to `target` is begun as it asks.
pub open spec fn starts_every_leg(
    chain: Seq<Host>,
    target: Host,
    starts: spec_fn(Leg) -> HopAction,
) -> bool {
    forall|n: int|
        0 <= n < legs(chain.len()).len() ==> {
            let leg = #[trigger] legs(chain.len())[n];
            starts_leg(chain, target, leg, starts(leg))
        }
}

/// Whether all that `leg` needs was done, and in time.
pub open spec fn hop_connected(leg: Leg, replies: HopReplies) -> bool {
    &&& leg.via is Some ==> replies.tunnel is Done && replies.tunnel_ms < CONNECT_TIMEOUT_MS
    &&& replies.session is Done
    &&& replies.session_ms <= CONNECT_TIMEOUT_MS
    &&& replies.accepted
}

/// The target is reached exactly when, on every leg, the tunnel opened where the
/// leg needs one, the handshake was done, both within the time of one hop, and
/// the authentication was accepted: no bastion is passed without authenticating
/// to it.
pub proof fn target_needs_every_hop_authenticated(
    chain: Vec<Host>,
    target: Host,
    starts: spec_fn(Leg) -> HopAction,
    replies: spec_fn(Leg) -> HopReplies,
)
    requires
        starts_every_leg(chain@, target, starts),
    ensures
        route_result(
            Route { chain, target, connected: 0, finished: false },
            |leg: Leg| hop_result(end_of(chain@, target, leg), starts(leg), replies(leg)),
        ) is Ok <==> forall|n: int|
            0 <= n < legs(chain@.len()).len() ==> {
                let leg = #[trigger] legs(chain@.len())[n];
                hop_connected(leg, replies(leg))
            },
{
    let outcomes = |leg: Leg| hop_result(end_of(chain@, target, leg), starts(leg), replies(leg));
    route_needs_every_leg(chain, target, outcomes);
    let all = legs(chain@.len());
    assert forall|n: int| 0 <= n < all.len() implies (outcomes(#[trigger] all[n]) is Ok
        <==> hop_connected(all[n], replies(all[n]))) by {
        let leg = all[n];
        assert(starts_leg(chain@, target, leg, starts(leg)));
        hop_reports_first_failure(end_of(chain@, target, leg), starts(leg), replies(leg));
    }
}

/// What connecting to `target` comes to as a whole: finding its bastions from
/// `action` on, and then the walk along them, given the outcome of each leg.
pub open spec fn connect_result(
    action: ChainAction,
    list: HostList,
    resolve: spec_fn(Seq<Host>) -> Result<Vec<Host>, String>,
    target: Host,
    outcomes: spec_fn(Leg) -> Result<(), SshError>,
) -> Result<(), SshError> {
    match found_chain(action, list, resolve) {
        Err(error) => Err(error),
        Ok(chain) => route_result(
            Route { chain, target, connected: 0, finished: false },
            outcomes,
        ),
    }
}

/// Connecting succeeds exactly when the bastions are found and every leg of the
/// walk along them is connected. Where they are not found, that is the error,
/// and nothing is connected.
pub proof fn connect_needs_chain_and_every_leg(
    action: ChainAction,
    list: HostList,
    resolve: spec_fn(Seq<Host>) -> Result<Vec<Host>, String>,
    target: Host,
    outcomes: spec_fn(Leg) -> Result<(), SshError>,
)
    ensures
        match found_chain(action, list, resolve) {
            Err(error) => connect_result(action, list, resolve, target, outcomes) == Err::<
                (),
                SshError,
            >(error),
            Ok(chain) => connect_result(action, list, resolve, target, outcomes) is Ok <==> forall|
                n: int,
            |
                0 <= n < legs(chain@.len()).len() ==> outcomes(
                    #[trigger] legs(chain@.len())[n],
                ) is Ok,
        },
{
    if let Ok(chain) = found_chain(action, list, resolve) {
        route_needs_every_leg(chain, target, outcomes);
    }
}

/// Where the bastions are found and a leg fails, connecting reports the first
/// leg that does.
pub proof fn connect_reports_first_failure(
    action: ChainAction,
    list: HostList,
    resolve: spec_fn(Seq<Host>) -> Result<Vec<Host>, String>,
    target: Host,
    chain: Vec<Host>,
    failed: nat,
    outcomes: spec_fn(Leg) -> Result<(), SshError>,
)
    requires
        found_chain(action, list, resolve) == Ok::<Vec<Host>, SshError>(chain),
        failed < legs(chain@.len()).len(),
        outcomes(legs(chain@.len())[failed as int]) is Err,
        forall|n: int| 0 <= n < failed ==> outcomes(#[trigger] legs(chain@.len())[n]) is Ok,
    ensures
        connect_result(action, list, resolve, target, outcomes) == Err::<(), SshError>(
            leg_error(chain@, failed, outcomes(legs(chain@.len())[failed as int])->Err_0),
        ),
{
    route_reports_first_failure(chain, target, failed, outcomes);
}

/// The bastions of a chain; one that was not found costs nothing to connect.
pub open spec fn hops(chain: Result<Vec<Host>, SshError>) -> usize {
    match chain {
        Ok(chain) => chain.len(),
        Err(_) => 0,
    }
}

/// Seconds that connecting through the given chain may take. The number of
/// bastions is taken as 32 bits wide.
pub open spec fn budget_secs(chain: Result<Vec<Host>, SshError>) -> int {
    CONNECT_TIMEOUT_SECS * (hops(chain) as u32 + 1)
}

/// Each bastion costs as much time as the target does: ten seconds for every
/// connection there is to make. A chain that was not found costs no more than an
/// empty one.
pub proof fn budget_is_ten_seconds_each(chain: Vec<Host>, error: SshError)
    requires
        chain.len() < u32::MAX,
    ensures
        budget_secs(Ok(chain)) == 10 * (chain@.len() + 1),
        budget_secs(Err(error)) == 10,
{
}

/// Seconds that connecting through the given chain may take: the connect
/// timeout once for every bastion, and once for the target.
pub fn connect_budget(chain: &Result<Vec<Host>, SshError>) -> (secs: u64)
    requires
        (hops(*chain) as u32) < u32::MAX,
    ensures
        secs == budget_secs(*chain),
        match *chain {
            Ok(bastions) => secs == 10 * (bastions.len() as u32 + 1),
            Err(_) => secs == 10,
        },
{
    let hops: usize = match chain {
        Ok(chain) => chain.len(),
        Err(_) => 0,
    };
    CONNECT_TIMEOUT_SECS * (hops as u32 + 1) as u64
}

/// The milliseconds that the first `count` legs of the walk along `chain` may
/// take together, each from its beginning to the latest end of its last stage.
pub open spec fn walk_ms(
    chain: Seq<Host>,
    target: Host,
    starts: spec_fn(Leg) -> HopAction,
    replies: spec_fn(Leg) -> HopReplies,
    count: nat,
) -> int
    decreases count,
{
    if count == 0 {
        0
    } else {
        let leg = legs(chain.len())[count - 1];
        walk_ms(chain, target, starts, replies, (count - 1) as nat) + latest_end_ms(
            end_of(chain, target, leg),
            starts(leg),
            0,
            replies(leg),
        )
    }
}

/// All the time that is granted on the walk is within the budget, whatever each
/// stage takes of it.
pub proof fn budget_covers_every_leg(
    chain: Vec<Host>,
    target: Host,
    starts: spec_fn(Leg) -> HopAction,
    replies: spec_fn(Leg) -> HopReplies,
)
    requires
        chain@.len() < u32::MAX,
        starts_every_leg(chain@, target, starts),
    ensures
        walk_ms(chain@, target, starts, replies, legs(chain@.len()).len()) <= 1000 * budget_secs(
            Ok(chain),
        ),
{
    lemma_walk_ms(chain@, target, starts, replies, legs(chain@.len()).len());
    assert(hops(Ok(chain)) as u32 == chain@.len());
}

proof fn lemma_walk_ms(
    chain: Seq<Host>,
    target: Host,
    starts: spec_fn(Leg) -> HopAction,
    replies: spec_fn(Leg) -> HopReplies,
    count: nat,
)
    requires
        count <= legs(chain.len()).len(),
        starts_every_leg(chain, target, starts),
    ensures
        walk_ms(chain, target, starts, replies, count) <= CONNECT_TIMEOUT_MS * count,
    decreases count,
{
    if count > 0 {
        lemma_walk_ms(chain, target, starts, replies, (count - 1) as nat);
        let leg = legs(chain.len())[count - 1];
        assert(starts_leg(chain, target, leg, starts(leg)));
        hop_ends_in_time(end_of(chain, target, leg), starts(leg), replies(leg));
    }
}

} // verus!
