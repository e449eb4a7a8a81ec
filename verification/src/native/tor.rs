//! Tor: the shared client that is initialised at most once, and the plan of an onion service.

use std::path::PathBuf;
use vstd::prelude::*;

use crate::addr::SocketAddress;

verus! {

/// Why the Tor backend failed, with the message of the failure.
#[derive(Debug, Clone, PartialEq, Eq)]
pub enum Error {
    /// Arti Client error
    ArtiClient(String),
    /// Config builder error
    ConfigBuilder(String),
    /// Proxy config error
    ProxyConfig(String),
    /// Invalid nickname
    InvalidNickname(String),
}

/// What the cell of the shared client holds.
pub enum CellState<C, E> {
    /// Nobody has asked for the client yet.
    Empty,
    /// One caller is initialising the client; nothing is published yet.
    Initializing,
    /// The client was initialised, and is shared from now on.
    Ready(C),
    /// The initialisation failed; the failure is handed to every later caller.
    Failed(E),
}

/// What a caller has to do after it asked for the shared client.
#[derive(Debug, Clone, Copy, PartialEq, Eq, Structural)]
pub enum Turn {
    /// Run the initialisation, then publish how it ended.
    Init,
    /// Wait until the initialising caller has published, then ask again.
    Wait,
    /// Read the published outcome.
    Done,
}

/// What happens to the cell: a caller asks for the client, or the initialising caller
/// publishes how the initialisation ended.
pub enum Event<C, E> {
    Request,
    Publish(Result<C, E>),
}

/// The turn of a caller that finds the cell in `state`.
pub open spec fn turn_of<C, E>(state: CellState<C, E>) -> Turn {
    match state {
        CellState::Empty => Turn::Init,
        CellState::Initializing => Turn::Wait,
        CellState::Ready(_) => Turn::Done,
        CellState::Failed(_) => Turn::Done,
    }
}

/// The cell after a caller asked for the client: the first caller takes the initialisation
/// on, and no other request changes the cell.
pub open spec fn after_request<C, E>(state: CellState<C, E>) -> CellState<C, E> {
    match state {
        CellState::Empty => CellState::Initializing,
        _ => state,
    }
}

/// The cell after `outcome` was published: it is taken only while the initialisation is
/// running, so the first outcome is the only one.
pub open spec fn after_publish<C, E>(state: CellState<C, E>, outcome: Result<C, E>) -> CellState<
    C,
    E,
> {
    match state {
        CellState::Initializing => match outcome {
            Ok(client) => CellState::Ready(client),
            Err(err) => CellState::Failed(err),
        },
        _ => state,
    }
}

/// The cell after one event.
pub open spec fn step<C, E>(state: CellState<C, E>, event: Event<C, E>) -> CellState<C, E> {
    match event {
        Event::Request => after_request(state),
        Event::Publish(outcome) => after_publish(state, outcome),
    }
}

/// The cell after a sequence of events, the first of which finds it in `state`.
pub open spec fn run<C, E>(state: CellState<C, E>, events: Seq<Event<C, E>>) -> CellState<C, E>
    decreases events.len(),
{
    if events.len() == 0 {
        state
    } else {
        step(run(state, events.drop_last()), events.last())
    }
}

/// How many of the requests among `events` are told to initialise the client.
pub open spec fn inits<C, E>(state: CellState<C, E>, events: Seq<Event<C, E>>) -> nat
    decreases events.len(),
{
    if events.len() == 0 {
        0
    } else {
        let before = run(state, events.drop_last());
        let told: nat = if events.last() is Request && turn_of(before) == Turn::Init {
            1
        } else {
            0
        };
        inits(state, events.drop_last()) + told
    }
}

/// The cell of the shared client: the one place where callers that race for the first use
/// agree on who initialises it, and where the outcome is kept for all later callers.
pub struct ClientCell<C, E> {
    state: CellState<C, E>,
}

impl<C, E> View for ClientCell<C, E> {
    type V = CellState<C, E>;

    closed spec fn view(&self) -> CellState<C, E> {
        self.state
    }
}

impl<C, E> ClientCell<C, E> {
    /// A cell that nobody has asked yet.
    pub fn new() -> (cell: Self)
        ensures
            cell@ is Empty,
    {
        ClientCell { state: CellState::Empty }
    }

    /// Asks for the client on behalf of one caller, and says what that caller has to do.
    pub fn request(&mut self) -> (turn: Turn)
        ensures
            turn == turn_of(old(self)@),
            final(self)@ == after_request(old(self)@),
    {
        match &self.state {
            CellState::Empty => {
                self.state = CellState::Initializing;
                Turn::Init
            },
            CellState::Initializing => Turn::Wait,
            CellState::Ready(_) => Turn::Done,
            CellState::Failed(_) => Turn::Done,
        }
    }

    /// Publishes how the initialisation ended. Returns whether the outcome was taken: it is
    /// taken once, from the caller that was told to initialise.
    pub fn publish(&mut self, outcome: Result<C, E>) -> (taken: bool)
        ensures
            taken == (old(self)@ is Initializing),
            final(self)@ == after_publish(old(self)@, outcome),
    {
        match &self.state {
            CellState::Initializing => {
                self.state = match outcome {
                    Ok(client) => CellState::Ready(client),
                    Err(err) => CellState::Failed(err),
                };
                true
            },
            _ => false,
        }
    }

    /// The published outcome, if there is one: the client, or the failure of its
    /// initialisation.
    pub fn outcome(&self) -> (r: Option<Result<&C, &E>>)
        ensures
            match self@ {
                CellState::Ready(client) => r == Some(Ok::<&C, &E>(&client)),
                CellState::Failed(err) => r == Some(Err::<&C, &E>(&err)),
                _ => r is None,
            },
    {
        match &self.state {
            CellState::Ready(client) => Some(Ok(client)),
            CellState::Failed(err) => Some(Err(err)),
            _ => None,
        }
    }
}

/// A published outcome is final: no request and no later publication changes it.
pub proof fn lemma_outcome_is_final<C, E>(state: CellState<C, E>, events: Seq<Event<C, E>>)
    requires
        state is Ready || state is Failed,
    ensures
        run(state, events) == state,
        inits(state, events) == 0,
    decreases events.len(),
{
    if events.len() > 0 {
        lemma_outcome_is_final(state, events.drop_last());
    }
}

/// Single flight: however many callers ask for the client, and however their requests fall
/// around the publication, exactly one of them is told to initialise it, and none where
/// nobody asks.
pub proof fn lemma_single_flight<C, E>(events: Seq<Event<C, E>>)
    ensures
        inits(CellState::<C, E>::Empty, events) <= 1,
        inits(CellState::<C, E>::Empty, events) == 1 <==> exists|i: int|
            0 <= i < events.len() && events[i] is Request,
        run(CellState::<C, E>::Empty, events) is Empty <==> inits(
            CellState::<C, E>::Empty,
            events,
        ) == 0,
    decreases events.len(),
{
    if events.len() > 0 {
        let before = events.drop_last();
        lemma_single_flight(before);
        if events.last() is Request {
            assert(events[events.len() - 1] is Request);
        } else {
            if exists|i: int| 0 <= i < events.len() && events[i] is Request {
                let i = choose|i: int| 0 <= i < events.len() && events[i] is Request;
                assert(before[i] is Request);
            }
        }
        if exists|i: int| 0 <= i < before.len() && before[i] is Request {
            let i = choose|i: int| 0 <= i < before.len() && before[i] is Request;
            assert(events[i] is Request);
        }
    }
}

/// Running `first` and then `second` is running the two in a row.
pub proof fn lemma_run_concat<C, E>(
    state: CellState<C, E>,
    first: Seq<Event<C, E>>,
    second: Seq<Event<C, E>>,
)
    ensures
        run(state, first + second) == run(run(state, first), second),
    decreases second.len(),
{
    if second.len() == 0 {
        assert(first + second =~= first);
    } else {
        lemma_run_concat(state, first, second.drop_last());
        assert((first + second).drop_last() =~= first + second.drop_last());
        assert((first + second).last() == second.last());
    }
}

/// Callers observe one outcome: where the cell holds an outcome after the first `i` events,
/// it holds the same outcome after any `j >= i` of them.
pub proof fn lemma_same_outcome<C, E>(events: Seq<Event<C, E>>, i: int, j: int)
    requires
        0 <= i <= j <= events.len(),
        turn_of(run(CellState::<C, E>::Empty, events.take(i))) == Turn::Done,
    ensures
        run(CellState::<C, E>::Empty, events.take(j)) == run(
            CellState::<C, E>::Empty,
            events.take(i),
        ),
{
    let head = events.take(i);
    let rest = events.subrange(i, j);
    assert(events.take(j) =~= head + rest);
    lemma_run_concat(CellState::<C, E>::Empty, head, rest);
    lemma_outcome_is_final(run(CellState::<C, E>::Empty, head), rest);
}

/// The one forwarding rule of an onion service: what arrives at `port` of the service goes
/// to `target`.
#[derive(Debug, Clone, Copy, PartialEq, Eq, Hash)]
pub struct ForwardRule {
    /// The port on which the service is reached.
    pub port: u16,
    /// The local address that takes the connections.
    pub target: SocketAddress,
}

/// What an onion service plan holds, as plain values.
pub struct OnionServicePlanView {
    pub nickname: Seq<char>,
    pub rule: ForwardRule,
    pub custom_path: Option<PathBuf>,
}

/// An onion service whose configuration was found valid: its nickname, its one forwarding
/// rule, and where the shared client keeps its data. There is no other way to a plan than
/// `new`, so whoever holds one has passed the checks, and has passed them before the client
/// or the network was touched.
#[derive(Debug)]
pub struct OnionServicePlan {
    nickname: String,
    rule: ForwardRule,
    custom_path: Option<PathBuf>,
}

impl View for OnionServicePlan {
    type V = OnionServicePlanView;

    closed spec fn view(&self) -> OnionServicePlanView {
        OnionServicePlanView {
            nickname: self.nickname@,
            rule: self.rule,
            custom_path: self.custom_path,
        }
    }
}

impl OnionServicePlan {
    /// The plan of a service named `nickname` that forwards `port` to `addr`.
    /// `port_check` and `nickname_check` say how the proxy rule for `port` and the nickname
    /// fared with the Tor libraries, each failure with its message. A refused port is
    /// reported first, then a refused nickname.
    pub fn new(
        nickname: String,
        addr: SocketAddress,
        port: u16,
        custom_path: Option<PathBuf>,
        port_check: Result<(), String>,
        nickname_check: Result<(), String>,
    ) -> (r: Result<OnionServicePlan, Error>)
        ensures
            port_check matches Err(msg) ==> r == Err::<OnionServicePlan, Error>(
                Error::ProxyConfig(msg),
            ),
            port_check is Ok ==> (nickname_check matches Err(msg) ==> r == Err::<
                OnionServicePlan,
                Error,
            >(Error::InvalidNickname(msg))),
            port_check is Ok && nickname_check is Ok ==> (r matches Ok(plan) && plan@ == (
                OnionServicePlanView {
                    nickname: nickname@,
                    rule: ForwardRule { port, target: addr },
                    custom_path,
                })),
    {
        if let Err(msg) = port_check {
            return Err(Error::ProxyConfig(msg));
        }
        if let Err(msg) = nickname_check {
            return Err(Error::InvalidNickname(msg));
        }
        Ok(OnionServicePlan { nickname, rule: ForwardRule { port, target: addr }, custom_path })
    }

    /// The nickname of the service.
    pub fn nickname(&self) -> (nickname: &str)
        ensures
            nickname@ == self@.nickname,
    {
        self.nickname.as_str()
    }

    /// The forwarding rule of the service.
    pub fn rule(&self) -> (rule: ForwardRule)
        ensures
            rule == self@.rule,
    {
        self.rule
    }

    /// Where the shared client keeps its cache and state, if not in its default place.
    pub fn custom_path(&self) -> (path: Option<&PathBuf>)
        ensures
            path is Some <==> self@.custom_path is Some,
            path matches Some(p) ==> self@.custom_path == Some(*p),
    {
        self.custom_path.as_ref()
    }
}

/// Where a launched onion service stands.
#[derive(Debug, Clone, PartialEq, Eq)]
pub enum ServiceState {
    /// The forwarding task is running.
    Running,
    /// The service ended without a failure: its handle was dropped, or its task returned.
    Stopped,
    /// The forwarding task failed, with the message of the failure.
    Failed(String),
}

/// What happens to a launched onion service.
pub enum ServiceEvent {
    /// The handle of the service was dropped.
    HandleDropped,
    /// The forwarding task ended, in this way.
    TaskEnded(Result<(), String>),
}

/// The state of a service after one event. Only a running service changes: a service that
/// has ended stays as it ended, so a failure is never lost.
pub open spec fn service_step(state: ServiceState, event: ServiceEvent) -> ServiceState {
    match state {
        ServiceState::Running => match event {
            ServiceEvent::HandleDropped => ServiceState::Stopped,
            ServiceEvent::TaskEnded(Ok(_)) => ServiceState::Stopped,
            ServiceEvent::TaskEnded(Err(msg)) => ServiceState::Failed(msg),
        },
        _ => state,
    }
}

/// The state of a service after a sequence of events.
pub open spec fn service_run(state: ServiceState, events: Seq<ServiceEvent>) -> ServiceState
    decreases events.len(),
{
    if events.len() == 0 {
        state
    } else {
        service_step(service_run(state, events.drop_last()), events.last())
    }
}

impl ServiceState {
    /// The state of a service that was just launched.
    pub fn launched() -> (state: Self)
        ensures
            state == ServiceState::Running,
    {
        ServiceState::Running
    }

    /// The state after `event`.
    pub fn on_event(self, event: ServiceEvent) -> (next: Self)
        ensures
            next == service_step(self, event),
    {
        match self {
            ServiceState::Running => match event {
                ServiceEvent::HandleDropped => ServiceState::Stopped,
                ServiceEvent::TaskEnded(Ok(_)) => ServiceState::Stopped,
                ServiceEvent::TaskEnded(Err(msg)) => ServiceState::Failed(msg),
            },
            ended => ended,
        }
    }

    /// Whether the forwarding task is still running.
    pub fn is_running(&self) -> (running: bool)
        ensures
            running == (*self == ServiceState::Running),
    {
        match self {
            ServiceState::Running => true,
            _ => false,
        }
    }

    /// The failure of the forwarding task, if it failed.
    pub fn failure(&self) -> (msg: Option<&str>)
        ensures
            match *self {
                ServiceState::Failed(text) => msg matches Some(m) && m@ == text@,
                _ => msg is None,
            },
    {
        match self {
            ServiceState::Failed(text) => Some(text.as_str()),
            _ => None,
        }
    }
}

/// The end of a service is observable for good: once a service has stopped or failed,
/// whatever happens later leaves that state, and the failure in it, as it is.
pub proof fn lemma_service_end_is_final(state: ServiceState, events: Seq<ServiceEvent>)
    requires
        state != ServiceState::Running,
    ensures
        service_run(state, events) == state,
    decreases events.len(),
{
    if events.len() > 0 {
        lemma_service_end_is_final(state, events.drop_last());
    }
}

/// A failure of the forwarding task of a running service is recorded with its message.
pub proof fn lemma_task_failure_is_recorded(msg: String, later: Seq<ServiceEvent>)
    ensures
        service_run(
            service_step(ServiceState::Running, ServiceEvent::TaskEnded(Err(msg))),
            later,
        ) == ServiceState::Failed(msg),
{
    lemma_service_end_is_final(ServiceState::Failed(msg), later);
}

} // verus!
