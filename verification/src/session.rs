//! The session: what is started, in which order, and what each outcome leads
//! to. The session decides; the caller does the work that it hands out and
//! reports back what came of it.

use crate::address::{dotted, parse_dotted, Address};
use crate::command::{text_view, GetStatusResponse, RunPayload, RunResponse, TestPayload, TestResponse};
use crate::endpoint::{
    endpoint_failure, host_of, host_to_look_up, random_local_addr, resolve_addr,
    resolved_endpoint, split_point, Endpoint, HostAddress,
};
use crate::error::{Error, ErrorKind, Failure};
use crate::interface::{interface, usable_from, NetworkInterface};
use crate::network::Network;
use crate::plan::{plan_device, planned, Plan};
use crate::status::Status;
use vstd::prelude::*;
use vstd::string::*;

verus! {

/// What a session was asked for.
#[derive(Debug)]
pub enum Request {
    /// To classify the NAT in front of the proxy.
    Test(TestPayload),
    /// To run: to redirect the traffic of the device through the proxy.
    Run(RunPayload),
}

impl Request {
    /// The proxy, as `host:port`.
    pub open spec fn destination_of(self) -> String {
        match self {
            Request::Test(p) => p.destination,
            Request::Run(p) => p.destination,
        }
    }

    /// The tunnel to reach the proxy through; empty for none.
    pub open spec fn tunnel_of(self) -> String {
        match self {
            Request::Test(p) => p.extra,
            Request::Run(p) => p.extra,
        }
    }

    /// Whether the proxy is reached through a tunnel.
    pub open spec fn tunnelled(self) -> bool {
        self.tunnel_of()@.len() > 0
    }

    /// The user name and the password for the proxy, where it asks for them.
    pub open spec fn credentials_of(self) -> Option<(String, String)> {
        match self {
            Request::Test(p) => if p.authentication {
                Some((p.username, p.password))
            } else {
                None
            },
            Request::Run(p) => if p.authentication {
                Some((p.username, p.password))
            } else {
                None
            },
        }
    }

    /// The proxy, as `host:port`.
    pub fn destination(&self) -> (r: &String)
        ensures
            *r == self.destination_of(),
    {
        match self {
            Request::Test(p) => &p.destination,
            Request::Run(p) => &p.destination,
        }
    }

    /// The tunnel to reach the proxy through; empty for none.
    pub fn tunnel(&self) -> (r: &String)
        ensures
            *r == self.tunnel_of(),
    {
        match self {
            Request::Test(p) => &p.extra,
            Request::Run(p) => &p.extra,
        }
    }

    /// Whether the proxy is reached through a tunnel.
    pub fn is_tunnelled(&self) -> (r: bool)
        ensures
            r == self.tunnelled(),
    {
        self.tunnel().as_str().unicode_len() > 0
    }

    /// The user name and the password for the proxy, where it asks for them.
    pub fn credentials(&self) -> (r: Option<(String, String)>)
        ensures
            r == self.credentials_of(),
    {
        match self {
            Request::Test(p) => if p.authentication {
                Some((p.username.clone(), p.password.clone()))
            } else {
                None
            },
            Request::Run(p) => if p.authentication {
                Some((p.username.clone(), p.password.clone()))
            } else {
                None
            },
        }
    }
}

/// The time that a tunnel is given to settle before it is used, in
/// milliseconds. It is a fixed wait: nothing tells whether the tunnel is up.
pub const SETTLE_MILLIS: u64 = 1000;

/// Work that the session hands out. Each is done by the caller, who reports
/// that it is done or that it failed.
#[derive(Clone, Copy, Debug, PartialEq, Eq)]
pub enum Action {
    /// Look up the host of the destination.
    Lookup,
    /// Find the interfaces of the machine.
    ListInterfaces,
    /// Start the tunnel of the request, listening on `local`.
    StartTunnel { local: Endpoint },
    /// Wait that long for the tunnel to settle.
    Settle { millis: u64 },
    /// Classify the NAT in front of `proxy`, with the credentials of the request.
    Classify { proxy: Endpoint },
    /// Start to redirect the traffic of the device, on the interface of the
    /// request and with its credentials.
    StartRedirection { mtu: usize, network: Network, publish: Option<Address>, proxy: Endpoint },
    /// Start to measure the latency through `proxy`, with the credentials of
    /// the request.
    StartProbe { proxy: Endpoint },
}

/// What the session answers to a request or a report.
#[derive(Debug)]
pub enum Step {
    /// The work to do next.
    Do(Action),
    /// The classification is made.
    Tested(TestResponse),
    /// The session runs.
    Started(RunResponse),
    /// The request has failed.
    Failed(Error),
    /// The report is not of the work that was handed out: nothing has changed.
    Ignored,
}

/// An answer of the session as contracts speak of it.
pub enum Reply {
    Do(Action),
    Tested { class: Seq<char>, remote: Option<Address> },
    Started { class: Seq<char>, remote: Option<Address>, plan: Plan },
    Failed(Failure),
    Ignored,
}

/// The text of an address that may be missing.
pub open spec fn remote_text(remote: Option<Address>) -> Option<Seq<char>> {
    match remote {
        Some(a) => Some(dotted(a.bits)),
        None => None,
    }
}

/// Whether `step` is the answer `reply`.
pub open spec fn step_is(step: Step, reply: Reply) -> bool {
    match (step, reply) {
        (Step::Do(a), Reply::Do(b)) => a == b,
        (Step::Tested(t), Reply::Tested { class, remote }) => t.nat@ == class && text_view(t.ip)
            == remote_text(remote),
        (Step::Started(r), Reply::Started { class, remote, plan }) => {
            &&& r.nat@ == class
            &&& text_view(r.remote_ip) == remote_text(remote)
            &&& r.src_ip@ == plan.network.range_text()
            &&& r.mask@ == dotted(plan.mask.bits)
            &&& r.gateway@ == dotted(plan.gateway.bits)
            &&& r.mtu == plan.mtu
        },
        (Step::Failed(e), Reply::Failed(failure)) => e.reports(failure),
        (Step::Ignored, Reply::Ignored) => true,
        _ => false,
    }
}

/// Where a session stands.
#[derive(Clone, Copy, Debug, PartialEq, Eq, Structural)]
pub enum Phase {
    /// Nothing runs and nothing is being started.
    Idle,
    /// A request is being carried out.
    Starting,
    /// The session runs.
    Running,
}

/// The kind of the error that a failure of the given work is.
pub open spec fn failure_kind(action: Action) -> ErrorKind {
    match action {
        Action::Lookup => ErrorKind::Addressing,
        Action::ListInterfaces => ErrorKind::NotFound,
        Action::StartTunnel { .. } => ErrorKind::Tunnel,
        Action::Settle { .. } => ErrorKind::Tunnel,
        Action::Classify { .. } => ErrorKind::Classification,
        Action::StartRedirection { .. } => ErrorKind::Redirection,
        Action::StartProbe { .. } => ErrorKind::Other,
    }
}

/// Whether the session is marked as running while the given work is done:
/// from the tunnel on.
pub open spec fn marked_running(action: Action) -> bool {
    !(action is Lookup || action is ListInterfaces)
}

/// The work that follows once the status is set: the tunnel where the request
/// has one, else the classification.
pub open spec fn first_work(request: Request, proxy: Endpoint) -> Action {
    if request.tunnelled() {
        Action::StartTunnel { local: proxy }
    } else {
        Action::Classify { proxy }
    }
}

/// A session: the request in progress, the work handed out for it, what has
/// been found out so far, and the status.
#[derive(Debug)]
pub struct Session {
    /// The work that was handed out and has not been reported on.
    pub pending: Option<Action>,
    /// The request last taken up.
    pub request: Option<Request>,
    /// The status that pollers see.
    pub status: Status,
    /// The proxy, once it is resolved.
    pub proxy: Endpoint,
    /// The addressing of the device, once it is planned.
    pub plan: Option<Plan>,
    /// The class of the NAT, once it is known.
    pub class: String,
    /// The address that the proxy shows to the outside, once it was seen.
    pub remote: Option<Address>,
}

impl Session {
    /// Where the session stands.
    pub open spec fn phase_of(self) -> Phase {
        if self.pending is Some {
            Phase::Starting
        } else if self.status.is_running {
            Phase::Running
        } else {
            Phase::Idle
        }
    }

    /// The session once the proxy of `request` is known, with its answer. A
    /// run goes on to find the interface; a test marks the session as running
    /// and goes on to its first work.
    pub open spec fn with_proxy(self, request: Request, proxy: Endpoint) -> (Session, Reply) {
        match request {
            Request::Run(_) => (
                Session {
                    pending: Some(Action::ListInterfaces),
                    request: Some(request),
                    proxy,
                    ..self
                },
                Reply::Do(Action::ListInterfaces),
            ),
            Request::Test(_) => (
                Session {
                    pending: Some(first_work(request, proxy)),
                    request: Some(request),
                    proxy,
                    status: Status { is_running: true, ..self.status },
                    ..self
                },
                Reply::Do(first_work(request, proxy)),
            ),
        }
    }

    /// The session after `request` is taken up, with its answer, where
    /// `local` is the endpoint picked for a tunnel. A request that fails here
    /// leaves the session as it was.
    pub open spec fn begun(self, request: Request, local: Endpoint) -> (Session, Reply) {
        let destination = request.destination_of()@;
        if request.tunnelled() {
            self.with_proxy(request, local)
        } else if split_point(destination) is None {
            (self, Reply::Failed(endpoint_failure(destination, Seq::empty())))
        } else if parse_dotted(host_of(destination)) is None {
            (
                Session { pending: Some(Action::Lookup), request: Some(request), ..self },
                Reply::Do(Action::Lookup),
            )
        } else {
            match resolved_endpoint(destination, Seq::empty()) {
                Some(proxy) => self.with_proxy(request, proxy),
                None => (self, Reply::Failed(endpoint_failure(destination, Seq::empty()))),
            }
        }
    }

    /// The session after the host of the destination was looked up and
    /// `found`, with its answer.
    pub open spec fn after_lookup(self, found: Seq<HostAddress>) -> (Session, Reply) {
        match (self.pending, self.request) {
            (Some(Action::Lookup), Some(request)) => match resolved_endpoint(
                request.destination_of()@,
                found,
            ) {
                Some(proxy) => self.with_proxy(request, proxy),
                None => (
                    Session { pending: None, ..self },
                    Reply::Failed(endpoint_failure(request.destination_of()@, found)),
                ),
            },
            _ => (self, Reply::Ignored),
        }
    }

    /// The session after the interfaces `found` were listed, with its answer.
    /// With the interface of the request found and the device planned, the
    /// status is set: running, nothing measured, nothing counted.
    pub open spec fn after_interfaces(self, found: Seq<NetworkInterface>) -> (Session, Reply) {
        match (self.pending, self.request) {
            (Some(Action::ListInterfaces), Some(Request::Run(config))) => match usable_from(
                found,
                config.interface@,
                0,
            ) {
                None => (
                    Session { pending: None, ..self },
                    Reply::Failed(Failure::worded(ErrorKind::NotFound, "entity not found"@)),
                ),
                Some(i) => match planned(config, found[i]) {
                    Err(failure) => (Session { pending: None, ..self }, Reply::Failed(failure)),
                    Ok(plan) => (
                        Session {
                            pending: Some(first_work(Request::Run(config), self.proxy)),
                            plan: Some(plan),
                            status: Status::fresh(true),
                            ..self
                        },
                        Reply::Do(first_work(Request::Run(config), self.proxy)),
                    ),
                },
            },
            _ => (self, Reply::Ignored),
        }
    }

    /// The session after the tunnel has started, with its answer.
    pub open spec fn after_tunnel(self) -> (Session, Reply) {
        match self.pending {
            Some(Action::StartTunnel { .. }) => (
                Session { pending: Some(Action::Settle { millis: SETTLE_MILLIS }), ..self },
                Reply::Do(Action::Settle { millis: SETTLE_MILLIS }),
            ),
            _ => (self, Reply::Ignored),
        }
    }

    /// The session after the tunnel has settled, with its answer.
    pub open spec fn after_settling(self) -> (Session, Reply) {
        match self.pending {
            Some(Action::Settle { .. }) => (
                Session { pending: Some(Action::Classify { proxy: self.proxy }), ..self },
                Reply::Do(Action::Classify { proxy: self.proxy }),
            ),
            _ => (self, Reply::Ignored),
        }
    }

    /// The session after the NAT was classified as `class`, with `remote` seen
    /// as the address of the proxy, and its answer. That ends a test, which
    /// marks the session as not running; a run goes on to redirect.
    pub open spec fn after_classification(self, class: String, remote: Option<Address>) -> (
        Session,
        Reply,
    ) {
        match (self.pending, self.request, self.plan) {
            (Some(Action::Classify { .. }), Some(Request::Test(_)), _) => (
                Session { pending: None, class, remote, status: self.status.halted(), ..self },
                Reply::Tested { class: class@, remote },
            ),
            (Some(Action::Classify { .. }), Some(Request::Run(_)), Some(plan)) => {
                let next = Action::StartRedirection {
                    mtu: plan.mtu,
                    network: plan.network,
                    publish: plan.publish,
                    proxy: self.proxy,
                };
                (Session { pending: Some(next), class, remote, ..self }, Reply::Do(next))
            },
            _ => (self, Reply::Ignored),
        }
    }

    /// The session after the redirection has started, with its answer.
    pub open spec fn after_redirection(self) -> (Session, Reply) {
        match self.pending {
            Some(Action::StartRedirection { .. }) => (
                Session { pending: Some(Action::StartProbe { proxy: self.proxy }), ..self },
                Reply::Do(Action::StartProbe { proxy: self.proxy }),
            ),
            _ => (self, Reply::Ignored),
        }
    }

    /// The session after the latency probe has started, with its answer: the
    /// session runs.
    pub open spec fn after_probe(self) -> (Session, Reply) {
        match (self.pending, self.plan) {
            (Some(Action::StartProbe { .. }), Some(plan)) => (
                Session { pending: None, ..self },
                Reply::Started { class: self.class@, remote: self.remote, plan },
            ),
            _ => (self, Reply::Ignored),
        }
    }

    /// The session after the work handed out has failed with `message`, and
    /// its answer: the request has failed with that message, and a session
    /// that was marked as running no longer is.
    pub open spec fn after_failure(self, message: Seq<char>) -> (Session, Reply) {
        match self.pending {
            Some(action) => (
                Session {
                    pending: None,
                    status: if marked_running(action) {
                        self.status.halted()
                    } else {
                        self.status
                    },
                    ..self
                },
                Reply::Failed(Failure::worded(failure_kind(action), message)),
            ),
            None => (self, Reply::Ignored),
        }
    }

    /// The session after a stop: nothing pending, not running, nothing
    /// measured, nothing counted.
    pub open spec fn stopped(self) -> Session {
        Session { pending: None, status: Status::fresh(false), ..self }
    }
}

/// The text of an address that may be missing.
pub fn describe_remote(remote: Option<Address>) -> (r: Option<String>)
    ensures
        text_view(r) == remote_text(remote),
{
    match remote {
        Some(a) => Some(a.to_string()),
        None => None,
    }
}

impl Session {
    /// A session at rest, with no request taken up yet.
    pub fn new() -> (r: Session)
        ensures
            r.pending is None,
            r.request is None,
            r.status == Status::fresh(false),
            r.proxy == (Endpoint { ip: Address { bits: 0 }, port: 0 }),
            r.plan is None,
            r.remote is None,
            r.class@.len() == 0,
            r.phase_of() == Phase::Idle,
    {
        Session {
            pending: None,
            request: None,
            status: Status::new(),
            proxy: Endpoint { ip: Address { bits: 0 }, port: 0 },
            plan: None,
            class: String::new(),
            remote: None,
        }
    }

    /// Where the session stands.
    pub fn phase(&self) -> (r: Phase)
        ensures
            r == self.phase_of(),
    {
        if self.pending.is_some() {
            Phase::Starting
        } else if self.status.is_running {
            Phase::Running
        } else {
            Phase::Idle
        }
    }

    fn proceed(&mut self, proxy: Endpoint) -> (r: Step)
        requires
            old(self).request is Some,
        ensures
            *final(self) == old(self).with_proxy(old(self).request.unwrap(), proxy).0,
            step_is(r, old(self).with_proxy(old(self).request.unwrap(), proxy).1),
    {
        let (run, tunnelled) = match &self.request {
            Some(Request::Run(_)) => (true, false),
            Some(request) => (false, request.is_tunnelled()),
            None => (true, false),
        };
        self.proxy = proxy;
        if run {
            self.pending = Some(Action::ListInterfaces);
            Step::Do(Action::ListInterfaces)
        } else {
            let next = if tunnelled {
                Action::StartTunnel { local: proxy }
            } else {
                Action::Classify { proxy }
            };
            self.status.is_running = true;
            self.pending = Some(next);
            Step::Do(next)
        }
    }

    /// Takes up a request, where `local` is the endpoint picked for its
    /// tunnel. The proxy is the tunnel's endpoint, or what the destination
    /// says; where its host is a name, that is looked up first. A request
    /// that fails here leaves the session as it was.
    pub fn start(&mut self, request: Request, local: Endpoint) -> (r: Step)
        ensures
            *final(self) == old(self).begun(request, local).0,
            step_is(r, old(self).begun(request, local).1),
    {
        if request.is_tunnelled() {
            self.request = Some(request);
            return self.proceed(local);
        }
        match host_to_look_up(request.destination().as_str()) {
            Some(_) => {
                self.request = Some(request);
                self.pending = Some(Action::Lookup);
                Step::Do(Action::Lookup)
            },
            None => {
                let nothing: Vec<HostAddress> = Vec::new();
                match resolve_addr(request.destination().as_str(), &nothing) {
                    Ok(proxy) => {
                        self.request = Some(request);
                        self.proceed(proxy)
                    },
                    Err(e) => Step::Failed(e),
                }
            },
        }
    }

    /// Takes up a request. For a tunnel a local endpoint is picked at random.
    pub fn begin(&mut self, request: Request) -> (r: Step)
        ensures
            exists|local: Endpoint|
                {
                    &&& request.tunnelled() ==> local.ip == (Address { bits: 0x7f00_0001 })
                        && local.port >= 32768
                    &&& *final(self) == (#[trigger] old(self).begun(request, local)).0
                    &&& step_is(r, old(self).begun(request, local).1)
                },
    {
        let local = if request.is_tunnelled() {
            random_local_addr()
        } else {
            Endpoint { ip: Address { bits: 0x7f00_0001 }, port: 32768 }
        };
        proof {
            crate::address::loopback_bits();
        }
        self.start(request, local)
    }

    /// Takes up a request to run.
    pub fn run(&mut self, payload: RunPayload) -> (r: Step)
        ensures
            exists|local: Endpoint|
                {
                    &&& Request::Run(payload).tunnelled() ==> local.ip == (Address {
                        bits: 0x7f00_0001,
                    }) && local.port >= 32768
                    &&& *final(self) == (#[trigger] old(self).begun(Request::Run(payload), local)).0
                    &&& step_is(r, old(self).begun(Request::Run(payload), local).1)
                },
    {
        self.begin(Request::Run(payload))
    }

    /// Takes up a request to classify the NAT.
    pub fn test(&mut self, payload: TestPayload) -> (r: Step)
        ensures
            exists|local: Endpoint|
                {
                    &&& Request::Test(payload).tunnelled() ==> local.ip == (Address {
                        bits: 0x7f00_0001,
                    }) && local.port >= 32768
                    &&& *final(self) == (#[trigger] old(self).begun(Request::Test(payload), local)).0
                    &&& step_is(r, old(self).begun(Request::Test(payload), local).1)
                },
    {
        self.begin(Request::Test(payload))
    }

    /// Takes the report that the host of the destination was looked up and
    /// `found`.
    pub fn resolved(&mut self, found: &Vec<HostAddress>) -> (r: Step)
        ensures
            *final(self) == old(self).after_lookup(found@).0,
            step_is(r, old(self).after_lookup(found@).1),
    {
        let outcome = match (&self.pending, &self.request) {
            (Some(Action::Lookup), Some(request)) => resolve_addr(
                request.destination().as_str(),
                found,
            ),
            _ => {
                return Step::Ignored;
            },
        };
        match outcome {
            Ok(proxy) => self.proceed(proxy),
            Err(e) => {
                self.pending = None;
                Step::Failed(e)
            },
        }
    }

    /// Takes the report that the interfaces of the machine are `found`.
    pub fn interfaces_listed(&mut self, found: &Vec<NetworkInterface>) -> (r: Step)
        ensures
            *final(self) == old(self).after_interfaces(found@).0,
            step_is(r, old(self).after_interfaces(found@).1),
    {
        let outcome = match (&self.pending, &self.request) {
            (Some(Action::ListInterfaces), Some(Request::Run(config))) => {
                match interface(found, config.interface.as_str()) {
                    None => Err(Error::describe(ErrorKind::NotFound, "entity not found")),
                    Some(chosen) => match plan_device(config, chosen) {
                        Err(e) => Err(e),
                        Ok(plan) => Ok((plan, config.extra.as_str().unicode_len() > 0)),
                    },
                }
            },
            _ => {
                return Step::Ignored;
            },
        };
        match outcome {
            Err(e) => {
                self.pending = None;
                Step::Failed(e)
            },
            Ok((plan, tunnelled)) => {
                let next = if tunnelled {
                    Action::StartTunnel { local: self.proxy }
                } else {
                    Action::Classify { proxy: self.proxy }
                };
                self.plan = Some(plan);
                self.status.start();
                self.pending = Some(next);
                Step::Do(next)
            },
        }
    }

    /// Takes the report that the tunnel has started.
    pub fn tunnel_started(&mut self) -> (r: Step)
        ensures
            *final(self) == old(self).after_tunnel().0,
            step_is(r, old(self).after_tunnel().1),
    {
        match self.pending {
            Some(Action::StartTunnel { .. }) => {
                let next = Action::Settle { millis: SETTLE_MILLIS };
                self.pending = Some(next);
                Step::Do(next)
            },
            _ => Step::Ignored,
        }
    }

    /// Takes the report that the tunnel has had its time to settle.
    pub fn settled(&mut self) -> (r: Step)
        ensures
            *final(self) == old(self).after_settling().0,
            step_is(r, old(self).after_settling().1),
    {
        match self.pending {
            Some(Action::Settle { .. }) => {
                let next = Action::Classify { proxy: self.proxy };
                self.pending = Some(next);
                Step::Do(next)
            },
            _ => Step::Ignored,
        }
    }

    /// Takes the report that the NAT is of the class `class`, with `remote`
    /// seen as the address of the proxy.
    pub fn classified(&mut self, class: String, remote: Option<Address>) -> (r: Step)
        ensures
            *final(self) == old(self).after_classification(class, remote).0,
            step_is(r, old(self).after_classification(class, remote).1),
    {
        match self.pending {
            Some(Action::Classify { .. }) => {},
            _ => {
                return Step::Ignored;
            },
        }
        let run = match &self.request {
            Some(Request::Test(_)) => false,
            Some(Request::Run(_)) => true,
            None => {
                return Step::Ignored;
            },
        };
        if run {
            match self.plan {
                Some(plan) => {
                    let next = Action::StartRedirection {
                        mtu: plan.mtu,
                        network: plan.network,
                        publish: plan.publish,
                        proxy: self.proxy,
                    };
                    self.class = class;
                    self.remote = remote;
                    self.pending = Some(next);
                    Step::Do(next)
                },
                None => Step::Ignored,
            }
        } else {
            let response = TestResponse { nat: class.clone(), ip: describe_remote(remote) };
            self.class = class;
            self.remote = remote;
            self.status.halt();
            self.pending = None;
            Step::Tested(response)
        }
    }

    /// Takes the report that the redirection has started.
    pub fn redirection_started(&mut self) -> (r: Step)
        ensures
            *final(self) == old(self).after_redirection().0,
            step_is(r, old(self).after_redirection().1),
    {
        match self.pending {
            Some(Action::StartRedirection { .. }) => {
                let next = Action::StartProbe { proxy: self.proxy };
                self.pending = Some(next);
                Step::Do(next)
            },
            _ => Step::Ignored,
        }
    }

    /// Takes the report that the latency probe has started, and describes the
    /// session that now runs.
    pub fn probe_started(&mut self) -> (r: Step)
        ensures
            *final(self) == old(self).after_probe().0,
            step_is(r, old(self).after_probe().1),
    {
        match self.pending {
            Some(Action::StartProbe { .. }) => {},
            _ => {
                return Step::Ignored;
            },
        }
        match self.plan {
            Some(plan) => {
                let response = RunResponse {
                    nat: self.class.clone(),
                    remote_ip: describe_remote(self.remote),
                    src_ip: plan.network.describe_range(),
                    mask: plan.mask.to_string(),
                    gateway: plan.gateway.to_string(),
                    mtu: plan.mtu,
                };
                self.pending = None;
                Step::Started(response)
            },
            None => Step::Ignored,
        }
    }

    /// Takes the report that the work handed out has failed with `message`.
    pub fn failed(&mut self, message: String) -> (r: Step)
        ensures
            *final(self) == old(self).after_failure(message@).0,
            step_is(r, old(self).after_failure(message@).1),
    {
        match self.pending {
            None => Step::Ignored,
            Some(action) => {
                let kind = match action {
                    Action::Lookup => ErrorKind::Addressing,
                    Action::ListInterfaces => ErrorKind::NotFound,
                    Action::StartTunnel { .. } => ErrorKind::Tunnel,
                    Action::Settle { .. } => ErrorKind::Tunnel,
                    Action::Classify { .. } => ErrorKind::Classification,
                    Action::StartRedirection { .. } => ErrorKind::Redirection,
                    Action::StartProbe { .. } => ErrorKind::Other,
                };
                match action {
                    Action::Lookup => {},
                    Action::ListInterfaces => {},
                    _ => {
                        self.status.halt();
                    },
                }
                self.pending = None;
                Step::Failed(Error::with_kind(kind, message))
            },
        }
    }

    /// Stops the session: whatever stage it is at, nothing is pending after,
    /// the session is marked as not running, and latency and counters are
    /// cleared. Stopping a session at rest changes nothing and is no error.
    pub fn stop(&mut self)
        ensures
            *final(self) == old(self).stopped(),
    {
        self.pending = None;
        self.status.stop();
    }

    /// Reports the status and drains the counters.
    pub fn get_status(&mut self) -> (r: GetStatusResponse)
        ensures
            r == old(self).status.snapshot(),
            *final(self) == (Session { status: old(self).status.polled(), ..*old(self) }),
    {
        self.status.poll()
    }

    /// Counts traffic that the device has sent.
    pub fn record_upload(&mut self, size: usize, count: usize)
        ensures
            *final(self) == (Session {
                status: Status { upload: old(self).status.upload.plus(size, count), ..old(self).status },
                ..*old(self)
            }),
    {
        self.status.record_upload(size, count);
    }

    /// Counts traffic that was sent to the device.
    pub fn record_download(&mut self, size: usize, count: usize)
        ensures
            *final(self) == (Session {
                status: Status {
                    download: old(self).status.download.plus(size, count),
                    ..old(self).status
                },
                ..*old(self)
            }),
    {
        self.status.record_download(size, count);
    }

    /// Takes down the latency that the probe has measured.
    pub fn record_latency(&mut self, latency: isize)
        ensures
            *final(self) == (Session { status: Status { latency, ..old(self).status }, ..*old(self) }),
    {
        self.status.record_latency(latency);
    }

    /// Takes the report that a worker has ended: the session no longer runs.
    pub fn worker_stopped(&mut self)
        ensures
            *final(self) == (Session { status: old(self).status.halted(), ..*old(self) }),
    {
        self.status.halt();
    }
}

/// The session that a run leaves once the interfaces `found` are listed and
/// every piece of work that follows is reported as done, with nothing else
/// reported in between; with the answer to the last report.
pub open spec fn run_through(
    session: Session,
    found: Seq<NetworkInterface>,
    class: String,
    remote: Option<Address>,
) -> (Session, Reply) {
    let listed = session.after_interfaces(found).0;
    let ready = if listed.pending matches Some(Action::StartTunnel { .. }) {
        listed.after_tunnel().0.after_settling().0
    } else {
        listed
    };
    ready.after_classification(class, remote).0.after_redirection().0.after_probe()
}

/// A run that gets past the choice of the interface and the planning, and
/// whose work all succeeds, ends with the session running, its latency
/// unmeasured and its four counters at zero, and says so.
pub proof fn run_that_starts_is_running(
    session: Session,
    found: Seq<NetworkInterface>,
    class: String,
    remote: Option<Address>,
)
    requires
        session.after_interfaces(found).1 is Do,
    ensures
        run_through(session, found, class, remote).1 is Started,
        run_through(session, found, class, remote).0.status == Status::fresh(true),
        run_through(session, found, class, remote).0.phase_of() == Phase::Running,
{
}

/// A report that work is done changes neither latency nor counters, but
/// where it sets the status as a whole: only what workers report moves them.
pub proof fn reports_leave_counters(session: Session, class: String, remote: Option<Address>)
    ensures
        session.after_tunnel().0.status == session.status,
        session.after_settling().0.status == session.status,
        session.after_classification(class, remote).0.status.upload == session.status.upload,
        session.after_classification(class, remote).0.status.download == session.status.download,
        session.after_classification(class, remote).0.status.latency == session.status.latency,
        session.after_redirection().0.status == session.status,
        session.after_probe().0.status == session.status,
{
}

/// After a stop the session is at rest: not running, nothing pending,
/// latency and counters at zero.
pub proof fn stopped_session_is_at_rest(session: Session)
    ensures
        session.stopped().phase_of() == Phase::Idle,
        session.stopped().status == Status::fresh(false),
{
}

/// A stop after a stop changes nothing, and a stop of a session at rest
/// changes nothing.
pub proof fn stop_is_idempotent(session: Session)
    ensures
        session.stopped().stopped() == session.stopped(),
        session.pending is None && session.status == Status::fresh(false) ==> session.stopped()
            == session,
{
}

/// Where the redirection fails to start, the session is left not running and
/// with nothing pending, and the request fails with a redirection error that
/// carries the message of the failure.
pub proof fn failed_redirection_stops_the_session(session: Session, message: Seq<char>)
    requires
        session.pending matches Some(Action::StartRedirection { .. }),
    ensures
        !session.after_failure(message).0.status.is_running,
        session.after_failure(message).0.phase_of() == Phase::Idle,
        session.after_failure(message).1 == Reply::Failed(
            Failure::worded(ErrorKind::Redirection, message),
        ),
{
}

/// Whatever work fails once the session is marked as running, the session is
/// left not running: no failed request leaves a session that claims to run.
pub proof fn failure_after_marking_stops_the_session(session: Session, message: Seq<char>)
    requires
        session.pending matches Some(action) && marked_running(action),
    ensures
        session.after_failure(message).0.phase_of() == Phase::Idle,
{
}

/// Nothing that is reported to a session at rest starts it: without a
/// request, every report is ignored.
pub proof fn reports_at_rest_are_ignored(
    session: Session,
    hosts: Seq<HostAddress>,
    found: Seq<NetworkInterface>,
    class: String,
    remote: Option<Address>,
    message: Seq<char>,
)
    requires
        session.pending is None,
    ensures
        session.after_lookup(hosts) == (session, Reply::Ignored),
        session.after_interfaces(found) == (session, Reply::Ignored),
        session.after_tunnel() == (session, Reply::Ignored),
        session.after_settling() == (session, Reply::Ignored),
        session.after_classification(class, remote) == (session, Reply::Ignored),
        session.after_redirection() == (session, Reply::Ignored),
        session.after_probe() == (session, Reply::Ignored),
        session.after_failure(message) == (session, Reply::Ignored),
{
}

} // verus!
