//! Looking for a camera.
//!
//! TCP comes first: the candidates are checked one after the other, and the
//! first that answers is the camera. Where none does, UDP discovery runs its
//! allowed arms side by side: a search of the local network, and a
//! registration with a relay that is followed by up to three ways to connect.
//! The first arm that finds the camera ends the search.
//!
//! [`FindCamera`] makes the decisions. A driver carries out its commands, all
//! at the same time, and reports each event as it happens. When the search has
//! ended the driver drops whatever is still running.

use crate::error::Error;
use crate::net::{
    pick_tcp_sockets, pick_udp_sockets, tcp_candidates, udp_candidates, SocketAddr,
};
use crate::options::{BcCameraOpt, ConnectionProtocol, DiscoveryFlags};
use crate::registration::{
    backoff_after, backoff_secs, gives_up, one_more, round_error, was_last_round, Round,
    ROUND_TIMEOUT_SECS,
};
use vstd::prelude::*;

verus! {

/// How long a mapped connection holds back after registration, in
/// milliseconds.
pub const MAP_DELAY_MS: u64 = 250;

/// How long a relayed connection holds back after registration, in
/// milliseconds.
pub const RELAY_DELAY_MS: u64 = 500;

/// Where a camera was found. `D` is what UDP discovery hands over.
#[derive(Debug)]
pub enum CameraLocation<D> {
    /// At this address, over TCP.
    Tcp(SocketAddr),
    /// Through UDP discovery.
    Udp(D),
}

impl<D> CameraLocation<D> {
    /// How the location is shown in messages, given how its address is shown.
    pub fn describe(&self, addr: &str) -> (text: String)
        ensures
            text@ == (if self is Tcp {
                "Tcp("@
            } else {
                "Udp("@
            }) + addr@ + ")"@,
    {
        let prefix = match self {
            CameraLocation::Tcp(_) => "Tcp(",
            CameraLocation::Udp(_) => "Udp(",
        };
        prefix.to_owned().concat(addr).concat(")")
    }
}

/// The ways to find a camera over UDP.
#[derive(Debug, Clone, Copy, PartialEq, Eq, Structural)]
pub enum Method {
    /// Asking around on the local network.
    Local,
    /// A direct connection that the relay arranges.
    Remote,
    /// A connection that the relay maps.
    Mapped,
    /// A connection that the relay forwards.
    Relayed,
}

/// What happened.
#[derive(Debug)]
pub enum Event<D> {
    /// The awaited TCP check is over.
    TcpChecked {
        /// Whether the camera answered.
        reachable: bool,
    },
    /// A fresh discoverer was opened, or could not be.
    Opened(Result<(), Error>),
    /// A registration round is over.
    RoundEnded(Round),
    /// The wait between two rounds is over.
    BackoffElapsed,
    /// A method has found the camera or failed.
    Probed(Method, Result<D, Error>),
}

/// What a driver is to do.
#[derive(Debug)]
pub enum Command {
    /// Check whether the camera answers over TCP.
    CheckTcp { socket: SocketAddr, channel_id: u8 },
    /// Ask around on the local network, at these sockets among others.
    SearchLocally { uid: String, sockets: Vec<SocketAddr> },
    /// Open a fresh discoverer, with a client id of its own, in place of the
    /// one before.
    OpenDiscoverer,
    /// Run a registration round on the discoverer, for this long at most.
    Register { uid: String, timeout_secs: u64 },
    /// Wait.
    BackOff { secs: u64 },
    /// Connect directly, through the registration.
    ConnectRemote { uid: String },
    /// Wait, then connect through a mapping.
    ConnectMapped { delay_ms: u64 },
    /// Wait, then connect through the relay.
    ConnectRelayed { delay_ms: u64 },
}

/// What a driver is to do.
pub enum CommandView {
    CheckTcp { socket: SocketAddr, channel_id: u8 },
    SearchLocally { uid: Seq<char>, sockets: Seq<SocketAddr> },
    OpenDiscoverer,
    Register { uid: Seq<char>, timeout_secs: u64 },
    BackOff { secs: int },
    ConnectRemote { uid: Seq<char> },
    ConnectMapped { delay_ms: u64 },
    ConnectRelayed { delay_ms: u64 },
}

impl View for Command {
    type V = CommandView;

    open spec fn view(&self) -> CommandView {
        match *self {
            Command::CheckTcp { socket, channel_id } => CommandView::CheckTcp {
                socket,
                channel_id,
            },
            Command::SearchLocally { uid, sockets } => CommandView::SearchLocally {
                uid: uid@,
                sockets: sockets@,
            },
            Command::OpenDiscoverer => CommandView::OpenDiscoverer,
            Command::Register { uid, timeout_secs } => CommandView::Register {
                uid: uid@,
                timeout_secs,
            },
            Command::BackOff { secs } => CommandView::BackOff { secs: secs as int },
            Command::ConnectRemote { uid } => CommandView::ConnectRemote { uid: uid@ },
            Command::ConnectMapped { delay_ms } => CommandView::ConnectMapped { delay_ms },
            Command::ConnectRelayed { delay_ms } => CommandView::ConnectRelayed { delay_ms },
        }
    }
}

/// A list of commands, as their views.
pub open spec fn commands_view(commands: Seq<Command>) -> Seq<CommandView> {
    Seq::new(commands.len(), |i: int| commands[i]@)
}

/// Where the search stands after an event.
#[derive(Debug)]
pub enum Progress<D> {
    /// The search goes on; these commands are new.
    Waiting(Vec<Command>),
    /// The camera was found.
    Found(CameraLocation<D>),
    /// The camera was not found.
    Failed(Error),
}

/// Where the search stands after an event.
pub enum ProgressView<D> {
    Waiting(Seq<CommandView>),
    Found(CameraLocation<D>),
    Failed(Error),
}

impl<D> View for Progress<D> {
    type V = ProgressView<D>;

    open spec fn view(&self) -> ProgressView<D> {
        match *self {
            Progress::Waiting(commands) => ProgressView::Waiting(commands_view(commands@)),
            Progress::Found(location) => ProgressView::Found(location),
            Progress::Failed(e) => ProgressView::Failed(e),
        }
    }
}

/// The stages of a search.
#[derive(Debug, Clone, Copy)]
pub enum Phase {
    /// The TCP candidate with this index is being checked.
    Tcp { next: usize },
    /// The UDP arms are running.
    Udp,
    /// The search is over.
    Finished,
}

/// The state of the registration arm.
#[derive(Debug)]
pub enum Registration {
    /// It was not started: no method needs it.
    Off,
    /// A discoverer is being opened.
    Opening { retry: usize },
    /// A round is running.
    InRound { retry: usize },
    /// It waits before the next round.
    BackingOff { retry: usize },
    /// It has registered, and these methods are running.
    Probing { remote: bool, mapped: bool, relayed: bool },
    /// It failed for this reason.
    Failed(Error),
}

/// What UDP discovery looks for, and where it asks first.
pub struct UdpTargetView {
    pub uid: Seq<char>,
    pub sockets: Seq<SocketAddr>,
}

struct UdpTarget {
    uid: String,
    sockets: Vec<SocketAddr>,
}

impl View for UdpTarget {
    type V = UdpTargetView;

    closed spec fn view(&self) -> UdpTargetView {
        UdpTargetView { uid: self.uid@, sockets: self.sockets@ }
    }
}

/// The state of a search.
pub struct SearchView {
    /// The channel that TCP checks ask for.
    pub channel_id: u8,
    /// The UDP arms that are allowed.
    pub flags: DiscoveryFlags,
    /// How often a failed registration is repeated; 0 means for ever.
    pub max_retries: usize,
    /// The TCP candidates.
    pub tcp: Seq<SocketAddr>,
    /// What to look for over UDP, where UDP may be used.
    pub udp: Option<UdpTargetView>,
    /// The stage.
    pub phase: Phase,
    /// Whether the local search is running, in the UDP stage.
    pub local: bool,
    /// The registration arm.
    pub registration: Registration,
}

/// A search for a camera.
pub struct FindCamera {
    channel_id: u8,
    flags: DiscoveryFlags,
    max_retries: usize,
    tcp: Vec<SocketAddr>,
    udp: Option<UdpTarget>,
    phase: Phase,
    local: bool,
    registration: Registration,
}

impl View for FindCamera {
    type V = SearchView;

    closed spec fn view(&self) -> SearchView {
        SearchView {
            channel_id: self.channel_id,
            flags: self.flags,
            max_retries: self.max_retries,
            tcp: self.tcp@,
            udp: match self.udp {
                Some(target) => Some(target@),
                None => None,
            },
            phase: self.phase,
            local: self.local,
            registration: self.registration,
        }
    }
}

/// Whether the registration arm is still at work.
pub open spec fn registration_runs(registration: Registration) -> bool {
    !(registration is Off) && !(registration is Failed)
}

/// Whether the registration arm is in a state that `flags` and `max_retries`
/// allow.
pub open spec fn registration_wf(
    registration: Registration,
    flags: DiscoveryFlags,
    max_retries: usize,
) -> bool {
    match registration {
        Registration::Off => !flags.registers(),
        Registration::Opening { retry } | Registration::InRound { retry }
        | Registration::BackingOff { retry } => {
            &&& flags.registers()
            &&& max_retries > 0 ==> retry <= max_retries
        },
        Registration::Probing { remote, mapped, relayed } => {
            &&& remote ==> flags.remote
            &&& mapped ==> flags.map
            &&& relayed ==> flags.relay
            &&& remote || mapped || relayed
        },
        Registration::Failed(_) => flags.registers(),
    }
}

impl SearchView {
    /// A search that goes on has something to wait for, and runs no arm that
    /// is not allowed.
    pub open spec fn wf(self) -> bool {
        match self.phase {
            Phase::Tcp { next } => next < self.tcp.len(),
            Phase::Udp => {
                &&& self.udp is Some
                &&& self.local ==> self.flags.local
                &&& registration_wf(self.registration, self.flags, self.max_retries)
                &&& self.local || registration_runs(self.registration)
            },
            Phase::Finished => true,
        }
    }

    /// The same search, ended.
    pub open spec fn finished(self) -> SearchView {
        SearchView { phase: Phase::Finished, ..self }
    }

    /// Whether `method` is running.
    pub open spec fn runs(self, method: Method) -> bool {
        self.phase is Udp && match method {
            Method::Local => self.local,
            Method::Remote => self.registration matches Registration::Probing { remote, .. }
                && remote,
            Method::Mapped => self.registration matches Registration::Probing { mapped, .. }
                && mapped,
            Method::Relayed => self.registration matches Registration::Probing { relayed, .. }
                && relayed,
        }
    }

    /// The same search without `method`. When the last method behind the
    /// registration is gone, that arm has failed.
    pub open spec fn without(self, method: Method) -> SearchView {
        if method == Method::Local {
            SearchView { local: false, ..self }
        } else {
            let remote = method != Method::Remote && self.runs(Method::Remote);
            let mapped = method != Method::Mapped && self.runs(Method::Mapped);
            let relayed = method != Method::Relayed && self.runs(Method::Relayed);
            SearchView {
                registration: if remote || mapped || relayed {
                    Registration::Probing { remote, mapped, relayed }
                } else {
                    Registration::Failed(Error::DiscoveryTimeout)
                },
                ..self
            }
        }
    }
}

/// Nothing new is to be done.
pub open spec fn unchanged<D>(s: SearchView) -> (SearchView, ProgressView<D>) {
    (s, ProgressView::Waiting(Seq::empty()))
}

/// An arm has failed: the search goes on while another one runs.
pub open spec fn settle<D>(s: SearchView) -> (SearchView, ProgressView<D>) {
    if s.local || registration_runs(s.registration) {
        unchanged(s)
    } else {
        (s.finished(), ProgressView::Failed(Error::DiscoveryTimeout))
    }
}

/// The UDP stage begins, where UDP may be used.
pub open spec fn enter_udp<D>(s: SearchView) -> (SearchView, ProgressView<D>) {
    match s.udp {
        None => (s.finished(), ProgressView::Failed(Error::CannotInitCamera)),
        Some(target) => {
            let started = SearchView {
                phase: Phase::Udp,
                local: s.flags.local,
                registration: if s.flags.registers() {
                    Registration::Opening { retry: 0 }
                } else {
                    Registration::Off
                },
                ..s
            };
            let local = if s.flags.local {
                seq![
                    CommandView::SearchLocally { uid: target.uid, sockets: target.sockets },
                ]
            } else {
                seq![]
            };
            let registration = if s.flags.registers() {
                seq![CommandView::OpenDiscoverer]
            } else {
                seq![]
            };
            if s.flags.local || s.flags.registers() {
                (started, ProgressView::Waiting(local + registration))
            } else {
                (started.finished(), ProgressView::Failed(Error::DiscoveryTimeout))
            }
        },
    }
}

/// The TCP candidate with index `next` is checked; after the last one the UDP
/// stage begins.
pub open spec fn check_tcp<D>(s: SearchView, next: int) -> (SearchView, ProgressView<D>) {
    if next < s.tcp.len() {
        (
            SearchView { phase: Phase::Tcp { next: next as usize }, ..s },
            ProgressView::Waiting(
                seq![CommandView::CheckTcp { socket: s.tcp[next], channel_id: s.channel_id }],
            ),
        )
    } else {
        enter_udp(s)
    }
}

/// The methods that a registration makes possible are started.
pub open spec fn connect_commands(s: SearchView) -> Seq<CommandView> {
    let remote = if s.flags.remote {
        seq![CommandView::ConnectRemote { uid: s.udp->0.uid }]
    } else {
        seq![]
    };
    let mapped = if s.flags.map {
        seq![CommandView::ConnectMapped { delay_ms: MAP_DELAY_MS }]
    } else {
        seq![]
    };
    let relayed = if s.flags.relay {
        seq![CommandView::ConnectRelayed { delay_ms: RELAY_DELAY_MS }]
    } else {
        seq![]
    };
    remote + mapped + relayed
}

/// A registration round, after `retry` repetitions, has ended.
pub open spec fn after_round<D>(s: SearchView, retry: usize, round: Round) -> (
    SearchView,
    ProgressView<D>,
) {
    match round_error(round) {
        None => (
            SearchView {
                registration: Registration::Probing {
                    remote: s.flags.remote,
                    mapped: s.flags.map,
                    relayed: s.flags.relay,
                },
                ..s
            },
            ProgressView::Waiting(connect_commands(s)),
        ),
        Some(e) => if gives_up(retry as int, s.max_retries as int) {
            settle(SearchView { registration: Registration::Failed(e), ..s })
        } else {
            (
                SearchView {
                    registration: Registration::BackingOff { retry: one_more(retry) },
                    ..s
                },
                ProgressView::Waiting(
                    seq![CommandView::BackOff { secs: backoff_secs(retry as int) }],
                ),
            )
        },
    }
}

/// What an event makes of a search, and what is to be done then. An event that
/// the search does not wait for changes nothing.
pub open spec fn next<D>(s: SearchView, event: Event<D>) -> (SearchView, ProgressView<D>) {
    match event {
        Event::TcpChecked { reachable } => match s.phase {
            Phase::Tcp { next } => if reachable {
                (s.finished(), ProgressView::Found(CameraLocation::Tcp(s.tcp[next as int])))
            } else {
                check_tcp(s, next + 1)
            },
            _ => unchanged(s),
        },
        Event::Opened(result) => match (s.phase, s.registration) {
            (Phase::Udp, Registration::Opening { retry }) => match result {
                Ok(_) => (
                    SearchView { registration: Registration::InRound { retry }, ..s },
                    ProgressView::Waiting(
                        seq![
                            CommandView::Register {
                                uid: s.udp->0.uid,
                                timeout_secs: ROUND_TIMEOUT_SECS,
                            },
                        ],
                    ),
                ),
                Err(e) => settle(SearchView { registration: Registration::Failed(e), ..s }),
            },
            _ => unchanged(s),
        },
        Event::RoundEnded(round) => match (s.phase, s.registration) {
            (Phase::Udp, Registration::InRound { retry }) => after_round(s, retry, round),
            _ => unchanged(s),
        },
        Event::BackoffElapsed => match (s.phase, s.registration) {
            (Phase::Udp, Registration::BackingOff { retry }) => (
                SearchView { registration: Registration::Opening { retry }, ..s },
                ProgressView::Waiting(seq![CommandView::OpenDiscoverer]),
            ),
            _ => unchanged(s),
        },
        Event::Probed(method, result) => if s.runs(method) {
            match result {
                Ok(found) => (s.finished(), ProgressView::Found(CameraLocation::Udp(found))),
                Err(_) => settle(s.without(method)),
            }
        } else {
            unchanged(s)
        },
    }
}

/// What a search starts from.
pub open spec fn plan(options: BcCameraOpt, flags: DiscoveryFlags) -> SearchView {
    SearchView {
        channel_id: options.channel_id,
        flags,
        max_retries: options.max_discovery_retries,
        tcp: if options.protocol.tcp() {
            tcp_candidates(options.addrs@, options.port)
        } else {
            Seq::empty()
        },
        udp: match options.uid {
            Some(uid) if options.protocol.udp() => Some(
                UdpTargetView {
                    uid: uid@,
                    sockets: udp_candidates(options.addrs@, options.port),
                },
            ),
            _ => None,
        },
        phase: Phase::Finished,
        local: false,
        registration: Registration::Off,
    }
}

/// How a search begins.
pub open spec fn begin<D>(options: BcCameraOpt, flags: DiscoveryFlags) -> (
    SearchView,
    ProgressView<D>,
) {
    check_tcp(plan(options, flags), 0)
}

impl FindCamera {
    /// Begins to look for the camera that `options` describe. `flags` are the
    /// arms that `options.discovery` stands for.
    pub fn start<D>(options: &BcCameraOpt, flags: DiscoveryFlags) -> (started: (
        Self,
        Progress<D>,
    ))
        ensures
            (started.0@, started.1@) == begin::<D>(*options, flags),
            started.0@.wf(),
    {
        let tcp = match options.protocol {
            ConnectionProtocol::Tcp | ConnectionProtocol::TcpUdp => pick_tcp_sockets(
                options.addrs.as_slice(),
                options.port,
            ),
            ConnectionProtocol::Udp => Vec::new(),
        };
        let udp = match (&options.uid, options.protocol) {
            (Some(uid), ConnectionProtocol::Udp | ConnectionProtocol::TcpUdp) => Some(
                UdpTarget {
                    uid: uid.clone(),
                    sockets: pick_udp_sockets(options.addrs.as_slice(), options.port),
                },
            ),
            _ => None,
        };
        let mut search = FindCamera {
            channel_id: options.channel_id,
            flags,
            max_retries: options.max_discovery_retries,
            tcp,
            udp,
            phase: Phase::Finished,
            local: false,
            registration: Registration::Off,
        };
        let ghost before = search@;
        assert(before == plan(*options, flags));
        let progress = search.check_tcp(0);
        (search, progress)
    }

    /// Takes note of an event and says what is to be done then.
    pub fn step<D>(&mut self, event: Event<D>) -> (progress: Progress<D>)
        requires
            old(self)@.wf(),
        ensures
            (final(self)@, progress@) == next(old(self)@, event),
            final(self)@.wf(),
    {
        match event {
            Event::TcpChecked { reachable } => match self.phase {
                Phase::Tcp { next } => if reachable {
                    self.phase = Phase::Finished;
                    Progress::Found(CameraLocation::Tcp(self.tcp[next]))
                } else {
                    assert(next < self.tcp.len());
                    self.check_tcp(next + 1)
                },
                _ => nothing_new(),
            },
            Event::Opened(result) => self.on_opened(result),
            Event::RoundEnded(round) => self.on_round_ended(round),
            Event::BackoffElapsed => match (self.phase, &self.registration) {
                (Phase::Udp, Registration::BackingOff { retry }) => {
                    self.registration = Registration::Opening { retry: *retry };
                    one_command(Command::OpenDiscoverer)
                },
                _ => nothing_new(),
            },
            Event::Probed(method, result) => self.on_probed(method, result),
        }
    }

    /// Whether the search is over.
    pub fn is_finished(&self) -> (over: bool)
        ensures
            over == (self@.phase is Finished),
    {
        matches!(self.phase, Phase::Finished)
    }

    /// Why the registration arm failed, if it has.
    pub fn registration_error(&self) -> (error: Option<&Error>)
        ensures
            match self@.registration {
                Registration::Failed(e) => error == Some(&e),
                _ => error is None,
            },
    {
        match &self.registration {
            Registration::Failed(e) => Some(e),
            _ => None,
        }
    }

    /// Checks the TCP candidate with this index, or goes on to UDP.
    fn check_tcp<D>(&mut self, next: usize) -> (progress: Progress<D>)
        ensures
            (final(self)@, progress@) == check_tcp::<D>(old(self)@, next as int),
            final(self)@.wf(),
    {
        if next < self.tcp.len() {
            self.phase = Phase::Tcp { next };
            one_command(
                Command::CheckTcp { socket: self.tcp[next], channel_id: self.channel_id },
            )
        } else {
            self.enter_udp()
        }
    }

    /// Starts the UDP arms that are allowed.
    fn enter_udp<D>(&mut self) -> (progress: Progress<D>)
        ensures
            (final(self)@, progress@) == enter_udp::<D>(old(self)@),
            final(self)@.wf(),
    {
        let mut commands: Vec<Command> = Vec::new();
        let registers = self.flags.remote || self.flags.map || self.flags.relay;
        match &self.udp {
            None => {
                self.phase = Phase::Finished;
                return Progress::Failed(Error::CannotInitCamera);
            },
            Some(target) => {
                if self.flags.local {
                    let sockets = target.sockets.clone();
                    assert(sockets@ =~= target.sockets@);
                    commands.push(Command::SearchLocally { uid: target.uid.clone(), sockets });
                }
            },
        }
        self.local = self.flags.local;
        if registers {
            self.registration = Registration::Opening { retry: 0 };
            commands.push(Command::OpenDiscoverer);
        } else {
            self.registration = Registration::Off;
        }
        if !self.flags.local && !registers {
            self.phase = Phase::Finished;
            return Progress::Failed(Error::DiscoveryTimeout);
        }
        self.phase = Phase::Udp;
        assert(commands_view(commands@) =~= enter_udp::<D>(old(self)@).1->Waiting_0);
        Progress::Waiting(commands)
    }

    /// Ends the search if no arm is left.
    fn settle<D>(&mut self) -> (progress: Progress<D>)
        requires
            old(self)@.phase is Udp,
            old(self)@.udp is Some,
            old(self)@.local ==> old(self)@.flags.local,
            registration_wf(
                old(self)@.registration,
                old(self)@.flags,
                old(self)@.max_retries,
            ),
        ensures
            (final(self)@, progress@) == settle::<D>(old(self)@),
            final(self)@.wf(),
    {
        let registering = match &self.registration {
            Registration::Off | Registration::Failed(_) => false,
            _ => true,
        };
        if self.local || registering {
            nothing_new()
        } else {
            self.phase = Phase::Finished;
            Progress::Failed(Error::DiscoveryTimeout)
        }
    }

    /// Takes note of a discoverer.
    fn on_opened<D>(&mut self, result: Result<(), Error>) -> (progress: Progress<D>)
        requires
            old(self)@.wf(),
        ensures
            (final(self)@, progress@) == next(old(self)@, Event::<D>::Opened(result)),
            final(self)@.wf(),
    {
        let retry: usize = match (self.phase, &self.registration) {
            (Phase::Udp, Registration::Opening { retry }) => *retry,
            _ => {
                return nothing_new();
            },
        };
        match result {
            Ok(_) => match &self.udp {
                Some(target) => {
                    let uid = target.uid.clone();
                    self.registration = Registration::InRound { retry };
                    one_command(Command::Register { uid, timeout_secs: ROUND_TIMEOUT_SECS })
                },
                None => nothing_new(),
            },
            Err(e) => {
                self.registration = Registration::Failed(e);
                self.settle()
            },
        }
    }

    /// Takes note of the end of a registration round.
    fn on_round_ended<D>(&mut self, round: Round) -> (progress: Progress<D>)
        requires
            old(self)@.wf(),
        ensures
            (final(self)@, progress@) == next(old(self)@, Event::<D>::RoundEnded(round)),
            final(self)@.wf(),
    {
        let retry: usize = match (self.phase, &self.registration) {
            (Phase::Udp, Registration::InRound { retry }) => *retry,
            _ => {
                return nothing_new();
            },
        };
        let error = match round {
            Round::Registered => {
                return self.connect();
            },
            Round::Refused(e) => e,
            Round::TimedOut => Error::DiscoveryTimeout,
        };
        if was_last_round(retry, self.max_retries) {
            self.registration = Registration::Failed(error);
            self.settle()
        } else {
            self.registration = Registration::BackingOff { retry: retry.saturating_add(1) };
            one_command(Command::BackOff { secs: backoff_after(retry) })
        }
    }

    /// Starts the methods that a registration makes possible.
    fn connect<D>(&mut self) -> (progress: Progress<D>)
        requires
            old(self)@.wf(),
            old(self)@.phase is Udp,
            old(self)@.flags.registers(),
        ensures
            (final(self)@, progress@) == after_round::<D>(old(self)@, 0, Round::Registered),
            final(self)@.wf(),
    {
        let mut commands: Vec<Command> = Vec::new();
        if self.flags.remote {
            if let Some(target) = &self.udp {
                commands.push(Command::ConnectRemote { uid: target.uid.clone() });
            }
        }
        if self.flags.map {
            commands.push(Command::ConnectMapped { delay_ms: MAP_DELAY_MS });
        }
        if self.flags.relay {
            commands.push(Command::ConnectRelayed { delay_ms: RELAY_DELAY_MS });
        }
        self.registration = Registration::Probing {
            remote: self.flags.remote,
            mapped: self.flags.map,
            relayed: self.flags.relay,
        };
        assert(commands_view(commands@) =~= connect_commands(old(self)@));
        Progress::Waiting(commands)
    }

    /// Takes note of how a method ended.
    fn on_probed<D>(&mut self, method: Method, result: Result<D, Error>) -> (progress: Progress<D>)
        requires
            old(self)@.wf(),
        ensures
            (final(self)@, progress@) == next(old(self)@, Event::Probed(method, result)),
            final(self)@.wf(),
    {
        let (mut remote, mut mapped, mut relayed) = match (self.phase, &self.registration) {
            (Phase::Udp, Registration::Probing { remote, mapped, relayed }) => (
                *remote,
                *mapped,
                *relayed,
            ),
            _ => (false, false, false),
        };
        let running = match method {
            Method::Local => matches!(self.phase, Phase::Udp) && self.local,
            Method::Remote => remote,
            Method::Mapped => mapped,
            Method::Relayed => relayed,
        };
        if !running {
            return nothing_new();
        }
        match result {
            Ok(found) => {
                self.phase = Phase::Finished;
                Progress::Found(CameraLocation::Udp(found))
            },
            Err(_) => {
                match method {
                    Method::Local => {
                        self.local = false;
                        return self.settle();
                    },
                    Method::Remote => {
                        remote = false;
                    },
                    Method::Mapped => {
                        mapped = false;
                    },
                    Method::Relayed => {
                        relayed = false;
                    },
                }
                self.registration = if remote || mapped || relayed {
                    Registration::Probing { remote, mapped, relayed }
                } else {
                    Registration::Failed(Error::DiscoveryTimeout)
                };
                self.settle()
            },
        }
    }
}

/// Waits on, with no new command.
fn nothing_new<D>() -> (progress: Progress<D>)
    ensures
        progress@ == ProgressView::<D>::Waiting(Seq::empty()),
{
    let commands: Vec<Command> = Vec::new();
    assert(commands_view(commands@) =~= Seq::<CommandView>::empty());
    Progress::Waiting(commands)
}

/// Waits on, with one new command.
fn one_command<D>(command: Command) -> (progress: Progress<D>)
    ensures
        progress@ == ProgressView::<D>::Waiting(seq![command@]),
{
    let mut commands: Vec<Command> = Vec::new();
    let ghost shown = command@;
    commands.push(command);
    assert(commands_view(commands@) =~= seq![shown]);
    Progress::Waiting(commands)
}

} // verus!
