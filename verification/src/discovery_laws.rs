//! What a search does for the options it was given: what is commanded when, over
//! any run of events.

use crate::error::Error;
use crate::find_camera::{
    begin, commands_view, next, CameraLocation, Command, CommandView, Event, Method, Phase,
    Progress, ProgressView, Registration, SearchView, UdpTargetView,
};
use crate::net::{tcp_candidates, udp_candidates, SocketAddr};
use crate::options::{BcCameraOpt, DiscoveryFlags};
use crate::registration::Round;
use crate::search_laws::{failed_round, misses, state_after};
use vstd::prelude::*;

verus! {

/// Where a search with these options stands after a run of events.
pub open spec fn search_at<D>(
    options: BcCameraOpt,
    flags: DiscoveryFlags,
    events: Seq<Event<D>>,
) -> SearchView {
    state_after(begin::<D>(options, flags).0, events)
}

/// What a search with these options reports on the last one of a run of events,
/// or at its start.
pub open spec fn reported<D>(
    options: BcCameraOpt,
    flags: DiscoveryFlags,
    events: Seq<Event<D>>,
) -> ProgressView<D> {
    if events.len() == 0 {
        begin::<D>(options, flags).1
    } else {
        next(search_at(options, flags, events.drop_last()), events.last()).1
    }
}

/// The view of a command is what the command holds.
pub proof fn law_command_view_is_what_it_holds(command: Command)
    ensures
        match command {
            Command::CheckTcp { socket, channel_id } => command@ == (CommandView::CheckTcp {
                socket,
                channel_id,
            }),
            Command::SearchLocally { uid, sockets } => command@ == (CommandView::SearchLocally {
                uid: uid@,
                sockets: sockets@,
            }),
            Command::OpenDiscoverer => command@ == CommandView::OpenDiscoverer,
            Command::Register { uid, timeout_secs } => command@ == (CommandView::Register {
                uid: uid@,
                timeout_secs,
            }),
            Command::BackOff { secs } => command@ == (CommandView::BackOff { secs: secs as int }),
            Command::ConnectRemote { uid } => command@ == (CommandView::ConnectRemote {
                uid: uid@,
            }),
            Command::ConnectMapped { delay_ms } => command@ == (CommandView::ConnectMapped {
                delay_ms,
            }),
            Command::ConnectRelayed { delay_ms } => command@ == (CommandView::ConnectRelayed {
                delay_ms,
            }),
        },
{
}

/// The view of a report is what the report holds, with each command in its
/// place.
pub proof fn law_report_view_is_what_it_holds<D>(progress: Progress<D>)
    ensures
        match progress {
            Progress::Waiting(commands) => progress@ matches ProgressView::Waiting(shown) && {
                &&& shown == commands_view(commands@)
                &&& shown.len() == commands@.len()
                &&& forall|i: int| 0 <= i < commands@.len() ==> #[trigger] shown[i] == commands@[i]@
            },
            Progress::Found(location) => progress@ == ProgressView::Found(location),
            Progress::Failed(e) => progress@ == ProgressView::<D>::Failed(e),
        },
{
}

/// Whatever happens, a search keeps to its options: the channel and the limit
/// on repetitions are theirs; over TCP it knows every candidate of theirs if
/// the protocol allows TCP, and none otherwise; over UDP it looks for their
/// UID, at every candidate of theirs, if the protocol allows UDP and there is a
/// UID. Which methods are allowed never changes.
pub proof fn law_search_keeps_to_its_options<D>(
    options: BcCameraOpt,
    flags: DiscoveryFlags,
    events: Seq<Event<D>>,
)
    ensures
        ({
            let s = search_at(options, flags, events);
            &&& s.channel_id == options.channel_id
            &&& s.flags == flags
            &&& s.max_retries == options.max_discovery_retries
            &&& options.protocol is Tcp || options.protocol is TcpUdp ==> s.tcp == tcp_candidates(
                options.addrs@,
                options.port,
            )
            &&& options.protocol is Udp ==> s.tcp.len() == 0
            &&& options.protocol is Tcp || options.uid is None ==> s.udp is None
            &&& options.protocol is Udp || options.protocol is TcpUdp ==> (options.uid matches
                Some(uid) ==> s.udp == Some(
                UdpTargetView {
                    uid: uid@,
                    sockets: udp_candidates(options.addrs@, options.port),
                },
            ))
        }),
    decreases events.len(),
{
    if events.len() > 0 {
        law_search_keeps_to_its_options(options, flags, events.drop_last());
    }
}

/// A search that goes on is sound wherever it stands.
proof fn lemma_search_is_sound<D>(
    options: BcCameraOpt,
    flags: DiscoveryFlags,
    events: Seq<Event<D>>,
)
    requires
        options.protocol is Udp || tcp_candidates(options.addrs@, options.port).len()
            <= usize::MAX,
    ensures
        search_at(options, flags, events).wf(),
    decreases events.len(),
{
    if events.len() > 0 {
        lemma_search_is_sound(options, flags, events.drop_last());
        law_search_keeps_to_its_options(options, flags, events.drop_last());
    }
}

/// One more event.
proof fn lemma_one_more<D>(
    options: BcCameraOpt,
    flags: DiscoveryFlags,
    events: Seq<Event<D>>,
    event: Event<D>,
)
    ensures
        (
            search_at(options, flags, events.push(event)),
            reported(options, flags, events.push(event)),
        ) == next(search_at(options, flags, events), event),
{
    assert(events.push(event).drop_last() =~= events);
}

/// Over TCP the candidates are checked one after the other, in their order:
/// after `count` checks that failed the only command is to check candidate
/// `count`, on the channel of the options; and if that one answers, the camera
/// is found there.
pub proof fn law_tcp_candidates_are_checked_in_order<D>(
    options: BcCameraOpt,
    flags: DiscoveryFlags,
    count: nat,
)
    requires
        options.protocol is Tcp || options.protocol is TcpUdp,
        count < tcp_candidates(options.addrs@, options.port).len() <= usize::MAX,
    ensures
        reported(options, flags, misses::<D>(count)) == ProgressView::<D>::Waiting(
            seq![
                CommandView::CheckTcp {
                    socket: tcp_candidates(options.addrs@, options.port)[count as int],
                    channel_id: options.channel_id,
                },
            ],
        ),
        reported(options, flags, misses::<D>(count).push(Event::TcpChecked { reachable: true }))
            == ProgressView::<D>::Found(
            CameraLocation::Tcp(tcp_candidates(options.addrs@, options.port)[count as int]),
        ),
        search_at(options, flags, misses::<D>(count)).phase == (Phase::Tcp {
            next: count as usize,
        }),
        search_at(
            options,
            flags,
            misses::<D>(count).push(Event::TcpChecked { reachable: true }),
        ).phase is Finished,
    decreases count,
{
    law_search_keeps_to_its_options(options, flags, misses::<D>(count));
    if count > 0 {
        let before = (count - 1) as nat;
        assert(misses::<D>(count).drop_last() =~= misses::<D>(before));
        law_tcp_candidates_are_checked_in_order::<D>(options, flags, before);
        law_search_keeps_to_its_options(options, flags, misses::<D>(before));
    }
    lemma_one_more(
        options,
        flags,
        misses::<D>(count),
        Event::<D>::TcpChecked { reachable: true },
    );
}

/// A port that the options name is tried over TCP at every address of theirs,
/// before UDP is: there is a moment, with nothing but failed checks before it,
/// at which the only command is to check just that port at just that address.
/// The same holds of port 9000. Whether the protocol allows UDP too makes no
/// difference.
pub proof fn law_named_port_is_tried_at_every_address<D>(
    options: BcCameraOpt,
    flags: DiscoveryFlags,
    a: int,
    port: u16,
)
    requires
        options.protocol is Tcp || options.protocol is TcpUdp,
        0 <= a < options.addrs@.len(),
        options.port == Some(port) || port == 9000,
        tcp_candidates(options.addrs@, options.port).len() <= usize::MAX,
    ensures
        exists|count: nat|
            {
                &&& count < tcp_candidates(options.addrs@, options.port).len()
                &&& reported(options, flags, #[trigger] misses::<D>(count)) == ProgressView::<
                    D,
                >::Waiting(
                    seq![
                        CommandView::CheckTcp {
                            socket: SocketAddr { ip: options.addrs@[a], port },
                            channel_id: options.channel_id,
                        },
                    ],
                )
            },
{
    let count: nat = if options.port is None || options.port == Some(9000u16) {
        a as nat
    } else if options.port == Some(port) {
        (2 * a) as nat
    } else {
        (2 * a + 1) as nat
    };
    law_tcp_candidates_are_checked_in_order::<D>(options, flags, count);
    assert(tcp_candidates(options.addrs@, options.port)[count as int] == (SocketAddr {
        ip: options.addrs@[a],
        port,
    }));
    assert(misses::<D>(count).len() == count);
}

/// The state in which the search leaves TCP.
proof fn lemma_tcp_is_left<D>(options: BcCameraOpt, flags: DiscoveryFlags)
    requires
        options.protocol is Udp || 0 < tcp_candidates(options.addrs@, options.port).len()
            <= usize::MAX,
    ensures
        !(options.protocol is Udp) ==> ({
            let count = tcp_candidates(options.addrs@, options.port).len();
            &&& search_at(options, flags, misses::<D>(count)) == next(
                search_at(options, flags, misses::<D>((count - 1) as nat)),
                Event::<D>::TcpChecked { reachable: false },
            ).0
            &&& reported(options, flags, misses::<D>(count)) == next(
                search_at(options, flags, misses::<D>((count - 1) as nat)),
                Event::<D>::TcpChecked { reachable: false },
            ).1
            &&& search_at(options, flags, misses::<D>((count - 1) as nat)).phase == (Phase::Tcp {
                next: (count - 1) as usize,
            })
        }),
{
    if !(options.protocol is Udp) {
        let count = tcp_candidates(options.addrs@, options.port).len();
        assert(misses::<D>(count).drop_last() =~= misses::<D>((count - 1) as nat));
        law_tcp_candidates_are_checked_in_order::<D>(options, flags, (count - 1) as nat);
    }
}

/// A TCP candidate that answers ends the search there. One that does not is
/// followed by the check of the next one; after the last one the UDP arms that
/// are allowed begin, with what the search knows of UDP, or the search ends.
/// This holds of a search in any state.
pub proof fn law_checked_candidate_decides_what_follows<D>(s: SearchView, checked: usize)
    requires
        s.phase == (Phase::Tcp { next: checked }),
        checked < s.tcp.len() <= usize::MAX,
    ensures
        next(s, Event::<D>::TcpChecked { reachable: true }) == (
            SearchView { phase: Phase::Finished, ..s },
            ProgressView::<D>::Found(CameraLocation::Tcp(s.tcp[checked as int])),
        ),
        next(s, Event::<D>::TcpChecked { reachable: false }) == if checked + 1 < s.tcp.len() {
            (
                SearchView { phase: Phase::Tcp { next: (checked + 1) as usize }, ..s },
                ProgressView::<D>::Waiting(
                    seq![
                        CommandView::CheckTcp {
                            socket: s.tcp[checked + 1],
                            channel_id: s.channel_id,
                        },
                    ],
                ),
            )
        } else {
            match s.udp {
                None => (
                    SearchView { phase: Phase::Finished, ..s },
                    ProgressView::Failed(Error::CannotInitCamera),
                ),
                Some(UdpTargetView { uid, sockets }) => {
                    let registers = s.flags.remote || s.flags.map || s.flags.relay;
                    let begun = SearchView {
                        phase: if s.flags.local || registers {
                            Phase::Udp
                        } else {
                            Phase::Finished
                        },
                        local: s.flags.local,
                        registration: if registers {
                            Registration::Opening { retry: 0 }
                        } else {
                            Registration::Off
                        },
                        ..s
                    };
                    let search = CommandView::SearchLocally { uid, sockets };
                    let commands = if s.flags.local && registers {
                        seq![search, CommandView::OpenDiscoverer]
                    } else if s.flags.local {
                        seq![search]
                    } else {
                        seq![CommandView::OpenDiscoverer]
                    };
                    (
                        begun,
                        if s.flags.local || registers {
                            ProgressView::Waiting(commands)
                        } else {
                            ProgressView::Failed(Error::DiscoveryTimeout)
                        },
                    )
                },
            }
        },
{
    let end = next(s, Event::<D>::TcpChecked { reachable: false });
    if let ProgressView::Waiting(commands) = end.1 {
        if checked + 1 == s.tcp.len() {
            let search = CommandView::SearchLocally {
                uid: s.udp->0.uid,
                sockets: s.udp->0.sockets,
            };
            assert(s.flags.local && !s.flags.registers() ==> commands =~= seq![search]);
            assert(!s.flags.local ==> commands =~= seq![CommandView::OpenDiscoverer]);
            assert(s.flags.local && s.flags.registers() ==> commands =~= seq![
                search,
                CommandView::OpenDiscoverer,
            ]);
        }
    }
}

/// The UDP stage begins when every TCP candidate has failed, and at once if
/// there is none. Where the local search is allowed, it is then commanded with
/// the UID and with all UDP candidates of the options; where one of the methods
/// that need a registration is allowed, a discoverer is to be opened; and that
/// is all. Where nothing is allowed the search ends in a timeout. None of this
/// depends on whether TCP was tried before.
pub proof fn law_udp_begins_with_what_is_allowed<D>(
    options: BcCameraOpt,
    flags: DiscoveryFlags,
    uid: String,
)
    requires
        options.protocol is Udp || options.protocol is TcpUdp,
        options.uid == Some(uid),
        options.protocol is TcpUdp ==> tcp_candidates(options.addrs@, options.port).len()
            <= usize::MAX,
    ensures
        ({
            let count = if options.protocol is Udp {
                0
            } else {
                tcp_candidates(options.addrs@, options.port).len()
            };
            let s = search_at(options, flags, misses::<D>(count));
            let registers = flags.remote || flags.map || flags.relay;
            if flags.local || registers {
                &&& reported(options, flags, misses::<D>(count)) == ProgressView::<D>::Waiting(
                    (if flags.local {
                        seq![
                            CommandView::SearchLocally {
                                uid: uid@,
                                sockets: udp_candidates(options.addrs@, options.port),
                            },
                        ]
                    } else {
                        Seq::empty()
                    }) + (if registers {
                        seq![CommandView::OpenDiscoverer]
                    } else {
                        Seq::empty()
                    }),
                )
                &&& s.phase is Udp
                &&& s.local == flags.local
                &&& registers ==> s.registration == (Registration::Opening { retry: 0 })
                &&& !registers ==> s.registration is Off
            } else {
                &&& reported(options, flags, misses::<D>(count)) == ProgressView::<D>::Failed(
                    Error::DiscoveryTimeout,
                )
                &&& s.phase is Finished
            }
        }),
{
    let count = if options.protocol is Udp {
        0
    } else {
        tcp_candidates(options.addrs@, options.port).len()
    };
    if count > 0 {
        lemma_tcp_is_left::<D>(options, flags);
        law_search_keeps_to_its_options(options, flags, misses::<D>((count - 1) as nat));
    } else {
        assert(misses::<D>(count) =~= Seq::empty());
    }
}

/// The local search is told all it needs, whatever was tried over TCP before:
/// when UDP begins, exactly one command is to search locally, for the UID of
/// the options and at just their UDP candidates.
pub proof fn law_local_search_is_told_where_to_ask<D>(
    options: BcCameraOpt,
    flags: DiscoveryFlags,
    uid: String,
    index: int,
)
    requires
        options.protocol is Udp || options.protocol is TcpUdp,
        options.uid == Some(uid),
        flags.local,
        options.protocol is TcpUdp ==> tcp_candidates(options.addrs@, options.port).len()
            <= usize::MAX,
    ensures
        ({
            let count = if options.protocol is Udp {
                0
            } else {
                tcp_candidates(options.addrs@, options.port).len()
            };
            reported(options, flags, misses::<D>(count)) matches ProgressView::Waiting(commands) && {
                &&& commands.len() > 0
                &&& commands[0] == (CommandView::SearchLocally {
                    uid: uid@,
                    sockets: udp_candidates(options.addrs@, options.port),
                })
                &&& 0 < index < commands.len() ==> !(commands[index] is SearchLocally)
            }
        }),
{
    law_udp_begins_with_what_is_allowed::<D>(options, flags, uid);
}

/// Where UDP cannot be used, because the protocol rules it out or there is no
/// UID, a search whose TCP candidates have all failed ends with the report that
/// there is no way to the camera; it does so at once if there is no candidate.
pub proof fn law_without_udp_the_search_ends<D>(options: BcCameraOpt, flags: DiscoveryFlags)
    requires
        options.protocol is Tcp || options.uid is None,
        options.protocol is Udp || tcp_candidates(options.addrs@, options.port).len()
            <= usize::MAX,
    ensures
        ({
            let count = if options.protocol is Udp {
                0
            } else {
                tcp_candidates(options.addrs@, options.port).len()
            };
            &&& reported(options, flags, misses::<D>(count)) == ProgressView::<D>::Failed(
                Error::CannotInitCamera,
            )
            &&& search_at(options, flags, misses::<D>(count)).phase is Finished
        }),
{
    let count = if options.protocol is Udp {
        0
    } else {
        tcp_candidates(options.addrs@, options.port).len()
    };
    if count > 0 {
        lemma_tcp_is_left::<D>(options, flags);
        law_search_keeps_to_its_options(options, flags, misses::<D>((count - 1) as nat));
    } else {
        assert(misses::<D>(count) =~= Seq::empty());
    }
}

/// Wherever a search stands, while UDP runs there is a UID to look for.
proof fn lemma_udp_has_a_uid<D>(
    options: BcCameraOpt,
    flags: DiscoveryFlags,
    events: Seq<Event<D>>,
)
    requires
        search_at(options, flags, events).phase is Udp,
    ensures
        !(options.protocol is Tcp),
        options.uid is Some,
        search_at(options, flags, events).udp == Some(
            UdpTargetView {
                uid: options.uid->0@,
                sockets: udp_candidates(options.addrs@, options.port),
            },
        ),
    decreases events.len(),
{
    law_search_keeps_to_its_options(options, flags, events);
    if events.len() > 0 {
        law_search_keeps_to_its_options(options, flags, events.drop_last());
        if search_at(options, flags, events.drop_last()).phase is Udp {
            lemma_udp_has_a_uid(options, flags, events.drop_last());
        }
    }
}

/// A registration starts every method that it makes possible, however often it
/// had to be repeated and whatever happened before: it is answered with one
/// command for each allowed method and no other, to connect directly for the
/// UID of the options, through a mapping after 250 ms, and through the relay
/// after 500 ms. Just these methods are running then, and nothing else has
/// changed.
pub proof fn law_registration_starts_the_allowed_methods<D>(
    options: BcCameraOpt,
    flags: DiscoveryFlags,
    events: Seq<Event<D>>,
)
    requires
        search_at(options, flags, events).phase is Udp,
        search_at(options, flags, events).registration is InRound,
    ensures
        options.uid matches Some(uid) && reported(
            options,
            flags,
            events.push(Event::RoundEnded(Round::Registered)),
        ) == ProgressView::<D>::Waiting(
            (if flags.remote {
                seq![CommandView::ConnectRemote { uid: uid@ }]
            } else {
                Seq::empty()
            }) + (if flags.map {
                seq![CommandView::ConnectMapped { delay_ms: 250 }]
            } else {
                Seq::empty()
            }) + (if flags.relay {
                seq![CommandView::ConnectRelayed { delay_ms: 500 }]
            } else {
                Seq::empty()
            }),
        ),
        search_at(options, flags, events.push(Event::RoundEnded(Round::Registered))) == (
        SearchView {
            registration: Registration::Probing {
                remote: flags.remote,
                mapped: flags.map,
                relayed: flags.relay,
            },
            ..search_at(options, flags, events)
        }),
{
    lemma_udp_has_a_uid(options, flags, events);
    law_search_keeps_to_its_options(options, flags, events);
    lemma_one_more(options, flags, events, Event::<D>::RoundEnded(Round::Registered));
}

/// A discoverer that was opened is registered with: the only command is a round
/// for the UID of the options, of 8 seconds at most, and the number of
/// repetitions stays what it was.
pub proof fn law_opened_discoverer_is_registered<D>(
    options: BcCameraOpt,
    flags: DiscoveryFlags,
    events: Seq<Event<D>>,
    retry: usize,
)
    requires
        search_at(options, flags, events).phase is Udp,
        search_at(options, flags, events).registration == (Registration::Opening { retry }),
    ensures
        options.uid matches Some(uid) && reported(options, flags, events.push(Event::Opened(Ok(()))))
            == ProgressView::<D>::Waiting(
            seq![CommandView::Register { uid: uid@, timeout_secs: 8 }],
        ),
        search_at(options, flags, events.push(Event::Opened(Ok(())))) == (SearchView {
            registration: Registration::InRound { retry },
            ..search_at(options, flags, events)
        }),
{
    lemma_udp_has_a_uid(options, flags, events);
    lemma_one_more(options, flags, events, Event::<D>::Opened(Ok(())));
}

/// A failed round is repeated after a wait: unless there is a limit and it is
/// reached, the only command is to wait, for 1, 2, 4, 8 and 16 seconds at first
/// and for 30 seconds ever after, and one more repetition is counted. At the
/// limit the registration is given up for the reason that the round failed, and
/// the search ends in a timeout unless the local search is running.
pub proof fn law_failed_round_is_repeated_or_given_up<D>(
    s: SearchView,
    retry: usize,
    round: Round,
    error: Error,
)
    requires
        s.phase is Udp,
        s.registration == (Registration::InRound { retry }),
        round == Round::Refused(error) || (round is TimedOut && error is DiscoveryTimeout),
    ensures
        next(s, Event::<D>::RoundEnded(round)) == if s.max_retries == 0 || retry < s.max_retries {
            (
                SearchView {
                    registration: Registration::BackingOff {
                        retry: if retry < usize::MAX {
                            (retry + 1) as usize
                        } else {
                            retry
                        },
                    },
                    ..s
                },
                ProgressView::<D>::Waiting(
                    seq![
                        CommandView::BackOff {
                            secs: if retry == 0 {
                                1
                            } else if retry == 1 {
                                2
                            } else if retry == 2 {
                                4
                            } else if retry == 3 {
                                8
                            } else if retry == 4 {
                                16
                            } else {
                                30
                            },
                        },
                    ],
                ),
            )
        } else if s.local {
            (
                SearchView { registration: Registration::Failed(error), ..s },
                ProgressView::Waiting(Seq::empty()),
            )
        } else {
            (
                SearchView {
                    registration: Registration::Failed(error),
                    phase: Phase::Finished,
                    ..s
                },
                ProgressView::Failed(Error::DiscoveryTimeout),
            )
        },
{
    vstd::arithmetic::power2::lemma2_to64();
}

/// When a wait is over the next discoverer is to be opened, with the number of
/// repetitions as it was.
pub proof fn law_wait_leads_to_a_fresh_discoverer<D>(s: SearchView, retry: usize)
    requires
        s.phase is Udp,
        s.registration == (Registration::BackingOff { retry }),
    ensures
        next(s, Event::<D>::BackoffElapsed) == (
            SearchView { registration: Registration::Opening { retry }, ..s },
            ProgressView::<D>::Waiting(seq![CommandView::OpenDiscoverer]),
        ),
{
}

/// A discoverer that cannot be opened ends the registration for just that
/// reason, without another try; the search ends in a timeout unless the local
/// search is running.
pub proof fn law_unopened_discoverer_ends_the_registration<D>(
    s: SearchView,
    retry: usize,
    error: Error,
)
    requires
        s.phase is Udp,
        s.registration == (Registration::Opening { retry }),
    ensures
        next(s, Event::<D>::Opened(Err(error))) == if s.local {
            (
                SearchView { registration: Registration::Failed(error), ..s },
                ProgressView::<D>::Waiting(Seq::empty()),
            )
        } else {
            (
                SearchView {
                    registration: Registration::Failed(error),
                    phase: Phase::Finished,
                    ..s
                },
                ProgressView::Failed(Error::DiscoveryTimeout),
            )
        },
{
}

/// A local search that finds the camera ends the search with what it found. One
/// that fails is over, and the search goes on if the registration arm is at
/// work; if not, it ends in a timeout.
pub proof fn law_local_search_decides_for_itself<D>(s: SearchView, found: D, error: Error)
    requires
        s.phase is Udp,
        s.local,
    ensures
        next(s, Event::Probed(Method::Local, Ok(found))) == (
            SearchView { phase: Phase::Finished, ..s },
            ProgressView::Found(CameraLocation::Udp(found)),
        ),
        next(s, Event::<D>::Probed(Method::Local, Err(error))) == match s.registration {
            Registration::Off | Registration::Failed(_) => (
                SearchView { local: false, phase: Phase::Finished, ..s },
                ProgressView::<D>::Failed(Error::DiscoveryTimeout),
            ),
            _ => (SearchView { local: false, ..s }, ProgressView::Waiting(Seq::empty())),
        },
{
}

/// Each method behind a registration ends the search with what it found, if it
/// finds the camera.
pub proof fn law_connected_method_ends_the_search<D>(
    s: SearchView,
    remote: bool,
    mapped: bool,
    relayed: bool,
    found: D,
)
    requires
        s.phase is Udp,
        s.registration == (Registration::Probing { remote, mapped, relayed }),
    ensures
        ({
            let end = (
                SearchView { phase: Phase::Finished, ..s },
                ProgressView::Found(CameraLocation::Udp(found)),
            );
            &&& remote ==> next(s, Event::Probed(Method::Remote, Ok(found))) == end
            &&& mapped ==> next(s, Event::Probed(Method::Mapped, Ok(found))) == end
            &&& relayed ==> next(s, Event::Probed(Method::Relayed, Ok(found))) == end
        }),
{
}

/// Each method behind a registration that fails is over, alone, while another
/// one of them runs. When the last of them has failed the registration arm has
/// timed out, and the search ends in a timeout unless the local search is
/// running.
pub proof fn law_failed_method_is_dropped<D>(
    s: SearchView,
    remote: bool,
    mapped: bool,
    relayed: bool,
    error: Error,
)
    requires
        s.phase is Udp,
        s.registration == (Registration::Probing { remote, mapped, relayed }),
    ensures
        ({
            let exhausted = SearchView {
                registration: Registration::Failed(Error::DiscoveryTimeout),
                ..s
            };
            let end = if s.local {
                (exhausted, ProgressView::<D>::Waiting(Seq::empty()))
            } else {
                (
                    SearchView { phase: Phase::Finished, ..exhausted },
                    ProgressView::Failed(Error::DiscoveryTimeout),
                )
            };
            &&& remote ==> next(s, Event::<D>::Probed(Method::Remote, Err(error))) == if mapped
                || relayed {
                (
                    SearchView {
                        registration: Registration::Probing { remote: false, mapped, relayed },
                        ..s
                    },
                    ProgressView::Waiting(Seq::empty()),
                )
            } else {
                end
            }
            &&& mapped ==> next(s, Event::<D>::Probed(Method::Mapped, Err(error))) == if remote
                || relayed {
                (
                    SearchView {
                        registration: Registration::Probing { remote, mapped: false, relayed },
                        ..s
                    },
                    ProgressView::Waiting(Seq::empty()),
                )
            } else {
                end
            }
            &&& relayed ==> next(s, Event::<D>::Probed(Method::Relayed, Err(error))) == if remote
                || mapped {
                (
                    SearchView {
                        registration: Registration::Probing { remote, mapped, relayed: false },
                        ..s
                    },
                    ProgressView::Waiting(Seq::empty()),
                )
            } else {
                end
            }
        }),
{
}

/// An event that nothing running can have caused changes nothing, and nothing is
/// commanded on it.
pub proof fn law_event_without_a_cause_changes_nothing<D>(s: SearchView, event: Event<D>)
    requires
        match event {
            Event::TcpChecked { .. } => !(s.phase is Tcp),
            Event::Opened(_) => !(s.phase is Udp) || !(s.registration is Opening),
            Event::RoundEnded(_) => !(s.phase is Udp) || !(s.registration is InRound),
            Event::BackoffElapsed => !(s.phase is Udp) || !(s.registration is BackingOff),
            Event::Probed(Method::Local, _) => !(s.phase is Udp) || !s.local,
            Event::Probed(Method::Remote, _) => !(s.phase is Udp) || !(s.registration matches
                Registration::Probing { remote: true, .. }),
            Event::Probed(Method::Mapped, _) => !(s.phase is Udp) || !(s.registration matches
                Registration::Probing { mapped: true, .. }),
            Event::Probed(Method::Relayed, _) => !(s.phase is Udp) || !(s.registration matches
                Registration::Probing { relayed: true, .. }),
        },
    ensures
        next(s, event) == (s, ProgressView::<D>::Waiting(Seq::empty())),
{
}

/// Whatever an event makes a search begin, it commands: a TCP candidate that is
/// being checked now and was not before, the local search, a discoverer, a
/// round, a wait, and each method behind a registration. The commands carry the
/// sockets, the channel and the UID of the options.
pub proof fn law_whatever_begins_was_commanded<D>(
    options: BcCameraOpt,
    flags: DiscoveryFlags,
    events: Seq<Event<D>>,
    event: Event<D>,
)
    requires
        options.protocol is Udp || tcp_candidates(options.addrs@, options.port).len()
            <= usize::MAX,
    ensures
        ({
            let before = search_at(options, flags, events);
            let after = search_at(options, flags, events.push(event));
            let commands = match reported(options, flags, events.push(event)) {
                ProgressView::Waiting(commands) => commands,
                _ => Seq::empty(),
            };
            let udp = before.phase is Udp;
            &&& after.phase is Tcp && after.phase != before.phase ==> commands.contains(
                CommandView::CheckTcp {
                    socket: tcp_candidates(options.addrs@, options.port)[after.phase->next as int],
                    channel_id: options.channel_id,
                },
            )
            &&& after.phase is Udp && after.local && !(udp && before.local) ==> commands.contains(
                CommandView::SearchLocally {
                    uid: options.uid->0@,
                    sockets: udp_candidates(options.addrs@, options.port),
                },
            )
            &&& after.phase is Udp && after.registration is Opening && !(udp && before.registration
                == after.registration) ==> commands.contains(CommandView::OpenDiscoverer)
            &&& after.phase is Udp && after.registration is InRound && !(udp && before.registration
                == after.registration) ==> commands.contains(
                CommandView::Register { uid: options.uid->0@, timeout_secs: 8 },
            )
            &&& after.phase is Udp && after.registration is BackingOff && !(udp
                && before.registration == after.registration) ==> commands.len() == 1
                && commands[0] is BackOff
            &&& after.phase is Udp && (after.registration matches Registration::Probing {
                remote: true,
                ..
            }) && !(udp && (before.registration matches Registration::Probing {
                remote: true,
                ..
            })) ==> commands.contains(CommandView::ConnectRemote { uid: options.uid->0@ })
            &&& after.phase is Udp && (after.registration matches Registration::Probing {
                mapped: true,
                ..
            }) && !(udp && (before.registration matches Registration::Probing {
                mapped: true,
                ..
            })) ==> commands.contains(CommandView::ConnectMapped { delay_ms: 250 })
            &&& after.phase is Udp && (after.registration matches Registration::Probing {
                relayed: true,
                ..
            }) && !(udp && (before.registration matches Registration::Probing {
                relayed: true,
                ..
            })) ==> commands.contains(CommandView::ConnectRelayed { delay_ms: 500 })
        }),
{
    let before = search_at(options, flags, events);
    let after = search_at(options, flags, events.push(event));
    law_search_keeps_to_its_options(options, flags, events);
    law_search_keeps_to_its_options(options, flags, events.push(event));
    lemma_search_is_sound(options, flags, events);
    lemma_one_more(options, flags, events, event);
    if after.phase is Udp {
        lemma_udp_has_a_uid(options, flags, events.push(event));
    }
    if let ProgressView::Waiting(commands) = reported(options, flags, events.push(event)) {
        assert(forall|i: int|
            0 <= i < commands.len() ==> commands.contains(#[trigger] commands[i]));
        if commands.len() > 0 {
            assert(commands.contains(commands[0]));
        }
        if commands.len() > 1 {
            assert(commands.contains(commands[1]));
        }
        if commands.len() > 2 {
            assert(commands.contains(commands[2]));
        }
    }
}

/// Nothing is commanded in vain: whatever an event makes a search command is
/// running afterwards.
pub proof fn law_whatever_is_commanded_runs<D>(
    options: BcCameraOpt,
    flags: DiscoveryFlags,
    events: Seq<Event<D>>,
    event: Event<D>,
    index: int,
)
    requires
        options.protocol is Udp || tcp_candidates(options.addrs@, options.port).len()
            <= usize::MAX,
        reported(options, flags, events.push(event)) is Waiting,
        0 <= index < reported(options, flags, events.push(event))->Waiting_0.len(),
    ensures
        ({
            let after = search_at(options, flags, events.push(event));
            let command = reported(options, flags, events.push(event))->Waiting_0[index];
            match command {
                CommandView::CheckTcp { socket, channel_id } => {
                    &&& after.phase matches Phase::Tcp { next }
                    &&& next < tcp_candidates(options.addrs@, options.port).len()
                    &&& socket == tcp_candidates(options.addrs@, options.port)[next as int]
                    &&& channel_id == options.channel_id
                    &&& !(options.protocol is Udp)
                },
                CommandView::SearchLocally { uid, sockets } => {
                    &&& after.phase is Udp && after.local && flags.local
                    &&& !(options.protocol is Tcp)
                    &&& options.uid is Some && uid == options.uid->0@
                    &&& sockets == udp_candidates(options.addrs@, options.port)
                },
                CommandView::OpenDiscoverer => {
                    &&& after.phase is Udp && after.registration is Opening
                    &&& flags.remote || flags.map || flags.relay
                },
                CommandView::Register { uid, timeout_secs } => {
                    &&& after.phase is Udp && after.registration is InRound
                    &&& options.uid is Some && uid == options.uid->0@
                    &&& timeout_secs == 8
                },
                CommandView::BackOff { secs } => {
                    &&& after.phase is Udp && after.registration is BackingOff
                    &&& 1 <= secs <= 30
                },
                CommandView::ConnectRemote { uid } => {
                    &&& after.phase is Udp && flags.remote
                    &&& after.registration matches Registration::Probing { remote: true, .. }
                    &&& options.uid is Some && uid == options.uid->0@
                },
                CommandView::ConnectMapped { delay_ms } => {
                    &&& after.phase is Udp && flags.map
                    &&& after.registration matches Registration::Probing { mapped: true, .. }
                    &&& delay_ms == 250
                },
                CommandView::ConnectRelayed { delay_ms } => {
                    &&& after.phase is Udp && flags.relay
                    &&& after.registration matches Registration::Probing { relayed: true, .. }
                    &&& delay_ms == 500
                },
            }
        }),
{
    let before = search_at(options, flags, events);
    let after = search_at(options, flags, events.push(event));
    law_search_keeps_to_its_options(options, flags, events);
    lemma_search_is_sound(options, flags, events);
    lemma_one_more(options, flags, events, event);
    vstd::arithmetic::power2::lemma2_to64();
    if after.phase is Udp {
        lemma_udp_has_a_uid(options, flags, events.push(event));
    }
    if before.phase is Udp {
        lemma_udp_has_a_uid(options, flags, events);
    }
}

/// The events of rounds that all fail and are all followed by another one.
pub open spec fn failed_rounds<D>(rounds: Seq<Round>) -> Seq<Event<D>>
    decreases rounds.len(),
{
    if rounds.len() == 0 {
        Seq::empty()
    } else {
        failed_rounds::<D>(rounds.drop_last()) + failed_round::<D>(rounds.last())
    }
}

/// After some failed rounds that are repeated the next one is running.
proof fn lemma_failed_rounds<D>(
    options: BcCameraOpt,
    flags: DiscoveryFlags,
    events: Seq<Event<D>>,
    rounds: Seq<Round>,
)
    requires
        search_at(options, flags, events).phase is Udp,
        search_at(options, flags, events).registration == (Registration::InRound { retry: 0 }),
        forall|i: int| 0 <= i < rounds.len() ==> !(#[trigger] rounds[i] is Registered),
        rounds.len() <= usize::MAX,
        options.max_discovery_retries > 0 ==> rounds.len() <= options.max_discovery_retries,
    ensures
        search_at(options, flags, events + failed_rounds::<D>(rounds)) == (SearchView {
            registration: Registration::InRound { retry: rounds.len() as usize },
            ..search_at(options, flags, events)
        }),
    decreases rounds.len(),
{
    if rounds.len() == 0 {
        assert(events + failed_rounds::<D>(rounds) =~= events);
    } else {
        let earlier = rounds.drop_last();
        let round = rounds.last();
        assert forall|i: int| 0 <= i < earlier.len() implies !(#[trigger] earlier[i]
            is Registered) by {
            assert(earlier[i] == rounds[i]);
        }
        assert(round == rounds[rounds.len() - 1]);
        lemma_failed_rounds(options, flags, events, earlier);
        let e0 = events + failed_rounds::<D>(earlier);
        let e1 = e0.push(Event::<D>::RoundEnded(round));
        let e2 = e1.push(Event::<D>::BackoffElapsed);
        let e3 = e2.push(Event::<D>::Opened(Ok(())));
        assert(events + failed_rounds::<D>(rounds) =~= e3);
        law_search_keeps_to_its_options(options, flags, e0);
        lemma_one_more(options, flags, e0, Event::<D>::RoundEnded(round));
        lemma_one_more(options, flags, e1, Event::<D>::BackoffElapsed);
        lemma_one_more(options, flags, e2, Event::<D>::Opened(Ok(())));
        let retry = earlier.len() as usize;
        let error = match round {
            Round::Refused(e) => e,
            _ => Error::DiscoveryTimeout,
        };
        law_failed_round_is_repeated_or_given_up::<D>(
            search_at(options, flags, e0),
            retry,
            round,
            error,
        );
    }
}

/// A registration that comes late is as good as one that comes at once. When
/// TCP has failed, or was not tried, and a discoverer was opened, then after
/// any number of failed rounds that the limit allows, refused or timed out in
/// any order, a round that registers is answered with the same commands: to
/// connect directly for the UID of the options, through a mapping after 250 ms
/// and through the relay after 500 ms, as far as each is allowed.
pub proof fn law_late_registration_is_as_good_as_an_early_one<D>(
    options: BcCameraOpt,
    flags: DiscoveryFlags,
    uid: String,
    rounds: Seq<Round>,
)
    requires
        options.protocol is Udp || options.protocol is TcpUdp,
        options.uid == Some(uid),
        options.protocol is TcpUdp ==> tcp_candidates(options.addrs@, options.port).len()
            <= usize::MAX,
        flags.remote || flags.map || flags.relay,
        forall|i: int| 0 <= i < rounds.len() ==> !(#[trigger] rounds[i] is Registered),
        rounds.len() <= usize::MAX,
        options.max_discovery_retries > 0 ==> rounds.len() <= options.max_discovery_retries,
    ensures
        ({
            let count = if options.protocol is Udp {
                0
            } else {
                tcp_candidates(options.addrs@, options.port).len()
            };
            let events = misses::<D>(count).push(Event::Opened(Ok(()))) + failed_rounds::<D>(
                rounds,
            );
            reported(options, flags, events.push(Event::RoundEnded(Round::Registered)))
                == ProgressView::<D>::Waiting(
                (if flags.remote {
                    seq![CommandView::ConnectRemote { uid: uid@ }]
                } else {
                    Seq::empty()
                }) + (if flags.map {
                    seq![CommandView::ConnectMapped { delay_ms: 250 }]
                } else {
                    Seq::empty()
                }) + (if flags.relay {
                    seq![CommandView::ConnectRelayed { delay_ms: 500 }]
                } else {
                    Seq::empty()
                }),
            )
        }),
{
    let count = if options.protocol is Udp {
        0
    } else {
        tcp_candidates(options.addrs@, options.port).len()
    };
    let opened = misses::<D>(count).push(Event::Opened(Ok(())));
    law_udp_begins_with_what_is_allowed::<D>(options, flags, uid);
    law_opened_discoverer_is_registered(options, flags, misses::<D>(count), 0);
    lemma_failed_rounds(options, flags, opened, rounds);
    law_registration_starts_the_allowed_methods(
        options,
        flags,
        opened + failed_rounds::<D>(rounds),
    );
}

} // verus!
