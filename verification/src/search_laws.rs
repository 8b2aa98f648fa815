//! What holds of every search for a camera.

use crate::error::Error;
use crate::find_camera::{
    begin, enter_udp, next, plan, registration_runs, unchanged, CameraLocation, CommandView, Event,
    Method, Phase, ProgressView, Registration, SearchView,
};
use crate::options::{BcCameraOpt, DiscoveryFlags};
use crate::registration::{gives_up, one_more, round_error, Round};
use vstd::prelude::*;

verus! {

/// Where a search stands after a run of events.
pub open spec fn state_after<D>(s: SearchView, events: Seq<Event<D>>) -> SearchView
    decreases events.len(),
{
    if events.len() == 0 {
        s
    } else {
        next(state_after(s, events.drop_last()), events.last()).0
    }
}

/// How a run of events ends a search: what is reported by the first event that
/// ends it, or `None` while it goes on.
pub open spec fn verdict<D>(s: SearchView, events: Seq<Event<D>>) -> Option<ProgressView<D>>
    decreases events.len(),
{
    if events.len() == 0 {
        None
    } else {
        match verdict(s, events.drop_last()) {
            Some(end) => Some(end),
            None => match next(state_after(s, events.drop_last()), events.last()).1 {
                ProgressView::Waiting(_) => None,
                end => Some(end),
            },
        }
    }
}

/// Whether `flags` allow `method`.
pub open spec fn allows(flags: DiscoveryFlags, method: Method) -> bool {
    match method {
        Method::Local => flags.local,
        Method::Remote => flags.remote,
        Method::Mapped => flags.map,
        Method::Relayed => flags.relay,
    }
}

/// Whether a search waits for an event of this kind.
pub open spec fn awaited<D>(s: SearchView, event: Event<D>) -> bool {
    match event {
        Event::TcpChecked { .. } => s.phase is Tcp,
        Event::Opened(_) => s.phase is Udp && s.registration is Opening,
        Event::RoundEnded(_) => s.phase is Udp && s.registration is InRound,
        Event::BackoffElapsed => s.phase is Udp && s.registration is BackingOff,
        Event::Probed(method, _) => s.runs(method),
    }
}

/// A search is sound from its first step on: it either ends at once, or waits
/// for something that may happen.
pub proof fn law_begin_is_sound<D>(options: BcCameraOpt, flags: DiscoveryFlags)
    ensures
        begin::<D>(options, flags).0.wf(),
        begin::<D>(options, flags).1 is Waiting <==> !(begin::<D>(options, flags).0.phase
            is Finished),
{
}

/// Every event keeps a search sound. One that still waits afterwards has an
/// arm at work, so it cannot wait for ever on nothing.
pub proof fn law_step_keeps_search_sound<D>(s: SearchView, event: Event<D>)
    requires
        s.wf(),
        s.tcp.len() <= usize::MAX,
    ensures
        next(s, event).0.wf(),
        !(s.phase is Finished) ==> (next(s, event).1 is Waiting <==> !(next(s, event).0.phase
            is Finished)),
{
}

/// The settings of a search never change.
pub proof fn law_settings_are_kept<D>(s: SearchView, event: Event<D>)
    ensures
        next(s, event).0.channel_id == s.channel_id,
        next(s, event).0.flags == s.flags,
        next(s, event).0.max_retries == s.max_retries,
        next(s, event).0.tcp == s.tcp,
        next(s, event).0.udp == s.udp,
{
}

/// The first method that finds the camera ends the search with what it found,
/// whatever else is still running.
pub proof fn law_first_success_wins<D>(s: SearchView, method: Method, found: D)
    requires
        s.runs(method),
    ensures
        next(s, Event::Probed(method, Ok(found))) == (
            s.finished(),
            ProgressView::Found(CameraLocation::Udp(found)),
        ),
{
}

/// A method that fails takes no other one with it: while another method runs,
/// the search goes on, and that method goes on running.
pub proof fn law_failure_spares_other_methods<D>(
    s: SearchView,
    failed: Method,
    other: Method,
    error: Error,
)
    requires
        s.wf(),
        s.runs(failed),
        s.runs(other),
        other != failed,
    ensures
        ({
            let after = next(s, Event::<D>::Probed(failed, Err(error)));
            &&& after.1 == ProgressView::<D>::Waiting(Seq::empty())
            &&& after.0.runs(other)
            &&& !after.0.runs(failed)
        }),
{
}

/// The two UDP arms do not disturb each other: a failed local search leaves the
/// registration as it is, and nothing that happens to the registration stops
/// the local search.
pub proof fn law_arms_are_independent<D>(s: SearchView, event: Event<D>)
    requires
        s.phase is Udp,
    ensures
        match event {
            Event::Probed(Method::Local, _) => next(s, event).0.registration == s.registration,
            _ => next(s, event).0.local == s.local,
        },
{
}

/// When the last arm fails the search reports a timeout, whatever the arm
/// itself complained of.
pub proof fn law_last_failure_is_a_timeout<D>(s: SearchView, method: Method, error: Error)
    requires
        s.wf(),
        s.runs(method),
        forall|other: Method| other != method ==> !s.runs(other),
        method == Method::Local ==> !registration_runs(s.registration),
    ensures
        next(s, Event::<D>::Probed(method, Err(error))).1 == ProgressView::<D>::Failed(
            Error::DiscoveryTimeout,
        ),
{
    assert(method != Method::Local ==> !s.runs(Method::Local));
    assert(method != Method::Remote ==> !s.runs(Method::Remote));
    assert(method != Method::Mapped ==> !s.runs(Method::Mapped));
    assert(method != Method::Relayed ==> !s.runs(Method::Relayed));
}

/// A search that fails has nothing left to try. It reports that there was no
/// way to look for the camera if UDP cannot be used, once the last TCP
/// candidate has failed; and a timeout if UDP can be used, once every arm of it
/// is gone.
pub proof fn law_failure_means_nothing_is_left<D>(s: SearchView, event: Event<D>, error: Error)
    requires
        s.wf(),
        next(s, event).1 == ProgressView::<D>::Failed(error),
    ensures
        ({
            let after = next(s, event).0;
            &&& after.phase is Finished
            &&& error is CannotInitCamera || error is DiscoveryTimeout
            &&& error is CannotInitCamera <==> after.udp is None
            &&& error is CannotInitCamera ==> s.phase == (Phase::Tcp {
                next: (s.tcp.len() - 1) as usize,
            })
            &&& error is DiscoveryTimeout ==> !after.local && !registration_runs(
                after.registration,
            )
        }),
{
}

/// A search that has ended takes no notice of late events.
pub proof fn law_finished_search_ignores_events<D>(s: SearchView, event: Event<D>)
    requires
        s.phase is Finished,
    ensures
        next(s, event) == unchanged::<D>(s),
{
}

/// An event that the search does not wait for changes nothing.
pub proof fn law_stray_events_are_ignored<D>(s: SearchView, event: Event<D>)
    requires
        !awaited(s, event),
    ensures
        next(s, event) == unchanged::<D>(s),
{
}

/// Only what `flags` allow is ever commanded.
pub proof fn law_only_allowed_methods_run<D>(
    s: SearchView,
    event: Event<D>,
    command: CommandView,
)
    requires
        s.wf(),
        next(s, event).1 is Waiting,
        next(s, event).1->Waiting_0.contains(command),
    ensures
        command is SearchLocally ==> s.flags.local,
        command is OpenDiscoverer || command is Register || command is BackOff
            ==> s.flags.registers(),
        command is ConnectRemote ==> s.flags.remote,
        command is ConnectMapped ==> s.flags.map,
        command is ConnectRelayed ==> s.flags.relay,
{
}

/// Every registration round runs on a discoverer that was opened for it.
pub proof fn law_each_round_has_a_fresh_discoverer<D>(
    s: SearchView,
    event: Event<D>,
    command: CommandView,
)
    requires
        s.wf(),
        next(s, event).1 is Waiting,
        next(s, event).1->Waiting_0.contains(command),
        command is Register,
    ensures
        event matches Event::Opened(Ok(_)),
        s.registration is Opening,
        next(s, event).0.registration is InRound,
{
}

/// UDP discovery is not begun while a TCP candidate is left: as long as one
/// is, the only command is to check the next one.
pub proof fn law_tcp_comes_before_udp<D>(s: SearchView, checked: int)
    requires
        0 <= checked < s.tcp.len() - 1,
        s.tcp.len() <= usize::MAX,
        s.phase == (Phase::Tcp { next: checked as usize }),
    ensures
        next(s, Event::<D>::TcpChecked { reachable: false }).1 == ProgressView::<D>::Waiting(
            seq![
                CommandView::CheckTcp {
                    socket: s.tcp[checked + 1],
                    channel_id: s.channel_id,
                },
            ],
        ),
{
}

/// TCP checks that all fail.
pub open spec fn misses<D>(count: nat) -> Seq<Event<D>> {
    Seq::new(count, |i: int| Event::TcpChecked { reachable: false })
}

/// After some failed checks the search is at the next candidate.
proof fn lemma_misses<D>(options: BcCameraOpt, flags: DiscoveryFlags, count: nat)
    requires
        count < plan(options, flags).tcp.len() <= usize::MAX,
    ensures
        state_after(begin::<D>(options, flags).0, misses::<D>(count)) == (SearchView {
            phase: Phase::Tcp { next: count as usize },
            ..plan(options, flags)
        }),
        verdict(begin::<D>(options, flags).0, misses::<D>(count)) is None,
    decreases count,
{
    if count > 0 {
        let before = (count - 1) as nat;
        assert(misses::<D>(count).drop_last() =~= misses::<D>(before));
        lemma_misses::<D>(options, flags, before);
    }
}

/// The camera is found at the first TCP candidate that answers, and UDP is not
/// consulted.
pub proof fn law_first_reachable_candidate_is_found<D>(
    options: BcCameraOpt,
    flags: DiscoveryFlags,
    count: nat,
)
    requires
        count < plan(options, flags).tcp.len() <= usize::MAX,
    ensures
        verdict(
            begin::<D>(options, flags).0,
            misses::<D>(count).push(Event::TcpChecked { reachable: true }),
        ) == Some(
            ProgressView::<D>::Found(
                CameraLocation::Tcp(plan(options, flags).tcp[count as int]),
            ),
        ),
{
    let events = misses::<D>(count).push(Event::TcpChecked { reachable: true });
    assert(events.drop_last() =~= misses::<D>(count));
    lemma_misses::<D>(options, flags, count);
}

/// When every TCP candidate has failed, the search goes on to UDP, or ends if
/// UDP cannot be used. With no TCP candidate at all it does so at once.
pub proof fn law_exhausted_tcp_leads_to_udp<D>(options: BcCameraOpt, flags: DiscoveryFlags)
    requires
        plan(options, flags).tcp.len() <= usize::MAX,
    ensures
        ({
            let count = plan(options, flags).tcp.len();
            let udp = enter_udp::<D>(plan(options, flags));
            if count == 0 {
                begin::<D>(options, flags) == udp
            } else {
                &&& state_after(begin::<D>(options, flags).0, misses::<D>(count)) == udp.0
                &&& verdict(begin::<D>(options, flags).0, misses::<D>(count)) == match udp.1 {
                    ProgressView::Waiting(_) => None,
                    end => Some(end),
                }
            }
        }),
{
    let count = plan(options, flags).tcp.len();
    if count > 0 {
        let before = (count - 1) as nat;
        assert(misses::<D>(count).drop_last() =~= misses::<D>(before));
        lemma_misses::<D>(options, flags, before);
        let last = state_after(begin::<D>(options, flags).0, misses::<D>(before));
        assert(SearchView { phase: Phase::Finished, ..last } == plan(options, flags));
        assert(enter_udp::<D>(last) == enter_udp::<D>(plan(options, flags)));
    }
}

/// Without a UID, or where UDP is not wanted, a search whose TCP candidates
/// all fail reports that the camera cannot be initialised.
pub proof fn law_no_way_left_is_reported<D>(options: BcCameraOpt, flags: DiscoveryFlags)
    requires
        plan(options, flags).tcp.len() <= usize::MAX,
        options.uid is None || !options.protocol.udp(),
    ensures
        ({
            let count = plan(options, flags).tcp.len();
            let end = ProgressView::<D>::Failed(Error::CannotInitCamera);
            if count == 0 {
                begin::<D>(options, flags).1 == end
            } else {
                verdict(begin::<D>(options, flags).0, misses::<D>(count)) == Some(end)
            }
        }),
{
    law_exhausted_tcp_leads_to_udp::<D>(options, flags);
}

/// With every method disabled, UDP discovery ends in a timeout before anything
/// is sent.
pub proof fn law_disabled_discovery_times_out<D>(s: SearchView)
    requires
        s.udp is Some,
        !s.flags.local,
        !s.flags.registers(),
    ensures
        enter_udp::<D>(s).1 == ProgressView::<D>::Failed(Error::DiscoveryTimeout),
{
}

/// A found camera was really reported: by a TCP candidate that answered, or by
/// an allowed method that handed over just what is returned.
pub proof fn law_found_camera_was_reported<D>(
    s: SearchView,
    events: Seq<Event<D>>,
    location: CameraLocation<D>,
)
    requires
        s.wf(),
        s.tcp.len() <= usize::MAX,
        verdict(s, events) == Some(ProgressView::Found(location)),
    ensures
        match location {
            CameraLocation::Tcp(socket) => s.tcp.contains(socket) && events.contains(
                Event::TcpChecked { reachable: true },
            ),
            CameraLocation::Udp(found) => exists|method: Method|
                allows(s.flags, method) && #[trigger] events.contains(
                    Event::Probed(method, Ok(found)),
                ),
        },
    decreases events.len(),
{
    let earlier = events.drop_last();
    let last = events.last();
    assert(forall|e: Event<D>| earlier.contains(e) ==> #[trigger] events.contains(e));
    if verdict(s, earlier) is Some {
        law_found_camera_was_reported(s, earlier, location);
        if let CameraLocation::Udp(found) = location {
            let method = choose|method: Method|
                allows(s.flags, method) && #[trigger] earlier.contains(
                    Event::Probed(method, Ok(found)),
                );
            assert(events.contains(Event::Probed(method, Ok(found))));
        }
    } else {
        lemma_state_is_sound(s, earlier);
        assert(events[events.len() - 1] == last);
        match last {
            Event::Probed(method, result) => {
                assert(events.contains(Event::Probed(method, result)));
            },
            _ => {},
        }
    }
}

/// The first event that ends a search decides: no later event changes how it
/// ended.
pub proof fn law_verdict_is_final<D>(s: SearchView, events: Seq<Event<D>>, later: Seq<Event<D>>)
    requires
        verdict(s, events) is Some,
    ensures
        verdict(s, events + later) == verdict(s, events),
    decreases later.len(),
{
    if later.len() == 0 {
        assert(events + later =~= events);
    } else {
        law_verdict_is_final(s, events, later.drop_last());
        assert((events + later).drop_last() =~= events + later.drop_last());
    }
}

/// Soundness and settings last over any run of events.
proof fn lemma_state_is_sound<D>(s: SearchView, events: Seq<Event<D>>)
    requires
        s.wf(),
        s.tcp.len() <= usize::MAX,
    ensures
        state_after(s, events).wf(),
        state_after(s, events).flags == s.flags,
        state_after(s, events).tcp == s.tcp,
        state_after(s, events).max_retries == s.max_retries,
    decreases events.len(),
{
    if events.len() > 0 {
        lemma_state_is_sound(s, events.drop_last());
    }
}

/// The events of a round that fails and is followed by another one.
pub open spec fn failed_round<D>(round: Round) -> Seq<Event<D>> {
    seq![Event::RoundEnded(round), Event::BackoffElapsed, Event::Opened(Ok(()))]
}

/// Where a search stands after rounds that all fail, each of them repeated.
pub open spec fn after_failed_rounds<D>(s: SearchView, rounds: Seq<Round>) -> SearchView
    decreases rounds.len(),
{
    if rounds.len() == 0 {
        s
    } else {
        state_after(
            after_failed_rounds::<D>(s, rounds.drop_last()),
            failed_round::<D>(rounds.last()),
        )
    }
}

/// A failing registration is repeated as long as the limit allows, and always
/// if there is none: after `n` failed rounds round `n + 1` is running, and
/// nothing else has changed.
pub proof fn law_failed_rounds_are_repeated<D>(s: SearchView, rounds: Seq<Round>)
    requires
        s.phase is Udp,
        s.registration == (Registration::InRound { retry: 0 }),
        forall|i: int| 0 <= i < rounds.len() ==> round_error(#[trigger] rounds[i]) is Some,
        rounds.len() <= usize::MAX,
        s.max_retries > 0 ==> rounds.len() <= s.max_retries,
    ensures
        after_failed_rounds::<D>(s, rounds) == (SearchView {
            registration: Registration::InRound { retry: rounds.len() as usize },
            ..s
        }),
    decreases rounds.len(),
{
    if rounds.len() > 0 {
        let earlier = rounds.drop_last();
        assert forall|i: int| 0 <= i < earlier.len() implies round_error(
            #[trigger] earlier[i],
        ) is Some by {
            assert(earlier[i] == rounds[i]);
        }
        law_failed_rounds_are_repeated::<D>(s, earlier);
        let before = after_failed_rounds::<D>(s, earlier);
        let round = rounds.last();
        assert(round == rounds[rounds.len() - 1]);
        lemma_failed_round::<D>(before, earlier.len() as usize, round);
    }
}

/// One failed round that is repeated.
proof fn lemma_failed_round<D>(s: SearchView, retry: usize, round: Round)
    requires
        s.phase is Udp,
        s.registration == (Registration::InRound { retry }),
        round_error(round) is Some,
        !gives_up(retry as int, s.max_retries as int),
    ensures
        state_after(s, failed_round::<D>(round)) == (SearchView {
            registration: Registration::InRound { retry: one_more(retry) },
            ..s
        }),
{
    let events = failed_round::<D>(round);
    let two = events.drop_last();
    let one = two.drop_last();
    assert(one.drop_last() =~= Seq::<Event<D>>::empty());
    assert(state_after(s, one.drop_last()) == s);
    assert(one.last() == Event::<D>::RoundEnded(round));
    let s1 = state_after(s, one);
    assert(s1 == next(s, one.last()).0);
    assert(two.last() == Event::<D>::BackoffElapsed);
    let s2 = state_after(s, two);
    assert(s2 == next(s1, two.last()).0);
    assert(events.last() == Event::<D>::Opened(Ok(())));
    assert(state_after(s, events) == next(s2, events.last()).0);
}

/// With a limit of `n` repetitions exactly `n + 1` rounds run: when the last of
/// them fails too, the registration arm is given up with the error of that
/// round, and the search ends in a timeout unless the local search still runs.
pub proof fn law_registration_is_given_up<D>(s: SearchView, rounds: Seq<Round>, last: Round)
    requires
        s.phase is Udp,
        s.registration == (Registration::InRound { retry: 0 }),
        forall|i: int| 0 <= i < rounds.len() ==> round_error(#[trigger] rounds[i]) is Some,
        round_error(last) is Some,
        s.max_retries > 0,
        rounds.len() == s.max_retries,
    ensures
        ({
            let after = next(
                after_failed_rounds::<D>(s, rounds),
                Event::<D>::RoundEnded(last),
            );
            &&& after.0.registration == Registration::Failed(round_error(last)->0)
            &&& after.1 == if s.local {
                ProgressView::<D>::Waiting(Seq::empty())
            } else {
                ProgressView::Failed(Error::DiscoveryTimeout)
            }
        }),
{
    law_failed_rounds_are_repeated::<D>(s, rounds);
}

/// A bound on the events that a search with a limit on its repetitions still
/// takes.
pub open spec fn work_left(s: SearchView) -> int {
    let limit = s.max_retries as int;
    match s.phase {
        Phase::Tcp { next } => s.tcp.len() - next + 3 * limit + 6,
        Phase::Udp => (if s.local {
            1int
        } else {
            0
        }) + match s.registration {
            Registration::Off | Registration::Failed(_) => 0,
            Registration::BackingOff { retry } => 3 * (limit - retry) + 6,
            Registration::Opening { retry } => 3 * (limit - retry) + 5,
            Registration::InRound { retry } => 3 * (limit - retry) + 4,
            Registration::Probing { remote, mapped, relayed } => (if remote {
                1int
            } else {
                0
            }) + (if mapped {
                1int
            } else {
                0
            }) + (if relayed {
                1int
            } else {
                0
            }),
        },
        Phase::Finished => 0,
    }
}

/// A search with a limit on its repetitions cannot go on for ever: each event
/// that it waits for brings it closer to its end.
pub proof fn law_every_awaited_event_brings_the_end_closer<D>(s: SearchView, event: Event<D>)
    requires
        s.wf(),
        s.tcp.len() <= usize::MAX,
        s.max_retries > 0,
        awaited(s, event),
    ensures
        0 <= work_left(next(s, event).0) < work_left(s),
{
}

/// Whether a search waits for each of a run of events when it happens.
pub open spec fn all_awaited<D>(s: SearchView, events: Seq<Event<D>>) -> bool
    decreases events.len(),
{
    events.len() == 0 || (all_awaited(s, events.drop_last()) && awaited(
        state_after(s, events.drop_last()),
        events.last(),
    ))
}

/// A search with a limit on its repetitions is over after a bounded number of
/// the events that it waits for.
pub proof fn law_limited_search_ends<D>(s: SearchView, events: Seq<Event<D>>)
    requires
        s.wf(),
        s.tcp.len() <= usize::MAX,
        s.max_retries > 0,
        all_awaited(s, events),
    ensures
        events.len() + work_left(state_after(s, events)) <= work_left(s),
        0 <= work_left(state_after(s, events)),
    decreases events.len(),
{
    if events.len() > 0 {
        let earlier = events.drop_last();
        law_limited_search_ends(s, earlier);
        lemma_state_is_sound(s, earlier);
        law_every_awaited_event_brings_the_end_closer(state_after(s, earlier), events.last());
    }
}

/// Once registered, exactly the allowed ones among the methods that need a
/// registration run.
pub proof fn law_registration_starts_every_allowed_method<D>(s: SearchView, method: Method)
    requires
        s.wf(),
        s.phase is Udp,
        s.registration is InRound,
        method != Method::Local,
    ensures
        next(s, Event::<D>::RoundEnded(Round::Registered)).0.runs(method) == allows(
            s.flags,
            method,
        ),
{
}

/// Whether a command starts a method that needs a registration.
pub open spec fn is_connect(command: CommandView) -> bool {
    command is ConnectRemote || command is ConnectMapped || command is ConnectRelayed
}

/// Whether the event with this index makes the search issue `command`.
pub open spec fn issued_at<D>(
    s: SearchView,
    events: Seq<Event<D>>,
    index: int,
    command: CommandView,
) -> bool {
    next(state_after(s, events.take(index)), events[index]).1 matches ProgressView::Waiting(
        commands,
    ) && commands.contains(command)
}

/// Whether the registration arm of a search has done its part, or never will.
spec fn past_registration(s: SearchView) -> bool {
    s.phase is Finished || (s.phase is Udp && (s.registration is Probing || s.registration is Failed
        || s.registration is Off))
}

/// What is past its registration stays so.
proof fn lemma_past_registration_stays<D>(
    s: SearchView,
    events: Seq<Event<D>>,
    earlier: int,
    later: int,
)
    requires
        0 <= earlier <= later <= events.len(),
        past_registration(state_after(s, events.take(earlier))),
    ensures
        past_registration(state_after(s, events.take(later))),
    decreases later,
{
    if earlier < later {
        lemma_past_registration_stays(s, events, earlier, later - 1);
        assert(events.take(later).drop_last() =~= events.take(later - 1));
    }
}

/// Over a whole search each way to connect through a registration is started
/// at most once: when one of them is started, no later event starts any.
pub proof fn law_connecting_is_started_once<D>(
    s: SearchView,
    events: Seq<Event<D>>,
    earlier: int,
    later: int,
    first: CommandView,
    second: CommandView,
)
    requires
        s.wf(),
        s.tcp.len() <= usize::MAX,
        0 <= earlier < later < events.len(),
        is_connect(first),
        is_connect(second),
        issued_at(s, events, earlier, first),
    ensures
        !issued_at(s, events, later, second),
{
    lemma_state_is_sound(s, events.take(earlier));
    assert(events.take(earlier + 1).drop_last() =~= events.take(earlier));
    assert(past_registration(state_after(s, events.take(earlier + 1))));
    lemma_past_registration_stays(s, events, earlier + 1, later);
}

} // verus!
