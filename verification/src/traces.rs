//! What holds of every installation, whatever the driver reports and in
//! whatever order.

use vstd::prelude::*;
use crate::error::ErrorView;
use crate::install::{next, proceed, ActionView, EventView, InstallView, Phase, StepView};
use crate::status::is_success;

verus! {

/// Where an installation stands after the driver has reported `events`, one
/// after the other. An installation that has ended stays as it ended.
pub open spec fn run(step: StepView, events: Seq<EventView>) -> StepView
    decreases events.len(),
{
    if events.len() == 0 {
        step
    } else {
        match step {
            StepView::Continue(s, _) => run(next(s, events[0]), events.drop_first()),
            StepView::Finished(_) => step,
        }
    }
}

/// How far a phase is from the beginning.
pub open spec fn rank(phase: Phase) -> nat {
    match phase {
        Phase::Probing => 0,
        Phase::Requesting => 1,
        Phase::ReadingArchive => 2,
        Phase::ReadingErrorBody { .. } => 2,
        Phase::Extracting => 3,
        Phase::Finalizing => 4,
        Phase::Verifying => 5,
    }
}

/// Whether an action reaches beyond the entry on disk: to the network, or
/// into the entry to write.
pub open spec fn fetches(action: ActionView) -> bool {
    action is Request || action is ReadArchive || action is ReadErrorBody || action is Extract
}

/// Whether a probe, in `events`, has reported the compiler present.
pub open spec fn saw_binary(events: Seq<EventView>) -> bool {
    exists|i: int| 0 <= i < events.len() && events[i] == (EventView::Probed { present: true })
}

/// Whether a probe, in `events`, has reported the compiler absent.
pub open spec fn missed_binary(events: Seq<EventView>) -> bool {
    exists|i: int| 0 <= i < events.len() && events[i] == (EventView::Probed { present: false })
}

/// Whether a response, in `events`, has come with a success status.
pub open spec fn saw_success_status(events: Seq<EventView>) -> bool {
    exists|i: int|
        0 <= i < events.len() && (#[trigger] events[i] matches EventView::Responded { status }
            && is_success(status))
}

/// A step never goes back and never repeats: it ends the installation, moves
/// it to a later phase, or, where the event answers nothing that was asked,
/// leaves it where it was. What is being installed never changes, and the
/// work asked for is the work of the phase.
pub proof fn step_moves_forward(s: InstallView, e: EventView)
    ensures
        match next(s, e) {
            StepView::Continue(t, action) => {
                &&& t == s.at(t.phase)
                &&& action == t.pending()
                &&& (rank(t.phase) > rank(s.phase) || t.phase == s.phase)
            },
            StepView::Finished(_) => true,
        },
{
}

/// An installation that succeeds returns the compiler's place, which follows
/// from the version, the install root and the platform alone.
pub proof fn success_names_the_binary(s: InstallView, events: Seq<EventView>)
    ensures
        run(proceed(s, s.phase), events) matches StepView::Finished(Ok(path)) ==> path
            == s.binary(),
    decreases events.len(),
{
    if events.len() > 0 {
        match next(s, events[0]) {
            StepView::Continue(t, _) => {
                assert(next(s, events[0]) == proceed(t, t.phase));
                success_names_the_binary(t, events.drop_first());
            },
            StepView::Finished(_) => {
                finished_stays(next(s, events[0]), events.drop_first());
            },
        }
    }
}

/// An installation that has ended stays as it ended.
pub proof fn finished_stays(step: StepView, events: Seq<EventView>)
    requires
        step is Finished,
    ensures
        run(step, events) == step,
    decreases events.len(),
{
}

/// Two installations of one version under one root for one platform that
/// both succeed return the same path, whatever each of them went through.
pub proof fn successes_agree(
    a: InstallView,
    b: InstallView,
    events_a: Seq<EventView>,
    events_b: Seq<EventView>,
)
    requires
        a.version == b.version,
        a.root == b.root,
        a.platform == b.platform,
        run(proceed(a, a.phase), events_a) matches StepView::Finished(Ok(_)),
        run(proceed(b, b.phase), events_b) matches StepView::Finished(Ok(_)),
    ensures
        run(proceed(a, a.phase), events_a) == run(proceed(b, b.phase), events_b),
{
    success_names_the_binary(a, events_a);
    success_names_the_binary(b, events_b);
}

/// A cache hit stays local. As long as no probe reports the compiler absent,
/// a new installation asks for nothing from the network and unpacks nothing:
/// it is waiting for the first probe or for the compiler to start, or it has
/// ended, with the compiler's path or because the compiler did not start.
pub proof fn hit_fetches_nothing(s: InstallView, events: Seq<EventView>)
    requires
        s.phase == Phase::Probing || s.phase == Phase::Verifying,
        !missed_binary(events),
    ensures
        match run(proceed(s, s.phase), events) {
            StepView::Continue(t, action) => {
                &&& t.phase == Phase::Probing || t.phase == Phase::Verifying
                &&& !fetches(action)
            },
            StepView::Finished(Ok(path)) => path == s.binary(),
            StepView::Finished(Err(e)) => e is ExecutionFailed,
        },
    decreases events.len(),
{
    if events.len() > 0 {
        let rest = events.drop_first();
        assert(events[0] != (EventView::Probed { present: false }));
        assert(!missed_binary(rest)) by {
            if missed_binary(rest) {
                let i = choose|i: int|
                    0 <= i < rest.len() && rest[i] == (EventView::Probed { present: false });
                assert(events[i + 1] == rest[i]);
            }
        }
        match next(s, events[0]) {
            StepView::Continue(t, _) => {
                assert(next(s, events[0]) == proceed(t, t.phase));
                hit_fetches_nothing(t, rest);
            },
            StepView::Finished(_) => {
                finished_stays(next(s, events[0]), rest);
            },
        }
    }
}

/// No success without the compiler in place. An installation that succeeds
/// has been told by a probe that the compiler is there: an archive that
/// unpacks without it is never taken for an installation.
pub proof fn success_saw_binary(s: InstallView, events: Seq<EventView>)
    requires
        s.phase != Phase::Verifying,
        run(proceed(s, s.phase), events) matches StepView::Finished(Ok(_)),
    ensures
        saw_binary(events),
    decreases events.len(),
{
    if events.len() > 0 {
        let rest = events.drop_first();
        match next(s, events[0]) {
            StepView::Continue(t, _) => {
                assert(next(s, events[0]) == proceed(t, t.phase));
                if t.phase == Phase::Verifying {
                    assert(events[0] == (EventView::Probed { present: true }));
                } else {
                    success_saw_binary(t, rest);
                    let i = choose|i: int|
                        0 <= i < rest.len() && rest[i] == (EventView::Probed { present: true });
                    assert(events[i + 1] == rest[i]);
                }
            },
            StepView::Finished(_) => {
                finished_stays(next(s, events[0]), rest);
            },
        }
    }
}

/// Installing again is a cache hit. Where one installation has succeeded and
/// the compiler is still found in place, another installation of the same
/// release under the same root asks for nothing from the network, unpacks
/// nothing, and, where it succeeds, returns the path that the first one
/// returned.
pub proof fn repeated_install_is_a_hit(
    s: InstallView,
    first: Seq<EventView>,
    second: Seq<EventView>,
)
    requires
        s.phase == Phase::Probing,
        run(proceed(s, s.phase), first) matches StepView::Finished(Ok(_)),
        !missed_binary(second),
    ensures
        saw_binary(first),
        match run(proceed(s, s.phase), second) {
            StepView::Continue(_, action) => !fetches(action),
            StepView::Finished(Ok(path)) => run(proceed(s, s.phase), first) == StepView::Finished(
                Ok(path),
            ),
            StepView::Finished(Err(e)) => e is ExecutionFailed,
        },
{
    success_saw_binary(s, first);
    success_names_the_binary(s, first);
    hit_fetches_nothing(s, second);
}

/// After unpacking, a probe that finds no compiler ends the installation
/// with `MissingBinaryInArchive`, and names the place that was looked at.
pub proof fn missing_binary_is_reported(s: InstallView, events: Seq<EventView>)
    requires
        s.phase == Phase::Finalizing,
        events.len() > 0,
        events[0] == (EventView::Probed { present: false }),
    ensures
        run(proceed(s, s.phase), events) == StepView::Finished(
            Err(ErrorView::MissingBinaryInArchive { expected: s.binary() }),
        ),
{
    finished_stays(next(s, events[0]), events.drop_first());
}

/// Two phases have no way on but the end: the one that reads what came with
/// a failed download, and the one that waits for the compiler to start.
proof fn last_phases_stay(s: InstallView, events: Seq<EventView>)
    requires
        s.phase is ReadingErrorBody || s.phase == Phase::Verifying,
    ensures
        run(proceed(s, s.phase), events) matches StepView::Continue(t, _) ==> t.phase == s.phase,
    decreases events.len(),
{
    if events.len() > 0 {
        match next(s, events[0]) {
            StepView::Continue(t, _) => {
                assert(next(s, events[0]) == proceed(t, t.phase));
                last_phases_stay(t, events.drop_first());
            },
            StepView::Finished(_) => {
                finished_stays(next(s, events[0]), events.drop_first());
            },
        }
    }
}

/// Nothing is unpacked that came with a failure. An installation that has
/// got as far as reading, unpacking or checking an archive has been told of
/// a response with a success status.
pub proof fn unpacking_follows_success_status(s: InstallView, events: Seq<EventView>)
    requires
        s.phase == Phase::Probing || s.phase == Phase::Requesting,
        run(proceed(s, s.phase), events) matches StepView::Continue(t, _) && (t.phase
            == Phase::ReadingArchive || t.phase == Phase::Extracting || t.phase
            == Phase::Finalizing),
    ensures
        saw_success_status(events),
    decreases events.len(),
{
    if events.len() > 0 {
        let rest = events.drop_first();
        match next(s, events[0]) {
            StepView::Continue(t, _) => {
                assert(next(s, events[0]) == proceed(t, t.phase));
                if t.phase == Phase::Probing || t.phase == Phase::Requesting {
                    unpacking_follows_success_status(t, rest);
                    let i = choose|i: int|
                        0 <= i < rest.len() && (#[trigger] rest[i] matches EventView::Responded {
                            status,
                        } && is_success(status));
                    assert(events[i + 1] == rest[i]);
                } else if t.phase == Phase::ReadingArchive {
                    assert(events[0] matches EventView::Responded { status } && is_success(status));
                } else {
                    last_phases_stay(t, rest);
                }
            },
            StepView::Finished(_) => {
                finished_stays(next(s, events[0]), rest);
            },
        }
    }
}

} // verus!
