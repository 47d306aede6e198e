//! Protocol-level laws, proved over whole runs of the session model: each
//! channel is used at most once, a session ends in exactly one of its two
//! terminal ways, and concurrent sessions cannot interfere.

use vstd::prelude::*;
use crate::model::{event_enabled, event_step, session_wf, SessionEvent, SessionModel};

verus! {

/// The state a session reaches after reacting to `evs` in order.
pub open spec fn run_model(s: SessionModel, evs: Seq<SessionEvent>) -> SessionModel
    decreases evs.len(),
{
    if evs.len() == 0 {
        s
    } else {
        run_model(event_step(s, evs[0]), evs.drop_first())
    }
}

/// Whether every event of `evs` is enabled when its turn comes.
pub open spec fn run_enabled(s: SessionModel, evs: Seq<SessionEvent>) -> bool
    decreases evs.len(),
{
    if evs.len() == 0 {
        true
    } else {
        event_enabled(s, evs[0]) && run_enabled(event_step(s, evs[0]), evs.drop_first())
    }
}

/// How many of `evs` are snapshot outcomes — that is, sends on the result
/// channel.
pub open spec fn snapshot_count(evs: Seq<SessionEvent>) -> nat
    decreases evs.len(),
{
    if evs.len() == 0 {
        0
    } else {
        (if evs[0] is Snapshot {
            1nat
        } else {
            0nat
        }) + snapshot_count(evs.drop_first())
    }
}

/// How many of `evs` are grace decisions — that is, reads of the
/// acknowledgement channel.
pub open spec fn grace_count(evs: Seq<SessionEvent>) -> nat
    decreases evs.len(),
{
    if evs.len() == 0 {
        0
    } else {
        (if evs[0] is Grace {
            1nat
        } else {
            0nat
        }) + grace_count(evs.drop_first())
    }
}

/// Prepending an enabled event to a run steps the start state.
pub proof fn lemma_run_cons(s: SessionModel, e: SessionEvent, evs: Seq<SessionEvent>)
    ensures
        run_model(s, seq![e] + evs) == run_model(event_step(s, e), evs),
        run_enabled(s, seq![e] + evs) == (event_enabled(s, e) && run_enabled(
            event_step(s, e),
            evs,
        )),
{
    let w = seq![e] + evs;
    assert(w[0] == e);
    assert(w.drop_first() =~= evs);
}

/// A complete session admits no further event: in particular no second
/// grace decision, and no recycling of the session.
pub proof fn lemma_complete_is_final(s: SessionModel, e: SessionEvent)
    requires
        s.phase is Complete,
    ensures
        !event_enabled(s, e),
{
}

/// Once the one result has been sent, no second send on the result channel
/// is enabled, ever after.
pub proof fn lemma_no_second_send(s: SessionModel, evs: Seq<SessionEvent>)
    requires
        !(s.phase is Snapshotting),
        run_enabled(s, evs),
    ensures
        snapshot_count(evs) == 0,
    decreases evs.len(),
{
    if evs.len() > 0 {
        lemma_no_second_send(event_step(s, evs[0]), evs.drop_first());
    }
}

/// The result channel of a session carries at most one message, whatever
/// the session goes through.
pub proof fn lemma_at_most_one_send(s: SessionModel, evs: Seq<SessionEvent>)
    requires
        run_enabled(s, evs),
    ensures
        snapshot_count(evs) <= 1,
    decreases evs.len(),
{
    if evs.len() > 0 {
        if evs[0] is Snapshot {
            lemma_no_second_send(event_step(s, evs[0]), evs.drop_first());
        } else {
            lemma_at_most_one_send(event_step(s, evs[0]), evs.drop_first());
        }
    }
}

/// Once the grace window has been decided the session is complete, and no
/// second decision is enabled, ever after.
pub proof fn lemma_no_second_grace(s: SessionModel, evs: Seq<SessionEvent>)
    requires
        s.phase is Complete,
        run_enabled(s, evs),
    ensures
        grace_count(evs) == 0,
    decreases evs.len(),
{
    if evs.len() > 0 {
        assert(!event_enabled(s, evs[0]));
        assert(false);
    }
}

/// The acknowledgement channel of a session is read out at most once,
/// whatever the session goes through.
pub proof fn lemma_at_most_one_grace(s: SessionModel, evs: Seq<SessionEvent>)
    requires
        run_enabled(s, evs),
    ensures
        grace_count(evs) <= 1,
    decreases evs.len(),
{
    if evs.len() > 0 {
        if evs[0] is Grace {
            lemma_no_second_grace(event_step(s, evs[0]), evs.drop_first());
        } else {
            lemma_at_most_one_grace(event_step(s, evs[0]), evs.drop_first());
        }
    }
}

/// A capture timeout is not a hang and not a fatality: the moment the
/// bounded snapshot call is decided overtime — which is never before the
/// capture deadline — the session sends exactly the fixed failure result,
/// and moves on to the grace window like any other send.
pub proof fn lemma_timeout_is_prompt_failure(s: SessionModel, now: u64)
    requires
        event_enabled(s, SessionEvent::Snapshot { traces: None, now }),
    ensures
        now >= s.capture_deadline,
        event_step(s, SessionEvent::Snapshot { traces: None, now }).sent == Some(
            crate::trace::ResultModel::Failure(crate::trace::timeout_message()),
        ),
        event_step(s, SessionEvent::Snapshot { traces: None, now }).result_sent_at == now,
        event_step(s, SessionEvent::Snapshot { traces: None, now }).phase is AwaitingAck,
{
}

/// An acknowledgement observed by the grace decision always means a clean
/// exit: an acknowledged session never terminates the process.
pub proof fn lemma_ack_means_clean_exit(s: SessionModel, now: u64)
    requires
        event_enabled(s, SessionEvent::Grace { acked: true, now }),
    ensures
        event_step(s, SessionEvent::Grace { acked: true, now }).outcome is CleanExit,
{
}

/// Termination is never early: a grace decision without an acknowledgement
/// is possible only at or past the grace deadline, which sits one grace
/// width after the result was sent.
pub proof fn lemma_no_early_termination(s: SessionModel, now: u64)
    requires
        session_wf(s),
        event_enabled(s, SessionEvent::Grace { acked: false, now }),
    ensures
        now >= s.grace_deadline,
        s.grace_deadline == s.result_sent_at + s.grace_window,
        event_step(s, SessionEvent::Grace { acked: false, now }).outcome is Terminated,
{
}

/// A session that runs to completion does so along exactly one of its two
/// paths, never both and never neither: its run is one snapshot outcome
/// followed by one grace decision, it exits cleanly if and only if that
/// decision saw the acknowledgement, and it terminates the process if and
/// only if the decision did not.
pub proof fn lemma_two_disjoint_paths(s: SessionModel, evs: Seq<SessionEvent>)
    requires
        s.phase is Snapshotting,
        run_enabled(s, evs),
        run_model(s, evs).phase is Complete,
    ensures
        evs.len() == 2,
        evs[0] is Snapshot,
        evs[1] is Grace,
        run_model(s, evs).outcome is CleanExit <==> evs[1]->acked,
        run_model(s, evs).outcome is Terminated <==> !evs[1]->acked,
{
    assert(evs.len() >= 1);
    let s1 = event_step(s, evs[0]);
    let rest = evs.drop_first();
    assert(event_enabled(s, evs[0]));
    assert(evs[0] is Snapshot);
    assert(s1.phase is AwaitingAck);
    assert(run_enabled(s1, rest));
    assert(run_model(s1, rest).phase is Complete);
    assert(rest.len() >= 1);
    assert(event_enabled(s1, rest[0]));
    assert(rest[0] is Grace);
    let s2 = event_step(s1, rest[0]);
    let rest2 = rest.drop_first();
    assert(run_enabled(s2, rest2));
    assert(s2.phase is Complete);
    if rest2.len() > 0 {
        assert(event_enabled(s2, rest2[0]));
        assert(false);
    }
    assert(run_model(s2, rest2) == s2);
    assert(evs[1] == rest[0]);
    assert(evs.len() == 2);
}

/// Two concurrent sessions share nothing: an interleaved schedule over a
/// pair of sessions, each fed its own events, leaves each session exactly
/// where its own events alone would — whatever the other's timing. Proved
/// below in [`lemma_concurrent_sessions_independent`].
pub open spec fn run_pair(
    a: SessionModel,
    b: SessionModel,
    sched: Seq<(bool, SessionEvent)>,
) -> (SessionModel, SessionModel)
    decreases sched.len(),
{
    if sched.len() == 0 {
        (a, b)
    } else if sched[0].0 {
        run_pair(event_step(a, sched[0].1), b, sched.drop_first())
    } else {
        run_pair(a, event_step(b, sched[0].1), sched.drop_first())
    }
}

/// Whether every event of an interleaved schedule is enabled for its own
/// session when its turn comes.
pub open spec fn pair_enabled(
    a: SessionModel,
    b: SessionModel,
    sched: Seq<(bool, SessionEvent)>,
) -> bool
    decreases sched.len(),
{
    if sched.len() == 0 {
        true
    } else if sched[0].0 {
        event_enabled(a, sched[0].1) && pair_enabled(event_step(a, sched[0].1), b, sched.drop_first())
    } else {
        event_enabled(b, sched[0].1) && pair_enabled(a, event_step(b, sched[0].1), sched.drop_first())
    }
}

/// The events of an interleaved schedule that belong to one side, in order.
pub open spec fn side_events(sched: Seq<(bool, SessionEvent)>, side: bool) -> Seq<SessionEvent>
    decreases sched.len(),
{
    if sched.len() == 0 {
        Seq::empty()
    } else if sched[0].0 == side {
        seq![sched[0].1] + side_events(sched.drop_first(), side)
    } else {
        side_events(sched.drop_first(), side)
    }
}

/// Concurrent sessions do not interfere: under any interleaved schedule of
/// two sessions, each ends in exactly the state — same sent result, same
/// outcome, same diagnostic text — that running its own events alone
/// produces, regardless of how the other side's events fall between them.
pub proof fn lemma_concurrent_sessions_independent(
    a: SessionModel,
    b: SessionModel,
    sched: Seq<(bool, SessionEvent)>,
)
    requires
        pair_enabled(a, b, sched),
    ensures
        run_pair(a, b, sched).0 == run_model(a, side_events(sched, true)),
        run_pair(a, b, sched).1 == run_model(b, side_events(sched, false)),
        run_enabled(a, side_events(sched, true)),
        run_enabled(b, side_events(sched, false)),
    decreases sched.len(),
{
    if sched.len() > 0 {
        let e = sched[0].1;
        let rest = sched.drop_first();
        if sched[0].0 {
            lemma_concurrent_sessions_independent(event_step(a, e), b, rest);
            lemma_run_cons(a, e, side_events(rest, true));
            assert(side_events(sched, true) == seq![e] + side_events(rest, true));
            assert(side_events(sched, false) == side_events(rest, false));
        } else {
            lemma_concurrent_sessions_independent(a, event_step(b, e), rest);
            lemma_run_cons(b, e, side_events(rest, false));
            assert(side_events(sched, false) == seq![e] + side_events(rest, false));
            assert(side_events(sched, true) == side_events(rest, true));
        }
    }
}

/// Consistency is preserved along whole runs.
pub proof fn lemma_run_preserves_wf(s: SessionModel, evs: Seq<SessionEvent>)
    requires
        session_wf(s),
        run_enabled(s, evs),
    ensures
        session_wf(run_model(s, evs)),
    decreases evs.len(),
{
    if evs.len() > 0 {
        crate::model::lemma_step_preserves_wf(s, evs[0]);
        lemma_run_preserves_wf(event_step(s, evs[0]), evs.drop_first());
    }
}

/// A consistent session is on at most one terminal path: complete with a
/// clean exit, complete with a termination, or not terminal at all — the
/// two outcomes exclude each other, and a complete session always has one.
pub proof fn lemma_outcome_disjoint(s: SessionModel)
    requires
        session_wf(s),
    ensures
        s.phase is Complete ==> ((s.outcome is CleanExit) <==> !(s.outcome is Terminated)),
        !(s.phase is Complete) ==> s.outcome is Pending,
{
}

} // verus!
