use vstd::prelude::*;

use crate::coordinator::{
    acknowledges, pending_labels, registers, requests, ticks, Coordinator, Decision,
    TerminateReason,
};
use crate::listener::ExitListener;

verus! {

/// A handle registered at any point — before or after the shutdown request —
/// is counted by the all-acknowledged computation: registering a handle that
/// has not acknowledged leaves the coordinator not all-acknowledged, and
/// registration moves neither the latched request instant nor the decision.
pub proof fn lemma_registered_handle_is_counted(
    pre: Coordinator,
    handle: ExitListener,
    post: Coordinator,
)
    requires
        registers(pre, handle, post),
        !handle.acked(),
    ensures
        !post.all_acknowledged(),
        post.requested_at_spec() == pre.requested_at_spec(),
        post.decided_spec() == pre.decided_spec(),
{
    assert(post.listeners_spec()[post.listeners_spec().len() - 1] == handle);
}

/// Any run of `request_shutdown` calls records the shutdown instant only
/// once: starting with no request latched, after the whole run the latched
/// instant is that of the first call.
pub proof fn lemma_request_run_latches_first(ss: Seq<Coordinator>, ts: Seq<u64>)
    requires
        ss.len() == ts.len() + 1,
        ts.len() >= 1,
        ss[0].requested_at_spec() is None,
        forall|i: int| 0 <= i < ts.len() ==> requests(ss[i], ts[i], ss[i + 1]),
    ensures
        ss.last().requested_at_spec() == Some(ts[0]),
    decreases ts.len(),
{
    if ts.len() == 1 {
        assert(requests(ss[0], ts[0], ss[1]));
    } else {
        let ss2 = ss.drop_last();
        let ts2 = ts.drop_last();
        assert forall|i: int| 0 <= i < ts2.len() implies requests(ss2[i], ts2[i], ss2[i + 1]) by {
            assert(requests(ss[i], ts[i], ss[i + 1]));
        }
        lemma_request_run_latches_first(ss2, ts2);
        assert(requests(ss[ss.len() - 2], ts[ts.len() - 1], ss[ss.len() - 1]));
    }
}

/// A shutdown request while one is already pending is a no-op: nothing in the
/// state moves.
pub proof fn lemma_request_shutdown_idempotent(pre: Coordinator, now: u64, post: Coordinator)
    requires
        pre.requested_at_spec() is Some,
        requests(pre, now, post),
    ensures
        post.requested_at_spec() == pre.requested_at_spec(),
        post.listeners_spec() == pre.listeners_spec(),
        post.timeout_spec() == pre.timeout_spec(),
        post.decided_spec() == pre.decided_spec(),
{
}

/// When shutdown was requested, no decision is taken yet and every listener
/// has acknowledged, the tick — at any instant, deadline passed or not —
/// decides a clean termination and emits no diagnostics.
pub proof fn lemma_clean_termination(s: Coordinator, now: u64)
    requires
        s.decided_spec() is None,
        s.requested_at_spec() is Some,
        s.all_acknowledged(),
    ensures
        s.decision_of(now) == Decision::Terminate(TerminateReason::Clean),
        s.diagnostics_of(now) == Seq::<Option<&'static str>>::empty(),
{
}

/// With a timeout configured, at least one listener still unacknowledged and
/// `now` strictly beyond the deadline, the tick decides a forced termination,
/// and its diagnostics are exactly the labels of the still-unacknowledged
/// listeners, in registration order — at least one of them.
pub proof fn lemma_forced_termination(s: Coordinator, now: u64)
    requires
        s.decided_spec() is None,
        s.requested_at_spec() is Some,
        s.timeout_spec() is Some,
        now - s.requested_at_spec()->0 > s.timeout_spec()->0,
        !s.all_acknowledged(),
    ensures
        s.decision_of(now) == Decision::Terminate(TerminateReason::Forced),
        s.diagnostics_of(now) == pending_labels(s.listeners_spec()),
        s.diagnostics_of(now).len() >= 1,
{
    lemma_pending_labels_empty_iff_all_acked(s.listeners_spec());
}

/// With no timeout configured, a tick never decides termination while any
/// listener is unacknowledged, however much time has passed.
pub proof fn lemma_no_timeout_waits(s: Coordinator, now: u64)
    requires
        s.decided_spec() is None,
        s.timeout_spec() is None,
        !s.all_acknowledged(),
    ensures
        s.decision_of(now) == Decision::Continue,
{
}

/// A tick that decides `Terminate` latches the decision: the next tick, at
/// any instant, yields the same decision again and repeats no diagnostics.
pub proof fn lemma_terminate_emits_once(
    pre: Coordinator,
    now1: u64,
    mid: Coordinator,
    now2: u64,
    reason: TerminateReason,
)
    requires
        ticks(pre, now1, mid),
        pre.decision_of(now1) == Decision::Terminate(reason),
    ensures
        mid.decided_spec() == Some(reason),
        mid.decision_of(now2) == Decision::Terminate(reason),
        mid.diagnostics_of(now2) == Seq::<Option<&'static str>>::empty(),
{
}

/// A still-unacknowledged listener is reported: its label occurs among the
/// pending labels.
pub proof fn lemma_pending_labels_cover(s: Seq<ExitListener>, i: int)
    requires
        0 <= i < s.len(),
        !s[i].acked(),
    ensures
        pending_labels(s).contains(s[i].label_spec()),
    decreases s.len(),
{
    if i == s.len() - 1 {
        assert(pending_labels(s).last() == s[i].label_spec());
    } else {
        lemma_pending_labels_cover(s.drop_last(), i);
        let j = choose|j: int|
            0 <= j < pending_labels(s.drop_last()).len() && pending_labels(s.drop_last())[j] == s[
                i
            ].label_spec();
        assert(pending_labels(s)[j] == s[i].label_spec());
    }
}

/// The pending labels are empty exactly when every listener acknowledged, so
/// diagnostics only ever name listeners that were still outstanding.
pub proof fn lemma_pending_labels_empty_iff_all_acked(s: Seq<ExitListener>)
    ensures
        (pending_labels(s).len() == 0) <==> (forall|i: int| 0 <= i < s.len() ==> s[i].acked()),
    decreases s.len(),
{
    if s.len() > 0 {
        lemma_pending_labels_empty_iff_all_acked(s.drop_last());
        if pending_labels(s).len() == 0 {
            assert forall|i: int| 0 <= i < s.len() implies s[i].acked() by {
                if i < s.len() - 1 {
                    assert(s.drop_last()[i].acked());
                }
            }
        } else {
            if !(forall|i: int| 0 <= i < s.drop_last().len() ==> s.drop_last()[i].acked()) {
                let w = choose|i: int| 0 <= i < s.drop_last().len() && !s.drop_last()[i].acked();
                assert(!s[w].acked());
            }
        }
    }
}

} // verus!
