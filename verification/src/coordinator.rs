use vstd::prelude::*;

use crate::listener::ExitListener;

verus! {

/// Why the coordinator decided to terminate.
#[derive(Clone, Copy, Debug, PartialEq, Eq, Structural)]
pub enum TerminateReason {
    /// Every registered listener acknowledged.
    Clean,
    /// The configured timeout elapsed with listeners still outstanding.
    Forced,
}

/// The coordinator's verdict for one tick.
#[derive(Clone, Copy, Debug, PartialEq, Eq, Structural)]
pub enum Decision {
    /// Keep running: either no shutdown was requested yet, or listeners are
    /// still draining within their deadline.
    Continue,
    /// Stop the host's main loop, for the given reason.
    Terminate(TerminateReason),
}

/// What one call of `tick` produced: the decision, and the labels of the
/// listeners reported on a forced termination (`None` marks an anonymous
/// listener). The diagnostics are empty on every other tick.
pub struct TickOutcome {
    pub decision: Decision,
    pub diagnostics: Vec<Option<&'static str>>,
}

/// The labels of the listeners in `s` that are still unacknowledged, in
/// registration order.
pub open spec fn pending_labels(s: Seq<ExitListener>) -> Seq<Option<&'static str>>
    decreases s.len(),
{
    if s.len() == 0 {
        Seq::empty()
    } else if !s.last().acked() {
        pending_labels(s.drop_last()).push(s.last().label_spec())
    } else {
        pending_labels(s.drop_last())
    }
}

/// Drives a graceful shutdown: owns the registered listeners, latches the
/// first shutdown request, and decides on each tick whether the host should
/// terminate.
pub struct Coordinator {
    timeout: Option<u64>,
    requested_at: Option<u64>,
    decided: Option<TerminateReason>,
    listeners: Vec<ExitListener>,
}

impl Coordinator {
    /// The configured timeout; `None` means "wait forever for acknowledgment".
    pub closed spec fn timeout_spec(self) -> Option<u64> {
        self.timeout
    }

    /// The instant of the first shutdown request; `None` before any request.
    pub closed spec fn requested_at_spec(self) -> Option<u64> {
        self.requested_at
    }

    /// The terminate decision already taken, if any.
    pub closed spec fn decided_spec(self) -> Option<TerminateReason> {
        self.decided
    }

    /// The registered listeners, in registration order.
    pub closed spec fn listeners_spec(self) -> Seq<ExitListener> {
        self.listeners@
    }

    /// Every registered listener has acknowledged (vacuously true with none).
    pub open spec fn all_acknowledged(self) -> bool {
        forall|i: int|
            0 <= i < self.listeners_spec().len() ==> self.listeners_spec()[i].acked()
    }

    /// A timeout is configured, a shutdown was requested, and `now` lies
    /// strictly beyond the deadline.
    pub open spec fn timeout_elapsed(self, now: u64) -> bool {
        &&& self.requested_at_spec() is Some
        &&& self.timeout_spec() is Some
        &&& now - self.requested_at_spec()->0 > self.timeout_spec()->0
    }

    /// The decision a tick at `now` yields from this state: a decision once
    /// taken is repeated; otherwise termination is clean when everyone
    /// acknowledged, forced when the deadline has passed, and withheld until
    /// one of the two happens.
    pub open spec fn decision_of(self, now: u64) -> Decision {
        if self.decided_spec() is Some {
            Decision::Terminate(self.decided_spec()->0)
        } else if self.requested_at_spec() is None {
            Decision::Continue
        } else if self.all_acknowledged() {
            Decision::Terminate(TerminateReason::Clean)
        } else if self.timeout_elapsed(now) {
            Decision::Terminate(TerminateReason::Forced)
        } else {
            Decision::Continue
        }
    }

    /// The diagnostics a tick at `now` emits from this state: the labels of
    /// the still-unacknowledged listeners when this very tick decides a
    /// forced termination, and nothing on any other tick.
    pub open spec fn diagnostics_of(self, now: u64) -> Seq<Option<&'static str>> {
        if self.decided_spec() is None && self.decision_of(now) == Decision::Terminate(
            TerminateReason::Forced,
        ) {
            pending_labels(self.listeners_spec())
        } else {
            Seq::empty()
        }
    }

    /// A coordinator with the given optional timeout: no listeners, no
    /// shutdown requested, no decision taken.
    pub fn new(timeout: Option<u64>) -> (r: Coordinator)
        ensures
            r.timeout_spec() == timeout,
            r.requested_at_spec() is None,
            r.decided_spec() is None,
            r.listeners_spec() == Seq::<ExitListener>::empty(),
    {
        Coordinator { timeout, requested_at: None, decided: None, listeners: Vec::new() }
    }

    /// Adds a handle to the tracked set, before or after a shutdown request,
    /// and returns its identity for later acknowledgment.
    pub fn register(&mut self, handle: ExitListener) -> (id: usize)
        ensures
            registers(*old(self), handle, *final(self)),
            id == old(self).listeners_spec().len(),
    {
        let id = self.listeners.len();
        self.listeners.push(handle);
        id
    }

    /// Records `now` as the shutdown instant if none is recorded yet; every
    /// later call is a no-op, so only one shutdown sequence is ever in flight.
    pub fn request_shutdown(&mut self, now: u64)
        ensures
            requests(*old(self), now, *final(self)),
    {
        if self.requested_at.is_none() {
            self.requested_at = Some(now);
        }
    }

    /// Acknowledges the listener registered under `id`; acknowledging twice,
    /// or under an identity that `register` never returned, is a no-op.
    pub fn acknowledge(&mut self, id: usize)
        ensures
            acknowledges(*old(self), id, *final(self)),
    {
        if id < self.listeners.len() {
            let l = &mut self.listeners[id];
            l.acknowledge();
        }
    }

    /// One scheduling cycle: evaluates the state at `now`, latches a fresh
    /// terminate decision, and reports the outstanding listeners exactly once,
    /// on the tick that decides a forced termination.
    pub fn tick(&mut self, now: u64) -> (r: TickOutcome)
        ensures
            ticks(*old(self), now, *final(self)),
            r.decision == old(self).decision_of(now),
            r.diagnostics@ == old(self).diagnostics_of(now),
    {
        if let Some(reason) = self.decided {
            return TickOutcome { decision: Decision::Terminate(reason), diagnostics: Vec::new() };
        }
        let at = match self.requested_at {
            None => {
                return TickOutcome { decision: Decision::Continue, diagnostics: Vec::new() };
            },
            Some(at) => at,
        };
        if self.all_acknowledged_exec() {
            self.decided = Some(TerminateReason::Clean);
            return TickOutcome {
                decision: Decision::Terminate(TerminateReason::Clean),
                diagnostics: Vec::new(),
            };
        }
        let forced = match self.timeout {
            Some(t) => now > at && now - at > t,
            None => false,
        };
        if forced {
            let diagnostics = self.pending_labels_exec();
            self.decided = Some(TerminateReason::Forced);
            return TickOutcome { decision: Decision::Terminate(TerminateReason::Forced), diagnostics };
        }
        TickOutcome { decision: Decision::Continue, diagnostics: Vec::new() }
    }

    /// The configured timeout.
    pub fn timeout(&self) -> (r: Option<u64>)
        ensures
            r == self.timeout_spec(),
    {
        self.timeout
    }

    /// The latched shutdown instant, if any.
    pub fn shutdown_requested_at(&self) -> (r: Option<u64>)
        ensures
            r == self.requested_at_spec(),
    {
        self.requested_at
    }

    /// Whether a terminate decision has been taken.
    pub fn is_terminated(&self) -> (r: bool)
        ensures
            r == (self.decided_spec() is Some),
    {
        self.decided.is_some()
    }

    /// How many listeners are registered.
    pub fn listener_count(&self) -> (r: usize)
        ensures
            r == self.listeners_spec().len(),
    {
        self.listeners.len()
    }

    /// Linear scan deciding `all_acknowledged`.
    fn all_acknowledged_exec(&self) -> (r: bool)
        ensures
            r == self.all_acknowledged(),
    {
        let mut i: usize = 0;
        while i < self.listeners.len()
            invariant
                i <= self.listeners.len(),
                forall|j: int| 0 <= j < i ==> self.listeners_spec()[j].acked(),
            decreases self.listeners.len() - i,
        {
            if !self.listeners[i].is_acknowledged() {
                assert(!self.listeners_spec()[i as int].acked());
                return false;
            }
            i += 1;
        }
        true
    }

    /// Collects the labels of the still-unacknowledged listeners.
    fn pending_labels_exec(&self) -> (r: Vec<Option<&'static str>>)
        ensures
            r@ == pending_labels(self.listeners_spec()),
    {
        let mut out: Vec<Option<&'static str>> = Vec::new();
        let mut i: usize = 0;
        while i < self.listeners.len()
            invariant
                i <= self.listeners.len(),
                out@ == pending_labels(self.listeners_spec().take(i as int)),
            decreases self.listeners.len() - i,
        {
            if !self.listeners[i].is_acknowledged() {
                out.push(self.listeners[i].label());
            }
            i += 1;
            proof {
                let s = self.listeners_spec();
                assert(s.take(i as int).drop_last() =~= s.take(i as int - 1));
                assert(s.take(i as int).last() == s[i as int - 1]);
            }
        }
        proof {
            assert(self.listeners_spec().take(self.listeners@.len() as int) =~= self
                .listeners_spec());
        }
        out
    }
}

/// How `register` changes the state: the handle is appended to the registry,
/// and nothing else moves.
pub open spec fn registers(pre: Coordinator, handle: ExitListener, post: Coordinator) -> bool {
    &&& post.listeners_spec() == pre.listeners_spec().push(handle)
    &&& post.requested_at_spec() == pre.requested_at_spec()
    &&& post.timeout_spec() == pre.timeout_spec()
    &&& post.decided_spec() == pre.decided_spec()
}

/// How `request_shutdown` changes the state: the first call latches its
/// instant, every later call changes nothing.
pub open spec fn requests(pre: Coordinator, now: u64, post: Coordinator) -> bool {
    &&& post.requested_at_spec() == (if pre.requested_at_spec() is Some {
        pre.requested_at_spec()
    } else {
        Some(now)
    })
    &&& post.listeners_spec() == pre.listeners_spec()
    &&& post.timeout_spec() == pre.timeout_spec()
    &&& post.decided_spec() == pre.decided_spec()
}

/// How `acknowledge` changes the state: listener `id`, if it exists, has its
/// flag set and keeps its label; every other listener and every other part of
/// the state is unchanged.
pub open spec fn acknowledges(pre: Coordinator, id: usize, post: Coordinator) -> bool {
    &&& post.listeners_spec().len() == pre.listeners_spec().len()
    &&& forall|j: int|
        0 <= j < pre.listeners_spec().len() && j != id ==> post.listeners_spec()[j]
            == pre.listeners_spec()[j]
    &&& id < pre.listeners_spec().len() ==> {
        &&& post.listeners_spec()[id as int].acked()
        &&& post.listeners_spec()[id as int].label_spec() == pre.listeners_spec()[
            id as int
        ].label_spec()
    }
    &&& post.requested_at_spec() == pre.requested_at_spec()
    &&& post.timeout_spec() == pre.timeout_spec()
    &&& post.decided_spec() == pre.decided_spec()
}

/// How `tick` changes the state: the registry, the latched instant and the
/// timeout are untouched; a `Terminate` decision is latched, and an already
/// latched decision stays.
pub open spec fn ticks(pre: Coordinator, now: u64, post: Coordinator) -> bool {
    &&& post.listeners_spec() == pre.listeners_spec()
    &&& post.requested_at_spec() == pre.requested_at_spec()
    &&& post.timeout_spec() == pre.timeout_spec()
    &&& post.decided_spec() == (match pre.decision_of(now) {
        Decision::Terminate(reason) => Some(reason),
        Decision::Continue => pre.decided_spec(),
    })
}

} // verus!
