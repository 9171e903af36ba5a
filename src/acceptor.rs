use vstd::prelude::*;

verus! {

/// Consecutive accept failures after which the listening socket is rebuilt.
pub const REBIND_THRESHOLD: u32 = 50;

/// Pause after a failed accept, in milliseconds.
pub const ACCEPT_BACKOFF_MS: u64 = 5;

/// Pause between two failed attempts to bind a fresh socket, in milliseconds.
pub const REBIND_BACKOFF_MS: u64 = 50;

/// Loopback port of the listener, apart from the standard daemon port.
pub const LISTEN_PORT: u16 = 27015;

/// Largest number of bytes taken from a connection in one read.
pub const MAX_READ_LEN: usize = 4095;

/// What the listener reports back to the accept loop.
#[derive(Debug, Clone, Copy, PartialEq, Eq, Structural)]
pub enum AcceptEvent {
    /// A connection was accepted.
    Accepted,
    /// The accept call failed.
    AcceptFailed,
    /// A fresh listening socket was bound.
    Rebound,
    /// Binding a fresh listening socket failed.
    RebindFailed,
}

/// What the accept loop does next.
#[derive(Debug, Clone, Copy, PartialEq, Eq, Structural)]
pub enum AcceptAction {
    /// Serve the accepted connection, then accept again.
    Serve,
    /// Sleep `ACCEPT_BACKOFF_MS`, then accept again on the same socket.
    RetryAccept,
    /// Drop the listening socket and bind a fresh one.
    Rebind,
    /// Sleep `REBIND_BACKOFF_MS`, then try to bind again.
    RetryBind,
    /// Accept on the socket that is bound.
    Accept,
}

/// The accept loop's state: whether it is rebuilding its socket, and how many
/// accepts have failed in a row.
#[derive(Debug, Clone, Copy, PartialEq, Eq, Structural)]
pub struct Acceptor {
    pub rebinding: bool,
    pub failures: u32,
}

impl Acceptor {
    /// The failure counter stays under the threshold, and is zero while rebinding.
    pub open spec fn wf(self) -> bool {
        self.failures < REBIND_THRESHOLD && (self.rebinding ==> self.failures == 0)
    }

    /// The transition of the accept loop on one event.
    pub open spec fn step_spec(self, ev: AcceptEvent) -> (Acceptor, AcceptAction) {
        if self.rebinding {
            match ev {
                AcceptEvent::Rebound => (Acceptor { rebinding: false, failures: 0 }, AcceptAction::Accept),
                _ => (self, AcceptAction::RetryBind),
            }
        } else {
            match ev {
                AcceptEvent::AcceptFailed => if self.failures + 1 < REBIND_THRESHOLD {
                    (
                        Acceptor { rebinding: false, failures: (self.failures + 1) as u32 },
                        AcceptAction::RetryAccept,
                    )
                } else {
                    (Acceptor { rebinding: true, failures: 0 }, AcceptAction::Rebind)
                },
                AcceptEvent::Accepted => (Acceptor { rebinding: false, failures: 0 }, AcceptAction::Serve),
                _ => (self, AcceptAction::Accept),
            }
        }
    }

    /// The state after a run of events, and whether a rebind was asked on the way.
    pub open spec fn run(self, evs: Seq<AcceptEvent>) -> (Acceptor, bool)
        decreases evs.len(),
    {
        if evs.len() == 0 {
            (self, false)
        } else {
            let (s, a) = self.step_spec(evs[0]);
            let (t, rebound) = s.run(evs.drop_first());
            (t, rebound || a == AcceptAction::Rebind)
        }
    }

    /// A freshly bound listener.
    pub fn new() -> (r: Acceptor)
        ensures
            r.wf(),
            !r.rebinding,
            r.failures == 0,
    {
        Acceptor { rebinding: false, failures: 0 }
    }

    /// Advances the accept loop on `ev` and says what to do next: a successful
    /// accept clears the counter and serves; a failure counts and retries, and the
    /// one that reaches `REBIND_THRESHOLD` asks for a rebind; while rebinding, only
    /// a successful bind goes back to accepting, with the counter cleared.
    pub fn step(&mut self, ev: AcceptEvent) -> (r: AcceptAction)
        requires
            old(self).wf(),
        ensures
            final(self).wf(),
            (*final(self), r) == old(self).step_spec(ev),
    {
        if self.rebinding {
            match ev {
                AcceptEvent::Rebound => {
                    self.rebinding = false;
                    self.failures = 0;
                    AcceptAction::Accept
                },
                _ => AcceptAction::RetryBind,
            }
        } else {
            match ev {
                AcceptEvent::AcceptFailed => {
                    if self.failures + 1 < REBIND_THRESHOLD {
                        self.failures = self.failures + 1;
                        AcceptAction::RetryAccept
                    } else {
                        self.rebinding = true;
                        self.failures = 0;
                        AcceptAction::Rebind
                    }
                },
                AcceptEvent::Accepted => {
                    self.failures = 0;
                    AcceptAction::Serve
                },
                _ => AcceptAction::Accept,
            }
        }
    }
}

/// A run of `n` accept failures.
pub open spec fn failures(n: nat) -> Seq<AcceptEvent> {
    Seq::new(n, |i: int| AcceptEvent::AcceptFailed)
}

proof fn lemma_failures_below(s: Acceptor, n: nat)
    requires
        !s.rebinding,
        s.failures + n < REBIND_THRESHOLD,
    ensures
        s.run(failures(n)) == (Acceptor { rebinding: false, failures: (s.failures + n) as u32 }, false),
    decreases n,
{
    if n > 0 {
        let (t, a) = s.step_spec(AcceptEvent::AcceptFailed);
        assert(failures(n).drop_first() =~= failures((n - 1) as nat));
        lemma_failures_below(t, (n - 1) as nat);
    }
}

/// Fewer than `REBIND_THRESHOLD` accept failures in a row never rebuild the
/// socket, and the next successful accept is served on it with the counter cleared.
pub proof fn lemma_failures_below_threshold(n: nat)
    requires
        n < REBIND_THRESHOLD,
    ensures
        ({
            let (s, rebound) = Acceptor { rebinding: false, failures: 0 }.run(failures(n));
            &&& !rebound
            &&& !s.rebinding
            &&& s.step_spec(AcceptEvent::Accepted) == (
                Acceptor { rebinding: false, failures: 0 },
                AcceptAction::Serve,
            )
        }),
{
    lemma_failures_below(Acceptor { rebinding: false, failures: 0 }, n);
}

/// `REBIND_THRESHOLD` accept failures in a row rebuild the socket; once a fresh
/// socket is bound, the next successful accept is served.
pub proof fn lemma_failures_reach_threshold()
    ensures
        ({
            let (s, rebound) = Acceptor { rebinding: false, failures: 0 }.run(
                failures(REBIND_THRESHOLD as nat),
            );
            &&& rebound
            &&& s == Acceptor { rebinding: true, failures: 0 }
            &&& s.step_spec(AcceptEvent::Rebound) == (
                Acceptor { rebinding: false, failures: 0 },
                AcceptAction::Accept,
            )
            &&& s.step_spec(AcceptEvent::Rebound).0.step_spec(AcceptEvent::Accepted).1
                == AcceptAction::Serve
        }),
{
    let fresh = Acceptor { rebinding: false, failures: 0 };
    let n = (REBIND_THRESHOLD - 1) as nat;
    lemma_failures_below(fresh, n);
    let evs = failures(REBIND_THRESHOLD as nat);
    assert(evs =~= failures(n) + seq![AcceptEvent::AcceptFailed]);
    lemma_run_append(fresh, failures(n), AcceptEvent::AcceptFailed);
}

proof fn lemma_run_append(s: Acceptor, evs: Seq<AcceptEvent>, last: AcceptEvent)
    ensures
        ({
            let (t, r1) = s.run(evs);
            let (u, a) = t.step_spec(last);
            s.run(evs + seq![last]) == (u, r1 || a == AcceptAction::Rebind)
        }),
    decreases evs.len(),
{
    if evs.len() == 0 {
        assert(evs + seq![last] =~= seq![last]);
        assert(seq![last].drop_first() =~= Seq::<AcceptEvent>::empty());
        assert(seq![last][0] == last);
        assert(s.run(evs) == (s, false));
        let (u, a) = s.step_spec(last);
        assert(u.run(Seq::<AcceptEvent>::empty()) == (u, false));
    } else {
        let (s1, a1) = s.step_spec(evs[0]);
        assert((evs + seq![last])[0] == evs[0]);
        assert((evs + seq![last]).drop_first() =~= evs.drop_first() + seq![last]);
        lemma_run_append(s1, evs.drop_first(), last);
        let (t1, r1) = s1.run(evs.drop_first());
        assert(s.run(evs) == (t1, r1 || a1 == AcceptAction::Rebind));
        let (t2, r2) = s1.run(evs.drop_first() + seq![last]);
        assert(s.run(evs + seq![last]) == (t2, r2 || a1 == AcceptAction::Rebind));
    }
}

} // verus!
