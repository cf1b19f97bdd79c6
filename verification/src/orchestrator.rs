//! Strict, sequential, priority-ordered failover across the configured
//! transports: the tunnel first when one is configured, then the obfuscated
//! transport when enabled, always the fronted-TLS transport, and finally the
//! peer overlay when enabled.  The orchestrator commits to the first success
//! and never tries a later candidate after an earlier one has succeeded.

use vstd::prelude::*;
use crate::config::ConnectionConfig;

verus! {

/// The four transport candidates, in no particular order; the priority order
/// is given by `plan_spec`.
#[derive(Clone, Copy, PartialEq, Eq, Structural, Debug)]
pub enum TransportKind {
    Tunnel,
    Obfuscated,
    Fronted,
    Overlay,
}

/// Why a single transport attempt failed: the candidate's configuration was
/// rejected before any side effect, or its runtime could not be initialized.
/// Recoverable: the orchestrator catches it and proceeds to the next
/// candidate, never surfacing it to the top-level caller.
#[derive(Clone, Copy, PartialEq, Eq, Structural, Debug)]
pub enum TransportError {
    InvalidConfig,
    InitFailed,
}

/// The single failure the orchestrator surfaces to its caller.
#[derive(Clone, Copy, PartialEq, Eq, Structural, Debug)]
pub enum EstablishError {
    AllTransportsExhausted,
}

/// The candidates a configuration enables, in the fixed priority order in
/// which they are tried.  The fronted transport needs no opt-in and is always
/// present, so a plan is never empty.
pub open spec fn plan_spec(c: ConnectionConfig) -> Seq<TransportKind> {
    (if c.wireguard_config is Some {
        seq![TransportKind::Tunnel]
    } else {
        Seq::empty()
    }) + (if c.use_obfs {
        seq![TransportKind::Obfuscated]
    } else {
        Seq::empty()
    }) + seq![TransportKind::Fronted] + (if c.fallback_p2p {
        seq![TransportKind::Overlay]
    } else {
        Seq::empty()
    })
}

/// Builds the priority-ordered candidate list of a configuration.
pub fn build_plan(c: &ConnectionConfig) -> (r: Vec<TransportKind>)
    ensures
        r@ == plan_spec(*c),
        r@.len() >= 1,
{
    let mut r: Vec<TransportKind> = Vec::new();
    if c.wireguard_config.is_some() {
        r.push(TransportKind::Tunnel);
    }
    if c.use_obfs {
        r.push(TransportKind::Obfuscated);
    }
    r.push(TransportKind::Fronted);
    if c.fallback_p2p {
        r.push(TransportKind::Overlay);
    }
    proof {
        assert(r@ =~= plan_spec(*c));
    }
    r
}

/// No candidate in a plan is listed twice: each kind occurs at most once.
pub proof fn lemma_plan_distinct(c: ConnectionConfig)
    ensures
        forall|i: int, j: int|
            0 <= i < j < plan_spec(c).len() ==> plan_spec(c)[i] != plan_spec(c)[j],
{
}

/// When the `k`-th planned candidate is the first to succeed, the attempted
/// candidates are exactly the plan up to and including position `k`: every
/// candidate up to the successful one occurs among the attempts — exactly
/// once, since no plan lists a candidate twice — and no candidate after the
/// successful one is ever attempted.
pub proof fn lemma_first_success_attempts(
    c: ConnectionConfig,
    attempts: Seq<TransportKind>,
    k: int,
)
    requires
        0 <= k < plan_spec(c).len(),
        attempts == plan_spec(c).take(k + 1),
    ensures
        forall|j: int| 0 <= j <= k ==> attempts.contains(#[trigger] plan_spec(c)[j]),
        forall|j: int| k < j < plan_spec(c).len() ==> !attempts.contains(#[trigger] plan_spec(c)[j]),
{
    lemma_plan_distinct(c);
    let p = plan_spec(c);
    assert forall|j: int| 0 <= j <= k implies attempts.contains(#[trigger] p[j]) by {
        assert(0 <= j < attempts.len() && attempts[j] == p[j]);
    };
    assert forall|j: int| k < j < p.len() implies !attempts.contains(#[trigger] p[j]) by {
        if attempts.contains(p[j]) {
            let i = choose|i: int| 0 <= i < attempts.len() && attempts[i] == p[j];
            assert(attempts[i] == p[i]);
            assert(p[i] == p[j] && i < j);
            assert(false);
        }
    };
}

/// True when no attempt before position `k` succeeded.
pub open spec fn no_success_before(outcomes: Seq<bool>, k: int) -> bool {
    forall|j: int| 0 <= j < k ==> !outcomes[j]
}

/// True when every attempt failed.
pub open spec fn all_failed(outcomes: Seq<bool>) -> bool {
    forall|j: int| 0 <= j < outcomes.len() ==> !outcomes[j]
}

/// Every outcome sequence falls under one of the two cases the failover
/// contract speaks of: either every attempt fails, or some attempt is the
/// first to succeed.
pub proof fn lemma_outcomes_dichotomy(s: Seq<bool>)
    ensures
        all_failed(s) || exists|k: int|
            0 <= k < s.len() && s[k] && #[trigger] no_success_before(s, k),
    decreases s.len(),
{
    if s.len() == 0 {
    } else if s[0] {
        assert(no_success_before(s, 0));
        assert(0 <= 0 < s.len() && s[0] && no_success_before(s, 0));
    } else {
        let t = s.drop_first();
        lemma_outcomes_dichotomy(t);
        if all_failed(t) {
            assert forall|j: int| 0 <= j < s.len() implies !s[j] by {
                if j >= 1 {
                    assert(s[j] == t[j - 1]);
                }
            };
        } else {
            let k = choose|k: int| 0 <= k < t.len() && t[k] && #[trigger] no_success_before(t, k);
            assert(s[k + 1] == t[k]);
            assert forall|j: int| 0 <= j < k + 1 implies !s[j] by {
                if j >= 1 {
                    assert(s[j] == t[j - 1]);
                }
            };
            assert(no_success_before(s, k + 1));
            assert(0 <= k + 1 < s.len() && s[k + 1] && no_success_before(s, k + 1));
        }
    }
}

/// Where the orchestrator stands within one `establish` call.
#[derive(Clone, Copy, PartialEq, Eq, Structural, Debug)]
pub enum EstablishState {
    /// Candidates remain to be tried.
    Probing,
    /// A candidate succeeded; no later candidate will run.
    Connected(TransportKind),
    /// Every enabled candidate was tried and failed.
    Exhausted,
}

/// The failover state machine.  The surrounding application asks for the next
/// candidate, performs the attempt (with its per-attempt timeout), and
/// reports the outcome; the machine decides what runs next and what the call
/// returns.
pub struct Orchestrator {
    plan: Vec<TransportKind>,
    attempted: usize,
    state: EstablishState,
}

impl Orchestrator {
    /// The priority-ordered candidates of this run.
    pub closed spec fn spec_plan(self) -> Seq<TransportKind> {
        self.plan@
    }

    /// How many candidates have been attempted so far.
    pub closed spec fn spec_attempted(self) -> int {
        self.attempted as int
    }

    /// The machine's current state.
    pub closed spec fn spec_state(self) -> EstablishState {
        self.state
    }

    /// Internal consistency: the attempt counter stays within the plan, the
    /// machine only rests once the plan is decided, and a connected state
    /// names the candidate that was attempted last.
    pub closed spec fn wf(self) -> bool {
        &&& self.plan@.len() >= 1
        &&& match self.state {
            EstablishState::Probing => self.attempted < self.plan@.len(),
            EstablishState::Exhausted => self.attempted == self.plan@.len(),
            EstablishState::Connected(k) => {
                &&& 1 <= self.attempted <= self.plan@.len()
                &&& k == self.plan@[self.attempted - 1]
            },
        }
    }

    /// Starts a failover run over the candidates the configuration enables.
    pub fn new(c: &ConnectionConfig) -> (r: Orchestrator)
        ensures
            r.wf(),
            r.spec_plan() == plan_spec(*c),
            r.spec_attempted() == 0,
            r.spec_state() == EstablishState::Probing,
    {
        let plan = build_plan(c);
        Orchestrator { plan, attempted: 0, state: EstablishState::Probing }
    }

    /// The candidate to try next, or `None` once the run is decided.
    pub fn next_candidate(&self) -> (r: Option<TransportKind>)
        requires
            self.wf(),
        ensures
            r == (if self.spec_state() is Probing {
                Some(self.spec_plan()[self.spec_attempted()])
            } else {
                None::<TransportKind>
            }),
    {
        match self.state {
            EstablishState::Probing => Some(self.plan[self.attempted]),
            _ => None,
        }
    }

    /// Records that the current candidate failed; the failure is caught, and
    /// control proceeds to the next candidate or to exhaustion.
    pub fn record_failure(&mut self)
        requires
            old(self).wf(),
            old(self).spec_state() is Probing,
        ensures
            final(self).wf(),
            final(self).spec_plan() == old(self).spec_plan(),
            final(self).spec_attempted() == old(self).spec_attempted() + 1,
            final(self).spec_state() == (if old(self).spec_attempted() + 1
                == old(self).spec_plan().len() {
                EstablishState::Exhausted
            } else {
                EstablishState::Probing
            }),
    {
        let n = self.plan.len();
        self.attempted = self.attempted + 1;
        if self.attempted == n {
            self.state = EstablishState::Exhausted;
        }
    }

    /// Records that the current candidate produced an active session; the
    /// machine commits to it and no later candidate will be offered.
    pub fn record_success(&mut self)
        requires
            old(self).wf(),
            old(self).spec_state() is Probing,
        ensures
            final(self).wf(),
            final(self).spec_plan() == old(self).spec_plan(),
            final(self).spec_attempted() == old(self).spec_attempted() + 1,
            final(self).spec_state() == EstablishState::Connected(
                old(self).spec_plan()[old(self).spec_attempted()],
            ),
    {
        let n = self.plan.len();
        let k = self.plan[self.attempted];
        self.attempted = self.attempted + 1;
        proof {
            assert(self.attempted <= n);
        }
        self.state = EstablishState::Connected(k);
    }

    /// The outcome of the run: the chosen transport, the aggregate failure,
    /// or nothing while candidates remain.
    pub fn outcome(&self) -> (r: Option<Result<TransportKind, EstablishError>>)
        requires
            self.wf(),
        ensures
            r == (match self.spec_state() {
                EstablishState::Probing => None::<Result<TransportKind, EstablishError>>,
                EstablishState::Connected(k) => Some(
                    Ok::<TransportKind, EstablishError>(k),
                ),
                EstablishState::Exhausted => Some(
                    Err::<TransportKind, EstablishError>(EstablishError::AllTransportsExhausted),
                ),
            }),
    {
        match self.state {
            EstablishState::Probing => None,
            EstablishState::Connected(k) => Some(Ok(k)),
            EstablishState::Exhausted => Some(Err(EstablishError::AllTransportsExhausted)),
        }
    }
}

/// One `establish` call, decided over the per-candidate attempt outcomes:
/// candidates run in priority order, the run stops at the first success, and
/// when every enabled candidate fails the only surfaced failure is
/// `AllTransportsExhausted`.  Returns the candidates attempted, in order,
/// together with the result.
///
/// `outcomes[k]` is how an attempt of the `k`-th planned candidate would end;
/// outcomes past the first success are never consulted.
pub fn establish_connection(c: &ConnectionConfig, outcomes: &Vec<bool>) -> (r: (
    Vec<TransportKind>,
    Result<TransportKind, EstablishError>,
))
    requires
        outcomes@.len() == plan_spec(*c).len(),
    ensures
        forall|k: int|
            0 <= k < plan_spec(*c).len() && outcomes@[k] && #[trigger] no_success_before(
                outcomes@,
                k,
            ) ==> r.0@ == plan_spec(*c).take(k + 1) && r.1 == Ok::<
                TransportKind,
                EstablishError,
            >(plan_spec(*c)[k]),
        all_failed(outcomes@) ==> r.0@ == plan_spec(*c) && r.1 == Err::<
            TransportKind,
            EstablishError,
        >(EstablishError::AllTransportsExhausted),
{
    let ghost p = plan_spec(*c);
    let mut orch = Orchestrator::new(c);
    let mut attempts: Vec<TransportKind> = Vec::new();
    let mut i: usize = 0;
    let m = outcomes.len();
    while i < m
        invariant
            orch.wf(),
            orch.spec_plan() == p,
            p == plan_spec(*c),
            outcomes@.len() == p.len(),
            m == p.len(),
            orch.spec_attempted() == i,
            i <= m,
            attempts@ == p.take(i as int),
            orch.spec_state() == (if i == p.len() {
                EstablishState::Exhausted
            } else {
                EstablishState::Probing
            }),
            no_success_before(outcomes@, i as int),
        decreases m - i,
    {
        let kind = match orch.next_candidate() {
            Some(k) => k,
            None => { vstd::pervasive::unreached() },
        };
        attempts.push(kind);
        let ok = outcomes[i];
        proof {
            assert(attempts@ =~= p.take(i + 1));
        }
        if ok {
            orch.record_success();
            proof {
                assert(outcomes@[i as int]);
                assert(no_success_before(outcomes@, i as int));
            }
            return (attempts, Ok(kind));
        } else {
            orch.record_failure();
            i = i + 1;
        }
    }
    proof {
        assert(attempts@ =~= p);
    }
    match orch.outcome() {
        Some(r) => (attempts, r),
        None => { vstd::pervasive::unreached() },
    }
}

} // verus!
