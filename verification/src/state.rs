use crate::annealer::Status;
use crate::random::Rng;
use vstd::prelude::*;

verus! {

/// The capability contract that decouples the generic annealing engine
/// from any one optimization domain.  A state knows its neighbourhood —
/// which states one move can reach, and how many candidates one draw of
/// them yields — and can enumerate it in a freshly randomized order from
/// an explicitly owned random source.  `compatible` is the domain's
/// conservation law — for tours, holding the same multiset of points —
/// and every neighbour must respect it; the engine then preserves it
/// across a whole run.
pub trait State: Sized {
    /// The conservation law relating a state to the states its moves
    /// may produce.
    spec fn compatible(self, other: Self) -> bool;

    /// The neighbourhood relation: `other` is reachable from `self` by
    /// one move.
    spec fn in_neighbourhood(self, other: Self) -> bool;

    /// How many candidates one draw of the neighbourhood yields.
    spec fn neighbourhood_size(self) -> nat;

    /// The law relates every state to itself.
    proof fn lemma_compatible_refl(a: Self)
        ensures
            a.compatible(a),
    ;

    /// The law carries over chains of moves.
    proof fn lemma_compatible_trans(a: Self, b: Self, c: Self)
        requires
            a.compatible(b),
            b.compatible(c),
        ensures
            a.compatible(c),
    ;

    /// An owned copy of the state.
    fn duplicate(&self) -> (r: Self)
        ensures
            self.compatible(r),
    ;

    /// The candidate states one move away: all `neighbourhood_size` of
    /// them, each a neighbour, in an order drawn from the given source.
    fn get_next_states(&self, rng: &mut Rng) -> (r: Vec<Self>)
        ensures
            r@.len() == self.neighbourhood_size(),
            forall|i: int| 0 <= i < r@.len() ==> self.in_neighbourhood(#[trigger] r@[i]),
            forall|i: int| 0 <= i < r@.len() ==> self.compatible(#[trigger] r@[i]),
    ;
}

/// The annealing engine over any `State`, as an explicit state machine.
///
/// The engine owns the current state, the candidate list of the running
/// temperature step and the random source, and makes every structural
/// decision; the driver evaluates the acceptance rule — a computation
/// on double-precision scalars — and reports one verdict per candidate.
/// Whatever the verdicts, the engine keeps the current state compatible
/// with the initial one, judges each drawn candidate at most once per
/// step, and stops within the step budget.
pub struct Engine<S: State> {
    current: S,
    candidates: Vec<S>,
    scan: usize,
    k: usize,
    max_k: usize,
    status: Status,
    rng: Rng,
    initial: Ghost<S>,
}

impl<S: State> Engine<S> {
    /// The current state.
    pub closed spec fn current_state(self) -> S {
        self.current
    }

    /// The state the run started from.
    pub closed spec fn initial_state(self) -> S {
        self.initial@
    }

    /// The candidates of the current temperature step, in scan order.
    pub closed spec fn candidate_list(self) -> Seq<S> {
        self.candidates@
    }

    /// How far the scan of `candidate_list` has come: the candidates
    /// before this index have been judged and rejected in this step.
    pub closed spec fn scan_index(self) -> int {
        self.scan as int
    }

    /// The candidate the next verdict is about.
    pub open spec fn pending_candidate(self) -> S {
        self.candidate_list()[self.scan_index()]
    }

    /// How many candidates of the current step have not been judged yet.
    pub open spec fn scans_left(self) -> int {
        self.candidate_list().len() - self.scan_index()
    }

    /// The temperature step the run is in.
    pub closed spec fn step(self) -> int {
        self.k as int
    }

    /// The step budget `max_k`.
    pub closed spec fn budget(self) -> int {
        self.max_k as int
    }

    /// Where the run stands.
    pub closed spec fn phase(self) -> Status {
        self.status
    }

    /// Internal consistency of the machine.
    pub closed spec fn wf(self) -> bool {
        &&& self.k <= self.max_k
        &&& self.scan <= self.candidates@.len()
        &&& self.initial@.compatible(self.current)
        &&& forall|i: int|
            0 <= i < self.candidates@.len() ==> self.current.in_neighbourhood(
                #[trigger] self.candidates@[i],
            )
        &&& forall|i: int|
            0 <= i < self.candidates@.len() ==> self.current.compatible(
                #[trigger] self.candidates@[i],
            )
        &&& (self.status == Status::Running ==> self.k < self.max_k && self.scan
            < self.candidates@.len() && self.candidates@.len()
            == self.current.neighbourhood_size())
    }

    /// A well-formed run keeps the current state compatible with the
    /// initial one and never passes its step budget.
    pub proof fn lemma_run_invariant(self)
        requires
            self.wf(),
        ensures
            self.initial_state().compatible(self.current_state()),
            0 <= self.step() <= self.budget(),
    {
    }

    /// While the run is going, the whole neighbourhood of the current
    /// state is drawn and the pending candidate is one of its members.
    pub proof fn lemma_pending_from_neighbourhood(self)
        requires
            self.wf(),
            self.phase() == Status::Running,
        ensures
            0 <= self.scan_index() < self.candidate_list().len(),
            self.candidate_list().len() == self.current_state().neighbourhood_size(),
            self.current_state().in_neighbourhood(self.pending_candidate()),
            self.current_state().compatible(self.pending_candidate()),
    {
    }

    /// Starts a run with the given random source: draws the first
    /// step's candidates from the initial state's neighbourhood.  A
    /// budget of zero exhausts the run at once, drawing nothing; a
    /// state without neighbours converges at once.
    pub fn new(state: S, max_k: usize, rng: Rng) -> (r: Engine<S>)
        ensures
            r.wf(),
            r.current_state() == state,
            r.initial_state() == state,
            r.step() == 0,
            r.budget() == max_k as int,
            r.scan_index() == 0,
            max_k != 0 ==> r.candidate_list().len() == state.neighbourhood_size(),
            max_k == 0 ==> r.candidate_list().len() == 0,
            r.phase() == (if max_k == 0 {
                Status::Exhausted
            } else if state.neighbourhood_size() == 0 {
                Status::Converged
            } else {
                Status::Running
            }),
    {
        proof {
            S::lemma_compatible_refl(state);
        }
        let ghost g = state;
        let mut rng = rng;
        if max_k == 0 {
            Engine {
                current: state,
                candidates: Vec::new(),
                scan: 0,
                k: 0,
                max_k,
                status: Status::Exhausted,
                rng,
                initial: Ghost(g),
            }
        } else {
            let candidates = state.get_next_states(&mut rng);
            let status = if candidates.len() == 0 {
                Status::Converged
            } else {
                Status::Running
            };
            Engine { current: state, candidates, scan: 0, k: 0, max_k, status, rng, initial: Ghost(g) }
        }
    }

    /// The current state, for the driver to evaluate or stream out.
    pub fn current(&self) -> (r: &S)
        ensures
            *r == self.current_state(),
    {
        &self.current
    }

    /// The temperature step the run is in.
    pub fn step_index(&self) -> (r: usize)
        ensures
            r as int == self.step(),
    {
        self.k
    }

    /// Where the run stands.
    pub fn status(&self) -> (r: Status)
        ensures
            r == self.phase(),
    {
        self.status
    }

    /// The pending candidate, for the driver to judge.
    pub fn candidate(&self) -> (r: &S)
        requires
            self.wf(),
            self.phase() == Status::Running,
        ensures
            *r == self.pending_candidate(),
            self.current_state().in_neighbourhood(self.pending_candidate()),
            self.current_state().compatible(self.pending_candidate()),
    {
        &self.candidates[self.scan]
    }

    /// Judges the pending candidate with the driver's acceptance
    /// verdict.  An accepted candidate becomes the current state and a
    /// fresh temperature step begins with that state's own
    /// neighbourhood, drawn anew; a rejected one moves the scan on over
    /// the unchanged candidate list, and a full scan with no acceptance
    /// converges the run.  Every verdict either advances the step
    /// counter, which never passes the budget, or shrinks `scans_left`,
    /// so a driver loop always terminates.
    pub fn decide(&mut self, accepted: bool)
        requires
            old(self).wf(),
            old(self).phase() == Status::Running,
        ensures
            final(self).wf(),
            final(self).initial_state() == old(self).initial_state(),
            final(self).budget() == old(self).budget(),
            if accepted {
                &&& final(self).current_state() == old(self).pending_candidate()
                &&& final(self).step() == old(self).step() + 1
                &&& final(self).phase() == (if old(self).step() + 1 == old(self).budget() {
                    Status::Exhausted
                } else if old(self).pending_candidate().neighbourhood_size() == 0 {
                    Status::Converged
                } else {
                    Status::Running
                })
                &&& final(self).scan_index() == 0
                &&& (old(self).step() + 1 != old(self).budget()
                    ==> final(self).candidate_list().len()
                    == final(self).current_state().neighbourhood_size())
            } else {
                &&& final(self).current_state() == old(self).current_state()
                &&& final(self).step() == old(self).step()
                &&& final(self).candidate_list() == old(self).candidate_list()
                &&& final(self).scan_index() == old(self).scan_index() + 1
                &&& final(self).phase() == (if old(self).scans_left() == 1 {
                    Status::Converged
                } else {
                    Status::Running
                })
            },
    {
        if accepted {
            let next = self.candidates.remove(self.scan);
            proof {
                S::lemma_compatible_trans(self.initial@, self.current, next);
            }
            self.current = next;
            self.k = self.k + 1;
            if self.k == self.max_k {
                self.candidates = Vec::new();
                self.scan = 0;
                self.status = Status::Exhausted;
            } else {
                let drawn = self.current.get_next_states(&mut self.rng);
                self.candidates = drawn;
                self.scan = 0;
                self.status = if self.candidates.len() == 0 {
                    Status::Converged
                } else {
                    Status::Running
                };
            }
        } else {
            let len = self.candidates.len();
            self.scan = self.scan + 1;
            if self.scan == len {
                self.status = Status::Converged;
            }
        }
    }

    /// Records an acceptance-rule fault reported by the driver (a
    /// non-positive temperature): the run stops with the state
    /// unchanged.
    pub fn fail(&mut self)
        requires
            old(self).wf(),
            old(self).phase() == Status::Running,
        ensures
            final(self).wf(),
            final(self).phase() == Status::Failed,
            final(self).current_state() == old(self).current_state(),
            final(self).initial_state() == old(self).initial_state(),
            final(self).step() == old(self).step(),
            final(self).budget() == old(self).budget(),
    {
        self.status = Status::Failed;
    }

    /// Hands the final state back.
    pub fn into_state(self) -> (r: S)
        ensures
            r == self.current_state(),
    {
        self.current
    }
}

} // verus!
