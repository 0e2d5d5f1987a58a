use crate::moves::{geometric_swap, geometric_swapped, plain_swap, swapped};
use crate::pairs::lemma_pairs_still_valid;
use crate::random::{shuffle, Rng};
use crate::tsp2::{copied_points, Point};
use vstd::prelude::*;

verus! {

/// Where an annealing run stands.  `Running` means a candidate move is
/// waiting for a verdict; the other three are terminal.  `Converged` is
/// reached when one whole temperature step accepts no move, `Exhausted`
/// when the step budget runs out, and `Failed` when the driver reports a
/// temperature schedule fault.
#[derive(Clone, Copy, PartialEq, Eq, Structural, Debug)]
pub enum Status {
    Running,
    Converged,
    Exhausted,
    Failed,
}

/// The two move semantics of the swap neighbourhood: exchange two
/// positions, or exchange them and reverse the stretch between them
/// (the 2-opt edge exchange).
#[derive(Clone, Copy, PartialEq, Eq, Structural, Debug)]
pub enum MoveKind {
    Plain,
    Geometric,
}

/// The tour produced by one move of the given kind on positions
/// `i < j`.
pub open spec fn move_applied(s: Seq<Point>, kind: MoveKind, i: int, j: int) -> Seq<Point> {
    match kind {
        MoveKind::Plain => swapped(s, i, j),
        MoveKind::Geometric => geometric_swapped(s, i, j),
    }
}

/// The annealing engine as an explicit state machine.
///
/// The engine owns the tour, the move order of the current temperature
/// step and the step counter, and it makes every structural decision:
/// which candidate is pending, when a candidate is committed, when the
/// run converges or exhausts its budget.  What it cannot do is evaluate
/// scalars: energies and temperatures are IEEE-754 doubles, which the
/// driver computes and hands in as `u64` bit patterns together with the
/// Metropolis verdict for worsening moves.  On the non-negative doubles
/// that well-formed inputs produce, unsigned order of the bit patterns
/// coincides with numeric order, which is how the engine compares
/// energies itself and commits an improving candidate no matter what the
/// driver's verdict says.
pub struct Annealer {
    points: Vec<Point>,
    energy_bits: u64,
    kind: MoveKind,
    pairs: Vec<(usize, usize)>,
    scan: usize,
    k: usize,
    max_k: usize,
    status: Status,
    rng: Rng,
    initial: Ghost<Seq<Point>>,
}

impl Annealer {
    /// The current tour.
    pub closed spec fn tour(self) -> Seq<Point> {
        self.points@
    }

    /// The tour the run started from.
    pub closed spec fn initial_tour(self) -> Seq<Point> {
        self.initial@
    }

    /// The energy of the current tour, as the bit pattern the driver
    /// supplied for it.
    pub closed spec fn energy(self) -> u64 {
        self.energy_bits
    }

    /// Which move semantics the run uses.
    pub closed spec fn kind_of(self) -> MoveKind {
        self.kind
    }

    /// The temperature step the run is in.
    pub closed spec fn step(self) -> int {
        self.k as int
    }

    /// The step budget `max_k`.
    pub closed spec fn budget(self) -> int {
        self.max_k as int
    }

    /// Where the run stands.
    pub closed spec fn phase(self) -> Status {
        self.status
    }

    /// The move enumeration of the current temperature step, in scan
    /// order.
    pub closed spec fn move_set(self) -> Seq<(usize, usize)> {
        self.pairs@
    }

    /// How far the scan of `move_set` has come: the moves before this
    /// index have been judged and rejected in this step.
    pub closed spec fn scan_index(self) -> int {
        self.scan as int
    }

    /// The pending move: the pair of positions the next verdict is about.
    pub open spec fn pending(self) -> (int, int) {
        (
            self.move_set()[self.scan_index()].0 as int,
            self.move_set()[self.scan_index()].1 as int,
        )
    }

    /// How many candidates of the current step have not been judged yet.
    pub open spec fn scans_left(self) -> int {
        self.move_set().len() - self.scan_index()
    }

    /// A bound on the number of verdicts any continuation of the run can
    /// still consume; every verdict strictly decreases it.
    pub closed spec fn work_left(self) -> int {
        (self.max_k - self.k) * (self.pairs@.len() + 1) + (self.pairs@.len() - self.scan)
    }

    /// Internal consistency of the machine.
    pub closed spec fn wf(self) -> bool {
        &&& self.k <= self.max_k
        &&& self.scan <= self.pairs@.len()
        &&& forall|t: int|
            0 <= t < self.pairs@.len() ==> (#[trigger] self.pairs@[t]).0 < self.pairs@[t].1
                && self.pairs@[t].1 < self.points@.len()
        &&& self.points@.to_multiset() == self.initial@.to_multiset()
        &&& (self.status == Status::Running ==> self.k < self.max_k && self.scan
            < self.pairs@.len())
    }

    /// A well-formed run keeps the tour a permutation of the tour it
    /// started from — no move duplicates or drops a point — and never
    /// passes its step budget.
    pub proof fn lemma_run_invariant(self)
        requires
            self.wf(),
        ensures
            self.tour().to_multiset() == self.initial_tour().to_multiset(),
            self.tour().len() == self.initial_tour().len(),
            0 <= self.step() <= self.budget(),
    {
        self.points@.to_multiset_ensures();
        self.initial@.to_multiset_ensures();
    }

    /// While the run is going, the pending move is an element of the
    /// step's move enumeration — and, since every transition keeps the
    /// enumeration's multiset, an element of the neighbourhood the run
    /// was started with.
    pub proof fn lemma_pending_in_move_set(self)
        requires
            self.wf(),
            self.phase() == Status::Running,
        ensures
            0 <= self.scan_index() < self.move_set().len(),
            self.move_set().to_multiset().count(self.move_set()[self.scan_index()]) > 0,
    {
        broadcast use vstd::seq_lib::group_to_multiset_ensures;

        assert(self.move_set().contains(self.move_set()[self.scan_index()]));
    }

    /// Starts a run on the given tour with the given move neighbourhood
    /// and random source.  The driver supplies the tour's energy bits;
    /// the engine shuffles the neighbourhood into a fresh scan order now
    /// and again at every accepted move, drawing only from the given
    /// source, so a run from a seeded source can be replayed.  A budget
    /// of zero exhausts the run at once with the tour unchanged; an
    /// empty neighbourhood converges at once.
    pub fn new(
        points: Vec<Point>,
        energy_bits: u64,
        max_k: usize,
        kind: MoveKind,
        pairs: Vec<(usize, usize)>,
        rng: Rng,
    ) -> (r: Annealer)
        requires
            forall|t: int|
                0 <= t < pairs@.len() ==> (#[trigger] pairs@[t]).0 < pairs@[t].1 && pairs@[t].1
                    < points@.len(),
        ensures
            r.wf(),
            r.tour() == points@,
            r.initial_tour() == points@,
            r.energy() == energy_bits,
            r.kind_of() == kind,
            r.step() == 0,
            r.budget() == max_k as int,
            r.move_set().to_multiset() == pairs@.to_multiset(),
            r.scan_index() == 0,
            r.phase() == (if max_k == 0 {
                Status::Exhausted
            } else if pairs@.len() == 0 {
                Status::Converged
            } else {
                Status::Running
            }),
    {
        let ghost orig_pairs = pairs@;
        let mut pairs = pairs;
        let mut rng = rng;
        shuffle(&mut pairs, &mut rng);
        proof {
            lemma_pairs_still_valid(orig_pairs, pairs@, points@.len() as int);
        }
        let status = if max_k == 0 {
            Status::Exhausted
        } else if pairs.len() == 0 {
            Status::Converged
        } else {
            Status::Running
        };
        let ghost initial = points@;
        Annealer {
            points,
            energy_bits,
            kind,
            pairs,
            scan: 0,
            k: 0,
            max_k,
            status,
            rng,
            initial: Ghost(initial),
        }
    }

    /// The current tour, for the driver to evaluate or stream out.
    pub fn current(&self) -> (r: &Vec<Point>)
        ensures
            r@ == self.tour(),
    {
        &self.points
    }

    /// The energy bits last recorded for the current tour.
    pub fn current_energy(&self) -> (r: u64)
        ensures
            r == self.energy(),
    {
        self.energy_bits
    }

    /// The temperature step the run is in.
    pub fn step_index(&self) -> (r: usize)
        ensures
            r as int == self.step(),
    {
        self.k
    }

    /// Where the run stands.
    pub fn status(&self) -> (r: Status)
        ensures
            r == self.phase(),
    {
        self.status
    }

    /// The candidate tour of the pending move: the current tour with the
    /// pending move applied.  The engine does not change; the driver
    /// evaluates the candidate's energy and answers with `decide`.
    pub fn candidate(&self) -> (c: Vec<Point>)
        requires
            self.wf(),
            self.phase() == Status::Running,
        ensures
            c@ == move_applied(self.tour(), self.kind_of(), self.pending().0, self.pending().1),
            c@.to_multiset() == self.tour().to_multiset(),
            c@.len() == self.tour().len(),
    {
        let (i, j) = self.pairs[self.scan];
        let mut c = copied_points(&self.points);
        match self.kind {
            MoveKind::Plain => plain_swap(&mut c, i, j),
            MoveKind::Geometric => geometric_swap(&mut c, i, j),
        }
        c
    }

    /// Judges the pending candidate.  `candidate_energy` is the bit
    /// pattern of the candidate tour's energy; `metropolis` is the
    /// driver's verdict `exp(-(gap)/t) >= sample` for a worsening move.
    /// An improving candidate — candidate energy bits below the current
    /// energy bits — is committed regardless of the verdict, so an
    /// improving step never raises the recorded energy.  A committed
    /// candidate starts the next temperature step with a fresh shuffle;
    /// a rejected one moves the scan on, and a full scan with no
    /// commitment converges the run.
    pub fn decide(&mut self, candidate_energy: u64, metropolis: bool)
        requires
            old(self).wf(),
            old(self).phase() == Status::Running,
        ensures
            final(self).wf(),
            final(self).initial_tour() == old(self).initial_tour(),
            final(self).kind_of() == old(self).kind_of(),
            final(self).budget() == old(self).budget(),
            final(self).work_left() < old(self).work_left(),
            final(self).move_set().to_multiset() == old(self).move_set().to_multiset(),
            ({
                let accepted = candidate_energy < old(self).energy() || metropolis;
                if accepted {
                    &&& final(self).tour() == move_applied(
                        old(self).tour(),
                        old(self).kind_of(),
                        old(self).pending().0,
                        old(self).pending().1,
                    )
                    &&& final(self).energy() == candidate_energy
                    &&& final(self).step() == old(self).step() + 1
                    &&& final(self).scan_index() == 0
                    &&& final(self).phase() == (if old(self).step() + 1 == old(self).budget() {
                        Status::Exhausted
                    } else {
                        Status::Running
                    })
                } else {
                    &&& final(self).tour() == old(self).tour()
                    &&& final(self).energy() == old(self).energy()
                    &&& final(self).step() == old(self).step()
                    &&& final(self).move_set() == old(self).move_set()
                    &&& final(self).scan_index() == old(self).scan_index() + 1
                    &&& final(self).phase() == (if old(self).scans_left() == 1 {
                        Status::Converged
                    } else {
                        Status::Running
                    })
                }
            }),
            candidate_energy < old(self).energy() ==> final(self).energy() < old(self).energy(),
    {
        let ghost pre = *self;
        let accepted = candidate_energy < self.energy_bits || metropolis;
        if accepted {
            let (i, j) = self.pairs[self.scan];
            match self.kind {
                MoveKind::Plain => plain_swap(&mut self.points, i, j),
                MoveKind::Geometric => geometric_swap(&mut self.points, i, j),
            }
            self.energy_bits = candidate_energy;
            let ghost old_pairs = self.pairs@;
            shuffle(&mut self.pairs, &mut self.rng);
            proof {
                lemma_pairs_still_valid(old_pairs, self.pairs@, self.points@.len() as int);
            }
            self.scan = 0;
            self.k = self.k + 1;
            self.status = if self.k == self.max_k {
                Status::Exhausted
            } else {
                Status::Running
            };
            proof {
                let p = pre.pairs@.len() as int;
                assert((pre.max_k - pre.k - 1) * (p + 1) == (pre.max_k - pre.k) * (p + 1) - (p
                    + 1)) by (nonlinear_arith);
            }
        } else {
            let len = self.pairs.len();
            self.scan = self.scan + 1;
            if self.scan == len {
                self.status = Status::Converged;
            }
        }
    }

    /// Records a temperature schedule fault reported by the driver: the
    /// run stops with the tour unchanged instead of going on with a
    /// meaningless acceptance rule.
    pub fn fail(&mut self)
        requires
            old(self).wf(),
            old(self).phase() == Status::Running,
        ensures
            final(self).wf(),
            final(self).phase() == Status::Failed,
            final(self).tour() == old(self).tour(),
            final(self).initial_tour() == old(self).initial_tour(),
            final(self).energy() == old(self).energy(),
            final(self).step() == old(self).step(),
            final(self).budget() == old(self).budget(),
            final(self).move_set() == old(self).move_set(),
            final(self).scan_index() == old(self).scan_index(),
    {
        self.status = Status::Failed;
    }

    /// Hands the final tour back.
    pub fn into_points(self) -> (r: Vec<Point>)
        ensures
            r@ == self.tour(),
    {
        self.points
    }
}

} // verus!
