//! Automatic gain control: a feedback loop that moves an input multiplier so
//! that the mean loudness of recent blocks approaches a target level.
use vstd::prelude::*;
use crate::signal::LEVEL_ONE;
use vstd::arithmetic::power2::{pow2, lemma2_to64, lemma_pow2_unfold};

verus! {

/// Gain 1.0; gains are kept in thousandths.
pub const GAIN_ONE: u32 = 1000;

/// Smallest gain the loop may settle on (0.1).
pub const GAIN_MIN: u32 = 100;

/// Largest gain the loop may settle on (60.0).
pub const GAIN_MAX: u32 = 60_000;

/// Share of the distance to the wanted gain covered by one update, in thousandths.
pub const AGC_SPEED: u32 = 100;

/// Mean level at or below which the gain is left alone.
pub const AGC_EPSILON: u32 = 100;

/// Number of recent loudness values the mean is taken over.
pub const AGC_HISTORY: usize = 16;

pub open spec fn sum_levels(s: Seq<u32>) -> int
    decreases s.len(),
{
    if s.len() == 0 { 0 } else { sum_levels(s.drop_last()) + s.last() as int }
}

/// The history after recording `x`: the oldest value leaves once the window is full.
pub open spec fn window_push(h: Seq<u32>, x: u32) -> Seq<u32> {
    if h.len() >= AGC_HISTORY { h.drop_first().push(x) } else { h.push(x) }
}

pub open spec fn clamp_gain(g: int) -> int {
    if g < GAIN_MIN as int { GAIN_MIN as int } else if g > GAIN_MAX as int { GAIN_MAX as int } else { g }
}

/// One step of `gain += (goal - gain) * AGC_SPEED`, each direction rounded toward the old gain.
pub open spec fn gain_step(gain: int, goal: int) -> int {
    if goal >= gain {
        gain + (goal - gain) * (AGC_SPEED as int) / 1000
    } else {
        gain - (gain - goal) * (AGC_SPEED as int) / 1000
    }
}

/// The gain after an update whose history (newest value included) is `h`.
pub open spec fn next_gain(gain: int, h: Seq<u32>, target: int) -> int {
    let mean = sum_levels(h) / (h.len() as int);
    if h.len() == 0 || mean <= AGC_EPSILON as int {
        gain
    } else {
        clamp_gain(gain_step(gain, target * (GAIN_ONE as int) / mean))
    }
}

/// Gain-control state: the current gain and a window of recent pre-gain loudness values.
pub struct AgcState {
    gain: u32,
    target: u32,
    history: Vec<u32>,
}

impl AgcState {
    pub closed spec fn wf(&self) -> bool {
        &&& GAIN_MIN <= self.gain <= GAIN_MAX
        &&& self.target <= LEVEL_ONE
        &&& self.history@.len() <= AGC_HISTORY
        &&& forall|i: int| 0 <= i < self.history@.len() ==> self.history@[i] <= LEVEL_ONE
    }

    pub closed spec fn gain_spec(&self) -> int {
        self.gain as int
    }

    pub closed spec fn target_spec(&self) -> int {
        self.target as int
    }

    pub closed spec fn history_spec(&self) -> Seq<u32> {
        self.history@
    }

    /// A loop that aims at `target` loudness, starting at gain 1.0 with no history.
    pub fn new(target: u32) -> (s: AgcState)
        requires
            target <= LEVEL_ONE,
        ensures
            s.wf(),
            s.gain_spec() == GAIN_ONE,
            s.target_spec() == target,
            s.history_spec().len() == 0,
    {
        AgcState { gain: GAIN_ONE, target, history: Vec::new() }
    }

    pub fn gain(&self) -> (g: u32)
        ensures
            g == self.gain_spec(),
    {
        self.gain
    }

    /// Records a pre-gain loudness value and moves the gain toward
    /// `target / mean(history)`; the update is skipped while that mean is at
    /// or below `AGC_EPSILON`.
    pub fn update(&mut self, level: u32)
        requires
            old(self).wf(),
            level <= LEVEL_ONE,
        ensures
            final(self).wf(),
            GAIN_MIN <= final(self).gain_spec() <= GAIN_MAX,
            final(self).target_spec() == old(self).target_spec(),
            final(self).history_spec() == window_push(old(self).history_spec(), level),
            final(self).gain_spec() == next_gain(
                old(self).gain_spec(),
                final(self).history_spec(),
                old(self).target_spec(),
            ),
    {
        let ghost h0 = self.history@;
        if self.history.len() >= AGC_HISTORY {
            self.history.remove(0);
            proof {
                assert(h0.remove(0) =~= h0.drop_first());
            }
        }
        self.history.push(level);
        assert(self.history@ =~= window_push(h0, level));
        let n = self.history.len();
        let mut sum: u64 = 0;
        let mut i: usize = 0;
        while i < n
            invariant
                n == self.history@.len(),
                n <= AGC_HISTORY,
                i <= n,
                forall|k: int| 0 <= k < n ==> self.history@[k] <= LEVEL_ONE,
                sum == sum_levels(self.history@.subrange(0, i as int)),
                sum <= (i as int) * (LEVEL_ONE as int),
            decreases n - i,
        {
            proof {
                assert(self.history@.subrange(0, i as int + 1).drop_last() =~= self.history@.subrange(0, i as int));
            }
            sum = sum + self.history[i] as u64;
            i += 1;
        }
        proof {
            assert(self.history@.subrange(0, n as int) =~= self.history@);
        }
        let mean: u64 = sum / (n as u64);
        if mean <= AGC_EPSILON as u64 {
            return;
        }
        let goal: u64 = (self.target as u64) * (GAIN_ONE as u64) / mean;
        let g: u64 = self.gain as u64;
        let stepped: u64 = if goal >= g {
            g + (goal - g) * (AGC_SPEED as u64) / 1000
        } else {
            g - (g - goal) * (AGC_SPEED as u64) / 1000
        };
        self.gain = if stepped < GAIN_MIN as u64 {
            GAIN_MIN
        } else if stepped > GAIN_MAX as u64 {
            GAIN_MAX
        } else {
            stepped as u32
        };
    }
}

/// One gain step moves toward the wanted gain and never past it.
pub proof fn gain_step_approaches_goal(gain: int, goal: int)
    requires
        0 <= gain,
        0 <= goal,
    ensures
        goal >= gain ==> gain <= gain_step(gain, goal) <= goal,
        goal < gain ==> goal <= gain_step(gain, goal) <= gain,
{
    if goal >= gain {
        assert((goal - gain) * 100 / 1000 <= goal - gain) by (nonlinear_arith)
            requires
                goal - gain >= 0,
        ;
        assert(0 <= (goal - gain) * 100 / 1000) by (nonlinear_arith)
            requires
                goal - gain >= 0,
        ;
    } else {
        assert((gain - goal) * 100 / 1000 <= gain - goal) by (nonlinear_arith)
            requires
                gain - goal >= 0,
        ;
        assert(0 <= (gain - goal) * 100 / 1000) by (nonlinear_arith)
            requires
                gain - goal >= 0,
        ;
    }
}

/// The gain of a well-formed gain-control state, after any sequence of updates,
/// lies within `[GAIN_MIN, GAIN_MAX]`.
pub proof fn gain_stays_bounded(s: AgcState)
    requires
        s.wf(),
    ensures
        GAIN_MIN <= s.gain_spec() <= GAIN_MAX,
{
}

/// The gain after `n` updates that each record `level`, starting from history
/// `h` and gain `g` (each step as `AgcState::update` takes it).
pub open spec fn gain_after(h: Seq<u32>, g: int, target: int, level: u32, n: nat) -> int
    decreases n,
{
    if n == 0 {
        g
    } else {
        let h1 = window_push(h, level);
        gain_after(h1, next_gain(g, h1, target), target, level, (n - 1) as nat)
    }
}

/// `n` gain steps toward a fixed `goal`, each clamped to `[GAIN_MIN, GAIN_MAX]`.
pub open spec fn iter_gain(g: int, goal: int, n: nat) -> int
    decreases n,
{
    if n == 0 { g } else { iter_gain(clamp_gain(gain_step(g, goal)), goal, (n - 1) as nat) }
}

/// How far `g` is from `target` beyond the 9 thousandths that integer steps cannot close.
pub open spec fn excess(g: int, target: int) -> int {
    let d = if target >= g { target - g } else { g - target };
    if d > 9 { d - 9 } else { 0 }
}

proof fn lemma_iter_compose(g: int, goal: int, a: nat, b: nat)
    ensures
        iter_gain(g, goal, a + b) == iter_gain(iter_gain(g, goal, a), goal, b),
    decreases a,
{
    if a > 0 {
        lemma_iter_compose(clamp_gain(gain_step(g, goal)), goal, (a - 1) as nat, b);
        assert((a + b - 1) as nat == ((a - 1) as nat + b) as nat);
    }
}

proof fn lemma_step_contracts(g: int, goal: int)
    requires
        GAIN_MIN <= g <= GAIN_MAX,
        0 <= goal,
    ensures
        GAIN_MIN <= clamp_gain(gain_step(g, goal)) <= GAIN_MAX,
        10 * excess(clamp_gain(gain_step(g, goal)), clamp_gain(goal)) <= 9 * excess(g, clamp_gain(goal)),
{
    gain_step_approaches_goal(g, goal);
    let cg = clamp_gain(goal);
    let n = clamp_gain(gain_step(g, goal));
    let d = if cg >= g { cg - g } else { g - cg };
    let q = d * 100 / 1000;
    assert(q * 10 <= d < q * 10 + 10) by (nonlinear_arith)
        requires
            q == d * 100 / 1000,
            d >= 0,
    ;
    let d1 = if cg >= n { cg - n } else { n - cg };
    if goal > GAIN_MAX {
        assert((goal - g) * 100 / 1000 >= d * 100 / 1000) by (nonlinear_arith)
            requires
                goal - g >= d,
                d >= 0,
        ;
        assert(d1 <= d - q);
    } else if goal < GAIN_MIN {
        assert((g - goal) * 100 / 1000 >= d * 100 / 1000) by (nonlinear_arith)
            requires
                g - goal >= d,
                d >= 0,
        ;
        assert(d1 <= d - q);
    } else {
        assert(d1 == d - q);
    }
}

proof fn lemma_iter_in_range(g: int, goal: int, n: nat)
    requires
        GAIN_MIN <= g <= GAIN_MAX,
        0 <= goal,
    ensures
        GAIN_MIN <= iter_gain(g, goal, n) <= GAIN_MAX,
    decreases n,
{
    if n > 0 {
        lemma_step_contracts(g, goal);
        lemma_iter_in_range(clamp_gain(gain_step(g, goal)), goal, (n - 1) as nat);
    }
}

proof fn lemma_seven_steps_halve(g: int, goal: int)
    requires
        GAIN_MIN <= g <= GAIN_MAX,
        0 <= goal,
    ensures
        2 * excess(iter_gain(g, goal, 7), clamp_gain(goal)) <= excess(g, clamp_gain(goal)),
{
    let c = clamp_gain(goal);
    let g1 = clamp_gain(gain_step(g, goal));
    lemma_step_contracts(g, goal);
    let g2 = clamp_gain(gain_step(g1, goal));
    lemma_step_contracts(g1, goal);
    let g3 = clamp_gain(gain_step(g2, goal));
    lemma_step_contracts(g2, goal);
    let g4 = clamp_gain(gain_step(g3, goal));
    lemma_step_contracts(g3, goal);
    let g5 = clamp_gain(gain_step(g4, goal));
    lemma_step_contracts(g4, goal);
    let g6 = clamp_gain(gain_step(g5, goal));
    lemma_step_contracts(g5, goal);
    let g7 = clamp_gain(gain_step(g6, goal));
    lemma_step_contracts(g6, goal);
    reveal_with_fuel(iter_gain, 8);
    assert(iter_gain(g, goal, 7) == g7);
    let (e0, e1, e2, e3, e4, e5, e6, e7) = (
        excess(g, c),
        excess(g1, c),
        excess(g2, c),
        excess(g3, c),
        excess(g4, c),
        excess(g5, c),
        excess(g6, c),
        excess(g7, c),
    );
    assert(10_000_000 * e7 <= 4_782_969 * e0) by (nonlinear_arith)
        requires
            10 * e1 <= 9 * e0,
            10 * e2 <= 9 * e1,
            10 * e3 <= 9 * e2,
            10 * e4 <= 9 * e3,
            10 * e5 <= 9 * e4,
            10 * e6 <= 9 * e5,
            10 * e7 <= 9 * e6,
            0 <= e0,
            0 <= e1,
            0 <= e2,
            0 <= e3,
            0 <= e4,
            0 <= e5,
            0 <= e6,
            0 <= e7,
    ;
}

proof fn lemma_blocks_halve(g: int, goal: int, n: nat)
    requires
        GAIN_MIN <= g <= GAIN_MAX,
        0 <= goal,
    ensures
        excess(iter_gain(g, goal, 7 * n), clamp_gain(goal)) * pow2(n) <= excess(g, clamp_gain(goal)),
    decreases n,
{
    let c = clamp_gain(goal);
    if n == 0 {
        lemma2_to64();
        reveal_with_fuel(iter_gain, 1);
    } else {
        let m = (n - 1) as nat;
        lemma_blocks_halve(g, goal, m);
        let x = iter_gain(g, goal, 7 * m);
        lemma_iter_in_range(g, goal, 7 * m);
        lemma_seven_steps_halve(x, goal);
        lemma_iter_compose(g, goal, 7 * m, 7);
        assert(7 * m + 7 == 7 * n);
        lemma_pow2_unfold(n);
        let a = excess(iter_gain(x, goal, 7), c);
        let b = excess(x, c);
        let p = pow2(m) as int;
        assert(a * (2 * p) <= excess(g, c)) by (nonlinear_arith)
            requires
                2 * a <= b,
                b * p <= excess(g, c),
                0 <= a,
                0 <= p,
        ;
    }
}

proof fn lemma_settled_stays(g: int, goal: int, n: nat)
    requires
        GAIN_MIN <= g <= GAIN_MAX,
        0 <= goal,
        excess(g, clamp_gain(goal)) == 0,
    ensures
        excess(iter_gain(g, goal, n), clamp_gain(goal)) == 0,
    decreases n,
{
    if n > 0 {
        lemma_step_contracts(g, goal);
        lemma_settled_stays(clamp_gain(gain_step(g, goal)), goal, (n - 1) as nat);
    }
}

proof fn lemma_constant_sum(h: Seq<u32>, level: u32)
    requires
        forall|i: int| 0 <= i < h.len() ==> h[i] == level,
    ensures
        sum_levels(h) == (h.len() as int) * (level as int),
    decreases h.len(),
{
    if h.len() > 0 {
        lemma_constant_sum(h.drop_last(), level);
        let k = h.len() as int;
        assert((k - 1) * (level as int) + level as int == k * (level as int)) by (nonlinear_arith);
    }
}

proof fn lemma_runs_as_steps(h: Seq<u32>, g: int, target: int, level: u32, n: nat)
    requires
        forall|i: int| 0 <= i < h.len() ==> h[i] == level,
        AGC_EPSILON < level,
    ensures
        gain_after(h, g, target, level, n) == iter_gain(g, target * (GAIN_ONE as int) / (level as int), n),
    decreases n,
{
    if n > 0 {
        let goal = target * (GAIN_ONE as int) / (level as int);
        let h1 = window_push(h, level);
        assert forall|i: int| 0 <= i < h1.len() implies h1[i] == level by {
            if h.len() >= AGC_HISTORY {
                assert(h1 == h.drop_first().push(level));
            }
        }
        lemma_constant_sum(h1, level);
        let k = h1.len() as int;
        assert(k >= 1);
        assert((k * (level as int)) / k == level as int) by (nonlinear_arith)
            requires
                k >= 1,
        ;
        assert(next_gain(g, h1, target) == clamp_gain(gain_step(g, goal)));
        lemma_runs_as_steps(h1, clamp_gain(gain_step(g, goal)), target, level, (n - 1) as nat);
    }
}

/// Convergence of the gain: feeding the same pre-gain loudness `level` over
/// and over, from a history that holds only that level (a fresh state holds
/// none), brings the gain within 0.009 of `target / level` after 200 updates,
/// or of the nearer bound of `[GAIN_MIN, GAIN_MAX]` when that ratio lies outside.
pub proof fn agc_converges(h: Seq<u32>, g: int, target: int, level: u32)
    requires
        forall|i: int| 0 <= i < h.len() ==> h[i] == level,
        AGC_EPSILON < level,
        0 <= target,
        GAIN_MIN <= g <= GAIN_MAX,
    ensures
        -9 <= gain_after(h, g, target, level, 200) - clamp_gain(target * (GAIN_ONE as int) / (level as int)) <= 9,
{
    let goal = target * (GAIN_ONE as int) / (level as int);
    assert(0 <= goal) by (nonlinear_arith)
        requires
            goal == target * 1000 / (level as int),
            0 <= target,
            level > 0,
    ;
    let c = clamp_gain(goal);
    lemma_runs_as_steps(h, g, target, level, 200);
    lemma_blocks_halve(g, goal, 28);
    lemma2_to64();
    let x = iter_gain(g, goal, 196);
    assert(7 * 28 == 196);
    assert(excess(g, c) <= 60_000);
    assert(excess(x, c) * 0x1000_0000 <= 60_000);
    assert(excess(x, c) == 0);
    lemma_iter_in_range(g, goal, 196);
    lemma_settled_stays(x, goal, 4);
    lemma_iter_compose(g, goal, 196, 4);
}

} // verus!
