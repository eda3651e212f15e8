//! The morph controller: a hold/transition state machine that cycles through
//! a catalog of surfaces, and the per-sample plan it hands to the renderer.
//!
//! All durations are whole microseconds.

use crate::lattice::{lattice_point, lattice_size, point_of, sample_count, LatticePoint};
use crate::smoothing::{smoothstep_weight, weight_at, Weight};
use crate::surface::SurfaceFunction;
use vstd::arithmetic::div_mod::{lemma_add_mod_noop, lemma_add_mod_noop_right, lemma_mod_pos_bound, lemma_mod_self_0, lemma_small_mod};
use vstd::prelude::*;

verus! {

/// The two regimes of the controller.
#[derive(Clone, Copy, Debug, PartialEq, Eq, Structural)]
pub enum Mode {
    /// One surface alone gives the positions.
    Holding,
    /// Positions blend from the previous surface to the active one.
    Transitioning,
}

/// How the surface that follows a hold is chosen.
#[derive(Clone, Copy, Debug, PartialEq, Eq, Structural)]
pub enum SelectionPolicy {
    /// The next entry of the catalog, wrapping around at its end.
    Sequential,
    /// The entry that a random draw picks (the draw modulo the catalog's
    /// length).
    Random,
}

/// The configuration a controller is built from; fixed for its lifetime.
#[derive(Clone, Debug)]
pub struct Config {
    /// Samples per side of the lattice.
    pub resolution: u32,
    /// How long one surface is held, in microseconds.
    pub hold_micros: u32,
    /// How long a transition lasts, in microseconds.
    pub transition_micros: u32,
    /// The surfaces to cycle through, in order.
    pub catalog: Vec<SurfaceFunction>,
    pub policy: SelectionPolicy,
    /// The regime the controller starts in.
    pub initial_mode: Mode,
}

/// Why a configuration was refused.
#[derive(Clone, Copy, Debug, PartialEq, Eq, Structural)]
pub enum ConfigurationError {
    EmptyCatalog,
    ZeroResolution,
    ZeroHoldDuration,
    ZeroTransitionDuration,
}

/// A sample index beyond the lattice.
#[derive(Clone, Copy, Debug, PartialEq, Eq, Structural)]
pub struct IndexError {
    pub index: u64,
    pub sample_count: u64,
}

/// The mutable part of a controller.
#[derive(Clone, Copy, Debug, PartialEq, Eq, Structural)]
pub struct CyclerState {
    pub mode: Mode,
    /// Index into the catalog of the surface that is held, or that the
    /// current transition moves toward.
    pub active_index: usize,
    pub active: SurfaceFunction,
    /// The surface the current transition moves away from.
    pub previous: SurfaceFunction,
    /// Microseconds spent in the current regime.
    pub phase: u64,
}

/// What one sample shows: one surface, or a blend of two.
#[derive(Clone, Copy, Debug, PartialEq, Eq, Structural)]
pub enum Evaluation {
    Direct(SurfaceFunction),
    /// `from + (to − from)·weight`, coordinate by coordinate.
    Blend { from: SurfaceFunction, to: SurfaceFunction, weight: Weight },
}

/// The plan for one sample at one instant: where it lies in the lattice, the
/// time to evaluate at, and what to evaluate.
#[derive(Clone, Copy, Debug, PartialEq, Eq, Structural)]
pub struct Sample {
    pub point: LatticePoint,
    pub time_micros: u64,
    pub evaluation: Evaluation,
}

impl Config {
    /// A configuration a controller can run on.
    pub open spec fn valid(&self) -> bool {
        &&& 1 <= self.catalog@.len() <= usize::MAX
        &&& self.resolution > 0
        &&& self.hold_micros > 0
        &&& self.transition_micros > 0
    }

    /// The first fault of a configuration, if any.
    pub open spec fn first_error(&self) -> Option<ConfigurationError> {
        if self.catalog@.len() == 0 {
            Some(ConfigurationError::EmptyCatalog)
        } else if self.resolution == 0 {
            Some(ConfigurationError::ZeroResolution)
        } else if self.hold_micros == 0 {
            Some(ConfigurationError::ZeroHoldDuration)
        } else if self.transition_micros == 0 {
            Some(ConfigurationError::ZeroTransitionDuration)
        } else {
            None
        }
    }

    /// How long the regime `m` lasts.
    pub open spec fn duration_of(&self, m: Mode) -> int {
        match m {
            Mode::Holding => self.hold_micros as int,
            Mode::Transitioning => self.transition_micros as int,
        }
    }

    /// The catalog index that follows `i`, given a random draw.
    pub open spec fn next_index(&self, i: int, draw: u64) -> int {
        match self.policy {
            SelectionPolicy::Sequential => (i + 1) % (self.catalog@.len() as int),
            SelectionPolicy::Random => draw as int % (self.catalog@.len() as int),
        }
    }

    /// The state a controller starts in: phase 0, in the configured regime,
    /// with the first surface of the catalog as both active and previous.
    pub open spec fn initial_state(&self) -> CyclerState {
        CyclerState {
            mode: self.initial_mode,
            active_index: 0,
            active: self.catalog@[0],
            previous: self.catalog@[0],
            phase: 0,
        }
    }

    /// `s` points into the catalog.
    pub open spec fn fits(&self, s: CyclerState) -> bool {
        &&& s.active_index < self.catalog@.len()
        &&& s.active == self.catalog@[s.active_index as int]
    }
}

/// The other regime.
pub open spec fn other(m: Mode) -> Mode {
    match m {
        Mode::Holding => Mode::Transitioning,
        Mode::Transitioning => Mode::Holding,
    }
}

/// The state after one tick of `elapsed` microseconds. The phase grows by
/// `elapsed`; once it reaches the current regime's duration, that duration is
/// taken off it (the excess is carried) and the regime switches. Leaving a
/// hold also moves on to the next surface of the catalog.
pub open spec fn advanced(cfg: Config, s: CyclerState, elapsed: u64, draw: u64) -> CyclerState {
    let p = s.phase + elapsed;
    match s.mode {
        Mode::Holding => {
            if p >= cfg.hold_micros {
                let i = cfg.next_index(s.active_index as int, draw);
                CyclerState {
                    mode: Mode::Transitioning,
                    active_index: i as usize,
                    active: cfg.catalog@[i],
                    previous: s.active,
                    phase: (p - cfg.hold_micros) as u64,
                }
            } else {
                CyclerState { phase: p as u64, ..s }
            }
        },
        Mode::Transitioning => {
            if p >= cfg.transition_micros {
                CyclerState { mode: Mode::Holding, phase: (p - cfg.transition_micros) as u64, ..s }
            } else {
                CyclerState { phase: p as u64, ..s }
            }
        },
    }
}

/// What a sample shows in state `s`.
pub open spec fn evaluation_of(cfg: Config, s: CyclerState) -> Evaluation {
    match s.mode {
        Mode::Holding => Evaluation::Direct(s.active),
        Mode::Transitioning => Evaluation::Blend {
            from: s.previous,
            to: s.active,
            weight: weight_at(s.phase as int, cfg.transition_micros as int),
        },
    }
}

/// The plan for sample `k` at time `t` in state `s`.
pub open spec fn sample_of(cfg: Config, s: CyclerState, k: int, t: u64) -> Sample {
    Sample {
        point: point_of(k, cfg.resolution as int),
        time_micros: t,
        evaluation: evaluation_of(cfg, s),
    }
}

/// A controller: its configuration and its current state.
pub struct Controller {
    config: Config,
    state: CyclerState,
}

impl Controller {
    pub closed spec fn spec_config(&self) -> Config {
        self.config
    }

    pub closed spec fn spec_state(&self) -> CyclerState {
        self.state
    }

    pub open spec fn wf(&self) -> bool {
        self.spec_config().valid() && self.spec_config().fits(self.spec_state())
    }

    /// Builds a controller, or says what is wrong with the configuration.
    pub fn new(config: Config) -> (r: Result<Controller, ConfigurationError>)
        ensures
            r is Ok <==> config.first_error() is None,
            r is Ok <==> config.valid(),
            match r {
                Ok(c) => c.wf() && c.spec_config() == config && c.spec_state()
                    == config.initial_state(),
                Err(e) => config.first_error() == Some(e),
            },
    {
        if config.catalog.len() == 0 {
            return Err(ConfigurationError::EmptyCatalog);
        }
        if config.resolution == 0 {
            return Err(ConfigurationError::ZeroResolution);
        }
        if config.hold_micros == 0 {
            return Err(ConfigurationError::ZeroHoldDuration);
        }
        if config.transition_micros == 0 {
            return Err(ConfigurationError::ZeroTransitionDuration);
        }
        let first = config.catalog[0];
        let state = CyclerState {
            mode: config.initial_mode,
            active_index: 0,
            active: first,
            previous: first,
            phase: 0,
        };
        Ok(Controller { config, state })
    }

    /// The configuration.
    pub fn config(&self) -> (r: &Config)
        ensures
            *r == self.spec_config(),
    {
        &self.config
    }

    /// The current state.
    pub fn state(&self) -> (r: CyclerState)
        ensures
            r == self.spec_state(),
    {
        self.state
    }

    /// The number of samples of the lattice.
    pub fn sample_count(&self) -> (n: u64)
        ensures
            n == sample_count(self.spec_config().resolution as int),
    {
        lattice_size(self.config.resolution)
    }

    /// The catalog index after the current one; `draw` is used only under
    /// the random policy.
    fn next_index(&self, draw: u64) -> (r: usize)
        requires
            self.wf(),
        ensures
            r == self.spec_config().next_index(self.spec_state().active_index as int, draw),
            r < self.spec_config().catalog@.len(),
    {
        let len = self.config.catalog.len();
        match self.config.policy {
            SelectionPolicy::Sequential => (self.state.active_index + 1) % len,
            SelectionPolicy::Random => (draw % (len as u64)) as usize,
        }
    }

    /// Advances the controller by `elapsed` microseconds. `draw` is a random
    /// number that picks the next surface under the random policy; the
    /// sequential policy ignores it.
    pub fn tick(&mut self, elapsed: u64, draw: u64)
        requires
            old(self).wf(),
            old(self).spec_state().phase + elapsed <= u64::MAX,
        ensures
            final(self).wf(),
            final(self).spec_config() == old(self).spec_config(),
            final(self).spec_state() == advanced(
                old(self).spec_config(),
                old(self).spec_state(),
                elapsed,
                draw,
            ),
    {
        let p = self.state.phase + elapsed;
        match self.state.mode {
            Mode::Holding => {
                if p >= self.config.hold_micros as u64 {
                    let i = self.next_index(draw);
                    let next = self.config.catalog[i];
                    self.state = CyclerState {
                        mode: Mode::Transitioning,
                        active_index: i,
                        active: next,
                        previous: self.state.active,
                        phase: p - self.config.hold_micros as u64,
                    };
                } else {
                    self.state.phase = p;
                }
            },
            Mode::Transitioning => {
                if p >= self.config.transition_micros as u64 {
                    self.state.mode = Mode::Holding;
                    self.state.phase = p - self.config.transition_micros as u64;
                } else {
                    self.state.phase = p;
                }
            },
        }
    }

    /// What every sample shows in the current state.
    pub fn evaluation(&self) -> (r: Evaluation)
        requires
            self.wf(),
        ensures
            r == evaluation_of(self.spec_config(), self.spec_state()),
    {
        match self.state.mode {
            Mode::Holding => Evaluation::Direct(self.state.active),
            Mode::Transitioning => Evaluation::Blend {
                from: self.state.previous,
                to: self.state.active,
                weight: smoothstep_weight(self.state.phase, self.config.transition_micros),
            },
        }
    }

    /// The plan for sample `index` at `total_micros` since start, or an
    /// error when the index lies beyond the lattice.
    pub fn evaluate(&self, index: u64, total_micros: u64) -> (r: Result<Sample, IndexError>)
        requires
            self.wf(),
        ensures
            r is Ok <==> index < sample_count(self.spec_config().resolution as int),
            match r {
                Ok(s) => s == sample_of(
                    self.spec_config(),
                    self.spec_state(),
                    index as int,
                    total_micros,
                ),
                Err(e) => e == IndexError {
                    index,
                    sample_count: sample_count(self.spec_config().resolution as int) as u64,
                },
            },
    {
        let n = self.sample_count();
        if index >= n {
            return Err(IndexError { index, sample_count: n });
        }
        let point = lattice_point(index, self.config.resolution);
        Ok(Sample { point, time_micros: total_micros, evaluation: self.evaluation() })
    }

    /// The plans for all samples at `total_micros` since start, in
    /// row-major order.
    pub fn evaluate_all(&self, total_micros: u64) -> (r: Vec<Sample>)
        requires
            self.wf(),
        ensures
            r@.len() == sample_count(self.spec_config().resolution as int),
            forall|k: int|
                0 <= k < r@.len() ==> r@[k] == sample_of(
                    self.spec_config(),
                    self.spec_state(),
                    k,
                    total_micros,
                ),
    {
        let n = self.sample_count();
        let evaluation = self.evaluation();
        let mut r: Vec<Sample> = Vec::new();
        let mut k: u64 = 0;
        while k < n
            invariant
                self.wf(),
                n == sample_count(self.spec_config().resolution as int),
                evaluation == evaluation_of(self.spec_config(), self.spec_state()),
                k <= n,
                r@.len() == k,
                forall|j: int|
                    0 <= j < k ==> r@[j] == sample_of(
                        self.spec_config(),
                        self.spec_state(),
                        j,
                        total_micros,
                    ),
            decreases n - k,
        {
            let point = lattice_point(k, self.config.resolution);
            r.push(Sample { point, time_micros: total_micros, evaluation });
            k = k + 1;
        }
        r
    }
}

/// The state after a sequence of ticks, each an elapsed time and a draw,
/// taken in order.
pub open spec fn run(cfg: Config, s: CyclerState, ticks: Seq<(u64, u64)>) -> CyclerState
    decreases ticks.len(),
{
    if ticks.len() == 0 {
        s
    } else {
        let last = ticks.last();
        advanced(cfg, run(cfg, s, ticks.drop_last()), last.0, last.1)
    }
}

/// No tick of the sequence overshoots two regimes at once: the phase before
/// it plus its elapsed time stays below the current regime's duration plus
/// the other's.
pub open spec fn carries_once(cfg: Config, s: CyclerState, ticks: Seq<(u64, u64)>) -> bool
    decreases ticks.len(),
{
    if ticks.len() == 0 {
        true
    } else {
        let before = run(cfg, s, ticks.drop_last());
        &&& carries_once(cfg, s, ticks.drop_last())
        &&& before.phase + ticks.last().0 < cfg.duration_of(before.mode) + cfg.duration_of(
            other(before.mode),
        )
    }
}

/// `k` full cycles, each a tick of exactly one hold then a tick of exactly
/// one transition.
pub open spec fn full_cycles(cfg: Config, k: nat) -> Seq<(u64, u64)>
    decreases k,
{
    if k == 0 {
        Seq::empty()
    } else {
        full_cycles(cfg, (k - 1) as nat).push((cfg.hold_micros as u64, 0u64)).push(
            (cfg.transition_micros as u64, 0u64),
        )
    }
}

/// The phase stays below the duration of the current regime: starting from
/// such a state, it still holds after any sequence of ticks in which no
/// single tick overshoots two regimes at once.
pub proof fn lemma_phase_below_duration(cfg: Config, s: CyclerState, ticks: Seq<(u64, u64)>)
    requires
        cfg.valid(),
        s.phase < cfg.duration_of(s.mode),
        carries_once(cfg, s, ticks),
    ensures
        run(cfg, s, ticks).phase < cfg.duration_of(run(cfg, s, ticks).mode),
    decreases ticks.len(),
{
    if ticks.len() > 0 {
        lemma_phase_below_duration(cfg, s, ticks.drop_last());
    }
}

/// The index that follows a hold always lies in the catalog.
proof fn lemma_next_index_in_catalog(cfg: Config, i: int, draw: u64)
    requires
        cfg.valid(),
        0 <= i,
    ensures
        0 <= cfg.next_index(i, draw) < cfg.catalog@.len(),
{
    lemma_mod_pos_bound(i + 1, cfg.catalog@.len() as int);
    lemma_mod_pos_bound(draw as int, cfg.catalog@.len() as int);
}

/// Every state a run reaches still points into the catalog.
pub proof fn lemma_run_fits(cfg: Config, s: CyclerState, ticks: Seq<(u64, u64)>)
    requires
        cfg.valid(),
        cfg.fits(s),
    ensures
        cfg.fits(run(cfg, s, ticks)),
    decreases ticks.len(),
{
    if ticks.len() > 0 {
        lemma_run_fits(cfg, s, ticks.drop_last());
        let before = run(cfg, s, ticks.drop_last());
        lemma_next_index_in_catalog(cfg, before.active_index as int, ticks.last().1);
    }
}

/// Under the sequential policy the draws play no part: from the same state,
/// the same elapsed times lead to the same state, and so to the same plan
/// for every sample at every time.
pub proof fn lemma_sequential_deterministic(
    cfg: Config,
    s: CyclerState,
    a: Seq<(u64, u64)>,
    b: Seq<(u64, u64)>,
)
    requires
        cfg.policy == SelectionPolicy::Sequential,
        a.len() == b.len(),
        forall|i: int| 0 <= i < a.len() ==> (#[trigger] a[i]).0 == b[i].0,
    ensures
        run(cfg, s, a) == run(cfg, s, b),
        forall|k: int, t: u64|
            sample_of(cfg, run(cfg, s, a), k, t) == #[trigger] sample_of(
                cfg,
                run(cfg, s, b),
                k,
                t,
            ),
    decreases a.len(),
{
    if a.len() > 0 {
        let a0 = a.drop_last();
        let b0 = b.drop_last();
        assert forall|i: int| 0 <= i < a0.len() implies (#[trigger] a0[i]).0 == b0[i].0 by {
            assert(a0[i] == a[i]);
            assert(b0[i] == b[i]);
        }
        lemma_sequential_deterministic(cfg, s, a0, b0);
        assert(a.last().0 == b.last().0) by {
            assert(a[a.len() - 1].0 == b[a.len() - 1].0);
        }
    }
}

/// After `k` full cycles from the start of a hold, the controller is back
/// at the start of a hold, `k` entries further along the catalog.
pub proof fn lemma_full_cycles_advance(cfg: Config, s: CyclerState, k: nat)
    requires
        cfg.valid(),
        cfg.policy == SelectionPolicy::Sequential,
        cfg.fits(s),
        s.mode == Mode::Holding,
        s.phase == 0,
    ensures
        run(cfg, s, full_cycles(cfg, k)).mode == Mode::Holding,
        run(cfg, s, full_cycles(cfg, k)).phase == 0,
        run(cfg, s, full_cycles(cfg, k)).active_index as int == (s.active_index + k) % (
        cfg.catalog@.len() as int),
    decreases k,
{
    let m = cfg.catalog@.len() as int;
    if k == 0 {
        lemma_small_mod(s.active_index as nat, m as nat);
    } else {
        let prev = full_cycles(cfg, (k - 1) as nat);
        let ticks = full_cycles(cfg, k);
        let hold = (cfg.hold_micros as u64, 0u64);
        assert(ticks.drop_last() =~= prev.push(hold));
        assert(prev.push(hold).drop_last() =~= prev);
        lemma_full_cycles_advance(cfg, s, (k - 1) as nat);
        let start = run(cfg, s, prev);
        let mid = run(cfg, s, prev.push(hold));
        assert(mid == advanced(cfg, start, cfg.hold_micros as u64, 0));
        assert(run(cfg, s, ticks) == advanced(cfg, mid, cfg.transition_micros as u64, 0));
        let x = s.active_index + k - 1;
        lemma_mod_pos_bound(x, m);
        lemma_next_index_in_catalog(cfg, start.active_index as int, 0);
        lemma_add_mod_noop_right(1, x, m);
    }
}

/// Wraparound: under the sequential policy, as many full cycles as the
/// catalog has entries bring the controller back to the surface it held
/// at the start.
pub proof fn lemma_cycles_wrap_around(cfg: Config, s: CyclerState)
    requires
        cfg.valid(),
        cfg.policy == SelectionPolicy::Sequential,
        cfg.fits(s),
        s.mode == Mode::Holding,
        s.phase == 0,
    ensures
        run(cfg, s, full_cycles(cfg, cfg.catalog@.len())).active_index == s.active_index,
        run(cfg, s, full_cycles(cfg, cfg.catalog@.len())).active == s.active,
        run(cfg, s, full_cycles(cfg, cfg.catalog@.len())).mode == Mode::Holding,
{
    let m = cfg.catalog@.len() as int;
    lemma_full_cycles_advance(cfg, s, cfg.catalog@.len());
    lemma_run_fits(cfg, s, full_cycles(cfg, cfg.catalog@.len()));
    lemma_add_mod_noop(s.active_index as int, m, m);
    lemma_mod_self_0(m);
    lemma_small_mod(s.active_index as nat, m as nat);
}

} // verus!
