use rustlikecoding::cycler::{
    Config, ConfigurationError, Controller, CyclerState, Evaluation, IndexError, Mode,
    SelectionPolicy,
};
use rustlikecoding::lattice::{Coord, LatticePoint};
use rustlikecoding::smoothing::Weight;
use rustlikecoding::surface::{standard_catalog, SurfaceFunction};

const SECOND: u32 = 1_000_000;

fn config(catalog: Vec<SurfaceFunction>, policy: SelectionPolicy, initial_mode: Mode) -> Config {
    Config {
        resolution: 2,
        hold_micros: SECOND,
        transition_micros: SECOND,
        catalog,
        policy,
        initial_mode,
    }
}

fn controller(catalog: Vec<SurfaceFunction>, policy: SelectionPolicy, mode: Mode) -> Controller {
    Controller::new(config(catalog, policy, mode)).unwrap()
}

#[test]
fn hold_then_transition_scenario() {
    let mut c = controller(
        vec![SurfaceFunction::Wave, SurfaceFunction::Ripple],
        SelectionPolicy::Sequential,
        Mode::Holding,
    );
    c.tick(500_000, 0);
    assert_eq!(c.state().mode, Mode::Holding);
    let s = c.evaluate(0, 500_000).unwrap();
    let corner = Coord { num: -1, den: 2 };
    assert_eq!(s.point, LatticePoint { column: 0, row: 0, u: corner, v: corner });
    assert_eq!(s.time_micros, 500_000);
    assert_eq!(s.evaluation, Evaluation::Direct(SurfaceFunction::Wave));

    c.tick(600_000, 0);
    assert_eq!(
        c.state(),
        CyclerState {
            mode: Mode::Transitioning,
            active_index: 1,
            active: SurfaceFunction::Ripple,
            previous: SurfaceFunction::Wave,
            phase: 100_000,
        }
    );
    let s = c.evaluate(0, 1_100_000).unwrap();
    // smoothstep(0.1) = 0.01 · 2.8 = 0.028
    let weight = Weight { num: 28_000_000_000_000_000, den: 1_000_000_000_000_000_000 };
    assert_eq!(
        s.evaluation,
        Evaluation::Blend { from: SurfaceFunction::Wave, to: SurfaceFunction::Ripple, weight }
    );
}

#[test]
fn starts_with_first_entry_as_both_surfaces() {
    let c = controller(standard_catalog(), SelectionPolicy::Sequential, Mode::Transitioning);
    let s = c.state();
    assert_eq!(s.mode, Mode::Transitioning);
    assert_eq!(s.active_index, 0);
    assert_eq!(s.active, SurfaceFunction::Wave);
    assert_eq!(s.previous, SurfaceFunction::Wave);
    assert_eq!(s.phase, 0);
    let w = Weight { num: 0, den: 1_000_000_000_000_000_000 };
    assert_eq!(
        c.evaluation(),
        Evaluation::Blend { from: SurfaceFunction::Wave, to: SurfaceFunction::Wave, weight: w }
    );
}

#[test]
fn transition_ends_in_hold_with_excess_carried() {
    let mut c = controller(standard_catalog(), SelectionPolicy::Sequential, Mode::Transitioning);
    c.tick(1_250_000, 0);
    assert_eq!(c.state().mode, Mode::Holding);
    assert_eq!(c.state().phase, 250_000);
    assert_eq!(c.state().active, SurfaceFunction::Wave);
    assert_eq!(c.evaluation(), Evaluation::Direct(SurfaceFunction::Wave));
}

#[test]
fn phase_reaching_duration_exactly_switches() {
    let mut c = controller(standard_catalog(), SelectionPolicy::Sequential, Mode::Holding);
    c.tick(999_999, 0);
    assert_eq!(c.state().mode, Mode::Holding);
    c.tick(1, 0);
    assert_eq!(c.state().mode, Mode::Transitioning);
    assert_eq!(c.state().phase, 0);
    assert_eq!(c.state().active, SurfaceFunction::MultiWave);
}

#[test]
fn five_full_cycles_wrap_around() {
    let mut c = controller(standard_catalog(), SelectionPolicy::Sequential, Mode::Holding);
    let expected = [
        SurfaceFunction::MultiWave,
        SurfaceFunction::Ripple,
        SurfaceFunction::Sphere,
        SurfaceFunction::Torus,
        SurfaceFunction::Wave,
    ];
    for next in expected {
        c.tick(SECOND as u64, 0);
        assert_eq!(c.state().mode, Mode::Transitioning);
        assert_eq!(c.state().active, next);
        c.tick(SECOND as u64, 0);
        assert_eq!(c.state().mode, Mode::Holding);
    }
    assert_eq!(c.state().active_index, 0);
    assert_eq!(c.state().phase, 0);
}

#[test]
fn sequential_controllers_agree() {
    let mut a = controller(standard_catalog(), SelectionPolicy::Sequential, Mode::Holding);
    let mut b = controller(standard_catalog(), SelectionPolicy::Sequential, Mode::Holding);
    let steps: [u64; 8] = [16_667, 700_000, 450_000, 999_999, 33_333, 1_000_000, 5, 640_000];
    let mut total: u64 = 0;
    for (i, e) in steps.iter().enumerate() {
        total += e;
        a.tick(*e, i as u64);
        b.tick(*e, 1_000 + 7 * i as u64);
        assert_eq!(a.state(), b.state());
        assert_eq!(a.evaluate_all(total), b.evaluate_all(total));
    }
}

#[test]
fn random_policy_uses_draw() {
    let mut c = controller(standard_catalog(), SelectionPolicy::Random, Mode::Holding);
    c.tick(SECOND as u64, 13);
    assert_eq!(c.state().active_index, 3);
    assert_eq!(c.state().active, SurfaceFunction::Sphere);
    assert_eq!(c.state().previous, SurfaceFunction::Wave);
}

#[test]
fn phase_stays_below_duration() {
    let mut c = controller(standard_catalog(), SelectionPolicy::Sequential, Mode::Holding);
    for e in [300_000u64, 900_000, 1_000_000, 2_000, 999_999, 123_456, 1_000_000] {
        c.tick(e, 0);
        assert!(c.state().phase < SECOND as u64);
    }
}

#[test]
fn configuration_errors() {
    let e = Controller::new(config(vec![], SelectionPolicy::Sequential, Mode::Holding));
    assert_eq!(e.err(), Some(ConfigurationError::EmptyCatalog));

    let mut cfg = config(standard_catalog(), SelectionPolicy::Sequential, Mode::Holding);
    cfg.resolution = 0;
    assert_eq!(Controller::new(cfg).err(), Some(ConfigurationError::ZeroResolution));

    let mut cfg = config(standard_catalog(), SelectionPolicy::Sequential, Mode::Holding);
    cfg.hold_micros = 0;
    assert_eq!(Controller::new(cfg).err(), Some(ConfigurationError::ZeroHoldDuration));

    let mut cfg = config(standard_catalog(), SelectionPolicy::Sequential, Mode::Holding);
    cfg.transition_micros = 0;
    assert_eq!(Controller::new(cfg).err(), Some(ConfigurationError::ZeroTransitionDuration));
}

#[test]
fn empty_catalog_reported_first() {
    let mut cfg = config(vec![], SelectionPolicy::Sequential, Mode::Holding);
    cfg.resolution = 0;
    cfg.hold_micros = 0;
    assert_eq!(Controller::new(cfg).err(), Some(ConfigurationError::EmptyCatalog));
}

#[test]
fn sample_index_out_of_range() {
    let c = controller(standard_catalog(), SelectionPolicy::Sequential, Mode::Holding);
    assert_eq!(c.sample_count(), 4);
    assert!(c.evaluate(3, 0).is_ok());
    assert_eq!(c.evaluate(4, 0), Err(IndexError { index: 4, sample_count: 4 }));
}

#[test]
fn evaluate_all_walks_rows() {
    let mut cfg = config(standard_catalog(), SelectionPolicy::Sequential, Mode::Holding);
    cfg.resolution = 3;
    let c = Controller::new(cfg).unwrap();
    let all = c.evaluate_all(42);
    assert_eq!(all.len(), 9);
    assert_eq!(all[1].point.column, 1);
    assert_eq!(all[1].point.row, 0);
    assert_eq!(all[5].point.column, 2);
    assert_eq!(all[5].point.row, 1);
    assert_eq!(all[5].point.u, Coord { num: 2, den: 3 });
    assert_eq!(all[5].point.v, Coord { num: 0, den: 3 });
    for (k, s) in all.iter().enumerate() {
        assert_eq!(*s, c.evaluate(k as u64, 42).unwrap());
        assert_eq!(s.time_micros, 42);
    }
}
