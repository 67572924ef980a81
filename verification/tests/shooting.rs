use sim_quantum::numeric::fixed::Fixed;
use sim_quantum::numeric::fixed::ONE_RAW;
use sim_quantum::physics::solvers::shooting::Parity;
use sim_quantum::physics::solvers::search::Sign;
use sim_quantum::physics::solvers::shooting::ShootingConfig;
use sim_quantum::physics::solvers::shooting::ShootingSolver;
use sim_quantum::physics::solvers::SolveError;

type Potential = fn(Fixed) -> Fixed;

fn to_f64(x: Fixed) -> f64 {
    x.raw() as f64 / 18446744073709551616.0
}

fn free(_x: Fixed) -> Fixed {
    Fixed::zero()
}

fn constant_five(_x: Fixed) -> Fixed {
    Fixed::from_int(5)
}

fn ramp(x: Fixed) -> Fixed {
    x
}

fn harmonic(x: Fixed) -> Fixed {
    x.saturating_mul(x).halve()
}

/// A well of width one and depth `10^9` about the origin.
fn deep_well(x: Fixed) -> Fixed {
    if x.exceeds(Fixed::from_ratio(1, 2)) || x.saturating_abs() == Fixed::from_ratio(1, 2) {
        Fixed::from_int(1_000_000_000)
    } else {
        Fixed::zero()
    }
}

fn config(
    x_max: Fixed,
    step_size: Fixed,
    initial_energy: Fixed,
    potential: Potential,
    parity: Parity,
) -> ShootingConfig<Potential> {
    ShootingConfig {
        x_max,
        step_size,
        initial_energy,
        intitial_energy_step_size: Fixed::from_ratio(1, 10),
        wavefunction_cutoff: Fixed::from_int(100),
        potential,
        energy_step_size_cutoff: Fixed::from_ratio(1, 1000),
        parity,
        max_iterations: 1000,
    }
}

fn oscillator(parity: Parity, max_iterations: usize) -> ShootingConfig<Potential> {
    let mut c = config(
        Fixed::from_int(5),
        Fixed::from_ratio(1, 100),
        Fixed::zero(),
        harmonic,
        parity,
    );
    c.max_iterations = max_iterations;
    c
}

fn square_well(parity: Parity) -> ShootingConfig<Potential> {
    ShootingConfig {
        x_max: Fixed::from_ratio(55, 100),
        step_size: Fixed::from_ratio(115, 1000000),
        initial_energy: Fixed::zero(),
        intitial_energy_step_size: Fixed::from_ratio(1, 10),
        wavefunction_cutoff: Fixed::from_int(100),
        potential: deep_well,
        energy_step_size_cutoff: Fixed::from_ratio(1, 1000000),
        parity,
        max_iterations: 100000,
    }
}

#[test]
fn new_solver_starts_from_the_configuration() {
    let c = oscillator(Parity::Even, 7);
    let solver = ShootingSolver::new(&c);
    assert_eq!(solver.energy(), Fixed::zero());
    assert_eq!(solver.energy_step_size(), Fixed::from_ratio(1, 10));
    assert_eq!(solver.last_diverge(), Sign::Unseen);
    assert!(solver.wavefunction().is_empty());
    assert!(solver.wavefunction_points().is_empty());
    assert_eq!(solver.config.max_iterations, 7);
    assert_eq!(solver.config.x_max, Fixed::from_int(5));
}

#[test]
fn sample_count_is_rounded_quotient_plus_one() {
    assert_eq!(square_well(Parity::Even).sample_count(), 4784);
    assert_eq!(oscillator(Parity::Even, 0).sample_count(), 501);
    let c = config(Fixed::from_int(5), Fixed::from_int(2), Fixed::zero(), free, Parity::Even);
    assert_eq!(c.sample_count(), 4);
    let c = config(Fixed::from_ratio(49, 10), Fixed::from_int(2), Fixed::zero(), free, Parity::Even);
    assert_eq!(c.sample_count(), 3);
}

#[test]
fn sample_count_of_a_degenerate_grid_is_one() {
    let c = config(Fixed::from_int(5), Fixed::zero(), Fixed::zero(), free, Parity::Even);
    assert_eq!(c.sample_count(), 1);
    let c = config(Fixed::from_int(5), Fixed::from_int(-1), Fixed::zero(), free, Parity::Even);
    assert_eq!(c.sample_count(), 1);
    let c = config(Fixed::from_int(-5), Fixed::from_int(1), Fixed::zero(), free, Parity::Even);
    assert_eq!(c.sample_count(), 1);
    let c = config(Fixed::from_ratio(1, 4), Fixed::from_int(1), Fixed::zero(), free, Parity::Even);
    assert_eq!(c.sample_count(), 1);
}

#[test]
fn validate_accepts_a_well_formed_configuration() {
    assert_eq!(square_well(Parity::Even).validate(), Ok(()));
    assert_eq!(oscillator(Parity::Odd, 0).validate(), Ok(()));
    let c = config(Fixed::from_ratio(1, 2), Fixed::from_int(1), Fixed::zero(), free, Parity::Even);
    assert_eq!(c.validate(), Ok(()));
}

#[test]
fn validate_rejects_a_step_size_that_is_not_positive() {
    let c = config(Fixed::from_int(5), Fixed::zero(), Fixed::zero(), free, Parity::Even);
    assert_eq!(c.validate(), Err(SolveError::InvalidConfiguration));
    let c = config(Fixed::from_int(5), Fixed::from_int(-1), Fixed::zero(), free, Parity::Even);
    assert_eq!(c.validate(), Err(SolveError::InvalidConfiguration));
}

#[test]
fn validate_rejects_a_grid_of_one_point() {
    let c = config(Fixed::from_int(-5), Fixed::from_int(1), Fixed::zero(), free, Parity::Even);
    assert_eq!(c.validate(), Err(SolveError::InvalidConfiguration));
    let c = config(Fixed::from_ratio(1, 4), Fixed::from_int(1), Fixed::zero(), free, Parity::Even);
    assert_eq!(c.validate(), Err(SolveError::InvalidConfiguration));
    let c = config(Fixed::zero(), Fixed::from_int(1), Fixed::zero(), free, Parity::Even);
    assert_eq!(c.validate(), Err(SolveError::InvalidConfiguration));
}

#[test]
fn validate_rejects_a_grid_that_leaves_the_range() {
    let c = config(
        Fixed::from_raw(i128::MAX),
        Fixed::from_raw(i128::MAX - 1),
        Fixed::zero(),
        free,
        Parity::Even,
    );
    assert_eq!(c.sample_count(), 2);
    assert_eq!(c.validate(), Ok(()));
    let c = config(
        Fixed::from_raw(i128::MAX),
        Fixed::from_raw(i128::MAX / 3 * 2),
        Fixed::zero(),
        free,
        Parity::Even,
    );
    assert_eq!(c.sample_count(), 3);
    assert_eq!(c.validate(), Err(SolveError::InvalidConfiguration));
}

#[test]
fn validate_rejects_more_points_than_can_be_counted() {
    let c = config(Fixed::from_raw(i128::MAX), Fixed::from_raw(1), Fixed::zero(), free, Parity::Even);
    assert_eq!(c.sample_count(), usize::MAX);
    assert_eq!(c.validate(), Err(SolveError::InvalidConfiguration));
}

#[test]
fn even_seeds_are_one_and_one() {
    let mut solver = ShootingSolver::new(&oscillator(Parity::Even, 0));
    solver.reset_wavefunction();
    assert_eq!(solver.wavefunction(), &vec![Fixed::one(), Fixed::one()]);
}

#[test]
fn odd_seeds_are_zero_and_the_step_size() {
    let mut solver = ShootingSolver::new(&oscillator(Parity::Odd, 0));
    solver.reset_wavefunction();
    assert_eq!(solver.wavefunction(), &vec![Fixed::zero(), Fixed::from_ratio(1, 100)]);
}

#[test]
fn reset_wavefunction_discards_earlier_samples() {
    let mut solver = ShootingSolver::new(&oscillator(Parity::Even, 0));
    solver.compute_wavefunction();
    assert_eq!(solver.wavefunction().len(), 346);
    solver.reset_wavefunction();
    assert_eq!(solver.wavefunction().len(), 2);
}

#[test]
fn step_applies_the_recurrence() {
    // psi2 = 2 h - 0 - 2 (2 - 5) h^2 h, with h^2 rounded to 2^-64.
    let c = config(
        Fixed::from_int(1),
        Fixed::from_ratio(1, 100),
        Fixed::from_int(2),
        constant_five,
        Parity::Odd,
    );
    let mut solver = ShootingSolver::new(&c);
    solver.reset_wavefunction();
    solver.step();
    assert_eq!(solver.wavefunction().len(), 3);
    assert_eq!(solver.wavefunction()[2].raw(), 369045561938633289);
    assert_eq!(solver.energy(), Fixed::from_int(2));
}

#[test]
fn step_evaluates_the_potential_at_the_last_grid_point() {
    // h = 1/4, E = 1/2, V(x) = x: 1, 1, 31/32, 15/16, 479/512.
    let c = config(
        Fixed::from_int(1),
        Fixed::from_ratio(1, 4),
        Fixed::from_ratio(1, 2),
        ramp,
        Parity::Even,
    );
    let mut solver = ShootingSolver::new(&c);
    solver.reset_wavefunction();
    solver.step();
    solver.step();
    solver.step();
    let expected = vec![
        Fixed::one(),
        Fixed::one(),
        Fixed::from_ratio(31, 32),
        Fixed::from_ratio(15, 16),
        Fixed::from_ratio(479, 512),
    ];
    assert_eq!(solver.wavefunction(), &expected);
    solver.compute_wavefunction();
    assert_eq!(solver.wavefunction(), &expected);
}

#[test]
fn is_diverging_compares_the_last_sample_with_the_cutoff() {
    let mut c = config(
        Fixed::from_int(1),
        Fixed::from_ratio(1, 100),
        Fixed::zero(),
        free,
        Parity::Even,
    );
    c.wavefunction_cutoff = Fixed::one();
    let mut solver = ShootingSolver::new(&c);
    solver.reset_wavefunction();
    assert!(!solver.is_diverging());
    solver.config.wavefunction_cutoff = Fixed::from_raw(ONE_RAW - 1);
    assert!(solver.is_diverging());
}

#[test]
fn a_pass_without_divergence_has_one_sample_per_grid_point() {
    let c = config(
        Fixed::from_int(1),
        Fixed::from_ratio(1, 100),
        Fixed::zero(),
        free,
        Parity::Even,
    );
    let mut solver = ShootingSolver::new(&c);
    solver.compute_wavefunction();
    assert_eq!(solver.wavefunction().len(), 101);
    assert_eq!(solver.wavefunction().len(), c.sample_count());
    assert!(solver.wavefunction().iter().all(|s| *s == Fixed::one()));

    let mut c = c;
    c.parity = Parity::Odd;
    let mut solver = ShootingSolver::new(&c);
    solver.compute_wavefunction();
    assert_eq!(solver.wavefunction().len(), 101);
    let h = Fixed::from_ratio(1, 100);
    for (i, s) in solver.wavefunction().iter().enumerate() {
        assert_eq!(*s, h.scale(i as i128));
    }
}

#[test]
fn a_pass_on_a_degenerate_grid_holds_the_seeds_only() {
    let c = config(Fixed::from_int(5), Fixed::zero(), Fixed::zero(), free, Parity::Even);
    let mut solver = ShootingSolver::new(&c);
    solver.compute_wavefunction();
    assert_eq!(solver.wavefunction(), &vec![Fixed::one(), Fixed::one()]);
}

#[test]
fn a_pass_far_from_an_eigenvalue_stops_at_the_first_diverging_sample() {
    let c = config(
        Fixed::from_int(1),
        Fixed::from_ratio(1, 100),
        Fixed::from_int(-1000),
        free,
        Parity::Even,
    );
    let mut solver = ShootingSolver::new(&c);
    solver.compute_wavefunction();
    let samples = solver.wavefunction();
    assert_eq!(samples.len(), 14);
    assert!(samples.len() < c.sample_count());
    assert!(solver.is_diverging());
    assert_eq!(samples[13].raw(), 2302991192193080178673);
    assert_eq!(samples[12].raw(), 1477959408755034116217);
    assert_eq!(samples[2].raw(), 22136092888451461616);
    for s in &samples[..13] {
        assert!(!s.exceeds(c.wavefunction_cutoff));
    }
}

#[test]
fn oscillator_ground_state() {
    let mut solver = ShootingSolver::new(&oscillator(Parity::Even, 1000));
    assert_eq!(solver.solve(), Ok(()));
    assert_eq!(solver.energy().raw(), 9266606593277532568);
    assert_eq!(solver.energy_step_size().raw(), -14411518807585587);
    assert_eq!(solver.last_diverge(), Sign::Negative);
    assert_eq!(solver.wavefunction().len(), 501);
    assert_eq!(solver.wavefunction()[500].raw(), 430340025747177793770);
    assert!((to_f64(solver.energy()) - 0.5).abs() < 0.005);
}

#[test]
fn oscillator_first_excited_state() {
    let mut solver = ShootingSolver::new(&oscillator(Parity::Odd, 1000));
    assert_eq!(solver.solve(), Ok(()));
    assert_eq!(solver.energy().raw(), 27655704591756741827);
    assert!((to_f64(solver.energy()) - 1.5).abs() < 0.005);
}

#[test]
fn square_well_ground_state_is_near_the_analytic_energy() {
    let mut solver = ShootingSolver::new(&square_well(Parity::Even));
    assert_eq!(solver.solve(), Ok(()));
    assert_eq!(solver.energy().raw(), 91043151585805860835);
    let analytic = std::f64::consts::PI * std::f64::consts::PI / 2.0;
    assert!((to_f64(solver.energy()) - analytic).abs() < 1e-3);
    assert!(!solver.energy_step_size().exceeds(Fixed::from_ratio(1, 1000000)));
}

#[test]
fn square_well_first_excited_state_is_near_the_analytic_energy() {
    let mut solver = ShootingSolver::new(&square_well(Parity::Odd));
    assert_eq!(solver.solve(), Ok(()));
    assert_eq!(solver.energy().raw(), 364088881611400858709);
    let analytic = 4.0 * std::f64::consts::PI * std::f64::consts::PI / 2.0;
    assert!((to_f64(solver.energy()) - analytic).abs() < 3e-3);
}

#[test]
fn energy_step_never_grows_and_the_search_stops_when_it_first_meets_the_cutoff() {
    let cutoff = Fixed::from_ratio(1, 1000);
    let mut last_magnitude = Fixed::from_raw(i128::MAX);
    for cap in 0..17 {
        let mut solver = ShootingSolver::new(&oscillator(Parity::Even, cap));
        assert_eq!(solver.solve(), Err(SolveError::NonConvergent));
        let magnitude = solver.energy_step_size().saturating_abs();
        assert!(magnitude.exceeds(cutoff));
        assert!(magnitude.raw() <= last_magnitude.raw());
        last_magnitude = magnitude;
    }
    for cap in 17..20 {
        let mut solver = ShootingSolver::new(&oscillator(Parity::Even, cap));
        assert_eq!(solver.solve(), Ok(()));
        assert!(!solver.energy_step_size().exceeds(cutoff));
        assert!(solver.energy_step_size().saturating_abs().raw() <= last_magnitude.raw());
        assert_eq!(solver.energy().raw(), 9266606593277532568);
    }
}

#[test]
fn search_moves_the_energy_by_the_step_until_the_side_changes() {
    let step = Fixed::from_ratio(1, 10);
    for cap in 0..6 {
        let mut solver = ShootingSolver::new(&oscillator(Parity::Even, cap));
        assert_eq!(solver.solve(), Err(SolveError::NonConvergent));
        assert_eq!(solver.energy(), step.scale(cap as i128));
        assert_eq!(solver.energy_step_size(), step);
    }
    let mut solver = ShootingSolver::new(&oscillator(Parity::Even, 16));
    assert_eq!(solver.solve(), Err(SolveError::NonConvergent));
    assert_eq!(solver.energy().raw(), 9281018112085118155);
    assert_eq!(solver.energy_step_size().raw(), 28823037615171174);
}

#[test]
fn search_without_iterations_makes_one_pass() {
    let mut solver = ShootingSolver::new(&oscillator(Parity::Even, 0));
    assert_eq!(solver.solve(), Err(SolveError::NonConvergent));
    assert_eq!(solver.energy(), Fixed::zero());
    assert_eq!(solver.last_diverge(), Sign::Unseen);
    assert_eq!(solver.wavefunction().len(), 346);
}

#[test]
fn cutoff_at_the_first_step_converges_in_one_pass() {
    let mut c = oscillator(Parity::Even, 0);
    c.energy_step_size_cutoff = Fixed::from_ratio(1, 10);
    let mut solver = ShootingSolver::new(&c);
    assert_eq!(solver.solve(), Ok(()));
    assert_eq!(solver.energy(), Fixed::zero());
    assert_eq!(solver.energy_step_size(), Fixed::from_ratio(1, 10));
    assert_eq!(solver.wavefunction().len(), 346);
}

#[test]
fn degenerate_grid_never_converges() {
    let mut c = oscillator(Parity::Even, 50);
    c.step_size = Fixed::zero();
    let mut solver = ShootingSolver::new(&c);
    assert_eq!(solver.solve(), Err(SolveError::NonConvergent));
    assert_eq!(solver.energy(), Fixed::from_ratio(1, 10).scale(50));
    assert_eq!(solver.wavefunction().len(), 2);
}

#[test]
fn reset_then_solve_reproduces_the_energy() {
    let mut solver = ShootingSolver::new(&oscillator(Parity::Odd, 1000));
    assert_eq!(solver.solve(), Ok(()));
    let first = solver.energy();
    let points = solver.wavefunction_points();
    solver.reset();
    assert_eq!(solver.energy(), Fixed::zero());
    assert_eq!(solver.energy_step_size(), Fixed::from_ratio(1, 10));
    assert_eq!(solver.last_diverge(), Sign::Unseen);
    assert!(solver.wavefunction().is_empty());
    assert_eq!(solver.solve(), Ok(()));
    assert_eq!(solver.energy(), first);
    assert_eq!(solver.wavefunction_points(), points);
}

#[test]
fn solve_without_reset_goes_on_from_the_energy_reached() {
    let mut solver = ShootingSolver::new(&oscillator(Parity::Even, 5));
    assert_eq!(solver.solve(), Err(SolveError::NonConvergent));
    assert_eq!(solver.energy(), Fixed::from_ratio(1, 10).scale(5));
    solver.config.max_iterations = 12;
    assert_eq!(solver.solve(), Ok(()));
    assert_eq!(solver.energy().raw(), 9266606593277532568);
    let energy = solver.energy();
    assert_eq!(solver.solve(), Ok(()));
    assert_eq!(solver.energy(), energy);
}

#[test]
fn even_points_mirror_the_samples() {
    let mut solver = ShootingSolver::new(&oscillator(Parity::Even, 1000));
    assert_eq!(solver.solve(), Ok(()));
    let samples = solver.wavefunction().clone();
    let points = solver.wavefunction_points();
    let n = samples.len();
    assert_eq!(points.len(), 2 * n - 1);
    let h = Fixed::from_ratio(1, 100);
    for k in 0..n {
        let right = points[n - 1 + k];
        let left = points[n - 1 - k];
        assert_eq!(right, (h.scale(k as i128), samples[k]));
        assert_eq!(left.0, right.0.saturating_neg());
        assert_eq!(left.1, right.1);
    }
    assert_eq!(n, 501);
    assert_eq!(points[0].0, h.scale(-500));
    assert_eq!(points[2 * n - 2].0, h.scale(500));
    for pair in points.windows(2) {
        assert_eq!(pair[1].0.saturating_sub(pair[0].0), h);
    }
}

#[test]
fn odd_points_mirror_the_samples_with_the_sign_changed() {
    let mut solver = ShootingSolver::new(&oscillator(Parity::Odd, 1000));
    assert_eq!(solver.solve(), Ok(()));
    let samples = solver.wavefunction().clone();
    let points = solver.wavefunction_points();
    let n = samples.len();
    assert_eq!(points.len(), 2 * n - 1);
    let h = Fixed::from_ratio(1, 100);
    for k in 0..n {
        let right = points[n - 1 + k];
        let left = points[n - 1 - k];
        assert_eq!(right, (h.scale(k as i128), samples[k]));
        assert_eq!(left.0, right.0.saturating_neg());
        assert_eq!(left.1, right.1.saturating_neg());
    }
    assert_eq!(points[n - 1], (Fixed::zero(), Fixed::zero()));
}

#[test]
fn points_of_a_short_pass_span_what_was_computed() {
    let c = config(
        Fixed::from_int(1),
        Fixed::from_ratio(1, 100),
        Fixed::from_int(-1000),
        free,
        Parity::Odd,
    );
    let mut solver = ShootingSolver::new(&c);
    solver.compute_wavefunction();
    let n = solver.wavefunction().len();
    assert!(n < 101);
    let points = solver.wavefunction_points();
    assert_eq!(points.len(), 2 * n - 1);
    let h = Fixed::from_ratio(1, 100);
    assert_eq!(points[0].0, h.scale(-(n as i128 - 1)));
    assert_eq!(points[0].1, solver.wavefunction()[n - 1].saturating_neg());
    assert_eq!(points[2 * n - 2], (h.scale(n as i128 - 1), solver.wavefunction()[n - 1]));
}

#[test]
fn config_clone_keeps_every_field() {
    let c = square_well(Parity::Odd);
    let d = c.clone();
    assert_eq!(d.x_max, c.x_max);
    assert_eq!(d.step_size, c.step_size);
    assert_eq!(d.initial_energy, c.initial_energy);
    assert_eq!(d.intitial_energy_step_size, c.intitial_energy_step_size);
    assert_eq!(d.wavefunction_cutoff, c.wavefunction_cutoff);
    assert_eq!(d.energy_step_size_cutoff, c.energy_step_size_cutoff);
    assert_eq!(d.parity, c.parity);
    assert_eq!(d.max_iterations, c.max_iterations);
    assert_eq!((d.potential)(Fixed::from_int(1)), Fixed::from_int(1_000_000_000));
    assert_eq!((d.potential)(Fixed::zero()), Fixed::zero());
}

/// The same search in `f64`: the recurrence, the divergence test and the
/// halving of the step, on floating-point numbers.
fn reference_energy(
    x_max: f64,
    h: f64,
    cutoff: f64,
    potential: fn(f64) -> f64,
    step_cutoff: f64,
    parity: Parity,
) -> f64 {
    let mut energy: f64 = 0.0;
    let mut step: f64 = 0.1;
    let mut last: f64 = 0.0;
    loop {
        let mut psi: Vec<f64> = match parity {
            Parity::Even => vec![1.0, 1.0],
            Parity::Odd => vec![0.0, h],
        };
        let count = (x_max / h).round() as usize + 1;
        while psi.len() < count && psi[psi.len() - 1].abs() <= cutoff {
            let i = psi.len() - 1;
            let next = 2.0 * psi[i]
                - psi[i - 1]
                - 2.0 * (energy - potential(i as f64 * h)) * (h * h) * psi[i];
            psi.push(next);
        }
        if step.abs() <= step_cutoff {
            return energy;
        }
        let terminal = psi[psi.len() - 1];
        if terminal * last < 0.0 {
            step = -step / 2.0;
        }
        energy += step;
        last = if terminal >= 0.0 { 1.0 } else { -1.0 };
    }
}

fn harmonic_f64(x: f64) -> f64 {
    0.5 * x * x
}

fn deep_well_f64(x: f64) -> f64 {
    if x.abs() < 0.5 {
        0.0
    } else {
        1.0e9
    }
}

#[test]
fn oscillator_energies_agree_with_the_search_in_floating_point() {
    for parity in [Parity::Even, Parity::Odd] {
        let mut solver = ShootingSolver::new(&oscillator(parity, 1000));
        assert_eq!(solver.solve(), Ok(()));
        let reference = reference_energy(5.0, 0.01, 100.0, harmonic_f64, 0.001, parity);
        assert!((to_f64(solver.energy()) - reference).abs() < 1e-12);
    }
}

#[test]
fn square_well_energies_agree_with_the_search_in_floating_point() {
    for parity in [Parity::Even, Parity::Odd] {
        let mut solver = ShootingSolver::new(&square_well(parity));
        assert_eq!(solver.solve(), Ok(()));
        let reference = reference_energy(0.55, 1.15e-4, 100.0, deep_well_f64, 1e-6, parity);
        assert!((to_f64(solver.energy()) - reference).abs() < 1e-12);
    }
}

#[test]
fn cutoff_of_zero_is_met_when_the_step_has_vanished() {
    let mut c = oscillator(Parity::Even, 200);
    c.energy_step_size_cutoff = Fixed::zero();
    let mut solver = ShootingSolver::new(&c);
    assert_eq!(solver.solve(), Ok(()));
    assert_eq!(solver.energy_step_size(), Fixed::zero());
    assert!((to_f64(solver.energy()) - 0.5028282303686598).abs() < 1e-15);
}

#[test]
fn cutoff_below_zero_is_never_met() {
    let mut c = oscillator(Parity::Even, 200);
    c.energy_step_size_cutoff = Fixed::from_raw(-1);
    let mut solver = ShootingSolver::new(&c);
    assert_eq!(solver.solve(), Err(SolveError::NonConvergent));
    assert_eq!(solver.energy_step_size(), Fixed::zero());
}

#[test]
fn potential_may_be_a_closure_that_captures_its_parameters() {
    let depth = Fixed::from_int(1_000_000_000);
    let edge = Fixed::from_ratio(1, 2);
    let well = move |x: Fixed| {
        if x.saturating_abs().raw() >= edge.raw() {
            depth
        } else {
            Fixed::zero()
        }
    };
    let c = ShootingConfig {
        x_max: Fixed::from_ratio(55, 100),
        step_size: Fixed::from_ratio(115, 1000000),
        initial_energy: Fixed::zero(),
        intitial_energy_step_size: Fixed::from_ratio(1, 10),
        wavefunction_cutoff: Fixed::from_int(100),
        potential: well,
        energy_step_size_cutoff: Fixed::from_ratio(1, 1000000),
        parity: Parity::Even,
        max_iterations: 100000,
    };
    let mut solver = ShootingSolver::new(&c);
    assert_eq!(solver.solve(), Ok(()));
    assert_eq!(solver.energy().raw(), 91043151585805860835);
}
