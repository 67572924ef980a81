use sim_quantum::numeric::fixed::Fixed;
use sim_quantum::physics::solvers::variational::VariationalConfig;
use sim_quantum::physics::solvers::variational::VariationalSolver;
use sim_quantum::physics::solvers::SolveError;

type Potential = fn(Fixed) -> Fixed;
type Family = fn(Fixed, Fixed) -> Fixed;

fn to_f64(x: Fixed) -> f64 {
    x.raw() as f64 / 18446744073709551616.0
}

fn harmonic(x: Fixed) -> Fixed {
    x.saturating_mul(x).halve()
}

fn free(_x: Fixed) -> Fixed {
    Fixed::zero()
}

fn constant_two(_x: Fixed) -> Fixed {
    Fixed::from_int(2)
}

/// `1 / (1 + alpha x^2)^2`
fn lorentzian_squared(alpha: Fixed, x: Fixed) -> Fixed {
    let q = Fixed::one().saturating_div(
        Fixed::one().saturating_add(alpha.saturating_mul(x.saturating_mul(x))),
    );
    q.saturating_mul(q)
}

/// `alpha x (1 - x)`
fn parabola(alpha: Fixed, x: Fixed) -> Fixed {
    alpha.saturating_mul(x).saturating_mul(Fixed::one().saturating_sub(x))
}

fn variational_oscillator(max_iterations: usize) -> VariationalConfig<Potential, Family> {
    VariationalConfig {
        step_size: Fixed::from_ratio(1, 20),
        potential: harmonic,
        x_min: Fixed::from_int(-5),
        x_max: Fixed::from_int(5),
        trial: lorentzian_squared,
        initial_parameter: Fixed::from_ratio(1, 10),
        initial_parameter_step: Fixed::from_ratio(1, 10),
        parameter_step_cutoff: Fixed::from_ratio(1, 1000),
        max_iterations,
    }
}

fn unit_box(potential: Potential, alpha: Fixed) -> VariationalConfig<Potential, Family> {
    VariationalConfig {
        step_size: Fixed::from_ratio(1, 4),
        potential,
        x_min: Fixed::zero(),
        x_max: Fixed::one(),
        trial: parabola,
        initial_parameter: alpha,
        initial_parameter_step: Fixed::from_ratio(1, 10),
        parameter_step_cutoff: Fixed::from_ratio(1, 1000),
        max_iterations: 0,
    }
}

fn variational(config: &VariationalConfig<Potential, Family>) -> VariationalSolver<Potential, Family> {
    match VariationalSolver::new(config) {
        Ok(solver) => solver,
        Err(error) => panic!("{:?}", error),
    }
}

fn refused(config: &VariationalConfig<Potential, Family>) -> bool {
    matches!(VariationalSolver::new(config), Err(SolveError::InvalidConfiguration))
        && config.validate() == Err(SolveError::InvalidConfiguration)
}

#[test]
fn energy_estimate_is_the_discrete_rayleigh_quotient() {
    // psi = x (1 - x) on a grid of spacing 1/4: the kinetic sum is 5/8,
    // the norm 17/128, the estimate 80/17.
    let c = unit_box(free, Fixed::one());
    assert_eq!(c.energy_estimate(Fixed::one()), Fixed::from_ratio(80, 17));
    assert_eq!(c.energy_estimate(Fixed::one()).raw(), 86808207405692007604);
}

#[test]
fn energy_estimate_does_not_depend_on_the_scale_of_the_wavefunction() {
    let c = unit_box(free, Fixed::one());
    assert_eq!(c.energy_estimate(Fixed::from_int(3)), Fixed::from_ratio(80, 17));
}

#[test]
fn energy_estimate_adds_the_potential() {
    let c = unit_box(constant_two, Fixed::one());
    assert_eq!(c.energy_estimate(Fixed::one()), Fixed::from_ratio(114, 17));
    assert_eq!(c.energy_estimate(Fixed::one()).raw(), 123701695553111110836);
}

#[test]
fn energy_estimate_of_a_vanishing_wavefunction_is_zero() {
    let c = unit_box(constant_two, Fixed::zero());
    assert_eq!(c.energy_estimate(Fixed::zero()), Fixed::zero());
}

#[test]
fn variational_solver_starts_with_the_estimate_of_the_first_parameter() {
    let s = variational(&variational_oscillator(5));
    assert_eq!(s.parameter(), Fixed::from_ratio(1, 10));
    assert_eq!(s.parameter_step(), Fixed::from_ratio(1, 10));
    assert_eq!(s.current_energy().raw(), 18341256109909986653);
    assert_eq!(s.x_min(), Fixed::from_int(-5));
    assert_eq!(s.x_max(), Fixed::from_int(5));
}

#[test]
fn variational_rejects_a_step_size_that_is_not_positive() {
    let mut c = variational_oscillator(5);
    c.step_size = Fixed::zero();
    assert!(refused(&c));
    c.step_size = Fixed::from_ratio(-1, 20);
    assert!(refused(&c));
}

#[test]
fn variational_rejects_an_empty_or_reversed_domain() {
    let mut c = variational_oscillator(5);
    c.x_max = c.x_min;
    assert!(refused(&c));
    c.x_max = Fixed::from_int(-6);
    assert!(refused(&c));
}

#[test]
fn variational_rejects_a_grid_without_inner_points() {
    let mut c = variational_oscillator(5);
    c.step_size = Fixed::from_int(10);
    assert!(refused(&c));
    c.step_size = Fixed::from_int(7);
    assert!(refused(&c));
    c.step_size = Fixed::from_int(5);
    assert_eq!(c.validate(), Ok(()));
    assert_eq!(c.steps(), 2);
}

#[test]
fn variational_rejects_a_domain_beyond_the_range_of_the_numbers() {
    let mut c = variational_oscillator(5);
    c.x_min = Fixed::from_raw(i128::MIN);
    c.x_max = Fixed::from_raw(i128::MAX);
    c.step_size = Fixed::from_raw(i128::MAX / 4);
    assert!(refused(&c));
    c.x_min = Fixed::zero();
    c.step_size = Fixed::from_raw(i128::MAX / 4 + 1);
    assert!(refused(&c));
    c.step_size = Fixed::from_raw(1);
    assert!(refused(&c));
}

#[test]
fn variational_search_finds_the_best_member_of_the_family() {
    let mut s = variational(&variational_oscillator(1000));
    assert_eq!(s.solve(), Ok(()));
    assert!((to_f64(s.parameter()) - 0.375).abs() < 1e-15);
    assert_eq!(s.parameter().raw(), 6917529027641081854);
    assert_eq!(s.current_energy().raw(), 9731956303056915710);
    assert_eq!(s.parameter_step().raw(), -14411518807585587);
}

#[test]
fn variational_estimate_is_not_below_the_ground_state_energy() {
    let c = variational_oscillator(1000);
    let mut s = variational(&c);
    let first = s.current_energy();
    assert_eq!(s.solve(), Ok(()));
    assert!(to_f64(s.current_energy()) >= 0.5);
    assert!(to_f64(s.current_energy()) < 0.53);
    assert!(s.current_energy().raw() < first.raw());
    assert_eq!(s.current_energy(), c.energy_estimate(s.parameter()));
    for k in 1..12 {
        let alpha = Fixed::from_ratio(k, 10);
        assert!(to_f64(c.energy_estimate(alpha)) >= 0.5);
        assert!(c.energy_estimate(alpha).raw() >= s.current_energy().raw());
    }
}

#[test]
fn variational_search_accepts_only_what_lowers_the_estimate() {
    let expected: [(i128, i128, i128); 13] = [
        (1844674407370955161, 18341256109909986653, 1844674407370955161),
        (3689348814741910322, 11610765270755151446, 1844674407370955161),
        (5534023222112865483, 9965728874630209726, 1844674407370955161),
        (7378697629483820644, 9752164707518450139, 1844674407370955161),
        (7378697629483820644, 9752164707518450139, -922337203685477580),
        (7378697629483820644, 9752164707518450139, 461168601842738790),
        (7378697629483820644, 9752164707518450139, -230584300921369395),
        (7148113328562451249, 9737276008497541574, -230584300921369395),
        (6917529027641081854, 9731956303056915710, -230584300921369395),
        (6917529027641081854, 9731956303056915710, 115292150460684697),
        (6917529027641081854, 9731956303056915710, -57646075230342348),
        (6917529027641081854, 9731956303056915710, 28823037615171174),
        (6917529027641081854, 9731956303056915710, -14411518807585587),
    ];
    let mut last_energy = i128::MAX;
    for (cap, state) in expected.iter().enumerate() {
        let mut s = variational(&variational_oscillator(cap));
        let outcome = s.solve();
        if cap < 12 {
            assert_eq!(outcome, Err(SolveError::NonConvergent));
        } else {
            assert_eq!(outcome, Ok(()));
        }
        assert_eq!(s.parameter().raw(), state.0);
        assert_eq!(s.current_energy().raw(), state.1);
        assert_eq!(s.parameter_step().raw(), state.2);
        assert!(s.current_energy().raw() <= last_energy);
        last_energy = s.current_energy().raw();
    }
    let mut s = variational(&variational_oscillator(20));
    assert_eq!(s.solve(), Ok(()));
    assert_eq!(s.parameter().raw(), 6917529027641081854);
}

#[test]
fn variational_points_sample_the_trial_wavefunction() {
    let c = variational_oscillator(1000);
    let mut s = variational(&c);
    assert_eq!(s.solve(), Ok(()));
    let points = s.wavefunction_points();
    assert_eq!(points.len(), 201);
    assert_eq!(points.len(), c.steps() + 1);
    for (i, point) in points.iter().enumerate() {
        assert_eq!(point.0, c.position(i));
        assert_eq!(point.1, lorentzian_squared(s.parameter(), point.0));
    }
    assert_eq!(points[0], (Fixed::from_int(-5), Fixed::from_raw(171373438919641646)));
    assert_eq!(points[100], (Fixed::from_raw(-80), Fixed::one()));
    assert_eq!(points[120].1.raw(), 9756955543119101736);
}

#[test]
fn variational_points_of_a_fresh_solver_sample_the_first_parameter() {
    let s = variational(&unit_box(free, Fixed::from_int(3)));
    let points = s.wavefunction_points();
    let expected = vec![
        (Fixed::zero(), Fixed::zero()),
        (Fixed::from_ratio(1, 4), Fixed::from_ratio(9, 16)),
        (Fixed::from_ratio(1, 2), Fixed::from_ratio(3, 4)),
        (Fixed::from_ratio(3, 4), Fixed::from_ratio(9, 16)),
        (Fixed::one(), Fixed::zero()),
    ];
    assert_eq!(points, expected);
}

#[test]
fn variational_reset_then_solve_reproduces_the_energy() {
    let mut s = variational(&variational_oscillator(1000));
    assert_eq!(s.solve(), Ok(()));
    let energy = s.current_energy();
    let alpha = s.parameter();
    s.reset();
    assert_eq!(s.parameter(), Fixed::from_ratio(1, 10));
    assert_eq!(s.current_energy().raw(), 18341256109909986653);
    assert_eq!(s.parameter_step(), Fixed::from_ratio(1, 10));
    assert_eq!(s.solve(), Ok(()));
    assert_eq!(s.current_energy(), energy);
    assert_eq!(s.parameter(), alpha);
}

#[test]
fn variational_config_clone_keeps_every_field() {
    let c = variational_oscillator(9);
    let d = c.clone();
    assert_eq!(d.step_size, c.step_size);
    assert_eq!(d.x_min, c.x_min);
    assert_eq!(d.x_max, c.x_max);
    assert_eq!(d.initial_parameter, c.initial_parameter);
    assert_eq!(d.initial_parameter_step, c.initial_parameter_step);
    assert_eq!(d.parameter_step_cutoff, c.parameter_step_cutoff);
    assert_eq!(d.max_iterations, 9);
    assert_eq!((d.potential)(Fixed::from_int(2)), Fixed::from_int(2));
    assert_eq!((d.trial)(Fixed::from_int(1), Fixed::from_int(1)), Fixed::from_ratio(1, 4));
}
