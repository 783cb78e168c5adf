use particle_ode::{ParticleState, ParticleSystem, SimpleCircleSystem, SolidGravitySystem, Vec3};

fn v(x: f64, y: f64, z: f64) -> Vec3<f64> {
    Vec3::new(x, y, z)
}

fn glm_of(a: Vec3<f64>) -> nalgebra_glm::DVec3 {
    nalgebra_glm::vec3(a.x, a.y, a.z)
}

fn of_glm(a: nalgebra_glm::DVec3) -> Vec3<f64> {
    Vec3::new(a.x, a.y, a.z)
}

fn same(a: Vec3<f64>, b: Vec3<f64>) -> bool {
    a.x.to_bits() == b.x.to_bits()
        && a.y.to_bits() == b.y.to_bits()
        && a.z.to_bits() == b.z.to_bits()
}

fn same_state(a: &ParticleState<f64>, b: &ParticleState<f64>) -> bool {
    a.pos.len() == b.pos.len()
        && a.vel.len() == b.vel.len()
        && (0..a.pos.len()).all(|i| same(a.pos[i], b.pos[i]))
        && (0..a.vel.len()).all(|i| same(a.vel[i], b.vel[i]))
}

fn orbit() -> SolidGravitySystem<
    impl Fn(Vec3<f64>) -> f64,
    impl Fn(Vec3<f64>) -> Vec3<f64>,
    impl Fn(f64, i32) -> f64,
> {
    SolidGravitySystem {
        length: |d: Vec3<f64>| nalgebra_glm::length(&glm_of(d)),
        normalize: |d: Vec3<f64>| of_glm(nalgebra_glm::normalize(&glm_of(d))),
        powi: |x: f64, n: i32| x.powi(n),
    }
}

fn pair() -> ParticleState<f64> {
    ParticleState {
        pos: vec![v(-0.5, 0.0, 0.0), v(0.5, 0.0, 0.0)],
        vel: vec![v(0.0, -0.7, 0.0), v(0.0, 0.7, 0.0)],
    }
}

#[test]
fn rk4_works() {
    let mut state = ParticleState { pos: vec![v(1.0, 0.0, 0.0)], vel: vec![v(0.0, 0.0, 0.0)] };
    SimpleCircleSystem.rk4_integrate(&mut state, std::f64::consts::TAU, 0.005);
    println!("{}", state.pos[0].x);
    assert!(
        nalgebra_glm::distance(&glm_of(state.pos[0]), &nalgebra_glm::vec3(1.0, 0.0, 0.0)) < 1e-3
    );
}

#[test]
fn one_step_of_the_circle_follows_the_series_to_fourth_order() {
    let h = 0.5;
    let mut state = ParticleState { pos: vec![v(1.0, 0.0, 0.0)], vel: vec![v(0.0, 0.0, 0.0)] };
    SimpleCircleSystem.rk4_step(&mut state, h);
    // 1 - h^2/2 + h^4/24 and h - h^3/6
    assert!((state.pos[0].x - 0.8776041666666667).abs() < 1e-15);
    assert!((state.pos[0].y - 0.4791666666666667).abs() < 1e-15);
    assert_eq!(state.pos[0].z, 0.0);
    assert!(same(state.vel[0], v(0.0, 0.0, 0.0)));
}

#[test]
fn a_span_within_one_step_is_a_single_step() {
    let mut a = pair();
    let mut b = pair();
    orbit().rk4_integrate(&mut a, 0.003, 0.01);
    orbit().rk4_step(&mut b, 0.003);
    assert!(same_state(&a, &b));
}

#[test]
fn a_longer_span_is_full_steps_and_the_rest() {
    let mut a = pair();
    let mut b = pair();
    let g = orbit();
    g.rk4_integrate(&mut a, 0.25, 0.1);
    g.rk4_step(&mut b, 0.1);
    g.rk4_step(&mut b, 0.1);
    g.rk4_step(&mut b, 0.25 - 0.1 - 0.1);
    assert!(same_state(&a, &b));
}

#[test]
fn a_span_of_zero_changes_nothing_but_noise() {
    let mut state = pair();
    orbit().rk4_integrate(&mut state, 0.0, 0.01);
    let before = pair();
    for k in 0..2 {
        assert!(nalgebra_glm::distance(&glm_of(state.pos[k]), &glm_of(before.pos[k])) < 1e-12);
        assert!(nalgebra_glm::distance(&glm_of(state.vel[k]), &glm_of(before.vel[k])) < 1e-12);
    }
    let mut circle = ParticleState { pos: vec![v(1.0, 2.0, 3.0)], vel: vec![v(4.0, 5.0, 6.0)] };
    SimpleCircleSystem.rk4_integrate(&mut circle, 0.0, 0.5);
    assert_eq!(circle.pos[0].x, 1.0);
    assert_eq!(circle.pos[0].y, 2.0);
    assert_eq!(circle.pos[0].z, 3.0);
    assert_eq!(circle.vel[0].x, 4.0);
}

#[test]
fn two_steps_at_once_match_two_steps_in_turn() {
    let h = 0.125;
    let g = orbit();
    let mut at_once = pair();
    g.rk4_integrate(&mut at_once, 2.0 * h, h);
    let mut in_turn = pair();
    g.rk4_integrate(&mut in_turn, h, h);
    g.rk4_integrate(&mut in_turn, h, h);
    for k in 0..2 {
        assert!(nalgebra_glm::distance(&glm_of(at_once.pos[k]), &glm_of(in_turn.pos[k])) < 1e-12);
        assert!(nalgebra_glm::distance(&glm_of(at_once.vel[k]), &glm_of(in_turn.vel[k])) < 1e-12);
    }
    assert!(same_state(&at_once, &in_turn));
}

#[test]
fn integration_keeps_the_shape() {
    let mut state = ParticleState {
        pos: vec![v(0.0, 0.0, 0.0), v(1.0, 0.0, 0.0), v(0.0, 1.0, 0.0), v(0.0, 0.0, 1.0)],
        vel: vec![v(0.0, 0.0, 0.0), v(0.0, 0.1, 0.0), v(0.0, 0.0, 0.1), v(0.1, 0.0, 0.0)],
    };
    orbit().rk4_integrate(&mut state, 0.05, 0.01);
    assert_eq!(state.pos.len(), 4);
    assert_eq!(state.vel.len(), 4);
    assert_eq!(state.len(), 4);
    let mut none = ParticleState::<f64> { pos: vec![], vel: vec![] };
    orbit().rk4_integrate(&mut none, 1.0, 0.25);
    assert_eq!(none.len(), 0);
}

#[test]
fn gravity_keeps_the_centre_of_two_equal_bodies() {
    let mut state = pair();
    orbit().rk4_integrate(&mut state, 1.0, 0.001);
    let centre = state.pos[0].add(state.pos[1]);
    assert!(centre.x.abs() < 1e-9);
    assert!(centre.y.abs() < 1e-9);
    assert_eq!(centre.z, 0.0);
}

/// Particles that move on at their velocity, which nothing changes.
struct FreeFlight;

impl ParticleSystem<f64> for FreeFlight {
    fn time_derivative(&self, state: &ParticleState<f64>) -> ParticleState<f64> {
        ParticleState { pos: state.vel.clone(), vel: vec![v(0.0, 0.0, 0.0); state.vel.len()] }
    }
}

#[test]
fn a_law_of_ones_own_plugs_in() {
    let mut state = ParticleState { pos: vec![v(1.0, 2.0, 3.0)], vel: vec![v(0.5, -0.25, 0.0)] };
    FreeFlight.rk4_integrate(&mut state, 4.0, 0.5);
    assert!((state.pos[0].x - 3.0).abs() < 1e-12);
    assert!((state.pos[0].y - 1.0).abs() < 1e-12);
    assert_eq!(state.pos[0].z, 3.0);
    assert!(same(state.vel[0], v(0.5, -0.25, 0.0)));
}

/// The circle law, counting how often its derivative is asked for.
struct Counting {
    asked: std::cell::Cell<usize>,
}

impl ParticleSystem<f64> for Counting {
    fn time_derivative(&self, state: &ParticleState<f64>) -> ParticleState<f64> {
        self.asked.set(self.asked.get() + 1);
        SimpleCircleSystem.time_derivative(state)
    }
}

fn asked_during(time: f64, step: f64) -> usize {
    let system = Counting { asked: std::cell::Cell::new(0) };
    let mut state = ParticleState { pos: vec![v(1.0, 0.0, 0.0)], vel: vec![v(0.0, 0.0, 0.0)] };
    system.rk4_integrate(&mut state, time, step);
    system.asked.get()
}

#[test]
fn each_sub_step_asks_for_four_derivatives() {
    // a span of zero is still one sub-step
    assert_eq!(asked_during(0.0, 0.125), 4);
    // a span below the step, and one of exactly the step: one sub-step
    assert_eq!(asked_during(0.0625, 0.125), 4);
    assert_eq!(asked_during(0.125, 0.125), 4);
    // exactly two steps: one full sub-step and a last one of the same size
    assert_eq!(asked_during(0.25, 0.125), 8);
    // two steps and a rest
    assert_eq!(asked_during(0.3125, 0.125), 12);
    // a negative span is one sub-step backwards
    assert_eq!(asked_during(-1.0, 0.125), 4);
}

/// One particle under the circle law, integrated on `nalgebra_glm` vectors
/// alone.
fn circle_by_glm(mut p: nalgebra_glm::DVec3, mut time: f64, step: f64) -> nalgebra_glm::DVec3 {
    let turn = |p: &nalgebra_glm::DVec3| nalgebra_glm::vec3(-p.y, p.x, 0.0);
    let mut sub_step = |h: f64| {
        let k1 = turn(&p);
        let k2 = turn(&(p + k1 * (h / 2.0)));
        let k3 = turn(&(p + k2 * (h / 2.0)));
        let k4 = turn(&(p + k3 * h));
        p = p + (k1 + k2 * 2.0 + k3 * 2.0 + k4) * (h / 6.0);
    };
    while time > step {
        sub_step(step);
        time -= step;
    }
    sub_step(time);
    p
}

#[test]
fn the_circle_matches_glm_bit_for_bit() {
    let start = v(0.75, -1.5, 2.0);
    let mut state = ParticleState { pos: vec![start], vel: vec![v(3.0, 2.0, 1.0)] };
    SimpleCircleSystem.rk4_integrate(&mut state, 1.0, 0.03);
    let expected = circle_by_glm(glm_of(start), 1.0, 0.03);
    assert!(same(state.pos[0], of_glm(expected)));
    assert!(same(state.vel[0], v(3.0, 2.0, 1.0)));
}
