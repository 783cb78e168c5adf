//! Force laws, and the Runge-Kutta integrator that runs on any of them.

use crate::scalar::{exact_arithmetic, exact_order, exceeds, number, total_arithmetic, Scalar};
use crate::state::{ParticleState, StateModel};
use crate::vec3::Vec3;
use vstd::prelude::*;
use vstd::std_specs::ops::{AddSpec, DivSpec, MulSpec, SubSpec};

verus! {

/// The state after one Runge-Kutta sub-step of size `h` from the state `s`:
///
/// ```text
/// k1 = derivative(s)
/// k2 = derivative(s + k1 * (h / 2))
/// k3 = derivative(s + k2 * (h / 2))
/// k4 = derivative(s + k3 * h)
/// s + (k1 + k2 * 2 + k3 * 2 + k4) * (h / 6)
/// ```
pub open spec fn rk4_step_spec<T: Scalar>(
    derivative: spec_fn(StateModel<T>) -> StateModel<T>,
    s: StateModel<T>,
    h: T,
) -> StateModel<T> {
    let half = h.div_spec(number::<T>(2));
    let k1 = derivative(s);
    let k2 = derivative(s.spec_add(k1.spec_scale(half)));
    let k3 = derivative(s.spec_add(k2.spec_scale(half)));
    let k4 = derivative(s.spec_add(k3.spec_scale(h)));
    let slope = k1.spec_add(k2.spec_scale(number::<T>(2))).spec_add(
        k3.spec_scale(number::<T>(2)),
    ).spec_add(k4);
    s.spec_add(slope.spec_scale(h.div_spec(number::<T>(6))))
}

/// The state after `n` sub-steps of size `h` from the state `s`.
pub open spec fn repeated<T: Scalar>(
    derivative: spec_fn(StateModel<T>) -> StateModel<T>,
    s: StateModel<T>,
    h: T,
    n: nat,
) -> StateModel<T>
    decreases n,
{
    if n == 0 {
        s
    } else {
        rk4_step_spec(derivative, repeated(derivative, s, h, (n - 1) as nat), h)
    }
}

/// What is left of `time` after `step` has been taken from it `n` times.
pub open spec fn remaining<T: Scalar>(time: T, step: T, n: nat) -> T
    decreases n,
{
    if n == 0 {
        time
    } else {
        remaining(time, step, (n - 1) as nat).sub_spec(step)
    }
}

/// Integrating over `time` takes exactly `n` sub-steps of the full size
/// `step` before the last, shorter one: what is left exceeds `step` before
/// each of them, and no longer after the `n`-th.
pub open spec fn takes_full_steps<T: Scalar>(time: T, step: T, n: nat) -> bool {
    &&& forall|k: nat| k < n ==> exceeds(#[trigger] remaining(time, step, k), step)
    &&& !exceeds(remaining(time, step, n), step)
}

/// Taking `step` from `time` again and again comes, after finitely many
/// times, to a rest that does not exceed `step`.
pub open spec fn halts<T: Scalar>(time: T, step: T) -> bool {
    exists|n: nat| takes_full_steps(time, step, n)
}

/// The number of sub-steps of the full size `step` that integrating over
/// `time` takes.
pub open spec fn full_steps<T: Scalar>(time: T, step: T) -> nat {
    choose|n: nat| takes_full_steps(time, step, n)
}

/// The state that `s` has evolved into after `time`, in sub-steps of size
/// `step`: first the full sub-steps, then one sub-step over what is left.
pub open spec fn integrated<T: Scalar>(
    derivative: spec_fn(StateModel<T>) -> StateModel<T>,
    s: StateModel<T>,
    time: T,
    step: T,
) -> StateModel<T> {
    let n: nat = full_steps(time, step);
    rk4_step_spec(derivative, repeated(derivative, s, step, n), remaining(time, step, n))
}

/// Only one number of full sub-steps fits a given `time` and `step`.
pub proof fn lemma_full_steps_unique<T: Scalar>(time: T, step: T, m: nat, n: nat)
    requires
        takes_full_steps(time, step, m),
        takes_full_steps(time, step, n),
    ensures
        m == n,
{
    if m < n {
        assert(exceeds(remaining(time, step, m), step));
    } else if n < m {
        assert(exceeds(remaining(time, step, n), step));
    }
}

/// A span of time that does not exceed the step is integrated in a single
/// sub-step over the whole span; a span of zero is one such.
pub proof fn lemma_short_span_is_one_step<T: Scalar>(
    derivative: spec_fn(StateModel<T>) -> StateModel<T>,
    s: StateModel<T>,
    time: T,
    step: T,
)
    requires
        !exceeds(time, step),
    ensures
        halts(time, step),
        full_steps(time, step) == 0,
        integrated(derivative, s, time, step) == rk4_step_spec(derivative, s, time),
{
    assert(takes_full_steps(time, step, 0));
    lemma_full_steps_unique(time, step, 0, full_steps(time, step));
}

/// A span of a whole number of steps is integrated in that many sub-steps,
/// all of the full size: the last sub-step is neither left out nor cut short.
///
/// That `time` is `n` times `step` is stated as it is used: taking `step`
/// from `time` leaves more than `step` until, after `n - 1` times, it leaves
/// `step` itself, which does not exceed itself.
pub proof fn lemma_whole_steps<T: Scalar>(
    derivative: spec_fn(StateModel<T>) -> StateModel<T>,
    s: StateModel<T>,
    time: T,
    step: T,
    n: nat,
)
    requires
        n >= 1,
        forall|k: nat| k + 1 < n ==> exceeds(#[trigger] remaining(time, step, k), step),
        remaining(time, step, (n - 1) as nat) == step,
        !exceeds(step, step),
    ensures
        halts(time, step),
        full_steps(time, step) == n - 1,
        integrated(derivative, s, time, step) == repeated(derivative, s, step, n),
{
    let m: nat = (n - 1) as nat;
    assert(takes_full_steps(time, step, m));
    lemma_full_steps_unique(time, step, m, full_steps(time, step));
}

/// A span of exactly two steps is integrated like two spans of one step each,
/// one after the other: the sub-step at the boundary is neither left out nor
/// taken twice.
///
/// That `time` is twice `step` is stated as it is used: `time` exceeds
/// `step`, taking `step` from it leaves `step`, and `step` does not exceed
/// itself.
pub proof fn lemma_two_steps_add_up<T: Scalar>(
    derivative: spec_fn(StateModel<T>) -> StateModel<T>,
    s: StateModel<T>,
    time: T,
    step: T,
)
    requires
        exceeds(time, step),
        time.sub_spec(step) == step,
        !exceeds(step, step),
    ensures
        halts(time, step),
        halts(step, step),
        integrated(derivative, s, time, step) == integrated(
            derivative,
            integrated(derivative, s, step, step),
            step,
            step,
        ),
{
    let once = rk4_step_spec(derivative, s, step);
    lemma_short_span_is_one_step(derivative, s, step, step);
    lemma_short_span_is_one_step(derivative, once, step, step);
    assert(remaining(time, step, 0) == time);
    assert(remaining(time, step, 1) == step);
    lemma_whole_steps(derivative, s, time, step, 2);
    assert(repeated(derivative, s, step, 0) == s);
    assert(repeated(derivative, s, step, 1) == once);
    assert(repeated(derivative, s, step, 2) == rk4_step_spec(derivative, once, step));
}

/// Zero behaves as in exact arithmetic: a sixth of zero is zero, any scalar
/// times zero is zero, and adding zero changes no scalar.
pub open spec fn zero_is_exact<T: Scalar>() -> bool {
    &&& number::<T>(0).div_spec(number::<T>(6)) == number::<T>(0)
    &&& forall|a: T| #[trigger] a.mul_spec(number::<T>(0)) == number::<T>(0)
    &&& forall|a: T| #[trigger] a.add_spec(number::<T>(0)) == a
}

/// The derivative of every well-formed state has the shape of that state.
pub open spec fn keeps_shape<T: Scalar>(
    derivative: spec_fn(StateModel<T>) -> StateModel<T>,
) -> bool {
    forall|s: StateModel<T>| s.wf() ==> (#[trigger] derivative(s)).same_shape(s)
}

/// Where zero behaves as in exact arithmetic, integrating a well-formed state
/// over a span of zero leaves it as it is, whatever the step and whatever the
/// force law, if only its derivative keeps the shape.
pub proof fn lemma_zero_span_changes_nothing<T: Scalar>(
    derivative: spec_fn(StateModel<T>) -> StateModel<T>,
    s: StateModel<T>,
    step: T,
)
    requires
        zero_is_exact::<T>(),
        keeps_shape(derivative),
        s.wf(),
        !exceeds(number::<T>(0), step),
    ensures
        halts(number::<T>(0), step),
        integrated(derivative, s, number::<T>(0), step) == s,
{
    let zero = number::<T>(0);
    lemma_short_span_is_one_step(derivative, s, zero, step);
    let half = zero.div_spec(number::<T>(2));
    let sixth = zero.div_spec(number::<T>(6));
    let k1 = derivative(s);
    let at2 = s.spec_add(k1.spec_scale(half));
    let k2 = derivative(at2);
    let at3 = s.spec_add(k2.spec_scale(half));
    let k3 = derivative(at3);
    let at4 = s.spec_add(k3.spec_scale(zero));
    let k4 = derivative(at4);
    let slope = k1.spec_add(k2.spec_scale(number::<T>(2))).spec_add(
        k3.spec_scale(number::<T>(2)),
    ).spec_add(k4);
    let after = s.spec_add(slope.spec_scale(sixth));
    assert(after == rk4_step_spec(derivative, s, zero));
    assert forall|v: Vec3<T>, p: Vec3<T>| #[trigger] p.spec_add(v.spec_scale(sixth)) == p by {
        assert(v.spec_scale(sixth) == Vec3::<T>::spec_zero());
    }
    assert(after.pos =~= s.pos);
    assert(after.vel =~= s.vel);
}

/// A force law: a rule that gives, for a state, its time-derivative.
///
/// A law has one thing to provide, `time_derivative`. It must return a
/// derivative of the shape of the state it was given; the integrator relies
/// on that when it combines states with derivatives. A law that computes a
/// function of the state can say so, by defining `exact` and `derivative`:
/// what the integrator returns is then stated in terms of that function.
pub trait ParticleSystem<T: Scalar> {
    /// What must hold of the system's own parts for it to be used. Unless a
    /// law says otherwise, nothing.
    open spec fn wf(&self) -> bool {
        true
    }

    /// What `time_derivative` computes is a function of the state, the one
    /// that `derivative` names. Unless a law says otherwise, this is not
    /// claimed of it.
    open spec fn exact(&self) -> bool {
        false
    }

    /// The time-derivative of the state `s` under this law, where the law is
    /// `exact`.
    open spec fn derivative(&self, s: StateModel<T>) -> StateModel<T> {
        arbitrary()
    }

    /// Compute the time-derivative of a state: a value of the same shape,
    /// whose `pos` holds the rate of change of each position and whose `vel`
    /// holds the rate of change of each velocity.
    fn time_derivative(&self, state: &ParticleState<T>) -> (d: ParticleState<T>)
        requires
            self.wf(),
            state.wf(),
            total_arithmetic::<T>(),
        ensures
            d.wf(),
            d@.same_shape(state@),
            self.exact() ==> d@ == self.derivative(state@),
    ;

    /// Advance `state` by one Runge-Kutta sub-step of size `step`.
    fn rk4_step(&self, state: &mut ParticleState<T>, step: T)
        requires
            self.wf(),
            old(state).wf(),
            total_arithmetic::<T>(),
        ensures
            final(state)@.same_shape(old(state)@),
            self.exact() && exact_arithmetic::<T>() ==> final(state)@ == rk4_step_spec(
                |s: StateModel<T>| self.derivative(s),
                old(state)@,
                step,
            ),
    {
        let half = step / T::from(2u16);
        let k1 = self.time_derivative(state);
        let at2 = state.add(&k1.scale(half)).unwrap();
        let k2 = self.time_derivative(&at2);
        let at3 = state.add(&k2.scale(half)).unwrap();
        let k3 = self.time_derivative(&at3);
        let at4 = state.add(&k3.scale(step)).unwrap();
        let k4 = self.time_derivative(&at4);
        let slope = k1.add(&k2.scale(T::from(2u16))).unwrap().add(
            &k3.scale(T::from(2u16)),
        ).unwrap().add(&k4).unwrap();
        *state = state.add(&slope.scale(step / T::from(6u16))).unwrap();
    }

    /// Integrate the system over `time` with the Runge-Kutta method of fourth
    /// order, in sub-steps of size `step`: a sub-step of the full size while
    /// more than `step` is left, then one sub-step over what is left.
    fn rk4_integrate(&self, state: &mut ParticleState<T>, time: T, step: T)
        requires
            self.wf(),
            old(state).wf(),
            total_arithmetic::<T>(),
            exact_order::<T>(),
            T::obeys_sub_spec(),
            halts(time, step),
        ensures
            final(state)@.same_shape(old(state)@),
            self.exact() && exact_arithmetic::<T>() ==> final(state)@ == integrated(
                |s: StateModel<T>| self.derivative(s),
                old(state)@,
                time,
                step,
            ),
    {
        let ghost n: nat = full_steps(time, step);
        let ghost mut i: nat = 0;
        let mut left = time;
        while left > step
            invariant
                self.wf(),
                state.wf(),
                total_arithmetic::<T>(),
                exact_order::<T>(),
                T::obeys_sub_spec(),
                takes_full_steps(time, step, n),
                left == remaining(time, step, i),
                forall|k: nat| k < i ==> exceeds(#[trigger] remaining(time, step, k), step),
                state@.same_shape(old(state)@),
                self.exact() && exact_arithmetic::<T>() ==> state@ == repeated(
                    |s: StateModel<T>| self.derivative(s),
                    old(state)@,
                    step,
                    i,
                ),
            decreases n - i,
        {
            proof {
                if n <= i {
                    assert(!exceeds(remaining(time, step, n), step));
                }
            }
            self.rk4_step(state, step);
            left = left - step;
            proof {
                i = i + 1;
            }
        }
        proof {
            lemma_full_steps_unique(time, step, i, n);
        }
        self.rk4_step(state, left);
    }
}

/// A system whose derivative is a function of the state gives the same
/// derivative whenever it is asked for that of the same state.
pub proof fn lemma_time_derivative_repeats<T: Scalar, S: ParticleSystem<T>>(
    system: &S,
    state: &ParticleState<T>,
    first: ParticleState<T>,
    second: ParticleState<T>,
)
    requires
        system.exact(),
        call_ensures(S::time_derivative, (system, state), first),
        call_ensures(S::time_derivative, (system, state), second),
    ensures
        first@ == second@,
{
}

} // verus!
