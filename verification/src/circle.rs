//! Rotation about the origin at unit angular rate.

use crate::scalar::{number, total_arithmetic, Scalar};
use crate::state::{ParticleState, StateModel};
use crate::system::{keeps_shape, ParticleSystem};
use crate::vec3::Vec3;
use std::ops::Neg;
use vstd::prelude::*;
use vstd::std_specs::convert::FromSpec;
use vstd::std_specs::ops::NegSpec;

verus! {

/// A force law under which every position circles the origin in the plane of
/// `x` and `y`, at unit angular rate and whatever its velocity. Velocities
/// do not change.
#[derive(Clone, Copy, Debug)]
pub struct SimpleCircleSystem;

/// The position `p` turned by a quarter about the `z` axis and laid flat:
/// `(-p.y, p.x, 0)`.
pub open spec fn quarter_turn<T: Scalar>(p: Vec3<T>) -> Vec3<T> {
    Vec3 { x: p.y.neg_spec(), y: p.x, z: number::<T>(0) }
}

/// Negating a scalar, and the number zero, are functions of what they are
/// given.
pub open spec fn exact_turn<T: Scalar>() -> bool {
    T::obeys_neg_spec() && <T as FromSpec<u16>>::obeys_from_spec()
}

impl<T: Scalar> ParticleSystem<T> for SimpleCircleSystem {
    /// The law has no parts of its own: it can always be used.
    open spec fn wf(&self) -> bool {
        true
    }

    /// Negation and the number zero are all that the law computes with.
    open spec fn exact(&self) -> bool {
        exact_turn::<T>()
    }

    /// Each position moves along its quarter turn; each velocity stands.
    open spec fn derivative(&self, s: StateModel<T>) -> StateModel<T> {
        StateModel {
            pos: Seq::new(s.pos.len(), |i: int| quarter_turn(s.pos[i])),
            vel: Seq::new(s.vel.len(), |i: int| Vec3::<T>::spec_zero()),
        }
    }

    fn time_derivative(&self, state: &ParticleState<T>) -> (d: ParticleState<T>) {
        let mut pos: Vec<Vec3<T>> = Vec::with_capacity(state.pos.len());
        let mut i: usize = 0;
        while i < state.pos.len()
            invariant
                total_arithmetic::<T>(),
                i <= state.pos.len(),
                pos.len() == i,
                exact_turn::<T>() ==> forall|k: int|
                    0 <= k < i ==> pos[k] == #[trigger] quarter_turn(state.pos[k]),
            decreases state.pos.len() - i,
        {
            let p = state.pos[i];
            pos.push(Vec3::new(p.y.neg(), p.x, T::from(0u16)));
            i += 1;
        }
        let mut vel: Vec<Vec3<T>> = Vec::with_capacity(state.vel.len());
        let mut j: usize = 0;
        while j < state.vel.len()
            invariant
                j <= state.vel.len(),
                vel.len() == j,
                exact_turn::<T>() ==> forall|k: int|
                    0 <= k < j ==> #[trigger] vel[k] == Vec3::<T>::spec_zero(),
            decreases state.vel.len() - j,
        {
            vel.push(Vec3::zero());
            j += 1;
        }
        proof {
            if exact_turn::<T>() {
                assert(pos@ =~= self.derivative(state@).pos);
                assert(vel@ =~= self.derivative(state@).vel);
            }
        }
        ParticleState { pos, vel }
    }
}

/// Under the circle law the derivative of a state has the shape of the state.
pub proof fn lemma_circle_keeps_shape<T: Scalar>()
    ensures
        keeps_shape(|s: StateModel<T>| SimpleCircleSystem.derivative(s)),
{
}

} // verus!
