//! Particles that attract one another, and repel at very short range.

use crate::function::{
    accepts_all, accepts_all2, single_valued, single_valued2, value_of, value_of2,
};
use crate::scalar::{exact_arithmetic, number, total_arithmetic, Scalar};
use crate::state::{ParticleState, StateModel};
use crate::system::{keeps_shape, ParticleSystem};
use crate::vec3::Vec3;
use vstd::prelude::*;
use vstd::std_specs::convert::FromSpec;
use vstd::std_specs::ops::{DivSpec, MulSpec, SubSpec};

verus! {

/// A force law for solid objects in space: every two particles attract each
/// other with a force that falls with the square of their distance, less a
/// correction that falls with its fifth power and so pushes them apart when
/// they come very close. Two particles at the same place have no direction
/// between them; what the three functions below return there is passed on,
/// not caught.
///
/// The law is built on three functions of the scalar type, which it calls and
/// does not look into: the length of a vector, the vector of length one in
/// the same direction, and a whole power of a scalar.
#[derive(Clone, Copy, Debug)]
pub struct SolidGravitySystem<L, N, P> {
    /// The length of a vector.
    pub length: L,
    /// The vector brought to length one.
    pub normalize: N,
    /// A scalar raised to a whole power, negative powers included.
    pub powi: P,
}

/// The weight of the short-range correction: one ten-thousandth.
pub open spec fn correction<T: Scalar>() -> T {
    number::<T>(1).div_spec(number::<T>(10000))
}

/// What has become of the acceleration of the particle `k` once it has been
/// pulled towards the first `j` particles: zero, less the force between `k`
/// and each of them in turn.
pub open spec fn pulled_down<T: Scalar>(
    force: spec_fn(Vec3<T>, Vec3<T>) -> Vec3<T>,
    pos: Seq<Vec3<T>>,
    k: int,
    j: nat,
) -> Vec3<T>
    decreases j,
{
    if j == 0 {
        Vec3::<T>::spec_zero()
    } else {
        pulled_down(force, pos, k, (j - 1) as nat).spec_sub(force(pos[k], pos[j - 1]))
    }
}

/// What has become of the acceleration of the particle `k` once it has been
/// pulled towards every particle below it and then towards the particles
/// above it and below `i`: the force between `k` and each of the latter is
/// added in turn.
pub open spec fn pulled_up<T: Scalar>(
    force: spec_fn(Vec3<T>, Vec3<T>) -> Vec3<T>,
    pos: Seq<Vec3<T>>,
    k: int,
    i: nat,
) -> Vec3<T>
    decreases i,
{
    if i == 0 || i <= k + 1 {
        pulled_down(force, pos, k, k as nat)
    } else {
        pulled_up(force, pos, k, (i - 1) as nat).spec_add(force(pos[i - 1], pos[k]))
    }
}

/// The net force on the particle `k`, where `force(a, b)` is what pulls a
/// particle at `b` towards one at `a`, and its opposite pulls the one at `a`.
/// Starting from zero, the force between `k` and each particle of lower
/// index is taken away, then the force between each particle of higher index
/// and `k` is added, in the order of the indices:
///
/// ```text
/// 0 - force(pos[k], pos[0]) - ... - force(pos[k], pos[k - 1])
///   + force(pos[k + 1], pos[k]) + ... + force(pos[n - 1], pos[k])
/// ```
pub open spec fn net_force<T: Scalar>(
    force: spec_fn(Vec3<T>, Vec3<T>) -> Vec3<T>,
    pos: Seq<Vec3<T>>,
    k: int,
) -> Vec3<T> {
    pulled_up(force, pos, k, pos.len())
}

/// The acceleration of every particle: the net force on it. Each pair of two
/// different particles enters once, into the acceleration of both.
pub open spec fn accelerations<T: Scalar>(
    force: spec_fn(Vec3<T>, Vec3<T>) -> Vec3<T>,
    pos: Seq<Vec3<T>>,
) -> Seq<Vec3<T>> {
    Seq::new(pos.len(), |k: int| net_force(force, pos, k))
}

/// The accelerations `acc` with the force `f` between the particles `i` and
/// `j` applied: added to that of `j`, taken from that of `i`.
pub open spec fn with_pair<T: Scalar>(
    acc: Seq<Vec3<T>>,
    i: int,
    j: int,
    f: Vec3<T>,
) -> Seq<Vec3<T>> {
    let pulled = acc.update(j, acc[j].spec_add(f));
    pulled.update(i, pulled[i].spec_sub(f))
}

/// The accelerations as they stand while the pairs are being taken, once the
/// forces of these pairs have been applied, starting from zero: every pair of
/// a particle below `i` with a particle of lower index, row by row, and then
/// the pairs of the particle `i` with the particles below `j`.
pub open spec fn accelerations_upto<T: Scalar>(
    force: spec_fn(Vec3<T>, Vec3<T>) -> Vec3<T>,
    pos: Seq<Vec3<T>>,
    i: nat,
    j: nat,
) -> Seq<Vec3<T>>
    decreases i, j,
{
    if j > 0 {
        with_pair(
            accelerations_upto(force, pos, i, (j - 1) as nat),
            i as int,
            j - 1,
            force(pos[i as int], pos[j - 1]),
        )
    } else if i > 0 {
        accelerations_upto(force, pos, (i - 1) as nat, (i - 1) as nat)
    } else {
        Seq::new(pos.len(), |k: int| Vec3::<T>::spec_zero())
    }
}

/// The acceleration of the particle `k` as it stands when the pairs below
/// the stage `(i, j)` have been taken: untouched above `i`, pulled down so
/// far as `j` at `i`, and below `i` pulled up as far as `i`, or one further
/// where the pair of `i` with `k` has been taken already.
pub open spec fn stage_of<T: Scalar>(
    force: spec_fn(Vec3<T>, Vec3<T>) -> Vec3<T>,
    pos: Seq<Vec3<T>>,
    i: nat,
    j: nat,
    k: int,
) -> Vec3<T> {
    if k > i {
        Vec3::<T>::spec_zero()
    } else if k == i {
        pulled_down(force, pos, k, j)
    } else if k < j {
        pulled_up(force, pos, k, i + 1)
    } else {
        pulled_up(force, pos, k, i)
    }
}

/// While the pairs are being taken, each particle has been pulled towards
/// exactly those particles with which its pair has been taken.
pub proof fn lemma_accelerations_by_particle<T: Scalar>(
    force: spec_fn(Vec3<T>, Vec3<T>) -> Vec3<T>,
    pos: Seq<Vec3<T>>,
    i: nat,
    j: nat,
    k: int,
)
    requires
        j <= i <= pos.len(),
        j > 0 ==> i < pos.len(),
        0 <= k < pos.len(),
    ensures
        accelerations_upto(force, pos, i, j).len() == pos.len(),
        accelerations_upto(force, pos, i, j)[k] == stage_of(force, pos, i, j, k),
    decreases i, j,
{
    if j > 0 {
        let before: nat = (j - 1) as nat;
        lemma_accelerations_by_particle(force, pos, i, before, k);
        lemma_accelerations_by_particle(force, pos, i, before, i as int);
        lemma_accelerations_by_particle(force, pos, i, before, before as int);
    } else if i > 0 {
        let above: nat = (i - 1) as nat;
        lemma_accelerations_by_particle(force, pos, above, above, k);
    }
}

/// Once every pair has been taken, each particle has the net force on it for
/// its acceleration.
pub proof fn lemma_all_pairs_give_net_forces<T: Scalar>(
    force: spec_fn(Vec3<T>, Vec3<T>) -> Vec3<T>,
    pos: Seq<Vec3<T>>,
)
    ensures
        accelerations_upto(force, pos, pos.len(), 0) == accelerations(force, pos),
{
    let taken = accelerations_upto(force, pos, pos.len(), 0);
    assert forall|k: int| 0 <= k < pos.len() implies taken[k] == net_force(force, pos, k) by {
        lemma_accelerations_by_particle(force, pos, pos.len(), 0, k);
    }
    if pos.len() > 0 {
        lemma_accelerations_by_particle(force, pos, pos.len(), 0, 0);
    }
    assert(taken =~= accelerations(force, pos));
}

/// Action and reaction: of two particles, the first is accelerated by zero
/// plus the force between them, the second by zero minus that same force.
pub proof fn lemma_two_bodies_share_one_force<T: Scalar>(
    force: spec_fn(Vec3<T>, Vec3<T>) -> Vec3<T>,
    pos: Seq<Vec3<T>>,
)
    requires
        pos.len() == 2,
    ensures
        accelerations(force, pos).len() == 2,
        accelerations(force, pos)[0] == Vec3::<T>::spec_zero().spec_add(force(pos[1], pos[0])),
        accelerations(force, pos)[1] == Vec3::<T>::spec_zero().spec_sub(force(pos[1], pos[0])),
{
    assert(pulled_down(force, pos, 0, 0) == Vec3::<T>::spec_zero());
    assert(pulled_up(force, pos, 0, 1) == Vec3::<T>::spec_zero());
    assert(net_force(force, pos, 0) == pulled_up(force, pos, 0, 1).spec_add(
        force(pos[1], pos[0]),
    ));
    assert(pulled_down(force, pos, 1, 0) == Vec3::<T>::spec_zero());
    assert(pulled_down(force, pos, 1, 1) == Vec3::<T>::spec_zero().spec_sub(
        force(pos[1], pos[0]),
    ));
    assert(net_force(force, pos, 1) == pulled_down(force, pos, 1, 1));
}

/// With two particles, the acceleration of the first is the opposite of the
/// acceleration of the second, wherever the force `f` between them is one
/// that zero leaves alone: `0 + f` is `f`, `0 - f` is `-f`, and `-(-f)` is
/// `f`.
pub proof fn lemma_two_bodies_accelerate_opposite<T: Scalar>(
    force: spec_fn(Vec3<T>, Vec3<T>) -> Vec3<T>,
    pos: Seq<Vec3<T>>,
)
    requires
        pos.len() == 2,
        Vec3::<T>::spec_zero().spec_add(force(pos[1], pos[0])) == force(pos[1], pos[0]),
        Vec3::<T>::spec_zero().spec_sub(force(pos[1], pos[0])) == force(pos[1], pos[0]).spec_neg(),
        force(pos[1], pos[0]).spec_neg().spec_neg() == force(pos[1], pos[0]),
    ensures
        accelerations(force, pos)[0] == accelerations(force, pos)[1].spec_neg(),
{
    lemma_two_bodies_share_one_force(force, pos);
}

impl<L, N, P> SolidGravitySystem<L, N, P> {
    /// The force that pulls the particle at `b` towards the particle at `a`;
    /// the particle at `a` is pulled by its opposite. With `d = a - b` and
    /// `len` the length of `d`, it is the direction of `d` times
    /// `len^-2 - correction * len^-5`.
    pub open spec fn pair_force<T: Scalar>(&self, a: Vec3<T>, b: Vec3<T>) -> Vec3<T>
        where L: Fn(Vec3<T>) -> T, N: Fn(Vec3<T>) -> Vec3<T>, P: Fn(T, i32) -> T
    {
        let d = a.spec_sub(b);
        let len = value_of(self.length, d);
        let strength = value_of2(self.powi, len, -2i32).sub_spec(
            correction::<T>().mul_spec(value_of2(self.powi, len, -5i32)),
        );
        value_of(self.normalize, d).spec_scale(strength)
    }

    /// Under the gravity law the derivative of a well-formed state has the
    /// shape of the state.
    pub proof fn lemma_gravity_keeps_shape<T: Scalar>(&self)
        where L: Fn(Vec3<T>) -> T, N: Fn(Vec3<T>) -> Vec3<T>, P: Fn(T, i32) -> T
        ensures
            keeps_shape(|s: StateModel<T>| self.derivative(s)),
    {
    }
}

/// A copy of the list of vectors.
fn copy_all<T: Scalar>(a: &Vec<Vec3<T>>) -> (r: Vec<Vec3<T>>)
    ensures
        r@ == a@,
{
    let mut r: Vec<Vec3<T>> = Vec::with_capacity(a.len());
    let mut i: usize = 0;
    while i < a.len()
        invariant
            i <= a.len(),
            r.len() == i,
            forall|k: int| 0 <= k < i ==> r[k] == a[k],
        decreases a.len() - i,
    {
        r.push(a[i]);
        i += 1;
    }
    assert(r@ =~= a@);
    r
}

/// A list of `n` zero vectors.
fn zeros<T: Scalar>(n: usize) -> (r: Vec<Vec3<T>>)
    ensures
        r.len() == n,
        <T as FromSpec<u16>>::obeys_from_spec() ==> r@ == Seq::new(
            n as nat,
            |k: int| Vec3::<T>::spec_zero(),
        ),
{
    let mut r: Vec<Vec3<T>> = Vec::with_capacity(n);
    let mut i: usize = 0;
    while i < n
        invariant
            i <= n,
            r.len() == i,
            <T as FromSpec<u16>>::obeys_from_spec() ==> forall|k: int|
                0 <= k < i ==> #[trigger] r[k] == Vec3::<T>::spec_zero(),
        decreases n - i,
    {
        r.push(Vec3::zero());
        i += 1;
    }
    proof {
        if <T as FromSpec<u16>>::obeys_from_spec() {
            assert(r@ =~= Seq::new(n as nat, |k: int| Vec3::<T>::spec_zero()));
        }
    }
    r
}

impl<
    T: Scalar,
    L: Fn(Vec3<T>) -> T,
    N: Fn(Vec3<T>) -> Vec3<T>,
    P: Fn(T, i32) -> T,
> ParticleSystem<T> for SolidGravitySystem<L, N, P> {
    /// Each of the three functions may be called on every argument.
    open spec fn wf(&self) -> bool {
        &&& accepts_all(self.length)
        &&& accepts_all(self.normalize)
        &&& accepts_all2(self.powi)
    }

    /// The arithmetic and each of the three functions give one result for
    /// the same arguments.
    open spec fn exact(&self) -> bool {
        &&& exact_arithmetic::<T>()
        &&& single_valued(self.length)
        &&& single_valued(self.normalize)
        &&& single_valued2(self.powi)
    }

    /// Positions change at the rate of the velocities, velocities at the
    /// rate of the accelerations.
    open spec fn derivative(&self, s: StateModel<T>) -> StateModel<T> {
        StateModel {
            pos: s.vel,
            vel: accelerations(|a: Vec3<T>, b: Vec3<T>| self.pair_force(a, b), s.pos),
        }
    }

    fn time_derivative(&self, state: &ParticleState<T>) -> (d: ParticleState<T>) {
        let n: usize = state.pos.len();
        let weight = T::from(1u16) / T::from(10000u16);
        let mut acc: Vec<Vec3<T>> = zeros(n);
        let mut i: usize = 0;
        while i < n
            invariant
                self.wf(),
                total_arithmetic::<T>(),
                n == state.pos.len(),
                i <= n,
                acc.len() == n,
                self.exact() ==> weight == correction::<T>(),
                self.exact() ==> acc@ == accelerations_upto(
                    |a: Vec3<T>, b: Vec3<T>| self.pair_force(a, b),
                    state.pos@,
                    i as nat,
                    0,
                ),
            decreases n - i,
        {
            let mut j: usize = 0;
            while j < i
                invariant
                    self.wf(),
                    total_arithmetic::<T>(),
                    n == state.pos.len(),
                    i < n,
                    j <= i,
                    acc.len() == n,
                    self.exact() ==> weight == correction::<T>(),
                    self.exact() ==> acc@ == accelerations_upto(
                        |a: Vec3<T>, b: Vec3<T>| self.pair_force(a, b),
                        state.pos@,
                        i as nat,
                        j as nat,
                    ),
                decreases i - j,
            {
                let apart = state.pos[i].sub(state.pos[j]);
                let dir = (self.normalize)(apart);
                let len = (self.length)(apart);
                let pull = dir.scale((self.powi)(len, -2i32) - weight * (self.powi)(len, -5i32));
                acc.set(j, acc[j].add(pull));
                acc.set(i, acc[i].sub(pull));
                j += 1;
            }
            i += 1;
        }
        proof {
            lemma_all_pairs_give_net_forces(
                |a: Vec3<T>, b: Vec3<T>| self.pair_force(a, b),
                state.pos@,
            );
        }
        ParticleState { pos: copy_all(&state.vel), vel: acc }
    }
}

} // verus!
