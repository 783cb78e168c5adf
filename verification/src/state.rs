//! The state of a simulation, and the two operations that combine states.

use crate::scalar::Scalar;
use crate::vec3::Vec3;
use vstd::prelude::*;
use vstd::std_specs::ops::{AddSpec, MulSpec};

verus! {

/// The positions and velocities of the particles at one instant. Index `i` of
/// both refers to the same particle.
///
/// The time-derivative of a state has the same form: its `pos` holds the rate
/// of change of each position, its `vel` the rate of change of each velocity.
#[derive(Clone, Debug)]
pub struct ParticleState<T> {
    pub pos: Vec<Vec3<T>>,
    pub vel: Vec<Vec3<T>>,
}

/// Two states that were to be combined hold different numbers of particles.
#[derive(Clone, Copy, Debug, PartialEq, Eq)]
pub struct ShapeMismatch;

/// A state as two sequences of vectors.
pub struct StateModel<T> {
    pub pos: Seq<Vec3<T>>,
    pub vel: Seq<Vec3<T>>,
}

/// The sum of two sequences of equal length, vector by vector.
pub open spec fn sum_of<T: Scalar>(a: Seq<Vec3<T>>, b: Seq<Vec3<T>>) -> Seq<Vec3<T>> {
    Seq::new(a.len(), |i: int| a[i].spec_add(b[i]))
}

/// Each vector of the sequence stretched by the factor `k`.
pub open spec fn scaled<T: Scalar>(a: Seq<Vec3<T>>, k: T) -> Seq<Vec3<T>> {
    Seq::new(a.len(), |i: int| a[i].spec_scale(k))
}

/// The scalar type can add the two sequences, vector by vector.
pub open spec fn can_sum<T: Scalar>(a: Seq<Vec3<T>>, b: Seq<Vec3<T>>) -> bool {
    forall|i: int| 0 <= i < a.len() ==> (#[trigger] a[i]).can_add(b[i])
}

/// The scalar type can multiply each vector of the sequence by `k`.
pub open spec fn can_stretch<T: Scalar>(a: Seq<Vec3<T>>, k: T) -> bool {
    forall|i: int| 0 <= i < a.len() ==> (#[trigger] a[i]).can_scale(k)
}

impl<T: Scalar> StateModel<T> {
    /// There are as many velocities as positions.
    pub open spec fn wf(self) -> bool {
        self.pos.len() == self.vel.len()
    }

    /// Both states hold as many positions, and as many velocities.
    pub open spec fn same_shape(self, other: Self) -> bool {
        self.pos.len() == other.pos.len() && self.vel.len() == other.vel.len()
    }

    /// The sum of two states of the same shape.
    pub open spec fn spec_add(self, rhs: Self) -> Self {
        StateModel { pos: sum_of(self.pos, rhs.pos), vel: sum_of(self.vel, rhs.vel) }
    }

    /// Every position and every velocity stretched by the factor `k`.
    pub open spec fn spec_scale(self, k: T) -> Self {
        StateModel { pos: scaled(self.pos, k), vel: scaled(self.vel, k) }
    }

    /// The scalar type can add the two states, particle by particle.
    pub open spec fn can_add(self, rhs: Self) -> bool {
        can_sum(self.pos, rhs.pos) && can_sum(self.vel, rhs.vel)
    }

    /// The scalar type can multiply every position and velocity by `k`.
    pub open spec fn can_scale(self, k: T) -> bool {
        can_stretch(self.pos, k) && can_stretch(self.vel, k)
    }
}

impl<T> View for ParticleState<T> {
    type V = StateModel<T>;

    open spec fn view(&self) -> StateModel<T> {
        StateModel { pos: self.pos@, vel: self.vel@ }
    }
}

/// The sum of two lists of vectors of equal length.
fn add_all<T: Scalar>(a: &Vec<Vec3<T>>, b: &Vec<Vec3<T>>) -> (r: Vec<Vec3<T>>)
    requires
        a.len() == b.len(),
        can_sum(a@, b@),
    ensures
        r.len() == a.len(),
        T::obeys_add_spec() ==> r@ == sum_of(a@, b@),
{
    let mut r: Vec<Vec3<T>> = Vec::with_capacity(a.len());
    let mut i: usize = 0;
    while i < a.len()
        invariant
            a.len() == b.len(),
            can_sum(a@, b@),
            i <= a.len(),
            r.len() == i,
            T::obeys_add_spec() ==> forall|k: int|
                0 <= k < i ==> r[k] == #[trigger] a[k].spec_add(b[k]),
        decreases a.len() - i,
    {
        r.push(a[i].add(b[i]));
        i += 1;
    }
    r
}

/// Each vector of the list stretched by the factor `k`.
fn scale_all<T: Scalar>(a: &Vec<Vec3<T>>, k: T) -> (r: Vec<Vec3<T>>)
    requires
        can_stretch(a@, k),
    ensures
        r.len() == a.len(),
        T::obeys_mul_spec() ==> r@ == scaled(a@, k),
{
    let mut r: Vec<Vec3<T>> = Vec::with_capacity(a.len());
    let mut i: usize = 0;
    while i < a.len()
        invariant
            can_stretch(a@, k),
            i <= a.len(),
            r.len() == i,
            T::obeys_mul_spec() ==> forall|j: int|
                0 <= j < i ==> r[j] == #[trigger] a[j].spec_scale(k),
        decreases a.len() - i,
    {
        r.push(a[i].scale(k));
        i += 1;
    }
    r
}

impl<T: Scalar> ParticleState<T> {
    /// There are as many velocities as positions.
    pub open spec fn wf(&self) -> bool {
        self@.wf()
    }

    /// The number of positions, which in a well-formed state is the number
    /// of particles.
    pub open spec fn spec_len(&self) -> nat {
        self.pos@.len()
    }

    /// The state of the particles with the given positions and velocities, or
    /// `ShapeMismatch` where the two lists differ in length.
    pub fn new(pos: Vec<Vec3<T>>, vel: Vec<Vec3<T>>) -> (r: Result<Self, ShapeMismatch>)
        ensures
            r is Ok <==> pos.len() == vel.len(),
            r matches Ok(s) ==> s.pos == pos && s.vel == vel && s.wf(),
    {
        if pos.len() == vel.len() {
            Ok(ParticleState { pos, vel })
        } else {
            Err(ShapeMismatch)
        }
    }

    /// The number of particles.
    pub fn len(&self) -> (n: usize)
        ensures
            n == self.spec_len(),
    {
        self.pos.len()
    }

    /// The sum of two states, particle by particle, or `ShapeMismatch` where
    /// they do not hold the same number of positions and of velocities.
    /// Neither operand is changed.
    pub fn add(&self, rhs: &Self) -> (r: Result<Self, ShapeMismatch>)
        requires
            self@.same_shape(rhs@) ==> self@.can_add(rhs@),
        ensures
            r is Ok <==> self@.same_shape(rhs@),
            r matches Ok(s) ==> s@.same_shape(self@) && (T::obeys_add_spec() ==> s@
                == self@.spec_add(rhs@)),
    {
        if self.pos.len() != rhs.pos.len() || self.vel.len() != rhs.vel.len() {
            return Err(ShapeMismatch);
        }
        let pos = add_all(&self.pos, &rhs.pos);
        let vel = add_all(&self.vel, &rhs.vel);
        Ok(ParticleState { pos, vel })
    }

    /// The state with every position and every velocity multiplied by `k`.
    /// The operand is not changed.
    pub fn scale(&self, k: T) -> (s: Self)
        requires
            self@.can_scale(k),
        ensures
            s@.same_shape(self@),
            T::obeys_mul_spec() ==> s@ == self@.spec_scale(k),
    {
        let pos = scale_all(&self.pos, k);
        let vel = scale_all(&self.vel, k);
        ParticleState { pos, vel }
    }
}

/// Where the scalars may be added in either order, so may the states.
pub proof fn lemma_add_commutes<T: Scalar>(a: StateModel<T>, b: StateModel<T>)
    requires
        a.same_shape(b),
        forall|x: T, y: T| #[trigger] x.add_spec(y) == y.add_spec(x),
    ensures
        a.spec_add(b) == b.spec_add(a),
{
    assert(a.spec_add(b).pos =~= b.spec_add(a).pos);
    assert(a.spec_add(b).vel =~= b.spec_add(a).vel);
}

/// Where a sum of three scalars does not depend on which two are added
/// first, neither does a sum of three states.
pub proof fn lemma_add_associates<T: Scalar>(a: StateModel<T>, b: StateModel<T>, c: StateModel<T>)
    requires
        a.same_shape(b),
        b.same_shape(c),
        forall|x: T, y: T, z: T| #[trigger] x.add_spec(y).add_spec(z) == x.add_spec(y.add_spec(z)),
    ensures
        a.spec_add(b).spec_add(c) == a.spec_add(b.spec_add(c)),
{
    assert(a.spec_add(b).spec_add(c).pos =~= a.spec_add(b.spec_add(c)).pos);
    assert(a.spec_add(b).spec_add(c).vel =~= a.spec_add(b.spec_add(c)).vel);
}

/// Where multiplying a sum of scalars is the same as adding the products,
/// stretching a sum of states is the same as adding the stretched states.
pub proof fn lemma_scale_distributes<T: Scalar>(a: StateModel<T>, b: StateModel<T>, k: T)
    requires
        a.same_shape(b),
        forall|x: T, y: T, m: T| #[trigger]
            x.add_spec(y).mul_spec(m) == x.mul_spec(m).add_spec(y.mul_spec(m)),
    ensures
        a.spec_add(b).spec_scale(k) == a.spec_scale(k).spec_add(b.spec_scale(k)),
{
    assert(a.spec_add(b).spec_scale(k).pos =~= a.spec_scale(k).spec_add(b.spec_scale(k)).pos);
    assert(a.spec_add(b).spec_scale(k).vel =~= a.spec_scale(k).spec_add(b.spec_scale(k)).vel);
}

} // verus!
