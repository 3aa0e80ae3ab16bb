//! Where a ray meets one sphere.
//!
//! A parameter along a ray is held as an `i64` key. Any encoding serves, so
//! long as a smaller parameter has a smaller key: nothing here does
//! arithmetic on a key, keys are only ordered.

use vstd::prelude::*;

verus! {

/// One of the two solutions of a sphere's quadratic.
#[derive(Clone, Copy, Debug, PartialEq, Eq, Hash)]
pub enum Root {
    /// The smaller solution, where the ray's line enters the sphere.
    Near,
    /// The larger solution, where it leaves.
    Far,
}

/// The part of a ray's line that lies inside a sphere, given by the two
/// solutions of the quadratic, the smaller first. A line that passes the
/// sphere by (negative discriminant) has no chord.
#[derive(Clone, Copy, Debug, PartialEq, Eq, Hash)]
pub struct Chord {
    near: i64,
    far: i64,
}

/// Whether the parameter `t` lies in the interval from `t_min` to `t_max`,
/// open at the lower end and closed at the upper one.
pub open spec fn within(t: int, t_min: int, t_max: int) -> bool {
    t_min < t <= t_max
}

impl Chord {
    #[verifier::type_invariant]
    spec fn ordered(self) -> bool {
        self.near <= self.far
    }

    /// The smaller solution.
    pub closed spec fn near(self) -> int {
        self.near as int
    }

    /// The larger solution.
    pub closed spec fn far(self) -> int {
        self.far as int
    }

    /// What every chord that was built satisfies: the solutions are in order.
    pub open spec fn well_formed(self) -> bool {
        self.near() <= self.far()
    }

    /// The parameter of the given solution.
    pub open spec fn at(self, root: Root) -> int {
        match root {
            Root::Near => self.near(),
            Root::Far => self.far(),
        }
    }

    /// The solution that counts as the hit for the interval: the smaller one
    /// if it lies within, else the larger one if that lies within.
    pub open spec fn accepted(self, t_min: int, t_max: int) -> Option<Root> {
        if within(self.near(), t_min, t_max) {
            Some(Root::Near)
        } else if within(self.far(), t_min, t_max) {
            Some(Root::Far)
        } else {
            None
        }
    }

    /// The chord with the given solutions, or `None` where they are not in
    /// order.
    pub fn new(near: i64, far: i64) -> (r: Option<Chord>)
        ensures
            r is Some <==> near <= far,
            r matches Some(c) ==> c.near() == near && c.far() == far && c.well_formed(),
    {
        if near <= far {
            Some(Chord { near, far })
        } else {
            None
        }
    }

    /// The key of the given solution.
    pub fn root(&self, which: Root) -> (t: i64)
        ensures
            t == self.at(which),
            self.well_formed(),
    {
        proof {
            use_type_invariant(self);
        }
        match which {
            Root::Near => self.near,
            Root::Far => self.far,
        }
    }

    /// Tests the chord against the interval from `t_min` (excluded) to
    /// `t_max` (included): the smaller solution is tried first, and the
    /// larger one only where the smaller lies outside. `None` where neither
    /// lies within.
    pub fn hit(&self, t_min: i64, t_max: i64) -> (r: Option<Root>)
        ensures
            r == self.accepted(t_min as int, t_max as int),
            self.well_formed(),
    {
        proof {
            use_type_invariant(self);
        }
        if t_min < self.near && self.near <= t_max {
            Some(Root::Near)
        } else if t_min < self.far && self.far <= t_max {
            Some(Root::Far)
        } else {
            None
        }
    }

    /// The solution that `hit` accepts is the smallest one within the
    /// interval: the other solution, where it lies within too, is not
    /// smaller. A ray that starts before the sphere hits it where it enters;
    /// one that starts inside hits it where it leaves.
    pub proof fn accepted_is_first(self, t_min: int, t_max: int)
        requires
            self.well_formed(),
        ensures
            self.accepted(t_min, t_max) matches Some(w) ==> within(self.at(w), t_min, t_max),
            self.accepted(t_min, t_max) matches Some(w) ==> (forall|v: Root|
                within(#[trigger] self.at(v), t_min, t_max) ==> self.at(w) <= self.at(v)),
            self.accepted(t_min, t_max) is None <==> (forall|v: Root|
                !within(#[trigger] self.at(v), t_min, t_max)),
            t_min < self.near() <= t_max ==> self.accepted(t_min, t_max) == Some(Root::Near),
            self.near() <= t_min < self.far() <= t_max ==> self.accepted(t_min, t_max) == Some(
                Root::Far,
            ),
    {
        if self.accepted(t_min, t_max) is None {
            assert forall|v: Root| !within(#[trigger] self.at(v), t_min, t_max) by {
                match v {
                    Root::Near => {},
                    Root::Far => {},
                }
            }
        }
    }
}

} // verus!
