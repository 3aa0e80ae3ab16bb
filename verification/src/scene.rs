//! The nearest hit among the primitives of a scene.

use vstd::prelude::*;
use crate::sphere::{Chord, Root};

verus! {

/// The hit that a scan of the scene settles on.
#[derive(Clone, Copy, Debug, PartialEq, Eq, Hash)]
pub struct Intersection {
    /// The place of the primitive in the scene.
    pub index: usize,
    /// Which solution of that primitive's quadratic is the hit.
    pub root: Root,
    /// The key of the ray parameter at the hit.
    pub t: i64,
}

/// The parameter at which a primitive is hit within the interval, if it is:
/// `slot` is the primitive's chord, or `None` where the ray passes it by.
pub open spec fn candidate(slot: Option<Chord>, t_min: int, t_max: int) -> Option<int> {
    match slot {
        Some(c) => match c.accepted(t_min, t_max) {
            Some(w) => Some(c.at(w)),
            None => None,
        },
        None => None,
    }
}

/// Whether `r` is the nearest hit of the first `n` primitives: none where no
/// primitive is hit within the interval; otherwise the hit with the smallest
/// parameter, and among primitives hit at that same parameter the last one.
pub open spec fn nearest_of(
    chords: Seq<Option<Chord>>,
    n: int,
    t_min: int,
    t_max: int,
    r: Option<Intersection>,
) -> bool {
    match r {
        None => forall|i: int|
            0 <= i < n ==> candidate(#[trigger] chords[i], t_min, t_max) is None,
        Some(x) => {
            &&& x.index < n
            &&& chords[x.index as int] matches Some(c)
            &&& c.accepted(t_min, t_max) == Some(x.root)
            &&& c.at(x.root) == x.t
            &&& forall|i: int|
                0 <= i < n ==> (candidate(#[trigger] chords[i], t_min, t_max) matches Some(t) ==> x.t
                    <= t && (x.index < i ==> x.t < t))
        },
    }
}

/// Whether `r` is the nearest hit of the whole scene.
pub open spec fn nearest(
    chords: Seq<Option<Chord>>,
    t_min: int,
    t_max: int,
    r: Option<Intersection>,
) -> bool {
    nearest_of(chords, chords.len() as int, t_min, t_max, r)
}

/// Scans the primitives in scene order and returns the nearest hit within
/// the interval from `t_min` (excluded) to `t_max` (included). `chords[i]`
/// is the chord that the ray has with primitive `i`, or `None` where it has
/// none.
///
/// Each primitive is tested against the interval that ends at the nearest
/// hit found so far, so a later primitive replaces an earlier one when it
/// is hit at the same parameter or before.
pub fn nearest_hit(chords: &Vec<Option<Chord>>, t_min: i64, t_max: i64) -> (r: Option<
    Intersection,
>)
    ensures
        nearest(chords@, t_min as int, t_max as int, r),
{
    let mut best: Option<Intersection> = None;
    let mut closest: i64 = t_max;
    let mut i: usize = 0;
    while i < chords.len()
        invariant
            i <= chords.len(),
            closest <= t_max,
            best is None ==> closest == t_max,
            best matches Some(x) ==> x.t == closest,
            nearest_of(chords@, i as int, t_min as int, t_max as int, best),
        decreases chords.len() - i,
    {
        match &chords[i] {
            Some(c) => {
                match c.hit(t_min, closest) {
                    Some(w) => {
                        let t = c.root(w);
                        best = Some(Intersection { index: i, root: w, t });
                        closest = t;
                    },
                    None => {},
                }
            },
            None => {},
        }
        i += 1;
    }
    best
}

} // verus!
