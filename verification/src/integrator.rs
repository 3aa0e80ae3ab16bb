//! The light path: how far a ray is followed and with what light it ends.
//!
//! A ray is followed from surface to surface. The path ends when the ray
//! leaves the scene (it then carries the light of the sky), when a surface
//! absorbs it, or when the depth is used up (it then carries no light). The
//! colour of the path is the light at its end, multiplied by the tint of
//! each surface that scattered it.

use vstd::prelude::*;
use crate::material::Scatter;
use crate::scene::{nearest, Intersection};
use crate::sphere::Chord;

verus! {

/// What became of a ray that was sent into the scene.
#[derive(Clone, Copy, Debug, PartialEq, Eq, Hash)]
pub enum Event {
    /// It hit nothing.
    Escaped,
    /// It hit a surface that absorbed it.
    Absorbed,
    /// It hit a surface that scattered it.
    Scattered,
}

/// The light at the end of a path.
#[derive(Clone, Copy, Debug, PartialEq, Eq, Hash)]
pub enum Light {
    /// No light.
    Black,
    /// The background gradient, taken in the direction of the last ray.
    Sky,
}

/// How a path ended.
#[derive(Clone, Copy, Debug, PartialEq, Eq, Hash)]
pub struct Verdict {
    /// The number of surfaces that scattered the ray before the end.
    pub bounces: usize,
    /// The light at the end.
    pub light: Light,
}

impl Event {
    /// The event that the scene's answer and the surface's answer amount
    /// to. Where nothing was hit, the surface's answer is not read.
    pub open spec fn observed<H, S>(hit: Option<H>, answer: Option<S>) -> Event {
        match hit {
            None => Event::Escaped,
            Some(_) => match answer {
                None => Event::Absorbed,
                Some(_) => Event::Scattered,
            },
        }
    }

    /// Names the event: no hit is an escape; a hit is an absorption or a
    /// scattering as the surface answered. `hit` is what the scan of the
    /// scene returned and `answer` what the surface that was hit returned,
    /// whatever the caller holds in them.
    pub fn of<H, S>(hit: &Option<H>, answer: &Option<S>) -> (e: Event)
        ensures
            e == Event::observed(*hit, *answer),
    {
        match hit {
            None => Event::Escaped,
            Some(_) => match answer {
                None => Event::Absorbed,
                Some(_) => Event::Scattered,
            },
        }
    }
}

/// The end of a path of the given depth along which the given events
/// happen, as the number of bounces and the light; `None` while the events
/// do not decide it yet.
///
/// With no depth left the path is black. Otherwise the first event decides:
/// an escape ends the path in the sky, an absorption ends it black, and a
/// scattering hands the rest of the events to a path of one depth less.
pub open spec fn radiance(depth: nat, events: Seq<Event>) -> Option<(nat, Light)>
    decreases depth,
{
    if depth == 0 {
        Some((0nat, Light::Black))
    } else if events.len() == 0 {
        None
    } else {
        match events[0] {
            Event::Escaped => Some((0nat, Light::Sky)),
            Event::Absorbed => Some((0nat, Light::Black)),
            Event::Scattered => match radiance((depth - 1) as nat, events.skip(1)) {
                Some((bounces, light)) => Some((bounces + 1, light)),
                None => None,
            },
        }
    }
}

/// Whether every event is a scattering.
pub open spec fn all_scattered(events: Seq<Event>) -> bool {
    forall|i: int| 0 <= i < events.len() ==> events[i] is Scattered
}

/// A path that has only been scattered so far, fewer times than its depth,
/// is undecided, and the next event decides it unless that is a scattering
/// with depth to spare.
proof fn radiance_after_scatterings(depth: nat, history: Seq<Event>, event: Event)
    requires
        all_scattered(history),
        history.len() < depth,
    ensures
        radiance(depth, history) is None,
        radiance(depth, history.push(event)) == (match event {
            Event::Escaped => Some((history.len(), Light::Sky)),
            Event::Absorbed => Some((history.len(), Light::Black)),
            Event::Scattered => if history.len() + 1 == depth {
                Some((depth, Light::Black))
            } else {
                None
            },
        }),
    decreases depth,
{
    let longer = history.push(event);
    if history.len() == 0 {
        assert(longer[0] == event);
        assert(longer.skip(1).len() == 0);
        assert(radiance((depth - 1) as nat, longer.skip(1)) == (if depth == 1 {
            Some((0nat, Light::Black))
        } else {
            None
        }));
    } else {
        let rest = history.skip(1);
        assert(longer[0] == history[0]);
        assert(longer.skip(1) =~= rest.push(event));
        assert(all_scattered(rest)) by {
            assert forall|i: int| 0 <= i < rest.len() implies rest[i] is Scattered by {
                assert(rest[i] == history[i + 1]);
            }
        }
        radiance_after_scatterings((depth - 1) as nat, rest, event);
    }
}

/// With no depth, the path is black whatever happens along it.
pub proof fn exhausted_is_black(events: Seq<Event>)
    ensures
        radiance(0, events) == Some((0nat, Light::Black)),
{
}

/// With some depth, a ray that escapes at once shows the sky, unscattered,
/// whatever is said to happen afterwards.
pub proof fn escape_is_sky(depth: nat, later: Seq<Event>)
    requires
        depth > 0,
    ensures
        radiance(depth, seq![Event::Escaped] + later) == Some((0nat, Light::Sky)),
{
    assert((seq![Event::Escaped] + later)[0] == Event::Escaped);
}

/// In a scene without primitives every path of some depth ends in the sky
/// at once: the scan finds no hit, which is an escape.
pub proof fn empty_scene_is_sky(
    depth: nat,
    chords: Seq<Option<Chord>>,
    t_min: int,
    t_max: int,
    hit: Option<Intersection>,
    answer: Option<Scatter>,
    later: Seq<Event>,
)
    requires
        depth > 0,
        chords.len() == 0,
        nearest(chords, t_min, t_max, hit),
    ensures
        hit is None,
        radiance(depth, seq![Event::observed(hit, answer)] + later) == Some((0nat, Light::Sky)),
{
    escape_is_sky(depth, later);
}

/// The depth bounds the path: a decided path has at most `depth` bounces
/// and at most one for each event but the last, only a black path uses the
/// whole depth, and `depth` events always decide.
pub proof fn depth_bounds_path(depth: nat, events: Seq<Event>)
    ensures
        radiance(depth, events) matches Some((bounces, light)) ==> bounces <= depth && bounces
            <= events.len() && (bounces == depth ==> light is Black),
        events.len() >= depth ==> radiance(depth, events) is Some,
    decreases depth,
{
    if depth > 0 && events.len() > 0 {
        depth_bounds_path((depth - 1) as nat, events.skip(1));
    }
}

/// Once the events decide a path, further events change nothing.
pub proof fn decided_stays_decided(depth: nat, events: Seq<Event>, later: Seq<Event>)
    requires
        radiance(depth, events) is Some,
    ensures
        radiance(depth, events + later) == radiance(depth, events),
    decreases depth,
{
    if depth > 0 {
        let longer = events + later;
        assert(longer[0] == events[0]);
        if events[0] is Scattered {
            assert(longer.skip(1) =~= events.skip(1) + later);
            decided_stays_decided((depth - 1) as nat, events.skip(1), later);
        }
    }
}

/// A path that is being followed: its depth, the events so far, and the
/// verdict as soon as there is one.
pub struct Walk {
    depth: Ghost<nat>,
    history: Ghost<Seq<Event>>,
    remaining: usize,
    bounces: usize,
    ended: Option<Light>,
}

impl Walk {
    #[verifier::type_invariant]
    spec fn consistent(self) -> bool {
        match self.ended {
            None => {
                &&& all_scattered(self.history@)
                &&& self.history@.len() == self.bounces
                &&& self.bounces + self.remaining == self.depth@
                &&& self.depth@ <= usize::MAX
                &&& self.remaining > 0
            },
            Some(light) => radiance(self.depth@, self.history@) == Some(
                (self.bounces as nat, light),
            ),
        }
    }

    /// The depth that the path was begun with.
    pub closed spec fn depth(&self) -> nat {
        self.depth@
    }

    /// The events that were observed until the path was decided, in order.
    pub closed spec fn history(&self) -> Seq<Event> {
        self.history@
    }

    /// Begins a path of the given depth.
    pub fn begin(depth: usize) -> (w: Walk)
        ensures
            w.depth() == depth,
            w.history() == Seq::<Event>::empty(),
    {
        Walk {
            depth: Ghost(depth as nat),
            history: Ghost(Seq::empty()),
            remaining: depth,
            bounces: 0,
            ended: if depth == 0 {
                Some(Light::Black)
            } else {
                None
            },
        }
    }

    /// The end of the path, once the depth and the events decide it: a path
    /// of depth 0 is black from the start. While this is `None` the next ray
    /// is to be sent into the scene and what became of it observed.
    pub fn verdict(&self) -> (r: Option<Verdict>)
        ensures
            match r {
                Some(v) => radiance(self.depth(), self.history()) == Some(
                    (v.bounces as nat, v.light),
                ),
                None => radiance(self.depth(), self.history()) is None,
            },
    {
        proof {
            use_type_invariant(self);
            if self.ended is None {
                radiance_after_scatterings(self.depth@, self.history@, Event::Escaped);
            }
        }
        match self.ended {
            Some(light) => Some(Verdict { bounces: self.bounces, light }),
            None => None,
        }
    }

    /// Takes note of what became of the ray that was sent. An escape or an
    /// absorption ends the path; a scattering uses up one unit of depth and
    /// ends the path when none is left. On a path that has ended already
    /// the event is dropped.
    pub fn observe(&mut self, event: Event)
        ensures
            final(self).depth() == old(self).depth(),
            final(self).history() == (if radiance(old(self).depth(), old(self).history()) is None {
                old(self).history().push(event)
            } else {
                old(self).history()
            }),
    {
        proof {
            use_type_invariant(&*self);
        }
        if self.ended.is_none() {
            proof {
                radiance_after_scatterings(self.depth@, self.history@, event);
            }
            let ghost longer = self.history@.push(event);
            let bounces = self.bounces;
            let remaining = self.remaining;
            let depth = self.depth;
            match event {
                Event::Escaped => {
                    *self = Walk {
                        depth,
                        history: Ghost(longer),
                        remaining,
                        bounces,
                        ended: Some(Light::Sky),
                    };
                },
                Event::Absorbed => {
                    *self = Walk {
                        depth,
                        history: Ghost(longer),
                        remaining,
                        bounces,
                        ended: Some(Light::Black),
                    };
                },
                Event::Scattered => {
                    *self = Walk {
                        depth,
                        history: Ghost(longer),
                        remaining: remaining - 1,
                        bounces: bounces + 1,
                        ended: if remaining == 1 {
                            Some(Light::Black)
                        } else {
                            None
                        },
                    };
                },
            }
        }
    }
}

} // verus!
