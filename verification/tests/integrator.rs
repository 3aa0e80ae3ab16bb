use pathtracer::integrator::{Event, Light, Verdict, Walk};
use pathtracer::material::{Incidence, Material, Scatter};
use pathtracer::scene::{nearest_hit, Intersection};
use pathtracer::sphere::{Chord, Root};

fn follow(depth: usize, events: &[Event]) -> Option<Verdict> {
    let mut walk = Walk::begin(depth);
    for e in events {
        walk.observe(*e);
    }
    walk.verdict()
}

/// The recursive rule, written out: the colour at depth 0 is black, else
/// the first event decides or hands on to one depth less.
fn by_recursion(depth: usize, events: &[Event]) -> Option<Verdict> {
    if depth == 0 {
        return Some(Verdict { bounces: 0, light: Light::Black });
    }
    match events.first() {
        None => None,
        Some(Event::Escaped) => Some(Verdict { bounces: 0, light: Light::Sky }),
        Some(Event::Absorbed) => Some(Verdict { bounces: 0, light: Light::Black }),
        Some(Event::Scattered) => by_recursion(depth - 1, &events[1..])
            .map(|v| Verdict { bounces: v.bounces + 1, light: v.light }),
    }
}

#[test]
fn with_no_depth_the_path_is_black() {
    assert_eq!(Walk::begin(0).verdict(), Some(Verdict { bounces: 0, light: Light::Black }));
    for e in [Event::Escaped, Event::Absorbed, Event::Scattered] {
        assert_eq!(follow(0, &[e]), Some(Verdict { bounces: 0, light: Light::Black }));
    }
    assert_eq!(
        follow(0, &[Event::Scattered, Event::Escaped]),
        Some(Verdict { bounces: 0, light: Light::Black })
    );
}

#[test]
fn with_some_depth_the_path_starts_undecided() {
    assert_eq!(Walk::begin(1).verdict(), None);
    assert_eq!(Walk::begin(50).verdict(), None);
    assert_eq!(Walk::begin(usize::MAX).verdict(), None);
}

#[test]
fn an_escape_ends_in_the_sky() {
    assert_eq!(follow(1, &[Event::Escaped]), Some(Verdict { bounces: 0, light: Light::Sky }));
    assert_eq!(follow(50, &[Event::Escaped]), Some(Verdict { bounces: 0, light: Light::Sky }));
}

#[test]
fn an_absorption_ends_black() {
    assert_eq!(follow(1, &[Event::Absorbed]), Some(Verdict { bounces: 0, light: Light::Black }));
    assert_eq!(
        follow(50, &[Event::Scattered, Event::Absorbed]),
        Some(Verdict { bounces: 1, light: Light::Black })
    );
}

#[test]
fn a_scattering_with_depth_to_spare_decides_nothing() {
    assert_eq!(follow(2, &[Event::Scattered]), None);
    assert_eq!(follow(50, &[Event::Scattered; 49]), None);
}

#[test]
fn the_depth_used_up_ends_black() {
    assert_eq!(follow(1, &[Event::Scattered]), Some(Verdict { bounces: 1, light: Light::Black }));
    assert_eq!(
        follow(50, &[Event::Scattered; 50]),
        Some(Verdict { bounces: 50, light: Light::Black })
    );
}

#[test]
fn the_bounces_before_the_sky_are_counted() {
    assert_eq!(
        follow(50, &[Event::Scattered, Event::Scattered, Event::Scattered, Event::Escaped]),
        Some(Verdict { bounces: 3, light: Light::Sky })
    );
    let mut events = vec![Event::Scattered; 49];
    events.push(Event::Escaped);
    assert_eq!(follow(50, &events), Some(Verdict { bounces: 49, light: Light::Sky }));
}

#[test]
fn events_after_the_end_are_dropped() {
    assert_eq!(
        follow(50, &[Event::Escaped, Event::Scattered, Event::Absorbed]),
        Some(Verdict { bounces: 0, light: Light::Sky })
    );
    assert_eq!(
        follow(50, &[Event::Scattered, Event::Absorbed, Event::Escaped, Event::Scattered]),
        Some(Verdict { bounces: 1, light: Light::Black })
    );
    assert_eq!(
        follow(2, &[Event::Scattered, Event::Scattered, Event::Escaped]),
        Some(Verdict { bounces: 2, light: Light::Black })
    );
}

#[test]
fn the_walk_agrees_with_the_recursive_rule() {
    let kinds = [Event::Escaped, Event::Absorbed, Event::Scattered];
    for depth in 0..5usize {
        for len in 0..6usize {
            let mut count = 1;
            for _ in 0..len {
                count *= 3;
            }
            for code in 0..count {
                let mut events = Vec::new();
                let mut rest = code;
                for _ in 0..len {
                    events.push(kinds[rest % 3]);
                    rest /= 3;
                }
                let got = follow(depth, &events);
                assert_eq!(got, by_recursion(depth, &events));
                if let Some(v) = got {
                    assert!(v.bounces <= depth);
                    assert!(v.bounces <= events.len());
                    if v.bounces == depth {
                        assert_eq!(v.light, Light::Black);
                    }
                }
                if events.len() >= depth {
                    assert!(got.is_some());
                }
            }
        }
    }
}

#[test]
fn no_hit_is_an_escape() {
    let nothing: Option<Intersection> = None;
    let silence: Option<Scatter> = None;
    assert_eq!(Event::of(&nothing, &silence), Event::Escaped);
    let lit = Material::Dielectric.scatter(&Incidence {
        degenerate: false,
        leaves_surface: false,
        cannot_refract: false,
        reflectance_wins: false,
    });
    assert!(lit.is_some());
    assert_eq!(Event::of(&nothing, &lit), Event::Escaped);
}

#[test]
fn a_hit_is_an_absorption_or_a_scattering() {
    let hit = Some(Intersection { index: 3, root: Root::Near, t: 500 });
    let dark = Incidence {
        degenerate: false,
        leaves_surface: false,
        cannot_refract: false,
        reflectance_wins: false,
    };
    assert_eq!(Event::of(&hit, &Material::Metal.scatter(&dark)), Event::Absorbed);
    assert_eq!(Event::of(&hit, &Material::Lambertian.scatter(&dark)), Event::Scattered);
    assert_eq!(Event::of(&hit, &Material::Dielectric.scatter(&dark)), Event::Scattered);
}

#[test]
fn an_empty_scene_shows_the_sky_at_every_depth() {
    let chords: Vec<Option<Chord>> = Vec::new();
    for depth in [1usize, 2, 50, usize::MAX] {
        let mut walk = Walk::begin(depth);
        assert_eq!(walk.verdict(), None);
        let hit = nearest_hit(&chords, 1, i64::MAX);
        let silence: Option<Scatter> = None;
        walk.observe(Event::of(&hit, &silence));
        assert_eq!(walk.verdict(), Some(Verdict { bounces: 0, light: Light::Sky }));
    }
}

#[test]
fn a_path_through_a_small_scene() {
    // A diffuse sphere in front of a metal one; the metal one absorbs.
    let seen = Incidence {
        degenerate: false,
        leaves_surface: false,
        cannot_refract: false,
        reflectance_wins: false,
    };
    let materials = [Material::Lambertian, Material::Metal];
    let mut walk = Walk::begin(50);

    let first = vec![Chord::new(500, 1500), Chord::new(2000, 3000)];
    let hit = nearest_hit(&first, 1, i64::MAX);
    assert_eq!(hit.map(|h| h.index), Some(0));
    let answer = materials[hit.unwrap().index].scatter(&seen);
    walk.observe(Event::of(&hit, &answer));
    assert_eq!(walk.verdict(), None);

    let second = vec![Chord::new(-10, 0), Chord::new(700, 900)];
    let hit = nearest_hit(&second, 1, i64::MAX);
    assert_eq!(hit.map(|h| h.index), Some(1));
    let answer = materials[hit.unwrap().index].scatter(&seen);
    walk.observe(Event::of(&hit, &answer));
    assert_eq!(walk.verdict(), Some(Verdict { bounces: 1, light: Light::Black }));
}
