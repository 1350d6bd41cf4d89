//! A star system: how many planets it gets, how they are spread over the
//! zones, and where each of them orbits.

use crate::game::arith::{integer_root, isqrt};
use crate::game::body::{
    views_of, views_of_each, Body, BodyView, GenerationError, PlanetZone, STAR_RADIUS_MAX,
};
use crate::game::random::draw_between;
use rand::rngs::StdRng;
use vstd::prelude::*;
use vstd::string::StringExecFns;

verus! {

/// The smallest number of planets in a system.
pub const PLANET_COUNT_MIN: i32 = 1;

/// The largest number of planets in a system.
pub const PLANET_COUNT_MAX: i32 = 10;

/// The smallest draw for the distance of an orbit from the Roche limit.
pub const ORBIT_DRAW_MIN: u64 = 2_900;

/// The largest draw for the distance of an orbit from the Roche limit.
pub const ORBIT_DRAW_MAX: u64 = 20_000;

/// The distance that one unit of the orbit draw stands for.
pub const ORBIT_STEP: u64 = 10_000_000;

/// The largest Roche limit that a star can have.
pub const ROCHE_LIMIT_MAX: u64 = 111_312_000;

impl PlanetZone {
    /// How many of `count` planets are generated for this zone.
    pub open spec fn quota(self, count: int) -> int {
        match self {
            PlanetZone::InnerRing => if count <= 3 {
                0
            } else if count <= 7 {
                1
            } else {
                2
            },
            PlanetZone::HabitableZone => if count <= 5 {
                1
            } else {
                2
            },
            PlanetZone::OuterRing => if count <= 3 {
                count - 1
            } else if count <= 5 {
                count - 2
            } else if count <= 7 {
                count - 3
            } else {
                count - 4
            },
        }
    }

    /// The zone of the planet at `index` in a system of `count` planets:
    /// the inner ring comes first, then the habitable zone, then the outer
    /// ring.
    pub open spec fn at(count: int, index: int) -> PlanetZone {
        if index < PlanetZone::InnerRing.quota(count) {
            PlanetZone::InnerRing
        } else if index < PlanetZone::InnerRing.quota(count) + PlanetZone::HabitableZone.quota(
            count,
        ) {
            PlanetZone::HabitableZone
        } else {
            PlanetZone::OuterRing
        }
    }
}

/// How many planets each zone of a system gets.
#[derive(Clone, Copy, Debug, PartialEq, Eq, Structural)]
pub struct ZoneQuota {
    pub inner_ring: i32,
    pub habitable_zone: i32,
    pub outer_ring: i32,
}

impl ZoneQuota {
    /// The quota of a system of `count` planets.
    pub fn for_count(count: i32) -> (quota: ZoneQuota)
        requires
            PLANET_COUNT_MIN <= count <= PLANET_COUNT_MAX,
        ensures
            quota.inner_ring == PlanetZone::InnerRing.quota(count as int),
            quota.habitable_zone == PlanetZone::HabitableZone.quota(count as int),
            quota.outer_ring == PlanetZone::OuterRing.quota(count as int),
    {
        if count <= 3 {
            ZoneQuota { inner_ring: 0, habitable_zone: 1, outer_ring: count - 1 }
        } else if count <= 5 {
            ZoneQuota { inner_ring: 1, habitable_zone: 1, outer_ring: count - 2 }
        } else if count <= 7 {
            ZoneQuota { inner_ring: 1, habitable_zone: 2, outer_ring: count - 3 }
        } else {
            ZoneQuota { inner_ring: 2, habitable_zone: 2, outer_ring: count - 4 }
        }
    }
}

/// The quotas of the three zones are never negative and add up to the number
/// of planets; the habitable zone always gets a planet, and from four planets
/// on so does the inner ring, whose planets come first.
pub proof fn quota_covers_count(count: int)
    requires
        PLANET_COUNT_MIN <= count <= PLANET_COUNT_MAX,
    ensures
        PlanetZone::InnerRing.quota(count) >= 0,
        PlanetZone::HabitableZone.quota(count) >= 1,
        PlanetZone::OuterRing.quota(count) >= 0,
        PlanetZone::InnerRing.quota(count) + PlanetZone::HabitableZone.quota(count)
            + PlanetZone::OuterRing.quota(count) == count,
        count >= 4 ==> PlanetZone::InnerRing.quota(count) >= 1 && PlanetZone::at(count, 0)
            == PlanetZone::InnerRing,
{
}

/// The distance from a star within which its tides tear a body apart: 1.6
/// times the star's radius, rounded down.
pub open spec fn roche_limit(star_radius: int) -> int {
    star_radius * 8 / 5
}

/// The radius of the orbit that `orbit_draw` places outside `roche_limit`.
pub open spec fn orbit_radius_of(roche_limit: int, orbit_draw: int) -> int {
    orbit_draw * ORBIT_STEP + roche_limit
}

/// The period of an orbit: the square root of the squared radius divided by
/// 7.5, rounded down.
pub open spec fn orbit_period_of(orbit_radius: int) -> int {
    integer_root((2 * orbit_radius * orbit_radius / 15) as nat) as int
}

/// `planet` on the orbit that `orbit_draw` places outside `roche_limit`.
pub open spec fn placed_model(planet: BodyView, roche_limit: int, orbit_draw: int) -> BodyView {
    BodyView {
        orbit_radius: Some(orbit_radius_of(roche_limit, orbit_draw)),
        orbit_period: Some(orbit_period_of(orbit_radius_of(roche_limit, orbit_draw))),
        ..planet
    }
}

impl BodyView {
    /// Whether this body has an orbit and its radius exceeds `roche_limit`.
    pub open spec fn is_clear_of(self, roche_limit: int) -> bool {
        self.orbit_radius matches Some(radius) && radius > roche_limit
    }

    /// Whether this is a planet generated for `zone` and then placed outside
    /// `roche_limit` by some admissible draw.
    pub open spec fn is_placed_planet(
        self,
        zone: PlanetZone,
        names: Seq<String>,
        roche_limit: int,
    ) -> bool {
        exists|planet: BodyView, orbit_draw: int|
            {
                &&& planet.is_generated_planet(zone, names)
                &&& planet.radius_fits_kind()
                &&& ORBIT_DRAW_MIN <= orbit_draw <= ORBIT_DRAW_MAX
                &&& self == #[trigger] placed_model(planet, roche_limit, orbit_draw)
            }
    }
}

/// Computes the Roche limit of a star from its radius.
pub fn roche_limit_from_radius(star_radius: i64) -> (limit: u64)
    requires
        0 <= star_radius <= STAR_RADIUS_MAX,
    ensures
        limit == roche_limit(star_radius as int),
        limit <= ROCHE_LIMIT_MAX,
{
    (star_radius as u64) * 8 / 5
}

/// Puts `planet` on the orbit that `orbit_draw` places outside
/// `roche_limit`, and gives it the period of that orbit.
pub fn place_in_orbit(planet: Body, roche_limit: u64, orbit_draw: u64) -> (placed: Body)
    requires
        ORBIT_DRAW_MIN <= orbit_draw <= ORBIT_DRAW_MAX,
        roche_limit <= ROCHE_LIMIT_MAX,
    ensures
        placed@ == placed_model(planet@, roche_limit as int, orbit_draw as int),
        placed@.is_clear_of(roche_limit as int),
{
    let orbit_radius: u64 = orbit_draw * ORBIT_STEP + roche_limit;
    let wide: u128 = orbit_radius as u128;
    assert(2 * wide * wide <= 2 * 200_111_312_000 * 200_111_312_000) by (nonlinear_arith)
        requires
            wide <= 200_111_312_000,
    ;
    let orbit_period = isqrt(2 * wide * wide / 15);
    Body {
        name: planet.name,
        kind: planet.kind,
        radius: planet.radius,
        mass: planet.mass,
        orbit_radius: Some(orbit_radius),
        orbit_period: Some(orbit_period),
        satellites: planet.satellites,
    }
}

/// A star with the planets that orbit it, innermost zone first.
#[derive(Clone, Debug, PartialEq, Eq)]
pub struct System {
    pub bodies: Vec<Body>,
    pub star: Body,
    pub name: String,
}

/// What a system is, as plain values.
pub struct SystemView {
    pub bodies: Seq<BodyView>,
    pub star: BodyView,
    pub name: Seq<char>,
}

impl View for System {
    type V = SystemView;

    open spec fn view(&self) -> SystemView {
        SystemView { bodies: views_of(self.bodies@), star: self.star@, name: self.name@ }
    }
}

/// The name that every generated system carries.
pub open spec fn system_name() -> Seq<char> {
    "Not solar system"@
}

impl SystemView {
    /// Whether the planets are `count` in number and each of them was
    /// generated for the zone of its place and put outside the Roche limit
    /// of the star.
    pub open spec fn is_populated(self, count: int, names: Seq<String>) -> bool {
        &&& self.bodies.len() == count
        &&& forall|i: int|
            0 <= i < count ==> (#[trigger] self.bodies[i]).is_placed_planet(
                PlanetZone::at(count, i),
                names,
                roche_limit(self.star.radius),
            )
    }

    /// Whether every planet orbits outside the Roche limit of the star.
    pub open spec fn orbits_clear_star(self) -> bool {
        forall|i: int|
            0 <= i < self.bodies.len() ==> (#[trigger] self.bodies[i]).is_clear_of(
                roche_limit(self.star.radius),
            )
    }
}

impl System {
    /// Generates `planet_count` planets around `star`: the planets of the
    /// inner ring first, then those of the habitable zone, then those of the
    /// outer ring, and after that an orbit for each in the same order.
    ///
    /// Fails exactly when `names` is empty.
    pub fn generate_with_count(
        star: Body,
        planet_count: i32,
        rng: &mut StdRng,
        names: &Vec<String>,
    ) -> (outcome: Result<System, GenerationError>)
        requires
            0 <= star@.radius <= STAR_RADIUS_MAX,
            PLANET_COUNT_MIN <= planet_count <= PLANET_COUNT_MAX,
        ensures
            outcome is Err <==> names@.len() == 0,
            outcome matches Ok(system) ==> {
                &&& system@.star == star@
                &&& system@.name == system_name()
                &&& system@.is_populated(planet_count as int, names@)
                &&& system@.orbits_clear_star()
            },
    {
        let limit = roche_limit_from_radius(star.radius);
        let quota = ZoneQuota::for_count(planet_count);
        let mut inner = match Body::generate_planet_with_count(
            &PlanetZone::InnerRing,
            quota.inner_ring,
            rng,
            names,
        ) {
            Ok(planets) => planets,
            Err(error) => {
                return Err(error);
            },
        };
        let mut habitable = match Body::generate_planet_with_count(
            &PlanetZone::HabitableZone,
            quota.habitable_zone,
            rng,
            names,
        ) {
            Ok(planets) => planets,
            Err(error) => {
                return Err(error);
            },
        };
        let mut outer = match Body::generate_planet_with_count(
            &PlanetZone::OuterRing,
            quota.outer_ring,
            rng,
            names,
        ) {
            Ok(planets) => planets,
            Err(error) => {
                return Err(error);
            },
        };
        let mut planets: Vec<Body> = Vec::new();
        planets.append(&mut inner);
        planets.append(&mut habitable);
        planets.append(&mut outer);
        assert(planets@.len() == planet_count);
        assert forall|i: int| 0 <= i < planets@.len() implies (#[trigger] planets@[i])@.is_generated_planet(
            PlanetZone::at(planet_count as int, i),
            names@,
        ) && planets@[i]@.radius_fits_kind() by {}
        let mut bodies: Vec<Body> = Vec::new();
        let mut i: usize = 0;
        while i < planets.len()
            invariant
                i <= planets@.len(),
                planets@.len() == planet_count,
                limit == roche_limit(star@.radius),
                limit <= ROCHE_LIMIT_MAX,
                bodies@.len() == i,
                forall|k: int|
                    0 <= k < planets@.len() ==> (#[trigger] planets@[k])@.is_generated_planet(
                        PlanetZone::at(planet_count as int, k),
                        names@,
                    ) && planets@[k]@.radius_fits_kind(),
                forall|k: int|
                    0 <= k < i ==> (#[trigger] bodies@[k])@.is_placed_planet(
                        PlanetZone::at(planet_count as int, k),
                        names@,
                        limit as int,
                    ) && bodies@[k]@.is_clear_of(limit as int),
            decreases planets@.len() - i,
        {
            let orbit_draw = draw_between(rng, ORBIT_DRAW_MIN, ORBIT_DRAW_MAX);
            let planet = planets[i].clone();
            let placed = place_in_orbit(planet, limit, orbit_draw);
            assert(placed@ == placed_model(planets@[i as int]@, limit as int, orbit_draw as int));
            bodies.push(placed);
            i += 1;
        }
        proof {
            reveal_strlit("Not solar system");
        }
        let system = System { bodies, star, name: String::from_str("Not solar system") };
        proof {
            views_of_each(system.bodies@);
        }
        Ok(system)
    }

    /// Generates a system: a star, between one and ten planets spread over
    /// the three zones, and an orbit for each planet.
    ///
    /// Fails exactly when `names` is empty.
    pub fn generate(rng: &mut StdRng, names: &Vec<String>) -> (outcome: Result<
        System,
        GenerationError,
    >)
        ensures
            outcome is Err <==> names@.len() == 0,
            outcome matches Ok(system) ==> {
                &&& system@.star.is_generated_star()
                &&& system@.name == system_name()
                &&& PLANET_COUNT_MIN <= system@.bodies.len() <= PLANET_COUNT_MAX
                &&& system@.is_populated(system@.bodies.len() as int, names@)
                &&& system@.orbits_clear_star()
            },
    {
        let star = Body::generate_star(rng);
        let planet_count = draw_between(rng, PLANET_COUNT_MIN as u64, PLANET_COUNT_MAX as u64) as i32;
        System::generate_with_count(star, planet_count, rng, names)
    }
}

/// In a populated system every planet orbits outside the Roche limit of the
/// star.
pub proof fn populated_system_clears_star(system: SystemView, count: int, names: Seq<String>)
    requires
        system.is_populated(count, names),
    ensures
        system.bodies.len() == count,
        system.orbits_clear_star(),
{
    let limit = roche_limit(system.star.radius);
    assert forall|i: int| 0 <= i < system.bodies.len() implies (#[trigger] system.bodies[i]).is_clear_of(
        limit,
    ) by {
        let body = system.bodies[i];
        assert(body.is_placed_planet(PlanetZone::at(count, i), names, limit));
        let (planet, orbit_draw) = choose|planet: BodyView, orbit_draw: int|
            {
                &&& planet.is_generated_planet(PlanetZone::at(count, i), names)
                &&& planet.radius_fits_kind()
                &&& ORBIT_DRAW_MIN <= orbit_draw <= ORBIT_DRAW_MAX
                &&& body == #[trigger] placed_model(planet, limit, orbit_draw)
            };
        assert(orbit_radius_of(limit, orbit_draw) > limit);
    }
}

/// In a populated system of four planets or more the first planet was
/// generated for the inner ring.
pub proof fn populated_system_reaches_inner_ring(
    system: SystemView,
    count: int,
    names: Seq<String>,
)
    requires
        system.is_populated(count, names),
        4 <= count <= PLANET_COUNT_MAX,
    ensures
        system.bodies[0].is_placed_planet(
            PlanetZone::InnerRing,
            names,
            roche_limit(system.star.radius),
        ),
{
    quota_covers_count(count);
    assert(system.bodies[0].is_placed_planet(
        PlanetZone::at(count, 0),
        names,
        roche_limit(system.star.radius),
    ));
}

} // verus!
