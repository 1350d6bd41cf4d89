use ad_infinitum::game::arith::isqrt;
use ad_infinitum::game::body::{
    Body, BodyType, GenerationError, PlanetType, PlanetZone, StarType, mass_from_radius,
};
use ad_infinitum::game::system::{
    place_in_orbit, roche_limit_from_radius, System, ZoneQuota, ORBIT_DRAW_MAX, ORBIT_DRAW_MIN,
    ORBIT_STEP,
};
use rand::rngs::StdRng;
use rand::SeedableRng;

fn names() -> Vec<String> {
    vec!["Arrakis".to_string(), "Caladan".to_string(), "Giedi Prime".to_string()]
}

fn zones() -> [PlanetZone; 3] {
    [PlanetZone::InnerRing, PlanetZone::HabitableZone, PlanetZone::OuterRing]
}

fn star_class(body: &Body) -> StarType {
    match body.kind {
        BodyType::Star(class) => class,
        BodyType::Planet(_) => panic!("a planet where a star was expected"),
    }
}

fn planet_kind(body: &Body) -> PlanetType {
    match body.kind {
        BodyType::Planet(kind) => kind,
        BodyType::Star(_) => panic!("a star where a planet was expected"),
    }
}

fn occurs_in(kind: PlanetType, zone: PlanetZone) -> bool {
    (1..=100u64).any(|draw| PlanetType::from_draw(&zone, draw) == kind)
}

fn check_planet(planet: &Body, zone: PlanetZone, names: &Vec<String>) {
    let kind = planet_kind(planet);
    assert!(occurs_in(kind, zone));
    assert!(names.contains(&planet.name));
    assert!(planet.satellites.is_empty());
    assert_eq!(planet.radius == -1, kind == PlanetType::AsteroidRing);
    let (low, high) = kind.density_bounds();
    match kind.size_bounds() {
        None => {
            assert_eq!(planet.radius, -1);
            assert!(planet.mass >= mass_from_radius(-1, low));
            assert!(planet.mass <= mass_from_radius(-1, high));
        }
        Some((smallest, largest)) => {
            let step: i64 = if kind == PlanetType::GasGiant { 5_000 } else { 500 };
            assert!(planet.radius > 0);
            assert_eq!(planet.radius % step, 0);
            assert!(smallest as i64 * step <= planet.radius);
            assert!(planet.radius <= largest as i64 * step);
            assert!(planet.mass >= mass_from_radius(planet.radius, low));
            assert!(planet.mass <= mass_from_radius(planet.radius, high));
        }
    }
}

#[test]
fn star_from_its_draws() {
    let star = Body::new_star(StarType::G, 1_000_000, 1_000_000, 12_345);
    assert_eq!(star.name, "G-12345");
    assert_eq!(star.kind, BodyType::Star(StarType::G));
    assert_eq!(star.mass, 1_980_000_000_000_000_000);
    assert_eq!(star.radius, 695_700);
    assert_eq!(star.orbit_radius, None);
    assert_eq!(star.orbit_period, None);
    assert!(star.satellites.is_empty());
}

#[test]
fn star_radius_rounds_down() {
    let star = Body::new_star(StarType::M, 80_000, 100_001, 999_999);
    assert_eq!(star.name, "M-999999");
    assert_eq!(star.mass, 158_400_000_000_000_000);
    assert_eq!(star.radius, 69_570);
    let largest = Body::new_star(StarType::O, 150_000_000, 100_000_000, 10_000);
    assert_eq!(largest.name, "O-10000");
    assert_eq!(largest.mass, 297_000_000_000_000_000_000);
    assert_eq!(largest.radius, 69_570_000);
}

#[test]
fn generated_star_fits_its_class() {
    for seed in 0..300u64 {
        let mut rng = StdRng::seed_from_u64(seed);
        let star = Body::generate_star(&mut rng);
        let class = star_class(&star);
        assert!(star.mass > 0);
        assert!(star.radius > 0);
        assert!(star.name.starts_with(&format!("{}-", class.to_str())));
        let suffix: u64 = star.name[2..].parse().unwrap();
        assert!((10_000..=999_999).contains(&suffix));
        let (mass_low, mass_high) = class.mass_bounds();
        assert_eq!(star.mass % 1_980_000_000_000, 0);
        let mass_draw = (star.mass / 1_980_000_000_000) as u64;
        assert!(mass_low <= mass_draw && mass_draw <= mass_high);
        let (radius_low, radius_high) = class.radius_bounds();
        assert!(radius_low as i64 * 6957 / 10_000 <= star.radius);
        assert!(star.radius <= radius_high as i64 * 6957 / 10_000);
        assert_eq!(star.orbit_radius, None);
        assert_eq!(star.orbit_period, None);
        assert!(star.satellites.is_empty());
    }
}

#[test]
fn planet_from_its_draws() {
    let rock = Body::new_planet(PlanetType::Rock, 2_000, 4_000, "Arrakis".to_string());
    assert_eq!(rock.name, "Arrakis");
    assert_eq!(rock.kind, BodyType::Planet(PlanetType::Rock));
    assert_eq!(rock.radius, 1_000_000);
    assert_eq!(rock.mass, 50_265_482_464_000_000);
    assert_eq!(rock.orbit_radius, None);
    assert_eq!(rock.orbit_period, None);
    assert!(rock.satellites.is_empty());
    let giant = Body::new_planet(PlanetType::GasGiant, 18_000, 1_600, "Caladan".to_string());
    assert_eq!(giant.radius, 90_000_000);
    assert_eq!(giant.mass, 162_860_163_183_360_000_000);
}

#[test]
fn asteroid_ring_has_no_radius() {
    let ring = Body::new_planet(PlanetType::AsteroidRing, 0, 3_500, "Belt".to_string());
    assert_eq!(ring.radius, -1);
    assert_eq!(ring.mass, 43_982);
    let other = Body::new_planet(PlanetType::AsteroidRing, 12_345, 3_500, "Belt".to_string());
    assert_eq!(other, ring);
}

#[test]
fn mass_formula() {
    assert_eq!(mass_from_radius(1, 1), 12);
    assert_eq!(mass_from_radius(-1, 1), 12);
    assert_eq!(mass_from_radius(0, 5_400), 0);
    assert_eq!(mass_from_radius(10, 1_000), 1_256_637);
    assert_eq!(mass_from_radius(500_000, 700), 2_199_114_857_800_000);
}

#[test]
fn generated_planet_fits_its_zone() {
    let names = names();
    for zone in zones() {
        for seed in 0..300u64 {
            let mut rng = StdRng::seed_from_u64(seed);
            let planet = Body::generate_planet(&zone, &mut rng, &names).unwrap();
            check_planet(&planet, zone, &names);
            assert_eq!(planet.orbit_radius, None);
            assert_eq!(planet.orbit_period, None);
        }
    }
}

#[test]
fn generated_planets_use_every_name() {
    let names = names();
    let mut seen = [false; 3];
    let mut rng = StdRng::seed_from_u64(11);
    for _ in 0..200 {
        let planet = Body::generate_planet(&PlanetZone::OuterRing, &mut rng, &names).unwrap();
        let place = names.iter().position(|name| *name == planet.name).unwrap();
        seen[place] = true;
    }
    assert_eq!(seen, [true, true, true]);
}

#[test]
fn planet_needs_a_name() {
    let mut rng = StdRng::seed_from_u64(1);
    let nothing: Vec<String> = Vec::new();
    for zone in zones() {
        assert_eq!(
            Body::generate_planet(&zone, &mut rng, &nothing),
            Err(GenerationError::ResourceUnavailable)
        );
        assert_eq!(
            Body::generate_planet_with_count(&zone, 3, &mut rng, &nothing),
            Err(GenerationError::ResourceUnavailable)
        );
    }
    assert_eq!(System::generate(&mut rng, &nothing), Err(GenerationError::ResourceUnavailable));
    let star = Body::generate_star(&mut rng);
    assert_eq!(
        System::generate_with_count(star, 1, &mut rng, &nothing),
        Err(GenerationError::ResourceUnavailable)
    );
}

#[test]
fn planets_by_count() {
    let names = names();
    let mut rng = StdRng::seed_from_u64(5);
    for count in 0..8 {
        let planets =
            Body::generate_planet_with_count(&PlanetZone::HabitableZone, count, &mut rng, &names)
                .unwrap();
        assert_eq!(planets.len(), count as usize);
        for planet in &planets {
            check_planet(planet, PlanetZone::HabitableZone, &names);
        }
    }
}

#[test]
fn no_planets_for_a_count_that_is_not_positive() {
    let mut rng = StdRng::seed_from_u64(5);
    let nothing: Vec<String> = Vec::new();
    for count in [0, -1, i32::MIN] {
        assert_eq!(
            Body::generate_planet_with_count(&PlanetZone::InnerRing, count, &mut rng, &names()),
            Ok(Vec::new())
        );
        assert_eq!(
            Body::generate_planet_with_count(&PlanetZone::InnerRing, count, &mut rng, &nothing),
            Ok(Vec::new())
        );
    }
}

#[test]
fn roche_limit_is_eight_fifths_of_the_radius() {
    assert_eq!(roche_limit_from_radius(0), 0);
    assert_eq!(roche_limit_from_radius(5), 8);
    assert_eq!(roche_limit_from_radius(7), 11);
    assert_eq!(roche_limit_from_radius(695_700), 1_113_120);
    assert_eq!(roche_limit_from_radius(69_570_000), 111_312_000);
}

#[test]
fn orbit_from_its_draw() {
    let planet = Body::new_planet(PlanetType::Ice, 1_000, 3_500, "Hoth".to_string());
    let placed = place_in_orbit(planet.clone(), 1_113_120, 2_900);
    assert_eq!(placed.orbit_radius, Some(29_001_113_120));
    assert_eq!(placed.orbit_period, Some(10_589_709_232));
    assert_eq!(placed.name, planet.name);
    assert_eq!(placed.kind, planet.kind);
    assert_eq!(placed.radius, planet.radius);
    assert_eq!(placed.mass, planet.mass);
    assert_eq!(placed.satellites, planet.satellites);
    let far = place_in_orbit(planet, 0, 20_000);
    assert_eq!(far.orbit_radius, Some(200_000_000_000));
    assert_eq!(far.orbit_period, Some(73_029_674_334));
}

#[test]
fn orbit_period_is_the_rounded_root() {
    let planet = Body::new_planet(PlanetType::Rock, 1_000, 3_500, "Vulcan".to_string());
    for draw in [ORBIT_DRAW_MIN, 3_000, 7_777, 19_999, ORBIT_DRAW_MAX] {
        let placed = place_in_orbit(planet.clone(), 111_312_000, draw);
        let radius = placed.orbit_radius.unwrap() as u128;
        assert_eq!(radius, draw as u128 * ORBIT_STEP as u128 + 111_312_000);
        let period = placed.orbit_period.unwrap() as u128;
        assert_eq!(period, isqrt(2 * radius * radius / 15) as u128);
        assert!(15 * period * period <= 2 * radius * radius);
        assert!(period * period <= 2 * radius * radius / 15);
        assert!((period + 1) * (period + 1) > 2 * radius * radius / 15);
    }
}

fn check_system(system: &System, count: usize, names: &Vec<String>) {
    assert_eq!(system.name, "Not solar system");
    assert_eq!(system.bodies.len(), count);
    let limit = roche_limit_from_radius(system.star.radius);
    let quota = ZoneQuota::for_count(count as i32);
    for (place, planet) in system.bodies.iter().enumerate() {
        let zone = if place < quota.inner_ring as usize {
            PlanetZone::InnerRing
        } else if place < (quota.inner_ring + quota.habitable_zone) as usize {
            PlanetZone::HabitableZone
        } else {
            PlanetZone::OuterRing
        };
        check_planet(planet, zone, names);
        let radius = planet.orbit_radius.unwrap();
        assert!(radius > limit);
        let offset = radius - limit;
        assert_eq!(offset % ORBIT_STEP, 0);
        assert!(ORBIT_DRAW_MIN <= offset / ORBIT_STEP && offset / ORBIT_STEP <= ORBIT_DRAW_MAX);
        let wide = radius as u128;
        assert_eq!(planet.orbit_period, Some(isqrt(2 * wide * wide / 15)));
    }
}

#[test]
fn generated_system_holds_its_rules() {
    let names = names();
    let mut counts = [0u32; 11];
    for seed in 0..300u64 {
        let mut rng = StdRng::seed_from_u64(seed);
        let system = System::generate(&mut rng, &names).unwrap();
        assert!(system.star.mass > 0 && system.star.radius > 0);
        star_class(&system.star);
        let count = system.bodies.len();
        assert!((1..=10).contains(&count));
        counts[count] += 1;
        check_system(&system, count, &names);
    }
    assert!(counts[1..].iter().all(|seen| *seen > 0));
}

#[test]
fn same_seed_same_system() {
    let names = names();
    for seed in [0u64, 1, 42, 2024, u64::MAX] {
        let first = System::generate(&mut StdRng::seed_from_u64(seed), &names).unwrap();
        let second = System::generate(&mut StdRng::seed_from_u64(seed), &names).unwrap();
        assert_eq!(first, second);
        assert_eq!(first.star.make_info(), second.star.make_info());
    }
    let one = System::generate(&mut StdRng::seed_from_u64(1), &names).unwrap();
    let two = System::generate(&mut StdRng::seed_from_u64(2), &names).unwrap();
    assert_ne!(one, two);
}

#[test]
fn one_planet_goes_to_the_habitable_zone() {
    let names = names();
    assert_eq!(
        ZoneQuota::for_count(1),
        ZoneQuota { inner_ring: 0, habitable_zone: 1, outer_ring: 0 }
    );
    for seed in 0..100u64 {
        let mut rng = StdRng::seed_from_u64(seed);
        let star = Body::generate_star(&mut rng);
        let system = System::generate_with_count(star.clone(), 1, &mut rng, &names).unwrap();
        assert_eq!(system.star, star);
        assert_eq!(system.bodies.len(), 1);
        check_system(&system, 1, &names);
        let kind = planet_kind(&system.bodies[0]);
        assert!(occurs_in(kind, PlanetZone::HabitableZone));
        assert_ne!(kind, PlanetType::Ice);
    }
}

#[test]
fn ten_planets_fill_the_zones_in_order() {
    let names = names();
    assert_eq!(
        ZoneQuota::for_count(10),
        ZoneQuota { inner_ring: 2, habitable_zone: 2, outer_ring: 6 }
    );
    for seed in 0..100u64 {
        let mut rng = StdRng::seed_from_u64(seed);
        let star = Body::generate_star(&mut rng);
        let system = System::generate_with_count(star, 10, &mut rng, &names).unwrap();
        assert_eq!(system.bodies.len(), 10);
        check_system(&system, 10, &names);
        for planet in &system.bodies[0..2] {
            assert!(occurs_in(planet_kind(planet), PlanetZone::InnerRing));
        }
        for planet in &system.bodies[2..4] {
            assert!(occurs_in(planet_kind(planet), PlanetZone::HabitableZone));
        }
        for planet in &system.bodies[4..10] {
            assert!(occurs_in(planet_kind(planet), PlanetZone::OuterRing));
        }
    }
}

#[test]
fn four_planets_or_more_reach_the_inner_ring() {
    let names = names();
    for count in 4..=10 {
        let mut rng = StdRng::seed_from_u64(count as u64);
        let star = Body::generate_star(&mut rng);
        let system = System::generate_with_count(star, count, &mut rng, &names).unwrap();
        assert!(ZoneQuota::for_count(count).inner_ring >= 1);
        let first = planet_kind(&system.bodies[0]);
        assert!(occurs_in(first, PlanetZone::InnerRing));
        assert!(matches!(
            first,
            PlanetType::AsteroidRing | PlanetType::Rock | PlanetType::Desert
        ));
    }
}

#[test]
fn copies_are_equal() {
    let names = names();
    let system = System::generate(&mut StdRng::seed_from_u64(9), &names).unwrap();
    let mut moon = Body::new_planet(PlanetType::Ice, 1_000, 3_500, "Moon".to_string());
    moon.satellites.push(Body::new_planet(PlanetType::Rock, 1_000, 3_500, "Rock".to_string()));
    let mut planet = system.bodies[0].clone();
    planet.satellites.push(moon);
    let copy = planet.clone();
    assert_eq!(copy, planet);
    assert_eq!(copy.satellites[0].satellites[0].name, "Rock");
    assert_eq!(system.clone(), system);
}
