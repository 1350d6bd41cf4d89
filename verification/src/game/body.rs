//! Bodies of a star system: their kinds, the tables that decide a kind from a
//! uniform draw, and the physical attributes that follow from the kind.

use crate::game::random::{choose_name, draw_between, is_candidate};
use crate::game::text::{
    decimal_digits, decimal_string, scientific, scientific_signed, scientific_text, texts_of,
};
use rand::rngs::StdRng;
use vstd::prelude::*;
use vstd::string::StringExecFns;

verus! {

/// Spectral class of a star, hottest first.
#[derive(Clone, Copy, Debug, PartialEq, Eq, Structural)]
pub enum StarType {
    O,
    B,
    A,
    F,
    G,
    K,
    M,
}

/// What an orbiting body is made of.
#[derive(Clone, Copy, Debug, PartialEq, Eq, Structural)]
pub enum PlanetType {
    AsteroidRing,
    Earthlike,
    Ice,
    Rock,
    Desert,
    GasGiant,
}

/// Either a star or a planet, never both.
#[derive(Clone, Copy, Debug, PartialEq, Eq, Structural)]
pub enum BodyType {
    Star(StarType),
    Planet(PlanetType),
}

/// The orbital zone a planet is generated for. It shapes the planet and is
/// not kept on it.
#[derive(Clone, Copy, Debug, PartialEq, Eq, Structural)]
pub enum PlanetZone {
    InnerRing,
    HabitableZone,
    OuterRing,
}

/// The largest value of the draw that selects a star's class; the smallest is 0.
pub const STAR_DRAW_MAX: u64 = 100;

/// Whether `draw` is a value that the draw of a star's class can give.
pub open spec fn is_star_draw(draw: int) -> bool {
    0 <= draw <= STAR_DRAW_MAX
}

impl StarType {
    /// The letter that names the class.
    pub open spec fn letter(self) -> char {
        match self {
            StarType::O => 'O',
            StarType::B => 'B',
            StarType::A => 'A',
            StarType::F => 'F',
            StarType::G => 'G',
            StarType::K => 'K',
            StarType::M => 'M',
        }
    }

    /// The first draw that selects this class.
    pub open spec fn first_draw(self) -> int {
        match self {
            StarType::O => 0,
            StarType::B => 1,
            StarType::A => 2,
            StarType::F => 3,
            StarType::G => 6,
            StarType::K => 14,
            StarType::M => 26,
        }
    }

    /// The last draw that selects this class.
    pub open spec fn last_draw(self) -> int {
        match self {
            StarType::O => 0,
            StarType::B => 1,
            StarType::A => 2,
            StarType::F => 5,
            StarType::G => 13,
            StarType::K => 25,
            StarType::M => 100,
        }
    }

    /// Whether `draw` falls in the range of this class.
    pub open spec fn selected_by(self, draw: int) -> bool {
        self.first_draw() <= draw <= self.last_draw()
    }

    /// The class after this one in the table, if there is one.
    pub open spec fn successor(self) -> Option<StarType> {
        match self {
            StarType::O => Some(StarType::B),
            StarType::B => Some(StarType::A),
            StarType::A => Some(StarType::F),
            StarType::F => Some(StarType::G),
            StarType::G => Some(StarType::K),
            StarType::K => Some(StarType::M),
            StarType::M => None,
        }
    }

    /// The class letter as a string of one character.
    pub fn to_str(&self) -> (text: String)
        ensures
            text@ == seq![self.letter()],
    {
        proof {
            reveal_strlit("O");
            reveal_strlit("B");
            reveal_strlit("A");
            reveal_strlit("F");
            reveal_strlit("G");
            reveal_strlit("K");
            reveal_strlit("M");
        }
        let text = match self {
            StarType::O => String::from_str("O"),
            StarType::B => String::from_str("B"),
            StarType::A => String::from_str("A"),
            StarType::F => String::from_str("F"),
            StarType::G => String::from_str("G"),
            StarType::K => String::from_str("K"),
            StarType::M => String::from_str("M"),
        };
        assert(text@ =~= seq![self.letter()]);
        text
    }

    /// The class that a draw in `0..=100` selects.
    pub fn from_draw(draw: u64) -> (class: StarType)
        requires
            draw <= STAR_DRAW_MAX,
        ensures
            class.selected_by(draw as int),
    {
        if draw < 1 {
            StarType::O
        } else if draw < 2 {
            StarType::B
        } else if draw < 3 {
            StarType::A
        } else if draw < 6 {
            StarType::F
        } else if draw < 14 {
            StarType::G
        } else if draw < 26 {
            StarType::K
        } else {
            StarType::M
        }
    }
}

/// The ranges of the star classes follow one another from 0 to 100 without a
/// gap, and every draw in `0..=100` selects exactly one class.
pub proof fn star_ranges_partition()
    ensures
        StarType::O.first_draw() == 0,
        StarType::M.last_draw() == STAR_DRAW_MAX,
        forall|class: StarType| class.first_draw() <= class.last_draw(),
        forall|class: StarType|
            (#[trigger] class.successor()) matches Some(next) ==> next.first_draw()
                == class.last_draw() + 1,
        forall|draw: int| #[trigger]
            is_star_draw(draw) ==> exists|class: StarType| #[trigger] class.selected_by(draw),
        forall|class: StarType, draw: int| #[trigger]
            class.selected_by(draw) ==> is_star_draw(draw),
        forall|draw: int, one: StarType, other: StarType|
            #[trigger] one.selected_by(draw) && #[trigger] other.selected_by(draw) ==> one
                == other,
{
    assert forall|draw: int| #[trigger] is_star_draw(draw) implies exists|class: StarType| #[trigger]
        class.selected_by(draw) by {
        if draw < 1 {
            assert(StarType::O.selected_by(draw));
        } else if draw < 2 {
            assert(StarType::B.selected_by(draw));
        } else if draw < 3 {
            assert(StarType::A.selected_by(draw));
        } else if draw < 6 {
            assert(StarType::F.selected_by(draw));
        } else if draw < 14 {
            assert(StarType::G.selected_by(draw));
        } else if draw < 26 {
            assert(StarType::K.selected_by(draw));
        } else {
            assert(StarType::M.selected_by(draw));
        }
    }
}

/// The smallest value of the draw that selects a planet's type.
pub const PLANET_DRAW_MIN: u64 = 1;

/// The largest value of the draw that selects a planet's type.
pub const PLANET_DRAW_MAX: u64 = 100;

/// Whether `draw` is a value that the draw of a planet's type can give.
pub open spec fn is_planet_draw(draw: int) -> bool {
    PLANET_DRAW_MIN <= draw <= PLANET_DRAW_MAX
}

impl PlanetZone {
    /// Whether some planet type is selected by `draw` in this zone.
    pub open spec fn covers(self, draw: int) -> bool {
        exists|kind: PlanetType| #[trigger] kind.selected_by(self, draw)
    }
}

impl PlanetType {
    /// The draws that select this type in `zone`, first and last, if the
    /// type occurs in that zone at all.
    pub open spec fn draw_range(self, zone: PlanetZone) -> Option<(int, int)> {
        match (zone, self) {
            (_, PlanetType::AsteroidRing) => Some((1, 5)),
            (PlanetZone::InnerRing, PlanetType::Rock) => Some((6, 60)),
            (PlanetZone::InnerRing, PlanetType::Desert) => Some((61, 100)),
            (PlanetZone::InnerRing, _) => None,
            (PlanetZone::HabitableZone, PlanetType::GasGiant) => Some((6, 8)),
            (PlanetZone::HabitableZone, PlanetType::Rock) => Some((9, 40)),
            (PlanetZone::HabitableZone, PlanetType::Desert) => Some((41, 90)),
            (PlanetZone::HabitableZone, PlanetType::Earthlike) => Some((91, 100)),
            (PlanetZone::HabitableZone, _) => None,
            (PlanetZone::OuterRing, PlanetType::GasGiant) => Some((6, 75)),
            (PlanetZone::OuterRing, PlanetType::Rock) => Some((76, 80)),
            (PlanetZone::OuterRing, PlanetType::Ice) => Some((81, 90)),
            (PlanetZone::OuterRing, PlanetType::Desert) => Some((91, 100)),
            (PlanetZone::OuterRing, _) => None,
        }
    }

    /// Whether `draw` selects this type in `zone`.
    pub open spec fn selected_by(self, zone: PlanetZone, draw: int) -> bool {
        self.draw_range(zone) matches Some((first, last)) && first <= draw <= last
    }

    /// Whether the range of this type in `zone` begins at `draw`.
    pub open spec fn starts_at(self, zone: PlanetZone, draw: int) -> bool {
        self.draw_range(zone) matches Some((first, _)) && first == draw
    }

    /// Whether the range of this type in `zone`, if it has one, is not empty
    /// and either ends the table or is followed at once by another range.
    pub open spec fn followed_in(self, zone: PlanetZone) -> bool {
        self.draw_range(zone) matches Some((first, last)) ==> first <= last && (last
            == PLANET_DRAW_MAX || exists|next: PlanetType| #[trigger]
            next.starts_at(zone, last + 1))
    }

    /// How many of the hundred draws select this type in `zone`.
    pub open spec fn share(self, zone: PlanetZone) -> int {
        match self.draw_range(zone) {
            Some((first, last)) => last - first + 1,
            None => 0,
        }
    }

    /// The type that a draw in `1..=100` selects in `zone`.
    pub fn from_draw(zone: &PlanetZone, draw: u64) -> (kind: PlanetType)
        requires
            PLANET_DRAW_MIN <= draw <= PLANET_DRAW_MAX,
        ensures
            kind.selected_by(*zone, draw as int),
    {
        if draw <= 5 {
            return PlanetType::AsteroidRing;
        }
        match zone {
            PlanetZone::InnerRing => {
                if draw <= 60 {
                    PlanetType::Rock
                } else {
                    PlanetType::Desert
                }
            },
            PlanetZone::HabitableZone => {
                if draw <= 8 {
                    PlanetType::GasGiant
                } else if draw <= 40 {
                    PlanetType::Rock
                } else if draw <= 90 {
                    PlanetType::Desert
                } else {
                    PlanetType::Earthlike
                }
            },
            PlanetZone::OuterRing => {
                if draw <= 75 {
                    PlanetType::GasGiant
                } else if draw <= 80 {
                    PlanetType::Rock
                } else if draw <= 90 {
                    PlanetType::Ice
                } else {
                    PlanetType::Desert
                }
            },
        }
    }
}

/// In every zone the ranges of the planet types follow one another from 1 to
/// 100 without a gap, every draw in `1..=100` selects exactly one type, the
/// shares add up to 100, and the draws 1 to 5 select an asteroid ring
/// whatever the zone.
pub proof fn planet_ranges_partition()
    ensures
        forall|zone: PlanetZone| #[trigger]
            PlanetType::AsteroidRing.draw_range(zone) == Some((1int, 5int)),
        forall|zone: PlanetZone, kind: PlanetType| #[trigger] kind.followed_in(zone),
        forall|zone: PlanetZone, draw: int|
            is_planet_draw(draw) ==> #[trigger] zone.covers(draw),
        forall|zone: PlanetZone, kind: PlanetType, draw: int| #[trigger]
            kind.selected_by(zone, draw) ==> is_planet_draw(draw),
        forall|zone: PlanetZone, draw: int, one: PlanetType, other: PlanetType|
            #[trigger] one.selected_by(zone, draw) && #[trigger] other.selected_by(zone, draw)
                ==> one == other,
        forall|zone: PlanetZone|
            PlanetType::AsteroidRing.share(zone) + PlanetType::Rock.share(zone)
                + PlanetType::Desert.share(zone) + PlanetType::Ice.share(zone)
                + PlanetType::GasGiant.share(zone) + #[trigger] PlanetType::Earthlike.share(zone)
                == 100,
{
    assert forall|zone: PlanetZone, kind: PlanetType| #[trigger] kind.followed_in(zone) by {
        if kind.draw_range(zone) is Some && kind.draw_range(zone).unwrap().1 != PLANET_DRAW_MAX {
            let last = kind.draw_range(zone).unwrap().1;
            let next = match (zone, kind) {
                (PlanetZone::InnerRing, PlanetType::AsteroidRing) => PlanetType::Rock,
                (PlanetZone::InnerRing, _) => PlanetType::Desert,
                (PlanetZone::HabitableZone, PlanetType::AsteroidRing) => PlanetType::GasGiant,
                (PlanetZone::HabitableZone, PlanetType::GasGiant) => PlanetType::Rock,
                (PlanetZone::HabitableZone, PlanetType::Rock) => PlanetType::Desert,
                (PlanetZone::HabitableZone, _) => PlanetType::Earthlike,
                (PlanetZone::OuterRing, PlanetType::AsteroidRing) => PlanetType::GasGiant,
                (PlanetZone::OuterRing, PlanetType::GasGiant) => PlanetType::Rock,
                (PlanetZone::OuterRing, PlanetType::Rock) => PlanetType::Ice,
                (PlanetZone::OuterRing, _) => PlanetType::Desert,
            };
            assert(next.starts_at(zone, last + 1));
        }
    }
    assert forall|zone: PlanetZone, draw: int| is_planet_draw(draw) implies #[trigger] zone.covers(
        draw,
    ) by {
        let kind = if draw <= 5 {
            PlanetType::AsteroidRing
        } else {
            match zone {
                PlanetZone::InnerRing => if draw <= 60 {
                    PlanetType::Rock
                } else {
                    PlanetType::Desert
                },
                PlanetZone::HabitableZone => if draw <= 8 {
                    PlanetType::GasGiant
                } else if draw <= 40 {
                    PlanetType::Rock
                } else if draw <= 90 {
                    PlanetType::Desert
                } else {
                    PlanetType::Earthlike
                },
                PlanetZone::OuterRing => if draw <= 75 {
                    PlanetType::GasGiant
                } else if draw <= 80 {
                    PlanetType::Rock
                } else if draw <= 90 {
                    PlanetType::Ice
                } else {
                    PlanetType::Desert
                },
            }
        };
        assert(kind.selected_by(zone, draw));
    }
}

/// How many parts of a solar unit a star's draws count in.
pub const STAR_DRAW_PARTS: u64 = 1_000_000;

/// The mass that one part of a solar mass stands for.
pub const SOLAR_MASS_PART: u128 = 1_980_000_000_000;

/// The radius of a star of one solar radius.
pub const SOLAR_RADIUS: u64 = 695_700;

/// The largest radius that a star can have.
pub const STAR_RADIUS_MAX: i64 = 69_570_000;

/// The smallest number that ends a star's name.
pub const STAR_SUFFIX_MIN: u64 = 10_000;

/// The largest number that ends a star's name.
pub const STAR_SUFFIX_MAX: u64 = 999_999;

impl StarType {
    /// The masses of this class, smallest and largest, in millionths of a
    /// solar mass.
    pub open spec fn mass_range(self) -> (int, int) {
        match self {
            StarType::O => (16_000_000, 150_000_000),
            StarType::B => (2_100_000, 16_000_000),
            StarType::A => (1_400_000, 2_100_000),
            StarType::F => (1_040_000, 1_400_000),
            StarType::G => (800_000, 1_040_000),
            StarType::K => (450_000, 800_000),
            StarType::M => (80_000, 450_000),
        }
    }

    /// The radii of this class, smallest and largest, in millionths of a
    /// solar radius.
    pub open spec fn radius_range(self) -> (int, int) {
        match self {
            StarType::O => (6_600_000, 100_000_000),
            StarType::B => (1_800_000, 6_600_000),
            StarType::A => (1_400_000, 1_800_000),
            StarType::F => (1_150_000, 1_400_000),
            StarType::G => (960_000, 1_150_000),
            StarType::K => (700_000, 960_000),
            StarType::M => (100_000, 700_000),
        }
    }

    /// Whether the two draws lie in the ranges of this class.
    pub open spec fn allows(self, mass_draw: int, radius_draw: int) -> bool {
        &&& self.mass_range().0 <= mass_draw <= self.mass_range().1
        &&& self.radius_range().0 <= radius_draw <= self.radius_range().1
    }

    /// The bounds between which the mass of a star of this class is drawn.
    pub fn mass_bounds(&self) -> (bounds: (u64, u64))
        ensures
            bounds.0 == self.mass_range().0,
            bounds.1 == self.mass_range().1,
    {
        match self {
            StarType::O => (16_000_000, 150_000_000),
            StarType::B => (2_100_000, 16_000_000),
            StarType::A => (1_400_000, 2_100_000),
            StarType::F => (1_040_000, 1_400_000),
            StarType::G => (800_000, 1_040_000),
            StarType::K => (450_000, 800_000),
            StarType::M => (80_000, 450_000),
        }
    }

    /// The bounds between which the radius of a star of this class is drawn.
    pub fn radius_bounds(&self) -> (bounds: (u64, u64))
        ensures
            bounds.0 == self.radius_range().0,
            bounds.1 == self.radius_range().1,
    {
        match self {
            StarType::O => (6_600_000, 100_000_000),
            StarType::B => (1_800_000, 6_600_000),
            StarType::A => (1_400_000, 1_800_000),
            StarType::F => (1_150_000, 1_400_000),
            StarType::G => (960_000, 1_150_000),
            StarType::K => (700_000, 960_000),
            StarType::M => (100_000, 700_000),
        }
    }
}

/// The mass of a star whose mass draw is `draw`.
pub open spec fn star_mass(draw: int) -> int {
    draw * SOLAR_MASS_PART
}

/// The radius of a star whose radius draw is `draw`, rounded down.
pub open spec fn star_radius(draw: int) -> int {
    draw * SOLAR_RADIUS / (STAR_DRAW_PARTS as int)
}

/// The name of a star: the letter of its class, a hyphen, and a number.
pub open spec fn star_name(class: StarType, suffix: int) -> Seq<char> {
    seq![class.letter(), '-'] + decimal_digits(suffix as nat)
}

/// A star or a planet with its physical attributes.
///
/// `radius` is -1 for an asteroid ring, which has no solid body. The orbit is
/// absent on a star and on a planet that has not been placed yet.
#[derive(Debug, PartialEq, Eq)]
pub struct Body {
    pub name: String,
    pub kind: BodyType,
    pub radius: i64,
    pub mass: u128,
    pub orbit_radius: Option<u64>,
    pub orbit_period: Option<u64>,
    pub satellites: Vec<Body>,
}

/// What a body is, as plain values: the model that contracts speak of.
pub struct BodyView {
    pub name: Seq<char>,
    pub kind: BodyType,
    pub radius: int,
    pub mass: int,
    pub orbit_radius: Option<int>,
    pub orbit_period: Option<int>,
    pub satellites: Seq<BodyView>,
}

/// The value of an optional number as a mathematical integer.
pub open spec fn optional_int(value: Option<u64>) -> Option<int> {
    match value {
        Some(number) => Some(number as int),
        None => None,
    }
}

impl Body {
    /// The model of this body and, through `views_of`, of its satellites.
    pub open spec fn model(self) -> BodyView
        decreases self,
    {
        BodyView {
            name: self.name@,
            kind: self.kind,
            radius: self.radius as int,
            mass: self.mass as int,
            orbit_radius: optional_int(self.orbit_radius),
            orbit_period: optional_int(self.orbit_period),
            satellites: views_of(self.satellites@),
        }
    }
}

/// The models of a sequence of bodies, one by one.
pub open spec fn views_of(bodies: Seq<Body>) -> Seq<BodyView>
    decreases bodies,
{
    if bodies.len() == 0 {
        Seq::empty()
    } else {
        views_of(bodies.drop_last()).push(bodies.last().model())
    }
}

impl View for Body {
    type V = BodyView;

    open spec fn view(&self) -> BodyView {
        self.model()
    }
}

/// `views_of` keeps the length and maps each body to its model.
pub proof fn views_of_each(bodies: Seq<Body>)
    ensures
        views_of(bodies).len() == bodies.len(),
        forall|i: int| 0 <= i < bodies.len() ==> #[trigger] views_of(bodies)[i] == bodies[i]@,
    decreases bodies.len(),
{
    if bodies.len() > 0 {
        views_of_each(bodies.drop_last());
    }
}

impl Clone for Body {
    /// A copy of the body and of all its satellites.
    fn clone(&self) -> (copy: Body)
        ensures
            copy@ == self@,
        decreases self,
    {
        let mut satellites: Vec<Body> = Vec::new();
        let mut i: usize = 0;
        while i < self.satellites.len()
            invariant
                i <= self.satellites@.len(),
                satellites@.len() == i,
                forall|k: int| 0 <= k < i ==> (#[trigger] satellites@[k])@ == self.satellites@[k]@,
            decreases self.satellites@.len() - i,
        {
            satellites.push(self.satellites[i].clone());
            i += 1;
        }
        let copy = Body {
            name: self.name.clone(),
            kind: self.kind,
            radius: self.radius,
            mass: self.mass,
            orbit_radius: self.orbit_radius,
            orbit_period: self.orbit_period,
            satellites,
        };
        proof {
            views_of_each(copy.satellites@);
            views_of_each(self.satellites@);
        }
        assert(copy@.satellites =~= self@.satellites);
        copy
    }
}

/// The star that the given class, draws and suffix determine: it has no
/// orbit and no satellites.
pub open spec fn star_model(class: StarType, mass_draw: int, radius_draw: int, suffix: int)
    -> BodyView {
    BodyView {
        name: star_name(class, suffix),
        kind: BodyType::Star(class),
        radius: star_radius(radius_draw),
        mass: star_mass(mass_draw),
        orbit_radius: None,
        orbit_period: None,
        satellites: Seq::empty(),
    }
}

impl BodyView {
    /// Whether this is a star that some admissible draws determine.
    pub open spec fn is_generated_star(self) -> bool {
        exists|class: StarType, mass_draw: int, radius_draw: int, suffix: int|
            {
                &&& class.allows(mass_draw, radius_draw)
                &&& STAR_SUFFIX_MIN <= suffix <= STAR_SUFFIX_MAX
                &&& self == #[trigger] star_model(class, mass_draw, radius_draw, suffix)
            }
    }
}

impl Body {
    /// Builds the star of the given class from its draws.
    pub fn new_star(class: StarType, mass_draw: u64, radius_draw: u64, suffix: u64) -> (star: Body)
        requires
            class.allows(mass_draw as int, radius_draw as int),
        ensures
            star@ == star_model(class, mass_draw as int, radius_draw as int, suffix as int),
            star@.mass > 0,
            0 < star@.radius <= STAR_RADIUS_MAX,
    {
        let mass: u128 = (mass_draw as u128) * SOLAR_MASS_PART;
        let radius: u64 = radius_draw * SOLAR_RADIUS / STAR_DRAW_PARTS;
        let mut name = class.to_str();
        let digits = decimal_string(suffix as u128);
        proof {
            reveal_strlit("-");
        }
        name.append("-");
        name.append(digits.as_str());
        assert(name@ =~= star_name(class, suffix as int));
        let star = Body {
            name,
            kind: BodyType::Star(class),
            radius: radius as i64,
            mass,
            orbit_radius: None,
            orbit_period: None,
            satellites: Vec::new(),
        };
        assert(star@.satellites =~= Seq::empty());
        star
    }

    /// Draws a star: its class, then its mass and radius within the ranges of
    /// that class, then the number in its name.
    pub fn generate_star(rng: &mut StdRng) -> (star: Body)
        ensures
            star@.is_generated_star(),
            star@.mass > 0,
            0 < star@.radius <= STAR_RADIUS_MAX,
            star@.kind matches BodyType::Star(class) && star@.name.len() > 2 && star@.name[0]
                == class.letter() && star@.name[1] == '-',
    {
        let class = StarType::from_draw(draw_between(rng, 0, STAR_DRAW_MAX));
        let mass_bounds = class.mass_bounds();
        let mass_draw = draw_between(rng, mass_bounds.0, mass_bounds.1);
        let radius_bounds = class.radius_bounds();
        let radius_draw = draw_between(rng, radius_bounds.0, radius_bounds.1);
        let suffix = draw_between(rng, STAR_SUFFIX_MIN, STAR_SUFFIX_MAX);
        let star = Body::new_star(class, mass_draw, radius_draw, suffix);
        assert(star@ == star_model(class, mass_draw as int, radius_draw as int, suffix as int));
        star
    }
}

/// The radius of an asteroid ring, which has no solid body.
pub const RING_RADIUS: i64 = -1;

/// The largest radius that a planet can have.
pub const PLANET_RADIUS_MAX: i64 = 90_000_000;

/// The largest density that a planet can have.
pub const PLANET_DENSITY_MAX: u64 = 5_400;

/// The circle constant in billionths.
pub const PI_BILLIONTHS: u128 = 3_141_592_654;

/// How many billionths make one.
pub const BILLION: u128 = 1_000_000_000;

/// Why a body could not be generated.
#[derive(Clone, Copy, Debug, PartialEq, Eq, Structural)]
pub enum GenerationError {
    /// There is no name to give to a planet.
    ResourceUnavailable,
}

impl PlanetType {
    /// The sizes of this type, smallest and largest, in thousandths of the
    /// type's unit of size. An asteroid ring has no size.
    pub open spec fn size_range(self) -> Option<(int, int)> {
        match self {
            PlanetType::AsteroidRing => None,
            PlanetType::Earthlike => Some((7_000, 17_000)),
            PlanetType::Ice => Some((1_000, 10_000)),
            PlanetType::Rock => Some((1_000, 10_000)),
            PlanetType::Desert => Some((4_000, 14_000)),
            PlanetType::GasGiant => Some((2_000, 18_000)),
        }
    }

    /// The radius that one thousandth of the type's unit of size stands for.
    pub open spec fn size_step(self) -> int {
        match self {
            PlanetType::GasGiant => 5_000,
            _ => 500,
        }
    }

    /// The densities of this type, smallest and largest.
    pub open spec fn density_range(self) -> (int, int) {
        match self {
            PlanetType::GasGiant => (700, 1_600),
            _ => (3_500, 5_400),
        }
    }

    /// Whether the two draws lie in the ranges of this type. The size of an
    /// asteroid ring is not drawn, so any value passes for it.
    pub open spec fn allows(self, size_draw: int, density_draw: int) -> bool {
        &&& self.size_range() matches Some((smallest, largest)) ==> smallest <= size_draw
            <= largest
        &&& self.density_range().0 <= density_draw <= self.density_range().1
    }

    /// The radius of a planet of this type whose size draw is `size_draw`.
    pub open spec fn radius_of(self, size_draw: int) -> int {
        match self {
            PlanetType::AsteroidRing => RING_RADIUS as int,
            _ => size_draw * self.size_step(),
        }
    }

    /// The bounds between which the size of a planet of this type is drawn,
    /// if it has a size.
    pub fn size_bounds(&self) -> (bounds: Option<(u64, u64)>)
        ensures
            bounds is Some <==> self.size_range() is Some,
            bounds matches Some((smallest, largest)) ==> self.size_range() == Some(
                (smallest as int, largest as int),
            ),
    {
        match self {
            PlanetType::AsteroidRing => None,
            PlanetType::Earthlike => Some((7_000, 17_000)),
            PlanetType::Ice => Some((1_000, 10_000)),
            PlanetType::Rock => Some((1_000, 10_000)),
            PlanetType::Desert => Some((4_000, 14_000)),
            PlanetType::GasGiant => Some((2_000, 18_000)),
        }
    }

    /// The bounds between which the density of a planet of this type is
    /// drawn.
    pub fn density_bounds(&self) -> (bounds: (u64, u64))
        ensures
            bounds.0 == self.density_range().0,
            bounds.1 == self.density_range().1,
    {
        match self {
            PlanetType::GasGiant => (700, 1_600),
            _ => (3_500, 5_400),
        }
    }

    /// Computes the radius of a planet of this type from its size draw.
    pub fn radius_from_draw(&self, size_draw: u64) -> (radius: i64)
        requires
            self.size_range() matches Some((smallest, largest)) ==> smallest <= size_draw
                <= largest,
        ensures
            radius == self.radius_of(size_draw as int),
            radius == RING_RADIUS <==> *self == PlanetType::AsteroidRing,
            *self != PlanetType::AsteroidRing ==> 0 < radius <= PLANET_RADIUS_MAX,
    {
        match self {
            PlanetType::AsteroidRing => RING_RADIUS,
            PlanetType::GasGiant => (size_draw * 5_000) as i64,
            _ => (size_draw * 500) as i64,
        }
    }
}

/// The mass of a planet: four times the circle constant, times the square of
/// the radius, times the density, rounded down.
pub open spec fn planet_mass(radius: int, density: int) -> int {
    4 * PI_BILLIONTHS * radius * radius * density / (BILLION as int)
}

/// Computes the mass of a planet from its radius and density.
pub fn mass_from_radius(radius: i64, density: u64) -> (mass: u128)
    requires
        RING_RADIUS <= radius <= PLANET_RADIUS_MAX,
        density <= PLANET_DENSITY_MAX,
    ensures
        mass == planet_mass(radius as int, density as int),
{
    let side: u128 = if radius < 0 {
        1
    } else {
        radius as u128
    };
    assert(side * side == radius * radius) by (nonlinear_arith)
        requires
            side == radius || (side == 1 && radius == -1),
    ;
    assert(side * side <= 90_000_000 * 90_000_000) by (nonlinear_arith)
        requires
            side <= 90_000_000,
    ;
    let area: u128 = side * side;
    assert(area * density <= 8_100_000_000_000_000 * 5_400) by (nonlinear_arith)
        requires
            area <= 8_100_000_000_000_000,
            density <= 5_400,
    ;
    let weight: u128 = area * (density as u128);
    assert(4 * PI_BILLIONTHS * weight <= 12_566_370_616 * 43_740_000_000_000_000_000)
        by (nonlinear_arith)
        requires
            weight <= 43_740_000_000_000_000_000,
            PI_BILLIONTHS == 3_141_592_654,
    ;
    assert(4 * PI_BILLIONTHS * radius * radius * density == 4 * PI_BILLIONTHS * weight)
        by (nonlinear_arith)
        requires
            weight == radius * radius * density,
    ;
    4 * PI_BILLIONTHS * weight / BILLION
}

/// The planet of the given type that the draws and the name determine: it has
/// no orbit yet and no satellites.
pub open spec fn planet_model(
    kind: PlanetType,
    size_draw: int,
    density_draw: int,
    name: Seq<char>,
) -> BodyView {
    BodyView {
        name,
        kind: BodyType::Planet(kind),
        radius: kind.radius_of(size_draw),
        mass: planet_mass(kind.radius_of(size_draw), density_draw),
        orbit_radius: None,
        orbit_period: None,
        satellites: Seq::empty(),
    }
}

impl BodyView {
    /// Whether this is a planet of a type that occurs in `zone`, determined
    /// by some admissible draws, and named by one of `names`.
    pub open spec fn is_generated_planet(self, zone: PlanetZone, names: Seq<String>) -> bool {
        exists|kind: PlanetType, size_draw: int, density_draw: int, name: Seq<char>|
            {
                &&& kind.draw_range(zone) is Some
                &&& kind.allows(size_draw, density_draw)
                &&& is_candidate(names, name)
                &&& self == #[trigger] planet_model(kind, size_draw, density_draw, name)
            }
    }

    /// Whether the radius is the sign of an asteroid ring exactly on an
    /// asteroid ring, and positive on every other planet.
    pub open spec fn radius_fits_kind(self) -> bool {
        &&& self.radius == RING_RADIUS <==> self.kind == BodyType::Planet(PlanetType::AsteroidRing)
        &&& self.kind != BodyType::Planet(PlanetType::AsteroidRing) ==> self.radius > 0
    }
}

impl Body {
    /// Builds the planet of the given type from its draws and its name.
    pub fn new_planet(kind: PlanetType, size_draw: u64, density_draw: u64, name: String) -> (planet:
        Body)
        requires
            kind.allows(size_draw as int, density_draw as int),
        ensures
            planet@ == planet_model(kind, size_draw as int, density_draw as int, name@),
            planet@.radius_fits_kind(),
    {
        let radius = kind.radius_from_draw(size_draw);
        let mass = mass_from_radius(radius, density_draw);
        let planet = Body {
            name,
            kind: BodyType::Planet(kind),
            radius,
            mass,
            orbit_radius: None,
            orbit_period: None,
            satellites: Vec::new(),
        };
        assert(planet@.satellites =~= Seq::empty());
        planet
    }

    /// Draws a planet for `zone`: its type, then its size and density within
    /// the ranges of that type, then its name out of `names`.
    ///
    /// Fails, before anything is drawn, exactly when `names` is empty.
    pub fn generate_planet(zone: &PlanetZone, rng: &mut StdRng, names: &Vec<String>) -> (outcome:
        Result<Body, GenerationError>)
        ensures
            outcome is Err <==> names@.len() == 0,
            outcome matches Ok(planet) ==> planet@.is_generated_planet(*zone, names@)
                && planet@.radius_fits_kind(),
    {
        if names.len() == 0 {
            return Err(GenerationError::ResourceUnavailable);
        }
        let kind = PlanetType::from_draw(zone, draw_between(rng, PLANET_DRAW_MIN, PLANET_DRAW_MAX));
        let size_draw = match kind.size_bounds() {
            Some((smallest, largest)) => draw_between(rng, smallest, largest),
            None => 0,
        };
        let density_bounds = kind.density_bounds();
        let density_draw = draw_between(rng, density_bounds.0, density_bounds.1);
        match choose_name(rng, names) {
            Some(name) => {
                let planet = Body::new_planet(kind, size_draw, density_draw, name);
                assert(planet@ == planet_model(
                    kind,
                    size_draw as int,
                    density_draw as int,
                    name@,
                ));
                Ok(planet)
            },
            None => Err(GenerationError::ResourceUnavailable),
        }
    }

    /// Draws `count` planets for `zone`, one after the other; none when
    /// `count` is not positive.
    ///
    /// Fails exactly when a planet is asked for and `names` is empty.
    pub fn generate_planet_with_count(
        zone: &PlanetZone,
        count: i32,
        rng: &mut StdRng,
        names: &Vec<String>,
    ) -> (outcome: Result<Vec<Body>, GenerationError>)
        ensures
            outcome is Err <==> count > 0 && names@.len() == 0,
            outcome matches Ok(planets) ==> {
                &&& planets@.len() == if count > 0 {
                    count as int
                } else {
                    0
                }
                &&& forall|i: int|
                    0 <= i < planets@.len() ==> (#[trigger] planets@[i])@.is_generated_planet(
                        *zone,
                        names@,
                    ) && planets@[i]@.radius_fits_kind()
            },
    {
        let mut planets: Vec<Body> = Vec::new();
        let mut made: i32 = 0;
        while made < count
            invariant
                0 <= made,
                made <= count || made == 0,
                made > 0 ==> names@.len() > 0,
                planets@.len() == made,
                forall|i: int|
                    0 <= i < planets@.len() ==> (#[trigger] planets@[i])@.is_generated_planet(
                        *zone,
                        names@,
                    ) && planets@[i]@.radius_fits_kind(),
            decreases count - made,
        {
            match Body::generate_planet(zone, rng, names) {
                Ok(planet) => {
                    planets.push(planet);
                },
                Err(error) => {
                    return Err(error);
                },
            }
            made += 1;
        }
        Ok(planets)
    }
}

/// The colour in which a body is shown.
#[derive(Clone, Copy, Debug, PartialEq, Eq, Structural)]
pub enum BodyColor {
    /// Red, green and blue.
    Rgb(u8, u8, u8),
    /// A place in the palette of 256 colours.
    Indexed(u8),
    LightBlue,
    LightCyan,
    DarkGray,
    LightYellow,
    LightRed,
}

impl BodyType {
    /// The colour that stands for this kind.
    pub open spec fn display_color(self) -> BodyColor {
        match self {
            BodyType::Planet(PlanetType::AsteroidRing) => BodyColor::Rgb(100, 100, 100),
            BodyType::Planet(PlanetType::Earthlike) => BodyColor::LightBlue,
            BodyType::Planet(PlanetType::Ice) => BodyColor::LightCyan,
            BodyType::Planet(PlanetType::Rock) => BodyColor::DarkGray,
            BodyType::Planet(PlanetType::Desert) => BodyColor::LightYellow,
            BodyType::Planet(PlanetType::GasGiant) => BodyColor::LightRed,
            BodyType::Star(StarType::O) => BodyColor::Indexed(27),
            BodyType::Star(StarType::B) => BodyColor::Indexed(33),
            BodyType::Star(StarType::A) => BodyColor::Indexed(195),
            BodyType::Star(StarType::F) => BodyColor::Indexed(231),
            BodyType::Star(StarType::G) => BodyColor::Indexed(230),
            BodyType::Star(StarType::K) => BodyColor::Indexed(216),
            BodyType::Star(StarType::M) => BodyColor::Indexed(160),
        }
    }

    /// What this kind is called in words.
    pub open spec fn description(self) -> Seq<char> {
        match self {
            BodyType::Star(class) => seq![class.letter()] + " class star"@,
            BodyType::Planet(PlanetType::AsteroidRing) => "Asteroid ring"@,
            BodyType::Planet(PlanetType::Earthlike) => "Earthlike planet"@,
            BodyType::Planet(PlanetType::Ice) => "Frozen planet"@,
            BodyType::Planet(PlanetType::Rock) => "Rocky planet"@,
            BodyType::Planet(PlanetType::Desert) => "Deserted planet"@,
            BodyType::Planet(PlanetType::GasGiant) => "Gas giant"@,
        }
    }

    /// Picks the colour that stands for this kind.
    pub fn color(&self) -> (color: BodyColor)
        ensures
            color == self.display_color(),
    {
        match self {
            BodyType::Planet(kind) => match kind {
                PlanetType::AsteroidRing => BodyColor::Rgb(100, 100, 100),
                PlanetType::Earthlike => BodyColor::LightBlue,
                PlanetType::Ice => BodyColor::LightCyan,
                PlanetType::Rock => BodyColor::DarkGray,
                PlanetType::Desert => BodyColor::LightYellow,
                PlanetType::GasGiant => BodyColor::LightRed,
            },
            BodyType::Star(class) => BodyColor::Indexed(
                match class {
                    StarType::O => 27,
                    StarType::B => 33,
                    StarType::A => 195,
                    StarType::F => 231,
                    StarType::G => 230,
                    StarType::K => 216,
                    StarType::M => 160,
                },
            ),
        }
    }
}

/// The lines that describe a body: its name, mass, radius, kind and orbit.
/// A body without an orbit shows an orbit of radius zero.
pub open spec fn info_lines(body: BodyView) -> Seq<Seq<char>> {
    seq![
        "Name: "@ + body.name,
        "Mass: "@ + scientific_text(body.mass) + " kg"@,
        "Radius: "@ + scientific_text(body.radius) + " m"@,
        "Type: "@ + body.kind.description(),
        "Orbit radius: "@ + scientific_text(
            match body.orbit_radius {
                Some(radius) => radius,
                None => 0,
            },
        ) + " km"@,
    ]
}

impl Body {
    /// Says in words what kind of body this is.
    pub fn get_class_as_string(&self) -> (text: String)
        ensures
            text@ == self@.kind.description(),
    {
        match self.kind {
            BodyType::Star(class) => {
                let mut text = class.to_str();
                text.append(" class star");
                text
            },
            BodyType::Planet(kind) => match kind {
                PlanetType::AsteroidRing => String::from_str("Asteroid ring"),
                PlanetType::Earthlike => String::from_str("Earthlike planet"),
                PlanetType::Ice => String::from_str("Frozen planet"),
                PlanetType::Rock => String::from_str("Rocky planet"),
                PlanetType::Desert => String::from_str("Deserted planet"),
                PlanetType::GasGiant => String::from_str("Gas giant"),
            },
        }
    }

    /// Describes the body in five lines, for display.
    pub fn make_info(&self) -> (lines: Vec<String>)
        ensures
            texts_of(lines@) == info_lines(self@),
    {
        let mut lines: Vec<String> = Vec::new();

        let mut name = String::from_str("Name: ");
        name.append(self.name.as_str());
        lines.push(name);

        let mut mass = String::from_str("Mass: ");
        mass.append(scientific(self.mass).as_str());
        mass.append(" kg");
        lines.push(mass);

        let mut radius = String::from_str("Radius: ");
        radius.append(scientific_signed(self.radius).as_str());
        radius.append(" m");
        lines.push(radius);

        let mut kind = String::from_str("Type: ");
        kind.append(self.get_class_as_string().as_str());
        lines.push(kind);

        let orbit_radius: u64 = match self.orbit_radius {
            Some(radius) => radius,
            None => 0,
        };
        let mut orbit = String::from_str("Orbit radius: ");
        orbit.append(scientific(orbit_radius as u128).as_str());
        orbit.append(" km");
        lines.push(orbit);

        assert(texts_of(lines@) =~= info_lines(self@));
        lines
    }
}

} // verus!
