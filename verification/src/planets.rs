//! Planets, zodiac signs, elements and moon phases, and a planet's place on the ecliptic.
//!
//! Angles are held in thousandths of a degree ("millidegrees"): 360° is `360_000`.
use vstd::prelude::*;

verus! {

/// A full turn of the ecliptic, in millidegrees.
pub const FULL_CIRCLE: i64 = 360_000;

/// The classical planets that the scheduler consults.
#[derive(Debug, Clone, Copy, PartialEq, Eq, Hash, Structural)]
pub enum Planet {
    Sun,
    Moon,
    Mercury,
    Venus,
    Mars,
    Jupiter,
    Saturn,
}

/// The four classical elements.
#[derive(Debug, Clone, Copy, PartialEq, Eq, Hash, Structural)]
pub enum Element {
    Fire,
    Earth,
    Air,
    Water,
}

/// The signs of the zodiac; `Ophiuchus` only occurs in the 13-sign system.
#[derive(Debug, Clone, Copy, PartialEq, Eq, Hash, Structural)]
pub enum ZodiacSign {
    Aries,
    Taurus,
    Gemini,
    Cancer,
    Leo,
    Virgo,
    Libra,
    Scorpio,
    Ophiuchus,
    Sagittarius,
    Capricorn,
    Aquarius,
    Pisces,
}

/// The eight phases of the Moon.
#[derive(Debug, Clone, Copy, PartialEq, Eq, Hash, Structural)]
pub enum MoonPhase {
    NewMoon,
    WaxingCrescent,
    FirstQuarter,
    WaxingGibbous,
    FullMoon,
    WaningGibbous,
    LastQuarter,
    WaningCrescent,
}

/// Where a planet stands: its ecliptic longitude (millidegrees), sign, motion and,
/// for the Moon, its phase.
#[derive(Debug, Clone, Copy, PartialEq, Eq, Structural)]
pub struct PlanetaryPosition {
    pub planet: Planet,
    pub longitude: i32,
    pub sign: ZodiacSign,
    pub retrograde: bool,
    pub moon_phase: Option<MoonPhase>,
}

/// `angle` reduced to `[0, FULL_CIRCLE)`.
pub open spec fn normalize_angle(angle: int) -> int {
    angle % (FULL_CIRCLE as int)
}

/// Reduces an angle in millidegrees to `[0, 360_000)` (`rem_euclid(360.0)`).
pub fn normalize_millidegrees(angle: i64) -> (r: i64)
    ensures
        r == normalize_angle(angle as int),
        0 <= r < FULL_CIRCLE,
{
    let r = angle % FULL_CIRCLE;
    if r < 0 {
        r + FULL_CIRCLE
    } else {
        r
    }
}

impl Planet {
    pub open spec fn spec_name(self) -> Seq<char> {
        match self {
            Planet::Sun => "Sun"@,
            Planet::Moon => "Moon"@,
            Planet::Mercury => "Mercury"@,
            Planet::Venus => "Venus"@,
            Planet::Mars => "Mars"@,
            Planet::Jupiter => "Jupiter"@,
            Planet::Saturn => "Saturn"@,
        }
    }

    pub fn name(self) -> (s: &'static str)
        ensures
            s@ == self.spec_name(),
    {
        match self {
            Planet::Sun => "Sun",
            Planet::Moon => "Moon",
            Planet::Mercury => "Mercury",
            Planet::Venus => "Venus",
            Planet::Mars => "Mars",
            Planet::Jupiter => "Jupiter",
            Planet::Saturn => "Saturn",
        }
    }

    pub open spec fn spec_domain(self) -> Seq<char> {
        match self {
            Planet::Sun => "vitality, critical tasks"@,
            Planet::Moon => "moods, lunar cycles"@,
            Planet::Mercury => "communication, network and interactive tasks"@,
            Planet::Venus => "beauty, desktop and UI"@,
            Planet::Mars => "energy, CPU-intensive tasks"@,
            Planet::Jupiter => "expansion, memory-heavy tasks"@,
            Planet::Saturn => "structure, system services"@,
        }
    }

    /// The part of the machine this planet rules.
    pub fn domain(self) -> (s: &'static str)
        ensures
            s@ == self.spec_domain(),
    {
        match self {
            Planet::Sun => "vitality, critical tasks",
            Planet::Moon => "moods, lunar cycles",
            Planet::Mercury => "communication, network and interactive tasks",
            Planet::Venus => "beauty, desktop and UI",
            Planet::Mars => "energy, CPU-intensive tasks",
            Planet::Jupiter => "expansion, memory-heavy tasks",
            Planet::Saturn => "structure, system services",
        }
    }
}

impl Element {
    pub open spec fn spec_name(self) -> Seq<char> {
        match self {
            Element::Fire => "Fire"@,
            Element::Earth => "Earth"@,
            Element::Air => "Air"@,
            Element::Water => "Water"@,
        }
    }

    pub fn name(self) -> (s: &'static str)
        ensures
            s@ == self.spec_name(),
    {
        match self {
            Element::Fire => "Fire",
            Element::Earth => "Earth",
            Element::Air => "Air",
            Element::Water => "Water",
        }
    }
}

impl ZodiacSign {
    pub open spec fn spec_name(self) -> Seq<char> {
        match self {
            ZodiacSign::Aries => "Aries"@,
            ZodiacSign::Taurus => "Taurus"@,
            ZodiacSign::Gemini => "Gemini"@,
            ZodiacSign::Cancer => "Cancer"@,
            ZodiacSign::Leo => "Leo"@,
            ZodiacSign::Virgo => "Virgo"@,
            ZodiacSign::Libra => "Libra"@,
            ZodiacSign::Scorpio => "Scorpio"@,
            ZodiacSign::Ophiuchus => "Ophiuchus"@,
            ZodiacSign::Sagittarius => "Sagittarius"@,
            ZodiacSign::Capricorn => "Capricorn"@,
            ZodiacSign::Aquarius => "Aquarius"@,
            ZodiacSign::Pisces => "Pisces"@,
        }
    }

    pub fn name(self) -> (s: &'static str)
        ensures
            s@ == self.spec_name(),
    {
        match self {
            ZodiacSign::Aries => "Aries",
            ZodiacSign::Taurus => "Taurus",
            ZodiacSign::Gemini => "Gemini",
            ZodiacSign::Cancer => "Cancer",
            ZodiacSign::Leo => "Leo",
            ZodiacSign::Virgo => "Virgo",
            ZodiacSign::Libra => "Libra",
            ZodiacSign::Scorpio => "Scorpio",
            ZodiacSign::Ophiuchus => "Ophiuchus",
            ZodiacSign::Sagittarius => "Sagittarius",
            ZodiacSign::Capricorn => "Capricorn",
            ZodiacSign::Aquarius => "Aquarius",
            ZodiacSign::Pisces => "Pisces",
        }
    }

    pub open spec fn spec_element(self) -> Element {
        match self {
            ZodiacSign::Aries | ZodiacSign::Leo | ZodiacSign::Sagittarius | ZodiacSign::Ophiuchus => Element::Fire,
            ZodiacSign::Gemini | ZodiacSign::Libra | ZodiacSign::Aquarius => Element::Air,
            ZodiacSign::Taurus | ZodiacSign::Virgo | ZodiacSign::Capricorn => Element::Earth,
            ZodiacSign::Cancer | ZodiacSign::Scorpio | ZodiacSign::Pisces => Element::Water,
        }
    }

    /// The element of the sign; Ophiuchus counts as Fire.
    pub fn element(self) -> (e: Element)
        ensures
            e == self.spec_element(),
    {
        match self {
            ZodiacSign::Aries | ZodiacSign::Leo | ZodiacSign::Sagittarius | ZodiacSign::Ophiuchus => Element::Fire,
            ZodiacSign::Gemini | ZodiacSign::Libra | ZodiacSign::Aquarius => Element::Air,
            ZodiacSign::Taurus | ZodiacSign::Virgo | ZodiacSign::Capricorn => Element::Earth,
            ZodiacSign::Cancer | ZodiacSign::Scorpio | ZodiacSign::Pisces => Element::Water,
        }
    }

    /// The sign of the tropical zodiac: twelve equal 30° divisions from 0° Aries.
    pub open spec fn tropical(norm: int) -> ZodiacSign {
        if norm < 30_000 {
            ZodiacSign::Aries
        } else if norm < 60_000 {
            ZodiacSign::Taurus
        } else if norm < 90_000 {
            ZodiacSign::Gemini
        } else if norm < 120_000 {
            ZodiacSign::Cancer
        } else if norm < 150_000 {
            ZodiacSign::Leo
        } else if norm < 180_000 {
            ZodiacSign::Virgo
        } else if norm < 210_000 {
            ZodiacSign::Libra
        } else if norm < 240_000 {
            ZodiacSign::Scorpio
        } else if norm < 270_000 {
            ZodiacSign::Sagittarius
        } else if norm < 300_000 {
            ZodiacSign::Capricorn
        } else if norm < 330_000 {
            ZodiacSign::Aquarius
        } else {
            ZodiacSign::Pisces
        }
    }

    /// The constellation of the 13-sign zodiac with IAU boundaries.
    pub open spec fn sidereal13(norm: int) -> ZodiacSign {
        if norm < 29_000 {
            ZodiacSign::Pisces
        } else if norm < 53_500 {
            ZodiacSign::Aries
        } else if norm < 90_500 {
            ZodiacSign::Taurus
        } else if norm < 118_000 {
            ZodiacSign::Gemini
        } else if norm < 138_000 {
            ZodiacSign::Cancer
        } else if norm < 174_000 {
            ZodiacSign::Leo
        } else if norm < 218_000 {
            ZodiacSign::Virgo
        } else if norm < 241_000 {
            ZodiacSign::Libra
        } else if norm < 248_000 {
            ZodiacSign::Scorpio
        } else if norm < 266_000 {
            ZodiacSign::Ophiuchus
        } else if norm < 299_500 {
            ZodiacSign::Sagittarius
        } else if norm < 327_500 {
            ZodiacSign::Capricorn
        } else if norm < 351_500 {
            ZodiacSign::Aquarius
        } else {
            ZodiacSign::Pisces
        }
    }

    pub open spec fn spec_from_longitude(longitude: int, use_13_signs: bool) -> ZodiacSign {
        let norm = normalize_angle(longitude);
        if use_13_signs {
            ZodiacSign::sidereal13(norm)
        } else {
            ZodiacSign::tropical(norm)
        }
    }

    /// The sign at an ecliptic longitude (millidegrees, any turn), in the 12- or 13-sign zodiac.
    pub fn from_longitude(longitude: i32, use_13_signs: bool) -> (s: ZodiacSign)
        ensures
            s == ZodiacSign::spec_from_longitude(longitude as int, use_13_signs),
    {
        let norm = normalize_millidegrees(longitude as i64);
        if use_13_signs {
            if norm < 29_000 {
                ZodiacSign::Pisces
            } else if norm < 53_500 {
                ZodiacSign::Aries
            } else if norm < 90_500 {
                ZodiacSign::Taurus
            } else if norm < 118_000 {
                ZodiacSign::Gemini
            } else if norm < 138_000 {
                ZodiacSign::Cancer
            } else if norm < 174_000 {
                ZodiacSign::Leo
            } else if norm < 218_000 {
                ZodiacSign::Virgo
            } else if norm < 241_000 {
                ZodiacSign::Libra
            } else if norm < 248_000 {
                ZodiacSign::Scorpio
            } else if norm < 266_000 {
                ZodiacSign::Ophiuchus
            } else if norm < 299_500 {
                ZodiacSign::Sagittarius
            } else if norm < 327_500 {
                ZodiacSign::Capricorn
            } else if norm < 351_500 {
                ZodiacSign::Aquarius
            } else {
                ZodiacSign::Pisces
            }
        } else {
            if norm < 30_000 {
                ZodiacSign::Aries
            } else if norm < 60_000 {
                ZodiacSign::Taurus
            } else if norm < 90_000 {
                ZodiacSign::Gemini
            } else if norm < 120_000 {
                ZodiacSign::Cancer
            } else if norm < 150_000 {
                ZodiacSign::Leo
            } else if norm < 180_000 {
                ZodiacSign::Virgo
            } else if norm < 210_000 {
                ZodiacSign::Libra
            } else if norm < 240_000 {
                ZodiacSign::Scorpio
            } else if norm < 270_000 {
                ZodiacSign::Sagittarius
            } else if norm < 300_000 {
                ZodiacSign::Capricorn
            } else if norm < 330_000 {
                ZodiacSign::Aquarius
            } else {
                ZodiacSign::Pisces
            }
        }
    }
}

impl MoonPhase {
    pub open spec fn spec_name(self) -> Seq<char> {
        match self {
            MoonPhase::NewMoon => "New"@,
            MoonPhase::WaxingCrescent => "Waxing Crescent"@,
            MoonPhase::FirstQuarter => "First Quarter"@,
            MoonPhase::WaxingGibbous => "Waxing Gibbous"@,
            MoonPhase::FullMoon => "Full"@,
            MoonPhase::WaningGibbous => "Waning Gibbous"@,
            MoonPhase::LastQuarter => "Last Quarter"@,
            MoonPhase::WaningCrescent => "Waning Crescent"@,
        }
    }

    pub fn name(self) -> (s: &'static str)
        ensures
            s@ == self.spec_name(),
    {
        match self {
            MoonPhase::NewMoon => "New",
            MoonPhase::WaxingCrescent => "Waxing Crescent",
            MoonPhase::FirstQuarter => "First Quarter",
            MoonPhase::WaxingGibbous => "Waxing Gibbous",
            MoonPhase::FullMoon => "Full",
            MoonPhase::WaningGibbous => "Waning Gibbous",
            MoonPhase::LastQuarter => "Last Quarter",
            MoonPhase::WaningCrescent => "Waning Crescent",
        }
    }

    /// The phase for a Sun–Moon elongation: eight 45° sectors, New Moon centred on 0°.
    pub open spec fn spec_from_angle(angle: int) -> MoonPhase {
        let norm = normalize_angle(angle);
        if norm < 22_500 {
            MoonPhase::NewMoon
        } else if norm < 67_500 {
            MoonPhase::WaxingCrescent
        } else if norm < 112_500 {
            MoonPhase::FirstQuarter
        } else if norm < 157_500 {
            MoonPhase::WaxingGibbous
        } else if norm < 202_500 {
            MoonPhase::FullMoon
        } else if norm < 247_500 {
            MoonPhase::WaningGibbous
        } else if norm < 292_500 {
            MoonPhase::LastQuarter
        } else if norm < 337_500 {
            MoonPhase::WaningCrescent
        } else {
            MoonPhase::NewMoon
        }
    }

    pub fn from_angle(angle: i32) -> (p: MoonPhase)
        ensures
            p == MoonPhase::spec_from_angle(angle as int),
    {
        let norm = normalize_millidegrees(angle as i64);
        if norm < 22_500 {
            MoonPhase::NewMoon
        } else if norm < 67_500 {
            MoonPhase::WaxingCrescent
        } else if norm < 112_500 {
            MoonPhase::FirstQuarter
        } else if norm < 157_500 {
            MoonPhase::WaxingGibbous
        } else if norm < 202_500 {
            MoonPhase::FullMoon
        } else if norm < 247_500 {
            MoonPhase::WaningGibbous
        } else if norm < 292_500 {
            MoonPhase::LastQuarter
        } else if norm < 337_500 {
            MoonPhase::WaningCrescent
        } else {
            MoonPhase::NewMoon
        }
    }
}

/// The first position of `planet` in `positions`, if any.
pub open spec fn find_position(positions: Seq<PlanetaryPosition>, planet: Planet) -> Option<PlanetaryPosition>
    decreases positions.len(),
{
    if positions.len() == 0 {
        None
    } else if positions[0].planet == planet {
        Some(positions[0])
    } else {
        find_position(positions.drop_first(), planet)
    }
}

/// The first position of `planet` (`iter().find(|p| p.planet == planet)`).
pub fn position_of(positions: &[PlanetaryPosition], planet: Planet) -> (r: Option<PlanetaryPosition>)
    ensures
        r == find_position(positions@, planet),
{
    let mut i: usize = 0;
    assert(positions@.skip(0) == positions@);
    while i < positions.len()
        invariant
            i <= positions@.len(),
            find_position(positions@, planet) == find_position(positions@.skip(i as int), planet),
        decreases positions@.len() - i,
    {
        assert(positions@.skip(i as int).drop_first() == positions@.skip(i + 1));
        if positions[i].planet == planet {
            return Some(positions[i]);
        }
        i = i + 1;
    }
    None
}


/// The twelve tropical signs are equal 30° divisions from 0° Aries in zodiac order, and a
/// longitude's sign depends only on where it falls in the turn.
pub proof fn lemma_tropical_signs(longitude: int)
    ensures
        ({
            let n = normalize_angle(longitude);
            let s = ZodiacSign::spec_from_longitude(longitude, false);
            &&& 0 <= n < 360_000
            &&& n < 30_000 ==> s == ZodiacSign::Aries
            &&& 30_000 <= n < 60_000 ==> s == ZodiacSign::Taurus
            &&& 60_000 <= n < 90_000 ==> s == ZodiacSign::Gemini
            &&& 90_000 <= n < 120_000 ==> s == ZodiacSign::Cancer
            &&& 120_000 <= n < 150_000 ==> s == ZodiacSign::Leo
            &&& 150_000 <= n < 180_000 ==> s == ZodiacSign::Virgo
            &&& 180_000 <= n < 210_000 ==> s == ZodiacSign::Libra
            &&& 210_000 <= n < 240_000 ==> s == ZodiacSign::Scorpio
            &&& 240_000 <= n < 270_000 ==> s == ZodiacSign::Sagittarius
            &&& 270_000 <= n < 300_000 ==> s == ZodiacSign::Capricorn
            &&& 300_000 <= n < 330_000 ==> s == ZodiacSign::Aquarius
            &&& 330_000 <= n ==> s == ZodiacSign::Pisces
            &&& s != ZodiacSign::Ophiuchus
        }),
        ZodiacSign::spec_from_longitude(longitude + 360_000, false) == ZodiacSign::spec_from_longitude(longitude, false),
        ZodiacSign::spec_from_longitude(longitude + 360_000, true) == ZodiacSign::spec_from_longitude(longitude, true),
{
    assert(normalize_angle(longitude + 360_000) == normalize_angle(longitude)) by {
        vstd::arithmetic::div_mod::lemma_mod_add_multiples_vanish(longitude, 360_000);
    }
}

/// The thirteen constellations on the ecliptic with their IAU boundaries: Pisces 351.5°–29°
/// (across 0°), Aries to 53.5°, Taurus to 90.5°, Gemini to 118°, Cancer to 138°, Leo to 174°,
/// Virgo to 218°, Libra to 241°, Scorpio to 248°, Ophiuchus to 266°, Sagittarius to 299.5°,
/// Capricorn to 327.5°, Aquarius to 351.5°.
pub proof fn lemma_thirteen_signs(longitude: int)
    ensures
        ({
            let n = normalize_angle(longitude);
            let s = ZodiacSign::spec_from_longitude(longitude, true);
            &&& (n < 29_000 || 351_500 <= n) ==> s == ZodiacSign::Pisces
            &&& 29_000 <= n < 53_500 ==> s == ZodiacSign::Aries
            &&& 53_500 <= n < 90_500 ==> s == ZodiacSign::Taurus
            &&& 90_500 <= n < 118_000 ==> s == ZodiacSign::Gemini
            &&& 118_000 <= n < 138_000 ==> s == ZodiacSign::Cancer
            &&& 138_000 <= n < 174_000 ==> s == ZodiacSign::Leo
            &&& 174_000 <= n < 218_000 ==> s == ZodiacSign::Virgo
            &&& 218_000 <= n < 241_000 ==> s == ZodiacSign::Libra
            &&& 241_000 <= n < 248_000 ==> s == ZodiacSign::Scorpio
            &&& 248_000 <= n < 266_000 ==> s == ZodiacSign::Ophiuchus
            &&& 266_000 <= n < 299_500 ==> s == ZodiacSign::Sagittarius
            &&& 299_500 <= n < 327_500 ==> s == ZodiacSign::Capricorn
            &&& 327_500 <= n < 351_500 ==> s == ZodiacSign::Aquarius
        }),
{
}

/// The triplicities: Aries, Leo, Sagittarius (and Ophiuchus) are Fire; Taurus, Virgo,
/// Capricorn Earth; Gemini, Libra, Aquarius Air; Cancer, Scorpio, Pisces Water.
pub proof fn lemma_sign_elements(s: ZodiacSign)
    ensures
        s.spec_element() == Element::Fire <==> (s == ZodiacSign::Aries || s == ZodiacSign::Leo || s
            == ZodiacSign::Sagittarius || s == ZodiacSign::Ophiuchus),
        s.spec_element() == Element::Earth <==> (s == ZodiacSign::Taurus || s == ZodiacSign::Virgo || s
            == ZodiacSign::Capricorn),
        s.spec_element() == Element::Air <==> (s == ZodiacSign::Gemini || s == ZodiacSign::Libra || s
            == ZodiacSign::Aquarius),
        s.spec_element() == Element::Water <==> (s == ZodiacSign::Cancer || s == ZodiacSign::Scorpio || s
            == ZodiacSign::Pisces),
{
}

/// The eight phases of the Moon are 45° sectors of its elongation from the Sun, in order
/// from New (centred on 0°) through First Quarter (90°), Full (180°) and Last Quarter (270°).
pub proof fn lemma_moon_phases(angle: int)
    ensures
        ({
            let n = normalize_angle(angle);
            let p = MoonPhase::spec_from_angle(angle);
            &&& (n < 22_500 || 337_500 <= n) ==> p == MoonPhase::NewMoon
            &&& 22_500 <= n < 67_500 ==> p == MoonPhase::WaxingCrescent
            &&& 67_500 <= n < 112_500 ==> p == MoonPhase::FirstQuarter
            &&& 112_500 <= n < 157_500 ==> p == MoonPhase::WaxingGibbous
            &&& 157_500 <= n < 202_500 ==> p == MoonPhase::FullMoon
            &&& 202_500 <= n < 247_500 ==> p == MoonPhase::WaningGibbous
            &&& 247_500 <= n < 292_500 ==> p == MoonPhase::LastQuarter
            &&& 292_500 <= n < 337_500 ==> p == MoonPhase::WaningCrescent
        }),
{
}

} // verus!
