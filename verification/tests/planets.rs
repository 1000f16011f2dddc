use scx_horoscope::planets::{Element, MoonPhase, Planet, ZodiacSign};
use scx_horoscope::tasks::TaskType;

fn mdeg(degrees: f64) -> i32 {
    (degrees * 1000.0).round() as i32
}

#[test]
fn tropical_signs_are_thirty_degrees() {
    assert_eq!(ZodiacSign::from_longitude(mdeg(0.0), false), ZodiacSign::Aries);
    assert_eq!(ZodiacSign::from_longitude(mdeg(29.999), false), ZodiacSign::Aries);
    assert_eq!(ZodiacSign::from_longitude(mdeg(30.0), false), ZodiacSign::Taurus);
    assert_eq!(ZodiacSign::from_longitude(mdeg(255.0), false), ZodiacSign::Sagittarius);
    assert_eq!(ZodiacSign::from_longitude(mdeg(359.0), false), ZodiacSign::Pisces);
    assert_eq!(ZodiacSign::from_longitude(mdeg(-1.0), false), ZodiacSign::Pisces);
    assert_eq!(ZodiacSign::from_longitude(mdeg(360.0), false), ZodiacSign::Aries);
}

#[test]
fn thirteen_sign_boundaries() {
    assert_eq!(ZodiacSign::from_longitude(mdeg(10.0), true), ZodiacSign::Pisces);
    assert_eq!(ZodiacSign::from_longitude(mdeg(29.0), true), ZodiacSign::Aries);
    assert_eq!(ZodiacSign::from_longitude(mdeg(245.0), true), ZodiacSign::Scorpio);
    assert_eq!(ZodiacSign::from_longitude(mdeg(250.0), true), ZodiacSign::Ophiuchus);
    assert_eq!(ZodiacSign::from_longitude(mdeg(266.0), true), ZodiacSign::Sagittarius);
    assert_eq!(ZodiacSign::from_longitude(mdeg(351.5), true), ZodiacSign::Pisces);
    assert_eq!(ZodiacSign::from_longitude(mdeg(351.4), true), ZodiacSign::Aquarius);
}

#[test]
fn elements_and_names() {
    assert_eq!(ZodiacSign::Ophiuchus.element(), Element::Fire);
    assert_eq!(ZodiacSign::Scorpio.element(), Element::Water);
    assert_eq!(ZodiacSign::Capricorn.element(), Element::Earth);
    assert_eq!(ZodiacSign::Libra.element(), Element::Air);
    assert_eq!(ZodiacSign::Sagittarius.name(), "Sagittarius");
    assert_eq!(Planet::Jupiter.name(), "Jupiter");
    assert_eq!(Element::Water.name(), "Water");
    assert_eq!(MoonPhase::WaningGibbous.name(), "Waning Gibbous");
}

#[test]
fn moon_phases_by_elongation() {
    assert_eq!(MoonPhase::from_angle(mdeg(0.0)), MoonPhase::NewMoon);
    assert_eq!(MoonPhase::from_angle(mdeg(350.0)), MoonPhase::NewMoon);
    assert_eq!(MoonPhase::from_angle(mdeg(90.0)), MoonPhase::FirstQuarter);
    assert_eq!(MoonPhase::from_angle(mdeg(180.0)), MoonPhase::FullMoon);
    assert_eq!(MoonPhase::from_angle(mdeg(300.0)), MoonPhase::WaningCrescent);
}

#[test]
fn ruling_planets() {
    assert_eq!(TaskType::CpuIntensive.ruling_planet(), Planet::Mars);
    assert_eq!(TaskType::Network.ruling_planet(), Planet::Mercury);
    assert_eq!(TaskType::Interactive.ruling_planet(), Planet::Mercury);
    assert_eq!(TaskType::MemoryHeavy.ruling_planet(), Planet::Jupiter);
    assert_eq!(TaskType::System.ruling_planet(), Planet::Saturn);
    assert_eq!(TaskType::Desktop.ruling_planet(), Planet::Venus);
    assert_eq!(TaskType::Critical.ruling_planet(), Planet::Sun);
    assert_eq!(TaskType::Desktop.name(), "Desktop/UI");
}
