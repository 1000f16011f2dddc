use scx_horoscope::planets::{Element, Planet, PlanetaryPosition, ZodiacSign};
use scx_horoscope::priority::{base_priority, element_boost_permille, influence_permille, is_retrograde, task_priority};
use scx_horoscope::tasks::TaskType;

fn at(planet: Planet, sign: ZodiacSign, retrograde: bool) -> PlanetaryPosition {
    PlanetaryPosition { planet, longitude: 0, sign, retrograde, moon_phase: None }
}

#[test]
fn documented_priority_examples() {
    // rustc (CPU task), Mars in Scorpio (Water), direct: 100 × 1.0 × 0.6 = 60.
    assert_eq!(task_priority(TaskType::CpuIntensive, &at(Planet::Mars, ZodiacSign::Scorpio, false)), 60);
    // rustc (CPU task), Mars in Aries (Fire), direct: 100 × 1.3 × 1.5 = 195.
    assert_eq!(task_priority(TaskType::CpuIntensive, &at(Planet::Mars, ZodiacSign::Aries, false)), 195);
}

#[test]
fn priority_tables() {
    assert_eq!(base_priority(TaskType::Critical), 1000);
    assert_eq!(base_priority(TaskType::MemoryHeavy), 80);
    assert_eq!(base_priority(TaskType::Desktop), 120);
    assert_eq!(influence_permille(&at(Planet::Venus, ZodiacSign::Libra, false)), 1200);
    assert_eq!(influence_permille(&at(Planet::Venus, ZodiacSign::Libra, true)), -1000);
    assert_eq!(influence_permille(&at(Planet::Venus, ZodiacSign::Ophiuchus, false)), 1300);
    assert_eq!(element_boost_permille(Element::Earth, TaskType::System), 1400);
    assert_eq!(element_boost_permille(Element::Air, TaskType::System), 700);
    assert_eq!(element_boost_permille(Element::Fire, TaskType::Desktop), 1000);
}

#[test]
fn priority_rounds_toward_zero() {
    // Memory under Jupiter in Virgo (Earth): 80 × 1.1 × 1.0 = 88.
    assert_eq!(task_priority(TaskType::MemoryHeavy, &at(Planet::Jupiter, ZodiacSign::Virgo, false)), 88);
    // 80 × 1.3 × 0.7 = 72.8, rounded to 72.
    assert_eq!(task_priority(TaskType::MemoryHeavy, &at(Planet::Jupiter, ZodiacSign::Leo, false)), 72);
    // Retrograde: 80 × -1.0 × 0.7 = -56; 150 × -1.0 × 1.0 = -150.
    assert_eq!(task_priority(TaskType::MemoryHeavy, &at(Planet::Jupiter, ZodiacSign::Leo, true)), -56);
    assert_eq!(task_priority(TaskType::Interactive, &at(Planet::Mercury, ZodiacSign::Cancer, true)), -150);
    // Critical under the Sun in Aries: 1000 × 1.3 × 1.0.
    assert_eq!(task_priority(TaskType::Critical, &at(Planet::Sun, ZodiacSign::Aries, false)), 1300);
}

#[test]
fn retrograde_detection() {
    // Ordinary forward and backward motion.
    assert!(!is_retrograde(Planet::Mars, 100_000, 100_500));
    assert!(is_retrograde(Planet::Mars, 100_500, 100_000));
    // Forward across 0°: 359.9° to 0.2°, a change of -359.7°.
    assert!(!is_retrograde(Planet::Mercury, 359_900, 200));
    // Backward across 0°: 0.2° to 359.9°, a change of +359.7°.
    assert!(is_retrograde(Planet::Mercury, 200, 359_900));
    // Exactly -180° counts as backward motion.
    assert!(is_retrograde(Planet::Saturn, 200_000, 20_000));
    assert!(!is_retrograde(Planet::Saturn, 200_000, 19_999));
    // The Sun and the Moon never retrograde.
    assert!(!is_retrograde(Planet::Sun, 100_500, 100_000));
    assert!(!is_retrograde(Planet::Moon, 200, 359_900));
    // No change is no retrograde.
    assert!(!is_retrograde(Planet::Venus, 5, 5));
}
