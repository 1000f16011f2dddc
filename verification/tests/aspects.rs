use scx_horoscope::aspects::{
    aspects_for_planet, calculate_aspects, combined_aspect_modifier, describe_aspects, Aspect,
    AspectNature, AspectType,
};
use scx_horoscope::planets::{MoonPhase, Planet, PlanetaryPosition, ZodiacSign};

/// Degrees as the library's millidegrees.
fn mdeg(degrees: f64) -> i32 {
    (degrees * 1000.0).round() as i32
}

/// Parts per million as a ratio.
fn ratio(ppm: u32) -> f64 {
    ppm as f64 / 1_000_000.0
}

fn make_pos(planet: Planet, longitude: f64) -> PlanetaryPosition {
    PlanetaryPosition {
        planet,
        longitude: mdeg(longitude),
        sign: ZodiacSign::from_longitude(mdeg(longitude), false),
        retrograde: false,
        moon_phase: if planet == Planet::Moon { Some(MoonPhase::from_angle(mdeg(longitude))) } else { None },
    }
}

#[test]
fn test_opposition_detection() {
    // Exact opposition
    let aspects = calculate_aspects(&[make_pos(Planet::Sun, 0.0), make_pos(Planet::Moon, 180.0)]);
    assert_eq!(aspects.len(), 1);
    assert_eq!(aspects[0].aspect_type, AspectType::Opposition);
    assert!((aspects[0].orb as f64 / 1000.0).abs() < 0.01);

    // Within orb (5° off)
    let aspects = calculate_aspects(&[make_pos(Planet::Sun, 0.0), make_pos(Planet::Moon, 175.0)]);
    assert_eq!(aspects[0].aspect_type, AspectType::Opposition);

    // Outside orb (10° off — greater than 8°)
    let aspects = calculate_aspects(&[make_pos(Planet::Sun, 0.0), make_pos(Planet::Moon, 170.0)]);
    assert!(aspects.iter().all(|a| a.aspect_type != AspectType::Opposition));
}

#[test]
fn test_trine_detection() {
    // Exact trine
    let aspects = calculate_aspects(&[make_pos(Planet::Mars, 0.0), make_pos(Planet::Jupiter, 120.0)]);
    assert_eq!(aspects[0].aspect_type, AspectType::Trine);

    // Trine wrapping around 0°: 350° and 110° → 120° separation
    let aspects = calculate_aspects(&[make_pos(Planet::Saturn, 350.0), make_pos(Planet::Mercury, 110.0)]);
    assert!(aspects.iter().any(|a| a.aspect_type == AspectType::Trine), "Expected trine across 0°");
}

#[test]
fn test_conjunction_detection() {
    // Exact conjunction
    let aspects = calculate_aspects(&[make_pos(Planet::Venus, 45.0), make_pos(Planet::Mars, 45.0)]);
    assert_eq!(aspects[0].aspect_type, AspectType::Conjunction);

    // Conjunction across 0°: 358° and 2° → 4° separation
    let aspects = calculate_aspects(&[make_pos(Planet::Sun, 358.0), make_pos(Planet::Moon, 2.0)]);
    assert!(aspects.iter().any(|a| a.aspect_type == AspectType::Conjunction), "Expected conjunction across 0°");
}

#[test]
fn test_no_aspects_edge_cases() {
    assert!(calculate_aspects(&[]).is_empty());
    assert!(calculate_aspects(&[make_pos(Planet::Sun, 90.0)]).is_empty());
}

#[test]
fn test_combined_modifier_clamped() {
    // Stack many aspects — result must stay within [0.3, 2.0]
    let positions = vec![
        make_pos(Planet::Sun, 0.0),
        make_pos(Planet::Moon, 120.0),    // Trine
        make_pos(Planet::Mercury, 60.0),  // Sextile
        make_pos(Planet::Mars, 180.0),    // Opposition
        make_pos(Planet::Jupiter, 90.0),  // Square
    ];
    let aspects = calculate_aspects(&positions);
    let modifier = ratio(combined_aspect_modifier(&aspects, Planet::Sun));
    assert!(modifier >= 0.3 && modifier <= 2.0, "modifier {modifier} out of range");
    assert!((ratio(combined_aspect_modifier(&[], Planet::Sun)) - 1.0).abs() < 0.01);
}

#[test]
fn test_aspect_natures() {
    assert_eq!(AspectType::Trine.nature(), AspectNature::Harmonious);
    assert_eq!(AspectType::Sextile.nature(), AspectNature::Harmonious);
    assert_eq!(AspectType::Square.nature(), AspectNature::Challenging);
    assert_eq!(AspectType::Opposition.nature(), AspectNature::Challenging);
    assert_eq!(AspectType::Quincunx.nature(), AspectNature::Challenging);
    assert_eq!(AspectType::Conjunction.nature(), AspectNature::Neutral);
}

#[test]
fn test_describe_unaspected() {
    let desc = describe_aspects(&[], Planet::Mercury);
    assert!(desc.contains("unaspected") || desc.contains("alone"));
}

#[test]
fn aspect_fields_of_an_inexact_trine() {
    // 122° apart: a trine 2° off, three quarters of full strength.
    let aspects = calculate_aspects(&[make_pos(Planet::Sun, 0.0), make_pos(Planet::Venus, 122.0)]);
    assert_eq!(aspects.len(), 1);
    let a = aspects[0];
    assert_eq!(a.planet_a, Planet::Sun);
    assert_eq!(a.planet_b, Planet::Venus);
    assert_eq!(a.aspect_type, AspectType::Trine);
    assert_eq!(a.nature, AspectNature::Harmonious);
    assert_eq!(a.orb, 2_000);
    assert_eq!(a.strength, 750_000);
}

#[test]
fn aspects_are_symmetric_in_the_pair() {
    let ab = calculate_aspects(&[make_pos(Planet::Mars, 10.0), make_pos(Planet::Saturn, 253.5)]);
    let ba = calculate_aspects(&[make_pos(Planet::Saturn, 253.5), make_pos(Planet::Mars, 10.0)]);
    assert_eq!(ab.len(), 1);
    assert_eq!(ba.len(), 1);
    assert_eq!(ab[0].aspect_type, AspectType::Trine);
    assert_eq!(ab[0].aspect_type, ba[0].aspect_type);
    assert_eq!(ab[0].orb, ba[0].orb);
    assert_eq!(ab[0].strength, ba[0].strength);
    assert_eq!(ab[0].planet_a, ba[0].planet_b);
}

#[test]
fn aspects_of_every_pair_in_order() {
    let positions = vec![
        make_pos(Planet::Sun, 0.0),
        make_pos(Planet::Moon, 90.0),
        make_pos(Planet::Mars, 180.0),
    ];
    let aspects = calculate_aspects(&positions);
    let kinds: Vec<(Planet, Planet, AspectType)> =
        aspects.iter().map(|a| (a.planet_a, a.planet_b, a.aspect_type)).collect();
    assert_eq!(
        kinds,
        vec![
            (Planet::Sun, Planet::Moon, AspectType::Square),
            (Planet::Sun, Planet::Mars, AspectType::Opposition),
            (Planet::Moon, Planet::Mars, AspectType::Square),
        ]
    );
}

#[test]
fn quincunx_and_sextile_orbs() {
    // Quincunx holds to 3°, sextile to 6°.
    let aspects = calculate_aspects(&[make_pos(Planet::Sun, 0.0), make_pos(Planet::Moon, 153.0)]);
    assert_eq!(aspects[0].aspect_type, AspectType::Quincunx);
    assert_eq!(aspects[0].strength, 0);
    let aspects = calculate_aspects(&[make_pos(Planet::Sun, 0.0), make_pos(Planet::Moon, 154.0)]);
    assert!(aspects.is_empty());
    let aspects = calculate_aspects(&[make_pos(Planet::Sun, 0.0), make_pos(Planet::Moon, 66.0)]);
    assert_eq!(aspects[0].aspect_type, AspectType::Sextile);
    let aspects = calculate_aspects(&[make_pos(Planet::Sun, 0.0), make_pos(Planet::Moon, 67.0)]);
    assert!(aspects.is_empty());
}

#[test]
fn aspects_for_planet_keeps_those_involving_it() {
    let positions = vec![
        make_pos(Planet::Sun, 0.0),
        make_pos(Planet::Moon, 90.0),
        make_pos(Planet::Mars, 180.0),
    ];
    let aspects = calculate_aspects(&positions);
    let of_moon = aspects_for_planet(&aspects, Planet::Moon);
    assert_eq!(of_moon.len(), 2);
    assert!(of_moon.iter().all(|a| a.planet_a == Planet::Moon || a.planet_b == Planet::Moon));
    assert!(aspects_for_planet(&aspects, Planet::Venus).is_empty());
}

#[test]
fn combined_modifier_exact_values() {
    let trine = calculate_aspects(&[make_pos(Planet::Sun, 0.0), make_pos(Planet::Moon, 120.0)]);
    assert_eq!(combined_aspect_modifier(&trine, Planet::Sun), 1_400_000);
    let opposition = calculate_aspects(&[make_pos(Planet::Sun, 0.0), make_pos(Planet::Mars, 180.0)]);
    assert_eq!(combined_aspect_modifier(&opposition, Planet::Sun), 600_000);
    let both = calculate_aspects(&[
        make_pos(Planet::Sun, 0.0),
        make_pos(Planet::Moon, 120.0),
        make_pos(Planet::Mars, 180.0),
    ]);
    // Trine 1.4 and opposition 0.6 on the Sun; Moon–Mars is 60°, a sextile, not the Sun's.
    assert_eq!(combined_aspect_modifier(&both, Planet::Sun), 840_000);
    // A trine 2° off at three quarters of its strength: 1 + 0.4 × 0.75.
    let loose = calculate_aspects(&[make_pos(Planet::Sun, 0.0), make_pos(Planet::Moon, 122.0)]);
    assert_eq!(combined_aspect_modifier(&loose, Planet::Moon), 1_300_000);
}

#[test]
fn combined_modifier_clamps_at_both_ends() {
    let boosts = calculate_aspects(&[
        make_pos(Planet::Sun, 0.0),
        make_pos(Planet::Moon, 120.0),
        make_pos(Planet::Mars, 240.0),
        make_pos(Planet::Venus, 0.0),
    ]);
    // Trine × trine × conjunction = 2.548, kept at 2.0.
    assert_eq!(combined_aspect_modifier(&boosts, Planet::Sun), 2_000_000);
    let penalties = calculate_aspects(&[
        make_pos(Planet::Sun, 0.0),
        make_pos(Planet::Moon, 180.0),
        make_pos(Planet::Mars, 90.0),
        make_pos(Planet::Venus, 270.0),
    ]);
    // Opposition × square × square = 0.294, kept at 0.3.
    assert_eq!(combined_aspect_modifier(&penalties, Planet::Sun), 300_000);
}

#[test]
fn describe_aspects_text() {
    let aspects = calculate_aspects(&[
        make_pos(Planet::Sun, 0.0),
        make_pos(Planet::Moon, 120.0),
        make_pos(Planet::Mars, 180.0),
    ]);
    assert_eq!(
        describe_aspects(&aspects, Planet::Sun),
        "✨ Sun △ Moon Trine — cosmic harmony flows freely! | \
         \u{26a0}\u{fe0f} Sun ☍ Mars Opposition — cosmic tension! Opposing forces clash!"
    );
    assert_eq!(
        describe_aspects(&aspects, Planet::Mars),
        "\u{26a0}\u{fe0f} Mars ☍ Sun Opposition — cosmic tension! Opposing forces clash! | \
         🌟 Mars ⚹ Moon Sextile — opportunity knocks from the stars!"
    );
    assert_eq!(
        describe_aspects(&[], Planet::Mercury),
        "Mercury stands alone in the cosmos — unaspected, operating on pure instinct"
    );
}

#[test]
fn aspect_type_tables() {
    assert_eq!(AspectType::Opposition.target_angle(), 180_000);
    assert_eq!(AspectType::Quincunx.max_orb(), 3_000);
    assert_eq!(AspectType::Square.scheduling_modifier(), 700_000);
    assert_eq!(AspectType::Sextile.name(), "Sextile");
    assert_eq!(AspectType::Conjunction.symbol(), "☌");
}

/// An exact aspect of the Sun with `other`.
fn exact(other: Planet, aspect_type: AspectType) -> Aspect {
    Aspect {
        planet_a: Planet::Sun,
        planet_b: other,
        aspect_type,
        nature: aspect_type.nature(),
        orb: 0,
        strength: 1_000_000,
    }
}

/// `trines` exact trines followed by `oppositions` exact oppositions, all of the Sun.
fn stacked(trines: usize, oppositions: usize) -> Vec<Aspect> {
    let mut v = vec![exact(Planet::Moon, AspectType::Trine); trines];
    v.extend(vec![exact(Planet::Mars, AspectType::Opposition); oppositions]);
    v
}

#[test]
fn combined_modifier_long_products_do_not_saturate() {
    // 1.4^100 × 0.6^60 ≈ 20: the boosts win, kept at 2.0.
    assert_eq!(combined_aspect_modifier(&stacked(100, 60), Planet::Sun), 2_000_000);
    // 1.4^100 × 0.6^80 ≈ 0.0007: the penalties win, kept at 0.3.
    assert_eq!(combined_aspect_modifier(&stacked(100, 80), Planet::Sun), 300_000);
    // 1.4² × 0.6² = 0.7056, exactly.
    assert_eq!(combined_aspect_modifier(&stacked(2, 2), Planet::Sun), 705_600);
    // 1.4^30 × 0.6^20 = 0.884842…, rounded down to parts per million.
    assert_eq!(combined_aspect_modifier(&stacked(30, 20), Planet::Sun), 884_842);
    // Other planets' aspects do not count.
    assert_eq!(combined_aspect_modifier(&stacked(3, 0), Planet::Venus), 1_000_000);
}

#[test]
fn combined_modifier_negative_weight() {
    // A strength beyond full turns an opposition's weight negative: 1 - 0.4 × 3 = -0.2.
    let mut a = exact(Planet::Mars, AspectType::Opposition);
    a.strength = 3_000_000;
    assert_eq!(combined_aspect_modifier(&[a], Planet::Sun), 300_000);
    // Two negative weights multiply to a positive one: 0.04, kept at 0.3.
    assert_eq!(combined_aspect_modifier(&[a, a], Planet::Sun), 300_000);
    let mut b = exact(Planet::Mars, AspectType::Opposition);
    b.strength = 5_000_000;
    // (-1) × (-1) = 1.
    assert_eq!(combined_aspect_modifier(&[b, b], Planet::Sun), 1_000_000);
}

#[test]
fn harmonious_aspects_boost_challenging_ones_penalize() {
    let boosts = calculate_aspects(&[
        make_pos(Planet::Sun, 0.0),
        make_pos(Planet::Moon, 60.0),
        make_pos(Planet::Mars, 120.0),
    ]);
    // Sextile 1.2 × trine 1.4 on the Sun.
    assert_eq!(combined_aspect_modifier(&boosts, Planet::Sun), 1_680_000);
    let penalties = calculate_aspects(&[
        make_pos(Planet::Sun, 0.0),
        make_pos(Planet::Moon, 90.0),
        make_pos(Planet::Mars, 150.0),
    ]);
    // Square 0.7 × quincunx 0.8 on the Sun.
    assert_eq!(combined_aspect_modifier(&penalties, Planet::Sun), 560_000);
}
