use chrono::Utc;
use scx_horoscope::birth_chart::{element_compatibility, ProcessBirthChart, ProcessRegistry};
use scx_horoscope::planets::{Element, MoonPhase, Planet, PlanetaryPosition, ZodiacSign};
use scx_horoscope::proc_stat::{birth_time_from_stat, parse_decimal_u64, parse_stat_start_ticks};
use scx_horoscope::tasks::TaskType;
use scx_horoscope::time::UtcTime;
use std::cell::Cell;

fn now_utc() -> UtcTime {
    let now = Utc::now();
    UtcTime { secs: now.timestamp(), nanos: now.timestamp_subsec_nanos() }
}

fn ratio(ppm: u32) -> f64 {
    ppm as f64 / 1_000_000.0
}

fn make_position(planet: Planet, sign: ZodiacSign) -> PlanetaryPosition {
    PlanetaryPosition {
        planet,
        longitude: 0,
        sign,
        retrograde: false,
        moon_phase: if planet == Planet::Moon { Some(MoonPhase::FullMoon) } else { None },
    }
}

fn full_natal(mars_sign: ZodiacSign) -> Vec<PlanetaryPosition> {
    vec![
        make_position(Planet::Sun, ZodiacSign::Leo),
        make_position(Planet::Moon, ZodiacSign::Cancer),
        make_position(Planet::Mercury, ZodiacSign::Gemini),
        make_position(Planet::Venus, ZodiacSign::Taurus),
        make_position(Planet::Mars, mars_sign),
        make_position(Planet::Jupiter, ZodiacSign::Sagittarius),
        make_position(Planet::Saturn, ZodiacSign::Capricorn),
    ]
}

#[test]
fn test_registry_creation() {
    let registry = ProcessRegistry::new(false);
    assert!(!registry.use_13_signs);
    assert!(registry.charts.is_empty());

    let registry_13 = ProcessRegistry::new(true);
    assert!(registry_13.use_13_signs);
}

/// The birth instant of a process, when /proc knows the process.
fn read_birth_time(pid: i32) -> Option<UtcTime> {
    let process = procfs::process::Process::new(pid).ok()?;
    let stat = process.stat().ok()?;
    let boot: chrono::DateTime<Utc> = procfs::boot_time().ok()?.into();
    let boot = UtcTime { secs: boot.timestamp(), nanos: boot.timestamp_subsec_nanos() };
    let line = format!("{pid} (p) S 1 1 1 0 -1 0 0 0 0 0 0 0 0 0 20 0 1 0 {}", stat.starttime);
    birth_time_from_stat(&line, procfs::ticks_per_second(), &boot)
}

#[test]
fn test_nonexistent_pid() {
    let result = ProcessBirthChart::from_pid(9_999_999, false, read_birth_time, |_, _| full_natal(ZodiacSign::Aries));
    assert!(result.is_none(), "Expected None for non-existent PID");
}

#[test]
fn chart_from_pid_uses_birth_time_and_zodiac() {
    let born = UtcTime { secs: 1_000, nanos: 5 };
    let chart = ProcessBirthChart::from_pid(
        5,
        true,
        |pid| {
            assert_eq!(pid, 5);
            Some(born)
        },
        |t, use_13| {
            assert_eq!(t, born);
            assert!(use_13);
            full_natal(ZodiacSign::Aries)
        },
    )
    .unwrap();
    assert_eq!(chart.pid, 5);
    assert_eq!(chart.birth_time, born);
    assert_eq!(chart.sun_sign, ZodiacSign::Leo);
}

#[test]
fn test_compatibility_same_element() {
    // Mars in Aries (Fire) vs current Mars in Leo (Fire) → same element
    let chart = ProcessBirthChart {
        pid: 1,
        birth_time: now_utc(),
        sun_sign: ZodiacSign::Leo,
        ascendant_element: Element::Fire,
        natal_moon_phase: MoonPhase::FullMoon,
        natal_positions: full_natal(ZodiacSign::Aries), // Mars = Fire
    };

    let current = vec![make_position(Planet::Mars, ZodiacSign::Leo)]; // Fire
    let m = ratio(chart.compatibility_with_current(&current, TaskType::CpuIntensive));
    assert!(m > 1.0, "Same element should yield > 1.0, got {m}");
}

#[test]
fn test_compatibility_opposing_element() {
    // Mars in Aries (Fire) vs current Mars in Cancer (Water) → opposing
    let chart = ProcessBirthChart {
        pid: 2,
        birth_time: now_utc(),
        sun_sign: ZodiacSign::Leo,
        ascendant_element: Element::Fire,
        natal_moon_phase: MoonPhase::NewMoon,
        natal_positions: full_natal(ZodiacSign::Aries), // Mars = Fire
    };

    let current = vec![make_position(Planet::Mars, ZodiacSign::Cancer)]; // Water opposes Fire
    let m = ratio(chart.compatibility_with_current(&current, TaskType::CpuIntensive));
    assert!(m < 1.0, "Opposing elements should yield < 1.0, got {m}");
}

#[test]
fn compatibility_exact_values() {
    let chart = ProcessBirthChart::from_natal_positions(3, now_utc(), full_natal(ZodiacSign::Aries)).unwrap();
    let cases = [
        (ZodiacSign::Sagittarius, 1_300_000), // Fire, same
        (ZodiacSign::Gemini, 1_100_000),      // Air, compatible
        (ZodiacSign::Scorpio, 800_000),       // Water, opposing
        (ZodiacSign::Taurus, 1_000_000),      // Earth, neutral
    ];
    for (sign, expected) in cases {
        let current = vec![make_position(Planet::Mars, sign)];
        assert_eq!(chart.compatibility_with_current(&current, TaskType::CpuIntensive), expected);
    }
    // No current position of the ruling planet: neutral.
    let current = vec![make_position(Planet::Venus, ZodiacSign::Leo)];
    assert_eq!(chart.compatibility_with_current(&current, TaskType::CpuIntensive), 1_000_000);
}

#[test]
fn element_compatibility_is_symmetric() {
    let all = [Element::Fire, Element::Earth, Element::Air, Element::Water];
    for a in all {
        for b in all {
            assert_eq!(element_compatibility(a, b), element_compatibility(b, a));
        }
    }
    assert_eq!(element_compatibility(Element::Earth, Element::Water), 1_100_000);
    assert_eq!(element_compatibility(Element::Air, Element::Earth), 800_000);
    assert_eq!(element_compatibility(Element::Fire, Element::Earth), 1_000_000);
}

#[test]
fn chart_from_natal_positions() {
    let chart = ProcessBirthChart::from_natal_positions(7, now_utc(), full_natal(ZodiacSign::Aries)).unwrap();
    assert_eq!(chart.pid, 7);
    assert_eq!(chart.sun_sign, ZodiacSign::Leo);
    assert_eq!(chart.ascendant_element, Element::Fire);
    assert_eq!(chart.natal_moon_phase, MoonPhase::FullMoon);
    assert_eq!(chart.natal_sign_for_planet(Planet::Mars), Some(ZodiacSign::Aries));
    assert_eq!(
        chart.describe_natal_chart(),
        "🌟 Born under Leo with Moon in Full! A Fire spirit destined for blazing computational glory!"
    );

    // Without a Sun there is no chart; without a Moon the phase is New.
    let no_sun = vec![make_position(Planet::Moon, ZodiacSign::Leo)];
    assert!(ProcessBirthChart::from_natal_positions(8, now_utc(), no_sun).is_none());
    let no_moon = vec![make_position(Planet::Sun, ZodiacSign::Virgo)];
    let chart = ProcessBirthChart::from_natal_positions(9, now_utc(), no_moon).unwrap();
    assert_eq!(chart.natal_moon_phase, MoonPhase::NewMoon);
    assert_eq!(chart.ascendant_element, Element::Earth);
    assert_eq!(chart.natal_sign_for_planet(Planet::Mars), None);
}

#[test]
fn registry_creates_once_and_caches() {
    let mut registry = ProcessRegistry::new(true);
    let calls = Cell::new(0);
    let make = |pid: i32, use_13: bool| {
        calls.set(calls.get() + 1);
        assert!(use_13);
        ProcessBirthChart::from_natal_positions(pid, UtcTime { secs: 0, nanos: 0 }, full_natal(ZodiacSign::Aries))
    };
    assert_eq!(registry.get_or_create(42, make).map(|c| c.pid), Some(42));
    assert_eq!(calls.get(), 1);
    let again = registry.get_or_create(42, |_, _| panic!("a cached chart is not made again"));
    assert_eq!(again.map(|c| c.pid), Some(42));
    assert_eq!(registry.get_or_create(43, |_, _| None).map(|c| c.pid), None);
    assert_eq!(registry.charts.len(), 1);
}

#[test]
fn registry_evicts_the_dead() {
    let mut registry = ProcessRegistry::new(false);
    for pid in [1, 2, 3, 4] {
        registry.get_or_create(pid, |p, _| {
            ProcessBirthChart::from_natal_positions(p, UtcTime { secs: 0, nanos: 0 }, full_natal(ZodiacSign::Leo))
        });
    }
    registry.evict_dead_processes(|pid| pid % 2 == 0);
    let mut left: Vec<i32> = registry.charts.keys().copied().collect();
    left.sort();
    assert_eq!(left, vec![2, 4]);
}

fn stat_line(comm: &str, starttime: &str) -> String {
    format!(
        "4242 ({comm}) S 1 4242 4242 0 -1 4194560 100 0 0 0 5 3 0 0 20 0 1 0 {starttime} 12345678 300 \
         18446744073709551615 1 1 0 0 0 0 0 0 0 17 2 0 0 0 0 0"
    )
}

#[test]
fn stat_start_ticks_parsing() {
    assert_eq!(parse_stat_start_ticks(&stat_line("bash", "987654")), Some(987654));
    assert_eq!(parse_stat_start_ticks(&stat_line("my proc", "12")), Some(12));
    // A command name may itself hold ')': the fields start after the last one.
    assert_eq!(parse_stat_start_ticks(&stat_line("a) (b", "77")), Some(77));
    assert_eq!(parse_stat_start_ticks(&stat_line("x) 1 2 3 (y", "5")), Some(5));
    assert_eq!(parse_stat_start_ticks("no parenthesis here"), None);
    assert_eq!(parse_stat_start_ticks("1 (x) S 1 2 3"), None);
    assert_eq!(parse_stat_start_ticks(&stat_line("x", "12a")), None);
}

#[test]
fn decimal_parsing_matches_std() {
    for s in ["0", "42", "+42", "", "+", "-1", "4a", "007", "18446744073709551615", "18446744073709551616",
              "99999999999999999999", "+18446744073709551615", " 1", "1 "] {
        assert_eq!(parse_decimal_u64(s), s.parse::<u64>().ok(), "input {s:?}");
    }
}

#[test]
fn birth_time_from_start_ticks() {
    let boot = UtcTime { secs: 1_700_000_000, nanos: 0 };
    let birth = birth_time_from_stat(&stat_line("bash", "12345"), 100, &boot).unwrap();
    assert_eq!(birth, UtcTime { secs: 1_700_000_123, nanos: 450_000_000 });
    // Nanoseconds carry into the seconds.
    let boot = UtcTime { secs: 10, nanos: 900_000_000 };
    let birth = birth_time_from_stat(&stat_line("bash", "150"), 100, &boot).unwrap();
    assert_eq!(birth, UtcTime { secs: 12, nanos: 400_000_000 });
    assert_eq!(birth_time_from_stat("garbage", 100, &boot), None);
    // A ')' inside the command name does not shift the fields.
    let stat = format!("9 (a)) {}7 5", "b ".repeat(18));
    let birth = birth_time_from_stat(&stat, 1, &UtcTime { secs: 0, nanos: 0 }).unwrap();
    assert_eq!(birth, UtcTime { secs: 5, nanos: 0 });
}
