use chrono::{DateTime, Datelike, TimeZone, Utc};
use scx_horoscope::planets::{MoonPhase, Planet, PlanetaryPosition, ZodiacSign};
use scx_horoscope::predictions::{
    confidence_stars, format_duration, get_system_daily_horoscope, word_wrap, HoroscopePrediction,
};
use scx_horoscope::tasks::TaskType;
use scx_horoscope::time::{UtcTime, MAX_UTC_SECS, MIN_UTC_SECS};

fn ppm(ratio: f64) -> u32 {
    (ratio * 1_000_000.0).round() as u32
}

fn ratio(ppm: u32) -> f64 {
    ppm as f64 / 1_000_000.0
}

fn utc(t: DateTime<Utc>) -> UtcTime {
    UtcTime { secs: t.timestamp(), nanos: t.timestamp_subsec_nanos() }
}

fn pos(planet: Planet, degrees: i32, sign: ZodiacSign, retrograde: bool, moon_phase: Option<MoonPhase>) -> PlanetaryPosition {
    PlanetaryPosition { planet, longitude: degrees * 1000, sign, retrograde, moon_phase }
}

/// Build a minimal set of positions.
fn mock_positions() -> Vec<PlanetaryPosition> {
    vec![
        pos(Planet::Sun, 45, ZodiacSign::Taurus, false, None),
        pos(Planet::Moon, 120, ZodiacSign::Leo, false, Some(MoonPhase::FirstQuarter)),
        pos(Planet::Mercury, 200, ZodiacSign::Libra, false, None),
        pos(Planet::Venus, 300, ZodiacSign::Aquarius, false, None),
        pos(Planet::Mars, 15, ZodiacSign::Aries, false, None),
        pos(Planet::Jupiter, 90, ZodiacSign::Cancer, true, None),
        pos(Planet::Saturn, 330, ZodiacSign::Pisces, false, None),
    ]
}

fn test_now() -> UtcTime {
    utc(Utc.with_ymd_and_hms(2026, 2, 27, 12, 0, 0).unwrap())
}

#[test]
fn test_prediction_generation() {
    let positions = mock_positions();
    let now = test_now();

    let task_types = [
        TaskType::Network,
        TaskType::CpuIntensive,
        TaskType::Desktop,
        TaskType::MemoryHeavy,
        TaskType::System,
        TaskType::Interactive,
        TaskType::Critical,
    ];

    for &task in &task_types {
        let pred = HoroscopePrediction::generate(&positions, task, &now);

        // Basic sanity checks
        assert!(!pred.daily_forecast.is_empty(), "daily_forecast should not be empty for {:?}", task);
        assert!(!pred.completion_estimate.cosmic_reason.is_empty(), "cosmic_reason should not be empty for {:?}", task);
        assert!(pred.lucky_number >= 1 && pred.lucky_number <= 99,
            "lucky_number out of range for {:?}: {}", task, pred.lucky_number);
        assert!(pred.power_hour <= 23, "power_hour out of range for {:?}: {}", task, pred.power_hour);
        let confidence = ratio(pred.completion_estimate.confidence);
        assert!(confidence >= 0.0 && confidence <= 1.0,
            "confidence out of range for {:?}: {}", task, confidence);
        assert!(pred.completion_estimate.min_seconds >= 1, "min_seconds should be at least 1 for {:?}", task);
        assert!(pred.completion_estimate.max_seconds >= pred.completion_estimate.min_seconds,
            "max_seconds should be >= min_seconds for {:?}", task);
    }
}

#[test]
fn test_format_duration() {
    // Small ranges → seconds
    assert_eq!(format_duration(1, 1), "1 second");
    assert_eq!(format_duration(5, 60), "5-60 seconds");
    assert_eq!(format_duration(30, 90), "30-90 seconds");
    assert!(format_duration(5, 60).contains("seconds"));

    // Medium ranges → minutes
    assert!(format_duration(60, 600).contains("minutes"));
    assert!(format_duration(120, 1800).contains("minutes"));
    let min_str = format_duration(120, 1800);
    assert!(min_str.contains("minute"), "Expected 'minute' in '{}'", min_str);

    // Large ranges → hours
    let hour_str = format_duration(3600, 14400);
    assert!(hour_str.contains("hour"), "Expected 'hour' in '{}'", hour_str);
    assert_eq!(format_duration(3600, 3600), "1 hour");
}

#[test]
fn test_confidence_stars() {
    assert_eq!(confidence_stars(ppm(1.0)), "★★★★★");
    assert_eq!(confidence_stars(ppm(0.0)), "☆☆☆☆☆");

    // 0.8 → rounds to 4 filled
    let stars_80 = confidence_stars(ppm(0.8));
    assert_eq!(stars_80, "★★★★☆", "0.8 confidence should be 4 stars, got '{}'", stars_80);

    // 0.6 → rounds to 3 filled
    let stars_60 = confidence_stars(ppm(0.6));
    assert_eq!(stars_60, "★★★☆☆", "0.6 confidence should be 3 stars, got '{}'", stars_60);

    // Always 5 total characters
    for &c in &[0.0, 0.2, 0.4, 0.6, 0.8, 1.0] {
        let s = confidence_stars(ppm(c));
        let count: usize = s.chars().count();
        assert_eq!(count, 5, "confidence_stars({}) should have 5 chars, got {}", c, count);
    }
}

#[test]
fn test_system_horoscope() {
    let positions = mock_positions();
    let now = test_now();

    let horoscope = get_system_daily_horoscope(&positions, &now);

    assert!(!horoscope.is_empty(), "System horoscope should not be empty");
    assert!(horoscope.contains("HOROSCOPE"), "System horoscope should contain 'HOROSCOPE'");
    assert!(horoscope.contains("PLANETS OF THE DAY"), "System horoscope should contain planets section");
    assert!(horoscope.contains("TASK TYPE GUIDANCE"), "System horoscope should contain task guidance section");
    assert!(horoscope.contains("COSMIC WISDOM"), "System horoscope should contain wisdom section");

    // Should mention all task type names
    for name in &["CPU-Intensive", "Network", "Memory-Heavy", "System", "Desktop/UI", "Interactive", "Critical"] {
        assert!(horoscope.contains(name), "System horoscope should mention task type '{}'", name);
    }
}

#[test]
fn prediction_exact_fields() {
    let positions = mock_positions();
    let now = test_now();

    // Mars direct in Aries (Fire): 120-3600 s × 0.75.
    let p = HoroscopePrediction::generate(&positions, TaskType::CpuIntensive, &now);
    assert_eq!(p.ruling_planet, Planet::Mars);
    assert_eq!(p.completion_estimate.min_seconds, 90);
    assert_eq!(p.completion_estimate.max_seconds, 2700);
    assert_eq!(p.completion_estimate.confidence, 850_000);
    assert_eq!(p.completion_estimate.cosmic_reason, "Mars direct in Aries (Fire) — CPU burns bright!");
    assert_eq!(p.lucky_number, 17);
    assert_eq!(p.power_hour, 6);
    assert!(p.daily_forecast.starts_with("Mars blazes through Aries with reckless abandon! "));

    // Jupiter retrograde in Cancer (Water): 60-1800 s × 3 × 1.25.
    let p = HoroscopePrediction::generate(&positions, TaskType::MemoryHeavy, &now);
    assert_eq!(p.completion_estimate.min_seconds, 225);
    assert_eq!(p.completion_estimate.max_seconds, 6750);
    assert_eq!(p.completion_estimate.confidence, 400_000);
    assert_eq!(p.lucky_number, 94);
    assert_eq!(p.power_hour, 15);
    assert!(p.completion_estimate.cosmic_reason.starts_with("Jupiter retrograde in Cancer (Water)"));
    assert!(p.daily_forecast.starts_with("Jupiter drifts backward through Cancer, "));

    // The Sun in Taurus (Earth) at noon: 1 s × 1.5 rounds to 2.
    let p = HoroscopePrediction::generate(&positions, TaskType::Critical, &now);
    assert_eq!((p.completion_estimate.min_seconds, p.completion_estimate.max_seconds), (2, 2));
    assert_eq!(p.completion_estimate.confidence, 950_000);
    assert_eq!(
        p.daily_forecast,
        "The Sun holds court in Taurus, and your most critical processes are under direct divine \
         patronage. PID 1 does not negotiate with retrograde. The Sun is near its zenith — critical \
         processes bask in full solar power. All hail the init system."
    );

    // Mercury rules both network and interactive tasks.
    let p = HoroscopePrediction::generate(&positions, TaskType::Interactive, &now);
    assert_eq!(p.ruling_planet, Planet::Mercury);
    assert_eq!((p.completion_estimate.min_seconds, p.completion_estimate.max_seconds), (1, 30));
    assert_eq!(p.lucky_number, 8);
}

#[test]
fn prediction_follows_the_hour() {
    let positions = mock_positions();
    let night = utc(Utc.with_ymd_and_hms(2026, 2, 27, 3, 30, 0).unwrap());
    let p = HoroscopePrediction::generate(&positions, TaskType::Critical, &night);
    assert!(p.daily_forecast.contains("The Sun slumbers below the horizon"));
    let morning = utc(Utc.with_ymd_and_hms(2026, 2, 27, 8, 0, 0).unwrap());
    let p = HoroscopePrediction::generate(&positions, TaskType::Critical, &morning);
    assert!(p.daily_forecast.contains("The Sun blesses this hour"));
}

#[test]
fn prediction_without_the_ruling_planet() {
    // Venus absent: it stands at 0° Aries, direct.
    let p = HoroscopePrediction::generate(&[], TaskType::Desktop, &test_now());
    assert_eq!(p.ruling_planet, Planet::Venus);
    assert_eq!((p.completion_estimate.min_seconds, p.completion_estimate.max_seconds), (1, 8));
    assert_eq!(p.lucky_number, 3);
    assert_eq!(p.power_hour, 18);
    assert!(p.daily_forecast.starts_with("Venus dances through Aries, "));
}

#[test]
fn format_duration_units() {
    assert_eq!(format_duration(2, 2), "2 seconds");
    assert_eq!(format_duration(120, 1800), "2-30 minutes");
    assert_eq!(format_duration(61, 121), "2 minutes");
    assert_eq!(format_duration(1, 120), "1-2 minutes");
    assert_eq!(format_duration(60, 60), "60 seconds");
    assert_eq!(format_duration(3600, 14400), "1-4 hours");
    assert_eq!(format_duration(1, 7199), "1 hour");
    assert_eq!(format_duration(0, 0), "0 seconds");
}

#[test]
fn confidence_star_rounding() {
    assert_eq!(confidence_stars(ppm(0.45)), "★★☆☆☆");
    assert_eq!(confidence_stars(ppm(0.5)), "★★★☆☆");
    assert_eq!(confidence_stars(ppm(0.95)), "★★★★★");
    assert_eq!(confidence_stars(ppm(2.0)), "★★★★★");
}

#[test]
fn word_wrap_greedy_lines() {
    assert_eq!(word_wrap("a bb ccc", 4, "> "), "> a bb\n> ccc");
    assert_eq!(word_wrap("  spaced   out\twords \n", 100, ""), "spaced out words");
    assert_eq!(word_wrap("", 10, "   "), "");
    // Widths count bytes: "ééé" takes six.
    assert_eq!(word_wrap("ééé aa", 8, ""), "ééé\naa");
    assert_eq!(word_wrap("ééé aa", 9, ""), "ééé aa");
    // A word longer than the width stands on a line of its own.
    assert_eq!(word_wrap("x abcdefgh y", 3, ""), "x\nabcdefgh\ny");
}

#[test]
fn system_horoscope_layout() {
    let positions = mock_positions();
    let now = test_now();
    let h = get_system_daily_horoscope(&positions, &now);
    assert!(h.starts_with("╔"));
    assert!(h.contains("SYSTEM DAILY HOROSCOPE — 2026-02-27 12:00 UTC ✨"));
    // Direct planets first; Jupiter, retrograde, last.
    let lines: Vec<&str> = h.lines().collect();
    let first = lines.iter().position(|l| l.starts_with("  Sun ")).unwrap();
    assert_eq!(lines[first], "  Sun      in Taurus       (Earth) — vitality, critical tasks");
    assert_eq!(lines[first + 1], "  Moon     in Leo          (Fire ) [First Quarter] — moods, lunar cycles");
    assert!(lines[first + 6].starts_with("  Jupiter  in Cancer       (Water) ℞ RETROGRADE — "));
    assert!(h.contains("🔸 CPU-Intensive (ruled by Mars)\n   Estimated: 2-45 minutes  |  Confidence: ★★★★☆  |  Power hour: 06:00  |  Lucky #: 17\n"));
    assert!(h.contains("🔸 Critical (ruled by Sun)\n   Estimated: 2 seconds  |  Confidence: ★★★★★  |  Power hour: 12:00  |  Lucky #: 52\n"));
    // 27 February: day 26 of the month, the third word of wisdom.
    assert!(h.contains("COSMIC WISDOM OF THE DAY:\n\n   \"A process that completes under Mars is forged in fire."));
    assert!(h.ends_with("══════════════════════════════════════════════════════════════\n"));
}

#[test]
fn chrono_range_bounds() {
    assert!(DateTime::from_timestamp(MIN_UTC_SECS, 0).is_some());
    assert!(DateTime::from_timestamp(MIN_UTC_SECS - 1, 0).is_none());
    assert!(DateTime::from_timestamp(MAX_UTC_SECS, 0).is_some());
    assert!(DateTime::from_timestamp(MAX_UTC_SECS + 1, 0).is_none());
    assert_eq!(DateTime::<Utc>::MIN_UTC.timestamp(), MIN_UTC_SECS);
    assert_eq!(DateTime::<Utc>::MAX_UTC.timestamp(), MAX_UTC_SECS);
    assert_eq!(DateTime::from_timestamp(MIN_UTC_SECS, 0).unwrap().to_string(), "-262143-01-01 00:00:00 UTC");
}

/// The civil date of a second, by the formula the library states for chrono.
fn civil_by_formula(secs: i64) -> (i64, i64, i64) {
    let z = secs.div_euclid(86_400) + 719_468;
    let era = z.div_euclid(146_097);
    let doe = z.rem_euclid(146_097);
    let yoe = (doe - doe / 1_460 + doe / 36_524 - doe / 146_096) / 365;
    let doy = doe - (365 * yoe + yoe / 4 - yoe / 100);
    let mp = (5 * doy + 2) / 153;
    let day = doy - (153 * mp + 2) / 5 + 1;
    let month = if mp < 10 { mp + 3 } else { mp - 9 };
    let year = era * 400 + yoe + i64::from(month <= 2);
    (year, month, day)
}

/// The label `%Y-%m-%d %H:%M UTC`, by the rules the library states for chrono.
fn label_by_formula(secs: i64) -> String {
    let (year, month, day) = civil_by_formula(secs);
    let year_text = if (0..=9999).contains(&year) {
        format!("{year:04}")
    } else if year < 0 {
        format!("-{:04}", -year)
    } else {
        format!("+{year:04}")
    };
    let of_day = secs.rem_euclid(86_400);
    format!("{year_text}-{month:02}-{day:02} {:02}:{:02} UTC", of_day / 3_600, of_day % 3_600 / 60)
}

#[test]
fn calendar_formulas_match_chrono() {
    let mut samples: Vec<i64> = Vec::new();
    let step = (MAX_UTC_SECS - MIN_UTC_SECS) / 100_003;
    let mut secs = MIN_UTC_SECS;
    while secs <= MAX_UTC_SECS {
        samples.push(secs);
        secs += step;
    }
    // Around year 0, the four-digit years and the leap days.
    let mut secs = -62_200_000_000;
    while secs < 253_500_000_000 {
        samples.push(secs);
        secs += 86_399 * 97;
    }
    samples.extend([MIN_UTC_SECS, MAX_UTC_SECS, 0, -1, 951_782_400, 951_868_799, 951_868_800, 1_709_164_800,
        -62_167_219_200, -62_167_219_201, 253_402_300_799, 253_402_300_800]);
    for secs in samples {
        let t = DateTime::from_timestamp(secs, 0).unwrap();
        assert_eq!(civil_by_formula(secs).2 - 1, i64::from(t.day0()), "at {secs}");
        assert_eq!(label_by_formula(secs), t.format("%Y-%m-%d %H:%M UTC").to_string(), "at {secs}");
    }
}
