//! Completion-time horoscopes for task types and the system's daily horoscope.
//!
//! Confidences are held in parts per million: `1_000_000` is certainty.
use vstd::prelude::*;
use vstd::utf8::encode_utf8;
use crate::forecast::{element_index, element_slot, spec_daily_forecast, daily_forecast, COSMIC_WISDOM, ELEMENT_QUIPS};
use crate::planets::{find_position, position_of, Element, Planet, PlanetaryPosition, ZodiacSign};
use crate::tasks::TaskType;
use crate::time::{utc_day0, utc_day0_of, utc_hour, utc_minute_label, utc_minute_label_of, UtcTime};
use crate::text::{
    decimal,
    decimal_two_digits,
    join,
    join_strings,
    lemma_encode_utf8_concat,
    lemma_word_encoded_len,
    lemma_words_nonempty,
    pad_right,
    push_char,
    push_decimal,
    push_padded,
    push_repeated,
    push_two_digits,
    repeat_char,
    split_whitespace,
    words,
};

verus! {

/// Estimated time range for task completion, with its cosmic justification.
#[derive(Debug, Clone)]
pub struct CompletionTimeRange {
    pub min_seconds: u64,
    pub max_seconds: u64,
    /// Parts per million: 0 is "I asked a Magic 8-Ball", 1_000_000 is "Newtonian certainty".
    pub confidence: u32,
    pub cosmic_reason: String,
}

/// A full horoscope prediction for a task type.
#[derive(Debug, Clone)]
pub struct HoroscopePrediction {
    pub task_type: TaskType,
    pub ruling_planet: Planet,
    pub completion_estimate: CompletionTimeRange,
    pub daily_forecast: String,
    pub lucky_number: u8,
    /// The most favourable hour of the day (0 to 23) for this kind of task.
    pub power_hour: u8,
}

// ───────────────────────────── the prediction ─────────────────────────────

pub open spec fn spec_task_ordinal(t: TaskType) -> nat {
    match t {
        TaskType::Network => 0,
        TaskType::CpuIntensive => 1,
        TaskType::Desktop => 2,
        TaskType::MemoryHeavy => 3,
        TaskType::System => 4,
        TaskType::Interactive => 5,
        TaskType::Critical => 6,
    }
}

fn task_type_ordinal(t: TaskType) -> (n: u64)
    ensures
        n == spec_task_ordinal(t),
{
    match t {
        TaskType::Network => 0,
        TaskType::CpuIntensive => 1,
        TaskType::Desktop => 2,
        TaskType::MemoryHeavy => 3,
        TaskType::System => 4,
        TaskType::Interactive => 5,
        TaskType::Critical => 6,
    }
}

/// Position of a task type in the table of quips.
pub open spec fn task_index(t: TaskType) -> int {
    match t {
        TaskType::CpuIntensive => 0,
        TaskType::Network => 1,
        TaskType::MemoryHeavy => 2,
        TaskType::System => 3,
        TaskType::Interactive => 4,
        TaskType::Desktop => 5,
        TaskType::Critical => 6,
    }
}

fn task_slot(t: TaskType) -> (i: usize)
    ensures
        i == task_index(t),
{
    match t {
        TaskType::CpuIntensive => 0,
        TaskType::Network => 1,
        TaskType::MemoryHeavy => 2,
        TaskType::System => 3,
        TaskType::Interactive => 4,
        TaskType::Desktop => 5,
        TaskType::Critical => 6,
    }
}

/// The position of the task type's ruling planet: the first one listed, or the planet at
/// 0° Aries, direct, when none is listed.
pub open spec fn ruling_position(positions: Seq<PlanetaryPosition>, task: TaskType) -> PlanetaryPosition {
    let planet = task.spec_ruling_planet();
    match find_position(positions, planet) {
        Some(p) => p,
        None => PlanetaryPosition {
            planet,
            longitude: 0,
            sign: ZodiacSign::Aries,
            retrograde: false,
            moon_phase: None,
        },
    }
}

/// The base completion range, in seconds, of a task type.
pub open spec fn base_range(task: TaskType) -> (nat, nat) {
    match task {
        TaskType::CpuIntensive => (120, 3600),
        TaskType::Network => (5, 300),
        TaskType::MemoryHeavy => (60, 1800),
        TaskType::System => (1, 60),
        TaskType::Interactive => (1, 30),
        TaskType::Desktop => (1, 10),
        TaskType::Critical => (1, 1),
    }
}

/// The time multiplier in quarters: the element's speed (Fire 0.75, Earth 1.5, Air 1,
/// Water 1.25), tripled in retrograde.
pub open spec fn speed_quarters(retrograde: bool, element: Element) -> nat {
    let k: nat = match element {
        Element::Fire => 3,
        Element::Earth => 6,
        Element::Air => 4,
        Element::Water => 5,
    };
    if retrograde { 3 * k } else { k }
}

/// `base` times `quarters / 4`, rounded half away from zero.
pub open spec fn scaled(base: nat, quarters: nat) -> nat {
    (base * quarters + 2) / 4
}

pub open spec fn spec_min_seconds(task: TaskType, pos: PlanetaryPosition) -> nat {
    let a = scaled(base_range(task).0, speed_quarters(pos.retrograde, pos.sign.spec_element()));
    if a < 1 { 1 } else { a }
}

pub open spec fn spec_max_seconds(task: TaskType, pos: PlanetaryPosition) -> nat {
    let a = scaled(base_range(task).1, speed_quarters(pos.retrograde, pos.sign.spec_element()));
    let m = spec_min_seconds(task, pos);
    if a < m { m } else { a }
}

/// Confidence in parts per million: 0.80 direct or 0.45 retrograde, plus 0.15 for Earth,
/// 0.05 for Fire, nothing for Air, minus 0.05 for Water, kept within [0.05, 1].
pub open spec fn spec_confidence(pos: PlanetaryPosition) -> int {
    let base: int = if pos.retrograde { 450_000 } else { 800_000 };
    let bonus: int = match pos.sign.spec_element() {
        Element::Earth => 150_000,
        Element::Fire => 50_000,
        Element::Air => 0,
        Element::Water => -50_000,
    };
    let c = base + bonus;
    if c < 50_000 { 50_000 } else if c > 1_000_000 { 1_000_000 } else { c }
}

pub open spec fn motion_word(retrograde: bool) -> Seq<char> {
    if retrograde { "retrograde"@ } else { "direct"@ }
}

/// "<planet> <motion> in <sign> (<element>) — <quip>".
pub open spec fn spec_cosmic_reason(task: TaskType, pos: PlanetaryPosition) -> Seq<char> {
    let element = pos.sign.spec_element();
    task.spec_ruling_planet().spec_name() + " "@ + motion_word(pos.retrograde) + " in "@
        + pos.sign.spec_name() + " ("@ + element.spec_name() + ") — "@
        + ELEMENT_QUIPS@[element_index(element)]@[task_index(task)]@
}

/// The whole degrees of a longitude in millidegrees, negative longitudes counting as 0.
pub open spec fn whole_degrees(longitude: int) -> nat {
    if longitude < 0 { 0 } else { (longitude / 1000) as nat }
}

pub open spec fn spec_lucky_number(task: TaskType, pos: PlanetaryPosition) -> nat {
    (whole_degrees(pos.longitude as int) + spec_task_ordinal(task)) % 99 + 1
}

pub open spec fn spec_power_hour(planet: Planet) -> nat {
    match planet {
        Planet::Sun => 12,
        Planet::Moon => 0,
        Planet::Mercury => 9,
        Planet::Venus => 18,
        Planet::Mars => 6,
        Planet::Jupiter => 15,
        Planet::Saturn => 21,
    }
}

fn power_hour_of(planet: Planet) -> (h: u8)
    ensures
        h == spec_power_hour(planet),
{
    match planet {
        Planet::Sun => 12,
        Planet::Moon => 0,
        Planet::Mercury => 9,
        Planet::Venus => 18,
        Planet::Mars => 6,
        Planet::Jupiter => 15,
        Planet::Saturn => 21,
    }
}

fn completion_range(task_type: TaskType, pos: &PlanetaryPosition) -> (r: (u64, u64))
    ensures
        r.0 == spec_min_seconds(task_type, *pos),
        r.1 == spec_max_seconds(task_type, *pos),
        1 <= r.0 <= r.1 <= 16_200,
{
    let (base_min, base_max): (u64, u64) = match task_type {
        TaskType::CpuIntensive => (120, 3600),
        TaskType::Network => (5, 300),
        TaskType::MemoryHeavy => (60, 1800),
        TaskType::System => (1, 60),
        TaskType::Interactive => (1, 30),
        TaskType::Desktop => (1, 10),
        TaskType::Critical => (1, 1),
    };
    // The retrograde and element multipliers, together, in quarters.
    let element_quarters: u64 = match pos.sign.element() {
        Element::Fire => 3,
        Element::Earth => 6,
        Element::Air => 4,
        Element::Water => 5,
    };
    let quarters: u64 = if pos.retrograde { 3 * element_quarters } else { element_quarters };
    assert(base_min * quarters <= 3600 * 18 && base_max * quarters <= 3600 * 18) by (nonlinear_arith)
        requires
            base_min <= 3600,
            base_max <= 3600,
            quarters <= 18,
    ;
    let adj_min = (base_min * quarters + 2) / 4;
    let adj_max = (base_max * quarters + 2) / 4;
    let final_min = if adj_min < 1 { 1 } else { adj_min };
    let final_max = if adj_max < final_min { final_min } else { adj_max };
    (final_min, final_max)
}

fn confidence_for(pos: &PlanetaryPosition) -> (c: u32)
    ensures
        c == spec_confidence(*pos),
{
    let base: i64 = if pos.retrograde { 450_000 } else { 800_000 };
    let element_bonus: i64 = match pos.sign.element() {
        Element::Earth => 150_000,
        Element::Fire => 50_000,
        Element::Air => 0,
        Element::Water => -50_000,
    };
    let c = base + element_bonus;
    if c < 50_000 {
        50_000
    } else if c > 1_000_000 {
        1_000_000
    } else {
        c as u32
    }
}

fn cosmic_reason_for(task_type: TaskType, pos: &PlanetaryPosition) -> (s: String)
    ensures
        s@ == spec_cosmic_reason(task_type, *pos),
{
    let element = pos.sign.element();
    let motion = if pos.retrograde { "retrograde" } else { "direct" };
    let element_quip = ELEMENT_QUIPS[element_slot(element)][task_slot(task_type)];
    let mut cosmic_reason = String::new();
    cosmic_reason.append(task_type.ruling_planet().name());
    cosmic_reason.append(" ");
    cosmic_reason.append(motion);
    cosmic_reason.append(" in ");
    cosmic_reason.append(pos.sign.name());
    cosmic_reason.append(" (");
    cosmic_reason.append(element.name());
    cosmic_reason.append(") — ");
    cosmic_reason.append(element_quip);
    cosmic_reason
}

fn lucky_number_for(task_type: TaskType, pos: &PlanetaryPosition) -> (n: u8)
    ensures
        n == spec_lucky_number(task_type, *pos),
        1 <= n <= 99,
{
    let degrees: u64 = if pos.longitude < 0 { 0 } else { (pos.longitude / 1000) as u64 };
    ((degrees + task_type_ordinal(task_type)) % 99 + 1) as u8
}

impl HoroscopePrediction {
    /// Whether `p` is the prediction for `task` among `positions` at second `now_secs`.
    pub open spec fn predicts(
        p: HoroscopePrediction,
        positions: Seq<PlanetaryPosition>,
        task: TaskType,
        now_secs: int,
    ) -> bool {
        let pos = ruling_position(positions, task);
        &&& p.task_type == task
        &&& p.ruling_planet == task.spec_ruling_planet()
        &&& p.completion_estimate.min_seconds == spec_min_seconds(task, pos)
        &&& p.completion_estimate.max_seconds == spec_max_seconds(task, pos)
        &&& p.completion_estimate.confidence == spec_confidence(pos)
        &&& p.completion_estimate.cosmic_reason@ == spec_cosmic_reason(task, pos)
        &&& p.daily_forecast@ == spec_daily_forecast(task.spec_ruling_planet(), pos, UtcTime::hour_of(now_secs))
        &&& p.lucky_number == spec_lucky_number(task, pos)
        &&& p.power_hour == spec_power_hour(task.spec_ruling_planet())
    }

    /// The horoscope for `task_type` under the planets at `positions`, at the instant `now`.
    pub fn generate(positions: &[PlanetaryPosition], task_type: TaskType, now: &UtcTime) -> (p: Self)
        requires
            now.wf(),
        ensures
            HoroscopePrediction::predicts(p, positions@, task_type, now.secs as int),
            1 <= p.lucky_number <= 99,
            p.power_hour <= 23,
            50_000 <= p.completion_estimate.confidence <= 1_000_000,
            1 <= p.completion_estimate.min_seconds <= p.completion_estimate.max_seconds <= 16_200,
    {
        let ruling_planet = task_type.ruling_planet();
        // Fall back to a synthetic position when the ruling planet is absent.
        let ruling_pos = match position_of(positions, ruling_planet) {
            Some(p) => p,
            None => PlanetaryPosition {
                planet: ruling_planet,
                longitude: 0,
                sign: ZodiacSign::Aries,
                retrograde: false,
                moon_phase: None,
            },
        };
        let (min_seconds, max_seconds) = completion_range(task_type, &ruling_pos);
        let confidence = confidence_for(&ruling_pos);
        let cosmic_reason = cosmic_reason_for(task_type, &ruling_pos);
        let hour = utc_hour(now.secs);
        let daily_forecast = daily_forecast(ruling_planet, &ruling_pos, hour);
        let lucky_number = lucky_number_for(task_type, &ruling_pos);
        let power_hour = power_hour_of(ruling_planet);
        HoroscopePrediction {
            task_type,
            ruling_planet,
            completion_estimate: CompletionTimeRange {
                min_seconds,
                max_seconds,
                confidence,
                cosmic_reason,
            },
            daily_forecast,
            lucky_number,
            power_hour,
        }
    }
}

/// Retrograde motion lowers the confidence and stretches the estimate (threefold before
/// rounding), whatever the sign.
pub proof fn lemma_retrograde_effects(task: TaskType, pos: PlanetaryPosition)
    ensures
        ({
            let direct = PlanetaryPosition { retrograde: false, ..pos };
            let retro = PlanetaryPosition { retrograde: true, ..pos };
            &&& spec_confidence(retro) < spec_confidence(direct)
            &&& spec_min_seconds(task, direct) <= spec_min_seconds(task, retro)
            &&& spec_max_seconds(task, direct) <= spec_max_seconds(task, retro)
        }),
{
    let direct = PlanetaryPosition { retrograde: false, ..pos };
    let retro = PlanetaryPosition { retrograde: true, ..pos };
    let k = speed_quarters(false, pos.sign.spec_element());
    let (lo, hi) = base_range(task);
    assert(lo * k <= lo * (3 * k) && hi * k <= hi * (3 * k)) by (nonlinear_arith)
        requires
            k >= 0,
            lo >= 0,
            hi >= 0,
    ;
    vstd::arithmetic::div_mod::lemma_div_is_ordered((lo * k + 2) as int, (lo * (3 * k) + 2) as int, 4);
    vstd::arithmetic::div_mod::lemma_div_is_ordered((hi * k + 2) as int, (hi * (3 * k) + 2) as int, 4);
}

/// Each planet's power hour: the Sun at noon, the Moon at midnight, Mercury at 9, Venus at
/// 18, Mars at 6, Jupiter at 15 and Saturn at 21; so a prediction for a network or
/// interactive task (Mercury) names 9, a CPU task (Mars) 6, a memory task (Jupiter) 15, a
/// system task (Saturn) 21, a desktop task (Venus) 18 and a critical one (the Sun) 12.
pub proof fn lemma_power_hours(p: HoroscopePrediction, positions: Seq<PlanetaryPosition>, task: TaskType, now_secs: int)
    requires
        HoroscopePrediction::predicts(p, positions, task, now_secs),
    ensures
        spec_power_hour(Planet::Sun) == 12,
        spec_power_hour(Planet::Moon) == 0,
        spec_power_hour(Planet::Mercury) == 9,
        spec_power_hour(Planet::Venus) == 18,
        spec_power_hour(Planet::Mars) == 6,
        spec_power_hour(Planet::Jupiter) == 15,
        spec_power_hour(Planet::Saturn) == 21,
        task == TaskType::Network || task == TaskType::Interactive ==> p.power_hour == 9 && p.ruling_planet
            == Planet::Mercury,
        task == TaskType::CpuIntensive ==> p.power_hour == 6 && p.ruling_planet == Planet::Mars,
        task == TaskType::MemoryHeavy ==> p.power_hour == 15 && p.ruling_planet == Planet::Jupiter,
        task == TaskType::System ==> p.power_hour == 21 && p.ruling_planet == Planet::Saturn,
        task == TaskType::Desktop ==> p.power_hour == 18 && p.ruling_planet == Planet::Venus,
        task == TaskType::Critical ==> p.power_hour == 12 && p.ruling_planet == Planet::Sun,
{
}

/// A prediction's confidence: 0.80 under a direct ruling planet and 0.45 under a retrograde
/// one, raised by 0.15 in Earth and 0.05 in Fire, unchanged in Air, lowered by 0.05 in Water.
pub proof fn lemma_confidence_values(pos: PlanetaryPosition)
    ensures
        ({
            let e = pos.sign.spec_element();
            &&& !pos.retrograde && e == Element::Earth ==> spec_confidence(pos) == 950_000
            &&& !pos.retrograde && e == Element::Fire ==> spec_confidence(pos) == 850_000
            &&& !pos.retrograde && e == Element::Air ==> spec_confidence(pos) == 800_000
            &&& !pos.retrograde && e == Element::Water ==> spec_confidence(pos) == 750_000
            &&& pos.retrograde && e == Element::Earth ==> spec_confidence(pos) == 600_000
            &&& pos.retrograde && e == Element::Fire ==> spec_confidence(pos) == 500_000
            &&& pos.retrograde && e == Element::Air ==> spec_confidence(pos) == 450_000
            &&& pos.retrograde && e == Element::Water ==> spec_confidence(pos) == 400_000
        }),
{
}

/// The completion range: under a direct ruling planet in an Air sign (speed 1.0) it is the
/// task type's base range (CPU 120–3600 s, network 5–300, memory 60–1800, system 1–60,
/// interactive 1–30, desktop 1–10, critical 1–1); retrograde in Air it is three times that;
/// direct in Earth one and a half times (CPU 180–5400), in Fire three quarters (CPU 90–2700),
/// in Water five quarters (CPU 150–4500).
pub proof fn lemma_completion_ranges(task: TaskType, pos: PlanetaryPosition)
    ensures
        ({
            let e = pos.sign.spec_element();
            let lo = spec_min_seconds(task, pos);
            let hi = spec_max_seconds(task, pos);
            &&& !pos.retrograde && e == Element::Air ==> {
                &&& task == TaskType::CpuIntensive ==> lo == 120 && hi == 3600
                &&& task == TaskType::Network ==> lo == 5 && hi == 300
                &&& task == TaskType::MemoryHeavy ==> lo == 60 && hi == 1800
                &&& task == TaskType::System ==> lo == 1 && hi == 60
                &&& task == TaskType::Interactive ==> lo == 1 && hi == 30
                &&& task == TaskType::Desktop ==> lo == 1 && hi == 10
                &&& task == TaskType::Critical ==> lo == 1 && hi == 1
            }
            &&& pos.retrograde && e == Element::Air ==> {
                &&& task == TaskType::CpuIntensive ==> lo == 360 && hi == 10800
                &&& task == TaskType::Network ==> lo == 15 && hi == 900
                &&& task == TaskType::Critical ==> lo == 3 && hi == 3
            }
            &&& !pos.retrograde && task == TaskType::CpuIntensive ==> {
                &&& e == Element::Earth ==> lo == 180 && hi == 5400
                &&& e == Element::Fire ==> lo == 90 && hi == 2700
                &&& e == Element::Water ==> lo == 150 && hi == 4500
            }
        }),
{
    let (b_lo, b_hi) = base_range(task);
    let q = speed_quarters(pos.retrograde, pos.sign.spec_element());
    assert(spec_min_seconds(task, pos) == (if scaled(b_lo, q) < 1 { 1 } else { scaled(b_lo, q) }));
    match task {
        TaskType::CpuIntensive => {
            assert(scaled(120, 4) == 120 && scaled(3600, 4) == 3600);
            assert(scaled(120, 12) == 360 && scaled(3600, 12) == 10800);
            assert(scaled(120, 6) == 180 && scaled(3600, 6) == 5400);
            assert(scaled(120, 3) == 90 && scaled(3600, 3) == 2700);
            assert(scaled(120, 5) == 150 && scaled(3600, 5) == 4500);
        },
        TaskType::Network => {
            assert(scaled(5, 4) == 5 && scaled(300, 4) == 300);
            assert(scaled(5, 12) == 15 && scaled(300, 12) == 900);
        },
        TaskType::MemoryHeavy => {
            assert(scaled(60, 4) == 60 && scaled(1800, 4) == 1800);
        },
        TaskType::System => {
            assert(scaled(1, 4) == 1 && scaled(60, 4) == 60);
        },
        TaskType::Interactive => {
            assert(scaled(1, 4) == 1 && scaled(30, 4) == 30);
        },
        TaskType::Desktop => {
            assert(scaled(1, 4) == 1 && scaled(10, 4) == 10);
        },
        TaskType::Critical => {
            assert(scaled(1, 4) == 1 && scaled(1, 12) == 3);
        },
    }
}

/// The lucky number counts the ruling planet's whole degrees plus the task type's place
/// (network 0, CPU 1, desktop 2, memory 3, system 4, interactive 5, critical 6), modulo 99,
/// from 1.
pub proof fn lemma_lucky_numbers(task: TaskType, pos: PlanetaryPosition)
    ensures
        ({
            let d = whole_degrees(pos.longitude as int);
            let k: nat = if task == TaskType::Network {
                0
            } else if task == TaskType::CpuIntensive {
                1
            } else if task == TaskType::Desktop {
                2
            } else if task == TaskType::MemoryHeavy {
                3
            } else if task == TaskType::System {
                4
            } else if task == TaskType::Interactive {
                5
            } else {
                6
            };
            &&& spec_lucky_number(task, pos) == (d + k) % 99 + 1
            &&& 1 <= spec_lucky_number(task, pos) <= 99
        }),
{
}

// ───────────────────────────── durations ─────────────────────────────

/// `n` followed by a unit, singular when `n` is 1.
pub open spec fn counted(n: nat, unit: Seq<char>) -> Seq<char> {
    decimal(n) + " "@ + unit + (if n == 1 { ""@ } else { "s"@ })
}

/// `lo-hi` followed by the plural unit.
pub open spec fn ranged(lo: nat, hi: nat, unit: Seq<char>) -> Seq<char> {
    decimal(lo) + "-"@ + decimal(hi) + " "@ + unit + "s"@
}

/// A range in whole units of `size` seconds: the low end rounded up and at least 1,
/// the high end rounded down and at least the low end.
pub open spec fn in_units(min_s: nat, max_s: nat, size: nat, unit: Seq<char>) -> Seq<char>
    recommends
        size > 0,
{
    let lo0: nat = ((min_s + size - 1) as nat) / size;
    let lo: nat = if lo0 < 1 { 1 } else { lo0 };
    let hi0: nat = max_s / size;
    let hi: nat = if hi0 < lo { lo } else { hi0 };
    if lo == hi {
        counted(lo as nat, unit)
    } else {
        ranged(lo as nat, hi as nat, unit)
    }
}

/// A duration range in the unit that suits its upper end: seconds below two minutes,
/// minutes below an hour, hours beyond.
pub open spec fn spec_format_duration(min_s: nat, max_s: nat) -> Seq<char> {
    if max_s < 120 {
        if min_s == max_s {
            counted(min_s, "second"@)
        } else {
            ranged(min_s, max_s, "second"@)
        }
    } else if max_s < 3600 {
        in_units(min_s, max_s, 60, "minute"@)
    } else {
        in_units(min_s, max_s, 3600, "hour"@)
    }
}

fn push_counted(out: &mut String, n: u64, unit: &str)
    ensures
        final(out)@ == old(out)@ + counted(n as nat, unit@),
{
    push_decimal(out, n);
    out.append(" ");
    out.append(unit);
    if n == 1 {
        out.append("");
    } else {
        out.append("s");
    }
}

fn push_ranged(out: &mut String, lo: u64, hi: u64, unit: &str)
    ensures
        final(out)@ == old(out)@ + ranged(lo as nat, hi as nat, unit@),
{
    push_decimal(out, lo);
    out.append("-");
    push_decimal(out, hi);
    out.append(" ");
    out.append(unit);
    out.append("s");
}

fn push_in_units(out: &mut String, min_s: u64, max_s: u64, size: u64, unit: &str)
    requires
        size > 0,
        min_s + size - 1 <= u64::MAX,
    ensures
        final(out)@ == old(out)@ + in_units(min_s as nat, max_s as nat, size as nat, unit@),
{
    let lo0 = (min_s + (size - 1)) / size;
    let lo = if lo0 < 1 { 1 } else { lo0 };
    let hi0 = max_s / size;
    let hi = if hi0 < lo { lo } else { hi0 };
    if lo == hi {
        push_counted(out, lo, unit);
    } else {
        push_ranged(out, lo, hi, unit);
    }
}

/// Renders a range of seconds in the unit that suits its upper end
/// (e.g. "1 second", "5-60 seconds", "2-30 minutes", "1 hour").
pub fn format_duration(min_s: u64, max_s: u64) -> (s: String)
    requires
        120 <= max_s < 3600 ==> min_s + 59 <= u64::MAX,
        max_s >= 3600 ==> min_s + 3599 <= u64::MAX,
    ensures
        s@ == spec_format_duration(min_s as nat, max_s as nat),
{
    let mut out = String::new();
    if max_s < 120 {
        if min_s == max_s {
            push_counted(&mut out, min_s, "second");
        } else {
            push_ranged(&mut out, min_s, max_s, "second");
        }
    } else if max_s < 3600 {
        push_in_units(&mut out, min_s, max_s, 60, "minute");
    } else {
        push_in_units(&mut out, min_s, max_s, 3600, "hour");
    }
    out
}

// ───────────────────────────── confidence ─────────────────────────────

/// The number of filled stars for a confidence: five times the confidence, rounded
/// half away from zero, at most five.
pub open spec fn filled_stars(confidence_ppm: nat) -> nat {
    let f = (confidence_ppm * 5 + 500_000) / 1_000_000;
    if f > 5 { 5 } else { f }
}

/// Five stars, the first `filled_stars` of them filled.
pub open spec fn spec_confidence_stars(confidence_ppm: nat) -> Seq<char> {
    repeat_char('★', filled_stars(confidence_ppm))
        + repeat_char('☆', (5 - filled_stars(confidence_ppm)) as nat)
}

/// A confidence (parts per million) as five stars, e.g. 0.8 as "★★★★☆".
pub fn confidence_stars(confidence: u32) -> (s: String)
    ensures
        s@ == spec_confidence_stars(confidence as nat),
        s@.len() == 5,
{
    let f = (confidence as u64 * 5 + 500_000) / 1_000_000;
    let filled: usize = if f > 5 { 5 } else { f as usize };
    let empty: usize = 5 - filled;
    let mut out = String::new();
    proof {
        reveal_strlit("★");
        reveal_strlit("☆");
    }
    push_repeated(&mut out, "★", filled);
    push_repeated(&mut out, "☆", empty);
    out
}

/// Confidence as stars: five times the confidence rounded half up, at most five, filled
/// stars first; more confidence never shows fewer filled stars.
pub proof fn lemma_confidence_stars(c1: nat, c2: nat)
    ensures
        ({
            let f = (c1 * 5 + 500_000) / 1_000_000;
            let k: nat = if f > 5 { 5 } else { f };
            spec_confidence_stars(c1) == repeat_char('★', k) + repeat_char('☆', (5 - k) as nat)
        }),
        c1 <= c2 ==> filled_stars(c1) <= filled_stars(c2),
        c1 >= 1_000_000 ==> filled_stars(c1) == 5,
        c1 < 100_000 ==> filled_stars(c1) == 0,
{
    if c1 <= c2 {
        vstd::arithmetic::div_mod::lemma_div_is_ordered((c1 * 5 + 500_000) as int, (c2 * 5 + 500_000) as int, 1_000_000);
    }
    if c1 >= 1_000_000 {
        vstd::arithmetic::div_mod::lemma_div_is_ordered(5_500_000, (c1 * 5 + 500_000) as int, 1_000_000);
    }
}

/// A duration range reads in seconds below two minutes (one number when the ends agree),
/// in whole minutes below an hour and in whole hours beyond: the low end rounded up and at
/// least one, the high end rounded down and at least the low end, "s" on the unit unless
/// it is a single 1.
pub proof fn lemma_duration_units(min_s: nat, max_s: nat)
    ensures
        max_s < 120 && min_s == max_s ==> spec_format_duration(min_s, max_s) == decimal(min_s) + " "@
            + "second"@ + (if min_s == 1 { ""@ } else { "s"@ }),
        max_s < 120 && min_s != max_s ==> spec_format_duration(min_s, max_s) == decimal(min_s) + "-"@
            + decimal(max_s) + " "@ + "second"@ + "s"@,
        ({
            let lo0: nat = ((min_s + 59) as nat) / 60;
            let lo: nat = if lo0 < 1 { 1 } else { lo0 };
            let hi: nat = if max_s / 60 < lo { lo } else { max_s / 60 };
            120 <= max_s < 3600 ==> spec_format_duration(min_s, max_s) == if lo == hi {
                decimal(lo) + " "@ + "minute"@ + (if lo == 1 { ""@ } else { "s"@ })
            } else {
                decimal(lo) + "-"@ + decimal(hi) + " "@ + "minute"@ + "s"@
            }
        }),
        ({
            let lo0: nat = ((min_s + 3599) as nat) / 3600;
            let lo: nat = if lo0 < 1 { 1 } else { lo0 };
            let hi: nat = if max_s / 3600 < lo { lo } else { max_s / 3600 };
            3600 <= max_s ==> spec_format_duration(min_s, max_s) == if lo == hi {
                decimal(lo) + " "@ + "hour"@ + (if lo == 1 { ""@ } else { "s"@ })
            } else {
                decimal(lo) + "-"@ + decimal(hi) + " "@ + "hour"@ + "s"@
            }
        }),
{
}

// ───────────────────────────── word wrapping ─────────────────────────────

/// The length in bytes of the UTF-8 encoding of `s` (`str::len`).
pub open spec fn byte_len(s: Seq<char>) -> int {
    (encode_utf8(s).len() as usize) as int
}

/// One step of greedy wrapping: the finished lines and the line being filled.
pub open spec fn wrap_step(
    st: (Seq<Seq<char>>, Seq<char>),
    word: Seq<char>,
    width: int,
    indent: Seq<char>,
) -> (Seq<Seq<char>>, Seq<char>) {
    if st.1.len() == 0 {
        (st.0, word)
    } else if byte_len(st.1) + 1 + byte_len(word) <= width {
        (st.0, st.1 + seq![' '] + word)
    } else {
        (st.0.push(indent + st.1), word)
    }
}

pub open spec fn wrap_state(ws: Seq<Seq<char>>, width: int, indent: Seq<char>) -> (
    Seq<Seq<char>>,
    Seq<char>,
)
    decreases ws.len(),
{
    if ws.len() == 0 {
        (Seq::empty(), Seq::empty())
    } else {
        wrap_step(wrap_state(ws.drop_last(), width, indent), ws.last(), width, indent)
    }
}

/// The lines of greedily wrapped words, each prefixed by `indent`.
pub open spec fn wrapped_lines(text: Seq<char>, width: int, indent: Seq<char>) -> Seq<Seq<char>> {
    let st = wrap_state(words(text), width, indent);
    if st.1.len() > 0 {
        st.0.push(indent + st.1)
    } else {
        st.0
    }
}

/// The wrapped text: its lines joined with newlines.
pub open spec fn spec_word_wrap(text: Seq<char>, width: int, indent: Seq<char>) -> Seq<char> {
    join(wrapped_lines(text, width, indent), "\n"@)
}

/// Greedily wraps the words of `text` into lines of at most `width` bytes where a word
/// allows it, each line prefixed by `indent`.
pub fn word_wrap(text: &str, width: usize, indent: &str) -> (s: String)
    ensures
        s@ == spec_word_wrap(text@, width as int, indent@),
{
    let ws = split_whitespace(text);
    let ghost wv = words(text@);
    let mut lines: Vec<String> = Vec::new();
    let mut current_line = String::new();
    let mut i: usize = 0;
    while i < ws.len()
        invariant
            i <= ws@.len(),
            ws@.len() == wv.len(),
            wv == words(text@),
            forall|k: int| 0 <= k < ws@.len() ==> #[trigger] ws@[k]@ == wv[k],
            lines@.map_values(|l: String| l@) == wrap_state(wv.take(i as int), width as int, indent@).0,
            current_line@ == wrap_state(wv.take(i as int), width as int, indent@).1,
        decreases ws@.len() - i,
    {
        let ghost before = wrap_state(wv.take(i as int), width as int, indent@);
        assert(wv.take(i + 1).drop_last() == wv.take(i as int));
        let word = ws[i].as_str();
        if current_line.as_str().is_empty() {
            current_line.append(word);
        } else if (current_line.as_str().len() as u128) + 1 + (word.len() as u128) <= width as u128 {
            push_char(&mut current_line, ' ');
            current_line.append(word);
        } else {
            let mut line = String::new();
            line.append(indent);
            line.append(current_line.as_str());
            lines.push(line);
            current_line = String::new();
            current_line.append(word);
        }
        i = i + 1;
    }
    assert(wv.take(ws@.len() as int) == wv);
    if !current_line.as_str().is_empty() {
        let mut line = String::new();
        line.append(indent);
        line.append(current_line.as_str());
        lines.push(line);
    }
    assert(lines@.map_values(|l: String| l@) == wrapped_lines(text@, width as int, indent@));
    join_strings(&lines, "\n")
}

/// The lines of `wrapped_lines` without their indent.
pub open spec fn content_state(ws: Seq<Seq<char>>, width: int) -> (Seq<Seq<char>>, Seq<char>)
    decreases ws.len(),
{
    if ws.len() == 0 {
        (Seq::empty(), Seq::empty())
    } else {
        let st = content_state(ws.drop_last(), width);
        let word = ws.last();
        if st.1.len() == 0 {
            (st.0, word)
        } else if byte_len(st.1) + 1 + byte_len(word) <= width {
            (st.0, st.1 + seq![' '] + word)
        } else {
            (st.0.push(st.1), word)
        }
    }
}

pub open spec fn content_lines(text: Seq<char>, width: int) -> Seq<Seq<char>> {
    let st = content_state(words(text), width);
    if st.1.len() > 0 {
        st.0.push(st.1)
    } else {
        st.0
    }
}

proof fn lemma_wrap_state_indent(ws: Seq<Seq<char>>, width: int, indent: Seq<char>)
    ensures
        wrap_state(ws, width, indent).1 == content_state(ws, width).1,
        wrap_state(ws, width, indent).0.len() == content_state(ws, width).0.len(),
        forall|k: int| 0 <= k < content_state(ws, width).0.len() ==>
            #[trigger] wrap_state(ws, width, indent).0[k] == indent + content_state(ws, width).0[k],
    decreases ws.len(),
{
    if ws.len() > 0 {
        lemma_wrap_state_indent(ws.drop_last(), width, indent);
    }
}

proof fn lemma_join_push(parts: Seq<Seq<char>>, last: Seq<char>, sep: Seq<char>)
    requires
        parts.len() > 0,
    ensures
        join(parts.push(last), sep) == join(parts, sep) + sep + last,
{
    assert(parts.push(last).drop_last() == parts);
}

proof fn lemma_content_state_words(ws: Seq<Seq<char>>, width: int)
    requires
        forall|k: int| 0 <= k < ws.len() ==> (#[trigger] ws[k]).len() > 0,
    ensures
        (content_state(ws, width).1.len() == 0) == (ws.len() == 0),
        ws.len() == 0 ==> content_state(ws, width).0.len() == 0,
        ws.len() > 0 ==> join(content_state(ws, width).0.push(content_state(ws, width).1), " "@)
            == join(ws, " "@),
    decreases ws.len(),
{
    reveal_strlit(" ");
    if ws.len() > 0 {
        let prev = ws.drop_last();
        lemma_content_state_words(prev, width);
        let st = content_state(prev, width);
        let word = ws.last();
        if prev.len() > 0 {
            lemma_join_push(prev, word, " "@);
            if byte_len(st.1) + 1 + byte_len(word) <= width {
                if st.0.len() > 0 {
                    lemma_join_push(st.0, st.1, " "@);
                    lemma_join_push(st.0, st.1 + seq![' '] + word, " "@);
                }
            } else {
                lemma_join_push(st.0.push(st.1), word, " "@);
            }
        }
    }
}

/// Wrapping keeps the words of the text, in order: every line is the indent followed by
/// some of the words separated by single spaces, and these lines, without their indent and
/// joined by spaces, give back the words joined by spaces.
pub proof fn lemma_word_wrap_keeps_words(text: Seq<char>, width: int, indent: Seq<char>)
    ensures
        wrapped_lines(text, width, indent).len() == content_lines(text, width).len(),
        forall|k: int| 0 <= k < content_lines(text, width).len() ==>
            #[trigger] wrapped_lines(text, width, indent)[k] == indent + content_lines(text, width)[k],
        join(content_lines(text, width), " "@) == join(words(text), " "@),
{
    let ws = words(text);
    lemma_words_nonempty(text);
    lemma_wrap_state_indent(ws, width, indent);
    lemma_content_state_words(ws, width);
}

/// A line that holds at most `width` bytes, or a single word of `ws`.
pub open spec fn fits_or_word(line: Seq<char>, ws: Seq<Seq<char>>, width: int) -> bool {
    byte_len(line) <= width || ws.contains(line)
}

proof fn lemma_content_state_fits(ws: Seq<Seq<char>>, width: int)
    requires
        0 <= width <= usize::MAX,
        forall|k: int| 0 <= k < ws.len() ==> encode_utf8(#[trigger] ws[k]).len() <= usize::MAX,
    ensures
        forall|k: int| 0 <= k < content_state(ws, width).0.len() ==> fits_or_word(
            #[trigger] content_state(ws, width).0[k],
            ws,
            width,
        ),
        content_state(ws, width).1.len() > 0 ==> fits_or_word(content_state(ws, width).1, ws, width),
        encode_utf8(content_state(ws, width).1).len() <= usize::MAX,
    decreases ws.len(),
{
    if ws.len() > 0 {
        let prev = ws.drop_last();
        lemma_content_state_fits(prev, width);
        let st = content_state(prev, width);
        let w = ws.last();
        assert forall|c: Seq<char>| prev.contains(c) implies ws.contains(c) by {
            let i = choose|i: int| 0 <= i < prev.len() && prev[i] == c;
            assert(ws[i] == c);
        }
        if st.1.len() > 0 && byte_len(st.1) + 1 + byte_len(w) <= width {
            // The joined line's encoding is the two encodings around a one-byte space.
            lemma_encode_utf8_concat(st.1, seq![' ']);
            lemma_encode_utf8_concat(st.1 + seq![' '], w);
            assert(encode_utf8(seq![' ']) == vstd::utf8::encode_scalar(' ' as u32) + encode_utf8(
                seq![' '].drop_first(),
            ));
        }
    }
}

/// Wrapping at `width` bytes: every line, after its indent, holds at most `width` bytes,
/// unless it is a single word longer than that.
pub proof fn lemma_word_wrap_fits(text: Seq<char>, width: int)
    requires
        0 <= width <= usize::MAX,
        encode_utf8(text).len() <= usize::MAX,
    ensures
        forall|k: int| 0 <= k < content_lines(text, width).len() ==> fits_or_word(
            #[trigger] content_lines(text, width)[k],
            words(text),
            width,
        ),
{
    let ws = words(text);
    assert forall|k: int| 0 <= k < ws.len() implies encode_utf8(#[trigger] ws[k]).len() <= usize::MAX by {
        lemma_word_encoded_len(text, k);
    }
    lemma_content_state_fits(ws, width);
}

// ───────────────────────────── the daily horoscope ─────────────────────────────

/// The frame of the horoscope's title: the text before and after the date.
pub const HOROSCOPE_TITLE: [&'static str; 2] = [
    "╔══════════════════════════════════════════════════════════════╗\n║         \u{2728} SYSTEM \
     DAILY HOROSCOPE — ",
    " ✨         ║\n╚══════════════════════════════════════════════════════════════╝\n\n",
];

/// The rule under a section heading.
pub const SECTION_RULE: &'static str = "──────────────────────────────────────────────────────────────";

/// The closing rule.
pub const CLOSING_RULE: &'static str = "══════════════════════════════════════════════════════════════";

/// "  <planet> in <sign> (<element>)[ ℞ RETROGRADE][ [<phase>]] — <domain>", with the
/// planet, sign and element names left-aligned in fields of 8, 12 and 5 characters.
pub open spec fn planet_line(pos: PlanetaryPosition) -> Seq<char> {
    "  "@ + pad_right(pos.planet.spec_name(), 8) + " in "@ + pad_right(pos.sign.spec_name(), 12)
        + " ("@ + pad_right(pos.sign.spec_element().spec_name(), 5) + ")"@
        + (if pos.retrograde { " ℞ RETROGRADE"@ } else { ""@ })
        + (match pos.moon_phase {
            Some(p) => " ["@ + p.spec_name() + "]"@,
            None => ""@,
        }) + " — "@ + pos.planet.spec_domain()
}

/// The lines, each ended by a newline, of the positions whose motion is `retrograde`, in order.
pub open spec fn planet_lines(positions: Seq<PlanetaryPosition>, retrograde: bool) -> Seq<char>
    decreases positions.len(),
{
    if positions.len() == 0 {
        Seq::empty()
    } else {
        planet_lines(positions.drop_last(), retrograde) + (if positions.last().retrograde
            == retrograde {
            planet_line(positions.last()) + "\n"@
        } else {
            Seq::empty()
        })
    }
}

/// "🔸 <task> (ruled by <planet>)" and a newline.
pub open spec fn guidance_heading(task: TaskType) -> Seq<char> {
    "\u{1F538} "@ + task.spec_name() + " (ruled by "@ + task.spec_ruling_planet().spec_name() + ")\n"@
}

/// The line of the estimate, confidence stars, power hour and lucky number.
pub open spec fn guidance_estimate(pos: PlanetaryPosition, task: TaskType) -> Seq<char> {
    "   Estimated: "@ + spec_format_duration(spec_min_seconds(task, pos), spec_max_seconds(task, pos))
        + "  |  Confidence: "@ + spec_confidence_stars(spec_confidence(pos) as nat)
        + "  |  Power hour: "@ + decimal_two_digits(spec_power_hour(task.spec_ruling_planet()))
        + ":00  |  Lucky #: "@ + decimal(spec_lucky_number(task, pos)) + "\n"@
}

/// The forecast wrapped at 60 bytes and indented, then the cosmic reason, then a blank line.
pub open spec fn guidance_forecast(pos: PlanetaryPosition, task: TaskType, now_secs: int) -> Seq<char> {
    spec_word_wrap(
        spec_daily_forecast(task.spec_ruling_planet(), pos, UtcTime::hour_of(now_secs)),
        60,
        "   "@,
    ) + "\n"@ + "   \u{1F30C} "@ + spec_cosmic_reason(task, pos) + "\n"@ + "\n"@
}

/// The guidance for one task type: heading, estimate, wrapped forecast and cosmic reason.
pub open spec fn task_guidance(positions: Seq<PlanetaryPosition>, task: TaskType, now_secs: int) -> Seq<
    char,
> {
    let pos = ruling_position(positions, task);
    guidance_heading(task) + guidance_estimate(pos, task) + guidance_forecast(pos, task, now_secs)
}

/// The system's daily horoscope: the planets of the day (direct ones first), guidance for
/// every task type, and the day's word of cosmic wisdom.
pub open spec fn spec_system_daily_horoscope(positions: Seq<PlanetaryPosition>, now_secs: i64) -> Seq<char> {
    let t = now_secs as int;
    HOROSCOPE_TITLE@[0]@ + utc_minute_label_of(now_secs) + HOROSCOPE_TITLE@[1]@
        + "\u{1F315} PLANETS OF THE DAY\n"@ + SECTION_RULE@ + "\n"@
        + planet_lines(positions, false) + planet_lines(positions, true) + "\n"@
        + "\u{1F4CB} TASK TYPE GUIDANCE\n"@ + SECTION_RULE@ + "\n\n"@
        + task_guidance(positions, TaskType::Critical, t)
        + task_guidance(positions, TaskType::CpuIntensive, t)
        + task_guidance(positions, TaskType::Network, t)
        + task_guidance(positions, TaskType::MemoryHeavy, t)
        + task_guidance(positions, TaskType::System, t)
        + task_guidance(positions, TaskType::Desktop, t)
        + task_guidance(positions, TaskType::Interactive, t)
        + SECTION_RULE@ + "\n"@ + "\u{1F4AB} COSMIC WISDOM OF THE DAY:\n\n   "@
        + COSMIC_WISDOM@[(utc_day0_of(now_secs) % 8) as int]@ + "\n\n"@ + CLOSING_RULE@ + "\n"@
}

fn planet_line_text(pos: &PlanetaryPosition) -> (s: String)
    ensures
        s@ == planet_line(*pos),
{
    let mut out = String::new();
    out.append("  ");
    push_padded(&mut out, pos.planet.name(), 8);
    out.append(" in ");
    push_padded(&mut out, pos.sign.name(), 12);
    out.append(" (");
    push_padded(&mut out, pos.sign.element().name(), 5);
    out.append(")");
    if pos.retrograde {
        out.append(" ℞ RETROGRADE");
    } else {
        out.append("");
    }
    match pos.moon_phase {
        Some(p) => {
            let mut tag = String::new();
            tag.append(" [");
            tag.append(p.name());
            tag.append("]");
            out.append(tag.as_str());
        },
        None => out.append(""),
    }
    out.append(" — ");
    out.append(pos.planet.domain());
    out
}

fn push_planet_lines(out: &mut String, positions: &[PlanetaryPosition], retrograde: bool)
    ensures
        final(out)@ == old(out)@ + planet_lines(positions@, retrograde),
{
    let ghost start = out@;
    let mut i: usize = 0;
    while i < positions.len()
        invariant
            i <= positions@.len(),
            out@ == start + planet_lines(positions@.take(i as int), retrograde),
        decreases positions@.len() - i,
    {
        assert(positions@.take(i + 1).drop_last() == positions@.take(i as int));
        if positions[i].retrograde == retrograde {
            let line = planet_line_text(&positions[i]);
            out.append(line.as_str());
            out.append("\n");
        }
        i = i + 1;
    }
    assert(positions@.take(positions@.len() as int) == positions@);
}

fn push_task_guidance(out: &mut String, positions: &[PlanetaryPosition], task: TaskType, now: &UtcTime)
    requires
        now.wf(),
    ensures
        final(out)@ == old(out)@ + task_guidance(positions@, task, now.secs as int),
{
    let ghost pos = ruling_position(positions@, task);
    let prediction = HoroscopePrediction::generate(positions, task, now);
    let est = &prediction.completion_estimate;

    let mut heading = String::new();
    heading.append("\u{1F538} ");
    heading.append(task.name());
    heading.append(" (ruled by ");
    heading.append(prediction.ruling_planet.name());
    heading.append(")\n");

    let duration = format_duration(est.min_seconds, est.max_seconds);
    let stars = confidence_stars(est.confidence);
    let mut estimate = String::new();
    estimate.append("   Estimated: ");
    estimate.append(duration.as_str());
    estimate.append("  |  Confidence: ");
    estimate.append(stars.as_str());
    estimate.append("  |  Power hour: ");
    push_two_digits(&mut estimate, prediction.power_hour as u64);
    estimate.append(":00  |  Lucky #: ");
    push_decimal(&mut estimate, prediction.lucky_number as u64);
    estimate.append("\n");

    let mut body = word_wrap(prediction.daily_forecast.as_str(), 60, "   ");
    body.append("\n");
    body.append("   \u{1F30C} ");
    body.append(est.cosmic_reason.as_str());
    body.append("\n");
    body.append("\n");

    out.append(heading.as_str());
    out.append(estimate.as_str());
    out.append(body.as_str());
}

/// The system's daily horoscope for the planets at `positions`, at the instant `now`.
pub fn get_system_daily_horoscope(positions: &[PlanetaryPosition], now: &UtcTime) -> (s: String)
    requires
        now.wf(),
    ensures
        s@ == spec_system_daily_horoscope(positions@, now.secs),
{
    let mut out = String::new();
    out.append(HOROSCOPE_TITLE[0]);
    let label = utc_minute_label(now.secs);
    out.append(label.as_str());
    out.append(HOROSCOPE_TITLE[1]);

    out.append("\u{1F315} PLANETS OF THE DAY\n");
    out.append(SECTION_RULE);
    out.append("\n");
    // Direct planets first, then retrograde ones, each group in the given order.
    push_planet_lines(&mut out, positions, false);
    push_planet_lines(&mut out, positions, true);
    out.append("\n");

    out.append("\u{1F4CB} TASK TYPE GUIDANCE\n");
    out.append(SECTION_RULE);
    out.append("\n\n");
    push_task_guidance(&mut out, positions, TaskType::Critical, now);
    push_task_guidance(&mut out, positions, TaskType::CpuIntensive, now);
    push_task_guidance(&mut out, positions, TaskType::Network, now);
    push_task_guidance(&mut out, positions, TaskType::MemoryHeavy, now);
    push_task_guidance(&mut out, positions, TaskType::System, now);
    push_task_guidance(&mut out, positions, TaskType::Desktop, now);
    push_task_guidance(&mut out, positions, TaskType::Interactive, now);

    // The word of wisdom rotates with the day of the month.
    let day_idx = (utc_day0(now.secs) as usize) % 8;
    out.append(SECTION_RULE);
    out.append("\n");
    out.append("\u{1F4AB} COSMIC WISDOM OF THE DAY:\n\n   ");
    out.append(COSMIC_WISDOM[day_idx]);
    out.append("\n\n");
    out.append(CLOSING_RULE);
    out.append("\n");
    out
}

} // verus!
