//! A task's astrological priority and the retrograde motion of planets.
//!
//! The priority is `base × planetary influence × element boost`. The influence and the boost
//! are held in thousandths, so 1.3 is `1300`; the product is rounded toward zero, as a cast
//! to an integer does.
use vstd::prelude::*;
use crate::planets::{Element, Planet, PlanetaryPosition};
use crate::tasks::TaskType;

verus! {

/// The priority a task type starts from.
pub open spec fn spec_base_priority(t: TaskType) -> int {
    match t {
        TaskType::Critical => 1000,
        TaskType::System => 200,
        TaskType::Interactive => 150,
        TaskType::Desktop => 120,
        TaskType::CpuIntensive => 100,
        TaskType::Network => 100,
        TaskType::MemoryHeavy => 80,
    }
}

/// Critical 1000, System 200, Interactive 150, Desktop 120, CPU-Intensive and Network 100,
/// Memory-Heavy 80.
pub fn base_priority(t: TaskType) -> (p: u32)
    ensures
        p == spec_base_priority(t),
{
    match t {
        TaskType::Critical => 1000,
        TaskType::System => 200,
        TaskType::Interactive => 150,
        TaskType::Desktop => 120,
        TaskType::CpuIntensive => 100,
        TaskType::Network => 100,
        TaskType::MemoryHeavy => 80,
    }
}

/// A planet's influence, in thousandths: -1.0 when retrograde, otherwise by the element of
/// its sign.
pub open spec fn spec_influence_permille(p: PlanetaryPosition) -> int {
    if p.retrograde {
        -1000
    } else {
        match p.sign.spec_element() {
            Element::Fire => 1300,
            Element::Air => 1200,
            Element::Earth => 1100,
            Element::Water => 1000,
        }
    }
}

/// Retrograde -1.0; direct, Fire 1.3, Air 1.2, Earth 1.1, Water 1.0 (in thousandths).
pub fn influence_permille(p: &PlanetaryPosition) -> (i: i32)
    ensures
        i == spec_influence_permille(*p),
{
    if p.retrograde {
        -1000
    } else {
        match p.sign.element() {
            Element::Fire => 1300,
            Element::Air => 1200,
            Element::Earth => 1100,
            Element::Water => 1000,
        }
    }
}

/// The boost or debuff, in thousandths, that the element `e` gives a task type.
pub open spec fn spec_element_boost_permille(e: Element, t: TaskType) -> int {
    match (e, t) {
        (Element::Fire, TaskType::CpuIntensive) => 1500,
        (Element::Air, TaskType::Network) => 1500,
        (Element::Earth, TaskType::System) => 1400,
        (Element::Water, TaskType::MemoryHeavy) => 1300,
        (Element::Water, TaskType::CpuIntensive) => 600,
        (Element::Earth, TaskType::Network) => 600,
        (Element::Air, TaskType::System) => 700,
        (Element::Fire, TaskType::MemoryHeavy) => 700,
        _ => 1000,
    }
}

/// Boosts: Fire × CPU 1.5, Air × Network 1.5, Earth × System 1.4, Water × Memory 1.3.
/// Debuffs from opposing elements: Water × CPU 0.6, Earth × Network 0.6, Air × System 0.7,
/// Fire × Memory 0.7. Everything else 1.0. In thousandths.
pub fn element_boost_permille(e: Element, t: TaskType) -> (b: u32)
    ensures
        b == spec_element_boost_permille(e, t),
{
    match (e, t) {
        (Element::Fire, TaskType::CpuIntensive) => 1500,
        (Element::Air, TaskType::Network) => 1500,
        (Element::Earth, TaskType::System) => 1400,
        (Element::Water, TaskType::MemoryHeavy) => 1300,
        (Element::Water, TaskType::CpuIntensive) => 600,
        (Element::Earth, TaskType::Network) => 600,
        (Element::Air, TaskType::System) => 700,
        (Element::Fire, TaskType::MemoryHeavy) => 700,
        _ => 1000,
    }
}

/// `a / b` rounded toward zero (`b > 0`).
pub open spec fn div_toward_zero(a: int, b: int) -> int {
    if a >= 0 {
        a / b
    } else {
        -((-a) / b)
    }
}

/// `base × influence × boost`, rounded toward zero, where the influence is that of the
/// ruling planet `ruling` and the boost that of the element of its sign.
pub open spec fn spec_task_priority(t: TaskType, ruling: PlanetaryPosition) -> int {
    div_toward_zero(
        spec_base_priority(t) * spec_influence_permille(ruling) * spec_element_boost_permille(
            ruling.sign.spec_element(),
            t,
        ),
        1_000_000,
    )
}

/// The astrological priority of a task of type `t` whose ruling planet stands at `ruling`.
pub fn task_priority(t: TaskType, ruling: &PlanetaryPosition) -> (p: i32)
    ensures
        p == spec_task_priority(t, *ruling),
{
    let base = base_priority(t) as i64;
    let influence = influence_permille(ruling) as i64;
    let boost = element_boost_permille(ruling.sign.element(), t) as i64;
    assert(-1_000_000 <= base * influence <= 1_300_000) by (nonlinear_arith)
        requires
            80 <= base <= 1000,
            -1000 <= influence <= 1300,
    ;
    assert(-1_500_000_000 <= base * influence * boost <= 1_950_000_000) by (nonlinear_arith)
        requires
            80 <= base <= 1000,
            -1000 <= influence <= 1300,
            600 <= boost <= 1500,
    ;
    let product = base * influence * boost;
    let p = if product >= 0 {
        product / 1_000_000
    } else {
        -((-product) / 1_000_000)
    };
    p as i32
}

/// Whether a planet moves backward along the ecliptic, from its longitudes (millidegrees)
/// today and tomorrow: a change beyond 180° backward across 0° counts as retrograde, one
/// beyond 180° forward across 0° does not, and otherwise a negative change is retrograde.
pub open spec fn spec_is_retrograde(planet: Planet, today: int, tomorrow: int) -> bool {
    let delta = tomorrow - today;
    &&& planet != Planet::Sun
    &&& planet != Planet::Moon
    &&& (delta > 180_000 || (-180_000 <= delta < 0))
}

/// Whether `planet` is retrograde, given its longitudes today and tomorrow (millidegrees).
/// The Sun and the Moon never are.
pub fn is_retrograde(planet: Planet, today_milli: i64, tomorrow_milli: i64) -> (r: bool)
    ensures
        r == spec_is_retrograde(planet, today_milli as int, tomorrow_milli as int),
{
    if planet == Planet::Sun || planet == Planet::Moon {
        return false;
    }
    let delta = tomorrow_milli as i128 - today_milli as i128;
    if delta > 180_000 {
        true
    } else if delta < -180_000 {
        false
    } else {
        delta < 0
    }
}

/// A retrograde ruling planet makes the priority negative or zero, a direct one positive.
pub proof fn lemma_priority_sign(t: TaskType, ruling: PlanetaryPosition)
    ensures
        ruling.retrograde ==> spec_task_priority(t, ruling) < 0,
        !ruling.retrograde ==> spec_task_priority(t, ruling) > 0,
{
    let b = spec_base_priority(t);
    let i = spec_influence_permille(ruling);
    let e = spec_element_boost_permille(ruling.sign.spec_element(), t);
    if ruling.retrograde {
        assert(b * i * e <= -48_000_000) by (nonlinear_arith)
            requires
                80 <= b,
                i == -1000,
                600 <= e,
        ;
    } else {
        assert(b * i * e >= 48_000_000) by (nonlinear_arith)
            requires
                80 <= b,
                1000 <= i,
                600 <= e,
        ;
    }
}


/// Each element boosts the task type it governs and holds back the one it opposes:
/// Fire × CPU 1.5, Air × Network 1.5, Earth × System 1.4, Water × Memory 1.3 are the only
/// boosts; Water × CPU 0.6, Earth × Network 0.6, Air × System 0.7, Fire × Memory 0.7 the only
/// debuffs; every other pairing is neutral.
pub proof fn lemma_element_boosts(e: Element, t: TaskType)
    ensures
        (e == Element::Fire && t == TaskType::CpuIntensive) ==> spec_element_boost_permille(e, t) == 1500,
        (e == Element::Air && t == TaskType::Network) ==> spec_element_boost_permille(e, t) == 1500,
        (e == Element::Earth && t == TaskType::System) ==> spec_element_boost_permille(e, t) == 1400,
        (e == Element::Water && t == TaskType::MemoryHeavy) ==> spec_element_boost_permille(e, t) == 1300,
        (e == Element::Water && t == TaskType::CpuIntensive) ==> spec_element_boost_permille(e, t) == 600,
        (e == Element::Earth && t == TaskType::Network) ==> spec_element_boost_permille(e, t) == 600,
        (e == Element::Air && t == TaskType::System) ==> spec_element_boost_permille(e, t) == 700,
        (e == Element::Fire && t == TaskType::MemoryHeavy) ==> spec_element_boost_permille(e, t) == 700,
        spec_element_boost_permille(e, t) > 1000 <==> (
            (e == Element::Fire && t == TaskType::CpuIntensive)
            || (e == Element::Air && t == TaskType::Network)
            || (e == Element::Earth && t == TaskType::System)
            || (e == Element::Water && t == TaskType::MemoryHeavy)),
        spec_element_boost_permille(e, t) < 1000 <==> (
            (e == Element::Water && t == TaskType::CpuIntensive)
            || (e == Element::Earth && t == TaskType::Network)
            || (e == Element::Air && t == TaskType::System)
            || (e == Element::Fire && t == TaskType::MemoryHeavy)),
        t == TaskType::Interactive || t == TaskType::Desktop || t == TaskType::Critical
            ==> spec_element_boost_permille(e, t) == 1000,
{
}

/// The base priorities: Critical 1000 above System 200, Interactive 150, Desktop 120,
/// CPU-Intensive and Network 100, and Memory-Heavy 80 at the bottom.
pub proof fn lemma_base_priorities(t: TaskType)
    ensures
        t == TaskType::Critical ==> spec_base_priority(t) == 1000,
        t == TaskType::System ==> spec_base_priority(t) == 200,
        t == TaskType::Interactive ==> spec_base_priority(t) == 150,
        t == TaskType::Desktop ==> spec_base_priority(t) == 120,
        t == TaskType::CpuIntensive || t == TaskType::Network ==> spec_base_priority(t) == 100,
        t == TaskType::MemoryHeavy ==> spec_base_priority(t) == 80,
        80 <= spec_base_priority(t) <= 1000,
{
}

/// A direct planet's influence follows the element of its sign (Fire 1.3, Air 1.2, Earth 1.1,
/// Water 1.0); a retrograde one's is -1.0, whatever its sign.
pub proof fn lemma_influences(p: PlanetaryPosition)
    ensures
        p.retrograde ==> spec_influence_permille(p) == -1000,
        !p.retrograde && p.sign.spec_element() == Element::Fire ==> spec_influence_permille(p) == 1300,
        !p.retrograde && p.sign.spec_element() == Element::Air ==> spec_influence_permille(p) == 1200,
        !p.retrograde && p.sign.spec_element() == Element::Earth ==> spec_influence_permille(p) == 1100,
        !p.retrograde && p.sign.spec_element() == Element::Water ==> spec_influence_permille(p) == 1000,
{
}

/// The priority of a task under a direct ruling planet in its own element, in the element
/// that opposes it, and in the document's examples: a CPU task under Fire gets
/// 100 × 1.3 × 1.5 = 195 and under Water 100 × 1.0 × 0.6 = 60; a network task under Air
/// 100 × 1.2 × 1.5 = 180 and under Earth 100 × 1.1 × 0.6 = 66; a system task under Earth
/// 200 × 1.1 × 1.4 = 308 and under Air 200 × 1.2 × 0.7 = 168; a memory task under Water
/// 80 × 1.0 × 1.3 = 104 and under Fire 80 × 1.3 × 0.7 = 72.8, cut to 72. Retrograde, the sign
/// of the influence flips: a CPU task under Fire gets -150.
pub proof fn lemma_priority_by_element(ruling: PlanetaryPosition)
    ensures
        ({
            let e = ruling.sign.spec_element();
            &&& !ruling.retrograde ==> {
                &&& e == Element::Fire ==> spec_task_priority(TaskType::CpuIntensive, ruling) == 195
                &&& e == Element::Water ==> spec_task_priority(TaskType::CpuIntensive, ruling) == 60
                &&& e == Element::Air ==> spec_task_priority(TaskType::Network, ruling) == 180
                &&& e == Element::Earth ==> spec_task_priority(TaskType::Network, ruling) == 66
                &&& e == Element::Earth ==> spec_task_priority(TaskType::System, ruling) == 308
                &&& e == Element::Air ==> spec_task_priority(TaskType::System, ruling) == 168
                &&& e == Element::Water ==> spec_task_priority(TaskType::MemoryHeavy, ruling) == 104
                &&& e == Element::Fire ==> spec_task_priority(TaskType::MemoryHeavy, ruling) == 72
                &&& e == Element::Fire ==> spec_task_priority(TaskType::Critical, ruling) == 1300
                &&& e == Element::Water ==> spec_task_priority(TaskType::Interactive, ruling) == 150
                &&& e == Element::Earth ==> spec_task_priority(TaskType::Desktop, ruling) == 132
            }
            &&& ruling.retrograde && e == Element::Fire ==> spec_task_priority(TaskType::CpuIntensive, ruling) == -150
            &&& ruling.retrograde && e == Element::Water ==> spec_task_priority(TaskType::MemoryHeavy, ruling) == -104
        }),
{
}

/// Day-to-day motion decides retrograde for the five planets that can be retrograde: moving
/// back by up to 180° is retrograde, and so is a change of more than +180° (moving back across
/// 0°); moving forward by up to 180°, standing still, or a change below -180° (moving forward
/// across 0°) is not. The Sun and the Moon are never retrograde.
pub proof fn lemma_retrograde_motion(planet: Planet, today: int, tomorrow: int)
    ensures
        ({
            let delta = tomorrow - today;
            let can = planet == Planet::Mercury || planet == Planet::Venus || planet == Planet::Mars
                || planet == Planet::Jupiter || planet == Planet::Saturn;
            &&& can && -180_000 <= delta < 0 ==> spec_is_retrograde(planet, today, tomorrow)
            &&& can && delta > 180_000 ==> spec_is_retrograde(planet, today, tomorrow)
            &&& 0 <= delta <= 180_000 ==> !spec_is_retrograde(planet, today, tomorrow)
            &&& delta < -180_000 ==> !spec_is_retrograde(planet, today, tomorrow)
            &&& planet == Planet::Sun || planet == Planet::Moon ==> !spec_is_retrograde(planet, today, tomorrow)
        }),
{
}

} // verus!
