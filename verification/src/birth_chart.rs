//! Natal charts of processes, and a registry that caches them.
//!
//! Compatibility multipliers are in parts per million (`1_000_000` is 1.0).
use vstd::prelude::*;
use std::collections::HashMap;
use crate::planets::{find_position, position_of, Element, MoonPhase, Planet, PlanetaryPosition, ZodiacSign};
use crate::tasks::TaskType;
use crate::time::UtcTime;

verus! {

broadcast use vstd::std_specs::hash::group_hash_axioms;

/// The natal (birth) astrological chart of a running process.
#[derive(Debug, Clone)]
pub struct ProcessBirthChart {
    pub pid: i32,
    pub birth_time: UtcTime,
    pub natal_positions: Vec<PlanetaryPosition>,
    pub sun_sign: ZodiacSign,
    pub ascendant_element: Element,
    pub natal_moon_phase: MoonPhase,
}

/// The natal Moon's phase: that of the first Moon listed, New Moon when it is absent or
/// has no phase.
pub open spec fn natal_moon_phase_of(positions: Seq<PlanetaryPosition>) -> MoonPhase {
    match find_position(positions, Planet::Moon) {
        Some(p) => match p.moon_phase {
            Some(ph) => ph,
            None => MoonPhase::NewMoon,
        },
        None => MoonPhase::NewMoon,
    }
}

/// How well a natal element and a current element agree: 1.3 when equal, 1.1 for the
/// compatible pairs Fire/Air and Earth/Water, 0.8 for the opposing pairs Fire/Water and
/// Earth/Air.
pub open spec fn spec_element_compatibility(natal: Element, current: Element) -> int {
    if natal == current {
        1_300_000
    } else {
        match (natal, current) {
            (Element::Fire, Element::Air) | (Element::Air, Element::Fire) => 1_100_000,
            (Element::Earth, Element::Water) | (Element::Water, Element::Earth) => 1_100_000,
            (Element::Fire, Element::Water) | (Element::Water, Element::Fire) => 800_000,
            (Element::Earth, Element::Air) | (Element::Air, Element::Earth) => 800_000,
            _ => 1_000_000,
        }
    }
}

/// The compatibility multiplier (parts per million) of two elements.
pub fn element_compatibility(natal: Element, current: Element) -> (m: u32)
    ensures
        m == spec_element_compatibility(natal, current),
{
    if natal == current {
        return 1_300_000;
    }
    match (natal, current) {
        // Fire/Air are both active and upward; Earth/Water both receptive.
        (Element::Fire, Element::Air) | (Element::Air, Element::Fire) => 1_100_000,
        (Element::Earth, Element::Water) | (Element::Water, Element::Earth) => 1_100_000,
        // Opposing pairs.
        (Element::Fire, Element::Water) | (Element::Water, Element::Fire) => 800_000,
        (Element::Earth, Element::Air) | (Element::Air, Element::Earth) => 800_000,
        _ => 1_000_000,
    }
}

/// The element of the sign of the first position of `planet`, if listed.
pub open spec fn element_of_planet(positions: Seq<PlanetaryPosition>, planet: Planet) -> Option<Element> {
    match find_position(positions, planet) {
        Some(p) => Some(p.sign.spec_element()),
        None => None,
    }
}

/// The compatibility of a chart with the current sky for a task type: that of the elements
/// of its ruling planet's natal and current signs, 1.0 when either is unknown.
pub open spec fn spec_compatibility(natal: Seq<PlanetaryPosition>, current: Seq<PlanetaryPosition>, task: TaskType) -> int {
    let planet = task.spec_ruling_planet();
    match (element_of_planet(natal, planet), element_of_planet(current, planet)) {
        (Some(n), Some(c)) => spec_element_compatibility(n, c),
        _ => 1_000_000,
    }
}

/// The destiny a chart's ascendant element foretells.
pub open spec fn destiny(e: Element) -> Seq<char> {
    match e {
        Element::Fire => "blazing computational glory"@,
        Element::Earth => "steadfast, long-running endurance"@,
        Element::Air => "swift network communication"@,
        Element::Water => "deep memory exploration"@,
    }
}

impl ProcessBirthChart {
    /// The chart of process `pid` born at `birth_time` under `natal_positions`: `None` when
    /// the Sun is not among the positions.
    pub fn from_natal_positions(pid: i32, birth_time: UtcTime, natal_positions: Vec<PlanetaryPosition>) -> (r: Option<Self>)
        ensures
            ProcessBirthChart::built_from(r, pid, birth_time, natal_positions@),
    {
        let sun = position_of(natal_positions.as_slice(), Planet::Sun);
        let sun_sign = match sun {
            Some(p) => p.sign,
            None => return None,
        };
        let ascendant_element = sun_sign.element();
        let natal_moon_phase = match position_of(natal_positions.as_slice(), Planet::Moon) {
            Some(p) => match p.moon_phase {
                Some(ph) => ph,
                None => MoonPhase::NewMoon,
            },
            None => MoonPhase::NewMoon,
        };
        Some(
            ProcessBirthChart {
                pid,
                birth_time,
                natal_positions,
                sun_sign,
                ascendant_element,
                natal_moon_phase,
            },
        )
    }

    /// Whether `r` is the chart `from_natal_positions` builds for `pid`, `birth_time` and
    /// `natal_positions`.
    pub open spec fn built_from(r: Option<Self>, pid: i32, birth_time: UtcTime, natal_positions: Seq<PlanetaryPosition>) -> bool {
        match find_position(natal_positions, Planet::Sun) {
            None => r is None,
            Some(sun) => (r matches Some(c) && c.pid == pid && c.birth_time == birth_time
                && c.natal_positions@ == natal_positions && c.sun_sign == sun.sign
                && c.ascendant_element == sun.sign.spec_element()
                && c.natal_moon_phase == natal_moon_phase_of(natal_positions)),
        }
    }

    /// The chart of process `pid`: its birth instant from `read_birth_time(pid)` (`None` when
    /// the process or its start time cannot be found), the planets at that instant from
    /// `positions_at(birth_time, use_13_signs)`, and the chart built from them.
    pub fn from_pid<R, P>(pid: i32, use_13_signs: bool, read_birth_time: R, positions_at: P) -> (r: Option<Self>)
        where
            R: FnOnce(i32) -> Option<UtcTime>,
            P: FnOnce(UtcTime, bool) -> Vec<PlanetaryPosition>,
        requires
            read_birth_time.requires((pid,)),
            forall|t: UtcTime| positions_at.requires((t, use_13_signs)),
        ensures
            exists|birth: Option<UtcTime>|
                {
                    &&& read_birth_time.ensures((pid,), birth)
                    &&& match birth {
                        None => r is None,
                        Some(t) => exists|natal: Vec<PlanetaryPosition>|
                            positions_at.ensures((t, use_13_signs), natal)
                                && ProcessBirthChart::built_from(r, pid, t, natal@),
                    }
                },
    {
        let birth_time = match read_birth_time(pid) {
            Some(t) => t,
            None => return None,
        };
        let natal_positions = positions_at(birth_time, use_13_signs);
        ProcessBirthChart::from_natal_positions(pid, birth_time, natal_positions)
    }

    /// The natal sign of `planet`, if the chart lists it.
    pub fn natal_sign_for_planet(&self, planet: Planet) -> (r: Option<ZodiacSign>)
        ensures
            r == (match find_position(self.natal_positions@, planet) {
                Some(p) => Some(p.sign),
                None => None,
            }),
    {
        match position_of(self.natal_positions.as_slice(), planet) {
            Some(p) => Some(p.sign),
            None => None,
        }
    }

    /// Compares the natal chart with the current positions of the ruling planet of
    /// `task_type`: same element 1.3, compatible 1.1, opposing 0.8, otherwise 1.0
    /// (parts per million).
    pub fn compatibility_with_current(&self, current_positions: &[PlanetaryPosition], task_type: TaskType) -> (m: u32)
        ensures
            m == spec_compatibility(self.natal_positions@, current_positions@, task_type),
    {
        let ruling_planet = task_type.ruling_planet();
        let natal = position_of(self.natal_positions.as_slice(), ruling_planet);
        let current = position_of(current_positions, ruling_planet);
        match (natal, current) {
            (Some(n), Some(c)) => element_compatibility(n.sign.element(), c.sign.element()),
            _ => 1_000_000,
        }
    }

    pub open spec fn spec_describe(self) -> Seq<char> {
        "🌟 Born under "@ + self.sun_sign.spec_name() + " with Moon in "@
            + self.natal_moon_phase.spec_name() + "! A "@ + self.ascendant_element.spec_name()
            + " spirit destined for "@ + destiny(self.ascendant_element) + "!"@
    }

    /// "🌟 Born under <sign> with Moon in <phase>! A <element> spirit destined for <destiny>!"
    pub fn describe_natal_chart(&self) -> (s: String)
        ensures
            s@ == self.spec_describe(),
    {
        let destiny = match self.ascendant_element {
            Element::Fire => "blazing computational glory",
            Element::Earth => "steadfast, long-running endurance",
            Element::Air => "swift network communication",
            Element::Water => "deep memory exploration",
        };
        let mut s = String::new();
        s.append("🌟 Born under ");
        s.append(self.sun_sign.name());
        s.append(" with Moon in ");
        s.append(self.natal_moon_phase.name());
        s.append("! A ");
        s.append(self.ascendant_element.name());
        s.append(" spirit destined for ");
        s.append(destiny);
        s.append("!");
        s
    }
}

/// A cache of the birth charts of running processes.
pub struct ProcessRegistry {
    pub charts: HashMap<i32, ProcessBirthChart>,
    pub use_13_signs: bool,
}

impl ProcessRegistry {
    /// An empty registry for the 12- or 13-sign zodiac.
    pub fn new(use_13_signs: bool) -> (r: Self)
        ensures
            r.charts@ == Map::<i32, ProcessBirthChart>::empty(),
            r.use_13_signs == use_13_signs,
    {
        ProcessRegistry { charts: HashMap::new(), use_13_signs }
    }

    /// The chart of `pid`, made by `create(pid, use_13_signs)` and cached when not yet known;
    /// `None` when it is not known and `create` makes none.
    pub fn get_or_create<F>(&mut self, pid: i32, create: F) -> (r: Option<&ProcessBirthChart>)
        where
            F: FnOnce(i32, bool) -> Option<ProcessBirthChart>,
        requires
            create.requires((pid, old(self).use_13_signs)),
        ensures
            final(self).use_13_signs == old(self).use_13_signs,
            old(self).charts@.contains_key(pid) ==> (final(self).charts@ == old(self).charts@
                && (r matches Some(c) && *c == old(self).charts@[pid])),
            !old(self).charts@.contains_key(pid) ==> exists|made: Option<ProcessBirthChart>|
                {
                    &&& create.ensures((pid, old(self).use_13_signs), made)
                    &&& match made {
                        None => r is None && final(self).charts@ == old(self).charts@,
                        Some(chart) => (r matches Some(c) && *c == chart) && final(self).charts@
                            == old(self).charts@.insert(pid, chart),
                    }
                },
    {
        if !self.charts.contains_key(&pid) {
            let made = create(pid, self.use_13_signs);
            match made {
                Some(chart) => {
                    self.charts.insert(pid, chart);
                },
                None => {
                    return None;
                },
            }
        }
        self.charts.get(&pid)
    }

    /// Drops the charts of the processes that `is_alive` reports dead; keeps the others.
    pub fn evict_dead_processes<F>(&mut self, is_alive: F)
        where
            F: Fn(i32) -> bool,
        requires
            forall|pid: i32| is_alive.requires((pid,)),
        ensures
            final(self).use_13_signs == old(self).use_13_signs,
            forall|pid: i32| #[trigger] final(self).charts@.contains_key(pid) ==> {
                &&& old(self).charts@.contains_key(pid)
                &&& final(self).charts@[pid] == old(self).charts@[pid]
                &&& is_alive.ensures((pid,), true)
            },
            forall|pid: i32|
                old(self).charts@.contains_key(pid) && !#[trigger] final(self).charts@.contains_key(pid)
                    ==> is_alive.ensures((pid,), false),
    {
        let ghost before = self.charts@;
        let ghost zodiac = self.use_13_signs;
        let mut pids: Vec<i32> = Vec::new();
        for k in it: self.charts.keys()
            invariant
                pids@ == it.seq().take(it.index@).unref(),
                it.seq() == vstd::std_specs::iter::IteratorSpec::remaining(&vstd::std_specs::hash::spec_keys_iter(&self.charts)),
                self.charts@ == before,
        {
            pids.push(*k);
        }
        let ghost listed = pids@;
        assert(listed.to_set() == before.dom()) by {
            assert(listed == vstd::std_specs::iter::IteratorSpec::remaining(&vstd::std_specs::hash::spec_keys_iter(&self.charts)).unref());
        }
        let mut i: usize = 0;
        while i < pids.len()
            invariant
                i <= pids@.len(),
                pids@ == listed,
                listed.to_set() == before.dom(),
                forall|pid: i32| #[trigger] self.charts@.contains_key(pid) ==> {
                    &&& before.contains_key(pid)
                    &&& self.charts@[pid] == before[pid]
                    &&& listed.take(i as int).contains(pid) ==> is_alive.ensures((pid,), true)
                },
                forall|pid: i32|
                    before.contains_key(pid) && !#[trigger] self.charts@.contains_key(pid)
                        ==> is_alive.ensures((pid,), false),
                forall|pid: i32| before.contains_key(pid) && !listed.take(i as int).contains(pid)
                    ==> #[trigger] self.charts@.contains_key(pid),
                forall|pid: i32| is_alive.requires((pid,)),
                self.use_13_signs == zodiac,
            decreases pids@.len() - i,
        {
            let pid = pids[i];
            let alive = is_alive(pid);
            if !alive {
                self.charts.remove(&pid);
            }
            assert forall|p: i32| before.contains_key(p) && !listed.take(i + 1).contains(p)
                implies #[trigger] self.charts@.contains_key(p) by {
                assert(listed.take(i + 1)[i as int] == pid);
            }
            i = i + 1;
        }
        assert(listed.take(listed.len() as int) == listed);
    }
}


/// Fire and Water oppose each other, as do Earth and Air.
pub open spec fn opposed(a: Element, b: Element) -> bool {
    ||| a == Element::Fire && b == Element::Water
    ||| a == Element::Water && b == Element::Fire
    ||| a == Element::Earth && b == Element::Air
    ||| a == Element::Air && b == Element::Earth
}

/// Element compatibility does not depend on which element is natal and which current.
pub proof fn lemma_element_compatibility_symmetric(a: Element, b: Element)
    ensures
        spec_element_compatibility(a, b) == spec_element_compatibility(b, a),
{
}

/// Compatibility lies in [0.8, 1.3], and reaches 1.3 exactly when the elements agree.
pub proof fn lemma_element_compatibility_range(a: Element, b: Element)
    ensures
        800_000 <= spec_element_compatibility(a, b) <= 1_300_000,
        spec_element_compatibility(a, b) == 1_300_000 <==> a == b,
{
}

/// A chart whose ruling planet stands in the same element now as at birth gets a boost;
/// one whose element is now opposed (Fire/Water, Earth/Air) gets a penalty.
pub proof fn lemma_compatibility_direction(
    natal: Seq<PlanetaryPosition>,
    current: Seq<PlanetaryPosition>,
    task: TaskType,
)
    requires
        element_of_planet(natal, task.spec_ruling_planet()) is Some,
        element_of_planet(current, task.spec_ruling_planet()) is Some,
    ensures
        ({
            let n = element_of_planet(natal, task.spec_ruling_planet())->0;
            let c = element_of_planet(current, task.spec_ruling_planet())->0;
            &&& n == c ==> spec_compatibility(natal, current, task) > 1_000_000
            &&& opposed(n, c) ==> spec_compatibility(natal, current, task) < 1_000_000
        }),
{
}


/// The four outcomes of comparing two elements: 1.3 when they agree; 1.1 for the kindred
/// pairs Fire/Air (both active) and Earth/Water (both receptive); 0.8 only for the opposed
/// pairs Fire/Water and Earth/Air; and exactly 1.0 for the rest, Fire/Earth and Air/Water.
pub proof fn lemma_element_compatibility_cases(natal: Element, current: Element)
    ensures
        ({
            let kindred = (natal == Element::Fire && current == Element::Air) || (natal == Element::Air
                && current == Element::Fire) || (natal == Element::Earth && current == Element::Water) || (
            natal == Element::Water && current == Element::Earth);
            let clashing = (natal == Element::Fire && current == Element::Water) || (natal == Element::Water
                && current == Element::Fire) || (natal == Element::Earth && current == Element::Air) || (
            natal == Element::Air && current == Element::Earth);
            &&& natal == current ==> spec_element_compatibility(natal, current) == 1_300_000
            &&& kindred ==> spec_element_compatibility(natal, current) == 1_100_000
            &&& clashing ==> spec_element_compatibility(natal, current) == 800_000
            &&& spec_element_compatibility(natal, current) == 800_000 ==> clashing
            &&& spec_element_compatibility(natal, current) == 1_100_000 ==> kindred
            &&& (natal != current && !kindred && !clashing) ==> spec_element_compatibility(natal, current)
                == 1_000_000
        }),
{
}

/// A chart compares the ruling planet's natal and current elements: with Mars (a CPU task's
/// ruler) born in an Air sign and now in a Water sign, neither kindred nor opposed, the
/// compatibility is exactly 1.0; unknown positions also give 1.0.
pub proof fn lemma_compatibility_neutral(
    natal: Seq<PlanetaryPosition>,
    current: Seq<PlanetaryPosition>,
    task: TaskType,
)
    ensures
        ({
            let n = element_of_planet(natal, task.spec_ruling_planet());
            let c = element_of_planet(current, task.spec_ruling_planet());
            &&& (n is None || c is None) ==> spec_compatibility(natal, current, task) == 1_000_000
            &&& (n == Some(Element::Air) && c == Some(Element::Water)) ==> spec_compatibility(natal, current, task)
                == 1_000_000
            &&& (n == Some(Element::Water) && c == Some(Element::Air)) ==> spec_compatibility(natal, current, task)
                == 1_000_000
            &&& (n == Some(Element::Fire) && c == Some(Element::Earth)) ==> spec_compatibility(natal, current, task)
                == 1_000_000
            &&& (n == Some(Element::Earth) && c == Some(Element::Fire)) ==> spec_compatibility(natal, current, task)
                == 1_000_000
        }),
{
}

} // verus!
