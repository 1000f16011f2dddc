//! Aspects: the angular relationships between pairs of planets, and what they do to scheduling.
//!
//! Angles and orbs are in millidegrees; strengths and modifiers in parts per million
//! (`1_000_000` is 1.0).
use vstd::prelude::*;
use crate::planets::{Planet, PlanetaryPosition, FULL_CIRCLE};
use crate::bignum::{div_limb, limbs_to_u64, limbs_value, mul_limb};
use crate::text::{join, join_strings};
use vstd::arithmetic::div_mod::{lemma_div_denominator, lemma_div_is_ordered};

verus! {

/// One, in parts per million.
pub const UNIT_PPM: i64 = 1_000_000;

/// The classical astrological aspects (angular relationships between planets).
#[derive(Debug, Clone, Copy, PartialEq, Eq, Hash, Structural)]
pub enum AspectType {
    /// 0°: planets merge energies.
    Conjunction,
    /// 180°: planets in tension.
    Opposition,
    /// 120°: harmonious flow.
    Trine,
    /// 90°: dynamic challenge.
    Square,
    /// 60°: opportunity.
    Sextile,
    /// 150°: adjustment required.
    Quincunx,
}

/// Whether an aspect is beneficial, challenging, or neutral for scheduling.
#[derive(Debug, Clone, Copy, PartialEq, Eq, Structural)]
pub enum AspectNature {
    Harmonious,
    Challenging,
    Neutral,
}

/// A detected angular relationship between two planets.
#[derive(Debug, Clone, Copy, PartialEq, Eq, Structural)]
pub struct Aspect {
    pub planet_a: Planet,
    pub planet_b: Planet,
    pub aspect_type: AspectType,
    pub nature: AspectNature,
    /// Millidegrees off the exact aspect angle.
    pub orb: u32,
    /// Parts per million: 1_000_000 when exact, approaching 0 at the edge of the orb.
    pub strength: u32,
}

impl AspectType {
    pub open spec fn spec_target_angle(self) -> int {
        match self {
            AspectType::Conjunction => 0,
            AspectType::Opposition => 180_000,
            AspectType::Trine => 120_000,
            AspectType::Square => 90_000,
            AspectType::Sextile => 60_000,
            AspectType::Quincunx => 150_000,
        }
    }

    /// The exact angle of the aspect, in millidegrees.
    pub fn target_angle(self) -> (a: u32)
        ensures
            a == self.spec_target_angle(),
    {
        match self {
            AspectType::Conjunction => 0,
            AspectType::Opposition => 180_000,
            AspectType::Trine => 120_000,
            AspectType::Square => 90_000,
            AspectType::Sextile => 60_000,
            AspectType::Quincunx => 150_000,
        }
    }

    pub open spec fn spec_max_orb(self) -> int {
        match self {
            AspectType::Conjunction | AspectType::Opposition | AspectType::Trine
            | AspectType::Square => 8_000,
            AspectType::Sextile => 6_000,
            AspectType::Quincunx => 3_000,
        }
    }

    /// How far from exact, in millidegrees, the aspect still counts.
    pub fn max_orb(self) -> (o: u32)
        ensures
            o == self.spec_max_orb(),
            o > 0,
    {
        match self {
            AspectType::Conjunction | AspectType::Opposition | AspectType::Trine
            | AspectType::Square => 8_000,
            AspectType::Sextile => 6_000,
            AspectType::Quincunx => 3_000,
        }
    }

    pub open spec fn spec_nature(self) -> AspectNature {
        match self {
            AspectType::Trine | AspectType::Sextile => AspectNature::Harmonious,
            AspectType::Square | AspectType::Opposition | AspectType::Quincunx => AspectNature::Challenging,
            AspectType::Conjunction => AspectNature::Neutral,
        }
    }

    /// Trines and sextiles are harmonious; squares, oppositions and quincunxes challenging;
    /// a conjunction depends on context and counts as neutral.
    pub fn nature(self) -> (n: AspectNature)
        ensures
            n == self.spec_nature(),
    {
        match self {
            AspectType::Trine | AspectType::Sextile => AspectNature::Harmonious,
            AspectType::Square | AspectType::Opposition | AspectType::Quincunx => AspectNature::Challenging,
            AspectType::Conjunction => AspectNature::Neutral,
        }
    }

    pub open spec fn spec_name(self) -> Seq<char> {
        match self {
            AspectType::Conjunction => "Conjunction"@,
            AspectType::Opposition => "Opposition"@,
            AspectType::Trine => "Trine"@,
            AspectType::Square => "Square"@,
            AspectType::Sextile => "Sextile"@,
            AspectType::Quincunx => "Quincunx"@,
        }
    }

    pub fn name(self) -> (s: &'static str)
        ensures
            s@ == self.spec_name(),
    {
        match self {
            AspectType::Conjunction => "Conjunction",
            AspectType::Opposition => "Opposition",
            AspectType::Trine => "Trine",
            AspectType::Square => "Square",
            AspectType::Sextile => "Sextile",
            AspectType::Quincunx => "Quincunx",
        }
    }

    pub open spec fn spec_symbol(self) -> Seq<char> {
        match self {
            AspectType::Conjunction => "☌"@,
            AspectType::Opposition => "☍"@,
            AspectType::Trine => "△"@,
            AspectType::Square => "□"@,
            AspectType::Sextile => "⚹"@,
            AspectType::Quincunx => "⚻"@,
        }
    }

    pub fn symbol(self) -> (s: &'static str)
        ensures
            s@ == self.spec_symbol(),
    {
        match self {
            AspectType::Conjunction => "☌",
            AspectType::Opposition => "☍",
            AspectType::Trine => "△",
            AspectType::Square => "□",
            AspectType::Sextile => "⚹",
            AspectType::Quincunx => "⚻",
        }
    }

    pub open spec fn spec_scheduling_modifier(self) -> int {
        match self {
            AspectType::Trine => 1_400_000,
            AspectType::Conjunction => 1_300_000,
            AspectType::Sextile => 1_200_000,
            AspectType::Quincunx => 800_000,
            AspectType::Square => 700_000,
            AspectType::Opposition => 600_000,
        }
    }

    /// Scheduling priority multiplier (parts per million) when this aspect involves a
    /// task's ruling planet.
    pub fn scheduling_modifier(self) -> (m: u32)
        ensures
            m == self.spec_scheduling_modifier(),
    {
        match self {
            AspectType::Trine => 1_400_000,
            AspectType::Conjunction => 1_300_000,
            AspectType::Sextile => 1_200_000,
            AspectType::Quincunx => 800_000,
            AspectType::Square => 700_000,
            AspectType::Opposition => 600_000,
        }
    }
}

// ───────────────────────────── detection ─────────────────────────────

/// The smaller angle between two ecliptic longitudes, in `[0, 180°]`.
pub open spec fn spec_angular_separation(lon_a: int, lon_b: int) -> int {
    let diff = (lon_b - lon_a) % (FULL_CIRCLE as int);
    if diff <= 180_000 { diff } else { FULL_CIRCLE - diff }
}

fn angular_separation(lon_a: i32, lon_b: i32) -> (sep: u32)
    ensures
        sep == spec_angular_separation(lon_a as int, lon_b as int),
        sep <= 180_000,
{
    let d = (lon_b as i64 - lon_a as i64) % FULL_CIRCLE;
    let diff = if d < 0 { d + FULL_CIRCLE } else { d };
    if diff <= 180_000 {
        diff as u32
    } else {
        (FULL_CIRCLE - diff) as u32
    }
}

/// How far a separation is from an aspect's exact angle.
pub open spec fn orb_of(sep: int, t: AspectType) -> int {
    let d = sep - t.spec_target_angle();
    if d < 0 { -d } else { d }
}

/// Whether a separation lies within an aspect's orb.
pub open spec fn within_orb(sep: int, t: AspectType) -> bool {
    orb_of(sep, t) <= t.spec_max_orb()
}

/// `t` if it matches `sep` more closely than the candidate so far; the candidate otherwise.
pub open spec fn closer(sep: int, cand: Option<AspectType>, t: AspectType) -> Option<AspectType> {
    if within_orb(sep, t) && (cand is None || orb_of(sep, t) < orb_of(sep, cand->0)) {
        Some(t)
    } else {
        cand
    }
}

/// The aspect whose orb holds `sep` most tightly, the first in the order conjunction,
/// opposition, trine, square, sextile, quincunx on a tie; `None` when no orb holds it.
pub open spec fn closest_aspect(sep: int) -> Option<AspectType> {
    closer(sep, closer(sep, closer(sep, closer(sep, closer(sep, closer(sep, None,
        AspectType::Conjunction), AspectType::Opposition), AspectType::Trine), AspectType::Square),
        AspectType::Sextile), AspectType::Quincunx)
}

/// The strength of an aspect with orb `orb`: the share of the orb left, rounded down.
pub open spec fn strength_of(orb: int, max_orb: int) -> int {
    (max_orb - orb) * 1_000_000 / max_orb
}

/// The aspect, if any, between the planets at `pa` and `pb`.
pub open spec fn aspect_between(pa: PlanetaryPosition, pb: PlanetaryPosition) -> Option<Aspect> {
    let sep = spec_angular_separation(pa.longitude as int, pb.longitude as int);
    match closest_aspect(sep) {
        Some(t) => Some(
            Aspect {
                planet_a: pa.planet,
                planet_b: pb.planet,
                aspect_type: t,
                nature: t.spec_nature(),
                orb: orb_of(sep, t) as u32,
                strength: strength_of(orb_of(sep, t), t.spec_max_orb()) as u32,
            },
        ),
        None => None,
    }
}

pub open spec fn option_seq(o: Option<Aspect>) -> Seq<Aspect> {
    match o {
        Some(a) => seq![a],
        None => Seq::empty(),
    }
}

/// The aspects of `p` with each of `others`, in order.
pub open spec fn aspects_with(p: PlanetaryPosition, others: Seq<PlanetaryPosition>) -> Seq<Aspect>
    decreases others.len(),
{
    if others.len() == 0 {
        Seq::empty()
    } else {
        aspects_with(p, others.drop_last()) + option_seq(aspect_between(p, others.last()))
    }
}

/// The aspects of each of the first `n` positions with every position after it.
pub open spec fn aspect_rows(ps: Seq<PlanetaryPosition>, n: int) -> Seq<Aspect>
    decreases n,
{
    if n <= 0 {
        Seq::empty()
    } else {
        aspect_rows(ps, n - 1) + aspects_with(ps[n - 1], ps.skip(n))
    }
}

/// All aspects between pairs `i < j` of positions, ordered by `i` and then `j`.
pub open spec fn spec_calculate_aspects(ps: Seq<PlanetaryPosition>) -> Seq<Aspect> {
    aspect_rows(ps, ps.len() as int)
}

/// The tightest matching aspect type for a separation, with its orb.
fn closest_match(sep: u32) -> (r: Option<(AspectType, u32)>)
    requires
        sep <= 180_000,
    ensures
        match r {
            Some((t, orb)) => closest_aspect(sep as int) == Some(t) && orb == orb_of(sep as int, t),
            None => closest_aspect(sep as int) is None,
        },
{
    let all_types = [
        AspectType::Conjunction,
        AspectType::Opposition,
        AspectType::Trine,
        AspectType::Square,
        AspectType::Sextile,
        AspectType::Quincunx,
    ];
    let mut best: Option<(AspectType, u32)> = None;
    let mut k: usize = 0;
    while k < 6
        invariant
            k <= 6,
            sep <= 180_000,
            all_types@ == seq![
                AspectType::Conjunction,
                AspectType::Opposition,
                AspectType::Trine,
                AspectType::Square,
                AspectType::Sextile,
                AspectType::Quincunx,
            ],
            match best {
                Some((t, orb)) => closest_prefix(sep as int, k as int) == Some(t) && orb == orb_of(sep as int, t),
                None => closest_prefix(sep as int, k as int) is None,
            },
        decreases 6 - k,
    {
        let asp = all_types[k];
        let target = asp.target_angle();
        let orb = if sep >= target { sep - target } else { target - sep };
        if orb <= asp.max_orb() {
            let better = match best {
                None => true,
                Some((_, best_orb)) => orb < best_orb,
            };
            if better {
                best = Some((asp, orb));
            }
        }
        k = k + 1;
    }
    assert(closest_prefix(sep as int, 6) == closest_aspect(sep as int)) by {
        reveal_with_fuel(closest_prefix, 7);
    }
    best
}

/// The closest match among the first `k` aspect types in the order of `closest_aspect`.
pub open spec fn closest_prefix(sep: int, k: int) -> Option<AspectType>
    decreases k,
{
    if k <= 0 {
        None
    } else {
        closer(sep, closest_prefix(sep, k - 1), aspect_order(k - 1))
    }
}

/// The aspect types in the order in which detection tries them.
pub open spec fn aspect_order(i: int) -> AspectType {
    if i == 0 {
        AspectType::Conjunction
    } else if i == 1 {
        AspectType::Opposition
    } else if i == 2 {
        AspectType::Trine
    } else if i == 3 {
        AspectType::Square
    } else if i == 4 {
        AspectType::Sextile
    } else {
        AspectType::Quincunx
    }
}

/// An aspect as detection produces it: within its orb, at most full strength, with its
/// type's nature.
pub open spec fn aspect_wf(a: Aspect) -> bool {
    &&& a.orb <= a.aspect_type.spec_max_orb()
    &&& a.strength <= 1_000_000
    &&& a.nature == a.aspect_type.spec_nature()
}

/// The aspect between two positions (`None` when no orb holds their separation).
fn aspect_of(pa: &PlanetaryPosition, pb: &PlanetaryPosition) -> (r: Option<Aspect>)
    ensures
        r == aspect_between(*pa, *pb),
        r matches Some(a) ==> aspect_wf(a),
{
    let sep = angular_separation(pa.longitude, pb.longitude);
    match closest_match(sep) {
        Some((asp_type, orb)) => {
            let max = asp_type.max_orb();
            let strength = ((max - orb) as u64 * 1_000_000 / max as u64) as u32;
            assert(strength_of(orb as int, max as int) <= 1_000_000) by (nonlinear_arith)
                requires
                    orb <= max,
                    max > 0,
            ;
            Some(
                Aspect {
                    planet_a: pa.planet,
                    planet_b: pb.planet,
                    aspect_type: asp_type,
                    nature: asp_type.nature(),
                    orb,
                    strength,
                },
            )
        },
        None => None,
    }
}

/// Detects the aspects between all pairs of planets in `positions`. When a separation
/// lies within several orbs, only the closest match is kept.
pub fn calculate_aspects(positions: &[PlanetaryPosition]) -> (r: Vec<Aspect>)
    ensures
        r@ == spec_calculate_aspects(positions@),
        forall|k: int| 0 <= k < r@.len() ==> aspect_wf(#[trigger] r@[k]),
{
    let ghost ps = positions@;
    let n = positions.len();
    let mut aspects: Vec<Aspect> = Vec::new();
    let mut i: usize = 0;
    while i < n
        invariant
            n == ps.len(),
            ps == positions@,
            i <= n,
            aspects@ == aspect_rows(ps, i as int),
            forall|k: int| 0 <= k < aspects@.len() ==> aspect_wf(#[trigger] aspects@[k]),
        decreases n - i,
    {
        let mut j: usize = i + 1;
        while j < n
            invariant
                n == ps.len(),
                ps == positions@,
                i < n,
                i + 1 <= j <= n,
                aspects@ == aspect_rows(ps, i as int) + aspects_with(ps[i as int], ps.subrange(i + 1, j as int)),
                forall|k: int| 0 <= k < aspects@.len() ==> aspect_wf(#[trigger] aspects@[k]),
            decreases n - j,
        {
            assert(ps.subrange(i + 1, j + 1).drop_last() == ps.subrange(i + 1, j as int));
            let found = aspect_of(&positions[i], &positions[j]);
            match found {
                Some(a) => aspects.push(a),
                None => {},
            }
            j = j + 1;
        }
        i = i + 1;
    }
    aspects
}

// ───────────────────────────── per-planet views ─────────────────────────────

/// Whether `a` involves `planet`, on either side.
pub open spec fn involves(a: Aspect, planet: Planet) -> bool {
    a.planet_a == planet || a.planet_b == planet
}

/// The aspects that involve `planet`, in order.
pub open spec fn involving(aspects: Seq<Aspect>, planet: Planet) -> Seq<Aspect>
    decreases aspects.len(),
{
    if aspects.len() == 0 {
        Seq::empty()
    } else if involves(aspects.last(), planet) {
        involving(aspects.drop_last(), planet).push(aspects.last())
    } else {
        involving(aspects.drop_last(), planet)
    }
}

/// All aspects that involve `planet` (as `planet_a` or `planet_b`), in order.
pub fn aspects_for_planet<'a>(aspects: &'a [Aspect], planet: Planet) -> (r: Vec<&'a Aspect>)
    ensures
        r@.len() == involving(aspects@, planet).len(),
        forall|k: int| 0 <= k < r@.len() ==> *#[trigger] r@[k] == involving(aspects@, planet)[k],
{
    let mut out: Vec<&'a Aspect> = Vec::new();
    let mut i: usize = 0;
    while i < aspects.len()
        invariant
            i <= aspects@.len(),
            out@.len() == involving(aspects@.take(i as int), planet).len(),
            forall|k: int| 0 <= k < out@.len() ==> *#[trigger] out@[k] == involving(aspects@.take(i as int), planet)[k],
        decreases aspects@.len() - i,
    {
        assert(aspects@.take(i + 1).drop_last() == aspects@.take(i as int));
        let a = &aspects[i];
        if a.planet_a == planet || a.planet_b == planet {
            out.push(a);
        }
        i = i + 1;
    }
    assert(aspects@.take(aspects@.len() as int) == aspects@);
    out
}

// ───────────────────────────── the combined modifier ─────────────────────────────

/// One, in units of 10⁻¹².
pub const UNIT_PICO: i128 = 1_000_000_000_000;

/// An aspect's scheduling modifier weighted by its strength, `1 + (raw - 1) * strength`, in
/// units of 10⁻¹². The raw modifier and the strength are both in parts per million, so the
/// weight is exact.
pub open spec fn weight_pico(a: Aspect) -> int {
    UNIT_PICO + (a.aspect_type.spec_scheduling_modifier() - UNIT_PPM) * a.strength
}

/// The product of the weights of `aspects`, in units of 10^(-12·n) for `n` aspects.
pub open spec fn weight_product(aspects: Seq<Aspect>) -> int
    decreases aspects.len(),
{
    if aspects.len() == 0 {
        1
    } else {
        weight_product(aspects.drop_last()) * weight_pico(aspects.last())
    }
}

/// 10^(12·n): the unit of a product of `n` weights.
pub open spec fn pico_scale(n: nat) -> int
    decreases n,
{
    if n == 0 {
        1
    } else {
        pico_scale((n - 1) as nat) * UNIT_PICO
    }
}

/// The product of the weighted modifiers of `aspects`, in parts per million, computed
/// exactly and rounded down once.
pub open spec fn modifier_product(aspects: Seq<Aspect>) -> int {
    weight_product(aspects) * UNIT_PPM / pico_scale(aspects.len())
}

/// A modifier kept within `[0.3, 2.0]`.
pub open spec fn clamp_modifier(m: int) -> int {
    if m < 300_000 {
        300_000
    } else if m > 2_000_000 {
        2_000_000
    } else {
        m
    }
}

pub open spec fn spec_combined_aspect_modifier(aspects: Seq<Aspect>, planet: Planet) -> int {
    clamp_modifier(modifier_product(involving(aspects, planet)))
}

proof fn lemma_pico_scale_positive(n: nat)
    ensures
        pico_scale(n) >= 1,
    decreases n,
{
    if n > 0 {
        lemma_pico_scale_positive((n - 1) as nat);
        let p = pico_scale((n - 1) as nat);
        assert(p * UNIT_PICO >= 1) by (nonlinear_arith)
            requires
                p >= 1,
                UNIT_PICO == 1_000_000_000_000,
        ;
    }
}

/// Combines the modifiers of all aspects of `planet` into one scheduling multiplier (parts
/// per million): harmonious aspects stack as boosts, challenging ones as penalties, each
/// weighted by its strength; the result is kept within [0.3, 2.0]. The product is carried
/// exactly, in as many limbs as it needs, so no number of aspects makes it saturate.
pub fn combined_aspect_modifier(aspects: &[Aspect], planet: Planet) -> (m: u32)
    ensures
        m == spec_combined_aspect_modifier(aspects@, planet),
        300_000 <= m <= 2_000_000,
        involving(aspects@, planet).len() == 0 ==> m == 1_000_000,
{
    let relevant = aspects_for_planet(aspects, planet);
    let ghost rel = involving(aspects@, planet);
    if relevant.len() == 0 {
        return 1_000_000;
    }
    // The product of the weights is (-1 if `negative`) times the number that `magnitude` holds.
    let mut magnitude: Vec<u64> = vec![1];
    let mut negative = false;
    proof {
        assert(magnitude@.drop_first() =~= Seq::<u64>::empty());
        assert(limbs_value(Seq::<u64>::empty()) == 0);
        assert(rel.take(0) =~= Seq::<Aspect>::empty());
    }
    let mut i: usize = 0;
    while i < relevant.len()
        invariant
            i <= relevant@.len(),
            relevant@.len() == rel.len(),
            forall|k: int| 0 <= k < relevant@.len() ==> *#[trigger] relevant@[k] == rel[k],
            weight_product(rel.take(i as int)) == if negative {
                -(limbs_value(magnitude@) as int)
            } else {
                limbs_value(magnitude@) as int
            },
        decreases relevant@.len() - i,
    {
        assert(rel.take(i + 1).drop_last() == rel.take(i as int));
        let asp = relevant[i];
        // Weight the modifier by the aspect's strength (exact = full effect).
        let raw = asp.aspect_type.scheduling_modifier() as i128;
        let st = asp.strength as i128;
        assert(-400_000 * 4_294_967_295 <= (raw - 1_000_000) * st <= 400_000 * 4_294_967_295)
            by (nonlinear_arith)
            requires
                600_000 <= raw <= 1_400_000,
                0 <= st <= 4_294_967_295,
        ;
        let weight = UNIT_PICO + (raw - 1_000_000) * st;
        let factor: u64 = if weight < 0 { (-weight) as u64 } else { weight as u64 };
        let ghost before = limbs_value(magnitude@) as int;
        magnitude = mul_limb(&magnitude, factor);
        proof {
            let ghost w = weight as int;
            assert(weight_pico(rel[i as int]) == w);
            let ghost prev = weight_product(rel.take(i as int));
            assert(weight_product(rel.take(i + 1)) == prev * w);
            let ghost after = limbs_value(magnitude@) as int;
            if negative {
                if weight < 0 {
                    assert(prev * w == after) by (nonlinear_arith)
                        requires prev == -before, w == -(factor as int), after == before * factor;
                } else {
                    assert(prev * w == -after) by (nonlinear_arith)
                        requires prev == -before, w == factor, after == before * factor;
                }
            } else {
                if weight < 0 {
                    assert(prev * w == -after) by (nonlinear_arith)
                        requires prev == before, w == -(factor as int), after == before * factor;
                } else {
                    assert(prev * w == after) by (nonlinear_arith)
                        requires prev == before, w == factor, after == before * factor;
                }
            }
        }
        negative = negative != (weight < 0);
        i = i + 1;
    }
    assert(rel.take(rel.len() as int) == rel);
    let ghost n = rel.len();
    proof {
        lemma_pico_scale_positive(n);
    }
    if negative {
        // A product at most zero gives a modifier at most zero.
        proof {
            let ghost p = weight_product(rel) * UNIT_PPM;
            assert(p <= 0);
            lemma_div_is_ordered(p, 0, pico_scale(n));
        }
        return 300_000;
    }
    let mut scaled = mul_limb(&magnitude, 1_000_000);
    let ghost total = limbs_value(scaled@) as int;
    let mut k: usize = 0;
    proof {
        assert(pico_scale(0) == 1);
    }
    while k < relevant.len()
        invariant
            k <= relevant@.len(),
            total >= 0,
            limbs_value(scaled@) as int == total / pico_scale(k as nat),
        decreases relevant@.len() - k,
    {
        let (q, _) = div_limb(&scaled, 1_000_000_000_000);
        proof {
            lemma_pico_scale_positive(k as nat);
            lemma_div_denominator(total, pico_scale(k as nat), UNIT_PICO as int);
        }
        scaled = q;
        k = k + 1;
    }
    match limbs_to_u64(&scaled) {
        None => 2_000_000,
        Some(v) => {
            if v < 300_000 {
                300_000
            } else if v > 2_000_000 {
                2_000_000
            } else {
                v as u32
            }
        },
    }
}

// ───────────────────────────── descriptions ─────────────────────────────

/// For each aspect type, in the order conjunction, opposition, trine, square, sextile,
/// quincunx: its emoji and the closing words of its description.
pub const ASPECT_FLAVORS: [[&'static str; 2]; 6] = [
    ["\u{2604}\u{fe0f}", " — energies merge in cosmic union!"],
    ["\u{26a0}\u{fe0f}", " — cosmic tension! Opposing forces clash!"],
    ["\u{2728}", " — cosmic harmony flows freely!"],
    ["\u{2694}\u{fe0f}", " — dynamic friction creates challenges!"],
    ["\u{1f31f}", " — opportunity knocks from the stars!"],
    ["\u{1f300}", " — adjustment needed, stars misaligned!"],
];

/// Position of an aspect type in the order conjunction, opposition, trine, square, sextile,
/// quincunx.
pub open spec fn aspect_index(t: AspectType) -> int {
    match t {
        AspectType::Conjunction => 0,
        AspectType::Opposition => 1,
        AspectType::Trine => 2,
        AspectType::Square => 3,
        AspectType::Sextile => 4,
        AspectType::Quincunx => 5,
    }
}

fn aspect_slot(t: AspectType) -> (i: usize)
    ensures
        i == aspect_index(t),
{
    match t {
        AspectType::Conjunction => 0,
        AspectType::Opposition => 1,
        AspectType::Trine => 2,
        AspectType::Square => 3,
        AspectType::Sextile => 4,
        AspectType::Quincunx => 5,
    }
}

/// The other planet of an aspect of `planet`.
pub open spec fn other_planet(a: Aspect, planet: Planet) -> Planet {
    if a.planet_a == planet { a.planet_b } else { a.planet_a }
}

/// "<emoji> <planet> <symbol> <other> <aspect> — <flavor>".
pub open spec fn describe_one(a: Aspect, planet: Planet) -> Seq<char> {
    let f = ASPECT_FLAVORS@[aspect_index(a.aspect_type)];
    f@[0]@ + " "@ + planet.spec_name() + " "@ + a.aspect_type.spec_symbol() + " "@
        + other_planet(a, planet).spec_name() + " "@ + a.aspect_type.spec_name() + f@[1]@
}

/// The description of each aspect, in order.
pub open spec fn describe_each(aspects: Seq<Aspect>, planet: Planet) -> Seq<Seq<char>> {
    Seq::new(aspects.len(), |k: int| describe_one(aspects[k], planet))
}

pub open spec fn spec_describe_aspects(aspects: Seq<Aspect>, planet: Planet) -> Seq<char> {
    let rel = involving(aspects, planet);
    if rel.len() == 0 {
        planet.spec_name() + " stands alone in the cosmos — unaspected, operating on pure instinct"@
    } else {
        join(describe_each(rel, planet), " | "@)
    }
}

fn describe_aspect(a: &Aspect, planet: Planet) -> (s: String)
    ensures
        s@ == describe_one(*a, planet),
{
    let other = if a.planet_a == planet { a.planet_b } else { a.planet_a };
    let f = ASPECT_FLAVORS[aspect_slot(a.aspect_type)];
    let mut s = String::new();
    s.append(f[0]);
    s.append(" ");
    s.append(planet.name());
    s.append(" ");
    s.append(a.aspect_type.symbol());
    s.append(" ");
    s.append(other.name());
    s.append(" ");
    s.append(a.aspect_type.name());
    s.append(f[1]);
    s
}

/// Flavor text describing how the aspects of `planet` affect its domain.
pub fn describe_aspects(aspects: &[Aspect], planet: Planet) -> (s: String)
    ensures
        s@ == spec_describe_aspects(aspects@, planet),
{
    let relevant = aspects_for_planet(aspects, planet);
    let ghost rel = involving(aspects@, planet);
    if relevant.len() == 0 {
        let mut s = String::new();
        s.append(planet.name());
        s.append(" stands alone in the cosmos — unaspected, operating on pure instinct");
        return s;
    }
    let mut parts: Vec<String> = Vec::new();
    let mut i: usize = 0;
    while i < relevant.len()
        invariant
            i <= relevant@.len(),
            relevant@.len() == rel.len(),
            forall|k: int| 0 <= k < relevant@.len() ==> *#[trigger] relevant@[k] == rel[k],
            parts@.len() == i,
            forall|k: int| 0 <= k < i ==> #[trigger] parts@[k]@ == describe_one(rel[k], planet),
        decreases relevant@.len() - i,
    {
        let part = describe_aspect(relevant[i], planet);
        parts.push(part);
        i = i + 1;
    }
    assert(parts@.map_values(|p: String| p@) =~= describe_each(rel, planet));
    join_strings(&parts, " | ")
}

// ───────────────────────────── laws ─────────────────────────────

/// The separation of two longitudes does not depend on their order, and lies in [0°, 180°].
pub proof fn lemma_separation_symmetric(lon_a: int, lon_b: int)
    ensures
        spec_angular_separation(lon_a, lon_b) == spec_angular_separation(lon_b, lon_a),
        0 <= spec_angular_separation(lon_a, lon_b) <= 180_000,
{
    let d1 = (lon_b - lon_a) % 360_000;
    let d2 = (lon_a - lon_b) % 360_000;
    vstd::arithmetic::div_mod::lemma_fundamental_div_mod(lon_b - lon_a, 360_000);
    vstd::arithmetic::div_mod::lemma_fundamental_div_mod(lon_a - lon_b, 360_000);
    assert(d1 == 0 ==> d2 == 0) by {
        vstd::arithmetic::div_mod::lemma_mod_multiples_vanish(
            -((lon_b - lon_a) / 360_000), 0, 360_000);
    }
}

/// The aspect between two planets is the same whichever is named first: the same type,
/// nature, orb and strength, with the planets exchanged.
pub proof fn lemma_aspect_symmetric(pa: PlanetaryPosition, pb: PlanetaryPosition)
    ensures
        aspect_between(pa, pb) is Some <==> aspect_between(pb, pa) is Some,
        aspect_between(pa, pb) matches Some(x) ==> aspect_between(pb, pa) == Some(
            Aspect { planet_a: x.planet_b, planet_b: x.planet_a, ..x },
        ),
{
    lemma_separation_symmetric(pa.longitude as int, pb.longitude as int);
}

/// The kept aspect is within its orb and no other aspect type's orb holds the separation
/// more tightly; when none is kept, no orb holds it.
pub proof fn lemma_closest_aspect(sep: int)
    ensures
        closest_aspect(sep) matches Some(t) ==> within_orb(sep, t) && forall|u: AspectType|
            within_orb(sep, u) ==> orb_of(sep, t) <= #[trigger] orb_of(sep, u),
        closest_aspect(sep) is None ==> forall|u: AspectType| !#[trigger] within_orb(sep, u),
{
    assert forall|u: AspectType| within_orb(sep, u) implies closest_aspect(sep) matches Some(t)
        && orb_of(sep, t) <= #[trigger] orb_of(sep, u) by {
        match u {
            AspectType::Conjunction => {},
            AspectType::Opposition => {},
            AspectType::Trine => {},
            AspectType::Square => {},
            AspectType::Sextile => {},
            AspectType::Quincunx => {},
        }
    }
}

/// Strength is full for an exact aspect, nothing at the edge of the orb, and falls as the
/// orb widens.
pub proof fn lemma_strength_falls_with_orb(orb1: int, orb2: int, max_orb: int)
    requires
        0 <= orb1 <= orb2 <= max_orb,
        max_orb > 0,
    ensures
        strength_of(0, max_orb) == 1_000_000,
        strength_of(max_orb, max_orb) == 0,
        strength_of(orb2, max_orb) <= strength_of(orb1, max_orb) <= 1_000_000,
{
    assert((max_orb - orb2) * 1_000_000 <= (max_orb - orb1) * 1_000_000 <= max_orb * 1_000_000)
        by (nonlinear_arith)
        requires
            0 <= orb1 <= orb2 <= max_orb,
    ;
    vstd::arithmetic::div_mod::lemma_div_is_ordered(
        (max_orb - orb2) * 1_000_000,
        (max_orb - orb1) * 1_000_000,
        max_orb,
    );
    vstd::arithmetic::div_mod::lemma_div_is_ordered((max_orb - orb1) * 1_000_000, max_orb * 1_000_000, max_orb);
    vstd::arithmetic::div_mod::lemma_div_by_multiple(1_000_000, max_orb);
    assert(max_orb * 1_000_000 == 1_000_000 * max_orb) by (nonlinear_arith);
}


/// Every aspect of `planet` among well-formed aspects is well-formed.
proof fn lemma_involving_wf(aspects: Seq<Aspect>, planet: Planet)
    requires
        forall|k: int| 0 <= k < aspects.len() ==> aspect_wf(#[trigger] aspects[k]),
    ensures
        forall|k: int| 0 <= k < involving(aspects, planet).len() ==> aspect_wf(#[trigger] involving(aspects, planet)[k]),
    decreases aspects.len(),
{
    if aspects.len() > 0 {
        let d = aspects.drop_last();
        assert forall|k: int| 0 <= k < d.len() implies aspect_wf(#[trigger] d[k]) by {
            assert(d[k] == aspects[k]);
        }
        lemma_involving_wf(d, planet);
        assert(aspect_wf(aspects[aspects.len() - 1]));
        let r = involving(aspects, planet);
        let rd = involving(d, planet);
        if involves(aspects.last(), planet) {
            assert forall|k: int| 0 <= k < r.len() implies aspect_wf(#[trigger] r[k]) by {
                if k < rd.len() {
                    assert(r[k] == rd[k]);
                } else {
                    assert(r[k] == aspects.last());
                }
            }
        } else {
            assert(r == rd);
        }
    }
}

/// Weights of at least one multiply to at least one.
proof fn lemma_product_at_least_unit(s: Seq<Aspect>)
    requires
        forall|k: int| 0 <= k < s.len() ==> weight_pico(#[trigger] s[k]) >= UNIT_PICO,
    ensures
        weight_product(s) >= pico_scale(s.len()),
    decreases s.len(),
{
    if s.len() > 0 {
        let d = s.drop_last();
        assert forall|k: int| 0 <= k < d.len() implies weight_pico(#[trigger] d[k]) >= UNIT_PICO by {
            assert(d[k] == s[k]);
        }
        lemma_product_at_least_unit(d);
        lemma_pico_scale_positive(d.len());
        let a = weight_product(d);
        let b = pico_scale(d.len());
        let w = weight_pico(s.last());
        assert(a * w >= b * UNIT_PICO) by (nonlinear_arith)
            requires
                a >= b >= 1,
                w >= UNIT_PICO,
                UNIT_PICO == 1_000_000_000_000,
        ;
    }
}

/// Weights between zero and one multiply to a product between zero and one.
proof fn lemma_product_at_most_unit(s: Seq<Aspect>)
    requires
        forall|k: int| 0 <= k < s.len() ==> 0 <= #[trigger] weight_pico(s[k]) <= UNIT_PICO,
    ensures
        0 <= weight_product(s) <= pico_scale(s.len()),
    decreases s.len(),
{
    if s.len() > 0 {
        let d = s.drop_last();
        assert forall|k: int| 0 <= k < d.len() implies 0 <= #[trigger] weight_pico(d[k]) <= UNIT_PICO by {
            assert(d[k] == s[k]);
        }
        lemma_product_at_most_unit(d);
        let a = weight_product(d);
        let b = pico_scale(d.len());
        let w = weight_pico(s.last());
        assert(0 <= a * w <= b * UNIT_PICO) by (nonlinear_arith)
            requires
                0 <= a <= b,
                0 <= w <= UNIT_PICO,
        ;
    }
}

/// Harmonious aspects stack as boosts and challenging ones as penalties: among aspects as
/// detection produces them, when every aspect of `planet` is harmonious the combined
/// modifier is at least 1.0, and when every one is challenging it is at most 1.0.
pub proof fn lemma_boosts_and_penalties(aspects: Seq<Aspect>, planet: Planet)
    requires
        forall|k: int| 0 <= k < aspects.len() ==> aspect_wf(#[trigger] aspects[k]),
    ensures
        (forall|k: int| 0 <= k < involving(aspects, planet).len()
            ==> (#[trigger] involving(aspects, planet)[k]).nature == AspectNature::Harmonious)
            ==> spec_combined_aspect_modifier(aspects, planet) >= 1_000_000,
        (forall|k: int| 0 <= k < involving(aspects, planet).len()
            ==> (#[trigger] involving(aspects, planet)[k]).nature == AspectNature::Challenging)
            ==> spec_combined_aspect_modifier(aspects, planet) <= 1_000_000,
{
    let rel = involving(aspects, planet);
    lemma_involving_wf(aspects, planet);
    let n = rel.len();
    lemma_pico_scale_positive(n);
    let ps = pico_scale(n);
    let x = weight_product(rel) * UNIT_PPM;
    vstd::arithmetic::div_mod::lemma_div_multiples_vanish(1_000_000, ps);
    assert(ps * 1_000_000 == 1_000_000 * ps) by (nonlinear_arith);
    if forall|k: int| 0 <= k < n ==> (#[trigger] rel[k]).nature == AspectNature::Harmonious {
        assert forall|k: int| 0 <= k < n implies weight_pico(#[trigger] rel[k]) >= UNIT_PICO by {
            assert(aspect_wf(rel[k]));
        }
        lemma_product_at_least_unit(rel);
        assert(x >= ps * 1_000_000) by (nonlinear_arith)
            requires
                x == weight_product(rel) * UNIT_PPM,
                weight_product(rel) >= ps,
                UNIT_PPM == 1_000_000,
        ;
        lemma_div_is_ordered(ps * 1_000_000, x, ps);
    }
    if forall|k: int| 0 <= k < n ==> (#[trigger] rel[k]).nature == AspectNature::Challenging {
        assert forall|k: int| 0 <= k < n implies 0 <= #[trigger] weight_pico(rel[k]) <= UNIT_PICO by {
            let a = rel[k];
            assert(aspect_wf(a));
            let raw = a.aspect_type.spec_scheduling_modifier();
            let st = a.strength as int;
            assert(600_000 <= raw <= 800_000);
            assert(0 <= UNIT_PICO + (raw - UNIT_PPM) * st <= UNIT_PICO) by (nonlinear_arith)
                requires
                    600_000 <= raw <= 800_000,
                    0 <= st <= 1_000_000,
                    UNIT_PICO == 1_000_000_000_000,
                    UNIT_PPM == 1_000_000,
            ;
        }
        lemma_product_at_most_unit(rel);
        assert(x <= ps * 1_000_000) by (nonlinear_arith)
            requires
                x == weight_product(rel) * UNIT_PPM,
                weight_product(rel) <= ps,
                UNIT_PPM == 1_000_000,
        ;
        lemma_div_is_ordered(x, ps * 1_000_000, ps);
    }
}


/// Which aspect two planets form, by their separation: a conjunction within 8° of 0°, a
/// sextile within 6° of 60°, a square within 8° of 90°, a trine within 8° of 120°, a quincunx
/// within 3° of 150° and an opposition within 8° of 180°; none elsewhere. The orb is the
/// distance from the exact angle and the strength the share of the orb left.
pub proof fn lemma_aspect_orbs(pa: PlanetaryPosition, pb: PlanetaryPosition)
    ensures
        ({
            let sep = spec_angular_separation(pa.longitude as int, pb.longitude as int);
            let r = aspect_between(pa, pb);
            let a = r->0;
            &&& 0 <= sep <= 180_000
            &&& 0 <= sep <= 8_000 ==> r is Some && a.aspect_type == AspectType::Conjunction
                && a.orb == sep && a.strength == (8_000 - sep) * 1_000_000 / 8_000
            &&& 54_000 <= sep <= 66_000 ==> r is Some && a.aspect_type == AspectType::Sextile
                && a.orb == (if sep < 60_000 { 60_000 - sep } else { sep - 60_000 })
                && a.strength == (6_000 - a.orb) * 1_000_000 / 6_000
            &&& 82_000 <= sep <= 98_000 ==> r is Some && a.aspect_type == AspectType::Square
                && a.orb == (if sep < 90_000 { 90_000 - sep } else { sep - 90_000 })
                && a.strength == (8_000 - a.orb) * 1_000_000 / 8_000
            &&& 112_000 <= sep <= 128_000 ==> r is Some && a.aspect_type == AspectType::Trine
                && a.orb == (if sep < 120_000 { 120_000 - sep } else { sep - 120_000 })
                && a.strength == (8_000 - a.orb) * 1_000_000 / 8_000
            &&& 147_000 <= sep <= 153_000 ==> r is Some && a.aspect_type == AspectType::Quincunx
                && a.orb == (if sep < 150_000 { 150_000 - sep } else { sep - 150_000 })
                && a.strength == (3_000 - a.orb) * 1_000_000 / 3_000
            &&& 172_000 <= sep <= 180_000 ==> r is Some && a.aspect_type == AspectType::Opposition
                && a.orb == 180_000 - sep && a.strength == (8_000 - a.orb) * 1_000_000 / 8_000
            &&& r is None <==> !(sep <= 8_000 || (54_000 <= sep <= 66_000) || (82_000 <= sep <= 98_000) || (
            112_000 <= sep <= 128_000) || (147_000 <= sep <= 153_000) || 172_000 <= sep)
            &&& r is Some ==> a.planet_a == pa.planet && a.planet_b == pb.planet
                && a.nature == a.aspect_type.spec_nature()
        }),
{
    let sep = spec_angular_separation(pa.longitude as int, pb.longitude as int);
    assert(0 <= sep <= 180_000);
}

/// The shorter way round the ecliptic between two longitudes in `[0°, 360°)`.
pub proof fn lemma_separation_is_shorter_arc(lon_a: int, lon_b: int)
    requires
        0 <= lon_a < 360_000,
        0 <= lon_b < 360_000,
    ensures
        ({
            let d = if lon_a <= lon_b { lon_b - lon_a } else { lon_a - lon_b };
            spec_angular_separation(lon_a, lon_b) == (if d <= 180_000 { d } else { 360_000 - d })
        }),
{
    if lon_b < lon_a {
        assert((lon_b - lon_a) % 360_000 == lon_b - lon_a + 360_000);
    } else {
        assert((lon_b - lon_a) % 360_000 == lon_b - lon_a);
    }
}

/// The natures of the aspects and their scheduling modifiers: trines (1.4) and sextiles (1.2)
/// are harmonious, conjunctions (1.3) neutral, and quincunxes (0.8), squares (0.7) and
/// oppositions (0.6) challenging; a harmonious or neutral aspect boosts, a challenging one
/// penalizes.
pub proof fn lemma_aspect_natures(t: AspectType)
    ensures
        t == AspectType::Trine ==> t.spec_nature() == AspectNature::Harmonious && t.spec_scheduling_modifier()
            == 1_400_000,
        t == AspectType::Sextile ==> t.spec_nature() == AspectNature::Harmonious
            && t.spec_scheduling_modifier() == 1_200_000,
        t == AspectType::Conjunction ==> t.spec_nature() == AspectNature::Neutral
            && t.spec_scheduling_modifier() == 1_300_000,
        t == AspectType::Quincunx ==> t.spec_nature() == AspectNature::Challenging
            && t.spec_scheduling_modifier() == 800_000,
        t == AspectType::Square ==> t.spec_nature() == AspectNature::Challenging
            && t.spec_scheduling_modifier() == 700_000,
        t == AspectType::Opposition ==> t.spec_nature() == AspectNature::Challenging
            && t.spec_scheduling_modifier() == 600_000,
        t.spec_nature() == AspectNature::Challenging <==> t.spec_scheduling_modifier() < 1_000_000,
{
}

} // verus!
