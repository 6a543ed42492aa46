//! The chart data model: zodiac signs, celestial bodies, chart angles,
//! positions, house cusps and the assembled chart record.

use vstd::prelude::*;
use crate::angle::FULL_CIRCLE;

verus! {

/// Width of one zodiac sign, in micro-degrees: thirty degrees.
pub const SIGN_SPAN: i64 = 30_000_000;

/// The twelve zodiac signs, in longitude order starting at zero.
#[derive(Debug, Clone, Copy, PartialEq, Eq, Structural)]
pub enum ZodiacSign {
    Aries,
    Taurus,
    Gemini,
    Cancer,
    Leo,
    Virgo,
    Libra,
    Scorpio,
    Sagittarius,
    Capricorn,
    Aquarius,
    Pisces,
}

/// The sign whose band index (longitude divided by thirty degrees, modulo
/// twelve) is `idx`.
pub open spec fn sign_at(idx: int) -> ZodiacSign {
    if idx == 0 {
        ZodiacSign::Aries
    } else if idx == 1 {
        ZodiacSign::Taurus
    } else if idx == 2 {
        ZodiacSign::Gemini
    } else if idx == 3 {
        ZodiacSign::Cancer
    } else if idx == 4 {
        ZodiacSign::Leo
    } else if idx == 5 {
        ZodiacSign::Virgo
    } else if idx == 6 {
        ZodiacSign::Libra
    } else if idx == 7 {
        ZodiacSign::Scorpio
    } else if idx == 8 {
        ZodiacSign::Sagittarius
    } else if idx == 9 {
        ZodiacSign::Capricorn
    } else if idx == 10 {
        ZodiacSign::Aquarius
    } else if idx == 11 {
        ZodiacSign::Pisces
    } else {
        ZodiacSign::Aries
    }
}

/// The band index of a longitude: which thirty-degree band it falls in,
/// wrapped modulo twelve.
pub open spec fn sign_index(lon: int) -> int {
    (lon / (SIGN_SPAN as int)) % 12
}

/// The sign a longitude falls in.
pub open spec fn sign_of(lon: int) -> ZodiacSign {
    sign_at(sign_index(lon))
}

impl ZodiacSign {
    /// The sign containing the given longitude (micro-degrees).
    pub fn from_longitude(lon: u32) -> (r: Self)
        ensures
            r == sign_of(lon as int),
    {
        let sign_num: u32 = (lon / (SIGN_SPAN as u32)) % 12;
        match sign_num {
            0 => ZodiacSign::Aries,
            1 => ZodiacSign::Taurus,
            2 => ZodiacSign::Gemini,
            3 => ZodiacSign::Cancer,
            4 => ZodiacSign::Leo,
            5 => ZodiacSign::Virgo,
            6 => ZodiacSign::Libra,
            7 => ZodiacSign::Scorpio,
            8 => ZodiacSign::Sagittarius,
            9 => ZodiacSign::Capricorn,
            10 => ZodiacSign::Aquarius,
            11 => ZodiacSign::Pisces,
            _ => ZodiacSign::Aries,
        }
    }

    /// The sign's English name.
    pub fn to_string(&self) -> (r: &'static str)
        ensures
            r@ == self.spec_name(),
    {
        match self {
            ZodiacSign::Aries => "Aries",
            ZodiacSign::Taurus => "Taurus",
            ZodiacSign::Gemini => "Gemini",
            ZodiacSign::Cancer => "Cancer",
            ZodiacSign::Leo => "Leo",
            ZodiacSign::Virgo => "Virgo",
            ZodiacSign::Libra => "Libra",
            ZodiacSign::Scorpio => "Scorpio",
            ZodiacSign::Sagittarius => "Sagittarius",
            ZodiacSign::Capricorn => "Capricorn",
            ZodiacSign::Aquarius => "Aquarius",
            ZodiacSign::Pisces => "Pisces",
        }
    }

    /// The characters of the sign's English name.
    pub open spec fn spec_name(self) -> Seq<char> {
        match self {
            ZodiacSign::Aries => "Aries"@,
            ZodiacSign::Taurus => "Taurus"@,
            ZodiacSign::Gemini => "Gemini"@,
            ZodiacSign::Cancer => "Cancer"@,
            ZodiacSign::Leo => "Leo"@,
            ZodiacSign::Virgo => "Virgo"@,
            ZodiacSign::Libra => "Libra"@,
            ZodiacSign::Scorpio => "Scorpio"@,
            ZodiacSign::Sagittarius => "Sagittarius"@,
            ZodiacSign::Capricorn => "Capricorn"@,
            ZodiacSign::Aquarius => "Aquarius"@,
            ZodiacSign::Pisces => "Pisces"@,
        }
    }
}

/// A longitude below a full circle falls in the band given by plain division,
/// and the band boundaries are exactly the multiples of thirty degrees: the
/// sign is constant inside each band and advances by one band at each multiple.
pub proof fn lemma_sign_bands(lon: int)
    requires
        0 <= lon < FULL_CIRCLE,
    ensures
        sign_index(lon) == lon / (SIGN_SPAN as int),
        0 <= sign_index(lon) < 12,
        sign_index(lon) == sign_index(SIGN_SPAN * (lon / (SIGN_SPAN as int))),
        lon % (SIGN_SPAN as int) == 0 && lon > 0 ==> sign_index(lon) == sign_index(lon - 1) + 1,
{
    vstd::arithmetic::div_mod::lemma_fundamental_div_mod(lon, SIGN_SPAN as int);
    vstd::arithmetic::div_mod::lemma_mod_division_less_than_divisor(lon, SIGN_SPAN as int);
    let q = lon / (SIGN_SPAN as int);
    assert(0 <= q < 12) by (nonlinear_arith)
        requires
            0 <= lon < 360_000_000,
            lon == 30_000_000 * q + lon % 30_000_000int,
            0 <= lon % 30_000_000int < 30_000_000,
    ;
    vstd::arithmetic::div_mod::lemma_small_mod(q as nat, 12nat);
    assert(SIGN_SPAN * q / (SIGN_SPAN as int) == q) by (nonlinear_arith)
        requires
            q >= 0,
    ;
    vstd::arithmetic::div_mod::lemma_small_mod((SIGN_SPAN * q / (SIGN_SPAN as int)) as nat, 12nat);
    if lon % (SIGN_SPAN as int) == 0 && lon > 0 {
        assert((lon - 1) / (SIGN_SPAN as int) == q - 1) by (nonlinear_arith)
            requires
                lon == 30_000_000 * q,
                q >= 1,
        ;
        vstd::arithmetic::div_mod::lemma_small_mod((q - 1) as nat, 12nat);
    }
}

/// Every point a chart carries a position for. Fortuna and the Vertex are
/// derived from other positions, never fetched from the oracle directly.
#[derive(Debug, Clone, Copy, PartialEq, Eq, Hash, Structural)]
pub enum CelestialBody {
    Sun,
    Moon,
    Mercury,
    Venus,
    Mars,
    Jupiter,
    Saturn,
    Uranus,
    Neptune,
    Pluto,
    TrueNode,
    Chiron,
    Fortuna,
    Vertex,
}

/// The fourteen chart bodies in calculation order: the twelve oracle-fetched
/// bodies first, then the two derived points.
pub open spec fn body_order() -> Seq<CelestialBody> {
    seq![
        CelestialBody::Sun,
        CelestialBody::Moon,
        CelestialBody::Mercury,
        CelestialBody::Venus,
        CelestialBody::Mars,
        CelestialBody::Jupiter,
        CelestialBody::Saturn,
        CelestialBody::Uranus,
        CelestialBody::Neptune,
        CelestialBody::Pluto,
        CelestialBody::TrueNode,
        CelestialBody::Chiron,
        CelestialBody::Fortuna,
        CelestialBody::Vertex,
    ]
}

impl CelestialBody {
    /// The body's display name.
    pub fn to_string(&self) -> (r: &'static str)
        ensures
            r@ == self.spec_name(),
    {
        match self {
            CelestialBody::Sun => "Sun",
            CelestialBody::Moon => "Moon",
            CelestialBody::Mercury => "Mercury",
            CelestialBody::Venus => "Venus",
            CelestialBody::Mars => "Mars",
            CelestialBody::Jupiter => "Jupiter",
            CelestialBody::Saturn => "Saturn",
            CelestialBody::Uranus => "Uranus",
            CelestialBody::Neptune => "Neptune",
            CelestialBody::Pluto => "Pluto",
            CelestialBody::TrueNode => "True Node",
            CelestialBody::Chiron => "Chiron",
            CelestialBody::Fortuna => "Fortuna",
            CelestialBody::Vertex => "Vertex",
        }
    }

    /// The characters of the body's display name.
    pub open spec fn spec_name(self) -> Seq<char> {
        match self {
            CelestialBody::Sun => "Sun"@,
            CelestialBody::Moon => "Moon"@,
            CelestialBody::Mercury => "Mercury"@,
            CelestialBody::Venus => "Venus"@,
            CelestialBody::Mars => "Mars"@,
            CelestialBody::Jupiter => "Jupiter"@,
            CelestialBody::Saturn => "Saturn"@,
            CelestialBody::Uranus => "Uranus"@,
            CelestialBody::Neptune => "Neptune"@,
            CelestialBody::Pluto => "Pluto"@,
            CelestialBody::TrueNode => "True Node"@,
            CelestialBody::Chiron => "Chiron"@,
            CelestialBody::Fortuna => "Fortuna"@,
            CelestialBody::Vertex => "Vertex"@,
        }
    }

    /// Default orb allowance of the body, in micro-degrees: the luminaries get
    /// ten degrees, every other body eight.
    pub fn orb(&self) -> (r: u32)
        ensures
            r == self.spec_orb(),
    {
        match self {
            CelestialBody::Sun | CelestialBody::Moon => 10_000_000,
            _ => 8_000_000,
        }
    }

    /// The body's default orb allowance, in micro-degrees.
    pub open spec fn spec_orb(self) -> int {
        match self {
            CelestialBody::Sun | CelestialBody::Moon => 10_000_000,
            _ => 8_000_000,
        }
    }

    /// All chart bodies, in calculation order.
    pub fn all() -> (r: Vec<Self>)
        ensures
            r@ == body_order(),
    {
        let bodies = vec![
            CelestialBody::Sun,
            CelestialBody::Moon,
            CelestialBody::Mercury,
            CelestialBody::Venus,
            CelestialBody::Mars,
            CelestialBody::Jupiter,
            CelestialBody::Saturn,
            CelestialBody::Uranus,
            CelestialBody::Neptune,
            CelestialBody::Pluto,
            CelestialBody::TrueNode,
            CelestialBody::Chiron,
            CelestialBody::Fortuna,
            CelestialBody::Vertex,
        ];
        proof {
            assert(bodies@ =~= body_order());
        }
        bodies
    }
}

/// The two chart angles.
#[derive(Debug, Clone, Copy, PartialEq, Eq, Hash, Structural)]
pub enum AnglePoint {
    Ascendant,
    Midheaven,
}

impl AnglePoint {
    /// The angle's display label.
    pub fn to_string(&self) -> (r: &'static str)
        ensures
            r@ == self.spec_name(),
    {
        match self {
            AnglePoint::Ascendant => "AC",
            AnglePoint::Midheaven => "MC",
        }
    }

    /// The characters of the angle's display label.
    pub open spec fn spec_name(self) -> Seq<char> {
        match self {
            AnglePoint::Ascendant => "AC"@,
            AnglePoint::Midheaven => "MC"@,
        }
    }
}

/// A body's place in a chart: its longitude (micro-degrees, in `[0, 360)`
/// degrees), whether it is retrograde, and the house it falls in.
#[derive(Debug, Clone, Copy, PartialEq, Eq, Structural)]
pub struct Position {
    pub body: CelestialBody,
    pub longitude: u32,
    pub retrograde: bool,
    pub house: u8,
}

impl Position {
    /// The sign the position falls in.
    pub fn sign(&self) -> (r: ZodiacSign)
        ensures
            r == sign_of(self.longitude as int),
    {
        ZodiacSign::from_longitude(self.longitude)
    }

    /// How far into its sign the position lies, in micro-degrees.
    pub fn degree_in_sign(&self) -> (r: u32)
        ensures
            r == self.longitude as int % (SIGN_SPAN as int),
    {
        self.longitude % (SIGN_SPAN as u32)
    }
}

/// A chart angle's place: its longitude in micro-degrees.
#[derive(Debug, Clone, Copy, PartialEq, Eq, Structural)]
pub struct AnglePosition {
    pub angle: AnglePoint,
    pub longitude: u32,
}

impl AnglePosition {
    /// The sign the angle falls in.
    pub fn sign(&self) -> (r: ZodiacSign)
        ensures
            r == sign_of(self.longitude as int),
    {
        ZodiacSign::from_longitude(self.longitude)
    }

    /// How far into its sign the angle lies, in micro-degrees.
    pub fn degree_in_sign(&self) -> (r: u32)
        ensures
            r == self.longitude as int % (SIGN_SPAN as int),
    {
        self.longitude % (SIGN_SPAN as u32)
    }
}

/// The index following `i` around the twelve cusps.
pub open spec fn next_cusp_index(i: int) -> int {
    if i == 11 {
        0
    } else {
        i + 1
    }
}

/// Whether a longitude falls in house `i + 1`: inside `[cusps[i], cusps[i+1])`
/// when that interval does not cross zero, and on either side of the
/// wraparound otherwise.
pub open spec fn house_matches(c: Seq<u32>, lon: int, i: int) -> bool {
    let cur = c[i] as int;
    let nxt = c[next_cusp_index(i)] as int;
    if nxt > cur {
        cur <= lon < nxt
    } else {
        lon >= cur || lon < nxt
    }
}

/// The first house from index `i` on that contains the longitude, defaulting
/// to house one when none does.
pub open spec fn first_house_from(c: Seq<u32>, lon: int, i: int) -> int
    decreases 12 - i,
{
    if i < 0 || i >= 12 {
        1
    } else if house_matches(c, lon, i) {
        i + 1
    } else {
        first_house_from(c, lon, i + 1)
    }
}

/// The house a longitude is assigned: the first matching cusp interval, house
/// one if none matches (a defensive fallback that well-formed cusps never
/// reach).
pub open spec fn house_of(c: Seq<u32>, lon: int) -> int {
    first_house_from(c, lon, 0)
}

/// Whether the cusp circle steps down (or repeats) from cusp `i` to its
/// successor; a well-formed circle does so exactly once, where it wraps
/// through zero degrees.
pub open spec fn descent_at(c: Seq<u32>, i: int) -> bool {
    c[next_cusp_index(i)] as int <= c[i] as int
}

/// Whether `k` is the only index where the cusp circle wraps.
pub open spec fn unique_descent(c: Seq<u32>, k: int) -> bool {
    &&& 0 <= k < 12
    &&& descent_at(c, k)
    &&& forall|i: int| 0 <= i < 12 && i != k ==> !descent_at(c, i)
}

/// Well-formed house cusps: twelve in-range longitudes, strictly increasing
/// around the circle with exactly one wraparound point.
pub open spec fn well_formed_cusps(c: Seq<u32>) -> bool {
    &&& c.len() == 12
    &&& forall|i: int| 0 <= i < 12 ==> c[i] < FULL_CIRCLE
    &&& exists|k: int| unique_descent(c, k)
}

/// The cusp index reached from the wraparound point `k` after `t + 1` steps;
/// walking `t = 0, 1, ...` visits the cusps in ascending longitude order.
pub open spec fn walk_index(k: int, t: int) -> int {
    if k + 1 + t < 12 {
        k + 1 + t
    } else {
        k + 1 + t - 12
    }
}

/// How many steps the walk from `k` takes to reach index `i`.
pub open spec fn walk_steps(k: int, i: int) -> int {
    if i > k {
        i - k - 1
    } else {
        i + 11 - k
    }
}

/// Walking from the unique wraparound point visits the cusps in strictly
/// ascending longitude order.
proof fn lemma_walk_chain(c: Seq<u32>, k: int, t: int)
    requires
        c.len() == 12,
        unique_descent(c, k),
        1 <= t < 12,
    ensures
        forall|s1: int, s2: int|
            0 <= s1 < s2 <= t ==> (c[walk_index(k, s1)] as int) < (c[walk_index(k, s2)] as int),
    decreases t,
{
    if t > 1 {
        lemma_walk_chain(c, k, t - 1);
    }
    let prev = walk_index(k, t - 1);
    assert(prev != k);
    assert(!descent_at(c, prev));
    assert(next_cusp_index(prev) == walk_index(k, t));
}

/// If a longitude sits between the walk's cusp `t` and the wraparound cusp,
/// some house interval along the walk contains it.
proof fn lemma_walk_finds_house(c: Seq<u32>, k: int, lon: int, t: int)
    requires
        c.len() == 12,
        unique_descent(c, k),
        0 <= t < 11,
        c[walk_index(k, t)] as int <= lon < c[k] as int,
    ensures
        exists|i: int| 0 <= i < 12 && house_matches(c, lon, i),
    decreases 11 - t,
{
    let i = walk_index(k, t);
    let nx = walk_index(k, t + 1);
    assert(i != k);
    assert(!descent_at(c, i));
    assert(next_cusp_index(i) == nx);
    if lon < c[nx] as int {
        assert(house_matches(c, lon, i));
    } else {
        if t + 1 == 11 {
            assert(nx == k);
            assert(false);
        } else {
            lemma_walk_finds_house(c, k, lon, t + 1);
        }
    }
}

/// For a non-wraparound walk position, house membership is exactly the
/// half-open interval between consecutive walk cusps.
proof fn lemma_walk_interval(c: Seq<u32>, k: int, lon: int, t: int)
    requires
        c.len() == 12,
        unique_descent(c, k),
        0 <= t < 11,
    ensures
        house_matches(c, lon, walk_index(k, t)) <==> ((c[walk_index(k, t)] as int) <= lon
            && lon < (c[walk_index(k, t + 1)] as int)),
{
    let i = walk_index(k, t);
    assert(i != k);
    assert(!descent_at(c, i));
    assert(next_cusp_index(i) == walk_index(k, t + 1));
}

/// House membership over well-formed cusps is a partition: every in-range
/// longitude matches exactly one of the twelve cusp intervals, so the
/// assignment's defensive fallback is never taken, and the house returned is
/// the one whose interval contains the longitude.
pub proof fn lemma_house_partition(c: Seq<u32>, lon: int)
    requires
        well_formed_cusps(c),
        0 <= lon < FULL_CIRCLE,
    ensures
        1 <= house_of(c, lon) <= 12,
        house_matches(c, lon, house_of(c, lon) - 1),
        forall|i: int| 0 <= i < 12 && house_matches(c, lon, i) ==> i == house_of(c, lon) - 1,
{
    let k = choose|k: int| unique_descent(c, k);
    lemma_walk_chain(c, k, 11);
    assert(walk_index(k, 11) == k);
    // Existence: either the wraparound house holds the longitude, or the walk
    // from the wraparound point finds the interval containing it.
    if lon >= c[k] as int || lon < c[walk_index(k, 0)] as int {
        assert(next_cusp_index(k) == walk_index(k, 0));
        assert(house_matches(c, lon, k));
    } else {
        lemma_walk_finds_house(c, k, lon, 0);
    }
    // Uniqueness: the walk intervals are pairwise disjoint, and the
    // wraparound house lies outside all of them.
    assert forall|i1: int, i2: int|
        0 <= i1 < 12 && 0 <= i2 < 12 && house_matches(c, lon, i1) && house_matches(
            c,
            lon,
            i2,
        ) implies i1 == i2 by {
        let t1 = walk_steps(k, i1);
        let t2 = walk_steps(k, i2);
        assert(walk_index(k, t1) == i1);
        assert(walk_index(k, t2) == i2);
        assert(t1 == 11 <==> i1 == k);
        assert(t2 == 11 <==> i2 == k);
        if t1 < 11 {
            lemma_walk_interval(c, k, lon, t1);
        }
        if t2 < 11 {
            lemma_walk_interval(c, k, lon, t2);
        }
        if t1 < 11 && t2 < 11 && t1 != t2 {
            if t1 < t2 {
                assert(c[walk_index(k, t1 + 1)] as int <= c[walk_index(k, t2)] as int);
                assert(false);
            } else {
                assert(c[walk_index(k, t2 + 1)] as int <= c[walk_index(k, t1)] as int);
                assert(false);
            }
        } else if t1 == 11 && t2 < 11 {
            assert(next_cusp_index(k) == walk_index(k, 0));
            assert(c[walk_index(k, 0)] as int <= c[walk_index(k, t2)] as int || t2 == 0);
            assert(c[walk_index(k, t2 + 1)] as int <= c[walk_index(k, 11)] as int);
            assert(false);
        } else if t2 == 11 && t1 < 11 {
            assert(next_cusp_index(k) == walk_index(k, 0));
            assert(c[walk_index(k, 0)] as int <= c[walk_index(k, t1)] as int || t1 == 0);
            assert(c[walk_index(k, t1 + 1)] as int <= c[walk_index(k, 11)] as int);
            assert(false);
        }
    }
    // The first match is therefore the only match.
    let w = choose|i: int| 0 <= i < 12 && house_matches(c, lon, i);
    lemma_first_house_bounds(c, lon, 0);
    lemma_first_match_is_match(c, lon, 0, w);
}

/// If some index at or after `i` matches, the first-match scan starting at `i`
/// lands on a matching index.
proof fn lemma_first_match_is_match(c: Seq<u32>, lon: int, i: int, w: int)
    requires
        0 <= i <= w < 12,
        house_matches(c, lon, w),
    ensures
        house_matches(c, lon, first_house_from(c, lon, i) - 1),
    decreases 12 - i,
{
    if !house_matches(c, lon, i) {
        lemma_first_match_is_match(c, lon, i + 1, w);
    }
}

/// The first-match scan always lands in `[1, 12]`.
proof fn lemma_first_house_bounds(c: Seq<u32>, lon: int, i: int)
    requires
        0 <= i <= 12,
    ensures
        1 <= first_house_from(c, lon, i) <= 12,
    decreases 12 - i,
{
    if i < 12 && !house_matches(c, lon, i) {
        lemma_first_house_bounds(c, lon, i + 1);
    }
}

/// The twelve house cusp longitudes, in micro-degrees; index `i` bounds house
/// `i + 1`.
#[derive(Debug, Clone, Copy, PartialEq, Eq)]
pub struct HouseCusps {
    pub cusps: [u32; 12],
}

impl HouseCusps {
    /// Wraps twelve cusp longitudes.
    pub fn new(cusps: [u32; 12]) -> (r: Self)
        ensures
            r.cusps@ == cusps@,
    {
        Self { cusps }
    }

    /// The house a longitude falls in: the first cusp interval containing it,
    /// house one if none does.
    pub fn get_house(&self, longitude: u32) -> (r: u8)
        ensures
            1 <= r <= 12,
            r == house_of(self.cusps@, longitude as int),
    {
        let lon = longitude;
        let ghost c = self.cusps@;
        for i in 0..12usize
            invariant
                forall|j: int| 0 <= j < i ==> !house_matches(c, lon as int, j),
                c == self.cusps@,
                lon == longitude,
        {
            let current = self.cusps[i];
            let next = if i == 11 {
                self.cusps[0]
            } else {
                self.cusps[i + 1]
            };
            if next > current {
                if lon >= current && lon < next {
                    proof {
                        lemma_scan_prefix(c, lon as int, i as int);
                    }
                    return (i + 1) as u8;
                }
            } else {
                if lon >= current || lon < next {
                    proof {
                        lemma_scan_prefix(c, lon as int, i as int);
                    }
                    return (i + 1) as u8;
                }
            }
        }
        proof {
            lemma_scan_all(c, lon as int, 0);
        }
        1
    }
}

/// If nothing before `i` matches and `i` does, the scan answers `i + 1`.
proof fn lemma_scan_prefix(c: Seq<u32>, lon: int, i: int)
    requires
        0 <= i < 12,
        forall|j: int| 0 <= j < i ==> !house_matches(c, lon, j),
        house_matches(c, lon, i),
    ensures
        house_of(c, lon) == i + 1,
{
    lemma_scan_step(c, lon, 0, i);
}

/// The scan from `s` agrees with stopping at the first match `i`.
proof fn lemma_scan_step(c: Seq<u32>, lon: int, s: int, i: int)
    requires
        0 <= s <= i < 12,
        forall|j: int| s <= j < i ==> !house_matches(c, lon, j),
        house_matches(c, lon, i),
    ensures
        first_house_from(c, lon, s) == i + 1,
    decreases 12 - s,
{
    if s < i {
        lemma_scan_step(c, lon, s + 1, i);
    }
}

/// With no match anywhere, the scan falls back to house one.
proof fn lemma_scan_all(c: Seq<u32>, lon: int, s: int)
    requires
        0 <= s <= 12,
        forall|j: int| 0 <= j < 12 ==> !house_matches(c, lon, j),
    ensures
        first_house_from(c, lon, s) == 1,
    decreases 12 - s,
{
    if s < 12 {
        lemma_scan_all(c, lon, s + 1);
    }
}

/// The first position for `body` at or after index `i`.
pub open spec fn find_position_from(s: Seq<Position>, body: CelestialBody, i: int) -> Option<
    Position,
>
    decreases s.len() - i,
{
    if i < 0 || i >= s.len() {
        None
    } else if s[i].body == body {
        Some(s[i])
    } else {
        find_position_from(s, body, i + 1)
    }
}

/// The first position recorded for `body`, if any.
pub open spec fn spec_find_position(s: Seq<Position>, body: CelestialBody) -> Option<Position> {
    find_position_from(s, body, 0)
}

/// The first angle position for `angle` at or after index `i`.
pub open spec fn find_angle_from(s: Seq<AnglePosition>, angle: AnglePoint, i: int) -> Option<
    AnglePosition,
>
    decreases s.len() - i,
{
    if i < 0 || i >= s.len() {
        None
    } else if s[i].angle == angle {
        Some(s[i])
    } else {
        find_angle_from(s, angle, i + 1)
    }
}

/// The first angle position recorded for `angle`, if any.
pub open spec fn spec_find_angle(s: Seq<AnglePosition>, angle: AnglePoint) -> Option<
    AnglePosition,
> {
    find_angle_from(s, angle, 0)
}

/// Every longitude the chart carries is wrapped into `[0, 360)` degrees;
/// charts the builder produces always satisfy this.
pub open spec fn chart_longitudes_in_range(chart: Chart) -> bool {
    &&& forall|i: int|
        0 <= i < chart.positions@.len() ==> (#[trigger] chart.positions@[i]).longitude
            < FULL_CIRCLE
    &&& forall|i: int|
        0 <= i < chart.angles@.len() ==> (#[trigger] chart.angles@[i]).longitude < FULL_CIRCLE
}

/// A complete chart: one position per computed body, the two chart angles,
/// the house cusps they were assigned from, and free-form metadata.
#[derive(Debug, Clone)]
pub struct Chart {
    pub positions: Vec<Position>,
    pub angles: Vec<AnglePosition>,
    pub houses: HouseCusps,
    pub name: Option<String>,
    pub gender: Option<String>,
}

impl Chart {
    /// An empty chart: no positions, no angles, all cusps at zero.
    pub fn new() -> (r: Self)
        ensures
            r.positions@ == Seq::<Position>::empty(),
            r.angles@ == Seq::<AnglePosition>::empty(),
            r.houses.cusps@ == Seq::new(12, |i: int| 0u32),
            r.name is None,
            r.gender is None,
    {
        let r = Self {
            positions: Vec::new(),
            angles: Vec::new(),
            houses: HouseCusps::new([0u32; 12]),
            name: None,
            gender: None,
        };
        proof {
            assert(r.houses.cusps@ =~= Seq::new(12, |i: int| 0u32));
        }
        r
    }

    /// The same chart with its metadata replaced.
    pub fn with_metadata(self, name: Option<String>, gender: Option<String>) -> (r: Self)
        ensures
            r.positions@ == self.positions@,
            r.angles@ == self.angles@,
            r.houses == self.houses,
            r.name == name,
            r.gender == gender,
    {
        Self { name, gender, ..self }
    }

    /// The chart's position for a body, if recorded.
    pub fn get_position(&self, body: CelestialBody) -> (r: Option<&Position>)
        ensures
            match r {
                Some(p) => spec_find_position(self.positions@, body) == Some(*p),
                None => spec_find_position(self.positions@, body) is None,
            },
    {
        let n = self.positions.len();
        for i in 0..n
            invariant
                n == self.positions@.len(),
                forall|j: int| 0 <= j < i ==> self.positions@[j].body != body,
        {
            if self.positions[i].body == body {
                proof {
                    lemma_find_position_skip(self.positions@, body, 0, i as int);
                }
                return Some(&self.positions[i]);
            }
        }
        proof {
            lemma_find_position_none(self.positions@, body, 0);
        }
        None
    }

    /// The chart's position for an angle point, if recorded.
    pub fn get_angle(&self, angle: AnglePoint) -> (r: Option<&AnglePosition>)
        ensures
            match r {
                Some(a) => spec_find_angle(self.angles@, angle) == Some(*a),
                None => spec_find_angle(self.angles@, angle) is None,
            },
    {
        let n = self.angles.len();
        for i in 0..n
            invariant
                n == self.angles@.len(),
                forall|j: int| 0 <= j < i ==> self.angles@[j].angle != angle,
        {
            if self.angles[i].angle == angle {
                proof {
                    lemma_find_angle_skip(self.angles@, angle, 0, i as int);
                }
                return Some(&self.angles[i]);
            }
        }
        proof {
            lemma_find_angle_none(self.angles@, angle, 0);
        }
        None
    }
}

/// Copies a list of angle positions.
pub(crate) fn copy_angles(src: &Vec<AnglePosition>) -> (r: Vec<AnglePosition>)
    ensures
        r@ == src@,
{
    let mut out: Vec<AnglePosition> = Vec::new();
    let n = src.len();
    for i in 0..n
        invariant
            n == src@.len(),
            out@ == src@.take(i as int),
    {
        out.push(src[i]);
        proof {
            assert(src@.take(i as int).push(src@[i as int]) =~= src@.take(i as int + 1));
        }
    }
    proof {
        assert(src@.take(n as int) =~= src@);
    }
    out
}

/// Appends a copy of every position in `src` to `dst`.
pub(crate) fn append_positions(dst: &mut Vec<Position>, src: &Vec<Position>)
    ensures
        final(dst)@ == old(dst)@ + src@,
{
    let n = src.len();
    proof {
        assert(dst@ =~= dst@ + src@.take(0));
    }
    for i in 0..n
        invariant
            n == src@.len(),
            dst@ == old(dst)@ + src@.take(i as int),
    {
        dst.push(src[i]);
        proof {
            assert((old(dst)@ + src@.take(i as int)).push(src@[i as int]) =~= old(dst)@
                + src@.take(i as int + 1));
        }
    }
    proof {
        assert(src@.take(n as int) =~= src@);
    }
}

/// A scan that finds no earlier match lands on the match at `w`.
proof fn lemma_find_position_skip(s: Seq<Position>, body: CelestialBody, i: int, w: int)
    requires
        0 <= i <= w < s.len(),
        forall|j: int| 0 <= j < w ==> s[j].body != body,
        s[w].body == body,
    ensures
        find_position_from(s, body, i) == Some(s[w]),
    decreases s.len() - i,
{
    if i < w {
        lemma_find_position_skip(s, body, i + 1, w);
    }
}

/// A scan over positions none of which is for `body` finds nothing.
proof fn lemma_find_position_none(s: Seq<Position>, body: CelestialBody, i: int)
    requires
        0 <= i,
        forall|j: int| 0 <= j < s.len() ==> s[j].body != body,
    ensures
        find_position_from(s, body, i) is None,
    decreases s.len() - i,
{
    if i < s.len() {
        lemma_find_position_none(s, body, i + 1);
    }
}

/// A scan that finds no earlier match lands on the match at `w`.
proof fn lemma_find_angle_skip(s: Seq<AnglePosition>, angle: AnglePoint, i: int, w: int)
    requires
        0 <= i <= w < s.len(),
        forall|j: int| 0 <= j < w ==> s[j].angle != angle,
        s[w].angle == angle,
    ensures
        find_angle_from(s, angle, i) == Some(s[w]),
    decreases s.len() - i,
{
    if i < w {
        lemma_find_angle_skip(s, angle, i + 1, w);
    }
}

/// A scan over angles none of which is `angle` finds nothing.
proof fn lemma_find_angle_none(s: Seq<AnglePosition>, angle: AnglePoint, i: int)
    requires
        0 <= i,
        forall|j: int| 0 <= j < s.len() ==> s[j].angle != angle,
    ensures
        find_angle_from(s, angle, i) is None,
    decreases s.len() - i,
{
    if i < s.len() {
        lemma_find_angle_none(s, angle, i + 1);
    }
}

} // verus!
