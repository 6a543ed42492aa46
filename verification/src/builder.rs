//! The chart builder: turns raw ephemeris oracle readouts into complete
//! charts, for natal, transit and synastry calculations.
//!
//! The oracle itself is outside this crate: callers sample it (a longitude
//! and a speed per body, twelve cusps plus ascendant, midheaven and vertex
//! for houses) and pass the raw micro-degree readouts in. Everything after
//! the sampling -- calibration, wrapping, house assignment, day/night
//! branching, the derived points and the error policy -- happens here.

use vstd::prelude::*;
use vstd::string::StringExecFns;
use crate::angle::{
    norm_spec, normalize_longitude, wrap_spec, wrap_longitude, FULL_CIRCLE, MAX_RAW_MAGNITUDE,
    MICRO_PER_DEGREE,
};
use crate::chart::{
    body_order, copy_angles, house_of, AnglePoint, AnglePosition, CelestialBody, Chart,
    HouseCusps, Position,
};

verus! {

/// Northern latitude limit, in micro-degrees.
pub const LATITUDE_LIMIT: i64 = 90_000_000;

/// Westernmost accepted longitude, in micro-degrees.
pub const LONGITUDE_LOW: i64 = -180_000_000;

/// Longitudes must stay below a full eastward circle, in micro-degrees.
pub const LONGITUDE_HIGH: i64 = 360_000_000;

/// A civil UTC instant, second precision, Gregorian calendar.
#[derive(Debug, Clone, Copy, PartialEq, Eq, Structural)]
pub struct UtcDateTime {
    pub year: i32,
    pub month: u32,
    pub day: u32,
    pub hour: u32,
    pub minute: u32,
    pub second: u32,
}

/// The input of a chart calculation: when and where the subject was born,
/// with optional free-form metadata. Latitude is north-positive and longitude
/// is in the caller's convention, both in micro-degrees.
#[derive(Debug, Clone)]
pub struct ChartInput {
    pub datetime: UtcDateTime,
    pub latitude: i64,
    pub longitude: i64,
    pub name: Option<String>,
    pub gender: Option<String>,
}

impl ChartInput {
    /// A chart input without metadata.
    pub fn new(datetime: UtcDateTime, latitude: i64, longitude: i64) -> (r: Self)
        ensures
            r.datetime == datetime,
            r.latitude == latitude,
            r.longitude == longitude,
            r.name is None,
            r.gender is None,
    {
        Self { datetime, latitude, longitude, name: None, gender: None }
    }

    /// The same input with a name.
    pub fn with_name(self, name: String) -> (r: Self)
        ensures
            r.name == Some(name),
            r.gender == self.gender,
            r.datetime == self.datetime,
            r.latitude == self.latitude,
            r.longitude == self.longitude,
    {
        Self { name: Some(name), ..self }
    }

    /// The same input with a gender label.
    pub fn with_gender(self, gender: String) -> (r: Self)
        ensures
            r.gender == Some(gender),
            r.name == self.name,
            r.datetime == self.datetime,
            r.latitude == self.latitude,
            r.longitude == self.longitude,
    {
        Self { gender: Some(gender), ..self }
    }
}

/// Which kind of chart a calculation produces.
#[derive(Debug, Clone, Copy, PartialEq, Eq, Structural)]
pub enum ChartMode {
    Natal,
    Synastry,
    Transit,
}

/// Why a chart could not be built. Input errors are found before any oracle
/// readout is consulted; oracle failures abort the whole build, naming the
/// failing body -- no partial chart is ever returned.
#[derive(Debug, Clone, Copy, PartialEq, Eq, Structural)]
pub enum ChartError {
    InvalidLatitude,
    InvalidLongitude,
    HouseCalculation,
    BodyCalculation(CelestialBody),
}

impl ChartError {
    /// The characters of the error's description.
    pub open spec fn spec_message(self) -> Seq<char> {
        match self {
            ChartError::InvalidLatitude => "Latitude out of range"@,
            ChartError::InvalidLongitude => "Longitude out of range"@,
            ChartError::HouseCalculation => "Failed to calculate houses"@,
            ChartError::BodyCalculation(b) => "Failed to calculate "@ + b.spec_name(),
        }
    }

    /// A human-readable description of the error.
    pub fn message(&self) -> (r: String)
        ensures
            r@ == self.spec_message(),
    {
        match self {
            ChartError::InvalidLatitude => String::from_str("Latitude out of range"),
            ChartError::InvalidLongitude => String::from_str("Longitude out of range"),
            ChartError::HouseCalculation => String::from_str("Failed to calculate houses"),
            ChartError::BodyCalculation(b) => String::from_str("Failed to calculate ").concat(
                b.to_string(),
            ),
        }
    }
}

/// One raw body readout from the oracle: the ecliptic longitude before
/// calibration, in micro-degrees, and the daily speed whose sign decides
/// retrograde motion.
#[derive(Debug, Clone, Copy, PartialEq, Eq, Structural)]
pub struct BodySample {
    pub longitude: i64,
    pub speed: i64,
}

/// The oracle's house readout: twelve raw cusps, plus the ascendant,
/// midheaven and vertex, all in micro-degrees before calibration.
#[derive(Debug, Clone, Copy, PartialEq, Eq)]
pub struct HouseSample {
    pub cusps: [i64; 12],
    pub ascendant: i64,
    pub midheaven: i64,
    pub vertex: i64,
}

/// One full oracle sampling for a chart: the house readout and one entry per
/// fetchable body, in calculation order. `None` records that the oracle
/// reported a failure for that readout.
#[derive(Debug, Clone)]
pub struct EphemerisSample {
    pub houses: Option<HouseSample>,
    pub bodies: Vec<Option<BodySample>>,
}

/// A raw oracle longitude: the oracle reports ecliptic longitudes in
/// `[0, 360)` degrees.
pub open spec fn valid_raw(x: int) -> bool {
    0 <= x < FULL_CIRCLE
}

impl HouseSample {
    /// Every raw house longitude is in the oracle's output range.
    pub open spec fn wf(self) -> bool {
        &&& forall|i: int| 0 <= i < 12 ==> valid_raw(self.cusps@[i] as int)
        &&& valid_raw(self.ascendant as int)
        &&& valid_raw(self.midheaven as int)
        &&& valid_raw(self.vertex as int)
    }
}

/// A well-formed run of body readouts: one entry per fetchable body, each
/// present readout in the oracle's output range.
pub open spec fn wf_body_samples(bodies: Seq<Option<BodySample>>) -> bool {
    &&& bodies.len() == 12
    &&& forall|i: int|
        0 <= i < 12 ==> ((#[trigger] bodies[i]) matches Some(s) ==> valid_raw(s.longitude as int))
}

impl EphemerisSample {
    /// A well-formed sampling: house readout in range if present, and one
    /// in-range entry per fetchable body.
    pub open spec fn wf(self) -> bool {
        &&& self.houses matches Some(h) ==> h.wf()
        &&& wf_body_samples(self.bodies@)
    }
}

/// The index of the first failed readout in a run of body samples.
pub open spec fn first_failure_from(bodies: Seq<Option<BodySample>>, i: int) -> Option<int>
    decreases bodies.len() - i,
{
    if i < 0 || i >= bodies.len() {
        None
    } else if bodies[i] is None {
        Some(i)
    } else {
        first_failure_from(bodies, i + 1)
    }
}

/// The index of the first failed readout, if any.
pub open spec fn first_failure(bodies: Seq<Option<BodySample>>) -> Option<int> {
    first_failure_from(bodies, 0)
}

/// Latitudes are accepted between ninety degrees south and north.
pub open spec fn valid_latitude(lat: int) -> bool {
    -LATITUDE_LIMIT <= lat <= LATITUDE_LIMIT
}

/// Longitudes are accepted from 180 degrees west up to a full eastward
/// circle; east-positive conversion folds the upper half back.
pub open spec fn valid_longitude(lon: int) -> bool {
    LONGITUDE_LOW <= lon < LONGITUDE_HIGH
}

/// The oracle's planet code for a body, `None` for the two derived points
/// that are never fetched.
pub open spec fn spec_planet_id(body: CelestialBody) -> Option<i32> {
    match body {
        CelestialBody::Sun => Some(0),
        CelestialBody::Moon => Some(1),
        CelestialBody::Mercury => Some(2),
        CelestialBody::Venus => Some(3),
        CelestialBody::Mars => Some(4),
        CelestialBody::Jupiter => Some(5),
        CelestialBody::Saturn => Some(6),
        CelestialBody::Uranus => Some(7),
        CelestialBody::Neptune => Some(8),
        CelestialBody::Pluto => Some(9),
        CelestialBody::TrueNode => Some(11),
        CelestialBody::Chiron => Some(15),
        CelestialBody::Fortuna => None,
        CelestialBody::Vertex => None,
    }
}

/// The oracle's planet code for a body; Fortuna and the Vertex are derived,
/// never fetched.
pub fn get_planet_id(body: CelestialBody) -> (r: Option<i32>)
    ensures
        r == spec_planet_id(body),
{
    match body {
        CelestialBody::Sun => Some(0),
        CelestialBody::Moon => Some(1),
        CelestialBody::Mercury => Some(2),
        CelestialBody::Venus => Some(3),
        CelestialBody::Mars => Some(4),
        CelestialBody::Jupiter => Some(5),
        CelestialBody::Saturn => Some(6),
        CelestialBody::Uranus => Some(7),
        CelestialBody::Neptune => Some(8),
        CelestialBody::Pluto => Some(9),
        CelestialBody::TrueNode => Some(11),
        CelestialBody::Chiron => Some(15),
        _ => None,
    }
}

/// Folds a caller longitude into the oracle's east-positive convention.
pub fn to_east_longitude(lon: i64) -> (r: i64)
    requires
        -MAX_RAW_MAGNITUDE <= lon <= MAX_RAW_MAGNITUDE,
    ensures
        r == if lon > 180 * MICRO_PER_DEGREE {
            lon - 360 * MICRO_PER_DEGREE
        } else if lon < -180 * MICRO_PER_DEGREE {
            lon + 360 * MICRO_PER_DEGREE
        } else {
            lon as int
        },
{
    if lon > 180 * MICRO_PER_DEGREE {
        lon - 360 * MICRO_PER_DEGREE
    } else if lon < -180 * MICRO_PER_DEGREE {
        lon + 360 * MICRO_PER_DEGREE
    } else {
        lon
    }
}

/// Day birth: the Sun stands above the horizon, in houses seven to twelve.
pub fn is_sun_above_horizon(sun_house: u8) -> (r: bool)
    ensures
        r == (sun_house >= 7),
{
    sun_house >= 7
}

/// The Part of Fortune longitude: ascendant plus Moon minus Sun for a day
/// birth, ascendant plus Sun minus Moon for a night birth, wrapped into
/// `[0, 360)` degrees without a second calibration.
pub open spec fn spec_part_of_fortune(asc: int, sun: int, moon: int, day_birth: bool) -> int {
    if day_birth {
        wrap_spec(asc + moon - sun)
    } else {
        wrap_spec(asc + sun - moon)
    }
}

/// Computes the Part of Fortune from already-calibrated longitudes.
pub fn part_of_fortune(asc: u32, sun: u32, moon: u32, day_birth: bool) -> (r: u32)
    requires
        asc < FULL_CIRCLE,
        sun < FULL_CIRCLE,
        moon < FULL_CIRCLE,
    ensures
        r == spec_part_of_fortune(asc as int, sun as int, moon as int, day_birth),
        r < FULL_CIRCLE,
{
    let combined: i64 = if day_birth {
        asc as i64 + moon as i64 - sun as i64
    } else {
        asc as i64 + sun as i64 - moon as i64
    };
    wrap_longitude(combined)
}

/// The chart's calibrated cusps: each raw cusp normalized.
pub open spec fn natal_cusps(eph: EphemerisSample) -> Seq<u32> {
    Seq::new(12, |i: int| norm_spec(eph.houses->Some_0.cusps@[i] as int) as u32)
}

/// The chart's two angles: calibrated ascendant and midheaven.
pub open spec fn natal_angles(eph: EphemerisSample) -> Seq<AnglePosition> {
    seq![
        AnglePosition {
            angle: AnglePoint::Ascendant,
            longitude: norm_spec(eph.houses->Some_0.ascendant as int) as u32,
        },
        AnglePosition {
            angle: AnglePoint::Midheaven,
            longitude: norm_spec(eph.houses->Some_0.midheaven as int) as u32,
        },
    ]
}

/// The position the `i`-th fetched body takes in the chart: calibrated
/// longitude, retrograde from the speed's sign, house from the chart's own
/// cusps.
pub open spec fn fetched_position(eph: EphemerisSample, i: int) -> Position {
    let s = eph.bodies@[i]->Some_0;
    let lon = norm_spec(s.longitude as int) as u32;
    Position {
        body: body_order()[i],
        longitude: lon,
        retrograde: s.speed < 0,
        house: house_of(natal_cusps(eph), lon as int) as u8,
    }
}

/// Day birth: the chart's Sun is assigned a house at or above seven.
pub open spec fn spec_day_birth(eph: EphemerisSample) -> bool {
    fetched_position(eph, 0).house >= 7
}

/// The Part of Fortune's position, derived from the calibrated ascendant,
/// Sun and Moon by the day/night formula.
pub open spec fn fortuna_position(eph: EphemerisSample) -> Position {
    let asc = norm_spec(eph.houses->Some_0.ascendant as int);
    let sun = fetched_position(eph, 0).longitude;
    let moon = fetched_position(eph, 1).longitude;
    let lon = spec_part_of_fortune(asc, sun as int, moon as int, spec_day_birth(eph)) as u32;
    Position {
        body: CelestialBody::Fortuna,
        longitude: lon,
        retrograde: false,
        house: house_of(natal_cusps(eph), lon as int) as u8,
    }
}

/// The Vertex's position: the oracle's vertex readout, calibrated, with no
/// half-turn added.
pub open spec fn vertex_position(eph: EphemerisSample) -> Position {
    let lon = norm_spec(eph.houses->Some_0.vertex as int) as u32;
    Position {
        body: CelestialBody::Vertex,
        longitude: lon,
        retrograde: false,
        house: house_of(natal_cusps(eph), lon as int) as u8,
    }
}

/// All fourteen chart positions, in calculation order: the twelve fetched
/// bodies, then Fortuna, then the Vertex.
pub open spec fn natal_positions(eph: EphemerisSample) -> Seq<Position> {
    Seq::new(
        14,
        |i: int|
            if i < 12 {
                fetched_position(eph, i)
            } else if i == 12 {
                fortuna_position(eph)
            } else {
                vertex_position(eph)
            },
    )
}

/// The input rejection, if any: latitude checked first, then longitude.
pub open spec fn input_error(input: ChartInput) -> Option<ChartError> {
    if !valid_latitude(input.latitude as int) {
        Some(ChartError::InvalidLatitude)
    } else if !valid_longitude(input.longitude as int) {
        Some(ChartError::InvalidLongitude)
    } else {
        None
    }
}

/// Why a chart build fails, if it does: invalid input before any oracle
/// readout is consulted, then a failed house readout, then the first failed
/// body readout.
pub open spec fn build_error(input: ChartInput, eph: EphemerisSample) -> Option<ChartError> {
    if input_error(input) is Some {
        input_error(input)
    } else if eph.houses is None {
        Some(ChartError::HouseCalculation)
    } else {
        match first_failure(eph.bodies@) {
            Some(j) => Some(ChartError::BodyCalculation(body_order()[j])),
            None => None,
        }
    }
}

/// Option-of-string equality by contents.
pub open spec fn opt_string_eq(a: Option<String>, b: Option<String>) -> bool {
    match (a, b) {
        (Some(x), Some(y)) => x@ == y@,
        (None, None) => true,
        _ => false,
    }
}

/// Copies an optional label.
fn clone_opt_string(o: &Option<String>) -> (r: Option<String>)
    ensures
        opt_string_eq(r, *o),
{
    match o {
        Some(s) => Some(s.clone()),
        None => None,
    }
}

/// A scan that saw only successful readouts before the failure at `i` finds
/// `i` first.
proof fn lemma_first_failure_skip(bodies: Seq<Option<BodySample>>, s: int, i: int)
    requires
        0 <= s <= i < bodies.len(),
        forall|j: int| s <= j < i ==> bodies[j] is Some,
        bodies[i] is None,
    ensures
        first_failure_from(bodies, s) == Some(i),
    decreases i - s,
{
    if s < i {
        lemma_first_failure_skip(bodies, s + 1, i);
    }
}

/// A run of only successful readouts has no first failure.
proof fn lemma_first_failure_none(bodies: Seq<Option<BodySample>>, s: int)
    requires
        0 <= s,
        forall|j: int| 0 <= j < bodies.len() ==> bodies[j] is Some,
    ensures
        first_failure_from(bodies, s) is None,
    decreases bodies.len() - s,
{
    if s < bodies.len() {
        lemma_first_failure_none(bodies, s + 1);
    }
}

/// Builds a complete natal chart from one oracle sampling: validates the
/// input, calibrates and wraps every readout, assigns houses from the
/// chart's own cusps, derives the Part of Fortune by the day/night formula
/// and takes the vertex readout as the Vertex. Any failed readout aborts the
/// build with the failing point named; no partial chart is returned.
pub fn calculate_chart(input: &ChartInput, eph: &EphemerisSample) -> (r: Result<Chart, ChartError>)
    requires
        eph.wf(),
    ensures
        build_error(*input, *eph) matches Some(e) ==> r == Err::<Chart, ChartError>(e),
        build_error(*input, *eph) is None ==> (r matches Ok(chart) && {
            &&& chart.houses.cusps@ == natal_cusps(*eph)
            &&& chart.angles@ == natal_angles(*eph)
            &&& chart.positions@ == natal_positions(*eph)
            &&& opt_string_eq(chart.name, input.name)
            &&& opt_string_eq(chart.gender, input.gender)
        }),
{
    if input.latitude < -LATITUDE_LIMIT || input.latitude > LATITUDE_LIMIT {
        return Err(ChartError::InvalidLatitude);
    }
    if input.longitude < LONGITUDE_LOW || input.longitude >= LONGITUDE_HIGH {
        return Err(ChartError::InvalidLongitude);
    }
    let houses = match &eph.houses {
        None => {
            return Err(ChartError::HouseCalculation);
        },
        Some(h) => *h,
    };

    let mut cusps = [0u32; 12];
    for i in 0..12usize
        invariant
            eph.wf(),
            eph.houses == Some(houses),
            forall|j: int| 0 <= j < i ==> cusps@[j] == natal_cusps(*eph)[j],
    {
        cusps[i] = normalize_longitude(houses.cusps[i]);
    }
    let house_cusps = HouseCusps::new(cusps);
    proof {
        assert(house_cusps.cusps@ =~= natal_cusps(*eph));
    }

    let asc = normalize_longitude(houses.ascendant);
    let mc = normalize_longitude(houses.midheaven);
    let vertex_lon = normalize_longitude(houses.vertex);

    let mut chart = Chart::new().with_metadata(
        clone_opt_string(&input.name),
        clone_opt_string(&input.gender),
    );
    chart.houses = house_cusps;
    chart.angles.push(AnglePosition { angle: AnglePoint::Ascendant, longitude: asc });
    chart.angles.push(AnglePosition { angle: AnglePoint::Midheaven, longitude: mc });
    proof {
        assert(chart.angles@ =~= natal_angles(*eph));
    }

    let bodies_list = CelestialBody::all();
    let mut sun_lon: u32 = 0;
    let mut sun_house: u8 = 1;
    let mut moon_lon: u32 = 0;
    for i in 0..12usize
        invariant
            eph.wf(),
            eph.houses == Some(houses),
            input_error(*input) is None,
            bodies_list@ == body_order(),
            chart.houses.cusps@ == natal_cusps(*eph),
            chart.angles@ == natal_angles(*eph),
            opt_string_eq(chart.name, input.name),
            opt_string_eq(chart.gender, input.gender),
            chart.positions@.len() == i,
            forall|j: int| 0 <= j < i ==> (#[trigger] eph.bodies@[j]) is Some,
            forall|j: int|
                0 <= j < i ==> #[trigger] chart.positions@[j] == fetched_position(*eph, j),
            i >= 1 ==> sun_lon == fetched_position(*eph, 0).longitude && sun_house
                == fetched_position(*eph, 0).house,
            i >= 2 ==> moon_lon == fetched_position(*eph, 1).longitude,
    {
        let sample = match &eph.bodies[i] {
            None => {
                proof {
                    lemma_first_failure_skip(eph.bodies@, 0, i as int);
                }
                return Err(ChartError::BodyCalculation(bodies_list[i]));
            },
            Some(s) => *s,
        };
        let lon = normalize_longitude(sample.longitude);
        let retrograde = sample.speed < 0;
        let house = chart.houses.get_house(lon);
        if i == 0 {
            sun_lon = lon;
            sun_house = house;
        }
        if i == 1 {
            moon_lon = lon;
        }
        chart.positions.push(
            Position { body: bodies_list[i], longitude: lon, retrograde, house },
        );
    }

    let day_birth = is_sun_above_horizon(sun_house);
    let fortuna_lon = part_of_fortune(asc, sun_lon, moon_lon, day_birth);
    let fortuna_house = chart.houses.get_house(fortuna_lon);
    chart.positions.push(
        Position {
            body: CelestialBody::Fortuna,
            longitude: fortuna_lon,
            retrograde: false,
            house: fortuna_house,
        },
    );
    let vertex_house = chart.houses.get_house(vertex_lon);
    chart.positions.push(
        Position {
            body: CelestialBody::Vertex,
            longitude: vertex_lon,
            retrograde: false,
            house: vertex_house,
        },
    );
    proof {
        lemma_first_failure_none(eph.bodies@, 0);
        assert(chart.positions@ =~= natal_positions(*eph));
    }
    Ok(chart)
}

/// The position a transiting body takes: calibrated transit longitude, house
/// looked up in the *natal* cusps.
pub open spec fn transit_position(
    natal_eph: EphemerisSample,
    bodies: Seq<Option<BodySample>>,
    i: int,
) -> Position {
    let s = bodies[i]->Some_0;
    let lon = norm_spec(s.longitude as int) as u32;
    Position {
        body: body_order()[i],
        longitude: lon,
        retrograde: s.speed < 0,
        house: house_of(natal_cusps(natal_eph), lon as int) as u8,
    }
}

/// The twelve transiting positions, in calculation order; transits carry no
/// Fortuna and no Vertex.
pub open spec fn transit_positions(
    natal_eph: EphemerisSample,
    bodies: Seq<Option<BodySample>>,
) -> Seq<Position> {
    Seq::new(12, |i: int| transit_position(natal_eph, bodies, i))
}

/// Builds the natal chart, then a transit chart for the same place: the
/// transit chart reuses the natal houses and angles verbatim, computes only
/// the twelve body longitudes at the transit time, and assigns each
/// transiting body the natal house it falls in.
pub fn calculate_transit_chart(
    natal: &ChartInput,
    natal_eph: &EphemerisSample,
    transit_bodies: &Vec<Option<BodySample>>,
) -> (r: Result<(Chart, Chart), ChartError>)
    requires
        natal_eph.wf(),
        wf_body_samples(transit_bodies@),
    ensures
        build_error(*natal, *natal_eph) matches Some(e) ==> r == Err::<(Chart, Chart), ChartError>(
            e,
        ),
        build_error(*natal, *natal_eph) is None ==> (first_failure(
            transit_bodies@,
        ) matches Some(j) ==> r == Err::<(Chart, Chart), ChartError>(
            ChartError::BodyCalculation(body_order()[j]),
        )),
        build_error(*natal, *natal_eph) is None && first_failure(transit_bodies@) is None ==> (
        r matches Ok(pair) && {
            &&& pair.0.houses.cusps@ == natal_cusps(*natal_eph)
            &&& pair.0.angles@ == natal_angles(*natal_eph)
            &&& pair.0.positions@ == natal_positions(*natal_eph)
            &&& opt_string_eq(pair.0.name, natal.name)
            &&& opt_string_eq(pair.0.gender, natal.gender)
            &&& pair.1.houses == pair.0.houses
            &&& pair.1.angles@ == pair.0.angles@
            &&& pair.1.positions@ == transit_positions(*natal_eph, transit_bodies@)
            &&& pair.1.name is None
            &&& pair.1.gender is None
        }),
{
    let natal_chart = match calculate_chart(natal, natal_eph) {
        Err(e) => {
            return Err(e);
        },
        Ok(c) => c,
    };

    let mut transit_chart = Chart::new();
    transit_chart.houses = natal_chart.houses;
    transit_chart.angles = copy_angles(&natal_chart.angles);

    let bodies_list = CelestialBody::all();
    for i in 0..12usize
        invariant
            wf_body_samples(transit_bodies@),
            build_error(*natal, *natal_eph) is None,
            bodies_list@ == body_order(),
            natal_chart.houses.cusps@ == natal_cusps(*natal_eph),
            transit_chart.houses == natal_chart.houses,
            transit_chart.angles@ == natal_chart.angles@,
            transit_chart.name is None,
            transit_chart.gender is None,
            transit_chart.positions@.len() == i,
            forall|j: int| 0 <= j < i ==> (#[trigger] transit_bodies@[j]) is Some,
            forall|j: int|
                0 <= j < i ==> #[trigger] transit_chart.positions@[j] == transit_position(
                    *natal_eph,
                    transit_bodies@,
                    j,
                ),
    {
        let sample = match &transit_bodies[i] {
            None => {
                proof {
                    lemma_first_failure_skip(transit_bodies@, 0, i as int);
                }
                return Err(ChartError::BodyCalculation(bodies_list[i]));
            },
            Some(s) => *s,
        };
        let lon = normalize_longitude(sample.longitude);
        let house = natal_chart.houses.get_house(lon);
        transit_chart.positions.push(
            Position { body: bodies_list[i], longitude: lon, retrograde: sample.speed < 0, house },
        );
    }
    proof {
        lemma_first_failure_none(transit_bodies@, 0);
        assert(transit_chart.positions@ =~= transit_positions(*natal_eph, transit_bodies@));
    }
    Ok((natal_chart, transit_chart))
}

/// A position re-evaluated against another chart's cusps: only the house
/// changes.
pub open spec fn reassigned(p: Position, cusps: Seq<u32>) -> Position {
    Position {
        body: p.body,
        longitude: p.longitude,
        retrograde: p.retrograde,
        house: house_of(cusps, p.longitude as int) as u8,
    }
}

/// Rebuilds a position list with every house looked up in the given cusps.
fn reassign_houses(positions: &Vec<Position>, cusps: &HouseCusps) -> (r: Vec<Position>)
    ensures
        r@.len() == positions@.len(),
        forall|i: int|
            0 <= i < positions@.len() ==> #[trigger] r@[i] == reassigned(
                positions@[i],
                cusps.cusps@,
            ),
{
    let mut out: Vec<Position> = Vec::new();
    let n = positions.len();
    for i in 0..n
        invariant
            n == positions@.len(),
            out@.len() == i,
            forall|j: int|
                0 <= j < i ==> #[trigger] out@[j] == reassigned(positions@[j], cusps.cusps@),
    {
        let p = positions[i];
        let house = cusps.get_house(p.longitude);
        out.push(
            Position { body: p.body, longitude: p.longitude, retrograde: p.retrograde, house },
        );
    }
    out
}

/// Builds both natal charts, then cross-assigns houses: every position of
/// the first chart is re-evaluated against the second chart's cusps and vice
/// versa, before any aspects are computed. Angles are not reassigned.
pub fn calculate_synastry_charts(
    person1: &ChartInput,
    eph1: &EphemerisSample,
    person2: &ChartInput,
    eph2: &EphemerisSample,
) -> (r: Result<(Chart, Chart), ChartError>)
    requires
        eph1.wf(),
        eph2.wf(),
    ensures
        build_error(*person1, *eph1) matches Some(e) ==> r == Err::<(Chart, Chart), ChartError>(e),
        build_error(*person1, *eph1) is None ==> (build_error(*person2, *eph2) matches Some(e)
            ==> r == Err::<(Chart, Chart), ChartError>(e)),
        build_error(*person1, *eph1) is None && build_error(*person2, *eph2) is None ==> (
        r matches Ok(pair) && {
            &&& pair.0.houses.cusps@ == natal_cusps(*eph1)
            &&& pair.0.angles@ == natal_angles(*eph1)
            &&& pair.0.positions@.len() == 14
            &&& forall|i: int|
                0 <= i < 14 ==> #[trigger] pair.0.positions@[i] == reassigned(
                    natal_positions(*eph1)[i],
                    natal_cusps(*eph2),
                )
            &&& opt_string_eq(pair.0.name, person1.name)
            &&& opt_string_eq(pair.0.gender, person1.gender)
            &&& pair.1.houses.cusps@ == natal_cusps(*eph2)
            &&& pair.1.angles@ == natal_angles(*eph2)
            &&& pair.1.positions@.len() == 14
            &&& forall|i: int|
                0 <= i < 14 ==> #[trigger] pair.1.positions@[i] == reassigned(
                    natal_positions(*eph2)[i],
                    natal_cusps(*eph1),
                )
            &&& opt_string_eq(pair.1.name, person2.name)
            &&& opt_string_eq(pair.1.gender, person2.gender)
        }),
{
    let mut chart1 = match calculate_chart(person1, eph1) {
        Err(e) => {
            return Err(e);
        },
        Ok(c) => c,
    };
    let mut chart2 = match calculate_chart(person2, eph2) {
        Err(e) => {
            return Err(e);
        },
        Ok(c) => c,
    };

    chart1.positions = reassign_houses(&chart1.positions, &chart2.houses);
    chart2.positions = reassign_houses(&chart2.positions, &chart1.houses);

    Ok((chart1, chart2))
}

} // verus!
