use astro_calc::builder::{
    calculate_chart, calculate_synastry_charts, calculate_transit_chart, get_planet_id,
    is_sun_above_horizon, part_of_fortune, to_east_longitude, BodySample, ChartError, ChartInput,
    ChartMode, EphemerisSample, HouseSample, UtcDateTime,
};
use astro_calc::chart::CelestialBody;

const DEG: i64 = 1_000_000;
const UDEG: u32 = 1_000_000;

fn birth_datetime() -> UtcDateTime {
    UtcDateTime { year: 1990, month: 6, day: 15, hour: 12, minute: 30, second: 0 }
}

fn sample_houses() -> HouseSample {
    // Raw cusps; calibration brings each down one degree.
    HouseSample {
        cusps: [
            10 * DEG,
            40 * DEG,
            70 * DEG,
            100 * DEG,
            130 * DEG,
            160 * DEG,
            190 * DEG,
            220 * DEG,
            250 * DEG,
            280 * DEG,
            310 * DEG,
            340 * DEG,
        ],
        ascendant: 100 * DEG,
        midheaven: 10 * DEG,
        vertex: 200 * DEG,
    }
}

fn sample_bodies() -> Vec<Option<BodySample>> {
    let longitudes: [i64; 12] = [
        51 * DEG,  // Sun -> 50 after calibration
        201 * DEG, // Moon -> 200
        31 * DEG,
        61 * DEG,
        91 * DEG,
        121 * DEG,
        151 * DEG,
        181 * DEG,
        211 * DEG,
        241 * DEG,
        271 * DEG, // True Node, retrograde below
        301 * DEG,
    ];
    let mut out = Vec::new();
    for (i, lon) in longitudes.iter().enumerate() {
        let speed = if i == 10 { -5 } else { 7 };
        out.push(Some(BodySample { longitude: *lon, speed }));
    }
    out
}

fn sample_ephemeris() -> EphemerisSample {
    EphemerisSample { houses: Some(sample_houses()), bodies: sample_bodies() }
}

fn sample_input() -> ChartInput {
    ChartInput::new(birth_datetime(), 40 * DEG, -74 * DEG)
}

#[test]
fn test_chart_input_creation() {
    let input = ChartInput::new(birth_datetime(), 40_712_800, -74_006_000);
    assert!(input.latitude > 0);
}

#[test]
fn test_chart_input_builders() {
    let input = sample_input()
        .with_name("Ada".to_string())
        .with_gender("Female".to_string());
    assert_eq!(input.name.as_deref(), Some("Ada"));
    assert_eq!(input.gender.as_deref(), Some("Female"));
    let _mode = ChartMode::Natal;
    assert_ne!(ChartMode::Synastry, ChartMode::Transit);
}

#[test]
fn test_planet_ids() {
    assert_eq!(get_planet_id(CelestialBody::Sun), Some(0));
    assert_eq!(get_planet_id(CelestialBody::Moon), Some(1));
    assert_eq!(get_planet_id(CelestialBody::Pluto), Some(9));
    assert_eq!(get_planet_id(CelestialBody::TrueNode), Some(11));
    assert_eq!(get_planet_id(CelestialBody::Chiron), Some(15));
    assert_eq!(get_planet_id(CelestialBody::Fortuna), None);
    assert_eq!(get_planet_id(CelestialBody::Vertex), None);
}

#[test]
fn test_east_longitude_conversion() {
    assert_eq!(to_east_longitude(250 * DEG), -110 * DEG);
    assert_eq!(to_east_longitude(-200 * DEG), 160 * DEG);
    assert_eq!(to_east_longitude(-74 * DEG), -74 * DEG);
    assert_eq!(to_east_longitude(180 * DEG), 180 * DEG);
}

#[test]
fn test_day_night_part_of_fortune() {
    // ASC 100, Sun 50, Moon 200.
    let asc = 100 * UDEG;
    let sun = 50 * UDEG;
    let moon = 200 * UDEG;
    // Day birth: (100 + 200 - 50) mod 360 = 250.
    assert_eq!(part_of_fortune(asc, sun, moon, true), 250 * UDEG);
    // Night birth: (100 + 50 - 200) mod 360 = 310.
    assert_eq!(part_of_fortune(asc, sun, moon, false), 310 * UDEG);
}

#[test]
fn test_sun_above_horizon_rule() {
    assert!(!is_sun_above_horizon(1));
    assert!(!is_sun_above_horizon(6));
    assert!(is_sun_above_horizon(7));
    assert!(is_sun_above_horizon(12));
}

#[test]
fn test_natal_chart_end_to_end() {
    // Natal chart for a fixed datetime at 40 N, 74 W: fourteen positions,
    // two angles, every longitude in range, Fortuna and Vertex derived.
    let chart = calculate_chart(&sample_input(), &sample_ephemeris()).unwrap();

    assert_eq!(chart.positions.len(), 14);
    assert_eq!(chart.angles.len(), 2);
    for pos in &chart.positions {
        assert!(pos.longitude < 360 * UDEG);
        assert!((1..=12).contains(&pos.house));
    }

    assert_eq!(chart.angles[0].longitude, 99 * UDEG);
    assert_eq!(chart.angles[1].longitude, 9 * UDEG);

    let sun = chart.get_position(CelestialBody::Sun).unwrap();
    assert_eq!(sun.longitude, 50 * UDEG);
    assert_eq!(sun.house, 2);
    assert!(!sun.retrograde);

    let node = chart.get_position(CelestialBody::TrueNode).unwrap();
    assert!(node.retrograde);

    // Sun in house 2: night birth, so Fortuna = ASC + Sun - Moon mod 360
    // = (99 + 50 - 200) mod 360 = 309 -- derived, not an oracle readout.
    let fortuna = chart.get_position(CelestialBody::Fortuna).unwrap();
    assert_eq!(fortuna.longitude, 309 * UDEG);
    assert_eq!(fortuna.house, 11);

    // Vertex: the calibrated vertex readout, no half-turn added.
    let vertex = chart.get_position(CelestialBody::Vertex).unwrap();
    assert_eq!(vertex.longitude, 199 * UDEG);
    assert_eq!(vertex.house, 7);

    // Cusps calibrated from the raw readout.
    assert_eq!(chart.houses.cusps[0], 9 * UDEG);
    assert_eq!(chart.houses.cusps[11], 339 * UDEG);
}

#[test]
fn test_invalid_latitude_rejected() {
    let mut input = sample_input();
    input.latitude = 95 * DEG;
    let err = calculate_chart(&input, &sample_ephemeris()).unwrap_err();
    assert_eq!(err, ChartError::InvalidLatitude);
    assert_eq!(err.message(), "Latitude out of range");
}

#[test]
fn test_invalid_longitude_rejected() {
    let mut input = sample_input();
    input.longitude = 400 * DEG;
    let err = calculate_chart(&input, &sample_ephemeris()).unwrap_err();
    assert_eq!(err, ChartError::InvalidLongitude);
    assert_eq!(err.message(), "Longitude out of range");

    input.longitude = -181 * DEG;
    let err = calculate_chart(&input, &sample_ephemeris()).unwrap_err();
    assert_eq!(err, ChartError::InvalidLongitude);
}

#[test]
fn test_house_failure_aborts_build() {
    let eph = EphemerisSample { houses: None, bodies: sample_bodies() };
    let err = calculate_chart(&sample_input(), &eph).unwrap_err();
    assert_eq!(err, ChartError::HouseCalculation);
    assert_eq!(err.message(), "Failed to calculate houses");
}

#[test]
fn test_body_failure_aborts_build() {
    let mut eph = sample_ephemeris();
    eph.bodies[3] = None;
    let err = calculate_chart(&sample_input(), &eph).unwrap_err();
    assert_eq!(err, ChartError::BodyCalculation(CelestialBody::Venus));
    assert_eq!(err.message(), "Failed to calculate Venus");
}

#[test]
fn test_first_failing_body_is_reported() {
    let mut eph = sample_ephemeris();
    eph.bodies[1] = None;
    eph.bodies[5] = None;
    let err = calculate_chart(&sample_input(), &eph).unwrap_err();
    assert_eq!(err, ChartError::BodyCalculation(CelestialBody::Moon));
}

#[test]
fn test_transit_reuses_natal_houses() {
    let mut transit_bodies = sample_bodies();
    // Different transit longitudes.
    for entry in transit_bodies.iter_mut() {
        if let Some(s) = entry {
            s.longitude = (s.longitude + 17 * DEG) % (360 * DEG);
        }
    }
    let (natal, transit) =
        calculate_transit_chart(&sample_input(), &sample_ephemeris(), &transit_bodies).unwrap();

    // House cusps and angles are the natal ones, verbatim, although the
    // transit time differs.
    assert_eq!(transit.houses.cusps, natal.houses.cusps);
    assert_eq!(transit.angles.len(), natal.angles.len());
    for (a, b) in transit.angles.iter().zip(natal.angles.iter()) {
        assert_eq!(a, b);
    }

    // Only the twelve fetched bodies transit: no Fortuna, no Vertex.
    assert_eq!(transit.positions.len(), 12);
    assert!(transit.get_position(CelestialBody::Fortuna).is_none());
    assert!(transit.get_position(CelestialBody::Vertex).is_none());

    // Each transiting body's house comes from the natal cusps.
    for pos in &transit.positions {
        assert_eq!(pos.house, natal.houses.get_house(pos.longitude));
    }
}

#[test]
fn test_transit_body_failure() {
    let mut transit_bodies = sample_bodies();
    transit_bodies[0] = None;
    let err = calculate_transit_chart(&sample_input(), &sample_ephemeris(), &transit_bodies)
        .unwrap_err();
    assert_eq!(err, ChartError::BodyCalculation(CelestialBody::Sun));
}

#[test]
fn test_synastry_cross_assignment() {
    let input1 = sample_input().with_name("Ada".to_string());
    let eph1 = sample_ephemeris();

    let mut houses2 = sample_houses();
    houses2.ascendant = 200 * DEG;
    for (i, c) in houses2.cusps.iter_mut().enumerate() {
        *c = ((200 + 30 * (i as i64)) % 360) * DEG;
    }
    let mut bodies2 = sample_bodies();
    for entry in bodies2.iter_mut() {
        if let Some(s) = entry {
            s.longitude = (s.longitude + 40 * DEG) % (360 * DEG);
        }
    }
    let input2 = ChartInput::new(birth_datetime(), 51 * DEG, 0).with_name("Grace".to_string());
    let eph2 = EphemerisSample { houses: Some(houses2), bodies: bodies2 };

    let (chart1, chart2) = calculate_synastry_charts(&input1, &eph1, &input2, &eph2).unwrap();

    // Every position of chart1 has its house recomputed from chart2's cusps,
    // and the reverse.
    for pos in &chart1.positions {
        assert_eq!(pos.house, chart2.houses.get_house(pos.longitude));
    }
    for pos in &chart2.positions {
        assert_eq!(pos.house, chart1.houses.get_house(pos.longitude));
    }

    // Angles remain each chart's own.
    assert_eq!(chart1.angles[0].longitude, 99 * UDEG);
    assert_eq!(chart2.angles[0].longitude, 199 * UDEG);
    assert_eq!(chart1.name.as_deref(), Some("Ada"));
    assert_eq!(chart2.name.as_deref(), Some("Grace"));
}

#[test]
fn test_synastry_error_precedence() {
    let bad_input = ChartInput::new(birth_datetime(), 100 * DEG, 0);
    let err =
        calculate_synastry_charts(&bad_input, &sample_ephemeris(), &sample_input(), &sample_ephemeris())
            .unwrap_err();
    assert_eq!(err, ChartError::InvalidLatitude);

    let eph2 = EphemerisSample { houses: None, bodies: sample_bodies() };
    let err = calculate_synastry_charts(&sample_input(), &sample_ephemeris(), &sample_input(), &eph2)
        .unwrap_err();
    assert_eq!(err, ChartError::HouseCalculation);
}
