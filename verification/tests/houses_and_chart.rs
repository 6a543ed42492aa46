use astro_calc::chart::{
    AnglePoint, AnglePosition, CelestialBody, Chart, HouseCusps, Position, ZodiacSign,
};

const DEG: u32 = 1_000_000;

fn sample_cusps() -> HouseCusps {
    // Strictly ascending with one wraparound after the last cusp.
    HouseCusps::new([
        9 * DEG,
        39 * DEG,
        69 * DEG,
        99 * DEG,
        129 * DEG,
        159 * DEG,
        189 * DEG,
        219 * DEG,
        249 * DEG,
        279 * DEG,
        309 * DEG,
        339 * DEG,
    ])
}

#[test]
fn test_get_house_basic_intervals() {
    let cusps = sample_cusps();
    assert_eq!(cusps.get_house(9 * DEG), 1);
    assert_eq!(cusps.get_house(50 * DEG), 2);
    assert_eq!(cusps.get_house(38 * DEG), 1);
    assert_eq!(cusps.get_house(338 * DEG), 11);
    // The wraparound house covers both sides of zero.
    assert_eq!(cusps.get_house(339 * DEG), 12);
    assert_eq!(cusps.get_house(350 * DEG), 12);
    assert_eq!(cusps.get_house(0), 12);
    assert_eq!(cusps.get_house(8 * DEG), 12);
}

#[test]
fn test_get_house_total_coverage() {
    // Every longitude gets exactly one house, and for well-formed cusps the
    // returned house's own interval contains the longitude (the defensive
    // fallback is never what decides).
    let cusps = sample_cusps();
    let c = cusps.cusps;
    for d in 0..360u32 {
        let lon = d * DEG + 500_000;
        let h = cusps.get_house(lon);
        assert!((1..=12).contains(&h));
        let i = (h - 1) as usize;
        let cur = c[i];
        let nxt = c[(i + 1) % 12];
        let contained = if nxt > cur {
            lon >= cur && lon < nxt
        } else {
            lon >= cur || lon < nxt
        };
        assert!(contained);
    }
}

#[test]
fn test_get_house_fallback_on_degenerate_cusps() {
    // All-equal cusps are degenerate; the first interval's wraparound branch
    // claims every longitude, so house one comes back.
    let cusps = HouseCusps::new([0; 12]);
    assert_eq!(cusps.get_house(123 * DEG), 1);
}

#[test]
fn test_chart_new_is_empty() {
    let chart = Chart::new();
    assert!(chart.positions.is_empty());
    assert!(chart.angles.is_empty());
    assert_eq!(chart.houses.cusps, [0u32; 12]);
    assert!(chart.name.is_none());
    assert!(chart.gender.is_none());
}

#[test]
fn test_chart_with_metadata() {
    let chart = Chart::new().with_metadata(Some("Ada".to_string()), Some("Female".to_string()));
    assert_eq!(chart.name.as_deref(), Some("Ada"));
    assert_eq!(chart.gender.as_deref(), Some("Female"));
}

#[test]
fn test_chart_get_position_and_angle() {
    let mut chart = Chart::new();
    chart.positions.push(Position {
        body: CelestialBody::Sun,
        longitude: 50 * DEG,
        retrograde: false,
        house: 2,
    });
    chart.angles.push(AnglePosition { angle: AnglePoint::Ascendant, longitude: 99 * DEG });

    let sun = chart.get_position(CelestialBody::Sun).unwrap();
    assert_eq!(sun.longitude, 50 * DEG);
    assert!(chart.get_position(CelestialBody::Moon).is_none());

    let asc = chart.get_angle(AnglePoint::Ascendant).unwrap();
    assert_eq!(asc.longitude, 99 * DEG);
    assert!(chart.get_angle(AnglePoint::Midheaven).is_none());
}

#[test]
fn test_position_sign_and_degree() {
    let pos = Position {
        body: CelestialBody::Sun,
        longitude: 71_500_000,
        retrograde: false,
        house: 12,
    };
    assert_eq!(pos.sign(), ZodiacSign::Gemini);
    assert_eq!(pos.degree_in_sign(), 11_500_000);
}

#[test]
fn test_body_names_and_order() {
    let all = CelestialBody::all();
    assert_eq!(all.len(), 14);
    assert_eq!(all[0], CelestialBody::Sun);
    assert_eq!(all[10], CelestialBody::TrueNode);
    assert_eq!(all[12], CelestialBody::Fortuna);
    assert_eq!(all[13], CelestialBody::Vertex);
    assert_eq!(CelestialBody::TrueNode.to_string(), "True Node");
    assert_eq!(CelestialBody::Sun.to_string(), "Sun");
    assert_eq!(AnglePoint::Ascendant.to_string(), "AC");
    assert_eq!(AnglePoint::Midheaven.to_string(), "MC");
}

#[test]
fn test_body_orb() {
    assert_eq!(CelestialBody::Sun.orb(), 10 * DEG);
    assert_eq!(CelestialBody::Moon.orb(), 10 * DEG);
    assert_eq!(CelestialBody::Mars.orb(), 8 * DEG);
}
