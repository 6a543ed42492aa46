use astro_calc::aspects::{Aspect, AspectEntity, AspectType};
use astro_calc::builder::{calculate_chart, BodySample, ChartInput, EphemerisSample, HouseSample, UtcDateTime};
use astro_calc::chart::{CelestialBody, Position};
use astro_calc::formatter::{
    format_aspects, format_natal_chart, format_position, format_position_short,
    format_synastry_chart, format_transit_chart,
};

const DEG: i64 = 1_000_000;

fn sample_chart() -> astro_calc::chart::Chart {
    let houses = HouseSample {
        cusps: [
            10 * DEG,
            40 * DEG,
            70 * DEG,
            100 * DEG,
            130 * DEG,
            160 * DEG,
            190 * DEG,
            220 * DEG,
            250 * DEG,
            280 * DEG,
            310 * DEG,
            340 * DEG,
        ],
        ascendant: 100 * DEG,
        midheaven: 10 * DEG,
        vertex: 200 * DEG,
    };
    let longitudes: [i64; 12] = [
        51 * DEG,
        201 * DEG,
        31 * DEG,
        61 * DEG,
        91 * DEG,
        121 * DEG,
        151 * DEG,
        181 * DEG,
        211 * DEG,
        241 * DEG,
        271 * DEG,
        301 * DEG,
    ];
    let mut bodies = Vec::new();
    for lon in longitudes.iter() {
        bodies.push(Some(BodySample { longitude: *lon, speed: 7 }));
    }
    let eph = EphemerisSample { houses: Some(houses), bodies };
    let datetime = UtcDateTime { year: 1990, month: 6, day: 15, hour: 12, minute: 30, second: 0 };
    let input = ChartInput::new(datetime, 40 * DEG, -74 * DEG);
    calculate_chart(&input, &eph).unwrap()
}

#[test]
fn test_format_position() {
    let pos = Position {
        body: CelestialBody::Sun,
        longitude: 71_500_000, // 11.5 Gemini
        retrograde: false,
        house: 12,
    };
    let formatted = format_position(&pos, "H");
    assert!(formatted.contains("11"));
    assert!(formatted.contains("Gemini"));
    assert!(formatted.contains("H12"));
    assert_eq!(formatted, "11 Gemini H12");
}

#[test]
fn test_format_position_marks() {
    let pos = Position {
        body: CelestialBody::TrueNode,
        longitude: 271 * DEG as u32,
        retrograde: true,
        house: 4,
    };
    assert_eq!(format_position(&pos, "H"), "1rd Capricorn H4");
    assert_eq!(format_position_short(&pos), "1rd Capricorn");

    let mars = Position {
        body: CelestialBody::Mars,
        longitude: 95 * DEG as u32,
        retrograde: true,
        house: 1,
    };
    assert_eq!(format_position(&mars, "H"), "5r Cancer H1");
}

#[test]
fn test_format_aspects_list() {
    assert_eq!(format_aspects(&Vec::new()), "");
    let aspects = vec![
        Aspect {
            entity1: AspectEntity::Body(CelestialBody::Sun),
            entity2: AspectEntity::Body(CelestialBody::Moon),
            aspect_type: AspectType::Square,
            orb: 0,
        },
        Aspect {
            entity1: AspectEntity::Body(CelestialBody::Sun),
            entity2: AspectEntity::Body(CelestialBody::Mars),
            aspect_type: AspectType::Opposition,
            orb: 2 * DEG as u32,
        },
    ];
    assert_eq!(format_aspects(&aspects), "square Moon, opposite Mars");
}

#[test]
fn test_format_natal_chart_contents() {
    let chart = sample_chart();
    let text = format_natal_chart(&chart);
    assert!(text.contains("Sun 20 Taurus H2"));
    assert!(text.contains("Fortuna"));
    assert!(text.contains("Vertex"));
    assert!(text.contains("AC 9 Cancer"));
    assert!(text.contains("MC 9 Aries"));
    assert!(text.contains("House #s > Degree > Signs Respective to House #s:"));
    assert!(text.contains("House 1/7 9 Aries/9 Libra"));
}

#[test]
fn test_format_transit_chart_sections() {
    let natal = sample_chart();
    let mut transit = natal.clone();
    transit.positions.truncate(12);
    let text = format_transit_chart(&natal, &transit);
    assert!(text.contains("=== NATAL CHART ==="));
    assert!(text.contains("=== TRANSITING POSITIONS ==="));
    assert!(text.contains("Transiting Sun"));
    assert!(text.contains("(in natal house 2)"));
}

#[test]
fn test_format_synastry_chart_headers_uppercased() {
    let chart1 = sample_chart();
    let chart2 = sample_chart();
    let text = format_synastry_chart(&chart1, "alice", &chart2, "bob");
    // Headers carry the uppercased labels; house columns carry the partner's
    // label as given.
    assert!(text.contains("=== ALICE'S CHART ==="));
    assert!(text.contains("=== BOB'S CHART ==="));
    assert!(text.contains("Hbob"));
    assert!(text.contains("Halice"));
    assert!(text.contains("=== SYNASTRY ASPECTS ==="));
    // Identical charts conjoin body for body.
    assert!(text.contains("alice's Sun:"));
    assert!(text.contains("conjunct bob's Sun"));
}
