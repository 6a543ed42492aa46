use astro_calc::aspects::{
    angular_separation, calculate_aspects, check_aspect, Aspect, AspectEntity, AspectType,
};
use astro_calc::chart::{CelestialBody, Chart, Position};

const DEG: u32 = 1_000_000;

fn body_at(body: CelestialBody, longitude: u32) -> Position {
    Position { body, longitude, retrograde: false, house: 1 }
}

#[test]
fn test_angular_separation() {
    assert_eq!(angular_separation(10 * DEG, 20 * DEG), 10 * DEG);
    assert_eq!(angular_separation(350 * DEG, 10 * DEG), 20 * DEG);
    assert_eq!(angular_separation(180 * DEG, 0), 180 * DEG);
}

#[test]
fn test_aspect_detection() {
    let entity1 = AspectEntity::Body(CelestialBody::Sun);
    let entity2 = AspectEntity::Body(CelestialBody::Moon);

    // Exact conjunction.
    let aspect = check_aspect(0, 0, &entity1, &entity2);
    assert!(aspect.is_some());
    assert_eq!(aspect.unwrap().aspect_type, AspectType::Conjunction);

    // A 68-degree separation misses the Sextile: its six-degree orb gets no
    // luminary bonus (only the four major aspects do), and no other type's
    // orb covers the separation either.
    let aspect = check_aspect(0, 68 * DEG, &entity1, &entity2);
    assert!(aspect.is_none());
}

#[test]
fn test_luminary_bonus() {
    // 92 degrees is a Square for any pair: deviation 2 sits inside the
    // standard orb of 8.
    let sun = AspectEntity::Body(CelestialBody::Sun);
    let mars = AspectEntity::Body(CelestialBody::Mars);
    let jupiter = AspectEntity::Body(CelestialBody::Jupiter);
    let aspect = check_aspect(0, 92 * DEG, &sun, &mars).unwrap();
    assert_eq!(aspect.aspect_type, AspectType::Square);
    assert_eq!(aspect.orb, 2 * DEG);
    assert_eq!(
        check_aspect(0, 92 * DEG, &mars, &jupiter).unwrap().aspect_type,
        AspectType::Square
    );

    // The bonus shows at 99 degrees: deviation 9 is inside 8 + 2 for the
    // Sun, outside the plain 8 for a non-luminary pair.
    let aspect = check_aspect(0, 99 * DEG, &sun, &mars).unwrap();
    assert_eq!(aspect.aspect_type, AspectType::Square);
    assert_eq!(aspect.orb, 9 * DEG);
    assert!(check_aspect(0, 99 * DEG, &mars, &jupiter).is_none());
}

#[test]
fn test_sextile_never_gets_bonus() {
    let sun = AspectEntity::Body(CelestialBody::Sun);
    let moon = AspectEntity::Body(CelestialBody::Moon);
    // 66 degrees: within the sextile orb of 6.
    assert_eq!(
        check_aspect(0, 66 * DEG, &sun, &moon).unwrap().aspect_type,
        AspectType::Sextile
    );
    // 67 degrees: outside it, luminaries or not.
    assert!(check_aspect(0, 67 * DEG, &sun, &moon).is_none());
}

#[test]
fn test_aspect_type_tables() {
    assert_eq!(AspectType::Conjunction.angle(), 0);
    assert_eq!(AspectType::Quintile.angle(), 72 * DEG);
    assert_eq!(AspectType::Opposition.angle(), 180 * DEG);
    assert_eq!(AspectType::Conjunction.standard_orb(), 8 * DEG);
    assert_eq!(AspectType::Sextile.standard_orb(), 6 * DEG);
    assert_eq!(AspectType::Quincunx.standard_orb(), 2 * DEG);
    assert_eq!(AspectType::Square.symbol(), "square");
    assert_eq!(AspectType::Opposition.symbol(), "opposite");
    let all = AspectType::all();
    assert_eq!(all.len(), 10);
    assert_eq!(all[0], AspectType::Conjunction);
    assert_eq!(all[4], AspectType::Opposition);
    assert_eq!(all[9], AspectType::Quincunx);
}

#[test]
fn test_entity_labels() {
    assert_eq!(AspectEntity::Body(CelestialBody::Sun).to_string(), "Sun");
    assert_eq!(
        AspectEntity::Angle(astro_calc::chart::AnglePoint::Midheaven).to_string(),
        "MC"
    );
}

#[test]
fn test_calculate_aspects_orientation_and_uniqueness() {
    // Sun 0, Moon 90, Mars 180: three pairs, three aspects, each recorded
    // once under its earlier entity.
    let mut chart = Chart::new();
    chart.positions.push(body_at(CelestialBody::Sun, 0));
    chart.positions.push(body_at(CelestialBody::Moon, 90 * DEG));
    chart.positions.push(body_at(CelestialBody::Mars, 180 * DEG));
    let result = calculate_aspects(&chart);

    let total: usize = result.iter().map(|(_, v)| v.len()).sum();
    assert!(total <= 3);
    assert_eq!(total, 3);
    for (entity, aspects) in &result {
        assert!(!aspects.is_empty());
        for a in aspects {
            assert_eq!(&a.entity1, entity);
            assert_ne!(&a.entity2, entity);
        }
    }
    // Sun's row: square Moon, opposite Mars; Moon's row: square Mars.
    assert_eq!(result[0].0, AspectEntity::Body(CelestialBody::Sun));
    assert_eq!(result[0].1.len(), 2);
    assert_eq!(result[1].0, AspectEntity::Body(CelestialBody::Moon));
    assert_eq!(result[1].1.len(), 1);
    assert_eq!(result[1].1[0].aspect_type, AspectType::Square);
}

#[test]
fn test_aspects_sorted_by_exact_angle() {
    // Scan order meets Mars (opposition) before Moon (square); the reported
    // list is re-ordered by the aspect's exact angle.
    let mut chart = Chart::new();
    chart.positions.push(body_at(CelestialBody::Sun, 0));
    chart.positions.push(body_at(CelestialBody::Mars, 180 * DEG));
    chart.positions.push(body_at(CelestialBody::Moon, 90 * DEG));
    let result = calculate_aspects(&chart);
    let sun_aspects = &result[0].1;
    assert_eq!(sun_aspects.len(), 2);
    assert_eq!(sun_aspects[0].aspect_type, AspectType::Square);
    assert_eq!(sun_aspects[1].aspect_type, AspectType::Opposition);
}

#[test]
fn test_entity_without_aspects_has_no_entry() {
    let mut chart = Chart::new();
    chart.positions.push(body_at(CelestialBody::Sun, 0));
    chart.positions.push(body_at(CelestialBody::Mars, 40 * DEG));
    let result = calculate_aspects(&chart);
    assert!(result.is_empty());
}

#[test]
fn test_first_match_prefers_major_aspect() {
    // 175 degrees with a luminary: opposition (orb 10) wins before the
    // quincunx could be considered.
    let sun = AspectEntity::Body(CelestialBody::Sun);
    let mars = AspectEntity::Body(CelestialBody::Mars);
    let aspect = check_aspect(0, 175 * DEG, &sun, &mars).unwrap();
    assert_eq!(aspect.aspect_type, AspectType::Opposition);
    assert_eq!(aspect.orb, 5 * DEG);
}

#[test]
fn test_aspect_description() {
    let near = Aspect {
        entity1: AspectEntity::Body(CelestialBody::Sun),
        entity2: AspectEntity::Body(CelestialBody::Moon),
        aspect_type: AspectType::Conjunction,
        orb: 500_000,
    };
    assert_eq!(near.description(), "conjunct Moon (exact 0.5\u{b0})");
    let wide = Aspect { orb: 2 * DEG, ..near };
    assert_eq!(wide.description(), "conjunct Moon ");
}
