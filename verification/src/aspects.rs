//! Pairwise aspect detection: angular separation, per-type orb tolerances
//! with the luminary bonus, first-match type resolution and the chart-wide
//! scan.

use vstd::prelude::*;
use vstd::string::StringExecFns;
use crate::angle::FULL_CIRCLE;
use crate::chart::{chart_longitudes_in_range, AnglePoint, CelestialBody, Chart};

verus! {

/// Half a circle, in micro-degrees: separations are reduced to `[0, 180]`.
pub const HALF_CIRCLE: i64 = 180_000_000;

/// The ten aspect types. Declaration order is the detection order: the five
/// major aspects are tried before the minor ones, so near-ambiguous
/// separations resolve toward a major aspect.
#[derive(Debug, Clone, Copy, PartialEq, Eq, Structural)]
pub enum AspectType {
    Conjunction,
    Sextile,
    Square,
    Trine,
    Opposition,
    SemiSextile,
    SemiSquare,
    Quintile,
    Sesquiquadrate,
    Quincunx,
}

/// The detection order of the aspect types: majors first.
pub open spec fn aspect_check_order() -> Seq<AspectType> {
    seq![
        AspectType::Conjunction,
        AspectType::Sextile,
        AspectType::Square,
        AspectType::Trine,
        AspectType::Opposition,
        AspectType::SemiSextile,
        AspectType::SemiSquare,
        AspectType::Quintile,
        AspectType::Sesquiquadrate,
        AspectType::Quincunx,
    ]
}

/// The aspect types in ascending order of exact angle; per-entity aspect
/// lists are reported in this order.
pub open spec fn aspect_angle_order() -> Seq<AspectType> {
    seq![
        AspectType::Conjunction,
        AspectType::SemiSextile,
        AspectType::SemiSquare,
        AspectType::Sextile,
        AspectType::Quintile,
        AspectType::Square,
        AspectType::Trine,
        AspectType::Sesquiquadrate,
        AspectType::Quincunx,
        AspectType::Opposition,
    ]
}

impl AspectType {
    /// The aspect's exact angle, in micro-degrees.
    pub open spec fn spec_angle(self) -> int {
        match self {
            AspectType::Conjunction => 0,
            AspectType::SemiSextile => 30_000_000,
            AspectType::SemiSquare => 45_000_000,
            AspectType::Sextile => 60_000_000,
            AspectType::Quintile => 72_000_000,
            AspectType::Square => 90_000_000,
            AspectType::Trine => 120_000_000,
            AspectType::Sesquiquadrate => 135_000_000,
            AspectType::Quincunx => 150_000_000,
            AspectType::Opposition => 180_000_000,
        }
    }

    /// The aspect's exact angle, in micro-degrees.
    pub fn angle(&self) -> (r: u32)
        ensures
            r == self.spec_angle(),
    {
        match self {
            AspectType::Conjunction => 0,
            AspectType::SemiSextile => 30_000_000,
            AspectType::SemiSquare => 45_000_000,
            AspectType::Sextile => 60_000_000,
            AspectType::Quintile => 72_000_000,
            AspectType::Square => 90_000_000,
            AspectType::Trine => 120_000_000,
            AspectType::Sesquiquadrate => 135_000_000,
            AspectType::Quincunx => 150_000_000,
            AspectType::Opposition => 180_000_000,
        }
    }

    /// The aspect's standard orb tolerance, in micro-degrees (luminaries can
    /// add a bonus on major aspects).
    pub open spec fn spec_standard_orb(self) -> int {
        match self {
            AspectType::Conjunction | AspectType::Opposition => 8_000_000,
            AspectType::Square | AspectType::Trine => 8_000_000,
            AspectType::Sextile => 6_000_000,
            AspectType::SemiSextile | AspectType::SemiSquare => 2_000_000,
            AspectType::Sesquiquadrate | AspectType::Quincunx => 2_000_000,
            AspectType::Quintile => 2_000_000,
        }
    }

    /// The aspect's standard orb tolerance, in micro-degrees.
    pub fn standard_orb(&self) -> (r: u32)
        ensures
            r == self.spec_standard_orb(),
    {
        match self {
            AspectType::Conjunction | AspectType::Opposition => 8_000_000,
            AspectType::Square | AspectType::Trine => 8_000_000,
            AspectType::Sextile => 6_000_000,
            AspectType::SemiSextile | AspectType::SemiSquare | AspectType::Sesquiquadrate
                | AspectType::Quincunx => 2_000_000,
            AspectType::Quintile => 2_000_000,
        }
    }

    /// The aspect's display word.
    pub fn symbol(&self) -> (r: &'static str)
        ensures
            r@ == self.spec_symbol(),
    {
        match self {
            AspectType::Conjunction => "conjunct",
            AspectType::Sextile => "sextile",
            AspectType::Square => "square",
            AspectType::Trine => "trine",
            AspectType::Opposition => "opposite",
            AspectType::SemiSextile => "semi-sextile",
            AspectType::SemiSquare => "semi-square",
            AspectType::Quintile => "quintile",
            AspectType::Sesquiquadrate => "sesquiquadrate",
            AspectType::Quincunx => "quincunx",
        }
    }

    /// The characters of the aspect's display word.
    pub open spec fn spec_symbol(self) -> Seq<char> {
        match self {
            AspectType::Conjunction => "conjunct"@,
            AspectType::Sextile => "sextile"@,
            AspectType::Square => "square"@,
            AspectType::Trine => "trine"@,
            AspectType::Opposition => "opposite"@,
            AspectType::SemiSextile => "semi-sextile"@,
            AspectType::SemiSquare => "semi-square"@,
            AspectType::Quintile => "quintile"@,
            AspectType::Sesquiquadrate => "sesquiquadrate"@,
            AspectType::Quincunx => "quincunx"@,
        }
    }

    /// All aspect types, in detection order.
    pub fn all() -> (r: Vec<Self>)
        ensures
            r@ == aspect_check_order(),
    {
        let types = vec![
            AspectType::Conjunction,
            AspectType::Sextile,
            AspectType::Square,
            AspectType::Trine,
            AspectType::Opposition,
            AspectType::SemiSextile,
            AspectType::SemiSquare,
            AspectType::Quintile,
            AspectType::Sesquiquadrate,
            AspectType::Quincunx,
        ];
        proof {
            assert(types@ =~= aspect_check_order());
        }
        types
    }
}

/// A participant in an aspect: a body or a chart angle.
#[derive(Debug, Clone, Copy, PartialEq, Eq, Hash, Structural)]
pub enum AspectEntity {
    Body(CelestialBody),
    Angle(AnglePoint),
}

impl AspectEntity {
    /// The entity's display label.
    pub fn to_string(&self) -> (r: String)
        ensures
            r@ == self.spec_label(),
    {
        match self {
            AspectEntity::Body(body) => String::from_str(body.to_string()),
            AspectEntity::Angle(angle) => String::from_str(angle.to_string()),
        }
    }

    /// The characters of the entity's display label.
    pub open spec fn spec_label(self) -> Seq<char> {
        match self {
            AspectEntity::Body(body) => body.spec_name(),
            AspectEntity::Angle(angle) => angle.spec_name(),
        }
    }
}

/// Whether the entity is a luminary (the Sun or the Moon), which widens the
/// orb on major aspects.
pub open spec fn is_luminary(e: AspectEntity) -> bool {
    e == AspectEntity::Body(CelestialBody::Sun) || e == AspectEntity::Body(CelestialBody::Moon)
}

/// Whether the aspect type is major: only these earn the luminary bonus.
pub open spec fn is_major(t: AspectType) -> bool {
    t == AspectType::Conjunction || t == AspectType::Opposition || t == AspectType::Square
        || t == AspectType::Trine
}

/// The orb allowed for a pair: the type's standard orb, plus two degrees when
/// a luminary takes part in a major aspect.
pub open spec fn allowed_orb(t: AspectType, e1: AspectEntity, e2: AspectEntity) -> int {
    t.spec_standard_orb() + if is_major(t) && (is_luminary(e1) || is_luminary(e2)) {
        2_000_000int
    } else {
        0int
    }
}

/// A detected aspect between two entities; `orb` is the actual deviation from
/// the exact angle, in micro-degrees. `entity1` always precedes `entity2` in
/// the scan that produced the aspect.
#[derive(Debug, Clone, Copy, PartialEq, Eq, Structural)]
pub struct Aspect {
    pub entity1: AspectEntity,
    pub entity2: AspectEntity,
    pub aspect_type: AspectType,
    pub orb: u32,
}

/// The shortest-arc angular distance between two longitudes, in `[0, 180]`
/// degrees.
pub open spec fn separation_spec(lon1: int, lon2: int) -> int {
    let d = if lon1 >= lon2 {
        lon1 - lon2
    } else {
        lon2 - lon1
    };
    if d > HALF_CIRCLE {
        FULL_CIRCLE - d
    } else {
        d
    }
}

/// Shortest-arc angular separation of two longitudes (micro-degrees).
pub fn angular_separation(lon1: u32, lon2: u32) -> (r: u32)
    requires
        lon1 < FULL_CIRCLE,
        lon2 < FULL_CIRCLE,
    ensures
        r == separation_spec(lon1 as int, lon2 as int),
        r <= HALF_CIRCLE,
{
    let diff = if lon1 >= lon2 {
        lon1 - lon2
    } else {
        lon2 - lon1
    };
    if diff > (HALF_CIRCLE as u32) {
        (FULL_CIRCLE as u32) - diff
    } else {
        diff
    }
}

/// The first aspect type in `ts` whose orb admits the separation, as a
/// recorded aspect for the pair.
pub open spec fn check_pair_from(
    sep: int,
    e1: AspectEntity,
    e2: AspectEntity,
    ts: Seq<AspectType>,
) -> Option<Aspect>
    decreases ts.len(),
{
    if ts.len() == 0 {
        None
    } else {
        let t = ts[0];
        let dev = if sep >= t.spec_angle() {
            sep - t.spec_angle()
        } else {
            t.spec_angle() - sep
        };
        if dev <= allowed_orb(t, e1, e2) {
            Some(Aspect { entity1: e1, entity2: e2, aspect_type: t, orb: dev as u32 })
        } else {
            check_pair_from(sep, e1, e2, ts.drop_first())
        }
    }
}

/// The aspect, if any, between two placed entities: the first type in
/// detection order whose allowed orb covers the deviation of their
/// shortest-arc separation from the type's exact angle.
pub open spec fn spec_check_aspect(
    lon1: int,
    lon2: int,
    e1: AspectEntity,
    e2: AspectEntity,
) -> Option<Aspect> {
    check_pair_from(separation_spec(lon1, lon2), e1, e2, aspect_check_order())
}

/// Finds the aspect between two placed entities, if their separation admits
/// one.
pub fn check_aspect(
    lon1: u32,
    lon2: u32,
    entity1: &AspectEntity,
    entity2: &AspectEntity,
) -> (r: Option<Aspect>)
    requires
        lon1 < FULL_CIRCLE,
        lon2 < FULL_CIRCLE,
    ensures
        r == spec_check_aspect(lon1 as int, lon2 as int, *entity1, *entity2),
{
    let separation = angular_separation(lon1, lon2);
    let types = AspectType::all();
    let ghost order = aspect_check_order();
    let ghost sep = separation as int;
    proof {
        assert(order.skip(0) =~= order);
    }
    for i in 0..10usize
        invariant
            types@ == order,
            order == aspect_check_order(),
            sep == separation as int,
            separation <= HALF_CIRCLE,
            check_pair_from(sep, *entity1, *entity2, order.skip(i as int)) == spec_check_aspect(
                lon1 as int,
                lon2 as int,
                *entity1,
                *entity2,
            ),
    {
        let aspect_type = types[i];
        let target_angle = aspect_type.angle();
        let actual_orb: u32 = if separation >= target_angle {
            separation - target_angle
        } else {
            target_angle - separation
        };

        let mut allowed: u32 = aspect_type.standard_orb();
        if matches!(
            aspect_type,
            AspectType::Conjunction | AspectType::Opposition | AspectType::Square
                | AspectType::Trine,
        ) {
            let has_luminary = matches!(
                entity1,
                AspectEntity::Body(CelestialBody::Sun) | AspectEntity::Body(CelestialBody::Moon),
            ) || matches!(
                entity2,
                AspectEntity::Body(CelestialBody::Sun) | AspectEntity::Body(CelestialBody::Moon),
            );
            if has_luminary {
                allowed = allowed + 2_000_000;
            }
        }

        proof {
            assert(order.skip(i as int)[0] == order[i as int]);
            assert(order.skip(i as int).drop_first() =~= order.skip(i as int + 1));
        }
        if actual_orb <= allowed {
            return Some(
                Aspect {
                    entity1: *entity1,
                    entity2: *entity2,
                    aspect_type,
                    orb: actual_orb,
                },
            );
        }
    }
    proof {
        assert(order.skip(10) =~= Seq::<AspectType>::empty());
    }
    None
}

/// The entities a list of positions and angles enters into the aspect scan:
/// every body position in order, then every angle, each with its longitude.
pub open spec fn scan_entities(
    positions: Seq<crate::chart::Position>,
    angles: Seq<crate::chart::AnglePosition>,
) -> Seq<(AspectEntity, u32)> {
    let np = positions.len() as int;
    Seq::new(
        (positions.len() + angles.len()) as nat,
        |i: int|
            if i < np {
                (AspectEntity::Body(positions[i].body), positions[i].longitude)
            } else {
                (AspectEntity::Angle(angles[i - np].angle), angles[i - np].longitude)
            },
    )
}

/// The entities a chart enters into the aspect scan.
pub open spec fn chart_entities(chart: Chart) -> Seq<(AspectEntity, u32)> {
    scan_entities(chart.positions@, chart.angles@)
}

/// An optional aspect as a zero- or one-element sequence.
pub open spec fn opt_seq(o: Option<Aspect>) -> Seq<Aspect> {
    match o {
        Some(a) => seq![a],
        None => Seq::empty(),
    }
}

/// The aspect between scan entries `i` and `j`, if any.
pub open spec fn pair_aspect(ents: Seq<(AspectEntity, u32)>, i: int, j: int) -> Option<Aspect> {
    spec_check_aspect(ents[i].1 as int, ents[j].1 as int, ents[i].0, ents[j].0)
}

/// The aspects entry `i` forms with entries `j`, `j + 1`, ..., in scan order.
pub open spec fn row_from(ents: Seq<(AspectEntity, u32)>, i: int, j: int) -> Seq<Aspect>
    decreases ents.len() - j,
{
    if j < 0 || j >= ents.len() {
        Seq::empty()
    } else {
        opt_seq(pair_aspect(ents, i, j)) + row_from(ents, i, j + 1)
    }
}

/// The same row built up from the front: the aspects entry `i` forms with
/// entries before `j`.
spec fn row_upto(ents: Seq<(AspectEntity, u32)>, i: int, j: int) -> Seq<Aspect>
    decreases j - i,
{
    if j <= i + 1 {
        Seq::empty()
    } else {
        row_upto(ents, i, j - 1) + opt_seq(pair_aspect(ents, i, j - 1))
    }
}

/// The aspects of a row with the given type, in their scan order.
pub open spec fn filter_type(row: Seq<Aspect>, t: AspectType) -> Seq<Aspect> {
    row.filter(|a: Aspect| a.aspect_type == t)
}

/// A row reordered by ascending exact angle of the aspect type; aspects of
/// the same type keep their scan order.
pub open spec fn sort_by_angle(row: Seq<Aspect>) -> Seq<Aspect> {
    filter_type(row, AspectType::Conjunction) + filter_type(row, AspectType::SemiSextile)
        + filter_type(row, AspectType::SemiSquare) + filter_type(row, AspectType::Sextile)
        + filter_type(row, AspectType::Quintile) + filter_type(row, AspectType::Square)
        + filter_type(row, AspectType::Trine) + filter_type(row, AspectType::Sesquiquadrate)
        + filter_type(row, AspectType::Quincunx) + filter_type(row, AspectType::Opposition)
}

/// The result entry contributed by scan entry `i`: its sorted row, or nothing
/// when the row is empty.
pub open spec fn entry_at(ents: Seq<(AspectEntity, u32)>, i: int) -> Seq<
    (AspectEntity, Seq<Aspect>),
> {
    let row = sort_by_angle(row_from(ents, i, i + 1));
    if row.len() > 0 {
        seq![(ents[i].0, row)]
    } else {
        Seq::empty()
    }
}

/// The result entries contributed by scan entries `i`, `i + 1`, ...
pub open spec fn rows_from(ents: Seq<(AspectEntity, u32)>, i: int) -> Seq<
    (AspectEntity, Seq<Aspect>),
>
    decreases ents.len() - i,
{
    if i < 0 || i >= ents.len() {
        Seq::empty()
    } else {
        entry_at(ents, i) + rows_from(ents, i + 1)
    }
}

/// The result entries contributed by scan entries before `i`.
spec fn rows_upto(ents: Seq<(AspectEntity, u32)>, i: int) -> Seq<(AspectEntity, Seq<Aspect>)>
    decreases i,
{
    if i <= 0 {
        Seq::empty()
    } else {
        rows_upto(ents, i - 1) + entry_at(ents, i - 1)
    }
}

/// The whole aspect scan: for every entity, in scan order, the aspects it
/// forms with later entities, sorted by exact angle; entities with no aspect
/// contribute no entry.
pub open spec fn spec_calculate_aspects(ents: Seq<(AspectEntity, u32)>) -> Seq<
    (AspectEntity, Seq<Aspect>),
> {
    rows_from(ents, 0)
}

/// A row equals what was built up to `j` plus what remains from `j` on.
proof fn lemma_row_split(ents: Seq<(AspectEntity, u32)>, i: int, j: int)
    requires
        0 <= i,
        i + 1 <= j <= ents.len(),
    ensures
        row_from(ents, i, i + 1) == row_upto(ents, i, j) + row_from(ents, i, j),
    decreases j,
{
    if j == i + 1 {
        assert(row_upto(ents, i, j) + row_from(ents, i, j) =~= row_from(ents, i, i + 1));
    } else {
        lemma_row_split(ents, i, j - 1);
        assert(row_upto(ents, i, j - 1) + (opt_seq(pair_aspect(ents, i, j - 1)) + row_from(
            ents,
            i,
            j,
        )) =~= row_upto(ents, i, j) + row_from(ents, i, j));
    }
}

/// The result equals what was built up to `i` plus what remains from `i` on.
proof fn lemma_rows_split(ents: Seq<(AspectEntity, u32)>, i: int)
    requires
        0 <= i <= ents.len(),
    ensures
        rows_from(ents, 0) == rows_upto(ents, i) + rows_from(ents, i),
    decreases i,
{
    if i == 0 {
        assert(rows_upto(ents, 0) + rows_from(ents, 0) =~= rows_from(ents, 0));
    } else {
        lemma_rows_split(ents, i - 1);
        assert(rows_upto(ents, i - 1) + (entry_at(ents, i - 1) + rows_from(ents, i)) =~= rows_upto(
            ents,
            i,
        ) + rows_from(ents, i));
    }
}

/// Appending one element extends a type filter by that element exactly when
/// the element has the type.
proof fn lemma_filter_take_step(row: Seq<Aspect>, t: AspectType, j: int)
    requires
        0 <= j < row.len(),
    ensures
        filter_type(row.take(j + 1), t) == if row[j].aspect_type == t {
            filter_type(row.take(j), t).push(row[j])
        } else {
            filter_type(row.take(j), t)
        },
{
    reveal_with_fuel(Seq::filter, 2);
    assert(row.take(j + 1).drop_last() =~= row.take(j));
    assert(row.take(j + 1).last() == row[j]);
}

/// Filtering an empty prefix yields nothing.
proof fn lemma_filter_take_zero(row: Seq<Aspect>, t: AspectType)
    ensures
        filter_type(row.take(0), t) == Seq::<Aspect>::empty(),
{
    reveal_with_fuel(Seq::filter, 1);
    assert(row.take(0) =~= Seq::<Aspect>::empty());
}

/// Appends to `sorted` every aspect of `row` with type `t`, in scan order.
fn push_matching(sorted: &mut Vec<Aspect>, row: &Vec<Aspect>, t: AspectType)
    ensures
        final(sorted)@ == old(sorted)@ + filter_type(row@, t),
{
    let n = row.len();
    proof {
        lemma_filter_take_zero(row@, t);
        assert(sorted@ =~= sorted@ + filter_type(row@.take(0), t));
    }
    for j in 0..n
        invariant
            n == row@.len(),
            sorted@ == old(sorted)@ + filter_type(row@.take(j as int), t),
    {
        proof {
            lemma_filter_take_step(row@, t, j as int);
        }
        if row[j].aspect_type == t {
            sorted.push(row[j]);
            proof {
                assert(sorted@ =~= old(sorted)@ + filter_type(row@.take(j as int + 1), t));
            }
        }
    }
    proof {
        assert(row@.take(n as int) =~= row@);
    }
}

/// Reorders a row of aspects by ascending exact angle of their type, keeping
/// the scan order among aspects of the same type.
fn sort_aspects_by_angle(row: &Vec<Aspect>) -> (r: Vec<Aspect>)
    ensures
        r@ == sort_by_angle(row@),
{
    let mut sorted: Vec<Aspect> = Vec::new();
    push_matching(&mut sorted, row, AspectType::Conjunction);
    push_matching(&mut sorted, row, AspectType::SemiSextile);
    push_matching(&mut sorted, row, AspectType::SemiSquare);
    push_matching(&mut sorted, row, AspectType::Sextile);
    push_matching(&mut sorted, row, AspectType::Quintile);
    push_matching(&mut sorted, row, AspectType::Square);
    push_matching(&mut sorted, row, AspectType::Trine);
    push_matching(&mut sorted, row, AspectType::Sesquiquadrate);
    push_matching(&mut sorted, row, AspectType::Quincunx);
    push_matching(&mut sorted, row, AspectType::Opposition);
    proof {
        assert(sorted@ =~= sort_by_angle(row@));
    }
    sorted
}

/// The number of aspects over all result entries.
pub open spec fn total_aspects(rs: Seq<(AspectEntity, Seq<Aspect>)>) -> int
    decreases rs.len(),
{
    if rs.len() == 0 {
        0
    } else {
        rs[0].1.len() + total_aspects(rs.drop_first())
    }
}

/// Whatever type matches, the recorded aspect carries the pair's entities in
/// the order they were given.
proof fn lemma_check_pair_entities(sep: int, e1: AspectEntity, e2: AspectEntity, ts: Seq<
    AspectType,
>)
    ensures
        check_pair_from(sep, e1, e2, ts) matches Some(a) ==> a.entity1 == e1 && a.entity2 == e2,
    decreases ts.len(),
{
    if ts.len() > 0 {
        lemma_check_pair_entities(sep, e1, e2, ts.drop_first());
    }
}

/// Law (orientation and pair uniqueness): each unordered pair of scan entries
/// yields at most one aspect -- `pair_aspect` is a single `Option` -- and when
/// it yields one, `entity1` is the pair's earlier scan entry and `entity2` the
/// later one.
pub proof fn lemma_pair_aspect_orientation(ents: Seq<(AspectEntity, u32)>, i: int, j: int)
    requires
        0 <= i < ents.len(),
        0 <= j < ents.len(),
    ensures
        pair_aspect(ents, i, j) matches Some(a) ==> a.entity1 == ents[i].0 && a.entity2
            == ents[j].0,
{
    lemma_check_pair_entities(
        separation_spec(ents[i].1 as int, ents[j].1 as int),
        ents[i].0,
        ents[j].0,
        aspect_check_order(),
    );
}

/// Law (row orientation): every aspect in entity `i`'s row names `ents[i]`
/// as its first entity and some later scan entry as its second.
pub proof fn lemma_row_orientation(ents: Seq<(AspectEntity, u32)>, i: int, j: int)
    requires
        0 <= i < ents.len(),
        i + 1 <= j,
    ensures
        forall|m: int|
            0 <= m < row_from(ents, i, j).len() ==> (#[trigger] row_from(ents, i, j)[m]).entity1
                == ents[i].0,
        forall|m: int|
            0 <= m < row_from(ents, i, j).len() ==> exists|k: int|
                j <= k < ents.len() && (#[trigger] row_from(ents, i, j)[m]).entity2 == ents[k].0,
    decreases ents.len() - j,
{
    if j < ents.len() {
        lemma_row_orientation(ents, i, j + 1);
        lemma_pair_aspect_orientation(ents, i, j);
        let row = row_from(ents, i, j);
        let head = opt_seq(pair_aspect(ents, i, j));
        let rest = row_from(ents, i, j + 1);
        assert forall|m: int| 0 <= m < row.len() implies (#[trigger] row[m]).entity1 == ents[i].0
            && exists|k: int| j <= k < ents.len() && row[m].entity2 == ents[k].0 by {
            if m < head.len() {
                assert(row[m] == head[0]);
                assert(row[m].entity2 == ents[j].0);
            } else {
                assert(row[m] == rest[m - head.len()]);
                let k = choose|k: int|
                    j + 1 <= k < ents.len() && rest[m - head.len()].entity2 == ents[k].0;
                assert(j <= k < ents.len() && row[m].entity2 == ents[k].0);
            }
        }
    }
}

/// A row holds at most one aspect per later scan entry.
proof fn lemma_row_len(ents: Seq<(AspectEntity, u32)>, i: int, j: int)
    requires
        0 <= j,
    ensures
        row_from(ents, i, j).len() <= if j <= ents.len() {
            ents.len() - j
        } else {
            0int
        },
    decreases ents.len() - j,
{
    if j < ents.len() {
        lemma_row_len(ents, i, j + 1);
    }
}

/// Reordering by angle keeps every aspect: the sorted row has the row's
/// length.
proof fn lemma_sort_len_take(row: Seq<Aspect>, j: int)
    requires
        0 <= j <= row.len(),
    ensures
        sort_by_angle(row.take(j)).len() == j,
    decreases j,
{
    if j == 0 {
        lemma_filter_take_zero(row, AspectType::Conjunction);
        lemma_filter_take_zero(row, AspectType::SemiSextile);
        lemma_filter_take_zero(row, AspectType::SemiSquare);
        lemma_filter_take_zero(row, AspectType::Sextile);
        lemma_filter_take_zero(row, AspectType::Quintile);
        lemma_filter_take_zero(row, AspectType::Square);
        lemma_filter_take_zero(row, AspectType::Trine);
        lemma_filter_take_zero(row, AspectType::Sesquiquadrate);
        lemma_filter_take_zero(row, AspectType::Quincunx);
        lemma_filter_take_zero(row, AspectType::Opposition);
    } else {
        lemma_sort_len_take(row, j - 1);
        lemma_filter_take_step(row, AspectType::Conjunction, j - 1);
        lemma_filter_take_step(row, AspectType::SemiSextile, j - 1);
        lemma_filter_take_step(row, AspectType::SemiSquare, j - 1);
        lemma_filter_take_step(row, AspectType::Sextile, j - 1);
        lemma_filter_take_step(row, AspectType::Quintile, j - 1);
        lemma_filter_take_step(row, AspectType::Square, j - 1);
        lemma_filter_take_step(row, AspectType::Trine, j - 1);
        lemma_filter_take_step(row, AspectType::Sesquiquadrate, j - 1);
        lemma_filter_take_step(row, AspectType::Quincunx, j - 1);
        lemma_filter_take_step(row, AspectType::Opposition, j - 1);
    }
}

/// The sorted row keeps the row's length.
proof fn lemma_sort_len(row: Seq<Aspect>)
    ensures
        sort_by_angle(row).len() == row.len(),
{
    lemma_sort_len_take(row, row.len() as int);
    assert(row.take(row.len() as int) =~= row);
}

/// The entries from scan position `i` on carry at most one aspect per later
/// pair.
proof fn lemma_rows_count(ents: Seq<(AspectEntity, u32)>, i: int)
    requires
        0 <= i <= ents.len(),
    ensures
        total_aspects(rows_from(ents, i)) <= (ents.len() - i) * (ents.len() - i - 1) / 2,
    decreases ents.len() - i,
{
    let n = ents.len() as int;
    if i >= n {
        assert((n - i) * (n - i - 1) == 0) by (nonlinear_arith)
            requires
                i == n,
        ;
    } else {
        lemma_rows_count(ents, i + 1);
        let row = sort_by_angle(row_from(ents, i, i + 1));
        lemma_sort_len(row_from(ents, i, i + 1));
        lemma_row_len(ents, i, i + 1);
        assert(row.len() <= n - i - 1);
        let rest = rows_from(ents, i + 1);
        if row.len() > 0 {
            assert(rows_from(ents, i) =~= seq![(ents[i].0, row)] + rest);
            assert(rows_from(ents, i).drop_first() =~= rest);
            assert(total_aspects(rows_from(ents, i)) == row.len() + total_aspects(rest));
        } else {
            assert(rows_from(ents, i) =~= rest);
        }
        assert((n - i - 1) + (n - i - 1) * (n - i - 2) / 2 == (n - i) * (n - i - 1) / 2)
            by (nonlinear_arith)
            requires
                i < n,
        ;
    }
}

/// Law (aspect count): the scan over `n` entities records at most
/// `n * (n - 1) / 2` aspects in all -- at most one for each unordered pair.
pub proof fn lemma_aspect_count(ents: Seq<(AspectEntity, u32)>)
    ensures
        total_aspects(spec_calculate_aspects(ents)) <= ents.len() * (ents.len() - 1) / 2,
{
    lemma_rows_count(ents, 0);
}

/// Scans every unordered pair of chart entities and collects, for each entity
/// with at least one aspect, its aspects to later entities sorted by exact
/// angle.
pub fn calculate_aspects(chart: &Chart) -> (r: Vec<(AspectEntity, Vec<Aspect>)>)
    requires
        chart_longitudes_in_range(*chart),
    ensures
        r@.len() == spec_calculate_aspects(chart_entities(*chart)).len(),
        forall|k: int|
            0 <= k < r@.len() ==> r@[k].0 == spec_calculate_aspects(chart_entities(*chart))[k].0
                && r@[k].1@ == spec_calculate_aspects(chart_entities(*chart))[k].1,
{
    let ghost ents = chart_entities(*chart);
    let mut entities: Vec<(AspectEntity, u32)> = Vec::new();

    let np = chart.positions.len();
    for i in 0..np
        invariant
            np == chart.positions@.len(),
            ents == chart_entities(*chart),
            entities@.len() == i,
            forall|k: int| 0 <= k < i ==> entities@[k] == ents[k],
    {
        let p = &chart.positions[i];
        entities.push((AspectEntity::Body(p.body), p.longitude));
    }
    let na = chart.angles.len();
    for i in 0..na
        invariant
            np == chart.positions@.len(),
            na == chart.angles@.len(),
            ents == chart_entities(*chart),
            entities@.len() == np + i,
            forall|k: int| 0 <= k < np + i ==> entities@[k] == ents[k],
    {
        let a = &chart.angles[i];
        entities.push((AspectEntity::Angle(a.angle), a.longitude));
    }
    proof {
        assert(entities@ =~= ents);
        assert(forall|x: int| 0 <= x < ents.len() ==> ents[x].1 < FULL_CIRCLE);
    }

    let n = entities.len();
    let mut result: Vec<(AspectEntity, Vec<Aspect>)> = Vec::new();
    for i in 0..n
        invariant
            n == entities@.len(),
            entities@ == ents,
            forall|x: int| 0 <= x < ents.len() ==> ents[x].1 < FULL_CIRCLE,
            result@.len() == rows_upto(ents, i as int).len(),
            forall|k: int|
                0 <= k < result@.len() ==> result@[k].0 == rows_upto(ents, i as int)[k].0
                    && result@[k].1@ == rows_upto(ents, i as int)[k].1,
    {
        let (entity1, lon1) = entities[i];
        let mut aspects_for_entity: Vec<Aspect> = Vec::new();
        for j in (i + 1)..n
            invariant
                n == entities@.len(),
                entities@ == ents,
                forall|x: int| 0 <= x < ents.len() ==> ents[x].1 < FULL_CIRCLE,
                i < n,
                entity1 == ents[i as int].0,
                lon1 == ents[i as int].1,
                aspects_for_entity@ == row_upto(ents, i as int, j as int),
        {
            let (entity2, lon2) = entities[j];
            if let Some(aspect) = check_aspect(lon1, lon2, &entity1, &entity2) {
                aspects_for_entity.push(aspect);
            }
            proof {
                assert(aspects_for_entity@ =~= row_upto(ents, i as int, j as int) + opt_seq(
                    pair_aspect(ents, i as int, j as int),
                ));
            }
        }
        proof {
            lemma_row_split(ents, i as int, n as int);
            assert(row_upto(ents, i as int, n as int) + row_from(ents, i as int, n as int)
                =~= row_upto(ents, i as int, n as int));
            assert(aspects_for_entity@ == row_from(ents, i as int, i as int + 1));
        }
        let sorted = sort_aspects_by_angle(&aspects_for_entity);
        if sorted.len() > 0 {
            result.push((entity1, sorted));
        }
        proof {
            assert(rows_upto(ents, i as int + 1) =~= rows_upto(ents, i as int) + entry_at(
                ents,
                i as int,
            ));
        }
    }
    proof {
        lemma_rows_split(ents, n as int);
        assert(rows_upto(ents, n as int) + rows_from(ents, n as int) =~= rows_upto(
            ents,
            n as int,
        ));
    }
    result
}

} // verus!
