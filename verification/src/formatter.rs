//! Renders charts and their aspects as plain text, line by line.

use vstd::prelude::*;
use vstd::string::{StrSliceExecFns, StringExecFns};
use crate::angle::MICRO_PER_DEGREE;
use crate::aspects::{
    calculate_aspects, chart_entities, scan_entities, spec_calculate_aspects, Aspect, AspectEntity,
};
use crate::chart::{append_positions, copy_angles};
use crate::chart::{
    body_order, chart_longitudes_in_range, sign_of, spec_find_angle, spec_find_position,
    AnglePoint, AnglePosition, CelestialBody, Chart, HouseCusps, Position, SIGN_SPAN,
};
use crate::text::{dec_rep, u32_to_string};

verus! {

/// Whole degrees into its sign of a longitude in micro-degrees.
pub open spec fn spec_degree_in_sign(lon: int) -> int {
    (lon % (SIGN_SPAN as int)) / (MICRO_PER_DEGREE as int)
}

/// A position as printed: degree into sign, retrograde marks, sign name,
/// then the house label.
pub open spec fn spec_format_position(p: Position, suffix: Seq<char>) -> Seq<char> {
    dec_rep(spec_degree_in_sign(p.longitude as int)) + (if p.retrograde {
        "r"@
    } else {
        Seq::<char>::empty()
    }) + (if p.body == CelestialBody::TrueNode && p.retrograde {
        "d"@
    } else {
        Seq::<char>::empty()
    }) + " "@ + sign_of(p.longitude as int).spec_name() + " "@ + suffix + dec_rep(p.house as int)
}

/// A position as printed without its house.
pub open spec fn spec_format_position_short(p: Position) -> Seq<char> {
    dec_rep(spec_degree_in_sign(p.longitude as int)) + (if p.retrograde {
        "r"@
    } else {
        Seq::<char>::empty()
    }) + (if p.body == CelestialBody::TrueNode && p.retrograde {
        "d"@
    } else {
        Seq::<char>::empty()
    }) + " "@ + sign_of(p.longitude as int).spec_name()
}

/// One aspect as printed in a list: its word and its second entity.
pub open spec fn spec_aspect_clause(a: Aspect) -> Seq<char> {
    a.aspect_type.spec_symbol() + " "@ + a.entity2.spec_label()
}

/// The first `i` aspect clauses, comma-separated.
pub open spec fn spec_aspects_upto(s: Seq<Aspect>, i: int) -> Seq<char>
    decreases i,
{
    if i <= 1 {
        spec_aspect_clause(s[0])
    } else {
        spec_aspects_upto(s, i - 1) + ", "@ + spec_aspect_clause(s[i - 1])
    }
}

/// An aspect list as printed: clauses comma-separated, nothing when empty.
pub open spec fn spec_format_aspects(s: Seq<Aspect>) -> Seq<char> {
    if s.len() == 0 {
        Seq::empty()
    } else {
        spec_aspects_upto(s, s.len() as int)
    }
}

/// Prints a position with its house label appended to `label_suffix`.
pub fn format_position(pos: &Position, label_suffix: &str) -> (r: String)
    ensures
        r@ == spec_format_position(*pos, label_suffix@),
{
    let degree = pos.degree_in_sign() / (MICRO_PER_DEGREE as u32);
    let mut s = u32_to_string(degree);
    if pos.retrograde {
        s.append("r");
    }
    if matches!(pos.body, CelestialBody::TrueNode) && pos.retrograde {
        s.append("d");
    }
    s.append(" ");
    s.append(pos.sign().to_string());
    s.append(" ");
    s.append(label_suffix);
    let house = u32_to_string(pos.house as u32);
    s.append(house.as_str());
    s
}

/// Prints a position without its house.
pub fn format_position_short(pos: &Position) -> (r: String)
    ensures
        r@ == spec_format_position_short(*pos),
{
    let degree = pos.degree_in_sign() / (MICRO_PER_DEGREE as u32);
    let mut s = u32_to_string(degree);
    if pos.retrograde {
        s.append("r");
    }
    if matches!(pos.body, CelestialBody::TrueNode) && pos.retrograde {
        s.append("d");
    }
    s.append(" ");
    s.append(pos.sign().to_string());
    s
}

/// One aspect clause as a string.
fn aspect_clause(a: &Aspect) -> (r: String)
    ensures
        r@ == spec_aspect_clause(*a),
{
    let mut s = String::from_str(a.aspect_type.symbol());
    s.append(" ");
    let label = a.entity2.to_string();
    s.append(label.as_str());
    s
}

/// Prints an aspect list: clauses comma-separated, empty when there is none.
pub fn format_aspects(aspects: &Vec<Aspect>) -> (r: String)
    ensures
        r@ == spec_format_aspects(aspects@),
{
    if aspects.len() == 0 {
        return String::new();
    }
    let first = aspect_clause(&aspects[0]);
    let mut s = first;
    let n = aspects.len();
    for i in 1..n
        invariant
            n == aspects@.len(),
            1 <= n,
            s@ == spec_aspects_upto(aspects@, i as int),
    {
        s.append(", ");
        let clause = aspect_clause(&aspects[i]);
        s.append(clause.as_str());
    }
    s
}

impl Aspect {
    /// The characters of the aspect's description: its word, its second
    /// entity, and -- when the orb is under a degree -- the orb in tenths of
    /// a degree.
    pub open spec fn spec_description(self) -> Seq<char> {
        self.aspect_type.spec_symbol() + " "@ + self.entity2.spec_label() + " "@ + (if self.orb
            < MICRO_PER_DEGREE {
            "(exact "@ + dec_rep(self.orb as int / (MICRO_PER_DEGREE as int)) + "."@ + dec_rep(
                (self.orb as int % (MICRO_PER_DEGREE as int)) / 100_000,
            ) + "\u{b0})"@
        } else {
            Seq::<char>::empty()
        })
    }

    /// Describes the aspect, flagging near-exact orbs.
    pub fn description(&self) -> (r: String)
        ensures
            r@ == self.spec_description(),
    {
        let mut s = String::from_str(self.aspect_type.symbol());
        s.append(" ");
        let label = self.entity2.to_string();
        s.append(label.as_str());
        s.append(" ");
        if self.orb < (MICRO_PER_DEGREE as u32) {
            s.append("(exact ");
            let whole = u32_to_string(self.orb / (MICRO_PER_DEGREE as u32));
            s.append(whole.as_str());
            s.append(".");
            let tenths = u32_to_string((self.orb % (MICRO_PER_DEGREE as u32)) / 100_000);
            s.append(tenths.as_str());
            s.append("\u{b0})");
        }
        s
    }
}

/// The per-entity aspect lists with their inner vectors abstracted.
pub open spec fn deep_aspects(all: Seq<(AspectEntity, Vec<Aspect>)>) -> Seq<
    (AspectEntity, Seq<Aspect>),
> {
    Seq::new(all.len(), |i: int| (all[i].0, all[i].1@))
}

/// The aspect list recorded for an entity from index `i` on, empty if none.
pub open spec fn lookup_aspects_from(
    all: Seq<(AspectEntity, Seq<Aspect>)>,
    e: AspectEntity,
    i: int,
) -> Seq<Aspect>
    decreases all.len() - i,
{
    if i < 0 || i >= all.len() {
        Seq::empty()
    } else if all[i].0 == e {
        all[i].1
    } else {
        lookup_aspects_from(all, e, i + 1)
    }
}

/// The aspect list recorded for an entity, empty if none.
pub open spec fn spec_lookup_aspects(all: Seq<(AspectEntity, Seq<Aspect>)>, e: AspectEntity) -> Seq<
    Aspect,
> {
    lookup_aspects_from(all, e, 0)
}

/// Copies a list of aspects.
fn copy_aspects(src: &Vec<Aspect>) -> (r: Vec<Aspect>)
    ensures
        r@ == src@,
{
    let mut out: Vec<Aspect> = Vec::new();
    let n = src.len();
    for i in 0..n
        invariant
            n == src@.len(),
            out@ == src@.take(i as int),
    {
        out.push(src[i]);
        proof {
            assert(src@.take(i as int).push(src@[i as int]) =~= src@.take(i as int + 1));
        }
    }
    proof {
        assert(src@.take(n as int) =~= src@);
    }
    out
}

/// A scan that matched nothing before `w` lands on the entry at `w`.
proof fn lemma_lookup_skip(all: Seq<(AspectEntity, Seq<Aspect>)>, e: AspectEntity, i: int, w: int)
    requires
        0 <= i <= w < all.len(),
        forall|j: int| 0 <= j < w ==> all[j].0 != e,
        all[w].0 == e,
    ensures
        lookup_aspects_from(all, e, i) == all[w].1,
    decreases all.len() - i,
{
    if i < w {
        lemma_lookup_skip(all, e, i + 1, w);
    }
}

/// A scan over entries for other entities finds nothing.
proof fn lemma_lookup_none(all: Seq<(AspectEntity, Seq<Aspect>)>, e: AspectEntity, i: int)
    requires
        0 <= i,
        forall|j: int| 0 <= j < all.len() ==> all[j].0 != e,
    ensures
        lookup_aspects_from(all, e, i) == Seq::<Aspect>::empty(),
    decreases all.len() - i,
{
    if i < all.len() {
        lemma_lookup_none(all, e, i + 1);
    }
}

/// The aspects recorded for an entity in a scan result, empty if none.
fn find_entity_aspects(all: &Vec<(AspectEntity, Vec<Aspect>)>, entity: &AspectEntity) -> (r: Vec<
    Aspect,
>)
    ensures
        r@ == spec_lookup_aspects(deep_aspects(all@), *entity),
{
    let n = all.len();
    for i in 0..n
        invariant
            n == all@.len(),
            forall|j: int| 0 <= j < i ==> deep_aspects(all@)[j].0 != *entity,
    {
        if all[i].0 == *entity {
            proof {
                lemma_lookup_skip(deep_aspects(all@), *entity, 0, i as int);
            }
            return copy_aspects(&all[i].1);
        }
    }
    proof {
        lemma_lookup_none(deep_aspects(all@), *entity, 0);
    }
    Vec::new()
}

/// Lines joined by newlines; empty lines are kept.
pub open spec fn join_upto(lines: Seq<Seq<char>>, i: int) -> Seq<char>
    decreases i,
{
    if i <= 1 {
        lines[0]
    } else {
        join_upto(lines, i - 1) + "\n"@ + lines[i - 1]
    }
}

/// The text of a list of lines: newline-separated, empty for no lines.
pub open spec fn join_lines(lines: Seq<Seq<char>>) -> Seq<char> {
    if lines.len() == 0 {
        Seq::empty()
    } else {
        join_upto(lines, lines.len() as int)
    }
}

/// The lines' contents, with the strings abstracted.
pub open spec fn deep_lines(lines: Seq<String>) -> Seq<Seq<char>> {
    Seq::new(lines.len(), |i: int| lines[i]@)
}

/// A chart body's line: its name, its printed position, and its aspect list
/// if it has one.
pub open spec fn spec_body_line(p: Position, prefix: Seq<char>, aspects: Seq<Aspect>) -> Seq<
    char,
> {
    p.body.spec_name() + " "@ + spec_format_position(p, prefix) + (if aspects.len() == 0 {
        "."@
    } else {
        "; "@ + spec_format_aspects(aspects) + "."@
    })
}

/// A chart angle's line: its label, degree into sign, sign name, and its
/// aspect list if it has one.
pub open spec fn spec_angle_line(a: AnglePosition, aspects: Seq<Aspect>) -> Seq<char> {
    a.angle.spec_name() + " "@ + dec_rep(spec_degree_in_sign(a.longitude as int)) + " "@ + sign_of(
        a.longitude as int,
    ).spec_name() + (if aspects.len() == 0 {
        "."@
    } else {
        "; "@ + spec_format_aspects(aspects) + "."@
    })
}

/// The body lines of a chart, from display slot `i` on; bodies without a
/// recorded position are skipped.
pub open spec fn body_lines(
    chart: Chart,
    all: Seq<(AspectEntity, Seq<Aspect>)>,
    prefix: Seq<char>,
    i: int,
) -> Seq<Seq<char>>
    decreases 14 - i,
{
    if i < 0 || i >= 14 {
        Seq::empty()
    } else {
        let b = body_order()[i];
        let rest = body_lines(chart, all, prefix, i + 1);
        match spec_find_position(chart.positions@, b) {
            Some(p) => seq![
                spec_body_line(p, prefix, spec_lookup_aspects(all, AspectEntity::Body(b))),
            ] + rest,
            None => rest,
        }
    }
}

/// The two chart angles in display order.
pub open spec fn angle_point_order() -> Seq<AnglePoint> {
    seq![AnglePoint::Ascendant, AnglePoint::Midheaven]
}

/// The angle lines of a chart, from display slot `i` on; angles without a
/// recorded position are skipped.
pub open spec fn angle_lines(chart: Chart, all: Seq<(AspectEntity, Seq<Aspect>)>, i: int) -> Seq<
    Seq<char>,
>
    decreases 2 - i,
{
    if i < 0 || i >= 2 {
        Seq::empty()
    } else {
        let ap = angle_point_order()[i];
        let rest = angle_lines(chart, all, i + 1);
        match spec_find_angle(chart.angles@, ap) {
            Some(a) => seq![
                spec_angle_line(a, spec_lookup_aspects(all, AspectEntity::Angle(ap))),
            ] + rest,
            None => rest,
        }
    }
}

/// One opposite-house-pair cusp line.
pub open spec fn spec_house_pair_line(c: Seq<u32>, i: int) -> Seq<char> {
    "House "@ + dec_rep(i + 1) + "/"@ + dec_rep(i + 7) + " "@ + dec_rep(
        spec_degree_in_sign(c[i] as int),
    ) + " "@ + sign_of(c[i] as int).spec_name() + "/"@ + dec_rep(
        spec_degree_in_sign(c[i + 6] as int),
    ) + " "@ + sign_of(c[i + 6] as int).spec_name()
}

/// The six opposite-house-pair cusp lines, from pair `i` on.
pub open spec fn house_lines(c: Seq<u32>, i: int) -> Seq<Seq<char>>
    decreases 6 - i,
{
    if i < 0 || i >= 6 {
        Seq::empty()
    } else {
        seq![spec_house_pair_line(c, i)] + house_lines(c, i + 1)
    }
}

/// All lines of a single chart's rendering: bodies, angles, then the house
/// cusp section.
pub open spec fn chart_lines(
    chart: Chart,
    all: Seq<(AspectEntity, Seq<Aspect>)>,
    prefix: Seq<char>,
) -> Seq<Seq<char>> {
    body_lines(chart, all, prefix, 0) + angle_lines(chart, all, 0) + seq![
        Seq::<char>::empty(),
        "House #s > Degree > Signs Respective to House #s:"@,
        Seq::<char>::empty(),
    ] + house_lines(chart.houses.cusps@, 0)
}

/// A single chart's rendering, with its aspects computed from the chart
/// itself.
pub open spec fn spec_format_single_chart(chart: Chart, prefix: Seq<char>) -> Seq<char> {
    join_lines(chart_lines(chart, spec_calculate_aspects(chart_entities(chart)), prefix))
}

/// One body line as a string.
fn body_line_exec(pos: &Position, prefix: &str, aspects: &Vec<Aspect>) -> (r: String)
    ensures
        r@ == spec_body_line(*pos, prefix@, aspects@),
{
    let mut s = String::from_str(pos.body.to_string());
    s.append(" ");
    let fp = format_position(pos, prefix);
    s.append(fp.as_str());
    if aspects.len() == 0 {
        s.append(".");
    } else {
        s.append("; ");
        let fa = format_aspects(aspects);
        s.append(fa.as_str());
        s.append(".");
    }
    s
}

/// One angle line as a string.
fn angle_line_exec(a: &AnglePosition, aspects: &Vec<Aspect>) -> (r: String)
    ensures
        r@ == spec_angle_line(*a, aspects@),
{
    let mut s = String::from_str(a.angle.to_string());
    s.append(" ");
    let degree = u32_to_string(a.degree_in_sign() / (MICRO_PER_DEGREE as u32));
    s.append(degree.as_str());
    s.append(" ");
    s.append(a.sign().to_string());
    if aspects.len() == 0 {
        s.append(".");
    } else {
        s.append("; ");
        let fa = format_aspects(aspects);
        s.append(fa.as_str());
        s.append(".");
    }
    s
}

/// The body lines of a chart from display slot `i` on.
fn body_lines_exec(
    chart: &Chart,
    all: &Vec<(AspectEntity, Vec<Aspect>)>,
    prefix: &str,
    i: usize,
) -> (r: Vec<String>)
    requires
        i <= 14,
    ensures
        deep_lines(r@) == body_lines(*chart, deep_aspects(all@), prefix@, i as int),
    decreases 14 - i,
{
    let mut out: Vec<String> = Vec::new();
    if i >= 14 {
        proof {
            assert(deep_lines(out@) =~= body_lines(*chart, deep_aspects(all@), prefix@, i as int));
        }
        return out;
    }
    let bodies = CelestialBody::all();
    let b = bodies[i];
    if let Some(pos) = chart.get_position(b) {
        let entity = AspectEntity::Body(b);
        let aspects = find_entity_aspects(all, &entity);
        let line = body_line_exec(pos, prefix, &aspects);
        out.push(line);
    }
    let mut rest = body_lines_exec(chart, all, prefix, i + 1);
    out.append(&mut rest);
    proof {
        assert(deep_lines(out@) =~= body_lines(*chart, deep_aspects(all@), prefix@, i as int));
    }
    out
}

/// The angle lines of a chart from display slot `i` on.
fn angle_lines_exec(chart: &Chart, all: &Vec<(AspectEntity, Vec<Aspect>)>, i: usize) -> (r: Vec<
    String,
>)
    requires
        i <= 2,
    ensures
        deep_lines(r@) == angle_lines(*chart, deep_aspects(all@), i as int),
    decreases 2 - i,
{
    let mut out: Vec<String> = Vec::new();
    if i >= 2 {
        proof {
            assert(deep_lines(out@) =~= angle_lines(*chart, deep_aspects(all@), i as int));
        }
        return out;
    }
    let ap = if i == 0 {
        AnglePoint::Ascendant
    } else {
        AnglePoint::Midheaven
    };
    if let Some(a) = chart.get_angle(ap) {
        let entity = AspectEntity::Angle(ap);
        let aspects = find_entity_aspects(all, &entity);
        let line = angle_line_exec(a, &aspects);
        out.push(line);
    }
    let mut rest = angle_lines_exec(chart, all, i + 1);
    out.append(&mut rest);
    proof {
        assert(deep_lines(out@) =~= angle_lines(*chart, deep_aspects(all@), i as int));
    }
    out
}

/// One opposite-house-pair cusp line as a string.
fn house_pair_line_exec(houses: &HouseCusps, i: usize) -> (r: String)
    requires
        i < 6,
    ensures
        r@ == spec_house_pair_line(houses.cusps@, i as int),
{
    let cusp1 = houses.cusps[i];
    let cusp7 = houses.cusps[i + 6];
    let mut s = String::from_str("House ");
    let h1 = u32_to_string((i + 1) as u32);
    s.append(h1.as_str());
    s.append("/");
    let h7 = u32_to_string((i + 7) as u32);
    s.append(h7.as_str());
    s.append(" ");
    let d1 = u32_to_string((cusp1 % (SIGN_SPAN as u32)) / (MICRO_PER_DEGREE as u32));
    s.append(d1.as_str());
    s.append(" ");
    s.append(crate::chart::ZodiacSign::from_longitude(cusp1).to_string());
    s.append("/");
    let d7 = u32_to_string((cusp7 % (SIGN_SPAN as u32)) / (MICRO_PER_DEGREE as u32));
    s.append(d7.as_str());
    s.append(" ");
    s.append(crate::chart::ZodiacSign::from_longitude(cusp7).to_string());
    s
}

/// The opposite-house-pair cusp lines from pair `i` on.
fn house_lines_exec(houses: &HouseCusps, i: usize) -> (r: Vec<String>)
    requires
        i <= 6,
    ensures
        deep_lines(r@) == house_lines(houses.cusps@, i as int),
    decreases 6 - i,
{
    let mut out: Vec<String> = Vec::new();
    if i >= 6 {
        proof {
            assert(deep_lines(out@) =~= house_lines(houses.cusps@, i as int));
        }
        return out;
    }
    out.push(house_pair_line_exec(houses, i));
    let mut rest = house_lines_exec(houses, i + 1);
    out.append(&mut rest);
    proof {
        assert(deep_lines(out@) =~= house_lines(houses.cusps@, i as int));
    }
    out
}

/// Renders one chart: a line per recorded body and angle with its aspects,
/// then the house cusp section.
fn format_single_chart(chart: &Chart, house_prefix: &str, _label: Option<&str>) -> (r: String)
    requires
        chart_longitudes_in_range(*chart),
    ensures
        r@ == spec_format_single_chart(*chart, house_prefix@),
{
    let all_aspects = calculate_aspects(chart);
    proof {
        assert(deep_aspects(all_aspects@) =~= spec_calculate_aspects(chart_entities(*chart)));
    }
    let mut lines = body_lines_exec(chart, &all_aspects, house_prefix, 0);
    let mut rest = angle_lines_exec(chart, &all_aspects, 0);
    lines.append(&mut rest);
    lines.push(String::new());
    lines.push(String::from_str("House #s > Degree > Signs Respective to House #s:"));
    lines.push(String::new());
    let mut hl = house_lines_exec(&chart.houses, 0);
    lines.append(&mut hl);
    proof {
        assert(deep_lines(lines@) =~= chart_lines(
            *chart,
            deep_aspects(all_aspects@),
            house_prefix@,
        ));
    }
    join_lines_exec(&lines)
}

/// Renders a natal chart with plain `H` house labels.
pub fn format_natal_chart(chart: &Chart) -> (r: String)
    requires
        chart_longitudes_in_range(*chart),
    ensures
        r@ == spec_format_single_chart(*chart, "H"@),
{
    format_single_chart(chart, "H", None)
}

/// A transiting position's line: the body, its short position, the natal
/// house it falls in, and its aspect list if it has one.
pub open spec fn spec_transit_line(p: Position, aspects: Seq<Aspect>) -> Seq<char> {
    "Transiting "@ + p.body.spec_name() + " "@ + spec_format_position_short(p)
        + " (in natal house "@ + dec_rep(p.house as int) + ")"@ + (if aspects.len() == 0 {
        "."@
    } else {
        "; "@ + spec_format_aspects(aspects) + "."@
    })
}

/// The transit lines from position `i` on, each with the aspects recorded
/// for its body in the combined scan.
pub open spec fn transit_lines(
    transit: Chart,
    all: Seq<(AspectEntity, Seq<Aspect>)>,
    i: int,
) -> Seq<Seq<char>>
    decreases transit.positions@.len() - i,
{
    if i < 0 || i >= transit.positions@.len() {
        Seq::empty()
    } else {
        let p = transit.positions@[i];
        seq![spec_transit_line(p, spec_lookup_aspects(all, AspectEntity::Body(p.body)))]
            + transit_lines(transit, all, i + 1)
    }
}

/// A transit rendering: the natal chart, then one line per transiting
/// position, with aspects computed over the transiting and natal positions
/// together against the transit chart's angles.
pub open spec fn spec_format_transit_chart(natal: Chart, transit: Chart) -> Seq<char> {
    let all = spec_calculate_aspects(
        scan_entities(transit.positions@ + natal.positions@, transit.angles@),
    );
    join_lines(
        seq![
            "=== NATAL CHART ==="@,
            Seq::<char>::empty(),
            spec_format_single_chart(natal, "H"@),
            Seq::<char>::empty(),
            "=== TRANSITING POSITIONS ==="@,
            Seq::<char>::empty(),
        ] + transit_lines(transit, all, 0),
    )
}

/// One transit line as a string.
fn transit_line_exec(p: &Position, aspects: &Vec<Aspect>) -> (r: String)
    ensures
        r@ == spec_transit_line(*p, aspects@),
{
    let mut s = String::from_str("Transiting ");
    s.append(p.body.to_string());
    s.append(" ");
    let short = format_position_short(p);
    s.append(short.as_str());
    s.append(" (in natal house ");
    let house = u32_to_string(p.house as u32);
    s.append(house.as_str());
    s.append(")");
    if aspects.len() == 0 {
        s.append(".");
    } else {
        s.append("; ");
        let fa = format_aspects(aspects);
        s.append(fa.as_str());
        s.append(".");
    }
    s
}

/// The transit lines from position `i` on.
fn transit_lines_exec(transit: &Chart, all: &Vec<(AspectEntity, Vec<Aspect>)>, i: usize) -> (r:
    Vec<String>)
    requires
        i <= transit.positions@.len(),
    ensures
        deep_lines(r@) == transit_lines(*transit, deep_aspects(all@), i as int),
    decreases transit.positions@.len() - i,
{
    let mut out: Vec<String> = Vec::new();
    if i >= transit.positions.len() {
        proof {
            assert(deep_lines(out@) =~= transit_lines(*transit, deep_aspects(all@), i as int));
        }
        return out;
    }
    let p = transit.positions[i];
    let entity = AspectEntity::Body(p.body);
    let aspects = find_entity_aspects(all, &entity);
    out.push(transit_line_exec(&p, &aspects));
    let mut rest = transit_lines_exec(transit, all, i + 1);
    out.append(&mut rest);
    proof {
        assert(deep_lines(out@) =~= transit_lines(*transit, deep_aspects(all@), i as int));
    }
    out
}

/// Renders a transit chart against its natal chart: the natal rendering,
/// then each transiting position with the natal house it falls in and its
/// aspects to the natal positions.
pub fn format_transit_chart(natal: &Chart, transit: &Chart) -> (r: String)
    requires
        chart_longitudes_in_range(*natal),
        chart_longitudes_in_range(*transit),
    ensures
        r@ == spec_format_transit_chart(*natal, *transit),
{
    let mut lines: Vec<String> = Vec::new();
    lines.push(String::from_str("=== NATAL CHART ==="));
    lines.push(String::new());
    lines.push(format_single_chart(natal, "H", None));
    lines.push(String::new());
    lines.push(String::from_str("=== TRANSITING POSITIONS ==="));
    lines.push(String::new());

    let mut combined_positions: Vec<Position> = Vec::new();
    append_positions(&mut combined_positions, &transit.positions);
    append_positions(&mut combined_positions, &natal.positions);
    let combined = Chart {
        positions: combined_positions,
        angles: copy_angles(&transit.angles),
        houses: transit.houses,
        name: None,
        gender: None,
    };
    proof {
        assert(Seq::<Position>::empty() + transit.positions@ + natal.positions@
            =~= transit.positions@ + natal.positions@);
    }
    let all_aspects = calculate_aspects(&combined);
    proof {
        assert(deep_aspects(all_aspects@) =~= spec_calculate_aspects(
            scan_entities(transit.positions@ + natal.positions@, transit.angles@),
        ));
    }

    let mut tl = transit_lines_exec(transit, &all_aspects, 0);
    lines.append(&mut tl);
    proof {
        assert(deep_lines(lines@) =~= seq![
            "=== NATAL CHART ==="@,
            Seq::<char>::empty(),
            spec_format_single_chart(*natal, "H"@),
            Seq::<char>::empty(),
            "=== TRANSITING POSITIONS ==="@,
            Seq::<char>::empty(),
        ] + transit_lines(*transit, deep_aspects(all_aspects@), 0));
    }
    join_lines_exec(&lines)
}

/// What uppercasing produces for a given sequence of characters; the result
/// depends on the characters alone.
pub uninterp spec fn upper_of(s: Seq<char>) -> Seq<char>;

/// Relies on str::to_uppercase: the uppercase mapping of the characters,
/// depending on the characters alone.
#[verifier::external_body]
fn to_uppercase(s: &str) -> (r: String)
    ensures
        r@ == upper_of(s@),
{
    s.to_uppercase()
}

/// Whether an entity appears in a chart: a body with a position there, or an
/// angle recorded there.
pub open spec fn entity_in_chart(chart: Chart, e: AspectEntity) -> bool {
    match e {
        AspectEntity::Body(b) => exists|i: int|
            0 <= i < chart.positions@.len() && (#[trigger] chart.positions@[i]).body == b,
        AspectEntity::Angle(a) => exists|i: int|
            0 <= i < chart.angles@.len() && (#[trigger] chart.angles@[i]).angle == a,
    }
}

/// Decides whether an entity appears in a chart.
fn contains_entity(chart: &Chart, e: &AspectEntity) -> (r: bool)
    ensures
        r == entity_in_chart(*chart, *e),
{
    match e {
        AspectEntity::Body(b) => {
            let n = chart.positions.len();
            for i in 0..n
                invariant
                    n == chart.positions@.len(),
                    *e == AspectEntity::Body(*b),
                    forall|j: int| 0 <= j < i ==> (#[trigger] chart.positions@[j]).body != *b,
            {
                if chart.positions[i].body == *b {
                    proof {
                        assert((chart.positions@[i as int]).body == *b);
                    }
                    return true;
                }
            }
            false
        },
        AspectEntity::Angle(a) => {
            let n = chart.angles.len();
            for i in 0..n
                invariant
                    n == chart.angles@.len(),
                    *e == AspectEntity::Angle(*a),
                    forall|j: int| 0 <= j < i ==> (#[trigger] chart.angles@[j]).angle != *a,
            {
                if chart.angles[i].angle == *a {
                    proof {
                        assert((chart.angles@[i as int]).angle == *a);
                    }
                    return true;
                }
            }
            false
        },
    }
}

/// The aspects of a list whose second entity appears in the given chart, in
/// order.
pub open spec fn filter_to_chart(aspects: Seq<Aspect>, chart: Chart) -> Seq<Aspect> {
    aspects.filter(|a: Aspect| entity_in_chart(chart, a.entity2))
}

/// Appending one element extends the chart filter by it exactly when its
/// second entity appears in the chart.
proof fn lemma_filter_chart_take_step(aspects: Seq<Aspect>, chart: Chart, j: int)
    requires
        0 <= j < aspects.len(),
    ensures
        filter_to_chart(aspects.take(j + 1), chart) == if entity_in_chart(
            chart,
            aspects[j].entity2,
        ) {
            filter_to_chart(aspects.take(j), chart).push(aspects[j])
        } else {
            filter_to_chart(aspects.take(j), chart)
        },
{
    reveal_with_fuel(Seq::filter, 2);
    assert(aspects.take(j + 1).drop_last() =~= aspects.take(j));
    assert(aspects.take(j + 1).last() == aspects[j]);
}

/// Filtering an empty prefix yields nothing.
proof fn lemma_filter_chart_take_zero(aspects: Seq<Aspect>, chart: Chart)
    ensures
        filter_to_chart(aspects.take(0), chart) == Seq::<Aspect>::empty(),
{
    reveal_with_fuel(Seq::filter, 1);
    assert(aspects.take(0) =~= Seq::<Aspect>::empty());
}

/// Keeps the aspects whose second entity appears in the given chart.
fn filter_aspects_to_chart(aspects: &Vec<Aspect>, chart: &Chart) -> (r: Vec<Aspect>)
    ensures
        r@ == filter_to_chart(aspects@, *chart),
{
    let mut out: Vec<Aspect> = Vec::new();
    let n = aspects.len();
    proof {
        lemma_filter_chart_take_zero(aspects@, *chart);
    }
    for j in 0..n
        invariant
            n == aspects@.len(),
            out@ == filter_to_chart(aspects@.take(j as int), *chart),
    {
        proof {
            lemma_filter_chart_take_step(aspects@, *chart, j as int);
        }
        let entity = aspects[j].entity2;
        if contains_entity(chart, &entity) {
            out.push(aspects[j]);
        }
    }
    proof {
        assert(aspects@.take(n as int) =~= aspects@);
    }
    out
}

/// One synastry aspect clause: the aspect's word and the partner's entity.
pub open spec fn spec_synastry_clause(a: Aspect, label2: Seq<char>) -> Seq<char> {
    a.aspect_type.spec_symbol() + " "@ + label2 + "'s "@ + a.entity2.spec_label()
}

/// The first `i` synastry clauses, comma-separated.
pub open spec fn spec_synastry_clauses_upto(s: Seq<Aspect>, label2: Seq<char>, i: int) -> Seq<
    char,
>
    decreases i,
{
    if i <= 1 {
        spec_synastry_clause(s[0], label2)
    } else {
        spec_synastry_clauses_upto(s, label2, i - 1) + ", "@ + spec_synastry_clause(
            s[i - 1],
            label2,
        )
    }
}

/// A synastry clause list: comma-separated, nothing when empty.
pub open spec fn spec_synastry_clauses(s: Seq<Aspect>, label2: Seq<char>) -> Seq<char> {
    if s.len() == 0 {
        Seq::empty()
    } else {
        spec_synastry_clauses_upto(s, label2, s.len() as int)
    }
}

/// One synastry line: whose entity it is, and its aspects to the partner's
/// chart.
pub open spec fn spec_synastry_line(
    e: AspectEntity,
    inter: Seq<Aspect>,
    label1: Seq<char>,
    label2: Seq<char>,
) -> Seq<char> {
    label1 + "'s "@ + e.spec_label() + ": "@ + spec_synastry_clauses(inter, label2) + "."@
}

/// The synastry aspect lines from scan entry `i` on: one line per entity of
/// the first chart with at least one aspect into the second chart.
pub open spec fn synastry_aspect_lines(
    all: Seq<(AspectEntity, Seq<Aspect>)>,
    chart1: Chart,
    chart2: Chart,
    label1: Seq<char>,
    label2: Seq<char>,
    i: int,
) -> Seq<Seq<char>>
    decreases all.len() - i,
{
    if i < 0 || i >= all.len() {
        Seq::empty()
    } else {
        let e = all[i].0;
        let aspects = all[i].1;
        let inter = filter_to_chart(aspects, chart2);
        let rest = synastry_aspect_lines(all, chart1, chart2, label1, label2, i + 1);
        if aspects.len() > 0 && entity_in_chart(chart1, e) && inter.len() > 0 {
            seq![spec_synastry_line(e, inter, label1, label2)] + rest
        } else {
            rest
        }
    }
}

/// A synastry rendering: each chart against the partner's houses, then the
/// aspects across the two charts, computed over all positions and angles of
/// both.
pub open spec fn spec_format_synastry_chart(
    chart1: Chart,
    label1: Seq<char>,
    chart2: Chart,
    label2: Seq<char>,
) -> Seq<char> {
    let all = spec_calculate_aspects(
        scan_entities(chart1.positions@ + chart2.positions@, chart1.angles@ + chart2.angles@),
    );
    join_lines(
        seq![
            "=== "@ + upper_of(label1) + "'S CHART ==="@,
            Seq::<char>::empty(),
            spec_format_single_chart(chart1, "H"@ + label2),
            Seq::<char>::empty(),
            "=== "@ + upper_of(label2) + "'S CHART ==="@,
            Seq::<char>::empty(),
            spec_format_single_chart(chart2, "H"@ + label1),
            Seq::<char>::empty(),
            "=== SYNASTRY ASPECTS ==="@,
            Seq::<char>::empty(),
        ] + synastry_aspect_lines(all, chart1, chart2, label1, label2, 0),
    )
}

/// One synastry clause as a string.
fn synastry_clause_exec(a: &Aspect, label2: &str) -> (r: String)
    ensures
        r@ == spec_synastry_clause(*a, label2@),
{
    let mut s = String::from_str(a.aspect_type.symbol());
    s.append(" ");
    s.append(label2);
    s.append("'s ");
    let label = a.entity2.to_string();
    s.append(label.as_str());
    s
}

/// One synastry line as a string.
fn synastry_line_exec(e: &AspectEntity, inter: &Vec<Aspect>, label1: &str, label2: &str) -> (r:
    String)
    requires
        inter@.len() > 0,
    ensures
        r@ == spec_synastry_line(*e, inter@, label1@, label2@),
{
    let mut s = String::from_str(label1);
    s.append("'s ");
    let elabel = e.to_string();
    s.append(elabel.as_str());
    s.append(": ");
    let first = synastry_clause_exec(&inter[0], label2);
    s.append(first.as_str());
    let n = inter.len();
    for i in 1..n
        invariant
            n == inter@.len(),
            1 <= n,
            s@ == label1@ + "'s "@ + e.spec_label() + ": "@ + spec_synastry_clauses_upto(
                inter@,
                label2@,
                i as int,
            ),
    {
        s.append(", ");
        let clause = synastry_clause_exec(&inter[i], label2);
        s.append(clause.as_str());
    }
    s.append(".");
    s
}

/// The synastry aspect lines from scan entry `i` on.
fn synastry_lines_exec(
    all: &Vec<(AspectEntity, Vec<Aspect>)>,
    chart1: &Chart,
    chart2: &Chart,
    label1: &str,
    label2: &str,
    i: usize,
) -> (r: Vec<String>)
    requires
        i <= all@.len(),
    ensures
        deep_lines(r@) == synastry_aspect_lines(
            deep_aspects(all@),
            *chart1,
            *chart2,
            label1@,
            label2@,
            i as int,
        ),
    decreases all@.len() - i,
{
    let mut out: Vec<String> = Vec::new();
    if i >= all.len() {
        proof {
            assert(deep_lines(out@) =~= synastry_aspect_lines(
                deep_aspects(all@),
                *chart1,
                *chart2,
                label1@,
                label2@,
                i as int,
            ));
        }
        return out;
    }
    let entity = all[i].0;
    if all[i].1.len() > 0 && contains_entity(chart1, &entity) {
        let inter = filter_aspects_to_chart(&all[i].1, chart2);
        if inter.len() > 0 {
            out.push(synastry_line_exec(&entity, &inter, label1, label2));
        }
    }
    let mut rest = synastry_lines_exec(all, chart1, chart2, label1, label2, i + 1);
    out.append(&mut rest);
    proof {
        assert(deep_lines(out@) =~= synastry_aspect_lines(
            deep_aspects(all@),
            *chart1,
            *chart2,
            label1@,
            label2@,
            i as int,
        ));
    }
    out
}

/// Renders two charts for synastry: each chart with the partner's house
/// labels, the headers uppercased from the labels, then every aspect from an
/// entity of the first chart into the second chart.
pub fn format_synastry_chart(chart1: &Chart, label1: &str, chart2: &Chart, label2: &str) -> (r:
    String)
    requires
        chart_longitudes_in_range(*chart1),
        chart_longitudes_in_range(*chart2),
    ensures
        r@ == spec_format_synastry_chart(*chart1, label1@, *chart2, label2@),
{
    let mut lines: Vec<String> = Vec::new();

    let mut header1 = String::from_str("=== ");
    let upper1 = to_uppercase(label1);
    header1.append(upper1.as_str());
    header1.append("'S CHART ===");
    lines.push(header1);
    lines.push(String::new());
    let mut prefix1 = String::from_str("H");
    prefix1.append(label2);
    lines.push(format_single_chart(chart1, prefix1.as_str(), Some(label1)));
    lines.push(String::new());

    let mut header2 = String::from_str("=== ");
    let upper2 = to_uppercase(label2);
    header2.append(upper2.as_str());
    header2.append("'S CHART ===");
    lines.push(header2);
    lines.push(String::new());
    let mut prefix2 = String::from_str("H");
    prefix2.append(label1);
    lines.push(format_single_chart(chart2, prefix2.as_str(), Some(label2)));
    lines.push(String::new());

    lines.push(String::from_str("=== SYNASTRY ASPECTS ==="));
    lines.push(String::new());

    let mut combined_positions: Vec<Position> = Vec::new();
    append_positions(&mut combined_positions, &chart1.positions);
    append_positions(&mut combined_positions, &chart2.positions);
    let mut combined_angles = copy_angles(&chart1.angles);
    let mut more_angles = copy_angles(&chart2.angles);
    combined_angles.append(&mut more_angles);
    let combined = Chart {
        positions: combined_positions,
        angles: combined_angles,
        houses: chart1.houses,
        name: None,
        gender: None,
    };
    proof {
        assert(Seq::<Position>::empty() + chart1.positions@ + chart2.positions@
            =~= chart1.positions@ + chart2.positions@);
    }
    let all_aspects = calculate_aspects(&combined);
    proof {
        assert(deep_aspects(all_aspects@) =~= spec_calculate_aspects(
            scan_entities(
                chart1.positions@ + chart2.positions@,
                chart1.angles@ + chart2.angles@,
            ),
        ));
    }

    let mut sl = synastry_lines_exec(&all_aspects, chart1, chart2, label1, label2, 0);
    lines.append(&mut sl);
    proof {
        let all = deep_aspects(all_aspects@);
        assert(deep_lines(lines@) =~= seq![
            "=== "@ + upper_of(label1@) + "'S CHART ==="@,
            Seq::<char>::empty(),
            spec_format_single_chart(*chart1, "H"@ + label2@),
            Seq::<char>::empty(),
            "=== "@ + upper_of(label2@) + "'S CHART ==="@,
            Seq::<char>::empty(),
            spec_format_single_chart(*chart2, "H"@ + label1@),
            Seq::<char>::empty(),
            "=== SYNASTRY ASPECTS ==="@,
            Seq::<char>::empty(),
        ] + synastry_aspect_lines(all, *chart1, *chart2, label1@, label2@, 0));
    }
    join_lines_exec(&lines)
}

/// Joins lines with newlines.
fn join_lines_exec(lines: &Vec<String>) -> (r: String)
    ensures
        r@ == join_lines(deep_lines(lines@)),
{
    if lines.len() == 0 {
        return String::new();
    }
    let mut s = lines[0].clone();
    let n = lines.len();
    for i in 1..n
        invariant
            n == lines@.len(),
            1 <= n,
            s@ == join_upto(deep_lines(lines@), i as int),
    {
        s.append("\n");
        s.append(lines[i].as_str());
    }
    s
}

} // verus!
