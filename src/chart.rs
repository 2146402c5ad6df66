use vstd::prelude::*;
use crate::clock::{floor_i64, floor_to, tokyo_offset, tokyo_offset_at, Stamp, DAY_SECS, MAX_EPOCH_SECS};
use crate::table::{RowModel, Table};

verus! {

/// Width of a cumulative-energy bar: one half-hour sampling bucket.
pub const ENERGY_BUCKET_SECS: i64 = 1800;

/// Width of a power or current bar: one one-minute sampling bucket.
pub const MINUTE_BUCKET_SECS: i64 = 60;

/// Bound on the magnitude of a reading, in millionths.
pub const MAX_READING: i64 = 1_000_000_000_000_000_000;

/// Bound on the magnitude of a wall-clock reading, in local seconds.
pub const MAX_LOCAL_SECS: i64 = 300_000_000_000 + 86_400;

/// A series point: wall-clock time in local seconds, and a reading in millionths.
#[derive(Clone, Copy, Debug, PartialEq, Eq, Structural)]
pub struct Point {
    pub at: i64,
    pub value: i64,
}

/// A current point: R-phase reading and, where there is one, T-phase reading.
#[derive(Clone, Copy, Debug, PartialEq, Eq, Structural)]
pub struct PhasePoint {
    pub at: i64,
    pub r: i64,
    pub t: Option<i64>,
}

/// A filled rectangle `[x0, x1) x [y0, y1]`, in local seconds and millionths.
#[derive(Clone, Copy, Debug, PartialEq, Eq, Structural)]
pub struct Bar {
    pub x0: i64,
    pub x1: i64,
    pub y0: i64,
    pub y1: i64,
}

/// One chart panel: its axis ranges and the shapes drawn in it.
#[derive(Clone, Debug)]
pub struct Panel {
    /// Local midnight that opens the x axis.
    pub x_start: i64,
    /// Local midnight that closes the x axis.
    pub x_end: i64,
    pub y_low: i64,
    pub y_high: i64,
    /// Bars that stand on the zero line.
    pub bars: Vec<Bar>,
    /// Bars stacked on top of `bars` (the T phase of the current panel).
    pub upper_bars: Vec<Bar>,
    /// Points joined by a line and marked (the cumulative-energy panel).
    pub points: Vec<Point>,
}

/// The three panels of a chart, top to bottom.
#[derive(Clone, Debug)]
pub struct ChartPlan {
    pub energy: Panel,
    pub power: Panel,
    pub current: Panel,
}

/// The three panels of a chart.
#[derive(Clone, Copy, Debug, PartialEq, Eq, Structural)]
pub enum PanelKind {
    Energy,
    Power,
    Current,
}

/// Why a chart could not be drawn.
#[derive(Clone, Copy, Debug, PartialEq, Eq, Structural)]
pub enum ChartError {
    /// The panel's series has no point left after dropping missing values.
    NoData(PanelKind),
}

pub open spec fn local_ok(t: int) -> bool {
    -MAX_LOCAL_SECS <= t <= MAX_LOCAL_SECS
}

pub open spec fn reading_ok(v: int) -> bool {
    -MAX_READING < v < MAX_READING
}

impl Point {
    pub open spec fn wf(self) -> bool {
        local_ok(self.at as int) && reading_ok(self.value as int)
    }
}

impl PhasePoint {
    pub open spec fn wf(self) -> bool {
        local_ok(self.at as int) && reading_ok(self.r as int) && match self.t {
            Some(t) => reading_ok(t as int),
            None => true,
        }
    }

    /// Height of the stacked bar.
    pub open spec fn total(self) -> int {
        self.r + match self.t {
            Some(t) => t as int,
            None => 0,
        }
    }
}

pub open spec fn opt_reading_ok(v: Option<i64>) -> bool {
    match v {
        Some(x) => reading_ok(x as int),
        None => true,
    }
}

pub open spec fn row_ok(r: RowModel) -> bool {
    r.measured_at.wf() && opt_reading_ok(r.cumulative_kwh) && opt_reading_ok(r.instant_watt)
        && opt_reading_ok(r.instant_ampere_r) && opt_reading_ok(r.instant_ampere_t)
}

impl Table {
    /// Every timestamp lies in the handled range and every reading under `MAX_READING`.
    pub open spec fn wf(&self) -> bool {
        forall|i: int| 0 <= i < self.rows@.len() ==> row_ok(#[trigger] self.rows@[i]@)
    }
}

/// Wall-clock time, in Tokyo, of a moment.
pub open spec fn tokyo_local(s: Stamp) -> int {
    s.utc_secs + tokyo_offset(s.utc_secs as int)
}

/// The smallest of a non-empty sequence.
pub open spec fn min_of(s: Seq<int>) -> int
    decreases s.len(),
{
    if s.len() <= 1 {
        s[0]
    } else {
        let m = min_of(s.drop_last());
        if s.last() < m {
            s.last()
        } else {
            m
        }
    }
}

/// The largest of a non-empty sequence.
pub open spec fn max_of(s: Seq<int>) -> int
    decreases s.len(),
{
    if s.len() <= 1 {
        s[0]
    } else {
        let m = max_of(s.drop_last());
        if s.last() > m {
            s.last()
        } else {
            m
        }
    }
}

pub open spec fn ints(s: Seq<i64>) -> Seq<int> {
    s.map_values(|x: i64| x as int)
}

pub open spec fn ats(p: Seq<Point>) -> Seq<int> {
    p.map_values(|q: Point| q.at as int)
}

pub open spec fn values(p: Seq<Point>) -> Seq<int> {
    p.map_values(|q: Point| q.value as int)
}

pub open spec fn phase_ats(p: Seq<PhasePoint>) -> Seq<int> {
    p.map_values(|q: PhasePoint| q.at as int)
}

pub open spec fn totals(p: Seq<PhasePoint>) -> Seq<int> {
    p.map_values(|q: PhasePoint| q.total())
}

/// The x-axis range of a series: from the local midnight that opens the
/// earliest point's day to the local midnight that closes the latest one's.
pub open spec fn day_domain(ats: Seq<int>) -> (int, int) {
    (floor_to(min_of(ats), DAY_SECS as int), floor_to(max_of(ats), DAY_SECS as int) + DAY_SECS)
}

/// A bar of width `w` from the zero line up to the point's reading.
pub open spec fn bucket_bar(p: Point, w: int) -> Bar {
    Bar { x0: p.at, x1: (p.at + w) as i64, y0: 0, y1: p.value }
}

/// The R-phase bar of a current point.
pub open spec fn lower_bar(p: PhasePoint) -> Bar {
    Bar { x0: p.at, x1: (p.at + MINUTE_BUCKET_SECS) as i64, y0: 0, y1: p.r }
}

/// The T-phase bars of a current series: each stacked on its R-phase bar;
/// points without a T-phase reading have none.
pub open spec fn upper_bars(p: Seq<PhasePoint>) -> Seq<Bar>
    decreases p.len(),
{
    if p.len() == 0 {
        Seq::empty()
    } else {
        let prev = upper_bars(p.drop_last());
        let q = p.last();
        match q.t {
            Some(t) => prev.push(Bar { x0: q.at, x1: (q.at + MINUTE_BUCKET_SECS) as i64, y0: q.r, y1: (q.r + t) as i64 }),
            None => prev,
        }
    }
}

pub open spec fn min_with_zero(v: int) -> int {
    if v < 0 { v } else { 0 }
}

/// Smallest and largest of a non-empty list.
pub fn extremes(xs: &Vec<i64>) -> (r: (i64, i64))
    requires
        xs@.len() > 0,
    ensures
        r.0 == min_of(ints(xs@)),
        r.1 == max_of(ints(xs@)),
{
    let mut lo = xs[0];
    let mut hi = xs[0];
    let mut i: usize = 1;
    assert(ints(xs@).take(1).drop_last() =~= Seq::<int>::empty());
    while i < xs.len()
        invariant
            1 <= i <= xs@.len(),
            lo == min_of(ints(xs@).take(i as int)),
            hi == max_of(ints(xs@).take(i as int)),
        decreases xs@.len() - i,
    {
        assert(ints(xs@).take(i + 1).drop_last() =~= ints(xs@).take(i as int));
        let x = xs[i];
        if x < lo {
            lo = x;
        }
        if x > hi {
            hi = x;
        }
        i = i + 1;
    }
    assert(ints(xs@).take(xs@.len() as int) =~= ints(xs@));
    (lo, hi)
}

proof fn lemma_extremes_bounded(s: Seq<int>, lo: int, hi: int)
    requires
        s.len() > 0,
        forall|i: int| 0 <= i < s.len() ==> lo <= #[trigger] s[i] <= hi,
    ensures
        lo <= min_of(s) <= hi,
        lo <= max_of(s) <= hi,
    decreases s.len(),
{
    if s.len() > 1 {
        lemma_extremes_bounded(s.drop_last(), lo, hi);
    }
}

/// The x-axis range of a non-empty list of wall-clock times.
pub fn as_datetime_range(ats: &Vec<i64>) -> (r: (i64, i64))
    requires
        ats@.len() > 0,
        forall|i: int| 0 <= i < ats@.len() ==> local_ok(#[trigger] ats@[i] as int),
    ensures
        r.0 == day_domain(ints(ats@)).0,
        r.1 == day_domain(ints(ats@)).1,
{
    let (lo, hi) = extremes(ats);
    proof {
        lemma_extremes_bounded(ints(ats@), -MAX_LOCAL_SECS as int, MAX_LOCAL_SECS as int);
    }
    (floor_i64(lo, DAY_SECS), floor_i64(hi, DAY_SECS) + DAY_SECS)
}

pub open spec fn points_ok(p: Seq<Point>) -> bool {
    forall|i: int| 0 <= i < p.len() ==> (#[trigger] p[i]).wf()
}

pub open spec fn phase_points_ok(p: Seq<PhasePoint>) -> bool {
    forall|i: int| 0 <= i < p.len() ==> (#[trigger] p[i]).wf()
}

/// `pl` is the cumulative-energy panel of a non-empty series: half-hour bars,
/// a line with markers through the points, and the readings' own range.
pub open spec fn is_energy_panel(pl: Panel, p: Seq<Point>) -> bool {
    &&& pl.x_start == day_domain(ats(p)).0
    &&& pl.x_end == day_domain(ats(p)).1
    &&& pl.y_low == min_of(values(p))
    &&& pl.y_high == max_of(values(p))
    &&& pl.bars@ == Seq::new(p.len(), |i: int| bucket_bar(p[i], ENERGY_BUCKET_SECS as int))
    &&& pl.upper_bars@.len() == 0
    &&& pl.points@ == p
}

/// `pl` is the power panel of a non-empty series: one-minute bars, with the
/// value range taken down to zero where all readings are positive.
pub open spec fn is_power_panel(pl: Panel, p: Seq<Point>) -> bool {
    &&& pl.x_start == day_domain(ats(p)).0
    &&& pl.x_end == day_domain(ats(p)).1
    &&& pl.y_low == min_with_zero(min_of(values(p)))
    &&& pl.y_high == max_of(values(p))
    &&& pl.bars@ == Seq::new(p.len(), |i: int| bucket_bar(p[i], MINUTE_BUCKET_SECS as int))
    &&& pl.upper_bars@.len() == 0
    &&& pl.points@.len() == 0
}

/// `pl` is the current panel of a non-empty series: one-minute R-phase bars,
/// T-phase bars stacked on them, and the range of the stacked heights taken
/// down to zero.
pub open spec fn is_current_panel(pl: Panel, p: Seq<PhasePoint>) -> bool {
    &&& pl.x_start == day_domain(phase_ats(p)).0
    &&& pl.x_end == day_domain(phase_ats(p)).1
    &&& pl.y_low == min_with_zero(min_of(totals(p)))
    &&& pl.y_high == max_of(totals(p))
    &&& pl.bars@ == Seq::new(p.len(), |i: int| lower_bar(p[i]))
    &&& pl.upper_bars@ == upper_bars(p)
    &&& pl.points@.len() == 0
}

fn point_parts(p: &Vec<Point>) -> (r: (Vec<i64>, Vec<i64>))
    requires
        points_ok(p@),
    ensures
        r.0@.len() == p@.len(),
        r.1@.len() == p@.len(),
        ints(r.0@) == ats(p@),
        ints(r.1@) == values(p@),
        forall|i: int| 0 <= i < r.0@.len() ==> local_ok(#[trigger] r.0@[i] as int),
        forall|i: int| 0 <= i < r.1@.len() ==> reading_ok(#[trigger] r.1@[i] as int),
{
    let mut a: Vec<i64> = Vec::new();
    let mut v: Vec<i64> = Vec::new();
    let mut i: usize = 0;
    while i < p.len()
        invariant
            i <= p@.len(),
            points_ok(p@),
            a@.len() == i,
            v@.len() == i,
            forall|j: int| 0 <= j < i ==> #[trigger] a@[j] == p@[j].at,
            forall|j: int| 0 <= j < i ==> #[trigger] v@[j] == p@[j].value,
            forall|j: int| 0 <= j < i ==> local_ok(#[trigger] a@[j] as int),
            forall|j: int| 0 <= j < i ==> reading_ok(#[trigger] v@[j] as int),
        decreases p@.len() - i,
    {
        a.push(p[i].at);
        v.push(p[i].value);
        i = i + 1;
    }
    assert(ints(a@) =~= ats(p@));
    assert(ints(v@) =~= values(p@));
    (a, v)
}

fn bucket_bars(p: &Vec<Point>, w: i64) -> (r: Vec<Bar>)
    requires
        points_ok(p@),
        0 < w <= DAY_SECS,
    ensures
        r@ == Seq::new(p@.len(), |i: int| bucket_bar(p@[i], w as int)),
{
    let mut v: Vec<Bar> = Vec::new();
    let mut i: usize = 0;
    while i < p.len()
        invariant
            i <= p@.len(),
            points_ok(p@),
            0 < w <= DAY_SECS,
            v@.len() == i,
            forall|j: int| 0 <= j < i ==> #[trigger] v@[j] == bucket_bar(p@[j], w as int),
        decreases p@.len() - i,
    {
        let q = p[i];
        assert(q.wf());
        v.push(Bar { x0: q.at, x1: q.at + w, y0: 0, y1: q.value });
        i = i + 1;
    }
    assert(v@ =~= Seq::new(p@.len(), |i: int| bucket_bar(p@[i], w as int)));
    v
}

fn copy_points(p: &Vec<Point>) -> (r: Vec<Point>)
    ensures
        r@ == p@,
{
    let mut v: Vec<Point> = Vec::new();
    let mut i: usize = 0;
    while i < p.len()
        invariant
            i <= p@.len(),
            v@ == p@.take(i as int),
        decreases p@.len() - i,
    {
        assert(p@.take(i + 1) =~= p@.take(i as int).push(p@[i as int]));
        v.push(p[i]);
        i = i + 1;
    }
    assert(p@.take(p@.len() as int) =~= p@);
    v
}

/// Lays out the cumulative-energy panel of a series.
pub fn energy_panel(points: &Vec<Point>) -> (r: Result<Panel, ChartError>)
    requires
        points_ok(points@),
    ensures
        points@.len() == 0 ==> r == Err::<Panel, ChartError>(ChartError::NoData(PanelKind::Energy)),
        points@.len() > 0 ==> (r matches Ok(pl) && is_energy_panel(pl, points@)),
{
    if points.len() == 0 {
        return Err(ChartError::NoData(PanelKind::Energy));
    }
    let (a, v) = point_parts(points);
    let (x_start, x_end) = as_datetime_range(&a);
    let (y_low, y_high) = extremes(&v);
    let bars = bucket_bars(points, ENERGY_BUCKET_SECS);
    let pts = copy_points(points);
    Ok(Panel { x_start, x_end, y_low, y_high, bars, upper_bars: Vec::new(), points: pts })
}

/// Lays out the power panel of a series.
pub fn power_panel(points: &Vec<Point>) -> (r: Result<Panel, ChartError>)
    requires
        points_ok(points@),
    ensures
        points@.len() == 0 ==> r == Err::<Panel, ChartError>(ChartError::NoData(PanelKind::Power)),
        points@.len() > 0 ==> (r matches Ok(pl) && is_power_panel(pl, points@)),
{
    if points.len() == 0 {
        return Err(ChartError::NoData(PanelKind::Power));
    }
    let (a, v) = point_parts(points);
    let (x_start, x_end) = as_datetime_range(&a);
    let (lo, y_high) = extremes(&v);
    let y_low = if lo < 0 { lo } else { 0 };
    let bars = bucket_bars(points, MINUTE_BUCKET_SECS);
    Ok(Panel { x_start, x_end, y_low, y_high, bars, upper_bars: Vec::new(), points: Vec::new() })
}

fn phase_parts(p: &Vec<PhasePoint>) -> (r: (Vec<i64>, Vec<i64>))
    requires
        phase_points_ok(p@),
    ensures
        r.0@.len() == p@.len(),
        r.1@.len() == p@.len(),
        ints(r.0@) == phase_ats(p@),
        ints(r.1@) == totals(p@),
        forall|i: int| 0 <= i < r.0@.len() ==> local_ok(#[trigger] r.0@[i] as int),
{
    let mut a: Vec<i64> = Vec::new();
    let mut v: Vec<i64> = Vec::new();
    let mut i: usize = 0;
    while i < p.len()
        invariant
            i <= p@.len(),
            phase_points_ok(p@),
            a@.len() == i,
            v@.len() == i,
            forall|j: int| 0 <= j < i ==> #[trigger] a@[j] == p@[j].at,
            forall|j: int| 0 <= j < i ==> #[trigger] v@[j] == p@[j].total(),
            forall|j: int| 0 <= j < i ==> local_ok(#[trigger] a@[j] as int),
        decreases p@.len() - i,
    {
        let q = p[i];
        assert(q.wf());
        a.push(q.at);
        let total = match q.t {
            Some(t) => q.r + t,
            None => q.r,
        };
        v.push(total);
        i = i + 1;
    }
    assert(ints(a@) =~= phase_ats(p@));
    assert(ints(v@) =~= totals(p@));
    (a, v)
}

fn phase_bars(p: &Vec<PhasePoint>) -> (r: (Vec<Bar>, Vec<Bar>))
    requires
        phase_points_ok(p@),
    ensures
        r.0@ == Seq::new(p@.len(), |i: int| lower_bar(p@[i])),
        r.1@ == upper_bars(p@),
{
    let mut lower: Vec<Bar> = Vec::new();
    let mut upper: Vec<Bar> = Vec::new();
    let mut i: usize = 0;
    while i < p.len()
        invariant
            i <= p@.len(),
            phase_points_ok(p@),
            lower@.len() == i,
            forall|j: int| 0 <= j < i ==> #[trigger] lower@[j] == lower_bar(p@[j]),
            upper@ == upper_bars(p@.take(i as int)),
        decreases p@.len() - i,
    {
        let q = p[i];
        assert(q.wf());
        assert(p@.take(i + 1).drop_last() =~= p@.take(i as int));
        lower.push(Bar { x0: q.at, x1: q.at + MINUTE_BUCKET_SECS, y0: 0, y1: q.r });
        match q.t {
            Some(t) => {
                upper.push(Bar { x0: q.at, x1: q.at + MINUTE_BUCKET_SECS, y0: q.r, y1: q.r + t });
            },
            None => {},
        }
        i = i + 1;
    }
    assert(lower@ =~= Seq::new(p@.len(), |i: int| lower_bar(p@[i])));
    assert(p@.take(p@.len() as int) =~= p@);
    (lower, upper)
}

/// Lays out the current panel of a series.
pub fn current_panel(points: &Vec<PhasePoint>) -> (r: Result<Panel, ChartError>)
    requires
        phase_points_ok(points@),
    ensures
        points@.len() == 0 ==> r == Err::<Panel, ChartError>(ChartError::NoData(PanelKind::Current)),
        points@.len() > 0 ==> (r matches Ok(pl) && is_current_panel(pl, points@)),
{
    if points.len() == 0 {
        return Err(ChartError::NoData(PanelKind::Current));
    }
    let (a, v) = phase_parts(points);
    let (x_start, x_end) = as_datetime_range(&a);
    let (lo, y_high) = extremes(&v);
    let y_low = if lo < 0 { lo } else { 0 };
    let (bars, upper_bars) = phase_bars(points);
    Ok(Panel { x_start, x_end, y_low, y_high, bars, upper_bars, points: Vec::new() })
}

/// The reading of a row that a single-reading panel draws.
pub open spec fn reading_of(r: RowModel, k: PanelKind) -> Option<i64> {
    match k {
        PanelKind::Energy => r.cumulative_kwh,
        PanelKind::Power => r.instant_watt,
        PanelKind::Current => r.instant_ampere_r,
    }
}

/// The series of one reading: the rows that have it, in order, at their Tokyo
/// wall-clock time.
pub open spec fn reading_series(rows: Seq<RowModel>, k: PanelKind) -> Seq<Point>
    decreases rows.len(),
{
    if rows.len() == 0 {
        Seq::empty()
    } else {
        let prev = reading_series(rows.drop_last(), k);
        match reading_of(rows.last(), k) {
            Some(v) => prev.push(Point { at: tokyo_local(rows.last().measured_at) as i64, value: v }),
            None => prev,
        }
    }
}

/// The T-phase reading of the first row from `i` on that was measured at `utc` and has one.
pub open spec fn t_phase_from(rows: Seq<RowModel>, utc: i64, i: int) -> Option<i64>
    decreases rows.len() - i,
{
    if i < 0 || i >= rows.len() {
        None
    } else if rows[i].measured_at.utc_secs == utc && rows[i].instant_ampere_t is Some {
        rows[i].instant_ampere_t
    } else {
        t_phase_from(rows, utc, i + 1)
    }
}

/// The current series of a table: each row with an R-phase reading, in order,
/// joined on its timestamp with the T-phase reading measured at the same
/// moment (the first such), or with none.
pub open spec fn phase_series(all: Seq<RowModel>, rows: Seq<RowModel>) -> Seq<PhasePoint>
    decreases rows.len(),
{
    if rows.len() == 0 {
        Seq::empty()
    } else {
        let prev = phase_series(all, rows.drop_last());
        let q = rows.last();
        match q.instant_ampere_r {
            Some(r) => prev.push(
                PhasePoint {
                    at: tokyo_local(q.measured_at) as i64,
                    r,
                    t: t_phase_from(all, q.measured_at.utc_secs, 0),
                },
            ),
            None => prev,
        }
    }
}

fn local_of(s: Stamp) -> (r: i64)
    requires
        s.wf(),
    ensures
        r == tokyo_local(s),
        local_ok(r as int),
{
    s.utc_secs + tokyo_offset_at(s.utc_secs) as i64
}

fn pick(r: &crate::table::Row, k: PanelKind) -> (v: Option<i64>)
    ensures
        v == reading_of(r@, k),
{
    match k {
        PanelKind::Energy => r.cumulative_kwh,
        PanelKind::Power => r.instant_watt,
        PanelKind::Current => r.instant_ampere_r,
    }
}

fn reading_points(table: &Table, k: PanelKind) -> (r: Vec<Point>)
    requires
        table.wf(),
    ensures
        r@ == reading_series(table.model(), k),
        points_ok(r@),
{
    let ghost m = table.model();
    let mut v: Vec<Point> = Vec::new();
    let mut i: usize = 0;
    while i < table.rows.len()
        invariant
            i <= table.rows@.len(),
            table.wf(),
            m == table.model(),
            v@ == reading_series(m.take(i as int), k),
            points_ok(v@),
        decreases table.rows@.len() - i,
    {
        assert(m.take(i + 1).drop_last() =~= m.take(i as int));
        let row = &table.rows[i];
        assert(row_ok(table.rows@[i as int]@));
        match pick(row, k) {
            Some(x) => {
                let at = local_of(row.measured_at);
                v.push(Point { at, value: x });
            },
            None => {},
        }
        i = i + 1;
    }
    assert(m.take(m.len() as int) =~= m);
    v
}

/// The cumulative-energy series of a table.
pub fn get_cumlative_kwh(table: &Table) -> (r: Vec<Point>)
    requires
        table.wf(),
    ensures
        r@ == reading_series(table.model(), PanelKind::Energy),
        points_ok(r@),
{
    reading_points(table, PanelKind::Energy)
}

/// The power series of a table.
pub fn get_instant_watt(table: &Table) -> (r: Vec<Point>)
    requires
        table.wf(),
    ensures
        r@ == reading_series(table.model(), PanelKind::Power),
        points_ok(r@),
{
    reading_points(table, PanelKind::Power)
}

fn t_phase_at(table: &Table, utc: i64) -> (r: Option<i64>)
    requires
        table.wf(),
    ensures
        r == t_phase_from(table.model(), utc, 0),
        opt_reading_ok(r),
{
    let ghost m = table.model();
    let mut i: usize = 0;
    while i < table.rows.len()
        invariant
            i <= table.rows@.len(),
            table.wf(),
            m == table.model(),
            t_phase_from(m, utc, i as int) == t_phase_from(m, utc, 0),
        decreases table.rows@.len() - i,
    {
        let row = &table.rows[i];
        assert(row_ok(table.rows@[i as int]@));
        if row.measured_at.utc_secs == utc {
            match row.instant_ampere_t {
                Some(t) => {
                    return Some(t);
                },
                None => {},
            }
        }
        i = i + 1;
    }
    None
}

/// The current series of a table: R-phase points left-joined on their
/// timestamp with the T-phase readings.
pub fn get_instant_ampere(table: &Table) -> (r: Vec<PhasePoint>)
    requires
        table.wf(),
    ensures
        r@ == phase_series(table.model(), table.model()),
        phase_points_ok(r@),
{
    let ghost m = table.model();
    let mut v: Vec<PhasePoint> = Vec::new();
    let mut i: usize = 0;
    while i < table.rows.len()
        invariant
            i <= table.rows@.len(),
            table.wf(),
            m == table.model(),
            v@ == phase_series(m, m.take(i as int)),
            phase_points_ok(v@),
        decreases table.rows@.len() - i,
    {
        assert(m.take(i + 1).drop_last() =~= m.take(i as int));
        let row = &table.rows[i];
        assert(row_ok(table.rows@[i as int]@));
        match row.instant_ampere_r {
            Some(x) => {
                let at = local_of(row.measured_at);
                let t = t_phase_at(table, row.measured_at.utc_secs);
                v.push(PhasePoint { at, r: x, t });
            },
            None => {},
        }
        i = i + 1;
    }
    assert(m.take(m.len() as int) =~= m);
    v
}

/// Lays out the three panels of a chart of a table, top to bottom: cumulative
/// energy, power, current. Fails on the first panel whose series is empty.
pub fn plot(table: &Table) -> (r: Result<ChartPlan, ChartError>)
    requires
        table.wf(),
    ensures
        ({
            let e = reading_series(table.model(), PanelKind::Energy);
            let p = reading_series(table.model(), PanelKind::Power);
            let c = phase_series(table.model(), table.model());
            if e.len() == 0 {
                r == Err::<ChartPlan, ChartError>(ChartError::NoData(PanelKind::Energy))
            } else if p.len() == 0 {
                r == Err::<ChartPlan, ChartError>(ChartError::NoData(PanelKind::Power))
            } else if c.len() == 0 {
                r == Err::<ChartPlan, ChartError>(ChartError::NoData(PanelKind::Current))
            } else {
                r matches Ok(plan) && is_energy_panel(plan.energy, e) && is_power_panel(plan.power, p)
                    && is_current_panel(plan.current, c)
            }
        }),
{
    let e = get_cumlative_kwh(table);
    let energy = match energy_panel(&e) {
        Ok(pl) => pl,
        Err(x) => {
            return Err(x);
        },
    };
    let p = get_instant_watt(table);
    let power = match power_panel(&p) {
        Ok(pl) => pl,
        Err(x) => {
            return Err(x);
        },
    };
    let c = get_instant_ampere(table);
    let current = match current_panel(&c) {
        Ok(pl) => pl,
        Err(x) => {
            return Err(x);
        },
    };
    Ok(ChartPlan { energy, power, current })
}

/// The number of rows that have the reading that a panel draws.
pub open spec fn with_reading_count(rows: Seq<RowModel>, k: PanelKind) -> int
    decreases rows.len(),
{
    if rows.len() == 0 {
        0
    } else {
        with_reading_count(rows.drop_last(), k) + if reading_of(rows.last(), k) is Some {
            1int
        } else {
            0int
        }
    }
}

/// A series holds one point for each row that has its reading, and none for
/// a row where that reading is missing, whatever the row's other columns
/// hold; the current series counts the rows with an R-phase reading.
pub proof fn lemma_series_drops_missing(rows: Seq<RowModel>, all: Seq<RowModel>, k: PanelKind)
    ensures
        reading_series(rows, k).len() == with_reading_count(rows, k),
        phase_series(all, rows).len() == with_reading_count(rows, PanelKind::Current),
    decreases rows.len(),
{
    if rows.len() > 0 {
        lemma_series_drops_missing(rows.drop_last(), all, k);
    }
}

proof fn lemma_count_positive(rows: Seq<RowModel>, k: PanelKind, i: int)
    requires
        0 <= i < rows.len(),
        reading_of(rows[i], k) is Some,
    ensures
        with_reading_count(rows, k) > 0,
    decreases rows.len(),
{
    if i < rows.len() - 1 {
        assert(rows.drop_last()[i] == rows[i]);
        lemma_count_positive(rows.drop_last(), k, i);
    }
    lemma_count_nonneg(rows.drop_last(), k);
}

proof fn lemma_count_nonneg(rows: Seq<RowModel>, k: PanelKind)
    ensures
        with_reading_count(rows, k) >= 0,
    decreases rows.len(),
{
    if rows.len() > 0 {
        lemma_count_nonneg(rows.drop_last(), k);
    }
}

/// A table with a row that has the cumulative energy, the power and the
/// R-phase current gives all three panels: none of them lacks data.
pub proof fn lemma_populated_row_gives_every_panel(rows: Seq<RowModel>, i: int)
    requires
        0 <= i < rows.len(),
        rows[i].cumulative_kwh is Some,
        rows[i].instant_watt is Some,
        rows[i].instant_ampere_r is Some,
    ensures
        reading_series(rows, PanelKind::Energy).len() > 0,
        reading_series(rows, PanelKind::Power).len() > 0,
        phase_series(rows, rows).len() > 0,
{
    lemma_series_drops_missing(rows, rows, PanelKind::Energy);
    lemma_series_drops_missing(rows, rows, PanelKind::Power);
    lemma_count_positive(rows, PanelKind::Energy, i);
    lemma_count_positive(rows, PanelKind::Power, i);
    lemma_count_positive(rows, PanelKind::Current, i);
}

fn reading_in_range(v: Option<i64>) -> (r: bool)
    ensures
        r == opt_reading_ok(v),
{
    match v {
        Some(x) => -MAX_READING < x && x < MAX_READING,
        None => true,
    }
}

impl Table {
    /// Whether every timestamp lies in the handled range and every reading
    /// under `MAX_READING`, as charting asks.
    pub fn is_well_formed(&self) -> (r: bool)
        ensures
            r == self.wf(),
    {
        let mut i: usize = 0;
        while i < self.rows.len()
            invariant
                i <= self.rows@.len(),
                forall|j: int| 0 <= j < i ==> row_ok(#[trigger] self.rows@[j]@),
            decreases self.rows@.len() - i,
        {
            let row = &self.rows[i];
            let s = row.measured_at;
            let ok = -MAX_EPOCH_SECS <= s.utc_secs && s.utc_secs <= MAX_EPOCH_SECS
                && -DAY_SECS < s.offset_secs as i64 && (s.offset_secs as i64) < DAY_SECS
                && reading_in_range(row.cumulative_kwh) && reading_in_range(row.instant_watt)
                && reading_in_range(row.instant_ampere_r) && reading_in_range(row.instant_ampere_t);
            if !ok {
                assert(!row_ok(self.rows@[i as int]@));
                return false;
            }
            i = i + 1;
        }
        true
    }
}

} // verus!
