use vstd::prelude::*;
use vstd::string::StringExecFns;
use crate::clock::{
    floor_i64, floor_to, format_minute_label, minute_label_text, offset_ok, secs_ok, tokyo_offset,
    tokyo_offset_at, DAY_SECS,
};

verus! {

/// One local calendar day, `[start, start + 1 day)`, fetched as a unit.
#[derive(Clone, Copy, Debug, PartialEq, Eq, Structural)]
pub struct Window {
    /// The local midnight that opens the window, as seconds since the epoch.
    pub start_utc: i64,
    /// The local zone's offset from UTC, in seconds.
    pub offset_secs: i32,
}

/// Local midnight (as a UTC moment) of the day on which `t` falls, in the offset `off`.
pub open spec fn day_floor(t: int, off: int) -> int {
    floor_to(t + off, DAY_SECS as int) - off
}

/// The windows that cover the local days from the one holding `first` to the
/// one holding `last`, in order.
pub open spec fn planned(first: int, last: int, off: int) -> Seq<Window> {
    let s = day_floor(first, off);
    let e = day_floor(last, off) + DAY_SECS;
    let n = if e > s { (e - s) / DAY_SECS as int } else { 0 };
    Seq::new(n as nat, |i: int| Window { start_utc: (s + i * DAY_SECS) as i64, offset_secs: off as i32 })
}

impl Window {
    pub open spec fn wf(self) -> bool {
        offset_ok(self.offset_secs as int) && secs_ok(self.start_utc as int)
    }

    pub open spec fn end(self) -> int {
        self.start_utc + DAY_SECS
    }

    /// Wall-clock reading, in local seconds, at which the window opens.
    pub open spec fn local_start(self) -> int {
        self.start_utc + self.offset_secs
    }

    /// Bounds, both inclusive, of the store's timestamps that fall in the window.
    pub fn query_range(&self) -> (r: (i64, i64))
        requires
            self.wf(),
        ensures
            r.0 == self.start_utc,
            r.1 == self.end() - 1,
    {
        (self.start_utc, self.start_utc + (DAY_SECS - 1))
    }

    /// Name of the file that holds the window's table: the opening minute,
    /// `to`, the closing minute of the day, and the suffix `.csv`.
    pub fn file_name(&self) -> (r: String)
        requires
            self.wf(),
        ensures
            r@ == minute_label_text(self.local_start()) + "to2359.csv"@,
    {
        let mut s = format_minute_label(self.start_utc + self.offset_secs as i64);
        s.append("to2359.csv");
        s
    }
}

/// The local-day range `[start, end)`, as UTC moments, that covers `first`
/// to `last` in the offset `offset`: `start` is the midnight that opens the
/// first one's day, `end` the midnight that follows the last one's day.
pub fn day_range(first_utc: i64, last_utc: i64, offset: i32) -> (r: (i64, i64))
    requires
        secs_ok(first_utc as int),
        secs_ok(last_utc as int),
        offset_ok(offset as int),
    ensures
        r.0 == day_floor(first_utc as int, offset as int),
        r.1 == day_floor(last_utc as int, offset as int) + DAY_SECS,
{
    let s = floor_i64(first_utc + offset as i64, DAY_SECS) - offset as i64;
    let e = floor_i64(last_utc + offset as i64, DAY_SECS) - offset as i64 + DAY_SECS;
    (s, e)
}

/// The day range of `day_range` in Tokyo time, taking the zone's offset at `first`.
pub fn jst_datetime_range(first_utc: i64, last_utc: i64) -> (r: (i64, i64, i32))
    requires
        secs_ok(first_utc as int),
        secs_ok(last_utc as int),
    ensures
        r.2 == tokyo_offset(first_utc as int),
        offset_ok(r.2 as int),
        r.0 == day_floor(first_utc as int, r.2 as int),
        r.1 == day_floor(last_utc as int, r.2 as int) + DAY_SECS,
{
    let off = tokyo_offset_at(first_utc);
    let (s, e) = day_range(first_utc, last_utc, off);
    (s, e, off)
}

/// One window for each day of a day range, in order.
pub fn dailies(start: i64, end: i64, offset: i32) -> (r: Vec<Window>)
    requires
        -crate::clock::MAX_EPOCH_SECS - DAY_SECS <= start <= crate::clock::MAX_EPOCH_SECS + DAY_SECS,
        -crate::clock::MAX_EPOCH_SECS - DAY_SECS <= end <= crate::clock::MAX_EPOCH_SECS + 2 * DAY_SECS,
    ensures
        r@.len() == if end > start { (end - start + DAY_SECS - 1) / DAY_SECS as int } else { 0 },
        forall|i: int| 0 <= i < r@.len() ==> #[trigger] r@[i] == (Window {
            start_utc: (start + i * DAY_SECS) as i64,
            offset_secs: offset,
        }),
{
    let mut v: Vec<Window> = Vec::new();
    let mut dt = start;
    while dt < end
        invariant
            -crate::clock::MAX_EPOCH_SECS - DAY_SECS <= start <= dt,
            dt <= crate::clock::MAX_EPOCH_SECS + 3 * DAY_SECS,
            end <= crate::clock::MAX_EPOCH_SECS + 2 * DAY_SECS,
            dt == start + v@.len() * DAY_SECS,
            dt < end + DAY_SECS || v@.len() == 0,
            forall|i: int| 0 <= i < v@.len() ==> #[trigger] v@[i] == (Window {
                start_utc: (start + i * DAY_SECS) as i64,
                offset_secs: offset,
            }),
        decreases end + DAY_SECS - dt,
    {
        v.push(Window { start_utc: dt, offset_secs: offset });
        dt = dt + DAY_SECS;
    }
    assert(v@.len() == if end > start { (end - start + DAY_SECS - 1) / DAY_SECS as int } else { 0 }) by (nonlinear_arith)
        requires
            dt == start + v@.len() * DAY_SECS,
            dt >= end,
            dt < end + DAY_SECS || v@.len() == 0,
            DAY_SECS == 86400,
    ;
    v
}

/// The windows to fetch for records stored from `first_utc` to `last_utc`,
/// one per Tokyo calendar day.
pub fn plan_windows(first_utc: i64, last_utc: i64) -> (r: Vec<Window>)
    requires
        secs_ok(first_utc as int),
        secs_ok(last_utc as int),
    ensures
        r@ == planned(first_utc as int, last_utc as int, tokyo_offset(first_utc as int)),
{
    let (s, e, off) = jst_datetime_range(first_utc, last_utc);
    let v = dailies(s, e, off);
    proof {
        lemma_day_floor_aligned(first_utc as int, last_utc as int, off as int);
    }
    assert(v@ =~= planned(first_utc as int, last_utc as int, off as int));
    v
}

proof fn lemma_day_floor_aligned(first: int, last: int, off: int)
    ensures
        (day_floor(last, off) + DAY_SECS - day_floor(first, off)) % (DAY_SECS as int) == 0,
{
    let a = first + off;
    let b = last + off;
    assert(floor_to(a, 86400) % 86400 == 0) by {
        vstd::arithmetic::div_mod::lemma_fundamental_div_mod(a, 86400);
        vstd::arithmetic::div_mod::lemma_mod_multiples_basic(a / 86400, 86400);
    }
    assert(floor_to(b, 86400) % 86400 == 0) by {
        vstd::arithmetic::div_mod::lemma_fundamental_div_mod(b, 86400);
        vstd::arithmetic::div_mod::lemma_mod_multiples_basic(b / 86400, 86400);
    }
    vstd::arithmetic::div_mod::lemma_fundamental_div_mod(floor_to(a, 86400), 86400);
    vstd::arithmetic::div_mod::lemma_fundamental_div_mod(floor_to(b, 86400), 86400);
    let q = floor_to(b, 86400) / 86400 + 1 - floor_to(a, 86400) / 86400;
    assert(day_floor(last, off) + DAY_SECS - day_floor(first, off) == q * 86400);
    vstd::arithmetic::div_mod::lemma_mod_multiples_basic(q, 86400);
}

/// The plan depends on the first and last timestamps alone, so planning
/// again gives the same windows; it opens at the midnight of the first
/// timestamp's day, closes at the midnight after the last one's, holds at
/// least one window when `first <= last`, and each window lasts exactly one
/// day and opens where the one before it closes.
pub proof fn lemma_windows_tile_days(first: int, last: int, off: int)
    requires
        secs_ok(first),
        secs_ok(last),
        offset_ok(off),
    ensures
        planned(first, last, off) == planned(first, last, off),
        first <= last ==> planned(first, last, off).len() >= 1,
        planned(first, last, off).len() >= 1 ==> planned(first, last, off)[0].start_utc == day_floor(first, off),
        planned(first, last, off).len() >= 1 ==> planned(first, last, off).last().end() == day_floor(last, off) + DAY_SECS,
        forall|i: int|
            0 <= i < planned(first, last, off).len() - 1 ==> (#[trigger] planned(first, last, off)[i]).end()
                == planned(first, last, off)[i + 1].start_utc,
{
    let s = day_floor(first, off);
    let e = day_floor(last, off) + DAY_SECS;
    lemma_day_floor_aligned(first, last, off);
    if first <= last {
        assert(floor_to(first + off, 86400) <= floor_to(last + off, 86400)) by {
            vstd::arithmetic::div_mod::lemma_fundamental_div_mod(first + off, 86400);
            vstd::arithmetic::div_mod::lemma_fundamental_div_mod(last + off, 86400);
            vstd::arithmetic::div_mod::lemma_div_is_ordered(first + off, last + off, 86400);
            vstd::arithmetic::mul::lemma_mul_inequality(
                (first + off) / 86400,
                (last + off) / 86400,
                86400,
            );
        }
        assert(e > s);
        assert((e - s) / 86400 >= 1) by {
            vstd::arithmetic::div_mod::lemma_div_is_ordered(86400, e - s, 86400);
        }
    }
    vstd::arithmetic::div_mod::lemma_fundamental_div_mod(first + off, 86400);
    vstd::arithmetic::div_mod::lemma_fundamental_div_mod(last + off, 86400);
    let n = if e > s { (e - s) / 86400 } else { 0 };
    if e > s {
        assert(e - s == n * 86400) by {
            vstd::arithmetic::div_mod::lemma_fundamental_div_mod(e - s, 86400);
        }
    }
    assert forall|i: int| 0 <= i <= n implies s <= #[trigger] (s + i * 86400) <= s + n * 86400 by {
        vstd::arithmetic::mul::lemma_mul_inequality(i, n, 86400);
        vstd::arithmetic::mul::lemma_mul_nonnegative(i, 86400);
    }
    if n >= 1 {
        assert(s + (n - 1) * 86400 + 86400 == s + n * 86400) by (nonlinear_arith);
        assert forall|i: int| 0 <= i < n - 1 implies s + i * 86400 + 86400 == #[trigger] (s + (i + 1) * 86400) by {
            assert(s + i * 86400 + 86400 == s + (i + 1) * 86400) by (nonlinear_arith);
        }
    }
}

} // verus!
