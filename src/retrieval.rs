use vstd::prelude::*;
use crate::record::Record;
use crate::table::{build_model, time_sequential_dataframe, Built, BuildErrorModel, TableBuildError};

verus! {

/// Shortest pause between two window fetches, in milliseconds.
pub const MIN_DELAY_MILLIS: u64 = 10;

/// Longest pause between two window fetches, in milliseconds.
pub const MAX_DELAY_MILLIS: u64 = 10_000;

/// The pause that a throttle setting asks for: the throttle is clamped to
/// `[0, 100]`, each point of it takes 100 ms off the longest pause, and the
/// result never falls below the shortest pause.
pub open spec fn delay_for(throttle: int) -> int {
    let t = if throttle < 0 { 0 } else if throttle > 100 { 100 } else { throttle };
    let d = 100 * (100 - t);
    if d < MIN_DELAY_MILLIS { MIN_DELAY_MILLIS as int } else { d }
}

/// Pause in milliseconds to wait after a fetched window, for a throttle in
/// `[0, 100]` (higher is faster; values outside are clamped).
pub fn delay_millis(throttle: i32) -> (r: u64)
    ensures
        r == delay_for(throttle as int),
        MIN_DELAY_MILLIS <= r <= MAX_DELAY_MILLIS,
{
    let t: i32 = if throttle < 0 {
        0
    } else if throttle > 100 {
        100
    } else {
        throttle
    };
    let d: u64 = 100 * (100 - t) as u64;
    if d < MIN_DELAY_MILLIS {
        MIN_DELAY_MILLIS
    } else {
        d
    }
}

/// The pause never grows as the throttle rises.
pub proof fn lemma_delay_non_increasing(a: int, b: int)
    requires
        a <= b,
    ensures
        delay_for(b) <= delay_for(a),
{
}

/// Where a retrieval run stands: the next window to consider and the
/// number of windows fetched so far.
#[derive(Clone, Copy, Debug, PartialEq, Eq, Structural)]
pub struct RunState {
    pub next: usize,
    pub laps: i32,
}

/// What a retrieval run does with the window at `next`.
#[derive(Clone, Copy, Debug, PartialEq, Eq, Structural)]
pub enum Step {
    /// Every window has been considered.
    Finished,
    /// The lap limit is reached; this many windows were left unfetched.
    LapLimitReached { remaining: usize },
    /// The window's output already exists and is not to be overwritten.
    SkipExisting,
    /// Fetch the window, write its table, then pause.
    Fetch,
}

impl RunState {
    /// The state at the start of a run.
    pub fn start() -> (r: RunState)
        ensures
            r == (RunState { next: 0, laps: 0 }),
    {
        RunState { next: 0, laps: 0 }
    }

    /// The step for the window at `next`, out of `n_windows`: the lap limit is
    /// checked first, then whether the window's output exists.
    pub fn decide(&self, n_windows: usize, lap_limit: i32, output_exists: bool, overwrite: bool) -> (r: Step)
        ensures
            r == step_for(self.next as int, self.laps as int, n_windows as int, lap_limit as int, output_exists, overwrite),
    {
        if self.next >= n_windows {
            Step::Finished
        } else if self.laps >= lap_limit {
            Step::LapLimitReached { remaining: n_windows - self.next }
        } else if output_exists && !overwrite {
            Step::SkipExisting
        } else {
            Step::Fetch
        }
    }

    /// The state after carrying out `step` on the window at `next`: a skipped
    /// window moves on, a fetched one also counts a lap; the run stops otherwise.
    pub fn advance(&self, step: Step) -> (r: RunState)
        requires
            step is SkipExisting ==> self.next < usize::MAX,
            step is Fetch ==> self.next < usize::MAX && self.laps < i32::MAX,
        ensures
            r == after_step(*self, step),
    {
        match step {
            Step::SkipExisting => RunState { next: self.next + 1, laps: self.laps },
            Step::Fetch => RunState { next: self.next + 1, laps: self.laps + 1 },
            _ => *self,
        }
    }
}

pub open spec fn step_for(next: int, laps: int, n: int, limit: int, exists: bool, overwrite: bool) -> Step {
    if next >= n {
        Step::Finished
    } else if laps >= limit {
        Step::LapLimitReached { remaining: (n - next) as usize }
    } else if exists && !overwrite {
        Step::SkipExisting
    } else {
        Step::Fetch
    }
}

pub open spec fn after_step(s: RunState, step: Step) -> RunState {
    match step {
        Step::SkipExisting => RunState { next: (s.next + 1) as usize, laps: s.laps },
        Step::Fetch => RunState { next: (s.next + 1) as usize, laps: (s.laps + 1) as i32 },
        _ => s,
    }
}

/// The windows that a run fetches from window `next` on, taking at each
/// window the step that `RunState::decide` takes, given which windows'
/// outputs exist before the run.
pub open spec fn run_fetches(next: int, laps: int, n: int, limit: int, exists: Seq<bool>, overwrite: bool) -> Seq<int>
    decreases n - next,
{
    if next < 0 || next >= n {
        Seq::empty()
    } else {
        match step_for(next, laps, n, limit, exists[next], overwrite) {
            Step::SkipExisting => run_fetches(next + 1, laps, n, limit, exists, overwrite),
            Step::Fetch => seq![next].add(run_fetches(next + 1, laps + 1, n, limit, exists, overwrite)),
            _ => Seq::empty(),
        }
    }
}

/// A run without overwrite never fetches a window whose output already
/// exists. So a second run, where every window that the first one wrote
/// exists, fetches none of them again and leaves their files as they were.
pub proof fn lemma_rerun_fetches_nothing_written(
    next: int,
    laps: int,
    n: int,
    limit: int,
    exists: Seq<bool>,
)
    requires
        0 <= next,
        n <= exists.len(),
    ensures
        forall|k: int|
            0 <= k < run_fetches(next, laps, n, limit, exists, false).len() ==> next
                <= #[trigger] run_fetches(next, laps, n, limit, exists, false)[k] < n
                && !exists[run_fetches(next, laps, n, limit, exists, false)[k]],
    decreases n - next,
{
    if next < n && laps < limit {
        if exists[next] {
            lemma_rerun_fetches_nothing_written(next + 1, laps, n, limit, exists);
            assert(run_fetches(next, laps, n, limit, exists, false) == run_fetches(
                next + 1,
                laps,
                n,
                limit,
                exists,
                false,
            ));
        } else {
            lemma_rerun_fetches_nothing_written(next + 1, laps + 1, n, limit, exists);
            let rest = run_fetches(next + 1, laps + 1, n, limit, exists, false);
            assert(run_fetches(next, laps, n, limit, exists, false) == seq![next].add(rest));
            assert forall|k: int| 0 <= k < seq![next].add(rest).len() implies next
                <= #[trigger] seq![next].add(rest)[k] < n && !exists[seq![next].add(rest)[k]] by {
                if k > 0 {
                    assert(seq![next].add(rest)[k] == rest[k - 1]);
                }
            }
        }
    } else {
        assert(run_fetches(next, laps, n, limit, exists, false) =~= Seq::<int>::empty());
    }
}

/// The table to write for a fetched window: `None` for an empty batch, which
/// writes no file; otherwise the table built from the batch.
pub fn window_output(items: &Vec<Record>) -> (r: Result<Option<Built>, TableBuildError>)
    ensures
        items@.len() == 0 ==> r matches Ok(None),
        items@.len() > 0 ==> match build_model(items@) {
            Ok((rows, bad)) => r matches Ok(Some(b)) && b.table.model() == rows
                && b.discarded@.map_values(|s: String| s@) == bad,
            Err(e) => r matches Err(x) && x@ == e,
        },
{
    if items.len() == 0 {
        Ok(None)
    } else {
        match time_sequential_dataframe(items) {
            Ok(b) => Ok(Some(b)),
            Err(e) => Err(e),
        }
    }
}

} // verus!
