use plot::record::{Attr, Record};
use plot::retrieval::{window_output, RunState, Step};
use plot::window::{dailies, day_range, plan_windows, Window};

#[test]
fn windows_cover_each_tokyo_day() {
    let w = plan_windows(1_672_534_800, 1_672_689_600);
    assert_eq!(w.len(), 3);
    for (i, win) in w.iter().enumerate() {
        assert_eq!(win.start_utc, 1_672_498_800 + 86_400 * i as i64);
        assert_eq!(win.offset_secs, 32_400);
    }
    assert_eq!(w, plan_windows(1_672_534_800, 1_672_689_600));
}

#[test]
fn a_single_midnight_gives_one_window() {
    let w = plan_windows(1_672_498_800, 1_672_498_800);
    assert_eq!(w, vec![Window { start_utc: 1_672_498_800, offset_secs: 32_400 }]);
}

#[test]
fn day_range_rounds_out_to_midnights() {
    assert_eq!(day_range(1_672_534_800, 1_672_689_600, 32_400), (1_672_498_800, 1_672_758_000));
    assert_eq!(dailies(0, 86_400 * 2, 0).len(), 2);
    assert_eq!(dailies(10, 5, 0).len(), 0);
}

#[test]
fn window_names_its_file_and_query() {
    let w = Window { start_utc: 1_672_498_800, offset_secs: 32_400 };
    assert_eq!(w.file_name(), "2023-01-01T0000to2359.csv");
    assert_eq!(w.query_range(), (1_672_498_800, 1_672_585_199));
    let next = Window { start_utc: 1_672_585_200, offset_secs: 32_400 };
    assert_eq!(next.file_name(), "2023-01-02T0000to2359.csv");
}

#[test]
fn run_skips_existing_outputs_and_stops_at_the_lap_limit() {
    let s = RunState::start();
    assert_eq!(s.decide(3, 2, true, false), Step::SkipExisting);
    assert_eq!(s.decide(3, 2, true, true), Step::Fetch);
    assert_eq!(s.decide(3, 2, false, false), Step::Fetch);
    let s = s.advance(Step::SkipExisting);
    assert_eq!(s, RunState { next: 1, laps: 0 });
    let s = s.advance(Step::Fetch);
    assert_eq!(s, RunState { next: 2, laps: 1 });
    let s = s.advance(Step::Fetch);
    assert_eq!(s, RunState { next: 3, laps: 2 });
    assert_eq!(s.decide(4, 2, false, false), Step::LapLimitReached { remaining: 1 });
    let done = RunState { next: 3, laps: 0 };
    assert_eq!(done.decide(3, 2, false, false), Step::Finished);
}

#[test]
fn second_run_fetches_nothing_already_written() {
    // first run: nothing exists, every window is fetched
    let mut exists = vec![false, false, false];
    let mut s = RunState::start();
    let mut fetched = Vec::new();
    loop {
        let e = exists.get(s.next).copied().unwrap_or(false);
        let step = s.decide(3, 10, e, false);
        match step {
            Step::Fetch => {
                fetched.push(s.next);
                exists[s.next] = true;
            }
            Step::SkipExisting => {}
            _ => break,
        }
        s = s.advance(step);
    }
    assert_eq!(fetched, vec![0, 1, 2]);
    let mut s = RunState::start();
    let mut again = Vec::new();
    loop {
        let step = s.decide(3, 10, exists[s.next.min(2)], false);
        match step {
            Step::Fetch => again.push(s.next),
            Step::SkipExisting => {}
            _ => break,
        }
        s = s.advance(step);
    }
    assert!(again.is_empty());
}

#[test]
fn empty_batch_writes_nothing() {
    assert!(matches!(window_output(&Vec::new()), Ok(None)));
    let rec = Record {
        fields: vec![("measured_at".to_string(), Attr::Text("2023-01-01T09:15:00+09:00".to_string()))],
    };
    let out = window_output(&vec![rec]).unwrap().unwrap();
    assert_eq!(out.table.rows.len(), 1);
}
