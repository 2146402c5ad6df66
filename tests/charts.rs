use plot::chart::{
    current_panel, energy_panel, get_cumlative_kwh, get_instant_ampere, plot, power_panel, Bar,
    ChartError, PanelKind, PhasePoint, Point,
};
use plot::clock::Stamp;
use plot::table::{Row, Table};

const NINE_FIFTEEN: i64 = 1_672_564_500;
const NINE_FORTY_FIVE: i64 = 1_672_566_300;
const DAY_START: i64 = 1_672_531_200;
const NEXT_DAY: i64 = 1_672_617_600;

fn row(utc: i64, kwh: Option<i64>, watt: Option<i64>, r: Option<i64>, t: Option<i64>) -> Row {
    Row {
        measured_at: Stamp { utc_secs: utc, offset_secs: 32_400 },
        sensor_id: Some("smartmeter".to_string()),
        message_id: Some(1),
        cumulative_kwh: kwh,
        instant_watt: watt,
        instant_ampere_r: r,
        instant_ampere_t: t,
    }
}

#[test]
fn axis_ranges_span_whole_days() {
    let pts = vec![
        Point { at: NINE_FIFTEEN, value: 3_200_000 },
        Point { at: NINE_FORTY_FIVE, value: 5_100_000 },
    ];
    let p = power_panel(&pts).unwrap();
    assert_eq!((p.x_start, p.x_end), (DAY_START, NEXT_DAY));
    assert_eq!((p.y_low, p.y_high), (0, 5_100_000));
    assert_eq!(
        p.bars,
        vec![
            Bar { x0: NINE_FIFTEEN, x1: NINE_FIFTEEN + 60, y0: 0, y1: 3_200_000 },
            Bar { x0: NINE_FORTY_FIVE, x1: NINE_FORTY_FIVE + 60, y0: 0, y1: 5_100_000 },
        ]
    );
    let c = current_panel(&vec![
        PhasePoint { at: NINE_FIFTEEN, r: 3_200_000, t: None },
        PhasePoint { at: NINE_FORTY_FIVE, r: 5_100_000, t: None },
    ])
    .unwrap();
    assert_eq!((c.x_start, c.x_end), (DAY_START, NEXT_DAY));
    assert_eq!((c.y_low, c.y_high), (0, 5_100_000));
}

#[test]
fn energy_panel_uses_half_hour_bars_and_its_own_range() {
    let pts = vec![
        Point { at: NINE_FIFTEEN, value: 3_200_000 },
        Point { at: NINE_FORTY_FIVE, value: 5_100_000 },
    ];
    let p = energy_panel(&pts).unwrap();
    assert_eq!((p.y_low, p.y_high), (3_200_000, 5_100_000));
    assert_eq!(p.bars[0], Bar { x0: NINE_FIFTEEN, x1: NINE_FIFTEEN + 1800, y0: 0, y1: 3_200_000 });
    assert_eq!(p.points, pts);
    assert!(p.upper_bars.is_empty());
}

#[test]
fn negative_readings_keep_their_low_bound() {
    let pts = vec![Point { at: NINE_FIFTEEN, value: -2_000_000 }];
    let p = power_panel(&pts).unwrap();
    assert_eq!((p.y_low, p.y_high), (-2_000_000, -2_000_000));
}

#[test]
fn t_phase_stacks_on_r_phase() {
    let pts = vec![
        PhasePoint { at: NINE_FIFTEEN, r: 2_000_000, t: Some(1_500_000) },
        PhasePoint { at: NINE_FORTY_FIVE, r: 2_000_000, t: None },
    ];
    let c = current_panel(&pts).unwrap();
    assert_eq!(c.bars.len(), 2);
    assert_eq!(c.bars[1], Bar { x0: NINE_FORTY_FIVE, x1: NINE_FORTY_FIVE + 60, y0: 0, y1: 2_000_000 });
    assert_eq!(
        c.upper_bars,
        vec![Bar { x0: NINE_FIFTEEN, x1: NINE_FIFTEEN + 60, y0: 2_000_000, y1: 3_500_000 }]
    );
    assert_eq!((c.y_low, c.y_high), (0, 3_500_000));
}

#[test]
fn empty_series_has_no_data() {
    assert_eq!(energy_panel(&Vec::new()).err(), Some(ChartError::NoData(PanelKind::Energy)));
    assert_eq!(power_panel(&Vec::new()).err(), Some(ChartError::NoData(PanelKind::Power)));
    assert_eq!(current_panel(&Vec::new()).err(), Some(ChartError::NoData(PanelKind::Current)));
}

#[test]
fn missing_energy_reading_leaves_the_series() {
    let t = Table {
        rows: vec![
            row(1_672_532_100, Some(1_000_000), Some(5), Some(1), None),
            row(1_672_533_900, None, Some(6), Some(2), None),
        ],
    };
    let e = get_cumlative_kwh(&t);
    assert_eq!(e, vec![Point { at: NINE_FIFTEEN, value: 1_000_000 }]);
}

#[test]
fn current_series_joins_t_phase_on_timestamp() {
    let t = Table {
        rows: vec![
            row(1_672_532_100, None, None, Some(2_000_000), None),
            row(1_672_533_900, None, None, Some(3_000_000), Some(500_000)),
            row(1_672_532_100, None, None, None, Some(1_500_000)),
        ],
    };
    let c = get_instant_ampere(&t);
    assert_eq!(
        c,
        vec![
            PhasePoint { at: NINE_FIFTEEN, r: 2_000_000, t: Some(1_500_000) },
            PhasePoint { at: NINE_FORTY_FIVE, r: 3_000_000, t: Some(500_000) },
        ]
    );
}

#[test]
fn full_day_table_gives_three_panels() {
    let rows: Vec<Row> = (0..48)
        .map(|i| {
            let utc = 1_672_498_800 + 1800 * i as i64;
            row(utc, Some(1_000_000 + i), Some(300_000_000), Some(2_000_000), Some(1_000_000))
        })
        .collect();
    let t = Table { rows };
    assert!(t.is_well_formed());
    let plan = plot(&t).unwrap();
    assert_eq!(plan.energy.bars.len(), 48);
    assert_eq!(plan.power.bars.len(), 48);
    assert_eq!(plan.current.bars.len(), 48);
    assert_eq!(plan.current.upper_bars.len(), 48);
    assert_eq!((plan.energy.x_start, plan.energy.x_end), (DAY_START, NEXT_DAY));
}

#[test]
fn chart_without_power_readings_fails_on_that_panel() {
    let t = Table { rows: vec![row(1_672_532_100, Some(1), None, Some(1), None)] };
    assert_eq!(plot(&t).err(), Some(ChartError::NoData(PanelKind::Power)));
}

#[test]
fn out_of_range_reading_is_not_well_formed() {
    let t = Table { rows: vec![row(1_672_532_100, Some(i64::MAX), None, None, None)] };
    assert!(!t.is_well_formed());
}
