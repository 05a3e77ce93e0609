use rain::column::Column;
use rain::render::DrawOp;
use rain::sim::Simulation;
use rain::trail::Trail;

#[test]
fn reconciled_column_count_tracks_the_observed_width() {
    let mut sim = Simulation::new();
    sim.reconcile(80);
    assert_eq!(sim.columns.len(), 80);
    for c in &sim.columns {
        assert!(c.trails.is_empty());
        // a fresh column starts with a countdown of at most the largest gap
        assert!(c.wait <= 50);
    }
}

#[test]
fn shrinking_drops_exactly_the_trailing_columns() {
    let mut sim = Simulation::new();
    sim.reconcile(80);
    // let the simulation run until columns hold live trails
    for _ in 0..60 {
        sim.reconcile(80);
        let _ = sim.tick(24);
    }
    assert!(sim.columns.iter().any(|c| !c.trails.is_empty()));
    let snapshot = sim.clone();
    // width shrinks from 80 to 40: columns 40..79 and their trails go
    sim.reconcile(40);
    assert_eq!(sim.columns.len(), 40);
    for i in 0..40 {
        assert_eq!(sim.columns[i], snapshot.columns[i]);
    }
}

#[test]
fn growing_preserves_existing_columns_and_appends_fresh_ones() {
    let mut sim = Simulation::new();
    sim.reconcile(20);
    for _ in 0..40 {
        sim.reconcile(20);
        let _ = sim.tick(24);
    }
    let snapshot = sim.clone();
    sim.reconcile(30);
    assert_eq!(sim.columns.len(), 30);
    for i in 0..20 {
        assert_eq!(sim.columns[i], snapshot.columns[i]);
    }
    for i in 20..30 {
        assert!(sim.columns[i].trails.is_empty());
        assert!(sim.columns[i].wait <= 50);
    }
}

#[test]
fn reconciling_twice_with_the_same_width_changes_nothing() {
    let mut sim = Simulation::new();
    sim.reconcile(25);
    for _ in 0..40 {
        sim.reconcile(25);
        let _ = sim.tick(24);
    }
    sim.reconcile(25);
    let snapshot = sim.clone();
    sim.reconcile(25);
    assert_eq!(sim, snapshot);
}

#[test]
fn frame_ops_come_out_column_by_column_left_to_right() {
    let mut sim = Simulation {
        columns: vec![
            Column {
                trails: vec![Trail {
                    length: 10,
                    head: 5,
                    head_glyph: 'a',
                }],
                wait: 9,
            },
            Column {
                trails: vec![Trail {
                    length: 12,
                    head: 7,
                    head_glyph: 'b',
                }],
                wait: 4,
            },
        ],
    };
    let ops = sim.tick(24);
    // each trail is young enough to have no tail yet: two ops per column
    assert_eq!(ops.len(), 4);
    assert_eq!(
        ops[0],
        DrawOp::Body {
            col: 0,
            row: 5,
            glyph: 'a'
        }
    );
    assert!(matches!(ops[1], DrawOp::Head { col: 0, row: 6, .. }));
    assert_eq!(
        ops[2],
        DrawOp::Body {
            col: 1,
            row: 7,
            glyph: 'b'
        }
    );
    assert!(matches!(ops[3], DrawOp::Head { col: 1, row: 8, .. }));
    // both countdowns aged by one
    assert_eq!(sim.columns[0].wait, 8);
    assert_eq!(sim.columns[1].wait, 3);
    // both heads advanced by one
    assert_eq!(sim.columns[0].trails[0].head, 6);
    assert_eq!(sim.columns[1].trails[0].head, 8);
}
