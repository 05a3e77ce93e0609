use rain::column::Column;
use rain::glyphs::glyph_at;
use rain::render::DrawOp;
use rain::trail::Trail;

fn palette() -> Vec<char> {
    let mut v = Vec::new();
    let mut i: u16 = 0;
    while i < 80 {
        v.push(glyph_at(i));
        i += 1;
    }
    v
}

#[test]
fn palette_matches_fixed_character_set() {
    let p = palette();
    assert_eq!(p.len(), 80);
    assert_eq!(p[0], 'a');
    assert_eq!(p[25], 'z');
    assert_eq!(p[26], 'A');
    assert_eq!(p[51], 'Z');
    assert_eq!(p[52], '!');
    assert_eq!(p[71], '\\');
    assert_eq!(p[78], '"');
    assert_eq!(p[79], '\'');
}

#[test]
fn back_is_head_plus_one_minus_length() {
    assert_eq!(Trail::new(10).back(), None);
    let grown = Trail { length: 10, head: 9, head_glyph: 'x' };
    assert_eq!(grown.back(), Some(0));
    let scrolling = Trail { length: 10, head: 20, head_glyph: 'x' };
    assert_eq!(scrolling.back(), Some(11));
}

#[test]
fn wait_falls_by_one_per_tick_until_a_spawn() {
    let mut col = Column::with_wait(3);
    let mut ops = Vec::new();
    col.tick(0, 24, &mut ops);
    assert_eq!(col.wait, 2);
    assert!(col.trails.is_empty());
    col.tick(0, 24, &mut ops);
    assert_eq!(col.wait, 1);
    col.tick(0, 24, &mut ops);
    assert_eq!(col.wait, 0);
    // the countdown hit zero: this tick spawns instead of decrementing
    col.tick(0, 24, &mut ops);
    assert_eq!(col.trails.len(), 1);
    assert!(col.wait > 0);
}

#[test]
fn spawn_on_empty_queue_appends_trail_and_resets_wait() {
    let mut col = Column::with_wait(0);
    let mut ops = Vec::new();
    col.tick(0, 24, &mut ops);
    assert_eq!(col.trails.len(), 1);
    let t = col.trails[0];
    assert!((10..=20).contains(&t.length));
    // the new trail already advanced once on its spawn tick
    assert_eq!(t.head, 1);
    // wait = spawned length + gap, with the gap drawn from [20, 50]
    assert!(col.wait >= t.length + 20);
    assert!(col.wait <= t.length + 50);
}

#[test]
fn trail_of_ten_defines_tail_on_tenth_tick_and_retires_on_thirty_fourth() {
    let height: u16 = 24;
    let mut col = Column {
        trails: vec![Trail::new(10)],
        wait: 10_000,
    };
    let mut ops = Vec::new();
    // `tick` here plays ticks 1 through 33 counted from the spawn; the state
    // each tick's retirement check observes is the state before the call.
    for tick in 1u32..=33 {
        let front = col.trails[0];
        if tick < 10 {
            // tail not yet defined
            assert_eq!(front.back(), None);
        } else {
            // from the 10th tick on, the tail is defined and follows the head
            assert_eq!(front.back(), Some(tick - 10));
        }
        col.tick(0, height, &mut ops);
        assert_eq!(col.trails.len(), 1);
        // the head advances by exactly one row per tick and never decreases
        assert_eq!(col.trails[0].head, tick);
    }
    // the 34th tick finds tail_row == height and retires the trail
    assert_eq!(col.trails[0].back(), Some(24));
    col.tick(0, height, &mut ops);
    assert!(col.trails.is_empty());
}

#[test]
fn tick_emits_body_erase_and_head_for_a_scrolling_trail() {
    let t = Trail {
        length: 10,
        head: 12,
        head_glyph: 'q',
    };
    let mut col = Column {
        trails: vec![t],
        wait: 7,
    };
    let mut ops = Vec::new();
    col.tick(3, 24, &mut ops);
    assert_eq!(ops.len(), 3);
    // the old bright head is redrawn as a dim body cell
    assert_eq!(
        ops[0],
        DrawOp::Body {
            col: 3,
            row: 12,
            glyph: 'q'
        }
    );
    // the vacated tail cell (12 + 1 - 10 = 3) is blanked
    assert_eq!(ops[1], DrawOp::Erase { col: 3, row: 3 });
    // a fresh bright head lands one row below, with a palette glyph
    match ops[2] {
        DrawOp::Head { col, row, glyph } => {
            assert_eq!(col, 3);
            assert_eq!(row, 13);
            assert!(palette().contains(&glyph));
        }
        _ => panic!("expected a head draw"),
    }
    // the stored head glyph now matches what was drawn
    match ops[2] {
        DrawOp::Head { glyph, .. } => assert_eq!(col.trails[0].head_glyph, glyph),
        _ => unreachable!(),
    }
}

#[test]
fn at_most_one_trail_retires_per_tick() {
    let a = Trail {
        length: 10,
        head: 40,
        head_glyph: 'x',
    };
    let b = Trail {
        length: 10,
        head: 35,
        head_glyph: 'y',
    };
    let mut col = Column {
        trails: vec![a, b],
        wait: 3,
    };
    let mut ops = Vec::new();
    col.tick(0, 24, &mut ops);
    // both tails were past the bottom edge, but only the front trail leaves
    assert_eq!(col.trails.len(), 1);
    assert_eq!(col.trails[0].head, 36);
    // nothing of either trail was still on screen: no draw operations
    assert!(ops.is_empty());
}

#[test]
fn off_screen_trail_only_erases_until_retired() {
    // head far past the bottom edge: nothing is drawn but the tail, still on
    // screen, keeps being erased
    let t = Trail {
        length: 10,
        head: 30,
        head_glyph: 'k',
    };
    let mut col = Column {
        trails: vec![t],
        wait: 7,
    };
    let mut ops = Vec::new();
    col.tick(0, 24, &mut ops);
    assert_eq!(ops, vec![DrawOp::Erase { col: 0, row: 21 }]);
    // off screen the stored glyph is not replaced
    assert_eq!(col.trails[0].head_glyph, 'k');
    assert_eq!(col.trails[0].head, 31);
}
