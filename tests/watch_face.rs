use hand_drawn_watchface::catalog::{
    glyph, BYTES_PER_PIXEL, COLOR_FORMAT_TRUE_COLOR, DATA_SIZE, IMAGE_HEIGHT, IMAGE_WIDTH,
};
use hand_drawn_watchface::face::digit;
use hand_drawn_watchface::layout::{slot_position, InitPhase};
use hand_drawn_watchface::{
    build_catalog, digits, HandDrawnWatchFace, HostReply, HostRequest, InitStep, Initializer,
    Time, WatchFaceError,
};

fn good_init_replies() -> Vec<HostReply> {
    let mut r = Vec::new();
    for h in [101u64, 102, 103, 104] {
        r.push(HostReply::Created(h));
        r.push(HostReply::Accepted);
        r.push(HostReply::Accepted);
    }
    r
}

fn face() -> HandDrawnWatchFace {
    HandDrawnWatchFace::new(&good_init_replies()).unwrap()
}

fn bound(f: &HandDrawnWatchFace) -> Vec<u8> {
    f.slots.iter().map(|s| s.bound).collect()
}

fn t(hour: u8, minute: u8) -> Time {
    Time { hour, minute }
}

const ALL: [bool; 4] = [true, true, true, true];

#[test]
fn update_nine_oh_five() {
    let mut f = face();
    assert_eq!(f.update(t(9, 5), &ALL.to_vec()), Ok(()));
    assert_eq!(bound(&f), vec![0, 9, 0, 5]);
}

#[test]
fn update_twenty_three_fifty_nine() {
    let mut f = face();
    assert_eq!(f.update(t(23, 59), &ALL.to_vec()), Ok(()));
    assert_eq!(bound(&f), vec![2, 3, 5, 9]);
}

#[test]
fn update_midnight() {
    let mut f = face();
    f.update(t(12, 34), &ALL.to_vec()).unwrap();
    assert_eq!(f.update(t(0, 0), &ALL.to_vec()), Ok(()));
    assert_eq!(bound(&f), vec![0, 0, 0, 0]);
}

#[test]
fn third_rebind_rejected_leaves_partial_update() {
    let mut f = face();
    f.update(t(12, 34), &ALL.to_vec()).unwrap();
    let before = f.slots.clone();
    let r = f.update(t(9, 5), &vec![true, true, false, true]);
    assert_eq!(r, Err(WatchFaceError::RebindError));
    assert_eq!(bound(&f), vec![0, 9, 3, 4]);
    assert_eq!(f.slots[2], before[2]);
    assert_eq!(f.slots[3], before[3]);
}

#[test]
fn first_rebind_rejected_changes_nothing() {
    let mut f = face();
    f.update(t(12, 34), &ALL.to_vec()).unwrap();
    let r = f.update(t(9, 5), &vec![false, true, true, true]);
    assert_eq!(r, Err(WatchFaceError::RebindError));
    assert_eq!(bound(&f), vec![1, 2, 3, 4]);
}

#[test]
fn update_same_time_twice_is_idempotent() {
    let mut f = face();
    f.update(t(17, 42), &ALL.to_vec()).unwrap();
    let once = f.slots.clone();
    f.update(t(17, 42), &ALL.to_vec()).unwrap();
    assert_eq!(f.slots, once);
    assert_eq!(bound(&f), vec![1, 7, 4, 2]);
}

#[test]
fn update_changes_only_changed_digits() {
    let mut f = face();
    f.update(t(12, 34), &ALL.to_vec()).unwrap();
    let before = f.slots.clone();
    f.update(t(12, 39), &ALL.to_vec()).unwrap();
    assert_eq!(f.slots[0], before[0]);
    assert_eq!(f.slots[1], before[1]);
    assert_eq!(f.slots[2], before[2]);
    assert_eq!(f.slots[3].bound, 9);
}

#[test]
fn every_slot_gets_a_request_even_when_unchanged() {
    let mut f = face();
    f.update(t(12, 34), &ALL.to_vec()).unwrap();
    let mut run = f.begin_update(t(12, 34));
    for k in 0..4 {
        let req = f.rebind_request(&run);
        let want = [1u8, 2, 3, 4][k];
        assert_eq!(
            req,
            HostRequest::SetSource { handle: 101 + k as u64, glyph: want }
        );
        let step = f.on_rebind_reply(&mut run, true);
        assert_eq!(step, if k == 3 { Some(Ok(())) } else { None });
    }
}

#[test]
fn update_keeps_catalog_and_handles() {
    let mut f = face();
    let catalog = f.bitmaps.clone();
    f.update(t(8, 15), &ALL.to_vec()).unwrap();
    assert_eq!(f.bitmaps, catalog);
    let handles: Vec<u64> = f.slots.iter().map(|s| s.handle).collect();
    assert_eq!(handles, vec![101, 102, 103, 104]);
}

#[test]
fn digits_of_times() {
    assert_eq!(digits(t(9, 5)), vec![0, 9, 0, 5]);
    assert_eq!(digits(t(23, 59)), vec![2, 3, 5, 9]);
    assert_eq!(digits(t(0, 0)), vec![0, 0, 0, 0]);
    assert_eq!(digit(t(14, 7), 0), 1);
    assert_eq!(digit(t(14, 7), 1), 4);
    assert_eq!(digit(t(14, 7), 2), 0);
    assert_eq!(digit(t(14, 7), 3), 7);
}

#[test]
fn catalog_has_ten_distinct_glyphs() {
    let c = build_catalog();
    assert_eq!(c.len(), 10);
    for (d, e) in c.iter().enumerate() {
        assert_eq!(e.buffer as usize, d);
        assert_eq!(e.width, 80);
        assert_eq!(e.height, 100);
        assert_eq!(e.data_size, 16000);
        assert_eq!(e.color_format, COLOR_FORMAT_TRUE_COLOR);
        assert_eq!(*e, glyph(d as u8));
    }
    for i in 0..10 {
        for j in 0..10 {
            assert_eq!(i == j, c[i] == c[j]);
        }
    }
    assert_eq!(IMAGE_WIDTH * IMAGE_HEIGHT * BYTES_PER_PIXEL, DATA_SIZE);
}

#[test]
fn new_places_four_slots_bound_to_zero() {
    let f = face();
    let want = [(40, 20), (120, 20), (40, 120), (120, 120)];
    assert_eq!(f.slots.len(), 4);
    for k in 0..4 {
        assert_eq!((f.slots[k].x, f.slots[k].y), want[k]);
        assert_eq!(slot_position(k), want[k]);
        assert_eq!(f.slots[k].handle, 101 + k as u64);
        assert_eq!(f.slots[k].bound, 0);
    }
    assert_eq!(f.bitmaps, build_catalog());
}

#[test]
fn new_fails_when_creation_refused() {
    let mut r = good_init_replies();
    r[6] = HostReply::Rejected;
    assert_eq!(
        HandDrawnWatchFace::new(&r).err(),
        Some(WatchFaceError::WidgetCreationError)
    );
}

#[test]
fn new_fails_when_position_refused() {
    let mut r = good_init_replies();
    r[10] = HostReply::Rejected;
    assert_eq!(
        HandDrawnWatchFace::new(&r).err(),
        Some(WatchFaceError::PositioningError)
    );
}

#[test]
fn new_fails_when_first_bind_refused() {
    let mut r = good_init_replies();
    r[2] = HostReply::Rejected;
    r[9] = HostReply::Rejected;
    assert_eq!(
        HandDrawnWatchFace::new(&r).err(),
        Some(WatchFaceError::RebindError)
    );
}

#[test]
fn new_fails_on_unexpected_reply() {
    let mut r = good_init_replies();
    r[0] = HostReply::Accepted;
    assert_eq!(
        HandDrawnWatchFace::new(&r).err(),
        Some(WatchFaceError::WidgetCreationError)
    );
}

#[test]
fn initializer_requests_in_order() {
    let mut init = Initializer::new();
    assert_eq!(init.request(), HostRequest::CreateImage);
    init = match init.on_reply(HostReply::Created(7)) {
        InitStep::Continue(n) => n,
        _ => panic!("expected to continue"),
    };
    assert_eq!(init.phase, InitPhase::Position(7));
    assert_eq!(
        init.request(),
        HostRequest::SetPosition { handle: 7, x: 40, y: 20 }
    );
    init = match init.on_reply(HostReply::Accepted) {
        InitStep::Continue(n) => n,
        _ => panic!("expected to continue"),
    };
    assert_eq!(init.request(), HostRequest::SetSource { handle: 7, glyph: 0 });
    match init.on_reply(HostReply::Rejected) {
        InitStep::Failed(e) => assert_eq!(e, WatchFaceError::RebindError),
        _ => panic!("expected a failure"),
    }
}
