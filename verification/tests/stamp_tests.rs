use physics::scalar::Scalar;
use physics::stamp::{
    below_ground, get_stamp_data, CSObjectStamp, CSObjectStampFunction, CSObjectStampResult,
    CSPlotObjects, StampState,
};
use physics::state::CSObjectState;
use physics::vector::NVec2;

fn state_at_height(y: i64) -> CSObjectState {
    let mut state = CSObjectState::default();
    state.position = NVec2::new(Scalar::from_int(1), Scalar::from_int(y));
    state
}

fn time(raw: i64) -> Scalar {
    Scalar::from_raw(raw)
}

#[test]
fn stamp_result_builder() {
    let result = CSObjectStampResult::default()
        .label("label".to_string())
        .name("name".to_string())
        .time(time(5))
        .state(state_at_height(3));
    assert_eq!(result.label, "label");
    assert_eq!(result.name, "name");
    assert_eq!(result.time, time(5));
    assert_eq!(result.state.position.y, Scalar::from_int(3));
    let copy = result.clone();
    assert_eq!(copy.label, "label");
    assert_eq!(copy.name, "name");
    assert_eq!(copy.time, time(5));
    assert_eq!(copy.state.position, result.state.position);
    let empty = CSObjectStampResult::default();
    assert_eq!(empty.label, "");
    assert_eq!(empty.name, "");
    assert_eq!(empty.time, time(0));
}

#[test]
fn below_ground_captures_below_zero_only() {
    assert!(below_ground(&state_at_height(1), 0, time(1)).is_none());
    assert!(below_ground(&state_at_height(0), 3, time(1)).is_none());
    let result = below_ground(&state_at_height(-1), 9, time(77)).unwrap();
    assert_eq!(result.label, "WHEN pos < 0.1");
    assert_eq!(result.name, "");
    assert_eq!(result.time, time(77));
    assert_eq!(result.state.position.y, Scalar::from_int(-1));
}

#[test]
fn out_of_range_queries_are_none_and_ask_nothing() {
    let mut stamp = CSObjectStamp::new(below_ground, 2, 4);
    assert!(stamp.get_data(&state_at_height(-5), 1, time(1)).is_none());
    assert!(stamp.get_data(&state_at_height(-5), 5, time(1)).is_none());
    assert!(!stamp.is_stamped());
    assert!(stamp.get_data(&state_at_height(-5), 2, time(2)).is_some());
    assert!(stamp.is_stamped());
    // also a stamp that has fired answers nothing outside its range
    assert!(stamp.get_data(&state_at_height(-5), 1, time(3)).is_none());
    assert!(stamp.get_data(&state_at_height(-5), 5, time(3)).is_none());
    assert_eq!(stamp.get_data(&state_at_height(9), 4, time(3)).unwrap().time, time(2));
}

#[test]
fn stamp_fires_once_and_keeps_its_first_result() {
    let mut stamp = CSObjectStamp::new(below_ground, 0, 0);
    // falling: above the ground the stamp stays armed
    for (tick, height) in [(1, 3), (2, 2), (3, 1), (4, 0)] {
        assert!(stamp.get_data(&state_at_height(height), 0, time(tick)).is_none());
        assert!(!stamp.is_stamped());
    }
    // the first tick below the ground
    let first = stamp.get_data(&state_at_height(-1), 0, time(5)).unwrap();
    assert_eq!(first.time, time(5));
    assert_eq!(first.state.position.y, Scalar::from_int(-1));
    assert!(stamp.is_stamped());
    // deeper, and after a bounce above the ground again: the first result
    for (tick, height) in [(6, -2), (7, 1), (8, 5), (9, -3)] {
        let again = stamp.get_data(&state_at_height(height), 0, time(tick)).unwrap();
        assert_eq!(again.time, time(5));
        assert_eq!(again.state.position.y, Scalar::from_int(-1));
        assert_eq!(again.label, "WHEN pos < 0.1");
    }
    match &stamp.state {
        StampState::Stamped(kept) => assert_eq!(kept.time, time(5)),
        StampState::NotStamped => panic!("the stamp has fired"),
    }
}

#[test]
fn stamp_with_a_closure() {
    let limit = Scalar::from_int(4);
    let mut stamp = CSObjectStamp::new(
        move |state: &CSObjectState, index: usize, at: Scalar| {
            if state.position.y.gt(limit) && index % 2 == 1 {
                Some(CSObjectStampResult::default().name("high".to_string()).time(at))
            } else {
                None
            }
        },
        0,
        10,
    );
    assert!(stamp.get_data(&state_at_height(4), 3, time(1)).is_none());
    // the capture function sees the index: it captures odd indices only
    assert!(stamp.get_data(&state_at_height(5), 4, time(1)).is_none());
    assert_eq!(stamp.get_data(&state_at_height(5), 3, time(2)).unwrap().name, "high");
    assert_eq!(stamp.get_data(&state_at_height(0), 7, time(9)).unwrap().time, time(2));
}

#[test]
fn every_stamp_gives_its_own_answer() {
    let mut stamps = vec![
        CSObjectStamp::new(below_ground, 0, 0),
        CSObjectStamp::new(below_ground, 1, 1),
        CSObjectStamp::new(below_ground, 0, 5),
    ];
    let answers = get_stamp_data(&mut stamps, &state_at_height(2), 0, time(1));
    assert_eq!(answers.len(), 3);
    assert!(answers.iter().all(|a| a.is_none()));
    let answers = get_stamp_data(&mut stamps, &state_at_height(-2), 0, time(2));
    assert_eq!(answers.len(), 3);
    assert_eq!(answers[0].as_ref().unwrap().time, time(2));
    assert!(answers[1].is_none());
    assert_eq!(answers[2].as_ref().unwrap().time, time(2));
    assert!(stamps[0].is_stamped());
    assert!(!stamps[1].is_stamped());
    assert!(stamps[2].is_stamped());
    let answers = get_stamp_data(&mut stamps, &state_at_height(-9), 1, time(3));
    assert!(answers[0].is_none());
    assert_eq!(answers[1].as_ref().unwrap().time, time(3));
    assert_eq!(answers[2].as_ref().unwrap().time, time(2));
}

#[test]
fn plot_objects_keep_their_stamps_in_order() {
    let mut objects = CSPlotObjects::new()
        .add_stamp(CSObjectStamp::new(below_ground, 0, 0))
        .add_stamp(CSObjectStamp::new(below_ground, 3, 4));
    assert_eq!(objects.stamps.len(), 2);
    assert_eq!(objects.stamps[1].range_start, 3);
    let stamps = objects.get_stamps();
    assert!(stamps[0].get_data(&state_at_height(-1), 0, time(8)).is_some());
    assert!(objects.stamps[0].is_stamped());
    assert!(!objects.stamps[1].is_stamped());
}

type Capture = fn(&CSObjectState, usize, Scalar) -> Option<CSObjectStampResult>;

#[test]
fn the_stamp_of_the_library_captures_below_the_ground() {
    let mut stamp: CSObjectStamp<Capture> = CSObjectStamp::below_ground(1, 2);
    assert!(matches!(stamp.function, CSObjectStampFunction::BelowGround));
    assert!(matches!(stamp.state, StampState::NotStamped));
    assert_eq!((stamp.range_start, stamp.range_end), (1, 2));
    assert!(stamp.get_data(&state_at_height(-1), 0, time(1)).is_none());
    assert!(stamp.get_data(&state_at_height(1), 1, time(2)).is_none());
    let first = stamp.get_data(&state_at_height(-1), 2, time(3)).unwrap();
    assert_eq!(first.time, time(3));
    assert_eq!(first.label, "WHEN pos < 0.1");
    assert_eq!(stamp.get_data(&state_at_height(7), 1, time(4)).unwrap().time, time(3));
    let custom = CSObjectStamp::new(below_ground as Capture, 0, 0);
    assert!(matches!(custom.function, CSObjectStampFunction::Custom(_)));
}
