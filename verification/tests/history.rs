use rsiss::history::TrajectoryHistory;
use rsiss::units::Micros;

fn point(lat: i64, lon: i64) -> (Micros, Micros) {
    (Micros::from_raw(lat), Micros::from_raw(lon))
}

#[test]
fn new_history_is_empty() {
    let history = TrajectoryHistory::new();
    assert_eq!(history.len(), 0);
    assert!(history.is_empty());
    assert_eq!(history.limit(), None);
    assert_eq!(history.snapshot(), Vec::new());
}

#[test]
fn appends_are_kept_in_order() {
    let mut history = TrajectoryHistory::new();
    let mut expected = Vec::new();
    for n in 0..200i64 {
        let lat = (n * 37) % 181 - 90;
        let lon = (n * 101) % 361 - 180;
        history.append(Micros::from_raw(lat), Micros::from_raw(lon));
        expected.push(point(lat, lon));
        assert_eq!(history.len(), (n + 1) as usize);
    }
    assert_eq!(history.snapshot(), expected);
    assert!(!history.is_empty());
}

#[test]
fn equal_positions_are_all_kept() {
    let mut history = TrajectoryHistory::new();
    history.append(Micros::from_raw(5), Micros::from_raw(6));
    history.append(Micros::from_raw(5), Micros::from_raw(6));
    history.append(Micros::from_raw(1), Micros::from_raw(2));
    history.append(Micros::from_raw(5), Micros::from_raw(6));
    assert_eq!(history.snapshot(), vec![point(5, 6), point(5, 6), point(1, 2), point(5, 6)]);
}

#[test]
fn reading_does_not_change_the_history() {
    let mut history = TrajectoryHistory::new();
    history.append(Micros::from_raw(3), Micros::from_raw(4));
    history.append(Micros::from_raw(1), Micros::from_raw(2));
    let first = history.snapshot();
    let _ = history.bounds_x();
    let _ = history.bounds_y();
    let second = history.snapshot();
    assert_eq!(first, second);
    assert_eq!(second, vec![point(3, 4), point(1, 2)]);
    assert_eq!(history.len(), 2);
}

#[test]
fn capped_history_keeps_the_latest() {
    let mut history = TrajectoryHistory::with_cap(3);
    assert_eq!(history.limit(), Some(3));
    for n in 1..=3 {
        history.append(Micros::from_raw(n), Micros::from_raw(-n));
    }
    assert_eq!(history.snapshot(), vec![point(1, -1), point(2, -2), point(3, -3)]);
    history.append(Micros::from_raw(4), Micros::from_raw(-4));
    assert_eq!(history.snapshot(), vec![point(2, -2), point(3, -3), point(4, -4)]);
    history.append(Micros::from_raw(5), Micros::from_raw(-5));
    assert_eq!(history.snapshot(), vec![point(3, -3), point(4, -4), point(5, -5)]);
    assert_eq!(history.len(), 3);
    assert_eq!(history.limit(), Some(3));
}

#[test]
fn history_capped_at_one_or_nothing() {
    let mut single = TrajectoryHistory::with_cap(1);
    single.append(Micros::from_raw(1), Micros::from_raw(1));
    single.append(Micros::from_raw(2), Micros::from_raw(2));
    assert_eq!(single.snapshot(), vec![point(2, 2)]);
    let mut nothing = TrajectoryHistory::with_cap(0);
    nothing.append(Micros::from_raw(1), Micros::from_raw(1));
    assert!(nothing.is_empty());
    assert_eq!(nothing.snapshot(), Vec::new());
}

#[test]
fn bounds_of_empty_history_are_inverted_sentinels() {
    let history = TrajectoryHistory::new();
    assert_eq!(history.bounds_x(), (Micros::from_raw(i64::MAX), Micros::from_raw(i64::MIN)));
    assert_eq!(history.bounds_y(), (Micros::from_raw(i64::MAX), Micros::from_raw(i64::MIN)));
}

#[test]
fn bounds_are_least_and_greatest() {
    let mut history = TrajectoryHistory::new();
    history.append(Micros::from_raw(10), Micros::from_raw(-7));
    assert_eq!(history.bounds_x(), (Micros::from_raw(10), Micros::from_raw(10)));
    assert_eq!(history.bounds_y(), (Micros::from_raw(-7), Micros::from_raw(-7)));
    history.append(Micros::from_raw(-3), Micros::from_raw(40));
    history.append(Micros::from_raw(25), Micros::from_raw(0));
    history.append(Micros::from_raw(4), Micros::from_raw(-9));
    assert_eq!(history.bounds_x(), (Micros::from_raw(-3), Micros::from_raw(25)));
    assert_eq!(history.bounds_y(), (Micros::from_raw(-9), Micros::from_raw(40)));
}

#[test]
fn bounds_hold_the_ends_of_the_number_range() {
    let mut history = TrajectoryHistory::new();
    history.append(Micros::from_raw(i64::MAX), Micros::from_raw(i64::MIN));
    assert_eq!(history.bounds_x(), (Micros::from_raw(i64::MAX), Micros::from_raw(i64::MAX)));
    assert_eq!(history.bounds_y(), (Micros::from_raw(i64::MIN), Micros::from_raw(i64::MIN)));
    history.append(Micros::from_raw(i64::MIN), Micros::from_raw(i64::MAX));
    assert_eq!(history.bounds_x(), (Micros::from_raw(i64::MIN), Micros::from_raw(i64::MAX)));
    assert_eq!(history.bounds_y(), (Micros::from_raw(i64::MIN), Micros::from_raw(i64::MAX)));
}

#[test]
fn bounds_follow_what_a_capped_history_dropped() {
    let mut history = TrajectoryHistory::with_cap(2);
    history.append(Micros::from_raw(100), Micros::from_raw(100));
    history.append(Micros::from_raw(1), Micros::from_raw(2));
    history.append(Micros::from_raw(3), Micros::from_raw(0));
    assert_eq!(history.bounds_x(), (Micros::from_raw(1), Micros::from_raw(3)));
    assert_eq!(history.bounds_y(), (Micros::from_raw(0), Micros::from_raw(2)));
}

#[test]
fn history_from_points_holds_them_in_order() {
    let points = vec![point(3, 4), point(1, 2), point(3, 4), point(-7, 0)];
    let history = TrajectoryHistory::from_points(&points);
    assert_eq!(history.snapshot(), points);
    assert_eq!(history.limit(), None);
    assert_eq!(history.bounds_x(), (Micros::from_raw(-7), Micros::from_raw(3)));
    assert!(TrajectoryHistory::from_points(&Vec::new()).is_empty());
}
