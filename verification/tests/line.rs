use canvas_journal::Element;
use canvas_journal::Envelope;
use canvas_journal::Line;
use canvas_journal::Point;
use canvas_journal::Rectangle;

#[test]
fn new_creates_empty_line() {
    let line = Line::default();
    assert_eq!(line.iter().count(), 0);
}

#[test]
fn from_iter_stores_points() {
    let points = vec![(5, 7), (1, 2)];
    let line = Line::from_iter(points.iter());
    assert_eq!(line.iter().count(), points.len());
    assert_eq!(*line.iter().next().unwrap(), (5, 7));
    assert_eq!(*line.iter().last().unwrap(), (1, 2));
}

#[test]
fn can_add_point() {
    let points = vec![(5, 7), (1, 2)];
    let mut line = Line::from_iter(points.iter());
    line.push_back((3, 4).into());
    assert_eq!(line.iter().count(), points.len() + 1);
    let mut iter = line.iter();
    assert_eq!(*iter.next().unwrap(), (5, 7));
    assert_eq!(*iter.next().unwrap(), (1, 2));
    assert_eq!(*iter.next().unwrap(), (3, 4));
    assert!(iter.next().is_none());
}

#[test]
fn correct_empty_envelope() {
    let line = Line::default();
    assert_eq!(line.envelope().lower(), (0, 0));
    assert_eq!(line.envelope().upper(), (0, 0));
}

#[test]
fn correct_filled_envelope() {
    let points = vec![(5, 7), (1, 2)];
    let line = Line::from_iter(points.iter());
    assert_eq!(line.envelope().lower(), Point { x: 1, y: 2 });
    assert_eq!(line.envelope().upper(), Point { x: 5, y: 7 });
}

#[test]
fn can_iterate_over_points() {
    let points = vec![(5, 7), (4, 3)];
    let line = Line::from_iter(points.iter());
    let mut iter = line.iter();
    assert_eq!(*iter.next().unwrap(), (5, 7));
    assert_eq!(*iter.next().unwrap(), (4, 3));
    assert!(iter.next().is_none());
}

#[test]
fn can_iterate_and_modify_points() {
    let points = vec![(5, 7), (4, 3), (2, 1)];
    let mut line = Line::from_iter(points.iter());
    let mut modify_iter = line.iter_mut();
    *modify_iter.nth(1).unwrap() = (8, 9).into();
    let mut iter = line.iter();
    assert_eq!(*iter.next().unwrap(), (5, 7));
    assert_eq!(*iter.next().unwrap(), (8, 9));
    assert_eq!(*iter.next().unwrap(), (2, 1));
    assert!(iter.next().is_none());
}

#[test]
fn line_can_cast_to_any() {
    let points = vec![(5, 7), (4, 3), (2, 1)];
    let line = Line::from_iter(points.iter());
    let any = line.as_any();
    let line_ref = any.downcast_ref::<Line>().unwrap();
    assert!(line_ref.iter().eq(points.iter()))
}

#[test]
fn line_can_cast_to_any_mut() {
    let points = vec![(5, 7), (4, 3), (2, 1)];
    let mut line = Line::from_iter(points.iter());
    let any = line.as_any_mut();
    let line_ref = any.downcast_mut::<Line>().unwrap();
    assert!(line_ref.iter().eq(points.iter()));
    line_ref.push_back((3, 4).into());
    assert_eq!(*line_ref.iter().nth(3).unwrap(), (3, 4))
}

#[test]
fn line_is_no_rectangle() {
    let mut line = Line::from_iter(vec![(5, 7)].iter());
    assert!(line.as_any().downcast_ref::<Rectangle>().is_none());
    assert!(line.as_any_mut().downcast_mut::<Rectangle>().is_none());
}

#[test]
fn envelope_of_one_point_is_that_point() {
    let line = Line::from_iter(vec![(-3, 9)].iter());
    assert_eq!(line.envelope(), Envelope::from_point(Point::new(-3, 9)));
}

#[test]
fn envelope_takes_each_bound_from_its_own_point() {
    let line = Line::from_iter(vec![(0, 10), (-4, 2), (6, -8), (1, 1)].iter());
    assert_eq!(line.envelope().lower(), (-4, -8));
    assert_eq!(line.envelope().upper(), (6, 10));
}

#[test]
fn envelope_follows_changes_through_the_mutable_pass() {
    let mut line = Line::from_iter(vec![(1, 1), (2, 2)].iter());
    for point in &mut line {
        point.x += 10;
    }
    assert_eq!(line.envelope().lower(), (11, 1));
    assert_eq!(line.envelope().upper(), (12, 2));
    let mut seen = Vec::new();
    for point in &line {
        seen.push(*point);
    }
    assert_eq!(seen, vec![Point::new(11, 1), Point::new(12, 2)]);
}

#[test]
fn from_iter_takes_points_and_owned_pairs() {
    let line = Line::from_iter(vec![Point::new(1, 2), Point::new(3, 4)].into_iter());
    assert_eq!(line, Line::from_iter(vec![(1i64, 2i64), (3i64, 4i64)].into_iter()));
    assert_ne!(line, Line::default());
}
