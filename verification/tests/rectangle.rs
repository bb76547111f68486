use canvas_journal::Element;
use canvas_journal::Line;
use canvas_journal::Point;
use canvas_journal::Rectangle;

#[test]
fn resorts_corners() {
    for rectangle in [
        Rectangle::new((2, 1).into(), (1, 0).into()),
        Rectangle::new((2, 0).into(), (1, 1).into()),
        Rectangle::new((1, 0).into(), (2, 1).into()),
        Rectangle::new((1, 1).into(), (2, 0).into()),
    ] {
        assert_eq!(rectangle.lower(), (1, 0));
        assert_eq!(rectangle.upper(), (2, 1));
    }
}

#[test]
fn rectangle_correct_envelope() {
    let lower = Point { x: 0, y: 0 };
    let upper = Point { x: 1, y: 1 };
    let rectangle = Rectangle::new(lower, upper);
    assert_eq!(rectangle.envelope().lower(), lower);
    assert_eq!(rectangle.envelope().upper(), upper);
}

#[test]
fn correct_lower() {
    let lower = Point { x: 2, y: 0 };
    let upper = Point { x: 1, y: 1 };
    let rectangle = Rectangle::new(lower, upper);
    assert_eq!(rectangle.lower(), Point { x: 1, y: 0 });
}

#[test]
fn correct_upper() {
    let lower = Point { x: 2, y: 0 };
    let upper = Point { x: 1, y: 1 };
    let rectangle = Rectangle::new(lower, upper);
    assert_eq!(rectangle.upper(), Point { x: 2, y: 1 });
}

#[test]
fn rectangle_can_cast_to_any() {
    let lower = Point { x: 1, y: 0 };
    let upper = Point { x: 2, y: 2 };
    let rectangle = Rectangle::new(lower, upper);
    let any = rectangle.as_any();
    let rectangle_ref = any.downcast_ref::<Rectangle>().unwrap();
    assert_eq!(rectangle_ref.lower(), lower)
}

#[test]
fn rectangle_can_cast_to_any_mut() {
    let lower = Point { x: 1, y: 0 };
    let upper = Point { x: 2, y: 2 };
    let mut rectangle = Rectangle::new(lower, upper);
    let any = rectangle.as_any_mut();
    let rectangle_ref = any.downcast_mut::<Rectangle>().unwrap();
    assert_eq!(rectangle_ref.lower(), (1, 0));
}

#[test]
fn rectangle_is_no_line() {
    let mut rectangle = Rectangle::new((1, 0).into(), (2, 2).into());
    assert!(rectangle.as_any().downcast_ref::<Line>().is_none());
    assert!(rectangle.as_any_mut().downcast_mut::<Line>().is_none());
}

#[test]
fn sorts_each_axis_on_its_own() {
    let (lower, upper) = Rectangle::get_real_lower_and_upper((7, -3).into(), (-2, 5).into());
    assert_eq!(lower, (-2, -3));
    assert_eq!(upper, (7, 5));
    let (lower, upper) = Rectangle::get_real_lower_and_upper((4, 4).into(), (4, 4).into());
    assert_eq!(lower, (4, 4));
    assert_eq!(upper, (4, 4));
}

#[test]
fn envelope_of_resorted_rectangle() {
    let rectangle = Rectangle::new((2, 0).into(), (1, 1).into());
    assert_eq!(rectangle.envelope().lower(), (1, 0));
    assert_eq!(rectangle.envelope().upper(), (2, 1));
}
