use canvas_journal::page::SelectByAddressFunction;
use canvas_journal::Element;
use canvas_journal::Envelope;
use canvas_journal::Line;
use canvas_journal::Page;
use canvas_journal::Point;
use canvas_journal::Rectangle;
use canvas_journal::TimedElement;

#[test]
fn add_element() {
    let mut page = Page::default();

    let lower = Point { x: 0, y: 0 };
    let upper = Point { x: 1, y: 1 };
    let element = Rectangle::new(lower, upper);
    page.insert(element, 0);

    assert_eq!(page.len(), 1);
}

#[test]
fn can_iterate() {
    let mut page = Page::default();

    let lower = Point { x: 0, y: 0 };
    let upper = Point { x: 1, y: 1 };
    let element = Rectangle::new(lower, upper);
    page.insert(element, 15);

    let rect = page.iter().next().unwrap();
    assert_eq!(rect.z_index(), 15);
}

#[test]
fn can_extract_element() {
    let mut page = Page::default();
    let points = vec![(1, 2), (2, 3)];
    let line = Line::from_iter(points.iter());
    page.insert(line.clone(), 0);

    let stored_line = page.iter().next().unwrap();
    let selector = SelectByAddressFunction::new(stored_line.envelope(), stored_line);
    let extracted_line = page.extract(selector).unwrap();
    assert_eq!(page.len(), 0);
    assert_eq!(
        *extracted_line.deref().downcast_ref::<Line>().unwrap(),
        line
    );
}

#[test]
fn locate_in_envelope_only_locates_correct_elements() {
    // Given a page
    let mut page = Page::default();

    // With one element outside the selection
    let points_outside = vec![(1, 2), (2, 3)];
    let line_outside = Line::from_iter(points_outside.iter());
    page.insert(line_outside.clone(), 0);

    // And one element partially inside the selection
    let points_intersecting = vec![(1, 2), (3, 5)];
    let line_intersecting = Line::from_iter(points_intersecting.iter());
    page.insert(line_intersecting.clone(), 0);

    // And one element on the boundary but within the selection
    let points_on_boundary = vec![(2, 4), (3, 5)];
    let line_on_boundary = Line::from_iter(points_on_boundary.iter());
    page.insert(line_on_boundary.clone(), 0);

    // And one element inside the selection
    let points_inside = vec![(3, 5), (6, 7)];
    let line_inside = Line::from_iter(points_inside.iter());
    page.insert(line_inside.clone(), 0);

    // When selecting elements
    let mut selection =
        page.locate_in_envelope(Envelope::from_corners((2, 4).into(), (7, 8).into()));

    // Then we get the elements that are on the boundary and within the selection envelope
    assert_eq!(
        selection.next().unwrap().deref().downcast_ref::<Line>().unwrap(),
        &line_inside
    );
    assert_eq!(
        selection.next().unwrap().deref().downcast_ref::<Line>().unwrap(),
        &line_on_boundary
    );
}

#[test]
fn can_get_len() {
    let mut page = Page::default();
    assert_eq!(page.len(), 0);
    let points = vec![(1, 2), (2, 3)];
    let line = Line::from_iter(points.iter());
    page.insert(line.clone(), 0);
    assert_eq!(page.len(), 1);
}

#[test]
fn page_can_check_emptiness() {
    let mut page = Page::default();
    assert_eq!(page.is_empty(), true);
    let points = vec![(1, 2), (2, 3)];
    let line = Line::from_iter(points.iter());
    page.insert(line.clone(), 0);
    assert_eq!(page.is_empty(), false);
}

fn moments(page: &Page) -> Vec<u128> {
    let mut seen = Vec::new();
    let mut selection = page.iter();
    while let Some(element) = selection.next() {
        seen.push(element.t_index());
    }
    seen.sort();
    seen
}

fn located(page: &Page, envelope: Envelope) -> Vec<u128> {
    let mut seen = Vec::new();
    let mut selection = page.locate_in_envelope(envelope);
    while let Some(element) = selection.next() {
        seen.push(element.t_index());
    }
    seen.sort();
    seen
}

fn selector_for(page: &Page, t_index: u128) -> SelectByAddressFunction {
    let mut selection = page.iter();
    while let Some(element) = selection.next() {
        if element.t_index() == t_index {
            return SelectByAddressFunction::new(element.envelope(), element);
        }
    }
    panic!("no element with the moment {}", t_index)
}

#[test]
fn moments_start_at_one_and_are_never_given_twice() {
    let mut page = Page::default();
    page.insert(Line::default(), 0);
    page.insert(Line::default(), 0);
    page.insert(Line::default(), 0);
    assert_eq!(moments(&page), vec![1, 2, 3]);
    let selector = selector_for(&page, 3);
    assert_eq!(page.extract(selector).unwrap().t_index(), 3);
    let selector = selector_for(&page, 1);
    assert_eq!(page.extract(selector).unwrap().t_index(), 1);
    assert_eq!(page.len(), 1);
    page.insert(Line::default(), 0);
    page.insert(Line::default(), 0);
    assert_eq!(moments(&page), vec![2, 4, 5]);
    assert_eq!(page.len(), 3);
}

#[test]
fn len_counts_inserts_less_successful_extractions() {
    let mut page = Page::default();
    for x in 0..20 {
        page.insert(Rectangle::new((x, 0).into(), (x + 1, 1).into()), 0);
    }
    assert_eq!(page.len(), 20);
    for t_index in [4, 9, 17] {
        let selector = selector_for(&page, t_index);
        assert!(page.extract(selector).is_some());
    }
    let stale = SelectByAddressFunction::new(
        Envelope::from_corners((3, 0).into(), (4, 1).into()),
        &TimedElement::new(Line::default(), 0, 4),
    );
    assert!(page.extract(stale).is_none());
    assert_eq!(page.len(), 17);
    assert_eq!(page.is_empty(), false);
    assert_eq!(moments(&page).len(), 17);
}

#[test]
fn inserted_shape_is_located_by_its_own_envelope() {
    let mut page = Page::default();
    page.insert(Rectangle::new((0, 0).into(), (100, 100).into()), 0);
    let line = Line::from_iter(vec![(3, 4), (10, 20), (7, -1)].iter());
    let envelope = line.envelope();
    page.insert(line, 2);
    assert_eq!(located(&page, envelope), vec![2]);
    assert_eq!(envelope.lower(), (3, -1));
    assert_eq!(envelope.upper(), (10, 20));
}

#[test]
fn extracting_one_twin_leaves_the_other() {
    let mut page = Page::default();
    page.insert(Rectangle::new((0, 0).into(), (5, 5).into()), 7);
    page.insert(Rectangle::new((0, 0).into(), (5, 5).into()), 7);
    let selector = selector_for(&page, 2);
    let extracted = page.extract(selector).unwrap();
    assert_eq!(extracted.t_index(), 2);
    assert_eq!(extracted.z_index(), 7);
    assert_eq!(moments(&page), vec![1]);
    let left = page.iter().next().unwrap();
    assert_eq!(left.z_index(), 7);
    assert_eq!(left.envelope(), extracted.envelope());
    let again = SelectByAddressFunction::new(extracted.envelope(), &extracted);
    assert!(page.extract(again).is_none());
    assert_eq!(page.len(), 1);
}

#[test]
fn locate_in_envelope_takes_what_lies_inside_sides_included() {
    let mut page = Page::default();
    page.insert(Line::from_iter(vec![(1, 2), (2, 3)].iter()), 0);
    page.insert(Line::from_iter(vec![(1, 2), (3, 5)].iter()), 0);
    page.insert(Line::from_iter(vec![(2, 4), (3, 5)].iter()), 0);
    page.insert(Line::from_iter(vec![(3, 5), (6, 7)].iter()), 0);
    page.insert(Line::from_iter(vec![(2, 4), (7, 8)].iter()), 0);
    page.insert(Line::from_iter(vec![(2, 4), (7, 9)].iter()), 0);
    let query = Envelope::from_corners((2, 4).into(), (7, 8).into());
    assert_eq!(located(&page, query), vec![3, 4, 5]);
    let reversed = Envelope::from_corners((7, 8).into(), (2, 4).into());
    assert_eq!(located(&page, reversed), vec![3, 4, 5]);
    let nothing = Envelope::from_corners((50, 50).into(), (60, 60).into());
    assert_eq!(located(&page, nothing), Vec::<u128>::new());
}

#[test]
fn extract_needs_the_envelope_of_the_element() {
    let mut page = Page::default();
    page.insert(Rectangle::new((0, 0).into(), (5, 5).into()), 0);
    let stored = page.iter().next().unwrap();
    let wrong = SelectByAddressFunction::new(
        Envelope::from_corners((0, 0).into(), (5, 6).into()),
        stored,
    );
    assert!(page.extract(wrong).is_none());
    assert_eq!(page.len(), 1);
    let stranger = TimedElement::new(Rectangle::new((0, 0).into(), (5, 5).into()), 0, 2);
    let unknown = SelectByAddressFunction::new(stranger.envelope(), &stranger);
    assert!(page.extract(unknown).is_none());
    assert_eq!(page.len(), 1);
    assert!(Page::default().extract(selector_for(&page, 1)).is_none());
}

#[test]
fn a_full_page_keeps_every_element_findable() {
    let mut page = Page::default();
    for x in 0..200i64 {
        page.insert(Rectangle::new((x * 3, -x).into(), (x * 3 + 2, x).into()), (x % 5) as i32);
    }
    assert_eq!(page.len(), 200);
    assert_eq!(moments(&page), (1..=200).collect::<Vec<u128>>());
    let query = Envelope::from_corners((0, -10).into(), (32, 10).into());
    assert_eq!(located(&page, query), (1..=11).collect::<Vec<u128>>());
    for t_index in (1..=200u128).filter(|t| t % 2 == 0) {
        let selector = selector_for(&page, t_index);
        let extracted = page.extract(selector).unwrap();
        assert_eq!(extracted.t_index(), t_index);
        assert_eq!(extracted.z_index(), ((t_index - 1) % 5) as i32);
    }
    assert_eq!(page.len(), 100);
    assert_eq!(located(&page, query), vec![1, 3, 5, 7, 9, 11]);
}

#[test]
fn selector_descends_where_the_bounds_hold_its_envelope() {
    let mut page = Page::default();
    page.insert(Rectangle::new((2, 2).into(), (4, 4).into()), 0);
    let selector = selector_for(&page, 1);
    assert!(selector.should_unpack_parent(&Envelope::from_corners((0, 0).into(), (4, 4).into())));
    assert!(selector.should_unpack_parent(&Envelope::from_corners((2, 2).into(), (4, 4).into())));
    assert!(!selector.should_unpack_parent(&Envelope::from_corners((3, 0).into(), (9, 9).into())));
    assert!(!selector.should_unpack_parent(&Envelope::from_corners((0, 0).into(), (4, 3).into())));
}

#[test]
fn selector_matches_the_element_it_was_made_from_and_no_other() {
    let mut page = Page::default();
    page.insert(Rectangle::new((2, 2).into(), (4, 4).into()), 0);
    page.insert(Rectangle::new((2, 2).into(), (4, 4).into()), 0);
    let selector = selector_for(&page, 1);
    let mut selection = page.iter();
    while let Some(stored) = selection.next() {
        assert_eq!(selector.should_unpack_leaf(stored), stored.t_index() == 1);
    }
    let twin = TimedElement::new(Rectangle::new((2, 2).into(), (4, 4).into()), 0, 1);
    assert!(!selector.should_unpack_leaf(&twin));
    assert!(!selector.should_unpack_leaf(&TimedElement::new(Line::default(), 5, 1)));
    let by_hand = SelectByAddressFunction::new(twin.envelope(), &twin);
    assert!(!by_hand.should_unpack_leaf(&twin));
    let mut selection = page.iter();
    while let Some(stored) = selection.next() {
        assert!(!by_hand.should_unpack_leaf(stored));
    }
}

#[test]
fn a_twin_made_by_hand_selects_nothing() {
    let mut page = Page::default();
    page.insert(Line::default(), 0);
    let t_index = page.iter().next().unwrap().t_index();
    let twin = TimedElement::new(Line::default(), 0, t_index);
    assert_eq!(twin, *page.iter().next().unwrap());
    assert_eq!(twin.envelope(), page.iter().next().unwrap().envelope());
    let selector = SelectByAddressFunction::new(twin.envelope(), &twin);
    assert!(page.extract(selector).is_none());
    assert_eq!(page.len(), 1);
    assert_eq!(moments(&page), vec![t_index]);
    let other_shape = TimedElement::new(Rectangle::new((0, 0).into(), (0, 0).into()), 9, t_index);
    let selector = SelectByAddressFunction::new(other_shape.envelope(), &other_shape);
    assert!(page.extract(selector).is_none());
    assert_eq!(page.len(), 1);
    let stored = page.iter().next().unwrap();
    assert_eq!(stored.z_index(), 0);
    assert!(stored.deref().downcast_ref::<Line>().is_some());
}

#[test]
fn an_element_of_another_page_selects_nothing() {
    let mut here = Page::with_mark(1);
    let mut there = Page::with_mark(2);
    here.insert(Rectangle::new((0, 0).into(), (5, 5).into()), 3);
    there.insert(Rectangle::new((0, 0).into(), (5, 5).into()), 3);
    let selector = selector_for(&there, 1);
    assert!(here.extract(selector).is_none());
    assert_eq!(here.len(), 1);
    let selector = selector_for(&there, 1);
    assert_eq!(there.extract(selector).unwrap().t_index(), 1);
    assert_eq!(there.len(), 0);
    let mut first = Page::default();
    let mut second = Page::default();
    first.insert(Line::default(), 0);
    second.insert(Line::default(), 0);
    let selector = selector_for(&second, 1);
    assert!(first.extract(selector).is_none());
    assert_eq!(first.len(), 1);
}

#[test]
fn an_extracted_element_selects_nothing_any_more() {
    let mut page = Page::default();
    page.insert(Line::default(), 0);
    page.insert(Line::default(), 0);
    let extracted = page.extract(selector_for(&page, 1)).unwrap();
    let again = SelectByAddressFunction::new(extracted.envelope(), &extracted);
    assert!(page.extract(again).is_none());
    page.insert(Line::default(), 0);
    let again = SelectByAddressFunction::new(extracted.envelope(), &extracted);
    assert!(page.extract(again).is_none());
    assert_eq!(moments(&page), vec![2, 3]);
}

#[test]
fn a_page_marks_what_it_takes_in() {
    let by_hand = TimedElement::new(Line::default(), 0, 1);
    assert_eq!(by_hand.origin(), None);
    let mut page = Page::with_mark(77);
    page.insert(Line::default(), 0);
    assert_eq!(page.iter().next().unwrap().origin(), Some(77));
    let extracted = page.extract(selector_for(&page, 1)).unwrap();
    assert_eq!(extracted.origin(), Some(77));
    let mut drawn = Page::default();
    drawn.insert(Line::default(), 0);
    assert!(drawn.iter().next().unwrap().origin().is_some());
}

#[test]
fn coordinates_up_to_the_limit_are_accepted() {
    let limit = canvas_journal::envelope::COORDINATE_LIMIT;
    assert_eq!(limit, 1152921504606846976);
    let mut page = Page::default();
    for step in 0..40i128 {
        let rectangle = Rectangle::new(
            (-limit + step, -limit).into(),
            (limit - step, limit).into(),
        );
        page.insert(rectangle, 0);
    }
    assert_eq!(page.len(), 40);
    let all = Envelope::from_corners((-limit, -limit).into(), (limit, limit).into());
    assert!(all.within_limit());
    assert_eq!(located(&page, all).len(), 40);
    let beyond = Envelope::from_corners((-limit - 1, 0).into(), (0, 0).into());
    assert!(!beyond.within_limit());
}

#[test]
fn page_accepts_what_lies_within_the_limit() {
    let limit = canvas_journal::envelope::COORDINATE_LIMIT;
    let page = Page::default();
    assert!(page.accepts(&Line::default()));
    assert!(page.accepts(&Rectangle::new((-limit, -limit).into(), (limit, limit).into())));
    assert!(!page.accepts(&Rectangle::new((0, 0).into(), (limit + 1, 0).into())));
    assert!(!page.accepts(&Line::from_iter(vec![(0i128, 0i128), (0, -limit - 1)].into_iter())));
    assert!(page.accepts(&Line::from_iter(vec![(0i128, limit), (limit, 0)].into_iter())));
}
