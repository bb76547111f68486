use canvas_journal::Line;
use canvas_journal::SelectionIter;
use canvas_journal::TimedElement;

#[test]
fn next_forwards_to_internal_iterator() {
    let timed_element = TimedElement::new(Line::default(), 0, 0);
    let vec = vec![&timed_element];

    let mut iter = SelectionIter::new(vec);
    let element_ref: Option<&TimedElement> = iter.next();
    assert_eq!(element_ref, Some(&timed_element));
    assert_eq!(iter.next(), None);
}

#[test]
fn hands_out_front_to_back_and_then_nothing() {
    let first = TimedElement::new(Line::default(), 0, 1);
    let second = TimedElement::new(Line::default(), 0, 2);
    let third = TimedElement::new(Line::default(), 0, 3);
    let mut iter = SelectionIter::new(vec![&first, &second, &third]);
    assert_eq!(iter.next().unwrap().t_index(), 1);
    assert_eq!(iter.next().unwrap().t_index(), 2);
    assert_eq!(iter.next().unwrap().t_index(), 3);
    assert!(iter.next().is_none());
    assert!(iter.next().is_none());
}

#[test]
fn empty_pass_ends_at_once() {
    let mut iter = SelectionIter::new(Vec::new());
    assert!(iter.next().is_none());
}
