use vstd::prelude::*;
use core::cmp::Ordering;
use crate::elements::element::Element;
use crate::elements::element::ElementMut;
use crate::elements::element::ElementRef;
use crate::elements::element::Shape;
use crate::envelope::Envelope;

verus! {

/// A shape together with the layer it is drawn on and the moment it was
/// added. Two timed elements are equal when layer and moment agree, whatever
/// their shapes; they are ordered by layer first and by moment second.
///
/// An element that a page has taken in also carries the mark of that page.
/// Mark and moment together are its identity: the page gives them to this
/// element and to no other. An element that was made by hand carries no
/// mark and has no identity.
#[derive(Debug)]
pub struct TimedElement {
    z_index: i32,
    t_index: u128,
    origin: Option<u64>,
    element: Shape,
}

impl TimedElement {
    pub closed spec fn spec_z_index(&self) -> i32 {
        self.z_index
    }

    pub closed spec fn spec_t_index(&self) -> u128 {
        self.t_index
    }

    /// The shape that this element wraps.
    pub closed spec fn shape(&self) -> Shape {
        self.element
    }

    /// The mark of the page that took this element in; `None` for an
    /// element that no page took in.
    pub closed spec fn spec_origin(&self) -> Option<u64> {
        self.origin
    }

    /// The element that wraps `shape` on layer `z_index` with the moment
    /// `t_index`, made by hand: it carries no mark.
    pub closed spec fn spec_new(shape: Shape, z_index: i32, t_index: u128) -> TimedElement {
        TimedElement { z_index, t_index, origin: None, element: shape }
    }

    /// The element that wraps `shape` on layer `z_index` with the moment
    /// `t_index`, as the page with the mark `mark` takes it in.
    pub closed spec fn spec_issued(shape: Shape, z_index: i32, t_index: u128, mark: u64)
        -> TimedElement {
        TimedElement { z_index, t_index, origin: Some(mark), element: shape }
    }

    /// The parts of `spec_new` are the ones it was made from, and it
    /// carries no mark.
    pub proof fn lemma_new(shape: Shape, z_index: i32, t_index: u128)
        ensures
            TimedElement::spec_new(shape, z_index, t_index).z_index() == z_index,
            TimedElement::spec_new(shape, z_index, t_index).t_index() == t_index,
            TimedElement::spec_new(shape, z_index, t_index).shape() == shape,
            TimedElement::spec_new(shape, z_index, t_index).origin() is None,
    {
    }

    /// The parts of `spec_issued` are the ones it was made from.
    pub proof fn lemma_issued(shape: Shape, z_index: i32, t_index: u128, mark: u64)
        ensures
            TimedElement::spec_issued(shape, z_index, t_index, mark).z_index() == z_index,
            TimedElement::spec_issued(shape, z_index, t_index, mark).t_index() == t_index,
            TimedElement::spec_issued(shape, z_index, t_index, mark).shape() == shape,
            TimedElement::spec_issued(shape, z_index, t_index, mark).origin() == Some(mark),
    {
    }

    /// The envelope of the wrapped shape.
    pub open spec fn spec_envelope(&self) -> Envelope {
        self.shape().spec_envelope()
    }

    /// A timed element is told apart by its layer, its moment, its mark
    /// and its shape.
    pub proof fn lemma_equal_by_parts(self, other: TimedElement)
        requires
            self.z_index() == other.z_index(),
            self.t_index() == other.t_index(),
            self.origin() == other.origin(),
            self.shape() == other.shape(),
        ensures
            self == other,
    {
    }

    /// Wraps `element` by hand. The result carries no mark: it is no
    /// element of any page and cannot stand for one.
    pub fn new<T: Element>(element: T, z_index: i32, t_index: u128) -> (timed: Self)
        ensures
            timed == TimedElement::spec_new(element.shape_spec(), z_index, t_index),
            timed.z_index() == z_index,
            timed.t_index() == t_index,
            timed.origin() is None,
            timed.shape() == element.shape_spec(),
    {
        TimedElement { z_index, t_index, origin: None, element: element.into_shape() }
    }

    /// Wraps `element` as the page with the mark `mark` takes it in.
    pub(crate) fn issued<T: Element>(element: T, z_index: i32, t_index: u128, mark: u64) -> (timed:
        Self)
        ensures
            timed == TimedElement::spec_issued(element.shape_spec(), z_index, t_index, mark),
            timed.z_index() == z_index,
            timed.t_index() == t_index,
            timed.origin() == Some(mark),
            timed.shape() == element.shape_spec(),
    {
        TimedElement { z_index, t_index, origin: Some(mark), element: element.into_shape() }
    }

    #[verifier::when_used_as_spec(spec_origin)]
    pub fn origin(&self) -> (mark: Option<u64>)
        ensures
            mark == self.spec_origin(),
    {
        self.origin
    }

    #[verifier::when_used_as_spec(spec_z_index)]
    pub fn z_index(&self) -> (layer: i32)
        ensures
            layer == self.spec_z_index(),
    {
        self.z_index
    }

    #[verifier::when_used_as_spec(spec_t_index)]
    pub fn t_index(&self) -> (moment: u128)
        ensures
            moment == self.spec_t_index(),
    {
        self.t_index
    }

    #[verifier::when_used_as_spec(spec_envelope)]
    pub fn envelope(&self) -> (envelope: Envelope)
        ensures
            envelope == self.spec_envelope(),
            envelope.well_formed(),
    {
        self.element.envelope()
    }

    /// A handle on the wrapped shape, to be downcast to its concrete kind.
    pub fn deref(&self) -> (any: ElementRef<'_>)
        ensures
            any.shape() == self.shape(),
    {
        self.element.as_any()
    }

    /// A handle on the wrapped shape for changing it in place. Layer,
    /// moment and mark stay as they are; the shape becomes what the handle
    /// is left pointing at.
    pub fn deref_mut(&mut self) -> (any: ElementMut<'_>)
        ensures
            any.shape() == old(self).shape(),
            final(self).z_index() == old(self).z_index(),
            final(self).t_index() == old(self).t_index(),
            final(self).origin() == old(self).origin(),
            match any {
                ElementMut::Line(line) => final(self).shape() == Shape::Line(*final(line)),
                ElementMut::Rectangle(rectangle) => final(self).shape() == Shape::Rectangle(
                    *final(rectangle),
                ),
            },
    {
        self.element.as_any_mut()
    }

    /// The order of two elements: by layer, and within a layer by moment.
    pub open spec fn key_order(&self, other: &TimedElement) -> Ordering {
        if self.z_index() < other.z_index() {
            Ordering::Less
        } else if self.z_index() > other.z_index() {
            Ordering::Greater
        } else if self.t_index() < other.t_index() {
            Ordering::Less
        } else if self.t_index() > other.t_index() {
            Ordering::Greater
        } else {
            Ordering::Equal
        }
    }

    /// The order is a total order on the pairs of layer and moment: it is
    /// `Equal` exactly on equal pairs, it turns around when its arguments
    /// are swapped, and it is transitive.
    pub proof fn lemma_order_is_total(a: TimedElement, b: TimedElement, c: TimedElement)
        ensures
            a.key_order(&b) == Ordering::Equal <==> a.z_index() == b.z_index() && a.t_index()
                == b.t_index(),
            a.key_order(&b) == Ordering::Less <==> b.key_order(&a) == Ordering::Greater,
            a.key_order(&b) == Ordering::Less && b.key_order(&c) == Ordering::Less ==> a.key_order(&c)
                == Ordering::Less,
    {
    }
}

impl PartialEq for TimedElement {
    fn eq(&self, other: &Self) -> (equal: bool) {
        self.t_index == other.t_index && self.z_index == other.z_index
    }
}

impl vstd::std_specs::cmp::PartialEqSpecImpl for TimedElement {
    open spec fn obeys_eq_spec() -> bool {
        true
    }

    open spec fn eq_spec(&self, other: &Self) -> bool {
        self.t_index() == other.t_index() && self.z_index() == other.z_index()
    }
}

impl PartialOrd for TimedElement {
    fn partial_cmp(&self, other: &Self) -> (order: Option<Ordering>) {
        if self.z_index < other.z_index {
            return Some(Ordering::Less);
        }
        if self.z_index > other.z_index {
            return Some(Ordering::Greater);
        }
        if self.t_index < other.t_index {
            return Some(Ordering::Less);
        }
        if self.t_index > other.t_index {
            return Some(Ordering::Greater);
        }
        Some(Ordering::Equal)
    }
}

impl vstd::std_specs::cmp::PartialOrdSpecImpl for TimedElement {
    open spec fn obeys_partial_cmp_spec() -> bool {
        true
    }

    open spec fn partial_cmp_spec(&self, other: &Self) -> Option<Ordering> {
        Some(self.key_order(other))
    }
}

} // verus!
