use vstd::prelude::*;
use vstd::std_specs::convert::IntoSpec;
use vstd::std_specs::iter::IteratorSpec;
use crate::elements::element::Element;
use crate::elements::element::ElementMut;
use crate::elements::element::ElementRef;
use crate::elements::element::Shape;
use crate::envelope::Envelope;
use crate::mutable_iter::points_iter_mut;
use crate::mutable_iter::points_to_come;
use crate::point::Point;

verus! {

/// A polyline: its points in the order in which they are joined.
#[derive(PartialEq, Eq, Debug, Clone, Hash)]
pub struct Line {
    points: Vec<Point>,
}

impl View for Line {
    type V = Seq<Point>;

    closed spec fn view(&self) -> Seq<Point> {
        self.points@
    }
}

impl Default for Line {
    fn default() -> (line: Self)
        ensures
            line@ == Seq::<Point>::empty(),
    {
        Line { points: Vec::new() }
    }
}

impl Line {
    /// The envelope of a line: the bounding box of its points, and the
    /// single point at the origin where the line has no point.
    pub open spec fn spec_envelope(&self) -> Envelope {
        if self@.len() == 0 {
            Envelope::spec_from_point(Point { x: 0, y: 0 })
        } else {
            Envelope::spec_bounding(self@)
        }
    }

    /// The envelope of every line is well formed. Where the line has a
    /// point, the envelope holds all points, and each of its sides passes
    /// through one.
    pub proof fn lemma_envelope_well_formed(self)
        ensures
            self.spec_envelope().well_formed(),
            self@.len() > 0 ==> crate::envelope::is_bounding_box(
                self.spec_envelope().lower(),
                self.spec_envelope().upper(),
                self@,
            ),
            self@.len() == 0 ==> self.spec_envelope().lower() == (Point { x: 0, y: 0 })
                && self.spec_envelope().upper() == (Point { x: 0, y: 0 }),
    {
        if self@.len() == 0 {
            Envelope::lemma_from_point(Point { x: 0, y: 0 });
        } else {
            Envelope::lemma_bounding(self@);
        }
    }

    /// The line through the points that `points` yields, in that order.
    pub fn from_iter<T, P>(points: T) -> (line: Self) where P: Into<Point>, T: Iterator<Item = P>
        requires
            points.obeys_prophetic_iter_laws(),
            points.decrease() is Some,
        ensures
            line@.len() == points.remaining().len(),
            P::obeys_into_spec() ==> forall|i: int|
                0 <= i < line@.len() ==> line@[i] == (#[trigger] points.remaining()[i]).into_spec(),
    {
        let mut source = points;
        let mut collected: Vec<Point> = Vec::new();
        loop
            invariant
                source.obeys_prophetic_iter_laws(),
                source.decrease() is Some,
                collected@.len() + source.remaining().len() == points.remaining().len(),
                source.remaining() == points.remaining().skip(collected@.len() as int),
                P::obeys_into_spec() ==> forall|i: int|
                    0 <= i < collected@.len() ==> collected@[i] == (
                    #[trigger] points.remaining()[i]).into_spec(),
            ensures
                source.remaining().len() == 0,
            decreases source.decrease()->0,
        {
            match source.next() {
                Some(point) => {
                    collected.push(point.into());
                },
                None => {
                    break ;
                },
            }
        }
        Line { points: collected }
    }

    pub fn push_back(&mut self, point: Point)
        ensures
            final(self)@ == old(self)@.push(point),
    {
        self.points.push(point);
    }

    /// Walks over the points in order.
    pub fn iter(&self) -> (iter: core::slice::Iter<'_, Point>)
        ensures
            iter.remaining() == self@.as_ref(),
            iter.obeys_prophetic_iter_laws(),
            iter.decrease() is Some,
    {
        let points = self.points.as_slice();
        proof {
            vstd::std_specs::slice::axiom_spec_slice_iter(points);
        }
        points.iter()
    }

    /// Walks over the points in order and hands out each point for
    /// changing: the pass holds all points of the line, first to last. The
    /// number of points stays.
    pub fn iter_mut(&mut self) -> (iter: core::slice::IterMut<'_, Point>)
        ensures
            points_to_come(iter) == old(self)@,
            final(self)@.len() == old(self)@.len(),
    {
        points_iter_mut(&mut self.points)
    }
}

impl<'a> IntoIterator for &'a Line {
    type Item = &'a Point;

    type IntoIter = core::slice::Iter<'a, Point>;

    /// The pass of `iter`: over the points in order.
    fn into_iter(self) -> (iter: core::slice::Iter<'a, Point>)
        ensures
            iter.remaining() == self@.as_ref(),
            iter.obeys_prophetic_iter_laws(),
            iter.decrease() is Some,
    {
        self.iter()
    }
}

impl<'a> IntoIterator for &'a mut Line {
    type Item = &'a mut Point;

    type IntoIter = core::slice::IterMut<'a, Point>;

    /// The pass of `iter_mut`: over the points in order, each handed out
    /// for changing. The number of points stays.
    fn into_iter(self) -> (iter: core::slice::IterMut<'a, Point>)
        ensures
            points_to_come(iter) == old(self)@,
            final(self)@.len() == old(self)@.len(),
    {
        self.iter_mut()
    }
}

impl Element for Line {
    open spec fn shape_spec(&self) -> Shape {
        Shape::Line(*self)
    }

    fn envelope(&self) -> (envelope: Envelope) {
        match Envelope::from_points(&self.points) {
            Some(bounds) => bounds,
            None => {
                proof {
                    Envelope::lemma_from_point(Point { x: 0, y: 0 });
                }
                Envelope::from_point(Point { x: 0, y: 0 })
            },
        }
    }

    fn into_shape(self) -> (shape: Shape) {
        Shape::Line(self)
    }

    fn as_any(&self) -> (any: ElementRef<'_>) {
        ElementRef::Line(self)
    }

    fn as_any_mut(&mut self) -> (any: ElementMut<'_>) {
        ElementMut::Line(self)
    }

    fn from_any<'a>(any: ElementRef<'a>) -> (found: Option<&'a Self>) {
        match any {
            ElementRef::Line(line) => Some(line),
            ElementRef::Rectangle(_) => None,
        }
    }

    fn from_any_mut<'a>(any: ElementMut<'a>) -> (found: Option<&'a mut Self>) {
        match any {
            ElementMut::Line(line) => Some(line),
            ElementMut::Rectangle(_) => None,
        }
    }
}

} // verus!
