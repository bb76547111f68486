use vstd::prelude::*;
use crate::elements::element::Element;
use crate::elements::element::ElementMut;
use crate::elements::element::ElementRef;
use crate::elements::element::Shape;
use crate::envelope::max_of;
use crate::envelope::min_of;
use crate::envelope::Envelope;
use crate::point::Point;

verus! {

/// An axis-aligned rectangle. Its lower corner is never above or to the
/// right of its upper corner.
#[derive(Debug)]
pub struct Rectangle {
    lower: Point,
    upper: Point,
}

impl Rectangle {
    #[verifier::type_invariant]
    pub closed spec fn well_formed(self) -> bool {
        self.lower.x <= self.upper.x && self.lower.y <= self.upper.y
    }

    pub closed spec fn spec_lower(&self) -> Point {
        self.lower
    }

    pub closed spec fn spec_upper(&self) -> Point {
        self.upper
    }

    /// The rectangle between two opposite corners.
    pub closed spec fn spec_new(lower: Point, upper: Point) -> Rectangle {
        Rectangle {
            lower: Point { x: min_of(lower.x, upper.x), y: min_of(lower.y, upper.y) },
            upper: Point { x: max_of(lower.x, upper.x), y: max_of(lower.y, upper.y) },
        }
    }

    /// The envelope of a rectangle is the rectangle itself.
    pub open spec fn spec_envelope(&self) -> Envelope {
        Envelope::spec_from_corners(self.lower(), self.upper())
    }

    /// The envelope of every rectangle is well formed; for a rectangle
    /// whose corners are sorted it has the rectangle's own corners.
    pub proof fn lemma_envelope_well_formed(self)
        ensures
            self.spec_envelope().well_formed(),
            self.well_formed() ==> self.spec_envelope().lower() == self.lower()
                && self.spec_envelope().upper() == self.upper(),
    {
        Envelope::lemma_from_corners(self.lower(), self.upper());
    }

    /// Sorts the coordinates of two opposite corners: on each axis the
    /// smaller number goes to the lower corner, the larger to the upper.
    pub fn get_real_lower_and_upper(lower: Point, upper: Point) -> (corners: (Point, Point))
        ensures
            corners.0 == (Point { x: min_of(lower.x, upper.x), y: min_of(lower.y, upper.y) }),
            corners.1 == (Point { x: max_of(lower.x, upper.x), y: max_of(lower.y, upper.y) }),
    {
        let real_lower = Point {
            x: if lower.x <= upper.x { lower.x } else { upper.x },
            y: if lower.y <= upper.y { lower.y } else { upper.y },
        };
        let real_upper = Point {
            x: if lower.x >= upper.x { lower.x } else { upper.x },
            y: if lower.y >= upper.y { lower.y } else { upper.y },
        };
        (real_lower, real_upper)
    }

    /// The rectangle between two opposite corners, given in any order.
    pub fn new(lower: Point, upper: Point) -> (rectangle: Self)
        ensures
            rectangle == Rectangle::spec_new(lower, upper),
            rectangle.well_formed(),
            rectangle.lower() == (Point { x: min_of(lower.x, upper.x), y: min_of(lower.y, upper.y) }),
            rectangle.upper() == (Point { x: max_of(lower.x, upper.x), y: max_of(lower.y, upper.y) }),
    {
        let (real_lower, real_upper) = Self::get_real_lower_and_upper(lower, upper);
        Rectangle { lower: real_lower, upper: real_upper }
    }

    #[verifier::when_used_as_spec(spec_lower)]
    pub fn lower(&self) -> (corner: Point)
        ensures
            corner == self.spec_lower(),
    {
        self.lower
    }

    #[verifier::when_used_as_spec(spec_upper)]
    pub fn upper(&self) -> (corner: Point)
        ensures
            corner == self.spec_upper(),
    {
        self.upper
    }

    /// A rectangle is told apart by its corners alone.
    pub proof fn lemma_equal_by_corners(self, other: Rectangle)
        requires
            self.lower() == other.lower(),
            self.upper() == other.upper(),
        ensures
            self == other,
    {
    }

    /// A rectangle comes out the same whichever of its four corners are
    /// given, and in whichever order: the two corners of one diagonal, or of
    /// the other, first or second. Its lower corner holds the smaller
    /// coordinate of each axis, its upper corner the larger.
    pub proof fn lemma_corner_order(a: Point, b: Point)
        ensures
            Rectangle::spec_new(a, b) == Rectangle::spec_new(b, a),
            Rectangle::spec_new(a, b) == Rectangle::spec_new(
                Point { x: a.x, y: b.y },
                Point { x: b.x, y: a.y },
            ),
            Rectangle::spec_new(a, b) == Rectangle::spec_new(
                Point { x: b.x, y: a.y },
                Point { x: a.x, y: b.y },
            ),
            Rectangle::spec_new(a, b).well_formed(),
            Rectangle::spec_new(a, b).lower() == (Point { x: min_of(a.x, b.x), y: min_of(a.y, b.y) }),
            Rectangle::spec_new(a, b).upper() == (Point { x: max_of(a.x, b.x), y: max_of(a.y, b.y) }),
    {
    }
}

impl Element for Rectangle {
    open spec fn shape_spec(&self) -> Shape {
        Shape::Rectangle(*self)
    }

    fn envelope(&self) -> (envelope: Envelope) {
        proof {
            use_type_invariant(self);
            Envelope::lemma_from_corners(self.lower, self.upper);
        }
        Envelope::from_corners(self.lower, self.upper)
    }

    fn into_shape(self) -> (shape: Shape) {
        Shape::Rectangle(self)
    }

    fn as_any(&self) -> (any: ElementRef<'_>) {
        ElementRef::Rectangle(self)
    }

    fn as_any_mut(&mut self) -> (any: ElementMut<'_>) {
        ElementMut::Rectangle(self)
    }

    fn from_any<'a>(any: ElementRef<'a>) -> (found: Option<&'a Self>) {
        match any {
            ElementRef::Rectangle(rectangle) => Some(rectangle),
            ElementRef::Line(_) => None,
        }
    }

    fn from_any_mut<'a>(any: ElementMut<'a>) -> (found: Option<&'a mut Self>) {
        match any {
            ElementMut::Rectangle(rectangle) => Some(rectangle),
            ElementMut::Line(_) => None,
        }
    }
}

} // verus!
