use vstd::prelude::*;
use crate::point::Point;

verus! {

/// Largest magnitude of a coordinate that a page's spatial index accepts.
/// The index multiplies and adds extents of bounding boxes; with every
/// coordinate inside this bound those products and sums stay far inside
/// the range of `i128`.
pub const COORDINATE_LIMIT: i128 = 0x1000_0000_0000_0000;

/// The smaller of two numbers.
pub open spec fn min_of(a: i128, b: i128) -> i128 {
    if a <= b {
        a
    } else {
        b
    }
}

/// The larger of two numbers.
pub open spec fn max_of(a: i128, b: i128) -> i128 {
    if a >= b {
        a
    } else {
        b
    }
}

fn lesser(a: i128, b: i128) -> (m: i128)
    ensures
        m == min_of(a, b),
{
    if a <= b {
        a
    } else {
        b
    }
}

fn greater(a: i128, b: i128) -> (m: i128)
    ensures
        m == max_of(a, b),
{
    if a >= b {
        a
    } else {
        b
    }
}

/// `lower` and `upper` bound every point of `points` on both axes, and each
/// of the four bounds is reached by some point.
pub open spec fn is_bounding_box(lower: Point, upper: Point, points: Seq<Point>) -> bool {
    &&& forall|i: int|
        0 <= i < points.len() ==> {
            &&& lower.x <= (#[trigger] points[i]).x <= upper.x
            &&& lower.y <= points[i].y <= upper.y
        }
    &&& exists|i: int| 0 <= i < points.len() && (#[trigger] points[i]).x == lower.x
    &&& exists|i: int| 0 <= i < points.len() && (#[trigger] points[i]).y == lower.y
    &&& exists|i: int| 0 <= i < points.len() && (#[trigger] points[i]).x == upper.x
    &&& exists|i: int| 0 <= i < points.len() && (#[trigger] points[i]).y == upper.y
}

/// An axis-aligned bounding box with closed sides. Its lower corner is never
/// above or to the right of its upper corner.
#[derive(PartialEq, Eq, Structural, Debug, Clone, Copy, Hash)]
pub struct Envelope {
    lower: Point,
    upper: Point,
}

impl Envelope {
    #[verifier::type_invariant]
    pub closed spec fn well_formed(self) -> bool {
        self.lower.x <= self.upper.x && self.lower.y <= self.upper.y
    }

    /// The corner with the smallest coordinates.
    pub closed spec fn spec_lower(&self) -> Point {
        self.lower
    }

    /// The corner with the largest coordinates.
    pub closed spec fn spec_upper(&self) -> Point {
        self.upper
    }

    /// The envelope that holds exactly one point.
    pub closed spec fn spec_from_point(point: Point) -> Envelope {
        Envelope { lower: point, upper: point }
    }

    /// The smallest envelope that holds both corners.
    pub closed spec fn spec_from_corners(corner_1: Point, corner_2: Point) -> Envelope {
        Envelope {
            lower: Point { x: min_of(corner_1.x, corner_2.x), y: min_of(corner_1.y, corner_2.y) },
            upper: Point { x: max_of(corner_1.x, corner_2.x), y: max_of(corner_1.y, corner_2.y) },
        }
    }

    /// The smallest envelope that holds every point of `points`, built up
    /// point by point. It is meant for sequences with at least one point.
    pub closed spec fn spec_bounding(points: Seq<Point>) -> Envelope
        decreases points.len(),
    {
        if points.len() <= 1 {
            Envelope::spec_from_point(points[0])
        } else {
            let rest = Envelope::spec_bounding(points.drop_last());
            let point = points.last();
            Envelope {
                lower: Point { x: min_of(rest.lower.x, point.x), y: min_of(rest.lower.y, point.y) },
                upper: Point { x: max_of(rest.upper.x, point.x), y: max_of(rest.upper.y, point.y) },
            }
        }
    }

    /// The corners of `spec_from_point`.
    pub proof fn lemma_from_point(point: Point)
        ensures
            Envelope::spec_from_point(point).well_formed(),
            Envelope::spec_from_point(point).lower() == point,
            Envelope::spec_from_point(point).upper() == point,
    {
    }

    /// The corners of `spec_from_corners`: on each axis the smaller number
    /// goes to the lower corner and the larger to the upper corner.
    pub proof fn lemma_from_corners(corner_1: Point, corner_2: Point)
        ensures
            Envelope::spec_from_corners(corner_1, corner_2).well_formed(),
            Envelope::spec_from_corners(corner_1, corner_2).lower() == (Point {
                x: min_of(corner_1.x, corner_2.x),
                y: min_of(corner_1.y, corner_2.y),
            }),
            Envelope::spec_from_corners(corner_1, corner_2).upper() == (Point {
                x: max_of(corner_1.x, corner_2.x),
                y: max_of(corner_1.y, corner_2.y),
            }),
    {
    }

    /// `spec_bounding` of at least one point is the tight bounding box: it
    /// holds every point, and each of its sides passes through a point.
    pub proof fn lemma_bounding(points: Seq<Point>)
        requires
            points.len() > 0,
        ensures
            Envelope::spec_bounding(points).well_formed(),
            is_bounding_box(
                Envelope::spec_bounding(points).lower(),
                Envelope::spec_bounding(points).upper(),
                points,
            ),
        decreases points.len(),
    {
        let bounds = Envelope::spec_bounding(points);
        if points.len() == 1 {
            assert(points[0].x == bounds.lower.x);
        } else {
            let front = points.drop_last();
            let rest = Envelope::spec_bounding(front);
            Envelope::lemma_bounding(front);
            let last = points.len() - 1;
            assert(forall|i: int| 0 <= i < last ==> front[i] == points[i]);
            let lx = choose|i: int| 0 <= i < front.len() && (#[trigger] front[i]).x == rest.lower.x;
            let ly = choose|i: int| 0 <= i < front.len() && (#[trigger] front[i]).y == rest.lower.y;
            let ux = choose|i: int| 0 <= i < front.len() && (#[trigger] front[i]).x == rest.upper.x;
            let uy = choose|i: int| 0 <= i < front.len() && (#[trigger] front[i]).y == rest.upper.y;
            assert(points[lx].x == rest.lower.x && points[ly].y == rest.lower.y);
            assert(points[ux].x == rest.upper.x && points[uy].y == rest.upper.y);
            assert(points[last] == points.last());
            assert forall|i: int| 0 <= i < points.len() implies {
                &&& bounds.lower.x <= (#[trigger] points[i]).x <= bounds.upper.x
                &&& bounds.lower.y <= points[i].y <= bounds.upper.y
            } by {
                if i < last {
                    assert(front[i] == points[i]);
                }
            }
        }
    }

    /// Two envelopes with the same corners are the same envelope.
    pub proof fn lemma_equal_by_corners(self, other: Envelope)
        requires
            self.lower() == other.lower(),
            self.upper() == other.upper(),
        ensures
            self == other,
    {
    }

    /// In a well-formed envelope the lower corner is below and left of the
    /// upper corner, or on it.
    pub proof fn lemma_well_formed(self)
        ensures
            self.well_formed() <==> self.lower().x <= self.upper().x && self.lower().y
                <= self.upper().y,
    {
    }

    /// The envelope that holds exactly one point.
    #[verifier::when_used_as_spec(spec_from_point)]
    pub fn from_point(point: Point) -> (envelope: Self)
        ensures
            envelope == Envelope::spec_from_point(point),
            envelope.well_formed(),
            envelope.lower() == point,
            envelope.upper() == point,
    {
        Envelope { lower: point, upper: point }
    }

    /// The smallest envelope that holds both corners, in whatever order
    /// they are given.
    #[verifier::when_used_as_spec(spec_from_corners)]
    pub fn from_corners(corner_1: Point, corner_2: Point) -> (envelope: Self)
        ensures
            envelope == Envelope::spec_from_corners(corner_1, corner_2),
            envelope.well_formed(),
            envelope.lower() == (Point {
                x: min_of(corner_1.x, corner_2.x),
                y: min_of(corner_1.y, corner_2.y),
            }),
            envelope.upper() == (Point {
                x: max_of(corner_1.x, corner_2.x),
                y: max_of(corner_1.y, corner_2.y),
            }),
    {
        Envelope {
            lower: Point { x: lesser(corner_1.x, corner_2.x), y: lesser(corner_1.y, corner_2.y) },
            upper: Point {
                x: greater(corner_1.x, corner_2.x),
                y: greater(corner_1.y, corner_2.y),
            },
        }
    }

    /// The smallest envelope that holds every point of `points`, or `None`
    /// where there is no point.
    pub fn from_points(points: &Vec<Point>) -> (bounds: Option<Self>)
        ensures
            bounds is None <==> points@.len() == 0,
            bounds matches Some(envelope) ==> {
                &&& envelope == Envelope::spec_bounding(points@)
                &&& envelope.well_formed()
                &&& is_bounding_box(envelope.lower(), envelope.upper(), points@)
            },
    {
        if points.len() == 0 {
            return None;
        }
        let mut lower = points[0];
        let mut upper = points[0];
        let mut index: usize = 1;
        assert(points@.take(1).len() == 1 && points@.take(1)[0] == points@[0]);
        while index < points.len()
            invariant
                1 <= index <= points.len(),
                (Envelope { lower, upper }) == Envelope::spec_bounding(points@.take(index as int)),
            decreases points.len() - index,
        {
            let point = points[index];
            proof {
                let after = points@.take(index + 1);
                assert(after.drop_last() =~= points@.take(index as int));
                assert(after.last() == point);
            }
            lower = Point { x: lesser(lower.x, point.x), y: lesser(lower.y, point.y) };
            upper = Point { x: greater(upper.x, point.x), y: greater(upper.y, point.y) };
            index = index + 1;
        }
        proof {
            assert(points@.take(index as int) =~= points@);
            Envelope::lemma_bounding(points@);
        }
        Some(Envelope { lower, upper })
    }

    #[verifier::when_used_as_spec(spec_lower)]
    pub fn lower(&self) -> (corner: Point)
        ensures
            corner == self.spec_lower(),
    {
        self.lower
    }

    #[verifier::when_used_as_spec(spec_upper)]
    pub fn upper(&self) -> (corner: Point)
        ensures
            corner == self.spec_upper(),
    {
        self.upper
    }

    /// `other` lies inside `self`; touching sides count as inside.
    pub open spec fn spec_contains_envelope(&self, other: &Envelope) -> bool {
        &&& self.lower().x <= other.lower().x
        &&& self.lower().y <= other.lower().y
        &&& self.upper().x >= other.upper().x
        &&& self.upper().y >= other.upper().y
    }

    #[verifier::when_used_as_spec(spec_contains_envelope)]
    pub fn contains_envelope(&self, other: &Envelope) -> (inside: bool)
        ensures
            inside == self.spec_contains_envelope(other),
    {
        self.lower.x <= other.lower.x && self.lower.y <= other.lower.y && self.upper.x
            >= other.upper.x && self.upper.y >= other.upper.y
    }

    /// `self` and `other` share at least one point; touching sides and
    /// corners count.
    pub open spec fn spec_intersects(&self, other: &Envelope) -> bool {
        &&& self.lower().x <= other.upper().x
        &&& self.lower().y <= other.upper().y
        &&& self.upper().x >= other.lower().x
        &&& self.upper().y >= other.lower().y
    }

    #[verifier::when_used_as_spec(spec_intersects)]
    pub fn intersects(&self, other: &Envelope) -> (touching: bool)
        ensures
            touching == self.spec_intersects(other),
    {
        self.lower.x <= other.upper.x && self.lower.y <= other.upper.y && self.upper.x
            >= other.lower.x && self.upper.y >= other.lower.y
    }

    /// No side lies further than `COORDINATE_LIMIT` from zero: the lower
    /// corner is not below or left of `-COORDINATE_LIMIT`, the upper corner
    /// not above or right of `COORDINATE_LIMIT`.
    pub open spec fn spec_within_limit(&self) -> bool {
        &&& -COORDINATE_LIMIT <= self.lower().x
        &&& -COORDINATE_LIMIT <= self.lower().y
        &&& self.upper().x <= COORDINATE_LIMIT
        &&& self.upper().y <= COORDINATE_LIMIT
    }

    #[verifier::when_used_as_spec(spec_within_limit)]
    pub fn within_limit(&self) -> (fits: bool)
        ensures
            fits == self.spec_within_limit(),
    {
        -COORDINATE_LIMIT <= self.lower.x && -COORDINATE_LIMIT <= self.lower.y && self.upper.x
            <= COORDINATE_LIMIT && self.upper.y <= COORDINATE_LIMIT
    }

    /// An envelope shares points with every well-formed envelope that lies
    /// inside it.
    pub proof fn lemma_contained_intersects(self, other: Envelope)
        requires
            other.well_formed(),
            self.contains_envelope(&other),
        ensures
            self.intersects(&other),
    {
    }
}

} // verus!
