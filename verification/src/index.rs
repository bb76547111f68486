use vstd::prelude::*;
use vstd::multiset::Multiset;
use rstar::primitives::GeomWithData;
use rstar::primitives::Rectangle;
use rstar::RTree;
use rstar::AABB;
use crate::envelope::Envelope;
use crate::point::Point;

verus! {

/// What the spatial index keeps of one element: the element's envelope and
/// the number by which the element is found again.
#[derive(PartialEq, Eq, Structural, Debug, Clone, Copy)]
pub struct IndexEntry {
    pub envelope: Envelope,
    pub id: u128,
}

impl IndexEntry {
    /// The entry for the box between two corners, given as the index
    /// stores them: `[x, y]`.
    pub fn from_corners(lower: [i128; 2], upper: [i128; 2], id: u128) -> (entry: Self)
        ensures
            entry.id == id,
            entry.envelope == Envelope::spec_from_corners(
                Point { x: lower[0], y: lower[1] },
                Point { x: upper[0], y: upper[1] },
            ),
    {
        IndexEntry {
            envelope: Envelope::from_corners(
                Point { x: lower[0], y: lower[1] },
                Point { x: upper[0], y: upper[1] },
            ),
            id,
        }
    }
}

/// A point as the index stores it: `[x, y]`.
pub fn corner_of(point: Point) -> (corner: [i128; 2])
    ensures
        corner[0] == point.x,
        corner[1] == point.y,
{
    [point.x, point.y]
}

/// An R*-tree of `rstar` over boxes with whole-number corners, each box
/// carrying the number of the element it stands for. The tree is hidden
/// from the verifier: what is known of it is what the functions below
/// state over `index_entries`.
#[verifier::external_body]
pub struct SpatialIndex {
    tree: RTree<GeomWithData<Rectangle<[i128; 2]>, u128>>,
}

/// The entries that the tree holds, each as often as it was inserted and
/// not yet removed.
pub uninterp spec fn index_entries(index: SpatialIndex) -> Multiset<IndexEntry>;

/// Every envelope in `entries` is well formed and within the coordinate limit.
pub open spec fn entries_within_limit(entries: Multiset<IndexEntry>) -> bool {
    forall|entry: IndexEntry| #[trigger]
        entries.count(entry) > 0 ==> entry.envelope.well_formed()
            && entry.envelope.within_limit()
}

/// `RTree::new`: a tree with default parameters that holds nothing.
#[verifier::external_body]
pub(crate) fn index_new() -> (index: SpatialIndex)
    ensures
        index_entries(index) == Multiset::<IndexEntry>::empty(),
{
    SpatialIndex { tree: RTree::new() }
}

/// `RTree::size`: the number of entries held, counting repeated ones as
/// often as they occur.
#[verifier::external_body]
pub(crate) fn index_size(index: &SpatialIndex) -> (size: usize)
    ensures
        size == index_entries(*index).len(),
{
    index.tree.size()
}

/// `RTree::insert`: adds one entry and keeps all others. The insertion
/// weighs areas, overlaps and margins of boxes against each other, in the
/// arithmetic of the coordinate type; the limit on all coordinates keeps
/// those products and sums inside `i128`.
#[verifier::external_body]
pub(crate) fn index_insert(index: &mut SpatialIndex, envelope: &Envelope, id: u128)
    requires
        envelope.well_formed(),
        envelope.within_limit(),
        entries_within_limit(index_entries(*old(index))),
        index_entries(*old(index)).len() < usize::MAX,
    ensures
        index_entries(*final(index)) == index_entries(*old(index)).insert(
            IndexEntry { envelope: *envelope, id },
        ),
{
    let rectangle = Rectangle::from_corners(corner_of(envelope.lower()), corner_of(envelope.upper()));
    index.tree.insert(GeomWithData::new(rectangle, id));
}

/// `RTree::iter`: every entry held, each as often as it is held, in an
/// order that the tree chooses.
#[verifier::external_body]
pub(crate) fn index_iter(index: &SpatialIndex) -> (entries: Vec<IndexEntry>)
    ensures
        entries@.to_multiset() == index_entries(*index),
{
    index.tree.iter().map(
        |item| IndexEntry::from_corners(item.geom().lower(), item.geom().upper(), item.data),
    ).collect()
}

/// `RTree::locate_in_envelope`: the entries whose envelope lies inside
/// `envelope`, sides included, each as often as it is held, in an order
/// that the tree chooses.
#[verifier::external_body]
pub(crate) fn index_locate_in_envelope(index: &SpatialIndex, envelope: &Envelope) -> (entries: Vec<
    IndexEntry,
>)
    requires
        envelope.well_formed(),
    ensures
        forall|entry: IndexEntry| #[trigger]
            entries@.to_multiset().count(entry) == if envelope.contains_envelope(&entry.envelope) {
                index_entries(*index).count(entry)
            } else {
                0
            },
{
    let query = AABB::from_corners(corner_of(envelope.lower()), corner_of(envelope.upper()));
    index.tree.locate_in_envelope(query).map(
        |item| IndexEntry::from_corners(item.geom().lower(), item.geom().upper(), item.data),
    ).collect()
}

/// `RTree::remove`: takes out one entry equal to the given one, envelope
/// and number alike, and hands it back; where the tree holds no such entry
/// it is left as it was.
#[verifier::external_body]
pub(crate) fn index_remove(index: &mut SpatialIndex, envelope: &Envelope, id: u128) -> (removed:
    Option<IndexEntry>)
    requires
        envelope.well_formed(),
    ensures
        index_entries(*old(index)).count(IndexEntry { envelope: *envelope, id }) > 0 ==> {
            &&& removed == Some(IndexEntry { envelope: *envelope, id })
            &&& index_entries(*final(index)) == index_entries(*old(index)).remove(
                IndexEntry { envelope: *envelope, id },
            )
        },
        index_entries(*old(index)).count(IndexEntry { envelope: *envelope, id }) == 0 ==> {
            &&& removed is None
            &&& index_entries(*final(index)) == index_entries(*old(index))
        },
{
    let rectangle = Rectangle::from_corners(corner_of(envelope.lower()), corner_of(envelope.upper()));
    index.tree.remove(&GeomWithData::new(rectangle, id)).map(
        |item| IndexEntry::from_corners(item.geom().lower(), item.geom().upper(), item.data),
    )
}

} // verus!
