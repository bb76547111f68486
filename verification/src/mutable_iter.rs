use vstd::prelude::*;
use crate::page::Page;
use crate::point::Point;

verus! {

/// `core::slice::IterMut`: a pass over a slice that hands out each item
/// for changing. What is known of it here is what items it holds.
#[verifier::external_type_specification]
#[verifier::external_body]
#[verifier::reject_recursive_types(T)]
pub struct ExIterMut<'a, T: 'a>(core::slice::IterMut<'a, T>);

/// The points that a pass over points has still to hand out, front to back.
pub uninterp spec fn points_to_come(iter: core::slice::IterMut<'_, Point>) -> Seq<Point>;

/// The pages that a pass over pages has still to hand out, front to back.
pub uninterp spec fn pages_to_come(iter: core::slice::IterMut<'_, Page>) -> Seq<Page>;

/// `Vec::iter_mut` on points: the pass hands out all points from start to
/// end. Through it every point can be changed, so nothing is promised of
/// the points afterwards; their number stays.
#[verifier::external_body]
pub(crate) fn points_iter_mut(points: &mut Vec<Point>) -> (iter: core::slice::IterMut<'_, Point>)
    ensures
        points_to_come(iter) == old(points)@,
        final(points)@.len() == old(points)@.len(),
{
    points.iter_mut()
}

/// `Vec::iter_mut` on pages: the pass hands out all pages from start to
/// end. Through it every page can be changed, so nothing is promised of
/// the pages afterwards; their number stays.
#[verifier::external_body]
pub(crate) fn pages_iter_mut(pages: &mut Vec<Page>) -> (iter: core::slice::IterMut<'_, Page>)
    ensures
        pages_to_come(iter) == old(pages)@,
        final(pages)@.len() == old(pages)@.len(),
{
    pages.iter_mut()
}

} // verus!
