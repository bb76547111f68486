use vstd::prelude::*;
use vstd::std_specs::iter::IteratorSpec;
use crate::mutable_iter::pages_iter_mut;
use crate::mutable_iter::pages_to_come;
use crate::page::Page;
use crate::page_state::PageState;

verus! {

/// A document: its pages in reading order. A page is known by its position
/// alone.
pub struct Journal {
    pages: Vec<Page>,
}

impl View for Journal {
    type V = Seq<Page>;

    closed spec fn view(&self) -> Seq<Page> {
        self.pages@
    }
}

impl Journal {
    /// Puts `page` at position `at`. The pages that were at `at` and behind
    /// it move one position back.
    pub fn insert(&mut self, at: usize, page: Page)
        requires
            at <= old(self)@.len(),
        ensures
            final(self)@ == old(self)@.insert(at as int, page),
    {
        self.pages.insert(at, page);
    }

    pub fn push_back(&mut self, page: Page)
        ensures
            final(self)@ == old(self)@.push(page),
            final(self)@ == old(self)@.insert(old(self)@.len() as int, page),
    {
        self.pages.push(page);
        assert(old(self)@.push(page) =~= old(self)@.insert(old(self)@.len() as int, page));
    }

    /// Takes out the page at position `at` and hands it back; the pages
    /// behind it move one position forward. Where there is no such position
    /// the journal stays as it is.
    pub fn remove(&mut self, at: usize) -> (page: Option<Page>)
        ensures
            at < old(self)@.len() ==> page == Some(old(self)@[at as int]) && final(self)@ == old(
                self,
            )@.remove(at as int),
            at >= old(self)@.len() ==> page is None && final(self)@ == old(self)@,
    {
        if at < self.pages.len() {
            Some(self.pages.remove(at))
        } else {
            None
        }
    }

    pub fn len(&self) -> (count: usize)
        ensures
            count == self@.len(),
    {
        self.pages.len()
    }

    pub fn is_empty(&self) -> (empty: bool)
        ensures
            empty == (self@.len() == 0),
    {
        self.pages.len() == 0
    }

    /// A pass over the pages in reading order.
    pub fn iter(&self) -> (iter: core::slice::Iter<'_, Page>)
        ensures
            iter.remaining() == self@.as_ref(),
            iter.obeys_prophetic_iter_laws(),
            iter.decrease() is Some,
    {
        let pages = self.pages.as_slice();
        proof {
            vstd::std_specs::slice::axiom_spec_slice_iter(pages);
        }
        pages.iter()
    }

    /// A pass over the pages in reading order that hands out each page for
    /// changing: the pass holds all pages of the journal, first to last.
    /// The number of pages stays.
    pub fn iter_mut(&mut self) -> (iter: core::slice::IterMut<'_, Page>)
        ensures
            pages_to_come(iter) == old(self)@,
            final(self)@.len() == old(self)@.len(),
    {
        pages_iter_mut(&mut self.pages)
    }

    /// Putting a page at a position and at once taking out the page at that
    /// position gives back the journal as it was.
    pub proof fn lemma_insert_then_remove(pages: Seq<Page>, at: int, page: Page)
        requires
            0 <= at <= pages.len(),
        ensures
            pages.insert(at, page).remove(at) == pages,
            pages.insert(at, page)[at] == page,
    {
        assert(pages.insert(at, page).remove(at) =~= pages);
    }
}

impl Default for Journal {
    /// A journal of one page, which is empty.
    fn default() -> (journal: Self)
        ensures
            journal@.len() == 1,
            journal@[0].wf(),
            journal@[0]@ == PageState::empty(journal@[0]@.mark),
    {
        let mut pages: Vec<Page> = Vec::new();
        pages.push(Page::default());
        Journal { pages }
    }
}

impl<'a> IntoIterator for &'a Journal {
    type Item = &'a Page;

    type IntoIter = core::slice::Iter<'a, Page>;

    /// The pass of `iter`: over the pages in reading order.
    fn into_iter(self) -> (iter: core::slice::Iter<'a, Page>)
        ensures
            iter.remaining() == self@.as_ref(),
            iter.obeys_prophetic_iter_laws(),
            iter.decrease() is Some,
    {
        self.iter()
    }
}

impl<'a> IntoIterator for &'a mut Journal {
    type Item = &'a mut Page;

    type IntoIter = core::slice::IterMut<'a, Page>;

    /// The pass of `iter_mut`: over the pages in reading order, each handed
    /// out for changing. The number of pages stays.
    fn into_iter(self) -> (iter: core::slice::IterMut<'a, Page>)
        ensures
            pages_to_come(iter) == old(self)@,
            final(self)@.len() == old(self)@.len(),
    {
        self.iter_mut()
    }
}

} // verus!
