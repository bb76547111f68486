use vstd::prelude::*;
use crate::elements::timed_element::TimedElement;

verus! {

/// A single forward pass over borrowed timed elements. What it has handed
/// out does not come again.
pub struct SelectionIter<'a> {
    elements: Vec<&'a TimedElement>,
    position: usize,
}

impl<'a> View for SelectionIter<'a> {
    type V = Seq<TimedElement>;

    /// The elements that are still to come, in the order in which they come.
    closed spec fn view(&self) -> Seq<TimedElement> {
        Seq::new(
            (self.elements@.len() - self.position) as nat,
            |i: int| *self.elements@[self.position + i],
        )
    }
}

impl<'a> SelectionIter<'a> {
    #[verifier::type_invariant]
    closed spec fn well_formed(self) -> bool {
        self.position <= self.elements@.len()
    }

    /// A pass over `elements`, front to back.
    pub fn new(elements: Vec<&'a TimedElement>) -> (iter: Self)
        ensures
            iter@.len() == elements@.len(),
            forall|i: int| 0 <= i < elements@.len() ==> iter@[i] == *#[trigger] elements@[i],
    {
        SelectionIter { elements, position: 0 }
    }

    /// Hands out the next element, or `None` once all have been handed out.
    pub fn next(&mut self) -> (element: Option<&'a TimedElement>)
        ensures
            match element {
                Some(first) => old(self)@.len() > 0 && *first == old(self)@[0] && final(self)@
                    == old(self)@.drop_first(),
                None => old(self)@.len() == 0 && final(self)@ == old(self)@,
            },
    {
        proof {
            use_type_invariant(&*self);
        }
        if self.position < self.elements.len() {
            let element = self.elements[self.position];
            self.position = self.position + 1;
            assert(self@ =~= old(self)@.drop_first());
            Some(element)
        } else {
            None
        }
    }
}

} // verus!
