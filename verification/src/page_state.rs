use vstd::prelude::*;
use crate::elements::element::Shape;
use crate::elements::timed_element::TimedElement;
use crate::envelope::Envelope;
use crate::page::SelectByAddressFunction;

verus! {

/// What a page holds, as plain mathematics: the mark that its elements
/// carry, its elements, each under the moment at which it was added, and
/// the last moment that was given out.
pub struct PageState {
    pub mark: u64,
    pub elements: Map<u128, TimedElement>,
    pub last_t_index: u128,
}

/// One change to a page.
pub enum PageStep {
    Insert { shape: Shape, z_index: i32 },
    Extract { selector: SelectByAddressFunction },
}

impl PageState {
    /// The state of a page with the mark `mark` to which nothing was ever
    /// added.
    pub open spec fn empty(mark: u64) -> PageState {
        PageState { mark, elements: Map::empty(), last_t_index: 0 }
    }

    /// There are finitely many elements; each carries the mark of the page
    /// and lies under its own moment; and no moment is 0 or later than the
    /// last one given out.
    pub open spec fn moments_in_order(self) -> bool {
        &&& self.elements.dom().finite()
        &&& forall|t: u128| #[trigger]
            self.elements.contains_key(t) ==> {
                &&& self.elements[t].t_index() == t
                &&& self.elements[t].origin() == Some(self.mark)
                &&& 1 <= t <= self.last_t_index
            }
    }

    /// The moments are in order, and every envelope is well formed and
    /// within the coordinate limit.
    pub open spec fn valid(self) -> bool {
        &&& self.moments_in_order()
        &&& forall|t: u128| #[trigger]
            self.elements.contains_key(t) ==> {
                &&& self.elements[t].spec_envelope().well_formed()
                &&& self.elements[t].spec_envelope().within_limit()
            }
    }

    /// The moment that the next element gets.
    pub open spec fn next_t_index(self) -> u128 {
        (self.last_t_index + 1) as u128
    }

    /// The state after `shape` was added on layer `z_index`: the shape gets
    /// the next moment and the mark of the page, and all other elements
    /// stay.
    pub open spec fn insert(self, shape: Shape, z_index: i32) -> PageState {
        PageState {
            mark: self.mark,
            elements: self.elements.insert(
                self.next_t_index(),
                TimedElement::spec_issued(shape, z_index, self.next_t_index(), self.mark),
            ),
            last_t_index: self.next_t_index(),
        }
    }

    /// Whether `selector` finds its element: the page holds, under the
    /// moment that the selector was made for, an element with the identity
    /// that the selector stands for, and that element's envelope is the one
    /// that the selector was made with.
    pub open spec fn finds(self, selector: SelectByAddressFunction) -> bool {
        &&& self.elements.contains_key(selector.target())
        &&& selector.matches(&self.elements[selector.target()])
        &&& self.elements[selector.target()].spec_envelope() == selector.envelope()
    }

    /// The state after the element that `selector` finds was taken out; the
    /// same state where it finds none. The last moment is never turned back.
    pub open spec fn extract(self, selector: SelectByAddressFunction) -> PageState {
        if self.finds(selector) {
            PageState {
                mark: self.mark,
                elements: self.elements.remove(selector.target()),
                last_t_index: self.last_t_index,
            }
        } else {
            self
        }
    }

    /// The moments of the elements whose envelope lies inside `envelope`,
    /// sides included.
    pub open spec fn located(self, envelope: Envelope) -> Set<u128> {
        Set::new(
            |t: u128|
                self.elements.contains_key(t) && envelope.contains_envelope(
                    &self.elements[t].spec_envelope(),
                ),
        )
    }

    /// The state after one change.
    pub open spec fn step(self, step: PageStep) -> PageState {
        match step {
            PageStep::Insert { shape, z_index } => self.insert(shape, z_index),
            PageStep::Extract { selector } => self.extract(selector),
        }
    }

    /// The state after the changes `steps`, made one after the other.
    pub open spec fn run(self, steps: Seq<PageStep>) -> PageState
        decreases steps.len(),
    {
        if steps.len() == 0 {
            self
        } else {
            self.run(steps.drop_last()).step(steps.last())
        }
    }

    /// How many of `steps` add an element.
    pub open spec fn inserts(steps: Seq<PageStep>) -> nat
        decreases steps.len(),
    {
        if steps.len() == 0 {
            0
        } else {
            PageState::inserts(steps.drop_last()) + if steps.last() is Insert {
                1nat
            } else {
                0nat
            }
        }
    }

    /// How many of `steps`, made one after the other from this state, take
    /// an element out.
    pub open spec fn extractions(self, steps: Seq<PageStep>) -> nat
        decreases steps.len(),
    {
        if steps.len() == 0 {
            0
        } else {
            self.extractions(steps.drop_last()) + match steps.last() {
                PageStep::Extract { selector } => if self.run(steps.drop_last()).finds(selector) {
                    1nat
                } else {
                    0nat
                },
                PageStep::Insert { .. } => 0nat,
            }
        }
    }

    /// Adding a shape gives it a moment later than that of every element
    /// the page holds, and the layer asked for; it makes the page one
    /// element larger, leaves every other element as it was, and leaves
    /// the moments in order. A valid page stays valid where the envelope of
    /// the shape is within the coordinate limit.
    pub proof fn lemma_insert(self, shape: Shape, z_index: i32)
        requires
            self.moments_in_order(),
            self.last_t_index < u128::MAX,
        ensures
            self.insert(shape, z_index).moments_in_order(),
            self.valid() && shape.spec_envelope().within_limit() ==> self.insert(
                shape,
                z_index,
            ).valid(),
            self.insert(shape, z_index).last_t_index == self.last_t_index + 1,
            !self.elements.contains_key(self.next_t_index()),
            forall|t: u128| #[trigger] self.elements.contains_key(t) ==> t < self.next_t_index(),
            self.insert(shape, z_index).elements.len() == self.elements.len() + 1,
            self.insert(shape, z_index).elements[self.next_t_index()].t_index()
                == self.next_t_index(),
            self.insert(shape, z_index).elements[self.next_t_index()].z_index() == z_index,
            self.insert(shape, z_index).elements[self.next_t_index()].shape() == shape,
            forall|t: u128| #[trigger]
                self.elements.contains_key(t) ==> self.insert(shape, z_index).elements.contains_key(
                    t,
                ) && self.insert(shape, z_index).elements[t] == self.elements[t],
    {
        let t = self.next_t_index();
        TimedElement::lemma_issued(shape, z_index, t, self.mark);
        shape.lemma_envelope_well_formed();
        assert(!self.elements.contains_key(t));
    }

    /// Taking an element out leaves the moments in order, and a valid page
    /// valid, and does not turn the last moment back; the page gets one
    /// element smaller where the selector finds its element, and stays as
    /// it is where it does not.
    pub proof fn lemma_extract(self, selector: SelectByAddressFunction)
        requires
            self.moments_in_order(),
        ensures
            self.extract(selector).moments_in_order(),
            self.valid() ==> self.extract(selector).valid(),
            self.extract(selector).last_t_index == self.last_t_index,
            self.finds(selector) ==> self.extract(selector).elements.len() + 1
                == self.elements.len(),
            !self.finds(selector) ==> self.extract(selector) == self,
    {
    }

    /// After any run of changes the page holds as many elements as it held
    /// before, plus one for each insertion, less one for each extraction
    /// that found its element. The last moment has advanced by one for each
    /// insertion, whatever was extracted in between.
    pub proof fn lemma_len_counts_steps(self, steps: Seq<PageStep>)
        requires
            self.moments_in_order(),
            self.last_t_index + PageState::inserts(steps) <= u128::MAX,
        ensures
            self.run(steps).moments_in_order(),
            self.run(steps).last_t_index == self.last_t_index + PageState::inserts(steps),
            self.run(steps).elements.len() + self.extractions(steps) == self.elements.len()
                + PageState::inserts(steps),
        decreases steps.len(),
    {
        if steps.len() > 0 {
            let front = steps.drop_last();
            self.lemma_len_counts_steps(front);
            let before = self.run(front);
            match steps.last() {
                PageStep::Insert { shape, z_index } => {
                    before.lemma_insert(shape, z_index);
                },
                PageStep::Extract { selector } => {
                    before.lemma_extract(selector);
                },
            }
        }
    }

    /// The moments given out grow strictly: an element that is added after
    /// a run of further changes gets a later moment than one that was added
    /// before them, whether or not elements were taken out in between.
    pub proof fn lemma_moments_grow(
        self,
        shape: Shape,
        z_index: i32,
        steps: Seq<PageStep>,
    )
        requires
            self.moments_in_order(),
            self.last_t_index + 1 + PageState::inserts(steps) < u128::MAX,
        ensures
            self.next_t_index() < self.insert(shape, z_index).run(steps).next_t_index(),
            !self.insert(shape, z_index).run(steps).elements.contains_key(
                self.insert(shape, z_index).run(steps).next_t_index(),
            ),
    {
        self.lemma_insert(shape, z_index);
        let added = self.insert(shape, z_index);
        added.lemma_len_counts_steps(steps);
    }

    /// A moment that lies in the past and belongs to no element stays
    /// free: whatever is added and taken out afterwards, no element gets it.
    pub proof fn lemma_free_moment_stays_free(self, t: u128, steps: Seq<PageStep>)
        requires
            self.moments_in_order(),
            t <= self.last_t_index,
            !self.elements.contains_key(t),
            self.last_t_index + PageState::inserts(steps) <= u128::MAX,
        ensures
            !self.run(steps).elements.contains_key(t),
        decreases steps.len(),
    {
        if steps.len() > 0 {
            let front = steps.drop_last();
            self.lemma_free_moment_stays_free(t, front);
            self.lemma_len_counts_steps(front);
            let before = self.run(front);
            match steps.last() {
                PageStep::Insert { shape, z_index } => {
                    before.lemma_insert(shape, z_index);
                },
                PageStep::Extract { selector } => {
                    before.lemma_extract(selector);
                },
            }
        }
    }

    /// The moment of an element that was taken out is not given again: after
    /// the extraction, and whatever is added and taken out afterwards, the
    /// page holds no element with that moment.
    pub proof fn lemma_moment_is_not_given_again(
        self,
        selector: SelectByAddressFunction,
        steps: Seq<PageStep>,
    )
        requires
            self.moments_in_order(),
            self.finds(selector),
            self.last_t_index + PageState::inserts(steps) <= u128::MAX,
        ensures
            !self.extract(selector).run(steps).elements.contains_key(selector.target()),
    {
        self.lemma_extract(selector);
        self.extract(selector).lemma_free_moment_stays_free(selector.target(), steps);
    }

    /// A shape that was just added is among the elements located by its own
    /// envelope.
    pub proof fn lemma_inserted_is_located(self, shape: Shape, z_index: i32)
        ensures
            self.insert(shape, z_index).located(shape.spec_envelope()).contains(
                self.next_t_index(),
            ),
            self.insert(shape, z_index).elements[self.next_t_index()].shape() == shape,
    {
        TimedElement::lemma_issued(shape, z_index, self.next_t_index(), self.mark);
    }

    /// A selector that was made from an element which no page took in
    /// finds nothing, whatever moment, layer, shape and envelope that
    /// element has: the page stays as it is.
    pub proof fn lemma_stranger_finds_nothing(self, selector: SelectByAddressFunction)
        requires
            selector.origin() is None,
        ensures
            !self.finds(selector),
            self.extract(selector) == self,
    {
    }

    /// A selector finds nothing unless the page holds the element that it
    /// was made from: an element with the selector's mark and moment. One
    /// that was made from an element of a page with another mark, or from
    /// an element that the page no longer holds, leaves the page as it is.
    pub proof fn lemma_finds_only_its_own(self, selector: SelectByAddressFunction)
        requires
            self.moments_in_order(),
            selector.origin() != Some(self.mark) || !self.elements.contains_key(selector.target()),
        ensures
            !self.finds(selector),
            self.extract(selector) == self,
    {
    }

    /// A selector that was made from an element of the page, with the
    /// envelope of that element, finds it; and the element it finds is the
    /// one it was made from.
    pub proof fn lemma_finds_its_own(self, selector: SelectByAddressFunction, t: u128)
        requires
            self.moments_in_order(),
            self.elements.contains_key(t),
            selector.origin() == self.elements[t].origin(),
            selector.target() == self.elements[t].t_index(),
            selector.envelope() == self.elements[t].spec_envelope(),
        ensures
            self.finds(selector),
            selector.target() == t,
            !self.extract(selector).elements.contains_key(t),
    {
    }

    /// Taking out the element that a selector finds takes out that element
    /// and no other: any second element stays in the page as it was, even
    /// one of the same shape on the same layer.
    pub proof fn lemma_extract_leaves_twin(self, selector: SelectByAddressFunction, twin: u128)
        requires
            self.finds(selector),
            self.elements.contains_key(twin),
            twin != selector.target(),
        ensures
            !self.extract(selector).elements.contains_key(selector.target()),
            self.extract(selector).elements.contains_key(twin),
            self.extract(selector).elements[twin] == self.elements[twin],
    {
    }

    /// Every element that is located by an envelope shares at least one
    /// point with that envelope; an element whose envelope is apart from it
    /// is never located.
    pub proof fn lemma_located_intersects(self, envelope: Envelope, t: u128)
        requires
            self.located(envelope).contains(t),
        ensures
            self.elements.contains_key(t),
            envelope.intersects(&self.elements[t].spec_envelope()),
    {
        self.elements[t].shape().lemma_envelope_well_formed();
        envelope.lemma_contained_intersects(self.elements[t].spec_envelope());
    }

    /// No element whose envelope lies inside the query envelope is left
    /// out, touching sides included; an element with exactly the query
    /// envelope is located.
    pub proof fn lemma_located_is_complete(self, envelope: Envelope, t: u128)
        requires
            self.elements.contains_key(t),
        ensures
            envelope.contains_envelope(&self.elements[t].spec_envelope()) <==> self.located(
                envelope,
            ).contains(t),
            self.elements[t].spec_envelope() == envelope ==> self.located(envelope).contains(t),
    {
    }
}

} // verus!
