use vstd::prelude::*;
use std::collections::HashMap;
use crate::elements::element::Element;
use crate::elements::timed_element::TimedElement;
use crate::envelope::Envelope;
use crate::index::index_entries;
use crate::index::index_insert;
use crate::index::index_iter;
use crate::index::index_locate_in_envelope;
use crate::index::index_new;
use crate::index::index_remove;
use crate::index::index_size;
use crate::index::IndexEntry;
use crate::index::SpatialIndex;
use crate::iterator::SelectionIter;
use crate::mark::hash_of_zero;
use crate::mark::random_state;
use crate::page_state::PageState;

verus! {

broadcast use vstd::std_specs::hash::group_hash_axioms;

/// `selection` lists the elements of `elements` that lie under the moments
/// `chosen`, each exactly once, and nothing else; so it is as long as
/// `chosen` is large.
pub open spec fn is_selection(
    selection: Seq<TimedElement>,
    elements: Map<u128, TimedElement>,
    chosen: Set<u128>,
) -> bool {
    &&& forall|i: int|
        0 <= i < selection.len() ==> {
            &&& chosen.contains((#[trigger] selection[i]).t_index())
            &&& elements[selection[i].t_index()] == selection[i]
        }
    &&& forall|i: int, j: int|
        0 <= i < j < selection.len() ==> (#[trigger] selection[i]).t_index() != (
        #[trigger] selection[j]).t_index()
    &&& forall|t: u128| #[trigger]
        chosen.contains(t) ==> exists|i: int|
            0 <= i < selection.len() && (#[trigger] selection[i]).t_index() == t
    &&& selection.len() == chosen.len()
}

/// Picks one element of a page: the one that the selector was made from.
/// The element is known by its identity, the mark of its page together with
/// the moment that the page gave it, and it is looked for where its envelope
/// says it lies.
pub struct SelectByAddressFunction {
    envelope: Envelope,
    origin: Option<u64>,
    target: u128,
}

impl SelectByAddressFunction {
    /// The envelope under which the element is looked for.
    pub closed spec fn envelope(&self) -> Envelope {
        self.envelope
    }

    /// The mark of the element that the selector was made from: the mark of
    /// the page that took it in, `None` where no page did.
    pub closed spec fn origin(&self) -> Option<u64> {
        self.origin
    }

    /// The moment of the element that the selector was made from.
    pub closed spec fn target(&self) -> u128 {
        self.target
    }

    /// The selector for `element_address`, which is to be found under
    /// `envelope`: the envelope that the element has while it lies in its
    /// page. It keeps the identity of the element, mark and moment.
    pub fn new(envelope: Envelope, element_address: &TimedElement) -> (selector: Self)
        ensures
            selector.envelope() == envelope,
            selector.origin() == element_address.origin(),
            selector.target() == element_address.t_index(),
    {
        SelectByAddressFunction {
            envelope,
            origin: element_address.origin(),
            target: element_address.t_index(),
        }
    }

    /// Whether `leaf` is the element that the selector was made from: it
    /// carries the same mark of a page and the same moment. An element
    /// that no page took in is never the one, whatever its moment, layer
    /// and shape; and a selector that was made from such an element matches
    /// nothing.
    pub open spec fn matches(&self, leaf: &TimedElement) -> bool {
        &&& self.origin() is Some
        &&& leaf.origin() == self.origin()
        &&& leaf.t_index() == self.target()
    }

    /// Whether a part of the index with the bounds `parent_envelope` can
    /// hold the element: it can where the bounds hold the element's
    /// envelope.
    pub fn should_unpack_parent(&self, parent_envelope: &Envelope) -> (descend: bool)
        ensures
            descend == parent_envelope.contains_envelope(&self.envelope()),
    {
        parent_envelope.contains_envelope(&self.envelope)
    }

    /// Whether `leaf` is the element that the selector was made from.
    pub fn should_unpack_leaf(&self, leaf: &TimedElement) -> (found: bool)
        ensures
            found == self.matches(leaf),
    {
        match (self.origin, leaf.origin()) {
            (Some(wanted), Some(carried)) => wanted == carried && leaf.t_index() == self.target,
            _ => false,
        }
    }

    /// No part of the index that holds the element is passed over: bounds
    /// that hold the envelope of a matching leaf are always descended into,
    /// as long as the selector was made with that envelope.
    pub proof fn lemma_target_is_not_pruned(
        self,
        leaf: TimedElement,
        parent_envelope: Envelope,
    )
        requires
            self.matches(&leaf),
            self.envelope() == leaf.spec_envelope(),
            parent_envelope.contains_envelope(&leaf.spec_envelope()),
        ensures
            parent_envelope.contains_envelope(&self.envelope()),
    {
    }
}

/// The shapes of one page. The page finds them by region through a spatial
/// index and tells them apart by the moment at which each was added. Every
/// element that it takes in gets the page's mark. By the mark an element of
/// this page is told from the elements of every page with another mark, and
/// from elements that were made by hand, which carry none.
pub struct Page {
    mark: u64,
    index: SpatialIndex,
    elements: HashMap<u128, TimedElement>,
    t_index: u128,
}

impl View for Page {
    type V = PageState;

    closed spec fn view(&self) -> PageState {
        PageState { mark: self.mark, elements: self.elements@, last_t_index: self.t_index }
    }
}

impl Page {
    /// The page is consistent: its state is valid, and the spatial index
    /// holds one entry for each element, under the element's envelope and
    /// moment, and nothing else.
    pub closed spec fn wf(&self) -> bool {
        &&& self@.valid()
        &&& index_entries(self.index).len() == self.elements@.len()
        &&& forall|entry: IndexEntry| #[trigger]
            index_entries(self.index).count(entry) == if self.elements@.contains_key(entry.id)
                && self.elements@[entry.id].spec_envelope() == entry.envelope {
                1nat
            } else {
                0nat
            }
    }

    /// The state of a consistent page is valid.
    pub proof fn lemma_valid(&self)
        requires
            self.wf(),
        ensures
            self@.valid(),
    {
    }

    /// Whether `element` can be added: the page has a moment left to give
    /// and room for one more element, and the envelope of the element is
    /// within the coordinate limit.
    pub fn accepts<T: Element>(&self, element: &T) -> (fits: bool)
        requires
            self.wf(),
        ensures
            fits == {
                &&& self@.last_t_index < u128::MAX
                &&& self@.elements.len() < usize::MAX
                &&& element.shape_spec().spec_envelope().within_limit()
            },
    {
        self.t_index < u128::MAX && index_size(&self.index) < usize::MAX
            && element.envelope().within_limit()
    }

    /// Adds `element` on layer `z_index` and gives it the next moment and
    /// the mark of the page.
    pub fn insert<T: Element>(&mut self, element: T, z_index: i32)
        requires
            old(self).wf(),
            old(self)@.last_t_index < u128::MAX,
            old(self)@.elements.len() < usize::MAX,
            element.shape_spec().spec_envelope().within_limit(),
        ensures
            final(self).wf(),
            final(self)@ == old(self)@.insert(element.shape_spec(), z_index),
    {
        let t_index: u128 = self.t_index + 1;
        let timed = TimedElement::issued(element, z_index, t_index, self.mark);
        let envelope = timed.envelope();
        proof {
            assert(!self.elements@.contains_key(t_index));
        }
        index_insert(&mut self.index, &envelope, t_index);
        self.elements.insert(t_index, timed);
        self.t_index = t_index;
    }

    /// A pass over all elements, in an order that the spatial index chooses.
    pub fn iter(&self) -> (selection: SelectionIter<'_>)
        requires
            self.wf(),
        ensures
            is_selection(selection@, self@.elements, self@.elements.dom()),
    {
        let entries = index_iter(&self.index);
        self.select(entries, Ghost(|envelope: Envelope| true), Ghost(self@.elements.dom()))
    }

    /// Takes out the element that `selection_function` was made from, and
    /// hands it back, if the page holds it under the envelope that the
    /// selector was made with. A selector that was made from anything else
    /// finds nothing: from an element made by hand, from an element of a
    /// page with another mark, from an element that the page no longer
    /// holds. Where the selector finds nothing, nothing is taken out. All
    /// other elements stay, and the moments go on from where they were.
    pub fn extract(&mut self, selection_function: SelectByAddressFunction) -> (extracted: Option<
        TimedElement,
    >)
        requires
            old(self).wf(),
        ensures
            final(self).wf(),
            final(self)@ == old(self)@.extract(selection_function),
            extracted == if old(self)@.finds(selection_function) {
                Some(old(self)@.elements[selection_function.target()])
            } else {
                None
            },
            extracted matches Some(element) ==> selection_function.matches(&element),
    {
        let target: u128 = selection_function.target;
        proof {
            use_type_invariant(&selection_function.envelope);
        }
        match selection_function.origin {
            Some(wanted) => {
                if wanted != self.mark {
                    return None;
                }
            },
            None => {
                return None;
            },
        }
        match index_remove(&mut self.index, &selection_function.envelope, target) {
            Some(_) => self.elements.remove(&target),
            None => None,
        }
    }

    /// A pass over the elements whose envelope lies inside `envelope`,
    /// sides included, in an order that the spatial index chooses.
    pub fn locate_in_envelope(&self, envelope: Envelope) -> (selection: SelectionIter<'_>)
        requires
            self.wf(),
        ensures
            is_selection(selection@, self@.elements, self@.located(envelope)),
    {
        proof {
            use_type_invariant(&envelope);
        }
        let entries = index_locate_in_envelope(&self.index, &envelope);
        self.select(
            entries,
            Ghost(|inner: Envelope| envelope.contains_envelope(&inner)),
            Ghost(self@.located(envelope)),
        )
    }

    pub fn len(&self) -> (count: usize)
        requires
            self.wf(),
        ensures
            count == self@.elements.len(),
    {
        index_size(&self.index)
    }

    pub fn is_empty(&self) -> (empty: bool)
        requires
            self.wf(),
        ensures
            empty == (self@.elements.len() == 0),
    {
        index_size(&self.index) == 0
    }

    /// The pass over the elements that stand behind `entries`, which the
    /// index has handed out for the condition `accepts` on envelopes.
    fn select(
        &self,
        entries: Vec<IndexEntry>,
        Ghost(accepts): Ghost<spec_fn(Envelope) -> bool>,
        Ghost(chosen): Ghost<Set<u128>>,
    ) -> (selection: SelectionIter<'_>)
        requires
            self.wf(),
            forall|t: u128| #[trigger]
                chosen.contains(t) <==> self@.elements.contains_key(t) && accepts(
                    self@.elements[t].spec_envelope(),
                ),
            forall|entry: IndexEntry| #[trigger]
                entries@.to_multiset().count(entry) == if accepts(entry.envelope) {
                    index_entries(self.index).count(entry)
                } else {
                    0
                },
        ensures
            is_selection(selection@, self@.elements, chosen),
    {
        let ghost listed = entries@;
        proof {
            assert forall|i: int| 0 <= i < listed.len() implies index_entries(self.index).count(
                #[trigger] listed[i],
            ) > 0 by {
                vstd::seq_lib::to_multiset_contains(listed, listed[i]);
                assert(listed.contains(listed[i]));
            }
        }
        let found = self.resolve(entries);
        let ghost elements = found@;
        let selection = SelectionIter::new(found);
        proof {
            assert forall|i: int| 0 <= i < listed.len() implies #[trigger] selection@[i]
                == self@.elements[listed[i].id] by {
                assert(selection@[i] == *elements[i]);
            }
            self.lemma_selection(listed, selection@, accepts, chosen);
        }
        selection
    }

    /// The elements behind the entries that the index has handed out for a
    /// condition on envelopes are a selection of the page by that
    /// condition.
    proof fn lemma_selection(
        &self,
        entries: Seq<IndexEntry>,
        found: Seq<TimedElement>,
        accepts: spec_fn(Envelope) -> bool,
        chosen: Set<u128>,
    )
        requires
            self.wf(),
            forall|t: u128| #[trigger]
                chosen.contains(t) <==> self@.elements.contains_key(t) && accepts(
                    self@.elements[t].spec_envelope(),
                ),
            forall|entry: IndexEntry| #[trigger]
                entries.to_multiset().count(entry) == if accepts(entry.envelope) {
                    index_entries(self.index).count(entry)
                } else {
                    0
                },
            found.len() == entries.len(),
            forall|i: int|
                0 <= i < entries.len() ==> {
                    &&& self@.elements.contains_key(entries[i].id)
                    &&& #[trigger] found[i] == self@.elements[entries[i].id]
                },
        ensures
            is_selection(found, self@.elements, chosen),
    {
        assert forall|i: int| 0 <= i < found.len() implies {
            &&& chosen.contains((#[trigger] found[i]).t_index())
            &&& self@.elements[found[i].t_index()] == found[i]
        } by {
            vstd::seq_lib::to_multiset_contains(entries, entries[i]);
            assert(entries.contains(entries[i]));
        }
        assert forall|i: int, j: int| 0 <= i < j < found.len() implies (#[trigger] found[i]).t_index()
            != (#[trigger] found[j]).t_index() by {
            vstd::seq_lib::to_multiset_contains(entries, entries[i]);
            vstd::seq_lib::to_multiset_contains(entries, entries[j]);
            assert(entries.contains(entries[i]));
            assert(entries.contains(entries[j]));
            entries.lemma_multiset_has_no_duplicates_conv();
            if found[i].t_index() == found[j].t_index() {
                assert(entries[i] == entries[j]);
            }
        }
        assert forall|t: u128| #[trigger] chosen.contains(t) implies exists|i: int|
            0 <= i < found.len() && (#[trigger] found[i]).t_index() == t by {
            let entry = IndexEntry { envelope: self@.elements[t].spec_envelope(), id: t };
            assert(index_entries(self.index).count(entry) == 1);
            vstd::seq_lib::to_multiset_contains(entries, entry);
            assert(entries.contains(entry));
            let i = choose|i: int| 0 <= i < entries.len() && entries[i] == entry;
            assert(found[i].t_index() == t);
        }
        let moments = found.map_values(|element: TimedElement| element.t_index());
        assert(moments.no_duplicates()) by {
            assert forall|i: int, j: int|
                0 <= i < moments.len() && 0 <= j < moments.len() && i != j implies moments[i]
                != moments[j] by {
                assert(moments[i] == found[i].t_index());
                assert(moments[j] == found[j].t_index());
            }
        }
        assert(moments.to_set() =~= chosen) by {
            assert forall|t: u128| moments.to_set().contains(t) implies chosen.contains(t) by {
                let i = choose|i: int| 0 <= i < moments.len() && moments[i] == t;
                assert(moments[i] == found[i].t_index());
            }
            assert forall|t: u128| chosen.contains(t) implies moments.to_set().contains(t) by {
                let i = choose|i: int| 0 <= i < found.len() && (#[trigger] found[i]).t_index() == t;
                assert(moments[i] == t);
            }
        }
        moments.unique_seq_to_set();
    }

    /// Looks up the elements that the entries of the index stand for.
    fn resolve(&self, entries: Vec<IndexEntry>) -> (found: Vec<&TimedElement>)
        requires
            self.wf(),
            forall|i: int|
                0 <= i < entries@.len() ==> index_entries(self.index).count(
                    #[trigger] entries@[i],
                ) > 0,
        ensures
            found@.len() == entries@.len(),
            forall|i: int|
                0 <= i < entries@.len() ==> {
                    &&& self@.elements.contains_key(entries@[i].id)
                    &&& *#[trigger] found@[i] == self@.elements[entries@[i].id]
                },
    {
        let mut found: Vec<&TimedElement> = Vec::new();
        let mut position: usize = 0;
        while position < entries.len()
            invariant
                self.wf(),
                position <= entries@.len(),
                found@.len() == position,
                forall|i: int|
                    0 <= i < entries@.len() ==> index_entries(self.index).count(
                        #[trigger] entries@[i],
                    ) > 0,
                forall|i: int|
                    0 <= i < position ==> {
                        &&& self@.elements.contains_key(entries@[i].id)
                        &&& *#[trigger] found@[i] == self@.elements[entries@[i].id]
                    },
            decreases entries@.len() - position,
        {
            let id: u128 = entries[position].id;
            assert(index_entries(self.index).count(entries@[position as int]) > 0);
            assert(self.elements@.contains_key(id));
            match self.elements.get(&id) {
                Some(element) => {
                    found.push(element);
                },
                None => {},
            }
            position = position + 1;
        }
        found
    }
}

impl Page {
    /// An empty page whose elements will carry the mark `mark`. Pages whose
    /// elements are to be told apart need different marks.
    pub fn with_mark(mark: u64) -> (page: Self)
        ensures
            page.wf(),
            page@ == PageState::empty(mark),
    {
        Page { mark, index: index_new(), elements: HashMap::new(), t_index: 0 }
    }
}

impl Default for Page {
    /// An empty page with a mark drawn by chance. Two pages made this way
    /// have different marks but for the chance of drawing one number twice.
    fn default() -> (page: Self)
        ensures
            page.wf(),
            page@ == PageState::empty(page@.mark),
    {
        let state = random_state();
        Page::with_mark(hash_of_zero(&state))
    }
}

} // verus!
