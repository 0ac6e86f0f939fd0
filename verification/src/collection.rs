//! The ordered collection of saved requests and its selection.

use crate::request::{Request, RequestView};
use vstd::prelude::*;

verus! {

/// A collection as plain values: the requests in their order, the index of
/// the selected request, and the index that the list on screen points at.
pub struct CollectionView {
    pub items: Seq<RequestView>,
    pub selected: Option<nat>,
    pub cursor: Option<nat>,
}

impl CollectionView {
    /// The selection is the index of a request, and the list on screen
    /// points at the selection.
    pub open spec fn wf(self) -> bool {
        &&& self.cursor == self.selected
        &&& self.selected matches Some(index) ==> index < self.items.len()
    }

    /// The collection without requests.
    pub open spec fn empty() -> CollectionView {
        CollectionView { items: Seq::empty(), selected: None, cursor: None }
    }

    /// Selects the request at `index`; an index that is out of range changes
    /// nothing.
    pub open spec fn select(self, index: nat) -> CollectionView {
        if index < self.items.len() {
            CollectionView { selected: Some(index), cursor: Some(index), ..self }
        } else {
            self
        }
    }

    /// Clears the selection.
    pub open spec fn unselect(self) -> CollectionView {
        CollectionView { selected: None, cursor: None, ..self }
    }

    /// Adds `request` at the end; the selection stays.
    pub open spec fn append(self, request: RequestView) -> CollectionView {
        CollectionView { items: self.items.push(request), ..self }
    }

    /// Clears the selection and removes the request that was selected; the
    /// requests behind it move down by one. Changes nothing where no request
    /// is selected.
    pub open spec fn remove_selected(self) -> CollectionView {
        match self.selected {
            Some(index) => CollectionView {
                items: self.items.remove(index as int),
                selected: None,
                cursor: None,
            },
            None => self,
        }
    }

    /// The selected request.
    pub open spec fn selected_request(self) -> Option<RequestView> {
        match self.selected {
            Some(index) => Some(self.items[index as int]),
            None => None,
        }
    }

    /// Puts `request` in the place of the selected request; changes nothing
    /// where no request is selected.
    pub open spec fn with_selected(self, request: RequestView) -> CollectionView {
        match self.selected {
            Some(index) => CollectionView {
                items: self.items.update(index as int, request),
                ..self
            },
            None => self,
        }
    }
}

/// The index `index` as a mathematical one.
pub open spec fn spec_index(index: Option<usize>) -> Option<nat> {
    match index {
        Some(i) => Some(i as nat),
        None => None,
    }
}

/// The ordered collection of saved requests, with at most one of them
/// selected.
#[derive(Debug)]
pub struct Collection {
    items: Vec<Request>,
    selected: Option<usize>,
    cursor: Option<usize>,
}

impl View for Collection {
    type V = CollectionView;

    closed spec fn view(&self) -> CollectionView {
        CollectionView {
            items: Seq::new(self.items@.len(), |i: int| self.items@[i]@),
            selected: spec_index(self.selected),
            cursor: spec_index(self.cursor),
        }
    }
}

impl Collection {
    #[verifier::type_invariant]
    closed spec fn inv(self) -> bool {
        self@.wf()
    }

    /// The collection without requests.
    pub fn new() -> (collection: Collection)
        ensures
            collection@ == CollectionView::empty(),
    {
        let collection = Collection { items: Vec::new(), selected: None, cursor: None };
        assert(collection@.items == Seq::<RequestView>::empty());
        collection
    }

    /// The number of requests.
    pub fn len(&self) -> (len: usize)
        ensures
            len == self@.items.len(),
    {
        self.items.len()
    }

    /// The index of the selected request.
    pub fn selected(&self) -> (selected: Option<usize>)
        ensures
            spec_index(selected) == self@.selected,
            self@.wf(),
    {
        proof {
            use_type_invariant(self);
        }
        self.selected
    }

    /// The index that the list on screen points at.
    pub fn cursor(&self) -> (cursor: Option<usize>)
        ensures
            spec_index(cursor) == self@.cursor,
            self@.wf(),
    {
        proof {
            use_type_invariant(self);
        }
        self.cursor
    }

    /// The request at `index`.
    pub fn get(&self, index: usize) -> (request: Option<&Request>)
        ensures
            match request {
                Some(r) => index < self@.items.len() && r@ == self@.items[index as int],
                None => index >= self@.items.len(),
            },
    {
        if index < self.items.len() {
            Some(&self.items[index])
        } else {
            None
        }
    }

    /// The selected request.
    pub fn selected_request(&self) -> (request: Option<&Request>)
        ensures
            self@.wf(),
            match request {
                Some(r) => self@.selected_request() == Some(r@),
                None => self@.selected is None,
            },
    {
        proof {
            use_type_invariant(self);
        }
        match self.selected {
            Some(index) => Some(&self.items[index]),
            None => None,
        }
    }

    /// The selected request, to change it in its place.
    pub(crate) fn selected_request_mut(&mut self) -> (request: Option<&mut Request>)
        ensures
            old(self)@.wf(),
            match request {
                Some(r) => {
                    &&& old(self)@.selected_request() == Some(r@)
                    &&& final(self)@.selected == old(self)@.selected
                    &&& final(self)@.cursor == old(self)@.cursor
                    &&& final(self)@.items.len() == old(self)@.items.len()
                    &&& final(self)@.items =~= old(self)@.items.update(
                        old(self)@.selected.unwrap() as int,
                        final(r)@,
                    )
                },
                None => old(self)@.selected is None && final(self)@ == old(self)@,
            },
    {
        proof {
            use_type_invariant(&*self);
        }
        match self.selected {
            Some(index) => Some(&mut self.items[index]),
            None => None,
        }
    }

    /// Leaves the empty collection in the place of this one, and hands out
    /// what was there.
    fn take(&mut self) -> (taken: Collection)
        ensures
            taken@ == old(self)@,
            taken@.wf(),
            final(self)@ == CollectionView::empty(),
    {
        proof {
            use_type_invariant(&*self);
        }
        let mut taken = Collection::new();
        core::mem::swap(self, &mut taken);
        taken
    }

    /// Selects the request at `index`, and points the list on screen at it.
    /// An index that is out of range changes nothing.
    pub fn select(&mut self, index: usize)
        ensures
            final(self)@ == old(self)@.select(index as nat),
    {
        if index < self.items.len() {
            let taken = self.take();
            *self = Collection { items: taken.items, selected: Some(index), cursor: Some(index) };
        }
    }

    /// Clears the selection, and that of the list on screen.
    pub fn unselect(&mut self)
        ensures
            final(self)@ == old(self)@.unselect(),
    {
        let taken = self.take();
        *self = Collection { items: taken.items, selected: None, cursor: None };
    }

    /// Adds `request` at the end. The selection stays as it is.
    pub fn append(&mut self, request: Request)
        ensures
            final(self)@ == old(self)@.append(request@),
    {
        let taken = self.take();
        let mut items = taken.items;
        items.push(request);
        *self = Collection { items, selected: taken.selected, cursor: taken.cursor };
        assert(self@.items =~= old(self)@.items.push(request@));
    }

    /// Clears the selection, then removes the request that was selected.
    /// Changes nothing where no request is selected.
    pub fn remove_selected(&mut self)
        ensures
            final(self)@ == old(self)@.remove_selected(),
    {
        let taken = self.take();
        match taken.selected {
            Some(index) => {
                let mut items = taken.items;
                items.remove(index);
                *self = Collection { items, selected: None, cursor: None };
                assert(self@.items =~= old(self)@.items.remove(index as int));
            },
            None => {
                *self = taken;
            },
        }
    }
}

/// Removing the selection from a collection without one changes nothing.
/// From a collection with one it leaves one request less and none selected:
/// the requests before the removed one stay in place, those behind it move
/// down by one.
pub proof fn lemma_remove_selected(collection: CollectionView)
    requires
        collection.wf(),
    ensures
        collection.remove_selected().wf(),
        collection.selected is None ==> collection.remove_selected() == collection,
        collection.selected matches Some(index) ==> {
            let after = collection.remove_selected();
            &&& after.selected is None
            &&& after.cursor is None
            &&& after.items.len() == collection.items.len() - 1
            &&& forall|i: int| 0 <= i < index ==> after.items[i] == collection.items[i]
            &&& forall|i: int| index <= i < after.items.len() ==> after.items[i] == collection.items[i + 1]
        },
{
}

} // verus!
