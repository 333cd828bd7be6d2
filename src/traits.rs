use vstd::prelude::*;

verus! {

/// A value produced while handling an input event, tagged with whether the
/// event was consumed (`Absorbed`) or is left for the ancestors (`Unabsorbed`).
pub enum EventAction<T> {
    Absorbed(T),
    Unabsorbed(T),
}

/// The textual capability: every entity has a name it shows and can rename.
pub trait Display: Sized {
    spec fn spec_text(&self) -> Seq<char>;

    /// `next` is `self` with its text set to `t`, and nothing else changed.
    spec fn renamed(&self, t: Seq<char>, next: Self) -> bool;

    fn text(&self) -> (r: String)
        ensures
            r@ == self.spec_text(),
    ;

    fn set_text(&mut self, name: String)
        ensures
            old(self).renamed(name@, *final(self)),
            final(self).spec_text() == name@,
    ;
}

/// The child-sink capability: an ordered container that children can be
/// inserted into and removed from by position.
pub trait YankDest: Sized {
    type Query;

    spec fn insert_ok(&self, q: Self::Query) -> bool;

    spec fn inserted(&self, q: Self::Query, next: Self) -> bool;

    spec fn removed(&self, q: Self::Query, next: Self, r: bool) -> bool;

    fn insert(&mut self, q: Self::Query)
        requires
            old(self).insert_ok(q),
        ensures
            old(self).inserted(q, *final(self)),
    ;

    fn remove(&mut self, q: Self::Query) -> (r: bool)
        ensures
            old(self).removed(q, *final(self), r),
    ;
}

/// The selection-provider capability: children by position, and the one the
/// cursor is on.
pub trait Provider {
    type Item;

    spec fn spec_get(&self, index: int) -> Self::Item;

    spec fn spec_selected(&self) -> Self::Item;

    fn get(&self, index: usize) -> (r: Self::Item)
        ensures
            r == self.spec_get(index as int),
    ;

    fn get_selected(&self) -> (r: Self::Item)
        ensures
            r == self.spec_selected(),
    ;
}

/// A selection cursor; `none` is the cursor of a list with nothing to select.
#[derive(Clone, Copy, Debug, PartialEq, Eq, Structural)]
pub struct SelectedIndex {
    index: Option<usize>,
}

impl View for SelectedIndex {
    type V = Option<usize>;

    closed spec fn view(&self) -> Option<usize> {
        self.index
    }
}

impl SelectedIndex {
    pub fn new() -> (r: Self)
        ensures
            r@ == Some(0usize),
    {
        SelectedIndex { index: Some(0) }
    }

    pub fn none() -> (r: Self)
        ensures
            r@ is None,
    {
        SelectedIndex { index: None }
    }

    pub fn selected_index(&self) -> (r: usize)
        requires
            self@ is Some,
        ensures
            Some(r) == self@,
    {
        match self.index {
            Some(i) => i,
            None => 0,
        }
    }

    /// The selected position, if any.
    pub fn selected(&self) -> (r: Option<usize>)
        ensures
            r == self@,
    {
        self.index
    }

    pub fn select(&mut self, index: usize)
        ensures
            final(self)@ == Some(index),
    {
        self.index = Some(index);
    }
}

impl Default for SelectedIndex {
    fn default() -> (r: Self)
        ensures
            r@ == Some(0usize),
    {
        SelectedIndex::new()
    }
}

} // verus!
