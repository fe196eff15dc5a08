use vstd::prelude::*;

verus! {

/// A vector that only grows: elements are appended and never removed, so
/// an index, once handed out, stays valid.
pub struct GrowableVec<T> {
    elements: Vec<T>,
}

impl<T> View for GrowableVec<T> {
    type V = Seq<T>;

    closed spec fn view(&self) -> Seq<T> {
        self.elements@
    }
}

impl<T> GrowableVec<T> {
    pub fn new() -> (v: GrowableVec<T>)
        ensures
            v@ == Seq::<T>::empty(),
    {
        GrowableVec { elements: Vec::new() }
    }

    pub fn push(&mut self, element: T)
        ensures
            final(self)@ == old(self)@.push(element),
    {
        self.elements.push(element);
    }

    pub fn len(&self) -> (n: usize)
        ensures
            n == self@.len(),
    {
        self.elements.len()
    }

    pub fn idx_usize(&self, index: usize) -> (e: &T)
        requires
            index < self@.len(),
        ensures
            *e == self@[index as int],
    {
        &self.elements[index]
    }
}

} // verus!
