use vstd::prelude::*;

verus! {

/// An interned identifier: the index of its text in the `Interner`.
pub type Name = usize;

/// The table of identifier texts; a `Name` is an index into it.
pub struct Interner {
    names: Vec<String>,
}

impl View for Interner {
    type V = Seq<String>;

    closed spec fn view(&self) -> Seq<String> {
        self.names@
    }
}

impl Interner {
    pub fn new() -> (r: Interner)
        ensures
            r@ == Seq::<String>::empty(),
    {
        Interner { names: Vec::new() }
    }

    /// Returns the name of `text`: the first entry whose text is `text`, or
    /// a new entry appended at the end when there is none.
    pub fn intern(&mut self, text: &str) -> (name: Name)
        ensures
            name < final(self)@.len(),
            final(self)@[name as int]@ == text@,
            (exists|i: int| 0 <= i < old(self)@.len() && old(self)@[i]@ == text@) ==> {
                &&& final(self)@ == old(self)@
                &&& forall|i: int| 0 <= i < name ==> old(self)@[i]@ != text@
            },
            (forall|i: int| 0 <= i < old(self)@.len() ==> old(self)@[i]@ != text@) ==> {
                &&& name == old(self)@.len()
                &&& final(self)@.len() == old(self)@.len() + 1
                &&& final(self)@.subrange(0, name as int) == old(self)@
            },
    {
        let owned = String::from_str(text);
        let mut i: usize = 0;
        while i < self.names.len()
            invariant
                i <= self.names@.len(),
                self@ == old(self)@,
                owned@ == text@,
                forall|j: int| 0 <= j < i ==> self.names@[j]@ != text@,
            decreases self.names@.len() - i,
        {
            if self.names[i] == owned {
                return i;
            }
            i = i + 1;
        }
        let name = self.names.len();
        self.names.push(owned);
        proof {
            assert(self@.subrange(0, name as int) =~= old(self)@);
        }
        name
    }

    /// The text of `name`.
    pub fn str(&self, name: Name) -> (s: &String)
        requires
            name < self@.len(),
        ensures
            *s == self@[name as int],
    {
        &self.names[name]
    }
}

} // verus!
