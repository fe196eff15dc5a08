use vstd::prelude::*;

use crate::ast::Position;
use crate::error::msg::{SemError, SemErrorAndPos};
use crate::vm::FileId;

verus! {

/// The errors reported so far, in the order in which they were reported.
pub struct Diagnostic {
    errors: Vec<SemErrorAndPos>,
}

impl View for Diagnostic {
    type V = Seq<SemErrorAndPos>;

    closed spec fn view(&self) -> Seq<SemErrorAndPos> {
        self.errors@
    }
}

impl Diagnostic {
    pub fn new() -> (d: Diagnostic)
        ensures
            d@ == Seq::<SemErrorAndPos>::empty(),
    {
        Diagnostic { errors: Vec::new() }
    }

    pub fn errors(&self) -> (e: &Vec<SemErrorAndPos>)
        ensures
            e@ == self@,
    {
        &self.errors
    }

    pub fn has_errors(&self) -> (b: bool)
        ensures
            b == (self@.len() > 0),
    {
        self.errors.len() > 0
    }

    pub fn report(&mut self, file: FileId, pos: Position, msg: SemError)
        ensures
            final(self)@ == old(self)@.push(SemErrorAndPos { file, pos, msg }),
    {
        self.errors.push(SemErrorAndPos { file, pos, msg });
    }
}

} // verus!
