//! Linked shader programs.

use vstd::prelude::*;

use crate::command::{calls_of, emit, GlCall, GlCommand};

verus! {

/// A linked GL program object, named by `id`.
#[derive(PartialEq, Eq, Structural, Debug)]
pub struct Shader {
    pub id: u32,
}

impl Shader {
    /// Makes this program current.
    pub fn bind(&self, out: &mut Vec<GlCommand>)
        ensures
            calls_of(final(out)@) == calls_of(old(out)@).push(GlCall::UseProgram { program: self.id }),
    {
        emit(out, GlCommand::UseProgram { program: self.id });
    }

    /// Deletes the program.
    pub fn delete(self, out: &mut Vec<GlCommand>)
        ensures
            calls_of(final(out)@) == calls_of(old(out)@).push(GlCall::DeleteProgram { program: self.id }),
    {
        emit(out, GlCommand::DeleteProgram { program: self.id });
    }
}

} // verus!
