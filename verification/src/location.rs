use vstd::prelude::*;

verus! {

/// A position in a named source text.
pub struct Location {
    /// The name of the source, such as a file name.
    pub name: String,
    /// The line, counted from 1.
    pub line: usize,
    /// The column, counted from 1.
    pub column: usize,
}

impl Location {
    /// Whether the position can be one in a text: lines and columns are
    /// counted from 1, so neither is 0.
    pub open spec fn is_valid(&self) -> bool {
        self.line >= 1 && self.column >= 1
    }

    /// The first position of the source called `name`: line 1, column 1.
    pub fn new(name: String) -> (location: Location)
        ensures
            location.name == name,
            location.line == 1,
            location.column == 1,
            location.is_valid(),
    {
        Location { name, line: 1, column: 1 }
    }
}

impl Clone for Location {
    /// A copy of the position, equal to it in every field.
    fn clone(&self) -> (copy: Location)
        ensures
            copy == *self,
    {
        Location { name: self.name.clone(), line: self.line, column: self.column }
    }
}

} // verus!
