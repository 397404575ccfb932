use vstd::prelude::*;

verus! {

/// One directory on disk, named by its path.
#[derive(Debug, Clone)]
pub struct Directory {
    pub path: String,
}

impl Directory {
    pub fn new(path: String) -> (r: Directory)
        ensures
            r.path@ == path@,
    {
        Directory { path }
    }

    /// The path, as it is shown to a reader.
    pub fn display(&self) -> (r: String)
        ensures
            r@ == self.path@,
    {
        self.path.clone()
    }
}

} // verus!
